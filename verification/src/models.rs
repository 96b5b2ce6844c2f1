//! The rows of the bot's two tables: the points of each user, and the
//! configuration (such as the channel that each group of commands is kept to).
use vstd::prelude::*;

verus! {

/// A row of the points table as it is read.
#[derive(PartialEq, PartialOrd, Eq, Ord)]
pub struct UserQueryPoint {
    pub id: String,
    pub user_points: i32,
}

/// A row of the points table as it is written.
pub struct UserInsertPoint<'a> {
    pub id: &'a str,
    pub user_points: i32,
}

/// A row of the configuration table as it is read.
#[derive(PartialEq, PartialOrd, Eq, Ord)]
pub struct ConfigQuery {
    pub key: String,
    pub value: String,
}

/// A row of the configuration table as it is written.
pub struct ConfigInsert<'a> {
    pub key: &'a str,
    pub value: &'a str,
}

} // verus!
