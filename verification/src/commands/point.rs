//! The `point` commands: giving and taking points, and showing a user's
//! points or the list of pirates.
use vstd::prelude::*;
use crate::commands::{set_channel as store_channel, ChannelSetting, CommandChannel};
use crate::models::{UserInsertPoint, UserQueryPoint};
use crate::text::{push_signed_decimal, signed_decimal};

verus! {

/// The group of points commands.
pub struct Point;

/// The usage of the `point` command.
pub fn point() -> (usage: &'static str)
    ensures
        usage@
            == "~yar point <add {user mention} {points to add}, take {user mentition} {points to take}, list, get {user mentition}>\nAdd and Take require the Point role"@,
{
    "~yar point <add {user mention} {points to add}, take {user mentition} {points to take}, list, get {user mentition}>\nAdd and Take require the Point role"
}

/// What `point add` does: the row it stores (added to the user's points if
/// the user has a row already) and its reply once stored.
pub struct AddPoints<'a> {
    pub row: UserInsertPoint<'a>,
    pub reply: String,
}

/// What `point take` does: the user's new points and its reply once stored.
pub struct TakePoints {
    pub user_points: i32,
    pub reply: String,
}

/// The reply once `amount` points were added to `user`.
pub open spec fn added_reply(user: Seq<char>, amount: int) -> Seq<char> {
    "Added "@ + signed_decimal(amount) + " points to "@ + user
}

/// The reply once `amount` points were taken from `user`.
pub open spec fn took_reply(user: Seq<char>, amount: int) -> Seq<char> {
    "Took "@ + signed_decimal(amount) + " points from "@ + user
}

/// The line of the list of pirates that shows `row`.
pub open spec fn pirate_line(row: UserQueryPoint) -> Seq<char> {
    row.id@ + " - "@ + signed_decimal(row.user_points as int) + "\n"@
}

/// The lines that show `rows`, in their order.
pub open spec fn pirate_lines(rows: Seq<UserQueryPoint>) -> Seq<char>
    decreases rows.len(),
{
    if rows.len() == 0 {
        Seq::empty()
    } else {
        pirate_lines(rows.drop_last()) + pirate_line(rows.last())
    }
}

/// The heading of the list of pirates.
pub open spec fn list_heading() -> Seq<char> {
    "The top 5 pirates are:\n"@
}

/// `point add`: gives `amount` points to `user`.
pub fn add<'a>(user: &'a str, amount: i32) -> (change: AddPoints<'a>)
    ensures
        change.row.id@ == user@,
        change.row.user_points == amount,
        change.reply@ == added_reply(user@, amount as int),
{
    let mut reply = String::from_str("Added ");
    push_signed_decimal(&mut reply, amount as i64);
    reply.append(" points to ");
    reply.append(user);
    AddPoints { row: UserInsertPoint { id: user, user_points: amount }, reply }
}

/// `point take`: takes `amount` points from `user`, who has `current` points.
pub fn take(user: &str, current: i32, amount: i32) -> (change: TakePoints)
    requires
        i32::MIN <= current - amount <= i32::MAX,
    ensures
        change.user_points == current - amount,
        change.reply@ == took_reply(user@, amount as int),
{
    let mut reply = String::from_str("Took ");
    push_signed_decimal(&mut reply, amount as i64);
    reply.append(" points from ");
    reply.append(user);
    TakePoints { user_points: current - amount, reply }
}

/// `point get`: the reply that shows the points of the first row found.
pub fn get(rows: &Vec<UserQueryPoint>) -> (reply: String)
    requires
        rows.len() > 0,
    ensures
        reply@ == signed_decimal(rows@[0].user_points as int),
{
    let mut reply = String::new();
    push_signed_decimal(&mut reply, rows[0].user_points as i64);
    assert(Seq::<char>::empty() + signed_decimal(rows@[0].user_points as int) =~= signed_decimal(
        rows@[0].user_points as int,
    ));
    reply
}

/// `point list`: the reply that shows `rows` (as read, by ascending points)
/// in reverse order, one line each under a heading.
pub fn list(rows: &Vec<UserQueryPoint>) -> (reply: String)
    ensures
        reply@ == list_heading() + pirate_lines(rows@.reverse()),
{
    let mut reply = String::from_str("The top 5 pirates are:\n");
    let n = rows.len();
    let ghost reversed = rows@.reverse();
    assert(reversed.take(0) =~= Seq::<UserQueryPoint>::empty());
    let mut j: usize = 0;
    while j < n
        invariant
            n == rows.len(),
            j <= n,
            reversed == rows@.reverse(),
            reversed.len() == n,
            reply@ == list_heading() + pirate_lines(reversed.take(j as int)),
        decreases n - j,
    {
        let row = &rows[n - 1 - j];
        assert(reversed[j as int] == rows@[n - 1 - j]);
        let ghost before = reply@;
        reply.append(row.id.as_str());
        reply.append(" - ");
        push_signed_decimal(&mut reply, row.user_points as i64);
        reply.append("\n");
        assert(reversed.take(j + 1).drop_last() =~= reversed.take(j as int));
        assert(reversed.take(j + 1).last() == rows@[n - 1 - j]);
        assert(reply@ =~= list_heading() + pirate_lines(reversed.take(j + 1)));
        j += 1;
    }
    assert(reversed.take(n as int) =~= reversed);
    reply
}

/// When the rows come by ascending points, as the table is read for the list,
/// the list shows them by descending points: the pirate with the most points
/// comes first.
pub proof fn lemma_list_shows_most_points_first(rows: Seq<UserQueryPoint>)
    requires
        forall|i: int, j: int| 0 <= i <= j < rows.len() ==> rows[i].user_points <= rows[j].user_points,
    ensures
        forall|i: int, j: int|
            0 <= i <= j < rows.len() ==> rows.reverse()[i].user_points >= rows.reverse()[j].user_points,
{
    assert forall|i: int, j: int| 0 <= i <= j < rows.len() implies rows.reverse()[i].user_points
        >= rows.reverse()[j].user_points by {
        assert(rows.reverse()[i] == rows[rows.len() - 1 - i]);
        assert(rows.reverse()[j] == rows[rows.len() - 1 - j]);
    }
}

/// The list has one line per row, in the order of the rows: no rows give no
/// lines, and one more row adds exactly its line, `{id} - {points}`, at the
/// end, however many rows come before it. The heading is fixed.
pub proof fn lemma_one_line_per_row(rows: Seq<UserQueryPoint>, row: UserQueryPoint)
    ensures
        pirate_lines(Seq::<UserQueryPoint>::empty()) == Seq::<char>::empty(),
        pirate_lines(rows.push(row)) == pirate_lines(rows) + row.id@ + " - "@ + signed_decimal(
            row.user_points as int,
        ) + "\n"@,
        list_heading() == "The top 5 pirates are:\n"@,
{
    assert(rows.push(row).drop_last() =~= rows);
    assert(pirate_lines(rows) + (row.id@ + " - "@ + signed_decimal(row.user_points as int) + "\n"@)
        =~= pirate_lines(rows) + row.id@ + " - "@ + signed_decimal(row.user_points as int) + "\n"@);
}

/// The replies of `point add` and `point take` name the amount (in decimal)
/// and the user.
pub proof fn lemma_points_replies(user: Seq<char>, amount: int)
    ensures
        added_reply(user, amount) == "Added "@ + signed_decimal(amount) + " points to "@ + user,
        took_reply(user, amount) == "Took "@ + signed_decimal(amount) + " points from "@ + user,
{
}

/// `point set channel`: makes `channel_id` the channel of the commands that
/// change points; it sends no reply.
pub fn set_channel<'a>(channel_id: &'a str) -> (setting: ChannelSetting<'a>)
    ensures
        setting.row.key@ == CommandChannel::Point.key(),
        setting.row.value@ == channel_id@,
        setting.reply is None,
{
    ChannelSetting { row: store_channel(CommandChannel::Point, channel_id), reply: None }
}

} // verus!
