use yarbot::commands::point::{add, get, list, point, take};
use yarbot::models::UserQueryPoint;

fn row(id: &str, points: i32) -> UserQueryPoint {
    UserQueryPoint { id: id.to_string(), user_points: points }
}

#[test]
fn add_stores_the_amount_and_replies() {
    let change = add("<@1>", 5);
    assert_eq!(change.row.id, "<@1>");
    assert_eq!(change.row.user_points, 5);
    assert_eq!(change.reply, "Added 5 points to <@1>");
    assert_eq!(add("<@1>", -2).reply, "Added -2 points to <@1>");
}

#[test]
fn take_subtracts_and_replies() {
    let change = take("<@2>", 10, 3);
    assert_eq!(change.user_points, 7);
    assert_eq!(change.reply, "Took 3 points from <@2>");
    assert_eq!(take("<@2>", 0, 4).user_points, -4);
}

#[test]
fn get_shows_the_first_row() {
    assert_eq!(get(&vec![row("a", 42)]), "42");
    assert_eq!(get(&vec![row("a", -1), row("b", 9)]), "-1");
}

#[test]
fn list_shows_rows_in_reverse() {
    let rows = vec![row("low", 1), row("mid", 5), row("high", 20)];
    assert_eq!(
        list(&rows),
        "The top 5 pirates are:\nhigh - 20\nmid - 5\nlow - 1\n"
    );
    assert_eq!(list(&vec![]), "The top 5 pirates are:\n");
}

#[test]
fn point_usage() {
    assert_eq!(
        point(),
        "~yar point <add {user mention} {points to add}, take {user mentition} {points to take}, list, get {user mentition}>\nAdd and Take require the Point role"
    );
}
