use yarbot::commands::{channel_check, set_channel, CommandChannel, Reason};
use yarbot::commands::general;
use yarbot::commands::point;
use yarbot::commands::raid;
use yarbot::config;
use yarbot::models::ConfigQuery;

fn user_text(verdict: Result<(), Reason>) -> String {
    match verdict {
        Err(Reason::User(text)) => text,
        _ => panic!("expected a reason for the user"),
    }
}

#[test]
fn check_passes_in_the_configured_channel() {
    assert!(channel_check("42", Ok(Some("42".to_string()))).is_ok());
}

#[test]
fn check_refuses_other_channels() {
    assert_eq!(
        user_text(channel_check("43", Ok(Some("42".to_string())))),
        "You can't use this command in this channel"
    );
}

#[test]
fn check_asks_for_a_channel_when_none_is_set() {
    assert_eq!(user_text(channel_check("42", Ok(None))), "Please set the bot channel");
}

#[test]
fn check_logs_a_failed_read() {
    match channel_check("42", Err("database is locked".to_string())) {
        Err(Reason::Log(text)) => assert_eq!(text, "database is locked"),
        _ => panic!("expected a reason for the log"),
    }
}

#[test]
fn each_group_has_its_own_key() {
    assert_eq!(CommandChannel::Bot.config_key(), "bot_channel_id");
    assert_eq!(CommandChannel::Raid.config_key(), "raid_channel_id");
    assert_eq!(CommandChannel::Point.config_key(), "point_channel_id");
}

#[test]
fn stored_channel_passes_its_check() {
    let row = set_channel(CommandChannel::Raid, "777");
    assert_eq!(row.key, "raid_channel_id");
    assert_eq!(row.value, "777");
    assert!(channel_check("777", Ok(Some(row.value.to_string()))).is_ok());
}

#[test]
fn set_commands_store_and_reply() {
    let general = general::set("1");
    assert_eq!(general.row.key, "bot_channel_id");
    assert_eq!(general.row.value, "1");
    assert_eq!(general.reply, Some("Set bot command channel"));
    let raid = raid::set_channel("2");
    assert_eq!(raid.row.key, "raid_channel_id");
    assert_eq!(raid.reply, Some("Set raid channel"));
    let point = point::set_channel("3");
    assert_eq!(point.row.key, "point_channel_id");
    assert_eq!(point.row.value, "3");
    assert_eq!(point.reply, None);
}

#[test]
fn config_get_gives_the_stored_value() {
    let row = ConfigQuery { key: "bot_channel_id".to_string(), value: "9".to_string() };
    assert_eq!(config::get(Some(row)), Some("9".to_string()));
    assert_eq!(config::get(None), None);
}

#[test]
fn config_set_builds_the_row() {
    let row = config::set("k", "v");
    assert_eq!(row.key, "k");
    assert_eq!(row.value, "v");
}
