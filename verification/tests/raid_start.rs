use yarbot::commands::raid::{
    announcement_failed, end, raid, read_presence, read_user_id, start, StartStep,
};
use yarbot::json::{object_get, Json, JsonNumber};

fn text(s: &str) -> Json {
    Json::String(s.to_string())
}

fn object(members: Vec<(&str, Json)>) -> Json {
    Json::Object(members.into_iter().map(|(k, v)| (k.to_string(), v)).collect())
}

fn presence(members: Vec<(&str, Json)>) -> Json {
    object(vec![("userPresences", Json::Array(vec![object(members)]))])
}

fn apology(reason: &str) -> StartStep {
    StartStep::Apologize { reply: "Yar? Are you online?".to_string(), reason: reason.to_string() }
}

#[test]
fn start_without_a_name_replies_with_usage() {
    assert_eq!(start(None), StartStep::Reply("~yar raid start {username}".to_string()));
}

#[test]
fn start_with_a_name_looks_the_user_up() {
    assert_eq!(
        start(Some("Anne".to_string())),
        StartStep::FetchUserId(
            "https://api.roblox.com/users/get-by-username?username=Anne".to_string()
        )
    );
}

#[test]
fn user_id_found_leads_to_presence() {
    let body = object(vec![("Id", Json::Number(JsonNumber::PosInt(99))), ("Username", text("Anne"))]);
    assert_eq!(
        read_user_id(&body),
        StartStep::FetchPresence {
            url: "https://presence.roblox.com/v1/presence/users".to_string(),
            user_id: 99
        }
    );
}

#[test]
fn user_id_lookup_failure_means_misspelling() {
    let body = object(vec![("success", Json::Bool(false)), ("errorMessage", text("User not found"))]);
    assert_eq!(
        read_user_id(&body),
        StartStep::Reply("Yar? Did you misspell the username put in?".to_string())
    );
}

#[test]
fn user_id_answer_that_is_no_object_fails() {
    assert_eq!(
        read_user_id(&Json::Null),
        StartStep::Fail("Could not deserialize id_json as object".to_string())
    );
}

#[test]
fn user_id_that_is_no_integer_fails() {
    let body = object(vec![("Id", Json::Number(JsonNumber::NegInt(-3)))]);
    assert_eq!(read_user_id(&body), StartStep::Fail("Could not get id from the username".to_string()));
    let body = object(vec![("Id", Json::Number(JsonNumber::Float))]);
    assert_eq!(read_user_id(&body), StartStep::Fail("Could not get id from the username".to_string()));
}

#[test]
fn presence_in_a_game_is_announced() {
    let body = presence(vec![
        ("placeId", Json::Number(JsonNumber::PosInt(3411100258))),
        ("gameId", text("5f1c-77")),
        ("lastLocation", text("Pirate Bay")),
    ]);
    assert_eq!(
        read_presence(&body),
        StartStep::Announce(
            "@pirate Yar! Rading time! We're playing: Pirate Bay\nhttps://web.roblox.com/home?placeID=3411100258&gameID=5f1c-77"
                .to_string()
        )
    );
}

#[test]
fn presence_answer_errors_fail_the_command() {
    assert_eq!(
        read_presence(&Json::Array(vec![])),
        StartStep::Fail("Could not deserialize game_url_json as object".to_string())
    );
    assert_eq!(
        read_presence(&object(vec![("userPresences", Json::Null)])),
        StartStep::Fail("Could not get userPresences as array".to_string())
    );
    assert_eq!(
        read_presence(&object(vec![("userPresences", Json::Array(vec![]))])),
        StartStep::Fail("Could not get the first value of userPresences".to_string())
    );
}

#[test]
fn presence_without_a_game_gets_an_apology() {
    let body = object(vec![("userPresences", Json::Array(vec![Json::Null]))]);
    assert_eq!(read_presence(&body), apology("Could not deserialize user_json as object from user_json"));
    let body = presence(vec![("placeId", Json::Null)]);
    assert_eq!(read_presence(&body), apology("Could not deserialize placeId as u64 from user_json"));
    let body = presence(vec![("placeId", Json::Number(JsonNumber::PosInt(1))), ("gameId", Json::Null)]);
    assert_eq!(read_presence(&body), apology("Could not deserialize gameId as str from user_json"));
    let body = presence(vec![
        ("placeId", Json::Number(JsonNumber::PosInt(1))),
        ("gameId", text("g")),
        ("lastLocation", Json::Null),
    ]);
    assert_eq!(read_presence(&body), apology("Could not desrialize lastLocation as str from user_json"));
}

#[test]
fn failed_announcement_gets_an_apology() {
    assert_eq!(announcement_failed("timeout".to_string()), apology("timeout"));
}

#[test]
fn raid_usage_and_end() {
    assert_eq!(raid(), "~yar raid <start {username}, end>");
    assert_eq!(end(), "@pirate Yar! The raid is now over!");
}

#[test]
fn object_lookup_takes_the_first_member_with_the_key() {
    let members = vec![
        ("a".to_string(), Json::Number(JsonNumber::PosInt(1))),
        ("b".to_string(), Json::Number(JsonNumber::PosInt(2))),
        ("a".to_string(), Json::Number(JsonNumber::PosInt(3))),
    ];
    assert_eq!(object_get(&members, "a").and_then(|v| v.as_u64()), Some(1));
    assert_eq!(object_get(&members, "b").and_then(|v| v.as_u64()), Some(2));
    assert!(object_get(&members, "c").is_none());
}

#[test]
fn json_reads_by_kind() {
    assert_eq!(Json::Number(JsonNumber::PosInt(5)).as_u64(), Some(5));
    assert_eq!(Json::Number(JsonNumber::NegInt(-5)).as_u64(), None);
    assert_eq!(text("x").as_str(), Some("x"));
    assert_eq!(Json::Bool(true).as_str(), None);
    assert!(Json::Array(vec![Json::Null]).as_array().map(|v| v.len()) == Some(1));
    assert!(Json::Null.as_object().is_none());
}
