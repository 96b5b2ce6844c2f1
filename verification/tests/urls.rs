use yarbot::constant::{
    get_avatar_url, get_game_instances, get_game_url, get_id_url, get_join_url, security_cookie,
    PLACE_ID, REQUEST_LIMIT, RETRY_LIMIT,
};
use yarbot::text::{i32_to_decimal, u64_to_decimal};

#[test]
fn avatar_url_names_the_user() {
    assert_eq!(
        get_avatar_url("12345"),
        "https://www.roblox.com/headshot-thumbnail/image?userId=12345&width=48&height=48&format=png"
    );
}

#[test]
fn id_url_names_the_user() {
    assert_eq!(
        get_id_url("Blackbeard"),
        "https://api.roblox.com/users/get-by-username?username=Blackbeard"
    );
}

#[test]
fn game_instances_url_counts_in_decimal() {
    assert_eq!(
        get_game_instances(PLACE_ID, 0),
        "https://web.roblox.com/games/getgameinstancesjson?placeId=3411100258&startIndex=0"
    );
    assert_eq!(
        get_game_instances("1", 120),
        "https://web.roblox.com/games/getgameinstancesjson?placeId=1&startIndex=120"
    );
}

#[test]
fn join_url_names_place_and_game() {
    assert_eq!(
        get_join_url("3411100258", "abc-def"),
        "https://web.roblox.com/home?placeID=3411100258&gameID=abc-def"
    );
}

#[test]
fn game_url_is_the_presence_service() {
    assert_eq!(get_game_url(), "https://presence.roblox.com/v1/presence/users");
}

#[test]
fn constants_keep_their_values() {
    assert_eq!(REQUEST_LIMIT, 20);
    assert_eq!(RETRY_LIMIT, 100);
    assert_eq!(PLACE_ID, "3411100258");
}

#[test]
fn security_cookie_carries_the_token() {
    assert_eq!(security_cookie("tok"), ".ROBLOSECURITY=tok");
}

#[test]
fn decimal_rendering_matches_to_string() {
    for n in [0u64, 7, 10, 99, 305, 1000, u64::MAX] {
        assert_eq!(u64_to_decimal(n), n.to_string());
    }
    for i in [0i32, 5, -5, -10, 123, i32::MIN, i32::MAX] {
        assert_eq!(i32_to_decimal(i), i.to_string());
    }
}

#[test]
fn different_numbers_render_differently() {
    assert_ne!(u64_to_decimal(12), u64_to_decimal(21));
    assert_ne!(
        get_join_url(&u64_to_decimal(1), "2"),
        get_join_url(&u64_to_decimal(12), "")
    );
}
