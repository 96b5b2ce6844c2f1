//! The limits, the place id and the web addresses the bot talks to.
use vstd::prelude::*;
use crate::text::{decimal, is_digit, lemma_decimal_injective, lemma_decimal_is_digits, push_decimal};

verus! {

/// How many requests the bot makes at most in one batch.
pub const REQUEST_LIMIT: usize = 20;

/// How many times the bot retries a request at most.
pub const RETRY_LIMIT: usize = 100;

/// The id of the game's place.
pub const PLACE_ID: &'static str = "3411100258";

/// The address of a user's avatar headshot.
pub open spec fn avatar_url(user_id: Seq<char>) -> Seq<char> {
    "https://www.roblox.com/headshot-thumbnail/image?userId="@ + user_id
        + "&width=48&height=48&format=png"@
}

/// The address that looks a user's id up by their user name.
pub open spec fn id_url(user_name: Seq<char>) -> Seq<char> {
    "https://api.roblox.com/users/get-by-username?username="@ + user_name
}

/// The address of the page of a place's game instances that starts at `start`.
pub open spec fn game_instances_url(place_id: Seq<char>, start: nat) -> Seq<char> {
    "https://web.roblox.com/games/getgameinstancesjson?placeId="@ + place_id
        + "&startIndex="@ + decimal(start)
}

/// The address that joins the game `guid` of a place.
pub open spec fn join_url(place_id: Seq<char>, guid: Seq<char>) -> Seq<char> {
    "https://web.roblox.com/home?placeID="@ + place_id + "&gameID="@ + guid
}

/// The address of the presence service.
pub open spec fn game_url() -> Seq<char> {
    "https://presence.roblox.com/v1/presence/users"@
}

/// The address of the avatar headshot of `user_id`.
pub fn get_avatar_url(user_id: &str) -> (url: String)
    ensures
        url@ == avatar_url(user_id@),
{
    let mut url = String::from_str("https://www.roblox.com/headshot-thumbnail/image?userId=");
    url.append(user_id);
    url.append("&width=48&height=48&format=png");
    url
}

/// The address that looks up the id of `user_name`.
pub fn get_id_url(user_name: &str) -> (url: String)
    ensures
        url@ == id_url(user_name@),
{
    let mut url = String::from_str("https://api.roblox.com/users/get-by-username?username=");
    url.append(user_name);
    url
}

/// The address of the game instances of `place_id` from index `i` on.
pub fn get_game_instances(place_id: &str, i: usize) -> (url: String)
    ensures
        url@ == game_instances_url(place_id@, i as nat),
{
    let mut url = String::from_str("https://web.roblox.com/games/getgameinstancesjson?placeId=");
    url.append(place_id);
    url.append("&startIndex=");
    push_decimal(&mut url, i as u64);
    url
}

/// The address that joins the game `guid` of the place `place_id`.
pub fn get_join_url(place_id: &str, guid: &str) -> (url: String)
    ensures
        url@ == join_url(place_id@, guid@),
{
    let mut url = String::from_str("https://web.roblox.com/home?placeID=");
    url.append(place_id);
    url.append("&gameID=");
    url.append(guid);
    url
}

/// The address of the presence service.
pub fn get_game_url() -> (url: &'static str)
    ensures
        url@ == game_url(),
{
    "https://presence.roblox.com/v1/presence/users"
}

/// The cookie that signs the bot's web client in with the security token `token`.
pub open spec fn security_cookie_text(token: Seq<char>) -> Seq<char> {
    ".ROBLOSECURITY="@ + token
}

/// The cookie that signs the bot's web client in with the security token `token`.
pub fn security_cookie(token: &str) -> (cookie: String)
    ensures
        cookie@ == security_cookie_text(token@),
{
    let mut cookie = String::from_str(".ROBLOSECURITY=");
    cookie.append(token);
    cookie
}

/// Each address is the service's fixed text with the arguments put in whole,
/// numbers in decimal; the cookie is the token after its name.
pub proof fn lemma_addresses_carry_their_arguments(
    user: Seq<char>,
    place_id: Seq<char>,
    start: nat,
    guid: Seq<char>,
    token: Seq<char>,
)
    ensures
        avatar_url(user) == "https://www.roblox.com/headshot-thumbnail/image?userId="@ + user
            + "&width=48&height=48&format=png"@,
        id_url(user) == "https://api.roblox.com/users/get-by-username?username="@ + user,
        game_instances_url(place_id, start)
            == "https://web.roblox.com/games/getgameinstancesjson?placeId="@ + place_id
            + "&startIndex="@ + decimal(start),
        join_url(place_id, guid) == "https://web.roblox.com/home?placeID="@ + place_id
            + "&gameID="@ + guid,
        game_url() == "https://presence.roblox.com/v1/presence/users"@,
        security_cookie_text(token) == ".ROBLOSECURITY="@ + token,
{
}

/// The avatar address and the id lookup address each name one user: different
/// users get different addresses.
pub proof fn lemma_user_urls_name_their_user(a: Seq<char>, b: Seq<char>)
    ensures
        avatar_url(a) == avatar_url(b) ==> a == b,
        id_url(a) == id_url(b) ==> a == b,
{
    let avatar_pre = "https://www.roblox.com/headshot-thumbnail/image?userId="@;
    let avatar_post = "&width=48&height=48&format=png"@;
    if avatar_url(a) == avatar_url(b) {
        let x = avatar_url(a);
        assert(x.len() == avatar_pre.len() + a.len() + avatar_post.len());
        assert(a =~= x.subrange(avatar_pre.len() as int, (avatar_pre.len() + a.len()) as int));
        assert(b =~= x.subrange(avatar_pre.len() as int, (avatar_pre.len() + b.len()) as int));
    }
    let id_pre = "https://api.roblox.com/users/get-by-username?username="@;
    if id_url(a) == id_url(b) {
        let x = id_url(a);
        assert(a =~= x.subrange(id_pre.len() as int, x.len() as int));
        assert(b =~= x.subrange(id_pre.len() as int, x.len() as int));
    }
}

/// A link that joins a game names its place and its game: two links built from
/// decimal place ids are equal only for the same place and the same game.
pub proof fn lemma_join_url_names_its_game(place_a: nat, game_a: Seq<char>, place_b: nat, game_b: Seq<char>)
    requires
        join_url(decimal(place_a), game_a) == join_url(decimal(place_b), game_b),
    ensures
        place_a == place_b,
        game_a == game_b,
{
    reveal_strlit("&gameID=");
    let pre = "https://web.roblox.com/home?placeID="@;
    let mid = "&gameID="@;
    let da = decimal(place_a);
    let db = decimal(place_b);
    lemma_decimal_is_digits(place_a);
    lemma_decimal_is_digits(place_b);
    let x = join_url(da, game_a);
    let ra = da + mid + game_a;
    let rb = db + mid + game_b;
    assert(x =~= pre + ra);
    assert(join_url(db, game_b) =~= pre + rb);
    assert(ra =~= x.subrange(pre.len() as int, x.len() as int));
    assert(rb =~= x.subrange(pre.len() as int, x.len() as int));
    assert(mid[0] == '&');
    if da.len() < db.len() {
        assert(ra[da.len() as int] == '&');
        assert(rb[da.len() as int] == db[da.len() as int]);
        assert(is_digit(db[da.len() as int]));
    } else if db.len() < da.len() {
        assert(rb[db.len() as int] == '&');
        assert(ra[db.len() as int] == da[db.len() as int]);
        assert(is_digit(da[db.len() as int]));
    }
    assert(da =~= ra.subrange(0, da.len() as int));
    assert(db =~= rb.subrange(0, db.len() as int));
    lemma_decimal_injective(place_a, place_b);
    assert(game_a =~= ra.subrange((da.len() + mid.len()) as int, ra.len() as int));
    assert(game_b =~= rb.subrange((db.len() + mid.len()) as int, rb.len() as int));
}

} // verus!
