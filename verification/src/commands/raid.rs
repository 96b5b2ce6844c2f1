//! The `raid` commands: announcing that a raid starts, with a link that joins
//! the game of the raid leader, and that it ends.
//!
//! Starting a raid alternates web requests and decisions. The decisions are
//! the functions here; the program makes each request that a step asks for
//! and hands the answer to the next function.
use vstd::prelude::*;
use crate::commands::{set_channel as store_channel, ChannelSetting, CommandChannel};
use crate::constant::{game_url, get_game_url, get_id_url, get_join_url, id_url, join_url};
use crate::json::{lookup, object_get, Json, JsonNumber};
use crate::text::{decimal, u64_to_decimal};

verus! {

/// The group of raid commands; only members with the `Raid` role use them.
pub struct Raid;

/// What a step of starting a raid asks the program to do next.
#[derive(Clone, Debug, PartialEq, Eq)]
pub enum StartStep {
    /// Reply with this text; the command has succeeded.
    Reply(String),
    /// The command fails with this error.
    Fail(String),
    /// Fetch this address (the user id lookup) and hand the JSON answer to
    /// `read_user_id`.
    FetchUserId(String),
    /// Post `{"userIds": [user_id]}` to `url` and hand the JSON answer to
    /// `read_presence`.
    FetchPresence { url: String, user_id: u64 },
    /// Reply with this announcement; if that reply cannot be sent, hand the
    /// error to `announcement_failed`.
    Announce(String),
    /// Reply with `reply` and log `reason`; the command has succeeded.
    Apologize { reply: String, reason: String },
}

/// A step of starting a raid, with its texts as sequences of characters.
pub enum StartOutcome {
    Reply(Seq<char>),
    Fail(Seq<char>),
    FetchUserId(Seq<char>),
    FetchPresence { url: Seq<char>, user_id: u64 },
    Announce(Seq<char>),
    Apologize { reply: Seq<char>, reason: Seq<char> },
}

impl View for StartStep {
    type V = StartOutcome;

    open spec fn view(&self) -> StartOutcome {
        match self {
            StartStep::Reply(t) => StartOutcome::Reply(t@),
            StartStep::Fail(t) => StartOutcome::Fail(t@),
            StartStep::FetchUserId(u) => StartOutcome::FetchUserId(u@),
            StartStep::FetchPresence { url, user_id } => StartOutcome::FetchPresence {
                url: url@,
                user_id: *user_id,
            },
            StartStep::Announce(t) => StartOutcome::Announce(t@),
            StartStep::Apologize { reply, reason } => StartOutcome::Apologize {
                reply: reply@,
                reason: reason@,
            },
        }
    }
}

/// The reply to anything that goes wrong once the raid leader's presence has
/// been fetched.
pub open spec fn apology_text() -> Seq<char> {
    "Yar? Are you online?"@
}

/// The announcement of a raid in the game `game_name`, joined at `join`.
pub open spec fn announcement(game_name: Seq<char>, join: Seq<char>) -> Seq<char> {
    "@pirate Yar! Rading time! We're playing: "@ + game_name + "\n"@ + join
}

/// What `raid start` does with its argument, the raid leader's user name.
pub open spec fn start_outcome(username: Option<Seq<char>>) -> StartOutcome {
    match username {
        None => StartOutcome::Reply("~yar raid start {username}"@),
        Some(name) => StartOutcome::FetchUserId(id_url(name)),
    }
}

/// The answer of the id lookup can be read without indexing a missing
/// member: an object without `success` has an `Id`.
pub open spec fn user_id_answer_readable(body: Json) -> bool {
    match body {
        Json::Object(members) => lookup(members@, "success"@) is Some || lookup(
            members@,
            "Id"@,
        ) is Some,
        _ => true,
    }
}

/// What the answer of the id lookup leads to. The service only answers with
/// a `success` member when the lookup failed.
pub open spec fn user_id_outcome(body: Json) -> StartOutcome {
    match body {
        Json::Object(members) => if lookup(members@, "success"@) is Some {
            StartOutcome::Reply("Yar? Did you misspell the username put in?"@)
        } else {
            match lookup(members@, "Id"@).unwrap().u64_value() {
                Some(id) => StartOutcome::FetchPresence { url: game_url(), user_id: id },
                None => StartOutcome::Fail("Could not get id from the username"@),
            }
        },
        _ => StartOutcome::Fail("Could not deserialize id_json as object"@),
    }
}

/// The member of the first presence can be read without indexing a missing
/// member: each member that is read is there once the members before it have
/// the expected kind.
pub open spec fn presence_readable(presence: Json) -> bool {
    match presence {
        Json::Object(members) => {
            &&& lookup(members@, "placeId"@) is Some
            &&& lookup(members@, "placeId"@).unwrap().u64_value() is Some ==> {
                &&& lookup(members@, "gameId"@) is Some
                &&& lookup(members@, "gameId"@).unwrap().str_value() is Some ==> lookup(
                    members@,
                    "lastLocation"@,
                ) is Some
            }
        },
        _ => true,
    }
}

/// The answer of the presence service can be read without indexing a missing
/// member.
pub open spec fn presence_answer_readable(body: Json) -> bool {
    match body {
        Json::Object(members) => {
            &&& lookup(members@, "userPresences"@) is Some
            &&& match lookup(members@, "userPresences"@).unwrap() {
                Json::Array(items) => items@.len() > 0 ==> presence_readable(items@[0]),
                _ => true,
            }
        },
        _ => true,
    }
}

/// What the first presence of the raid leader leads to.
pub open spec fn first_presence_outcome(presence: Json) -> StartOutcome {
    match presence {
        Json::Object(members) => match lookup(members@, "placeId"@).unwrap().u64_value() {
            None => StartOutcome::Apologize {
                reply: apology_text(),
                reason: "Could not deserialize placeId as u64 from user_json"@,
            },
            Some(place) => match lookup(members@, "gameId"@).unwrap().str_value() {
                None => StartOutcome::Apologize {
                    reply: apology_text(),
                    reason: "Could not deserialize gameId as str from user_json"@,
                },
                Some(game) => match lookup(members@, "lastLocation"@).unwrap().str_value() {
                    None => StartOutcome::Apologize {
                        reply: apology_text(),
                        reason: "Could not desrialize lastLocation as str from user_json"@,
                    },
                    Some(game_name) => StartOutcome::Announce(
                        announcement(game_name, join_url(decimal(place as nat), game)),
                    ),
                },
            },
        },
        _ => StartOutcome::Apologize {
            reply: apology_text(),
            reason: "Could not deserialize user_json as object from user_json"@,
        },
    }
}

/// What the answer of the presence service leads to.
pub open spec fn presence_outcome(body: Json) -> StartOutcome {
    match body {
        Json::Object(members) => match lookup(members@, "userPresences"@).unwrap() {
            Json::Array(items) => if items@.len() == 0 {
                StartOutcome::Fail("Could not get the first value of userPresences"@)
            } else {
                first_presence_outcome(items@[0])
            },
            _ => StartOutcome::Fail("Could not get userPresences as array"@),
        },
        _ => StartOutcome::Fail("Could not deserialize game_url_json as object"@),
    }
}

/// `raid start` with a user name looks that whole name up at the id service;
/// without one it answers with the usage.
pub proof fn lemma_start_looks_up_the_whole_name(name: Seq<char>)
    ensures
        start_outcome(Some(name)) == StartOutcome::FetchUserId(
            "https://api.roblox.com/users/get-by-username?username="@ + name,
        ),
        start_outcome(None) == StartOutcome::Reply("~yar raid start {username}"@),
{
}

/// The id answer is read by its `success` and `Id` members alone: a `success`
/// member (the lookup failed) always means a misspelling; without it, a
/// non-negative integer `Id` is the user whose presence is fetched, from the
/// presence service, whatever other members the answer has; and the
/// misspelling reply comes exactly when `success` is there.
pub proof fn lemma_user_id_answer_read(members: Vec<(String, Json)>, id: u64)
    ensures
        lookup(members@, "success"@) is Some ==> user_id_outcome(Json::Object(members))
            == StartOutcome::Reply("Yar? Did you misspell the username put in?"@),
        lookup(members@, "success"@) is None && lookup(members@, "Id"@) == Some(
            Json::Number(JsonNumber::PosInt(id)),
        ) ==> user_id_outcome(Json::Object(members)) == (StartOutcome::FetchPresence {
            url: "https://presence.roblox.com/v1/presence/users"@,
            user_id: id,
        }),
        lookup(members@, "success"@) is None && lookup(members@, "Id"@) is Some && lookup(
            members@,
            "Id"@,
        ).unwrap().u64_value() is None ==> user_id_outcome(Json::Object(members))
            == StartOutcome::Fail("Could not get id from the username"@),
        (user_id_outcome(Json::Object(members)) == StartOutcome::Reply(
            "Yar? Did you misspell the username put in?"@,
        )) <==> lookup(members@, "success"@) is Some,
        lookup(members@, "success"@) is Some || lookup(members@, "Id"@) is Some
            ==> user_id_answer_readable(Json::Object(members)),
{
}

/// An id answer that is not an object fails the command, and can be read.
pub proof fn lemma_user_id_answer_not_object(body: Json)
    ensures
        body.object_members() is None ==> user_id_outcome(body) == StartOutcome::Fail(
            "Could not deserialize id_json as object"@,
        ) && user_id_answer_readable(body),
{
}

/// When the raid leader's first presence names a place `place`, a game `game`
/// and a location `location`, the raid is announced in that location with a
/// link that joins that game in the leader's own place (its id in decimal);
/// such an answer can be read.
pub proof fn lemma_announcement_joins_leaders_game(
    members: Vec<(String, Json)>,
    items: Vec<Json>,
    fields: Vec<(String, Json)>,
    place: u64,
    game: String,
    location: String,
)
    requires
        lookup(members@, "userPresences"@) == Some(Json::Array(items)),
        items@.len() > 0,
        items@[0] == Json::Object(fields),
        lookup(fields@, "placeId"@) == Some(Json::Number(JsonNumber::PosInt(place))),
        lookup(fields@, "gameId"@) == Some(Json::String(game)),
        lookup(fields@, "lastLocation"@) == Some(Json::String(location)),
    ensures
        presence_answer_readable(Json::Object(members)),
        presence_outcome(Json::Object(members)) == StartOutcome::Announce(
            "@pirate Yar! Rading time! We're playing: "@ + location@ + "\n"@
                + "https://web.roblox.com/home?placeID="@ + decimal(place as nat) + "&gameID="@
                + game@,
        ),
{
    assert("@pirate Yar! Rading time! We're playing: "@ + location@ + "\n"@ + (
    "https://web.roblox.com/home?placeID="@ + decimal(place as nat) + "&gameID="@ + game@)
        =~= "@pirate Yar! Rading time! We're playing: "@ + location@ + "\n"@
        + "https://web.roblox.com/home?placeID="@ + decimal(place as nat) + "&gameID="@ + game@);
}

/// The presence answer fails the command when it is not an object, when its
/// `userPresences` is not an array, or when that array is empty; otherwise
/// it is read by its first presence alone. Each of these answers can be read
/// whenever its first presence can.
pub proof fn lemma_presence_answer_read(body: Json)
    ensures
        body.object_members() is None ==> presence_outcome(body) == StartOutcome::Fail(
            "Could not deserialize game_url_json as object"@,
        ) && presence_answer_readable(body),
        body matches Json::Object(members) ==> {
            let presences = lookup(members@, "userPresences"@);
            &&& presences is Some && presences.unwrap().array_items() is None ==> presence_outcome(
                body,
            ) == StartOutcome::Fail("Could not get userPresences as array"@)
            &&& presences is Some && presences.unwrap().array_items() == Some(Seq::<Json>::empty())
                ==> presence_outcome(body) == StartOutcome::Fail(
                "Could not get the first value of userPresences"@,
            )
            &&& (presences is Some && presences.unwrap().array_items() is Some
                && presences.unwrap().array_items().unwrap().len() > 0) ==> presence_outcome(body)
                == first_presence_outcome(presences.unwrap().array_items().unwrap()[0])
            &&& presences is Some && presences.unwrap().array_items() is None
                ==> presence_answer_readable(body)
            &&& presences is Some && presences.unwrap().array_items() == Some(Seq::<Json>::empty())
                ==> presence_answer_readable(body)
            &&& (presences is Some && presences.unwrap().array_items() is Some
                && presences.unwrap().array_items().unwrap().len() > 0) ==> (presence_answer_readable(
                body,
            ) <==> presence_readable(presences.unwrap().array_items().unwrap()[0]))
        },
{
}

/// A first presence that does not name a place, a game and a location gets
/// an apology that says which member could not be read; a presence whose
/// read members are all there can be read.
pub proof fn lemma_first_presence_apologies(presence: Json)
    ensures
        presence.object_members() is None ==> first_presence_outcome(presence) == (
        StartOutcome::Apologize {
            reply: "Yar? Are you online?"@,
            reason: "Could not deserialize user_json as object from user_json"@,
        }),
        presence matches Json::Object(fields) ==> {
            let place = lookup(fields@, "placeId"@).unwrap().u64_value();
            let game = lookup(fields@, "gameId"@).unwrap().str_value();
            let location = lookup(fields@, "lastLocation"@).unwrap().str_value();
            &&& place is None ==> first_presence_outcome(presence) == (StartOutcome::Apologize {
                reply: "Yar? Are you online?"@,
                reason: "Could not deserialize placeId as u64 from user_json"@,
            })
            &&& place is Some && game is None ==> first_presence_outcome(presence) == (
            StartOutcome::Apologize {
                reply: "Yar? Are you online?"@,
                reason: "Could not deserialize gameId as str from user_json"@,
            })
            &&& place is Some && game is Some && location is None ==> first_presence_outcome(
                presence,
            ) == (StartOutcome::Apologize {
                reply: "Yar? Are you online?"@,
                reason: "Could not desrialize lastLocation as str from user_json"@,
            })
            &&& lookup(fields@, "placeId"@) is Some && place is None ==> presence_readable(presence)
            &&& lookup(fields@, "placeId"@) is Some && place is Some && lookup(fields@, "gameId"@)
                is Some && game is None ==> presence_readable(presence)
            &&& lookup(fields@, "placeId"@) is Some && place is Some && lookup(fields@, "gameId"@)
                is Some && game is Some && lookup(fields@, "lastLocation"@) is Some
                ==> presence_readable(presence)
        },
        presence.object_members() is None ==> presence_readable(presence),
{
}

/// Each step shows its texts as they are.
pub proof fn lemma_step_view(step: StartStep)
    ensures
        step matches StartStep::Reply(t) ==> step@ == StartOutcome::Reply(t@),
        step matches StartStep::Fail(t) ==> step@ == StartOutcome::Fail(t@),
        step matches StartStep::FetchUserId(u) ==> step@ == StartOutcome::FetchUserId(u@),
        step matches StartStep::FetchPresence { url, user_id } ==> step@ == (
        StartOutcome::FetchPresence { url: url@, user_id: user_id }),
        step matches StartStep::Announce(t) ==> step@ == StartOutcome::Announce(t@),
        step matches StartStep::Apologize { reply, reason } ==> step@ == (StartOutcome::Apologize {
            reply: reply@,
            reason: reason@,
        }),
{
}

/// The usage of the `raid` command.
pub fn raid() -> (usage: &'static str)
    ensures
        usage@ == "~yar raid <start {username}, end>"@,
{
    "~yar raid <start {username}, end>"
}

/// The first step of `raid start`: without a user name, reply with the usage;
/// with one, look the user's id up.
pub fn start(username: Option<String>) -> (step: StartStep)
    ensures
        step@ == start_outcome(
            match username {
                Some(u) => Some(u@),
                None => None,
            },
        ),
{
    match username {
        None => StartStep::Reply(String::from_str("~yar raid start {username}")),
        Some(name) => StartStep::FetchUserId(get_id_url(name.as_str())),
    }
}

/// The step after the id lookup answered with `body`.
pub fn read_user_id(body: &Json) -> (step: StartStep)
    requires
        user_id_answer_readable(*body),
    ensures
        step@ == user_id_outcome(*body),
{
    let members = match body.as_object() {
        Some(m) => m,
        None => {
            return StartStep::Fail(String::from_str("Could not deserialize id_json as object"));
        },
    };
    if object_get(members, "success").is_some() {
        return StartStep::Reply(String::from_str("Yar? Did you misspell the username put in?"));
    }
    match object_get(members, "Id").unwrap().as_u64() {
        Some(id) => StartStep::FetchPresence { url: String::from_str(get_game_url()), user_id: id },
        None => StartStep::Fail(String::from_str("Could not get id from the username")),
    }
}

/// An apology that logs `reason`.
fn apology(reason: &str) -> (step: StartStep)
    ensures
        step@ == (StartOutcome::Apologize { reply: apology_text(), reason: reason@ }),
{
    StartStep::Apologize {
        reply: String::from_str("Yar? Are you online?"),
        reason: String::from_str(reason),
    }
}

/// The step after the presence service answered with `body`: the raid is
/// announced with a link that joins the game of the leader's first presence.
pub fn read_presence(body: &Json) -> (step: StartStep)
    requires
        presence_answer_readable(*body),
    ensures
        step@ == presence_outcome(*body),
{
    let members = match body.as_object() {
        Some(m) => m,
        None => {
            return StartStep::Fail(
                String::from_str("Could not deserialize game_url_json as object"),
            );
        },
    };
    let items = match object_get(members, "userPresences").unwrap().as_array() {
        Some(items) => items,
        None => {
            return StartStep::Fail(String::from_str("Could not get userPresences as array"));
        },
    };
    if items.len() == 0 {
        return StartStep::Fail(String::from_str("Could not get the first value of userPresences"));
    }
    let fields = match items[0].as_object() {
        Some(f) => f,
        None => {
            return apology("Could not deserialize user_json as object from user_json");
        },
    };
    let place = match object_get(fields, "placeId").unwrap().as_u64() {
        Some(p) => p,
        None => {
            return apology("Could not deserialize placeId as u64 from user_json");
        },
    };
    let place_id = u64_to_decimal(place);
    let game_id = match object_get(fields, "gameId").unwrap().as_str() {
        Some(g) => g,
        None => {
            return apology("Could not deserialize gameId as str from user_json");
        },
    };
    let game_name = match object_get(fields, "lastLocation").unwrap().as_str() {
        Some(n) => n,
        None => {
            return apology("Could not desrialize lastLocation as str from user_json");
        },
    };
    let join = get_join_url(place_id.as_str(), game_id);
    let mut message = String::from_str("@pirate Yar! Rading time! We're playing: ");
    message.append(game_name);
    message.append("\n");
    message.append(join.as_str());
    StartStep::Announce(message)
}

/// The step after the announcement could not be sent: apologize and log why.
pub fn announcement_failed(reason: String) -> (step: StartStep)
    ensures
        step@ == (StartOutcome::Apologize { reply: apology_text(), reason: reason@ }),
{
    apology(reason.as_str())
}

/// The announcement that a raid is over.
pub fn end() -> (announcement: &'static str)
    ensures
        announcement@ == "@pirate Yar! The raid is now over!"@,
{
    "@pirate Yar! The raid is now over!"
}

/// `raid set channel`: makes `channel_id` the channel of the raid commands.
pub fn set_channel<'a>(channel_id: &'a str) -> (setting: ChannelSetting<'a>)
    ensures
        setting.row.key@ == CommandChannel::Raid.key(),
        setting.row.value@ == channel_id@,
        setting.reply matches Some(r) && r@ == "Set raid channel"@,
{
    ChannelSetting { row: store_channel(CommandChannel::Raid, channel_id), reply: Some("Set raid channel") }
}

} // verus!
