//! The bot's commands and the checks that keep each group of them to its
//! own channel.
use vstd::prelude::*;
use crate::config;
use crate::models::ConfigInsert;
use crate::text::str_equal;

pub mod general;
pub mod point;
pub mod raid;

verus! {

/// Why a check refused a command: a text for the user, a text for the log,
/// both, or nothing known.
#[derive(Clone, Debug, PartialEq, Eq)]
pub enum Reason {
    Unknown,
    User(String),
    Log(String),
    UserAndLog { user: String, log: String },
}

/// A `Reason` with its texts as sequences of characters.
pub enum ReasonView {
    Unknown,
    User(Seq<char>),
    Log(Seq<char>),
    UserAndLog { user: Seq<char>, log: Seq<char> },
}

impl View for Reason {
    type V = ReasonView;

    open spec fn view(&self) -> ReasonView {
        match self {
            Reason::Unknown => ReasonView::Unknown,
            Reason::User(t) => ReasonView::User(t@),
            Reason::Log(t) => ReasonView::Log(t@),
            Reason::UserAndLog { user, log } => ReasonView::UserAndLog { user: user@, log: log@ },
        }
    }
}

/// A group of commands that is kept to one channel of the server.
#[derive(Clone, Debug, PartialEq, Eq)]
pub enum CommandChannel {
    /// The general commands and the points queries (`point get`, `point list`).
    Bot,
    /// The raid commands.
    Raid,
    /// The commands that change points (`point add`, `point take`).
    Point,
}

impl CommandChannel {
    /// The configuration key under which the channel of the group is stored.
    pub open spec fn key(self) -> Seq<char> {
        match self {
            CommandChannel::Bot => "bot_channel_id"@,
            CommandChannel::Raid => "raid_channel_id"@,
            CommandChannel::Point => "point_channel_id"@,
        }
    }

    /// The configuration key under which the channel of the group is stored.
    pub fn config_key(&self) -> (key: &'static str)
        ensures
            key@ == self.key(),
    {
        match self {
            CommandChannel::Bot => "bot_channel_id",
            CommandChannel::Raid => "raid_channel_id",
            CommandChannel::Point => "point_channel_id",
        }
    }
}

/// The configured channel as it was read: the error of the read, or the
/// channel id if one is stored.
pub open spec fn configured_view(configured: Result<Option<String>, String>) -> Result<
    Option<Seq<char>>,
    Seq<char>,
> {
    match configured {
        Ok(Some(c)) => Ok(Some(c@)),
        Ok(None) => Ok(None),
        Err(e) => Err(e@),
    }
}

/// The verdict of a channel check on a message in `channel_id`: it passes in
/// the configured channel only; elsewhere the user is told so; without a
/// configured channel the user is asked to set one; an error of the read is
/// logged.
pub open spec fn channel_verdict(
    channel_id: Seq<char>,
    configured: Result<Option<Seq<char>>, Seq<char>>,
) -> Result<(), ReasonView> {
    match configured {
        Err(e) => Err(ReasonView::Log(e)),
        Ok(None) => Err(ReasonView::User("Please set the bot channel"@)),
        Ok(Some(c)) => if c == channel_id {
            Ok(())
        } else {
            Err(ReasonView::User("You can't use this command in this channel"@))
        },
    }
}

/// The verdict of a check as a `Result` over views.
pub open spec fn verdict_view(verdict: Result<(), Reason>) -> Result<(), ReasonView> {
    match verdict {
        Ok(()) => Ok(()),
        Err(r) => Err(r@),
    }
}

/// Checks that a message in `channel_id` is in the channel `configured` for
/// its group of commands.
pub fn channel_check(channel_id: &str, configured: Result<Option<String>, String>) -> (verdict:
    Result<(), Reason>)
    ensures
        verdict_view(verdict) == channel_verdict(channel_id@, configured_view(configured)),
{
    match configured {
        Err(e) => Err(Reason::Log(e)),
        Ok(None) => Err(Reason::User(String::from_str("Please set the bot channel"))),
        Ok(Some(c)) => {
            if str_equal(c.as_str(), channel_id) {
                Ok(())
            } else {
                Err(Reason::User(String::from_str("You can't use this command in this channel")))
            }
        },
    }
}

/// The configuration row that makes `channel_id` the channel of `group`.
pub fn set_channel<'a>(group: CommandChannel, channel_id: &'a str) -> (row: ConfigInsert<'a>)
    ensures
        row.key@ == group.key(),
        row.value@ == channel_id@,
{
    config::set(group.config_key(), channel_id)
}

/// A check passes exactly in the configured channel: with a channel `c`
/// stored, a message in `channel_id` passes if and only if `channel_id` is
/// `c`, and is otherwise told that the command does not belong there;
/// without a stored channel the user is asked to set one; a failed read is
/// passed on to the log.
pub proof fn lemma_check_passes_only_in_its_channel(
    channel_id: Seq<char>,
    c: Seq<char>,
    error: Seq<char>,
)
    ensures
        channel_verdict(channel_id, Ok(Some(c))) is Ok <==> channel_id == c,
        channel_id != c ==> channel_verdict(channel_id, Ok(Some(c))) == Err::<(), ReasonView>(
            ReasonView::User("You can't use this command in this channel"@),
        ),
        channel_verdict(channel_id, Ok(None)) == Err::<(), ReasonView>(
            ReasonView::User("Please set the bot channel"@),
        ),
        channel_verdict(channel_id, Err(error)) == Err::<(), ReasonView>(ReasonView::Log(error)),
{
}

/// The views of a check's input and verdict keep their texts as they are.
pub proof fn lemma_check_views(
    configured: Result<Option<String>, String>,
    verdict: Result<(), Reason>,
)
    ensures
        configured matches Ok(Some(c)) ==> configured_view(configured) == Ok::<
            Option<Seq<char>>,
            Seq<char>,
        >(Some(c@)),
        configured matches Ok(None) ==> configured_view(configured) == Ok::<
            Option<Seq<char>>,
            Seq<char>,
        >(None),
        configured matches Err(e) ==> configured_view(configured) == Err::<
            Option<Seq<char>>,
            Seq<char>,
        >(e@),
        verdict is Ok ==> verdict_view(verdict) == Ok::<(), ReasonView>(()),
        verdict matches Err(Reason::User(t)) ==> verdict_view(verdict) == Err::<(), ReasonView>(
            ReasonView::User(t@),
        ),
        verdict matches Err(Reason::Log(t)) ==> verdict_view(verdict) == Err::<(), ReasonView>(
            ReasonView::Log(t@),
        ),
        verdict matches Err(Reason::UserAndLog { user, log }) ==> verdict_view(verdict) == Err::<
            (),
            ReasonView,
        >(ReasonView::UserAndLog { user: user@, log: log@ }),
        verdict matches Err(Reason::Unknown) ==> verdict_view(verdict) == Err::<(), ReasonView>(
            ReasonView::Unknown,
        ),
{
}

/// The keys under which the groups keep their channels.
pub proof fn lemma_channel_keys()
    ensures
        CommandChannel::Bot.key() == "bot_channel_id"@,
        CommandChannel::Raid.key() == "raid_channel_id"@,
        CommandChannel::Point.key() == "point_channel_id"@,
{
}

/// What a `set channel` command does: the configuration row it stores, and
/// its reply once stored (if it replies).
pub struct ChannelSetting<'a> {
    pub row: ConfigInsert<'a>,
    pub reply: Option<&'static str>,
}

/// Once a channel is stored for a group, the group's check passes in that
/// channel; and each group keeps its channel under a key of its own, so
/// storing the channel of one group leaves the checks of the others as
/// they were.
pub proof fn lemma_stored_channel_passes(group: CommandChannel, other: CommandChannel, channel: Seq<char>)
    ensures
        channel_verdict(channel, Ok(Some(channel))) == Ok::<(), ReasonView>(()),
        group != other ==> group.key() != other.key(),
{
    reveal_strlit("bot_channel_id");
    reveal_strlit("raid_channel_id");
    reveal_strlit("point_channel_id");
    assert("bot_channel_id"@.len() != "raid_channel_id"@.len());
    assert("bot_channel_id"@.len() != "point_channel_id"@.len());
    assert("raid_channel_id"@.len() != "point_channel_id"@.len());
}

} // verus!
