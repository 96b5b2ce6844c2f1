//! What the bot answers when the framework refuses a command, and when a
//! command fails.
use vstd::prelude::*;
use crate::commands::{channel_verdict, Reason, ReasonView};

verus! {

/// Why the framework refused to run a command: the member lacks the role the
/// command requires, a check refused it, or another reason (described by its
/// debug text).
#[derive(Clone, Debug, PartialEq, Eq)]
pub enum DispatchFailure {
    LackingRole,
    CheckFailed(Reason),
    Other(String),
}

/// A `DispatchFailure` with its texts as sequences of characters.
pub enum DispatchFailureView {
    LackingRole,
    CheckFailed(ReasonView),
    Other(Seq<char>),
}

impl View for DispatchFailure {
    type V = DispatchFailureView;

    open spec fn view(&self) -> DispatchFailureView {
        match self {
            DispatchFailure::LackingRole => DispatchFailureView::LackingRole,
            DispatchFailure::CheckFailed(r) => DispatchFailureView::CheckFailed(r@),
            DispatchFailure::Other(d) => DispatchFailureView::Other(d@),
        }
    }
}

/// The answer of a hook: the reply to the member, and what to log, if anything.
#[derive(Clone, Debug, PartialEq, Eq)]
pub struct HookReply {
    pub reply: String,
    pub log: Option<String>,
}

/// A `HookReply` with its texts as sequences of characters.
pub struct HookReplyView {
    pub reply: Seq<char>,
    pub log: Option<Seq<char>>,
}

impl View for HookReply {
    type V = HookReplyView;

    open spec fn view(&self) -> HookReplyView {
        HookReplyView {
            reply: self.reply@,
            log: match self.log {
                Some(l) => Some(l@),
                None => None,
            },
        }
    }
}

/// The answer to a refused command: a missing role is named, a check's text
/// for the user is passed on, and anything else gets an apology (and is
/// logged where there is something to log).
pub open spec fn dispatch_answer(error: DispatchFailureView) -> HookReplyView {
    match error {
        DispatchFailureView::LackingRole => HookReplyView {
            reply: "You don't have the required role."@,
            log: None,
        },
        DispatchFailureView::CheckFailed(reason) => match reason {
            ReasonView::User(text) => HookReplyView { reply: text, log: None },
            ReasonView::UserAndLog { user, log } => HookReplyView { reply: user, log: Some(log) },
            ReasonView::Log(text) => HookReplyView {
                reply: "Sorry an error occured"@,
                log: Some(text),
            },
            ReasonView::Unknown => HookReplyView { reply: "Sorry an error occured"@, log: None },
        },
        DispatchFailureView::Other(detail) => HookReplyView {
            reply: "Sorry, an error occured."@,
            log: Some("Dispatch error: "@ + detail),
        },
    }
}

/// The answer to a refused command of the bot's own framework setup: a
/// missing role is named, and anything else gets a short apology.
pub open spec fn brief_dispatch_answer(error: DispatchFailureView) -> HookReplyView {
    match error {
        DispatchFailureView::LackingRole => HookReplyView {
            reply: "You don't have the required role."@,
            log: None,
        },
        _ => HookReplyView { reply: "An error occured."@, log: None },
    }
}

/// The answer to the outcome of the command `cmd_name`: nothing when it
/// succeeded; an apology, and a log line naming the command and the error,
/// when it failed.
pub open spec fn after_answer(cmd_name: Seq<char>, error: Result<(), Seq<char>>) -> Option<
    HookReplyView,
> {
    match error {
        Ok(()) => None,
        Err(why) => Some(
            HookReplyView { reply: "Sorry an error occured."@, log: Some(cmd_name + " - "@ + why) },
        ),
    }
}

/// The answer to a command that the framework refused.
pub fn dispatch_error(error: DispatchFailure) -> (answer: HookReply)
    ensures
        answer@ == dispatch_answer(error@),
{
    match error {
        DispatchFailure::LackingRole => HookReply {
            reply: String::from_str("You don't have the required role."),
            log: None,
        },
        DispatchFailure::CheckFailed(reason) => match reason {
            Reason::User(text) => HookReply { reply: text, log: None },
            Reason::UserAndLog { user, log } => HookReply { reply: user, log: Some(log) },
            Reason::Log(text) => HookReply {
                reply: String::from_str("Sorry an error occured"),
                log: Some(text),
            },
            Reason::Unknown => HookReply {
                reply: String::from_str("Sorry an error occured"),
                log: None,
            },
        },
        DispatchFailure::Other(detail) => {
            let mut log = String::from_str("Dispatch error: ");
            log.append(detail.as_str());
            HookReply { reply: String::from_str("Sorry, an error occured."), log: Some(log) }
        },
    }
}

/// The answer to a refused command, as the bot's framework is set up to give it.
pub fn brief_dispatch_error(error: DispatchFailure) -> (answer: HookReply)
    ensures
        answer@ == brief_dispatch_answer(error@),
{
    match error {
        DispatchFailure::LackingRole => HookReply {
            reply: String::from_str("You don't have the required role."),
            log: None,
        },
        _ => HookReply { reply: String::from_str("An error occured."), log: None },
    }
}

/// The answer once the command `cmd_name` has run, given its outcome (with
/// the error's debug text when it failed).
pub fn after_hook(cmd_name: &str, error: Result<(), String>) -> (answer: Option<HookReply>)
    ensures
        match answer {
            Some(a) => after_answer(
                cmd_name@,
                match error {
                    Ok(()) => Ok(()),
                    Err(why) => Err(why@),
                },
            ) == Some(a@),
            None => error is Ok,
        },
{
    match error {
        Ok(()) => None,
        Err(why) => {
            let mut log = String::from_str(cmd_name);
            log.append(" - ");
            log.append(why.as_str());
            Some(HookReply { reply: String::from_str("Sorry an error occured."), log: Some(log) })
        },
    }
}

/// The answers to refused commands, case by case: a missing role is named; a
/// check's text for the user is passed on as it is, with its log text if it
/// has one; a check's log-only reason is logged and apologized for; an
/// unknown reason is apologized for; any other refusal is apologized for and
/// logged with its description. The framework's own setup names a missing
/// role and gives a short apology for the rest, logging nothing.
pub proof fn lemma_refusals_answered(error: DispatchFailureView)
    ensures
        error matches DispatchFailureView::LackingRole ==> dispatch_answer(error) == (HookReplyView {
            reply: "You don't have the required role."@,
            log: None,
        }) && brief_dispatch_answer(error) == (HookReplyView {
            reply: "You don't have the required role."@,
            log: None,
        }),
        error matches DispatchFailureView::CheckFailed(ReasonView::User(t)) ==> dispatch_answer(
            error,
        ) == (HookReplyView { reply: t, log: None }),
        error matches DispatchFailureView::CheckFailed(ReasonView::UserAndLog { user, log })
            ==> dispatch_answer(error) == (HookReplyView { reply: user, log: Some(log) }),
        error matches DispatchFailureView::CheckFailed(ReasonView::Log(t)) ==> dispatch_answer(
            error,
        ) == (HookReplyView { reply: "Sorry an error occured"@, log: Some(t) }),
        error matches DispatchFailureView::CheckFailed(ReasonView::Unknown) ==> dispatch_answer(
            error,
        ) == (HookReplyView { reply: "Sorry an error occured"@, log: None }),
        error matches DispatchFailureView::Other(d) ==> dispatch_answer(error) == (HookReplyView {
            reply: "Sorry, an error occured."@,
            log: Some("Dispatch error: "@ + d),
        }),
        !(error matches DispatchFailureView::LackingRole) ==> brief_dispatch_answer(error) == (
        HookReplyView { reply: "An error occured."@, log: None }),
{
}

/// After a command: nothing when it succeeded; when it failed, an apology and
/// a log line with the command's name, ` - `, and the error.
pub proof fn lemma_failures_answered(cmd_name: Seq<char>, why: Seq<char>)
    ensures
        after_answer(cmd_name, Ok(())) is None,
        after_answer(cmd_name, Err(why)) == Some(
            HookReplyView { reply: "Sorry an error occured."@, log: Some(cmd_name + " - "@ + why) },
        ),
{
}

/// The views of refusals and answers keep their texts as they are.
pub proof fn lemma_hook_views(error: DispatchFailure, answer: HookReply)
    ensures
        error matches DispatchFailure::LackingRole ==> error@ == DispatchFailureView::LackingRole,
        error matches DispatchFailure::CheckFailed(r) ==> error@ == DispatchFailureView::CheckFailed(
            r@,
        ),
        error matches DispatchFailure::Other(d) ==> error@ == DispatchFailureView::Other(d@),
        answer@.reply == answer.reply@,
        answer.log matches Some(l) ==> answer@.log == Some(l@),
        answer.log is None ==> answer@.log is None,
{
}

/// A command that a channel check refuses is always answered with a reply
/// that is not empty: the check's own text under `dispatch_error`, a short
/// apology under `brief_dispatch_error`; and a refusal for a failed read of
/// the configuration is logged, not shown.
pub proof fn lemma_refused_check_is_answered(
    channel_id: Seq<char>,
    configured: Result<Option<Seq<char>>, Seq<char>>,
)
    ensures
        channel_verdict(channel_id, configured) matches Err(reason) ==> {
            let detailed = dispatch_answer(DispatchFailureView::CheckFailed(reason));
            let brief = brief_dispatch_answer(DispatchFailureView::CheckFailed(reason));
            &&& detailed.reply.len() > 0
            &&& brief.reply.len() > 0
            &&& (reason matches ReasonView::User(text) ==> detailed.reply == text)
            &&& (configured matches Err(e) ==> detailed.log == Some(e))
        },
{
    reveal_strlit("Please set the bot channel");
    reveal_strlit("You can't use this command in this channel");
    reveal_strlit("Sorry an error occured");
    reveal_strlit("An error occured.");
}

} // verus!
