use yarbot::commands::{channel_check, Reason};
use yarbot::hooks::{after_hook, brief_dispatch_error, dispatch_error, DispatchFailure, HookReply};

fn answer(reply: &str, log: Option<&str>) -> HookReply {
    HookReply { reply: reply.to_string(), log: log.map(|l| l.to_string()) }
}

#[test]
fn lacking_role_is_named() {
    assert_eq!(dispatch_error(DispatchFailure::LackingRole), answer("You don't have the required role.", None));
    assert_eq!(brief_dispatch_error(DispatchFailure::LackingRole), answer("You don't have the required role.", None));
}

#[test]
fn check_reasons_are_answered() {
    let user = DispatchFailure::CheckFailed(Reason::User("go away".to_string()));
    assert_eq!(dispatch_error(user.clone()), answer("go away", None));
    assert_eq!(brief_dispatch_error(user), answer("An error occured.", None));
    let both = DispatchFailure::CheckFailed(Reason::UserAndLog { user: "u".to_string(), log: "l".to_string() });
    assert_eq!(dispatch_error(both), answer("u", Some("l")));
    let log = DispatchFailure::CheckFailed(Reason::Log("db".to_string()));
    assert_eq!(dispatch_error(log), answer("Sorry an error occured", Some("db")));
    let unknown = DispatchFailure::CheckFailed(Reason::Unknown);
    assert_eq!(dispatch_error(unknown), answer("Sorry an error occured", None));
}

#[test]
fn other_refusals_are_logged() {
    let other = DispatchFailure::Other("OnlyForGuilds".to_string());
    assert_eq!(dispatch_error(other.clone()), answer("Sorry, an error occured.", Some("Dispatch error: OnlyForGuilds")));
    assert_eq!(brief_dispatch_error(other), answer("An error occured.", None));
}

#[test]
fn refused_channel_check_is_answered_with_its_text() {
    let verdict = channel_check("1", Ok(None)).unwrap_err();
    assert_eq!(
        dispatch_error(DispatchFailure::CheckFailed(verdict)),
        answer("Please set the bot channel", None)
    );
}

#[test]
fn after_hook_apologizes_for_failures_only() {
    assert_eq!(after_hook("add", Ok(())), None);
    assert_eq!(
        after_hook("add", Err("Timeout".to_string())),
        Some(answer("Sorry an error occured.", Some("add - Timeout")))
    );
}
