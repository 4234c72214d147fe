use hebbian::chat_setup::{chat_workdir, effective_enabled_tools, send_outcome, send_steps, tool_allowed, SendSteps};
use hebbian::daemon::TurnStatus;

#[test]
fn send_steps_by_kind() {
    assert_eq!(
        send_steps(false, false, false),
        SendSteps { already_persisted: false, clear_pending_continue: false, persist_user_message: true, queue_as_pending_input: false, append_user_to_run: true }
    );
    assert_eq!(
        send_steps(false, true, true),
        SendSteps { already_persisted: false, clear_pending_continue: true, persist_user_message: false, queue_as_pending_input: false, append_user_to_run: false }
    );
    assert_eq!(
        send_steps(true, true, false),
        SendSteps { already_persisted: true, clear_pending_continue: false, persist_user_message: false, queue_as_pending_input: true, append_user_to_run: false }
    );
    assert_eq!(
        send_steps(true, false, false),
        SendSteps { already_persisted: false, clear_pending_continue: false, persist_user_message: true, queue_as_pending_input: true, append_user_to_run: false }
    );
}

#[test]
fn tool_limits() {
    let allow = vec!["PreviewStyle".to_string()];
    assert!(tool_allowed("PreviewStyle", Some(&allow)));
    assert!(tool_allowed("Mcp__github", Some(&allow)));
    assert!(!tool_allowed("Bash", Some(&allow)));
    assert!(tool_allowed("Bash", None));
    let s = |v: &[&str]| v.iter().map(|x| x.to_string()).collect::<Vec<_>>();
    assert_eq!(effective_enabled_tools(s(&["a"]), Some(s(&["b"])), s(&["c"])), s(&["a"]));
    assert_eq!(effective_enabled_tools(vec![], Some(s(&["b"])), s(&["c"])), s(&["b"]));
    assert_eq!(effective_enabled_tools(vec![], Some(vec![]), s(&["c"])), s(&["c"]));
    assert_eq!(effective_enabled_tools(vec![], None, s(&["c"])), s(&["c"]));
}

#[test]
fn workdir_and_outcome() {
    assert_eq!(chat_workdir(None, Some("/s".into()), Some("/h".into())), "/s");
    assert_eq!(chat_workdir(None, None, None), ".");
    assert_eq!(chat_workdir(Some("/w".into()), None, None), "/w");
    assert_eq!(send_outcome(&TurnStatus::Done, Some(5)), Ok(Some(5)));
    assert_eq!(send_outcome::<u8>(&TurnStatus::Suspended, None), Ok(None));
    assert_eq!(send_outcome::<u8>(&TurnStatus::Cancelled, None), Err("请求已中断".to_string()));
    assert_eq!(send_outcome::<u8>(&TurnStatus::Failed("x".into()), None), Err("x".to_string()));
}
