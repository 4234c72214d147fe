use hebbian::channel_observer::{
    inbound_action, outbound_text, permission_prompt, question_prompt, turn_end_notice,
    turn_prerequisites, ChannelObserver, InboundAction, MessagePart, ObservedEvent,
};
use hebbian::chunking::drain_safe;
use hebbian::daemon::{
    response_outcome, socket_session_id, translate_wire_event, DaemonEvent, IpcResponse, TurnStatus,
    UsageTotals, WireEvent,
};
use hebbian::hebcore::{event_ends_run, start_run_outcome, subscribe_outcome, HebcoreReply};
use hebbian::protocol::QuestionOption;

fn json(text: &str) -> serde_json::Value {
    serde_json::from_str(text).unwrap()
}

#[test]
fn daemon_event_risk_and_reason_match_wire_canonical_form() {
    let wire = WireEvent::PermissionRequested {
        request_id: "r1".into(),
        kind: "tool_call".into(),
        tool_name: "Write".into(),
        input: json(r#"{"file_path": "/tmp/x"}"#),
        summary: "写文件".into(),
        risk: "critical".into(),
        paths: vec![],
        fingerprint: None,
        command_segments: vec![],
        auto_handled: false,
        call_id: "c1".into(),
    };
    let mut usage = UsageTotals::default();
    let de = translate_wire_event(wire, &mut usage).expect("permission_requested 应翻译");
    match de {
        DaemonEvent::PermissionRequested { risk, request_id, .. } => {
            assert_eq!(risk, "critical", "risk 必须是小写规范形态");
            assert_eq!(request_id, "r1");
        }
        other => panic!("unexpected {other:?}"),
    }
    let wire = WireEvent::RunSuspended { reason: "cron".into() };
    let de = translate_wire_event(wire, &mut usage).expect("run_suspended 应翻译");
    match de {
        DaemonEvent::RunSuspended { reason } => assert_eq!(reason, "cron"),
        other => panic!("unexpected {other:?}"),
    }
}

#[test]
fn observer_streams_text_in_chunks_and_flushes_the_rest() {
    let mut o = ChannelObserver::new();
    let ready = o.on_event(ObservedEvent::TextDelta { text: "第一段。\n\n第二".into() }, false);
    assert_eq!(ready, vec!["第一段。".to_string()]);
    assert_eq!(o.buffer, "第二");
    let ready = o.on_event(ObservedEvent::TextDelta { text: "段".into() }, false);
    assert!(ready.is_empty());
    assert_eq!(o.flush(), Some("第二段".to_string()));
    assert_eq!(o.buffer, "");
    assert_eq!(o.flush(), None);
}

#[test]
fn observer_ignores_subagent_events() {
    let mut o = ChannelObserver::new();
    let ready = o.on_event(ObservedEvent::TextDelta { text: "x\n\ny".into() }, true);
    assert!(ready.is_empty());
    assert_eq!(o.buffer, "");
    o.on_event(ObservedEvent::Reasoning { text: "想".into() }, true);
    assert!(o.parts.is_empty());
}

#[test]
fn observer_keeps_one_text_part_and_pairs_tool_calls() {
    let mut o = ChannelObserver::new();
    o.on_event(ObservedEvent::Reasoning { text: "想一想".into() }, false);
    o.on_event(ObservedEvent::TextDone { full_text: "先".into() }, false);
    o.on_event(
        ObservedEvent::ToolCallStarted { call_id: "c1".into(), name: "Read".into(), input: json(r#"{"p":1}"#) },
        false,
    );
    o.on_event(ObservedEvent::ToolCallFinished { call_id: "zz".into(), result: "?".into(), duration_ms: 1 }, false);
    assert!(o.tool_calls.is_empty());
    o.on_event(ObservedEvent::ToolCallFinished { call_id: "c1".into(), result: "ok".into(), duration_ms: 12 }, false);
    o.on_event(ObservedEvent::TextDone { full_text: "全部".into() }, false);
    assert_eq!(o.full_text, "全部");
    assert_eq!(o.tool_calls.len(), 1);
    assert_eq!(o.tool_calls[0].name, "Read");
    assert_eq!(o.tool_calls[0].result.as_deref(), Some("ok"));
    assert_eq!(o.parts.len(), 3);
    assert_eq!(o.parts[0], MessagePart::Reasoning { text: "想一想".into() });
    match &o.parts[1] {
        MessagePart::ToolCall { id, arguments, duration_ms, input, .. } => {
            assert_eq!(id, "c1");
            assert_eq!(arguments, "");
            assert_eq!(*duration_ms, Some(12));
            assert_eq!(input, &json(r#"{"p":1}"#));
        }
        other => panic!("unexpected {other:?}"),
    }
    assert_eq!(o.parts[2], MessagePart::Text { text: "全部".into() });
    let m = o.build_message().unwrap();
    assert_eq!(m.content, "全部");
    assert_eq!(m.parts.len(), 3);
}

#[test]
fn silent_turn_leaves_no_message() {
    let o = ChannelObserver::new();
    assert!(o.build_message().is_none());
}

#[test]
fn channel_texts() {
    assert_eq!(outbound_text("  \n "), None);
    assert_eq!(outbound_text(" hi "), Some("hi".to_string()));
    assert_eq!(
        permission_prompt("rm -rf"),
        "⚠️ 需要审批：rm -rf\n回复 y/yes/允许 通过；回复 n/no/拒绝 拒绝；回复 deny <原因> 拒绝并反馈。"
    );
    let options = vec![
        QuestionOption { label: "A".into(), description: String::new() },
        QuestionOption { label: "B".into(), description: "b".into() },
    ];
    assert_eq!(question_prompt("选哪个", &options), "❓ 选哪个\n选项：A / B\n也可以直接回复自定义文本。");
    assert_eq!(turn_end_notice(&TurnStatus::Done), None);
    assert_eq!(turn_end_notice(&TurnStatus::Suspended), None);
    assert_eq!(turn_end_notice(&TurnStatus::Cancelled), Some("run 已取消".to_string()));
    assert_eq!(turn_end_notice(&TurnStatus::Failed("超时".into())), Some("❌ 超时".to_string()));
}

#[test]
fn inbound_messages() {
    assert_eq!(inbound_action(Some("帮助".into()), false, true), InboundAction::Reply { text: "帮助".into() });
    assert_eq!(
        inbound_action(None, false, false),
        InboundAction::Reply { text: "还没有活跃对话。用 /new 创建一个，或 /help 查看帮助。".into() }
    );
    assert_eq!(
        inbound_action(None, true, true),
        InboundAction::Reply { text: "上一轮还在运行中，请稍后再发。".into() }
    );
    assert_eq!(inbound_action(None, true, false), InboundAction::StartTurn);
    assert_eq!(
        turn_prerequisites(Some("s".into()), Some("p".into()), Some("m".into())),
        Ok(("s".to_string(), "p".to_string(), "m".to_string()))
    );
    assert_eq!(turn_prerequisites(None, None, None), Err("缺少 active_session_id".to_string()));
    assert_eq!(
        turn_prerequisites(Some("s".into()), None, None),
        Err("缺少 provider_id，请用 /new --provider 指定".to_string())
    );
    assert_eq!(
        turn_prerequisites(Some("s".into()), Some("p".into()), None),
        Err("缺少 model，请用 /new --model 指定".to_string())
    );
}

#[test]
fn drain_safety() {
    assert!(drain_safe("短的"));
    assert!(drain_safe(&"a".repeat(800)));
    // 499 ASCII bytes and then a 3-byte character: byte 500 falls inside it.
    let s = format!("{}字{}", "a".repeat(499), "b".repeat(10));
    assert!(!drain_safe(&s));
    // The first 500 bytes are taken before any line break is looked for.
    let s = format!("x\n{}字{}", "a".repeat(497), "b".repeat(10));
    assert!(!drain_safe(&s));
    // A blank line comes first: the 500-byte rule never applies.
    let s = format!("x\n\n{}字{}", "a".repeat(496), "b".repeat(10));
    assert!(drain_safe(&s));
}

#[test]
fn daemon_sockets_and_replies() {
    assert_eq!(socket_session_id("abc.sock"), Some("abc".to_string()));
    assert_eq!(socket_session_id(".sock"), Some(String::new()));
    assert_eq!(socket_session_id("abc.log"), None);
    let data = json(r#"{"a":1}"#);
    assert_eq!(
        response_outcome(IpcResponse { ok: true, error: None, data: Some(data.clone()) }),
        Ok(Some(data))
    );
    assert_eq!(
        response_outcome(IpcResponse { ok: false, error: Some("坏了".into()), data: None }),
        Err("坏了".to_string())
    );
    assert_eq!(
        response_outcome(IpcResponse { ok: false, error: None, data: None }),
        Err("daemon 返回错误".to_string())
    );
}

#[test]
fn hebcore_connect_replies() {
    assert_eq!(subscribe_outcome(Some(HebcoreReply::Subscribed)), Ok(()));
    assert_eq!(subscribe_outcome(None), Ok(()));
    assert_eq!(
        subscribe_outcome(Some(HebcoreReply::Error { message: "x".into() })),
        Err("订阅失败: x".to_string())
    );
    assert_eq!(start_run_outcome(Some(HebcoreReply::Accepted)), Ok(()));
    assert_eq!(
        start_run_outcome(Some(HebcoreReply::Error { message: "y".into() })),
        Err("start_run 失败: y".to_string())
    );
    assert!(event_ends_run("run_finished"));
    assert!(event_ends_run("run_failed"));
    assert!(event_ends_run("error"));
    assert!(!event_ends_run("text_delta"));
}
