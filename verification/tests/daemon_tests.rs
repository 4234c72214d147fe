use hebbian::daemon::{
    allow_decision, answer_for, build_run_summary, default_once, emit_started, outcome_label,
    outcome_name, resolve_provider_model, run_edit_files, run_exit_code, take_chars,
    translate_wire_event, AutoResolveStats, DaemonEvent, IpcResponse, ProviderEntry,
    ProvidersFile, TurnStatus, UsageTotals, WireEvent,
};
use hebbian::protocol::{ApprovalDecision, PermissionScope, UserAnswer};
use hebbian::daemon::{
    closing_line, command_plan, initial_mode_event, inject_response, invalid_mode_response,
    lagged_notice, send_response, settle_response, CommandPlan, IpcCommand,
};

#[test]
fn usage_is_summed_and_reported_at_run_end() {
    let mut u = UsageTotals::default();
    let r = translate_wire_event(
        WireEvent::Usage { input_tokens: 10, output_tokens: 5, cache_read_tokens: 1 },
        &mut u,
    );
    assert!(r.is_none());
    let r = translate_wire_event(
        WireEvent::Usage { input_tokens: 7, output_tokens: 3, cache_read_tokens: 2 },
        &mut u,
    );
    assert!(r.is_none());
    match translate_wire_event(WireEvent::RunFinished { duration_ms: 42 }, &mut u) {
        Some(DaemonEvent::RunFinished { input_tokens, output_tokens, cache_read_tokens, duration_ms }) => {
            assert_eq!((input_tokens, output_tokens, cache_read_tokens, duration_ms), (17, 8, 3, 42));
        }
        other => panic!("unexpected {other:?}"),
    }
    assert_eq!(u, UsageTotals::default());
}

#[test]
fn tool_results_are_cut_to_500_chars() {
    let mut u = UsageTotals::default();
    let long = "字".repeat(600);
    match translate_wire_event(
        WireEvent::ToolDone { id: "t".into(), result: long, duration_ms: 1, is_error: false, subagent_call_id: None },
        &mut u,
    ) {
        Some(DaemonEvent::ToolDone { result, .. }) => assert_eq!(result.chars().count(), 500),
        other => panic!("unexpected {other:?}"),
    }
    assert_eq!(take_chars("abc", 2), "ab");
    assert_eq!(take_chars("abc", 5), "abc");
}

#[test]
fn auto_judged_without_request_id_reports_none() {
    let mut u = UsageTotals::default();
    match translate_wire_event(
        WireEvent::PermissionAutoJudged {
            request_id: String::new(),
            tool_name: "Bash".into(),
            decision: "allow".into(),
            reason: None,
            requires_human: false,
        },
        &mut u,
    ) {
        Some(DaemonEvent::PermissionAutoJudged { request_id, .. }) => assert_eq!(request_id, None),
        other => panic!("unexpected {other:?}"),
    }
    assert!(translate_wire_event(WireEvent::Other, &mut u).is_none());
}

#[test]
fn started_event_names_the_session() {
    match emit_started("s-1") {
        DaemonEvent::Started { session_id } => assert_eq!(session_id, "s-1"),
        other => panic!("unexpected {other:?}"),
    }
}

#[test]
fn unattended_runs_deny_and_cancel_and_count() {
    let mut st = AutoResolveStats::new();
    match st.deny_unattended() {
        ApprovalDecision::DenyWithFeedback { feedback } => assert!(feedback.starts_with("无人值守模式")),
        other => panic!("unexpected {other:?}"),
    }
    assert_eq!(st.cancel_unattended(), UserAnswer::Cancelled);
    assert_eq!(st.cancel_unattended(), UserAnswer::Cancelled);
    assert_eq!(st, AutoResolveStats { denied_approvals: 1, cancelled_questions: 2 });
}

#[test]
fn run_summary_fields() {
    let st = AutoResolveStats { denied_approvals: 2, cancelled_questions: 1 };
    let s = build_run_summary(
        "sid",
        Some(("done text".to_string(), 3)),
        vec!["a.rs".to_string()],
        &TurnStatus::Failed("boom".to_string()),
        &st,
        99,
        1,
    );
    assert_eq!(s.outcome, "failed");
    assert_eq!(s.error, Some("boom".to_string()));
    assert_eq!(s.final_text, "done text");
    assert_eq!(s.tool_calls, 3);
    assert_eq!(s.denied_approvals, 2);
    let s = build_run_summary("sid", None, vec![], &TurnStatus::Done, &st, 5, 0);
    assert_eq!(s.final_text, "");
    assert_eq!(s.tool_calls, 0);
    assert_eq!(s.error, None);
    assert_eq!(s.outcome, "done");
}

#[test]
fn edit_files_sorted_and_unique() {
    let runs = vec![
        vec!["b.rs".to_string(), "a.rs".to_string()],
        vec![],
        vec!["b.rs".to_string(), "c/d.rs".to_string(), "a.rs".to_string()],
    ];
    assert_eq!(run_edit_files(&runs), vec!["a.rs", "b.rs", "c/d.rs"]);
    assert!(run_edit_files(&vec![]).is_empty());
    let runs = vec![vec!["ab".to_string(), "a".to_string(), "b".to_string(), "é".to_string(), "z".to_string()]];
    assert_eq!(run_edit_files(&runs), vec!["a", "ab", "b", "z", "é"]);
}

#[test]
fn exit_codes_and_labels() {
    assert_eq!(run_exit_code(&TurnStatus::Done, false), 0);
    assert_eq!(run_exit_code(&TurnStatus::Suspended, true), 0);
    assert_eq!(run_exit_code(&TurnStatus::Failed("x".into()), false), 1);
    assert_eq!(run_exit_code(&TurnStatus::Cancelled, true), 2);
    assert_eq!(run_exit_code(&TurnStatus::Cancelled, false), 130);
    assert_eq!(outcome_name(&TurnStatus::Suspended), "suspended");
    assert_eq!(outcome_label(&TurnStatus::Cancelled, true), "超时中断");
    assert_eq!(outcome_label(&TurnStatus::Cancelled, false), "已取消");
}

#[test]
fn allow_and_answer_commands() {
    assert_eq!(default_once(), "once");
    assert_eq!(allow_decision("once", None, vec![]), ApprovalDecision::AllowOnce);
    assert_eq!(allow_decision("weird", None, vec![]), ApprovalDecision::AllowOnce);
    assert_eq!(
        allow_decision("project", Some("git *".into()), vec!["ls".into()]),
        ApprovalDecision::AllowAndRemember {
            scope: PermissionScope::Project,
            pattern: Some("git *".into()),
            extra_patterns: vec!["ls".into()],
        }
    );
    assert_eq!(answer_for("cancelled", "x".into()), UserAnswer::Cancelled);
    assert_eq!(answer_for("custom", "x".into()), UserAnswer::Custom { text: "x".into() });
    assert_eq!(answer_for("selected", "A".into()), UserAnswer::Selected { label: "A".into() });
    let r = IpcResponse::err("no".into());
    assert!(!r.ok);
    assert_eq!(r.error, Some("no".to_string()));
    assert!(IpcResponse::ok().ok);
}

fn providers() -> ProvidersFile {
    ProvidersFile {
        default_provider_id: Some("p1".into()),
        providers: vec![
            ProviderEntry { id: "p1".into(), name: "OpenAI".into(), default_model: Some("gpt".into()) },
            ProviderEntry { id: "p2".into(), name: "Anthropic".into(), default_model: None },
        ],
    }
}

#[test]
fn provider_model_resolution() {
    let f = providers();
    assert_eq!(resolve_provider_model(&f, None, None), Ok(("p1".into(), "gpt".into())));
    assert_eq!(resolve_provider_model(&f, Some("Anthropic/opus"), None), Ok(("p2".into(), "opus".into())));
    assert_eq!(resolve_provider_model(&f, Some("p2"), Some("m")), Ok(("p2".into(), "m".into())));
    assert_eq!(
        resolve_provider_model(&f, Some("p2"), None),
        Err("未指定 model（用 --model 或 --provider Anthropic/model_id）".into())
    );
    assert_eq!(resolve_provider_model(&f, Some("nope"), None), Err("provider 不存在：nope".into()));
    let empty = ProvidersFile { default_provider_id: None, providers: vec![] };
    assert_eq!(
        resolve_provider_model(&empty, None, None),
        Err("未指定 --provider 且无默认 provider（先在 desktop 配置）".into())
    );
}

#[test]
fn command_plans_and_replies() {
    assert_eq!(command_plan(IpcCommand::Send { text: "t".into() }), CommandPlan::Send { text: "t".into() });
    assert_eq!(
        command_plan(IpcCommand::Allow { request_id: "r".into(), scope: "global".into(), pattern: None, extra_patterns: vec![] }),
        CommandPlan::Approve {
            request_id: "r".into(),
            decision: ApprovalDecision::AllowAndRemember { scope: PermissionScope::Global, pattern: None, extra_patterns: vec![] }
        }
    );
    assert_eq!(
        command_plan(IpcCommand::DenyWithFeedback { request_id: "r".into(), feedback: "f".into() }),
        CommandPlan::Approve { request_id: "r".into(), decision: ApprovalDecision::DenyWithFeedback { feedback: "f".into() } }
    );
    assert_eq!(
        command_plan(IpcCommand::Answer { request_id: "q".into(), kind: "custom".into(), value: "v".into() }),
        CommandPlan::Answer { request_id: "q".into(), answer: UserAnswer::Custom { text: "v".into() } }
    );
    assert_eq!(command_plan(IpcCommand::Mode { mode: "yolo".into() }), CommandPlan::SetMode { mode: "yolo".into() });
    assert!(send_response(false, true).ok);
    assert_eq!(send_response(false, false).error, Some("daemon 输入通道已关闭".to_string()));
    assert_eq!(inject_response(false).error, Some("无活跃 run，无法注入".to_string()));
    assert_eq!(settle_response(false, "r9").error, Some("未找到 request_id: r9".to_string()));
    assert!(settle_response(true, "r9").ok);
    assert_eq!(
        invalid_mode_response("fast").error,
        Some("无效 mode：fast（default | plan-mode | auto-mode | yolo）".to_string())
    );
}

#[test]
fn daemon_lines_and_events() {
    match initial_mode_event("plan-mode") {
        DaemonEvent::RunModeChanged { from, to } => assert_eq!((from.as_str(), to.as_str()), ("default", "plan-mode")),
        other => panic!("unexpected {other:?}"),
    }
    match lagged_notice(12) {
        DaemonEvent::Notice { level, message, dedup_key } => {
            assert_eq!(level, "warn");
            assert_eq!(message, "事件订阅落后，已跳过 12 条事件");
            assert_eq!(dedup_key, None);
        }
        other => panic!("unexpected {other:?}"),
    }
    let st = AutoResolveStats { denied_approvals: 2, cancelled_questions: 0 };
    assert_eq!(
        closing_line(&TurnStatus::Cancelled, true, &st),
        "\n[heb run] 超时中断；自动拒审批 2 次、自动取消提问 0 次（exit 2）"
    );
    assert_eq!(
        closing_line(&TurnStatus::Done, false, &st),
        "\n[heb run] 完成；自动拒审批 2 次、自动取消提问 0 次（exit 0）"
    );
}
