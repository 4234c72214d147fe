use hebbian::protocol::{ApprovalDecision, UserAnswer};
use hebbian::render::{
    pick_second_spinner, preview_result, random_tool_interval_ms, stream_tool_spinner_key,
    summarize_input, RenderAction, RenderEvent, Tone, TurnRenderer,
};

type A = RenderAction<String>;

#[test]
fn spinner_helpers() {
    assert_eq!(stream_tool_spinner_key(3), "stream:3");
    assert_eq!(random_tool_interval_ms(0), 100);
    assert_eq!(random_tool_interval_ms(50), 150);
    assert_eq!(random_tool_interval_ms(51), 100);
    assert!(pick_second_spinner(7));
    assert!(!pick_second_spinner(8));
}

#[test]
fn previews_and_summaries() {
    assert_eq!(preview_result("  a\nb  "), "a b");
    let long = "x".repeat(150);
    assert_eq!(preview_result(&long), format!("{}…", "x".repeat(100)));
    assert_eq!(summarize_input("{\"a\":1}"), "({\"a\":1})");
    let big = "y".repeat(90);
    assert_eq!(summarize_input(&big), format!("({}…)", "y".repeat(80)));
}

#[test]
fn a_turn_with_text_and_a_tool() {
    let mut r = TurnRenderer::new();
    assert_eq!(r.on_event(RenderEvent::RunStarted), vec![A::StartRunSpinner]);
    assert_eq!(
        r.on_event(RenderEvent::TextDelta { text: "Hel".into() }),
        vec![A::StopRunSpinner, A::Text { text: "Hel".into() }]
    );
    assert_eq!(r.on_event(RenderEvent::TextDelta { text: "lo".into() }), vec![A::Text { text: "lo".into() }]);
    assert_eq!(
        r.on_event(RenderEvent::ToolCallDelta { index: 0, name: Some("Read".into()) }),
        vec![
            A::EndLine,
            A::StartToolSpinner { key: "stream:0".into(), name: "Read".into(), summary: " preparing".into() }
        ]
    );
    assert_eq!(
        r.on_event(RenderEvent::ToolCallStarted {
            index: 0,
            call_id: "c1".into(),
            name: "Read".into(),
            input_json: "{}".into()
        }),
        vec![
            A::StopToolSpinner { key: "stream:0".into() },
            A::StartToolSpinner { key: "c1".into(), name: "Read".into(), summary: "({})".into() }
        ]
    );
    assert_eq!(
        r.on_event(RenderEvent::ToolCallFinished { call_id: "c1".into(), result: "ok".into(), duration_ms: 12, truncated: false }),
        vec![
            A::StopToolSpinner { key: "c1".into() },
            A::ToolFinished { duration_ms: 12, preview: "ok".into(), truncated: false },
            A::StartRunSpinner
        ]
    );
    assert_eq!(
        r.on_event(RenderEvent::RunFinished { total_input_tokens: 10, total_output_tokens: 2, duration_ms: 99 }),
        vec![A::StopRunSpinner, A::RunSummary { duration_ms: 99, input_tokens: 10, output_tokens: 2 }]
    );
    assert_eq!(r.take_final_text(), "Hello");
}

#[test]
fn statuses_for_decisions_and_answers() {
    let mut r = TurnRenderer::new();
    assert_eq!(
        r.on_event(RenderEvent::PermissionResolved { decision: ApprovalDecision::Deny }),
        vec![A::Status { tone: Tone::Bad, label: "✗ 拒绝".into(), detail: String::new() }, A::StartRunSpinner]
    );
    assert_eq!(
        r.on_event(RenderEvent::UserQuestionAnswered { answer: UserAnswer::SelectedMulti { labels: vec!["a".into(), "b".into()] } }),
        vec![A::Status { tone: Tone::Good, label: "✓ 多选：a、b".into(), detail: String::new() }]
    );
    assert_eq!(
        r.on_event(RenderEvent::PermissionAutoJudged { tool_name: "Bash".into(), decision: "ask".into(), reason: Some("why".into()) }),
        vec![
            A::StopRunSpinner,
            A::Status { tone: Tone::Warn, label: "? AutoMode 转人工".into(), detail: "  [Bash] why".into() },
            A::StartRunSpinner
        ]
    );
    assert_eq!(r.on_event(RenderEvent::RunCancelled), vec![A::StopRunSpinner, A::Cancelled]);
    assert_eq!(r.on_event(RenderEvent::Other), vec![]);
}

#[test]
fn full_text_only_when_nothing_streamed() {
    let mut r = TurnRenderer::new();
    assert_eq!(
        r.on_event(RenderEvent::TextDone { full_text: "all".into() }),
        vec![A::FullText { text: "all".into() }]
    );
    assert_eq!(r.on_event(RenderEvent::TextDone { full_text: "again".into() }), vec![]);
    assert_eq!(r.take_final_text(), "all");
}

#[test]
fn run_end_without_usage_is_quiet() {
    let mut r = TurnRenderer::new();
    r.on_event(RenderEvent::RunStarted);
    assert_eq!(
        r.on_event(RenderEvent::RunFinished { total_input_tokens: 0, total_output_tokens: 0, duration_ms: 5 }),
        vec![A::StopRunSpinner]
    );
}
