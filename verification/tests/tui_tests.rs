use hebbian::protocol::{ApprovalDecision, PermissionScope, QuestionOption, UserAnswer};
use hebbian::tui::{
    build_answer, cycle_run_mode, decision_for_key, mark_tool_finished, option_index_for_key,
    pick_option, ActiveRun, AutoDecision, ChatBlock, ChatView, InputBox, QuestionPopupState,
    RunMode, StatusBarState, ToolStatus, TuiApp, TuiEvent,
};

#[test]
fn input_box_edits() {
    let mut b = InputBox::new();
    b.push_char('h');
    b.push_char('i');
    b.push_char('你');
    b.pop_char();
    assert_eq!(b.buffer(), "hi");
    assert_eq!(b.take(), "hi");
    assert_eq!(b.buffer(), "");
}

#[test]
fn scrolling() {
    let mut v = ChatView::new();
    assert_eq!(v.scroll_for(50, 12), 40);
    v.scroll_up(5);
    assert!(!v.follow);
    assert_eq!(v.scroll, 35);
    v.scroll_down(u16::MAX);
    assert_eq!(v.scroll, u16::MAX);
    v.scroll_up(u16::MAX);
    assert_eq!(v.scroll, 0);
    v.follow_bottom();
    assert_eq!(v.scroll_for(5, 20), 0);
}

#[test]
fn tool_blocks_finish_by_call_id() {
    let mut blocks = vec![
        ChatBlock::ToolCall { name: "Read".into(), brief: "c1".into(), status: ToolStatus::Running },
        ChatBlock::ToolCall { name: "Bash".into(), brief: "c2".into(), status: ToolStatus::Running },
    ];
    mark_tool_finished(&mut blocks, "c2", "Some ERROR happened");
    mark_tool_finished(&mut blocks, "c1", "fine");
    mark_tool_finished(&mut blocks, "zz", "fine");
    assert_eq!(blocks[0], ChatBlock::ToolCall { name: "Read".into(), brief: "c1".into(), status: ToolStatus::Succeeded });
    assert_eq!(blocks[1], ChatBlock::ToolCall { name: "Bash".into(), brief: "c2".into(), status: ToolStatus::Failed });
}

#[test]
fn keys_and_modes() {
    assert_eq!(decision_for_key('A'), Some(ApprovalDecision::AllowOnce));
    assert_eq!(
        decision_for_key('b'),
        Some(ApprovalDecision::AllowAndRemember { scope: PermissionScope::Session, pattern: None, extra_patterns: vec![] })
    );
    assert_eq!(decision_for_key('d'), Some(ApprovalDecision::Deny));
    assert_eq!(decision_for_key('x'), None);
    assert_eq!(option_index_for_key('1'), Some(0));
    assert_eq!(option_index_for_key('9'), Some(8));
    assert_eq!(option_index_for_key('0'), None);
    let m = RunMode::AskBeforeEdits;
    assert_eq!(cycle_run_mode(cycle_run_mode(cycle_run_mode(cycle_run_mode(m)))), m);
    assert_ne!(cycle_run_mode(m), m);
}

fn popup(multi: bool) -> QuestionPopupState {
    QuestionPopupState {
        request_id: "q".into(),
        question: "?".into(),
        options: vec![
            QuestionOption { label: "A".into(), description: String::new() },
            QuestionOption { label: "B".into(), description: String::new() },
        ],
        multi,
        input_buffer: String::new(),
        free_input_mode: false,
        picked: vec![],
    }
}

#[test]
fn question_popup_answers() {
    let mut p = popup(true);
    assert_eq!(pick_option(&mut p, 1), None);
    assert_eq!(pick_option(&mut p, 0), None);
    assert_eq!(pick_option(&mut p, 1), None);
    assert_eq!(build_answer(&p), UserAnswer::SelectedMulti { labels: vec!["A".into()] });
    assert_eq!(pick_option(&mut p, 5), None);
    let mut s = popup(false);
    assert_eq!(pick_option(&mut s, 1), Some(UserAnswer::Selected { label: "B".into() }));
    let mut f = popup(false);
    f.free_input_mode = true;
    f.input_buffer = "  typed ".into();
    assert_eq!(build_answer(&f), UserAnswer::Custom { text: "typed".into() });
    assert_eq!(build_answer(&popup(true)), UserAnswer::Cancelled);
}

fn app() -> TuiApp {
    let mut chat = ChatView::new();
    chat.push(ChatBlock::User("hi".into()));
    chat.push(ChatBlock::Assistant { text: String::new(), reasoning: String::new() });
    TuiApp {
        chat,
        input: InputBox::new(),
        status: StatusBarState {
            provider_display: "p".into(),
            used_tokens: 0,
            budget_tokens: 100,
            run_mode: "default".into(),
            model_step: 0,
            tool_step: 0,
        },
        permission_popup: None,
        question_popup: None,
        active_run: Some(ActiveRun { streaming_text: String::new(), streaming_reasoning: String::new(), assistant_block_idx: Some(1) }),
        should_quit: false,
        run_mode: RunMode::AskBeforeEdits,
    }
}

#[test]
fn run_events_update_the_ui() {
    let mut a = app();
    assert_eq!(a.on_run_event(TuiEvent::TextDelta { text: "Hel".into() }), None);
    assert_eq!(a.on_run_event(TuiEvent::TextDelta { text: "lo".into() }), None);
    assert_eq!(a.chat.blocks[1], ChatBlock::Assistant { text: "Hello".into(), reasoning: String::new() });
    a.on_run_event(TuiEvent::ToolCallStarted { name: "Read".into(), call_id: "c1".into() });
    assert_eq!(a.status.tool_step, 1);
    a.on_run_event(TuiEvent::PermissionAutoJudged { tool_name: "Bash".into(), decision: "deny".into(), reason: None });
    assert_eq!(a.chat.blocks.last(), Some(&ChatBlock::AutoJudged { tool: "Bash".into(), decision: AutoDecision::Deny, reason: None }));
    a.on_run_event(TuiEvent::PermissionRequested { request_id: "r".into(), kind: "tool_call".into(), summary: "s".into() });
    assert!(a.permission_popup.is_some());
    a.on_run_event(TuiEvent::RunModeChanged { to: "auto".into() });
    assert_eq!(a.chat.blocks.last(), Some(&ChatBlock::Note("RunMode → auto".into())));
    a.on_run_event(TuiEvent::StepStarted { model_step: true });
    assert_eq!(a.status.model_step, 1);
    assert_eq!(
        a.on_run_event(TuiEvent::RunFinished { total_input_tokens: 3, total_output_tokens: 4 }),
        Some("Hello".to_string())
    );
    assert!(a.active_run.is_none());
    assert_eq!(a.status.used_tokens, 7);
    a.on_run_event(TuiEvent::RunFailed { message: "boom".into() });
    assert_eq!(a.chat.blocks.last(), Some(&ChatBlock::Note("✗ run 失败：boom".into())));
}
