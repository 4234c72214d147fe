use hebbian::protocol::{ApprovalDecision, QuestionOption, UserAnswer};
use hebbian::tui::{
    ActiveRun, ChatBlock, ChatView, InputBox, PermissionPopupState, QuestionPopupState, RunMode,
    StatusBarState, TuiApp,
};
use hebbian::tui_keys::{Key, KeyCode, KeyEffect, KeyMods};

const NONE: KeyMods = KeyMods { control: false, shift: false, other: false };
const CTRL: KeyMods = KeyMods { control: true, shift: false, other: false };
const SHIFT: KeyMods = KeyMods { control: false, shift: true, other: false };

fn key(code: KeyCode) -> Key {
    Key { code, mods: NONE }
}

fn ch(c: char) -> Key {
    key(KeyCode::Char(c))
}

fn idle_app() -> TuiApp {
    TuiApp {
        chat: ChatView::new(),
        input: InputBox::new(),
        status: StatusBarState {
            provider_display: "p".into(),
            used_tokens: 0,
            budget_tokens: 100,
            run_mode: "default".into(),
            model_step: 0,
            tool_step: 0,
        },
        permission_popup: None,
        question_popup: None,
        active_run: None,
        should_quit: false,
        run_mode: RunMode::AskBeforeEdits,
    }
}

fn question(multi: bool) -> QuestionPopupState {
    QuestionPopupState {
        request_id: "q1".into(),
        question: "选?".into(),
        options: vec![
            QuestionOption { label: "A".into(), description: String::new() },
            QuestionOption { label: "B".into(), description: String::new() },
        ],
        multi,
        input_buffer: String::new(),
        free_input_mode: false,
        picked: vec![],
    }
}

#[test]
fn typing_and_submitting_starts_a_run() {
    let mut app = idle_app();
    for c in " hi ".chars() {
        assert_eq!(app.handle_key(ch(c)), KeyEffect::Nothing);
    }
    app.handle_key(Key { code: KeyCode::Enter, mods: SHIFT });
    assert_eq!(app.input.buffer(), " hi \n");
    app.handle_key(key(KeyCode::Backspace));
    assert_eq!(app.input.buffer(), " hi ");
    assert_eq!(app.handle_key(key(KeyCode::Enter)), KeyEffect::StartRun { text: "hi".into() });
    assert_eq!(app.input.buffer(), "");
    assert_eq!(app.chat.blocks.len(), 2);
    assert_eq!(app.chat.blocks[0], ChatBlock::User("hi".into()));
    let run = app.active_run.as_ref().unwrap();
    assert_eq!(run.assistant_block_idx, Some(1));
    for c in "again".chars() {
        app.handle_key(ch(c));
    }
    assert_eq!(app.handle_key(key(KeyCode::Enter)), KeyEffect::Nothing);
    assert_eq!(app.chat.blocks.last(), Some(&ChatBlock::Note("(当前 run 进行中，请等待或 Ctrl+C 取消)".into())));
    assert_eq!(app.input.buffer(), "");
}

#[test]
fn blank_input_does_nothing() {
    let mut app = idle_app();
    app.handle_key(ch(' '));
    assert_eq!(app.handle_key(key(KeyCode::Enter)), KeyEffect::Nothing);
    assert!(app.chat.blocks.is_empty());
    assert!(app.active_run.is_none());
}

#[test]
fn control_keys() {
    let mut app = idle_app();
    app.handle_key(ch('x'));
    app.handle_key(Key { code: KeyCode::Char('u'), mods: CTRL });
    assert_eq!(app.input.buffer(), "");
    app.handle_key(Key { code: KeyCode::Char('x'), mods: CTRL });
    assert_eq!(app.input.buffer(), "");
    assert_eq!(app.handle_key(Key { code: KeyCode::Char('c'), mods: CTRL }), KeyEffect::Nothing);
    assert!(app.should_quit);
    let mut app = idle_app();
    app.active_run = Some(ActiveRun { streaming_text: String::new(), streaming_reasoning: String::new(), assistant_block_idx: None });
    assert_eq!(app.handle_key(Key { code: KeyCode::Char('c'), mods: CTRL }), KeyEffect::Interrupt);
    assert!(!app.should_quit);
    assert_eq!(app.chat.blocks, vec![ChatBlock::Note("⏸ 已请求取消当前 run".into())]);
}

#[test]
fn f2_cycles_the_mode_and_pages_scroll() {
    let mut app = idle_app();
    assert_eq!(app.handle_key(key(KeyCode::F(2))), KeyEffect::ModeCycled { to: RunMode::EditAutomatically });
    assert_eq!(app.run_mode, RunMode::EditAutomatically);
    app.show_mode("accept-edits".into());
    assert_eq!(app.status.run_mode, "accept-edits");
    assert_eq!(app.chat.blocks, vec![ChatBlock::Note("切到模式：accept-edits".into())]);
    assert_eq!(app.handle_key(key(KeyCode::F(3))), KeyEffect::Nothing);
    app.chat.scroll = 7;
    app.handle_key(key(KeyCode::PageUp));
    assert_eq!((app.chat.scroll, app.chat.follow), (2, false));
    app.handle_key(key(KeyCode::PageUp));
    assert_eq!(app.chat.scroll, 0);
    app.handle_key(key(KeyCode::PageDown));
    assert_eq!((app.chat.scroll, app.chat.follow), (5, true));
}

#[test]
fn approval_popup_takes_keys_first() {
    let mut app = idle_app();
    app.active_run = Some(ActiveRun { streaming_text: String::new(), streaming_reasoning: String::new(), assistant_block_idx: None });
    app.permission_popup = Some(PermissionPopupState { request_id: "r1".into(), kind: "tool".into(), summary: "s".into() });
    assert_eq!(app.handle_key(ch('z')), KeyEffect::Nothing);
    assert!(app.permission_popup.is_some());
    assert_eq!(app.input.buffer(), "");
    assert_eq!(
        app.handle_key(ch('A')),
        KeyEffect::ResolvePermission { request_id: "r1".into(), decision: ApprovalDecision::AllowOnce }
    );
    assert!(app.permission_popup.is_none());
    assert_eq!(app.chat.blocks, vec![ChatBlock::Note("(已处理审批决定)".into())]);
    let mut app = idle_app();
    app.permission_popup = Some(PermissionPopupState { request_id: "r2".into(), kind: "tool".into(), summary: "s".into() });
    assert_eq!(app.handle_key(key(KeyCode::Esc)), KeyEffect::Nothing);
    assert!(app.permission_popup.is_none());
}

#[test]
fn question_popup_keys_answer() {
    let mut app = idle_app();
    app.active_run = Some(ActiveRun { streaming_text: String::new(), streaming_reasoning: String::new(), assistant_block_idx: None });
    app.question_popup = Some(question(false));
    assert_eq!(app.handle_key(ch('9')), KeyEffect::Nothing);
    assert_eq!(
        app.handle_key(ch('2')),
        KeyEffect::AnswerQuestion { request_id: "q1".into(), answer: UserAnswer::Selected { label: "B".into() } }
    );
    assert!(app.question_popup.is_none());

    app.question_popup = Some(question(true));
    app.handle_key(ch('1'));
    app.handle_key(ch('2'));
    app.handle_key(ch('1'));
    assert_eq!(app.question_popup.as_ref().unwrap().picked, vec!["B".to_string()]);
    assert_eq!(
        app.handle_key(key(KeyCode::Enter)),
        KeyEffect::AnswerQuestion { request_id: "q1".into(), answer: UserAnswer::SelectedMulti { labels: vec!["B".into()] } }
    );

    app.question_popup = Some(question(false));
    app.handle_key(key(KeyCode::Tab));
    for c in "自己写ab".chars() {
        app.handle_key(ch(c));
    }
    app.handle_key(key(KeyCode::Backspace));
    assert_eq!(app.question_popup.as_ref().unwrap().input_buffer, "自己写a");
    assert_eq!(
        app.handle_key(key(KeyCode::Enter)),
        KeyEffect::AnswerQuestion { request_id: "q1".into(), answer: UserAnswer::Custom { text: "自己写a".into() } }
    );

    app.question_popup = Some(question(false));
    assert_eq!(
        app.handle_key(key(KeyCode::Esc)),
        KeyEffect::AnswerQuestion { request_id: "q1".into(), answer: UserAnswer::Cancelled }
    );
    assert!(app.question_popup.is_none());
}
