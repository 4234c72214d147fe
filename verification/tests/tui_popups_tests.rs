use hebbian::chat_lines::{SpanTone, StyledSpan};
use hebbian::protocol::QuestionOption;
use hebbian::tui::QuestionPopupState;
use hebbian::tui_popups::{permission_popup_lines, question_popup_lines};

fn s(tone: SpanTone, text: &str) -> StyledSpan {
    StyledSpan { tone, text: text.into() }
}

#[test]
fn question_popup_text() {
    let state = QuestionPopupState {
        request_id: "q".into(),
        question: "选哪个？".into(),
        options: vec![
            QuestionOption { label: "A".into(), description: "第一个".into() },
            QuestionOption { label: "B".into(), description: String::new() },
        ],
        multi: true,
        input_buffer: "x".into(),
        free_input_mode: false,
        picked: vec!["B".into()],
    };
    assert_eq!(
        question_popup_lines(&state),
        vec![
            s(SpanTone::Title, "选哪个？"),
            s(SpanTone::Plain, ""),
            s(SpanTone::Plain, "  (1) [ ] A"),
            s(SpanTone::Hint, "      第一个"),
            s(SpanTone::Plain, "  (2) [x] B"),
            s(SpanTone::Plain, ""),
            s(SpanTone::Hint, "[Tab 切到自由输入] x"),
            s(SpanTone::Plain, ""),
            s(SpanTone::Hint, "1-9 切换勾选，Enter 提交，Tab 自由输入，Esc 取消"),
        ]
    );
    let single = QuestionPopupState { multi: false, free_input_mode: true, picked: vec![], ..state };
    let lines = question_popup_lines(&single);
    assert_eq!(lines[2], s(SpanTone::Hint, "  (1)  A"));
    assert_eq!(lines[6], s(SpanTone::AutoAllow, "[自由输入] x_"));
    assert_eq!(lines[8], s(SpanTone::Hint, "1-9 选项，Enter 提交自由输入，Tab 切换模式，Esc 取消"));
}

#[test]
fn at_most_nine_options_show() {
    let options: Vec<QuestionOption> =
        (0..12).map(|i| QuestionOption { label: format!("o{i}"), description: String::new() }).collect();
    let state = QuestionPopupState {
        request_id: "q".into(),
        question: "?".into(),
        options,
        multi: false,
        input_buffer: String::new(),
        free_input_mode: false,
        picked: vec![],
    };
    let lines = question_popup_lines(&state);
    assert_eq!(lines.len(), 2 + 9 + 4);
    assert_eq!(lines[10], s(SpanTone::Plain, "  (9)  o8"));
}

#[test]
fn permission_popup_text() {
    let lines = permission_popup_lines("写文件 /tmp/x\n第二行");
    assert_eq!(
        lines,
        vec![
            s(SpanTone::Plain, "写文件 /tmp/x"),
            s(SpanTone::Plain, "第二行"),
            s(SpanTone::Plain, ""),
            s(SpanTone::AutoAllow, "(a) 仅本次允许"),
            s(SpanTone::AutoAllow, "(b) 本对话不再询问（Session 级）"),
            s(SpanTone::AutoAllow, "(c) 始终允许（Global 级）"),
            s(SpanTone::AutoDeny, "(d) 拒绝"),
            s(SpanTone::Plain, ""),
            s(SpanTone::Hint, "Esc 取消（视同拒绝）"),
        ]
    );
    assert_eq!(permission_popup_lines("").len(), 6);
}
