use hebbian::channel_forward::{
    answer_outcome, approval_detail, approval_message, approval_outcome, question_message,
    render_choices, render_multi_questions, session_header, should_forward_approval,
    truncate_chars, ChannelForwardState,
};
use hebbian::daemon::{AskQuestionDto, QuestionOptionDto};
use hebbian::protocol::{ApprovalDecision, PermissionScope, QuestionOption, UserAnswer};

#[test]
fn forwarded_requests_are_taken_once() {
    let mut s = ChannelForwardState::new();
    s.track("r1", "s1", "m1");
    assert_eq!(s.take("r1"), Some(("s1".to_string(), "m1".to_string())));
    assert_eq!(s.take("r1"), None);
}

#[test]
fn outcomes() {
    assert_eq!(approval_outcome(&ApprovalDecision::AllowOnce), "已通过");
    assert_eq!(
        approval_outcome(&ApprovalDecision::AllowAndRemember { scope: PermissionScope::Global, pattern: None, extra_patterns: vec![] }),
        "已通过并记住"
    );
    assert_eq!(approval_outcome(&ApprovalDecision::DenyWithFeedback { feedback: "不要".into() }), "已拒绝：不要");
    assert_eq!(answer_outcome(&UserAnswer::SelectedMulti { labels: vec!["a".into(), "b".into()] }), "选了：a、b");
    assert_eq!(answer_outcome(&UserAnswer::Custom { text: "hi".into() }), "回复：hi");
    assert_eq!(answer_outcome(&UserAnswer::Cancelled), "已取消");
}

#[test]
fn details_and_truncation() {
    assert_eq!(approval_detail("path_access", "Read", "s", &vec!["/a".into(), "/b".into()]), "Read 越界访问：/a、/b");
    assert_eq!(approval_detail("path_access", "Read", "sum", &vec![]), "sum");
    assert_eq!(approval_detail("tool", "Bash", "   ", &vec![]), "Bash");
    assert_eq!(truncate_chars("你好世界", 2), "你好…");
    assert_eq!(truncate_chars("abc", 3), "abc");
}

#[test]
fn choices_and_questions() {
    let opts = vec![
        QuestionOption { label: "A".into(), description: String::new() },
        QuestionOption { label: "B".into(), description: String::new() },
    ];
    assert_eq!(
        render_choices(&opts, false),
        "\n\n选项：\n  1. A\n  2. B\n\n回复编号选择（如 2），或直接回文本，或回「取消」。"
    );
    assert!(render_choices(&opts, true).ends_with("（多选用逗号隔开，如 1,3），或回「取消」。"));
    assert_eq!(render_choices(&vec![], true), "\n\n直接回复你的答案，或回「取消」放弃。");
    let qs = vec![
        AskQuestionDto {
            title: "颜色".into(),
            description: String::new(),
            options: vec![
                QuestionOptionDto { label: "红".into(), description: String::new() },
                QuestionOptionDto { label: "蓝".into(), description: String::new() },
            ],
            multi: false,
        },
        AskQuestionDto { title: "备注".into(), description: String::new(), options: vec![], multi: false },
    ];
    assert_eq!(render_multi_questions(&qs), "颜色（红 / 蓝）\n备注");
}

#[test]
fn headers_and_messages() {
    assert_eq!(session_header(None), "📨 桌面对话需要你处理");
    let texts = vec!["earlier".to_string(), "  latest  ".to_string(), "   ".to_string()];
    assert_eq!(session_header(Some(("标题", &texts))), "📨「标题」\n\n最近 AI 输出：\nlatest");
    assert_eq!(session_header(Some((" ", &vec![]))), "📨「桌面对话」需要你处理");
    assert!(should_forward_approval(false, true, true));
    assert!(!should_forward_approval(true, true, true));
    assert!(!should_forward_approval(false, false, true));
    assert_eq!(
        approval_message("H", "D"),
        "H\n\n⚠️ 需要审批：D\n\n回复 1/y 通过，回复 n 拒绝，回复「deny 原因」拒绝并反馈。"
    );
    assert_eq!(question_message("H", "Q?", "\n\nC"), "H\n\n❓ Q?\n\nC");
}
