use hebbian::chat_lines::{SpanTone, StyledSpan};
use hebbian::text::lines_of;
use hebbian::tui::{AutoDecision, ChatBlock, ChatView, ToolStatus};

fn texts(lines: &[Vec<StyledSpan>]) -> Vec<String> {
    lines.iter().map(|l| l.iter().map(|s| s.text.as_str()).collect::<String>()).collect()
}

#[test]
fn lines_follow_str_lines() {
    assert_eq!(lines_of(""), Vec::<String>::new());
    assert_eq!(lines_of("a\nb"), vec!["a", "b"]);
    assert_eq!(lines_of("a\r\nb\n"), vec!["a", "b"]);
    assert_eq!(lines_of("\n\nx\r"), vec!["", "", "x\r"]);
    for s in ["", "a", "a\n", "a\r\n\r\n", "\r", "x\n\ny\r\nz\n\n"] {
        let ours = lines_of(s);
        let std_lines: Vec<String> = s.lines().map(|l| l.to_string()).collect();
        assert_eq!(ours, std_lines, "{s:?}");
    }
}

#[test]
fn chat_blocks_render_as_lines() {
    let mut v = ChatView::new();
    v.push(ChatBlock::User("hi".to_string()));
    v.push(ChatBlock::Assistant { text: String::new(), reasoning: String::new() });
    v.push(ChatBlock::Assistant { text: "a\nb".to_string(), reasoning: "think".to_string() });
    v.push(ChatBlock::ToolCall { name: "Read".into(), brief: String::new(), status: ToolStatus::Running });
    v.push(ChatBlock::ToolCall { name: "Bash".into(), brief: "ls".into(), status: ToolStatus::Failed });
    v.push(ChatBlock::AutoJudged { tool: "Bash".into(), decision: AutoDecision::Deny, reason: Some("危险".into()) });
    v.push(ChatBlock::AutoJudged { tool: "Edit".into(), decision: AutoDecision::Route, reason: None });
    v.push(ChatBlock::Note("note".into()));
    let lines = v.render_lines();
    assert_eq!(
        texts(&lines),
        vec![
            "› hi", "", "…", "", "  · think", "a", "b", "", "> Read() …", "> Bash(ls) ✗",
            "✗ AutoMode 自动拒绝 [Bash]：危险", "? AutoMode 转人工 [Edit]", "note",
        ]
    );
    assert_eq!(lines[0][0], StyledSpan { tone: SpanTone::UserPrefix, text: "› ".into() });
    assert_eq!(lines[0][1].tone, SpanTone::Plain);
    assert_eq!(lines[2][0].tone, SpanTone::Hint);
    assert_eq!(lines[4][0].tone, SpanTone::Reasoning);
    assert_eq!(lines[5][0].tone, SpanTone::AssistantText);
    assert_eq!(lines[8][0].tone, SpanTone::ToolCall);
    assert_eq!(lines[9][0].tone, SpanTone::ToolFailure);
    assert_eq!(lines[10][0].tone, SpanTone::AutoDeny);
    assert_eq!(lines[11][0].tone, SpanTone::AutoRoute);
    assert_eq!(lines[12][0].tone, SpanTone::Hint);
}
