use hebbian::cli_session::{
    multi_select_answer, option_display_items, single_answer, single_select_answer, text_answer,
    SingleChoice,
};
use hebbian::protocol::{QuestionOption, SingleAnswer, UserAnswer};
use hebbian::cli_session::{
    classify_repl_line, compact_instructions, plan_history, usage_level, ConvoMessage, HistoryPlan,
    ReplInput, TurnRole, UsageLevel,
};

fn m(role: &str, content: &str) -> ConvoMessage {
    ConvoMessage { role: role.to_string(), content: content.to_string() }
}

#[test]
fn history_replays_all_but_the_last_user_message() {
    let plan = plan_history(
        vec![m("system", "be brief"), m("user", "q1"), m("assistant", "a1"), m("system", "more"), m("user", "q2")],
        Some("base".to_string()),
    );
    assert_eq!(
        plan,
        Ok(HistoryPlan {
            turns: vec![(TurnRole::User, "q1".to_string()), (TurnRole::Assistant, "a1".to_string())],
            system: Some("base\n\nbe brief\n\nmore".to_string()),
            last_user: "q2".to_string(),
        })
    );
    let plan = plan_history(vec![m("system", "s"), m("user", "q")], Some(String::new())).unwrap();
    assert_eq!(plan.system, Some("s".to_string()));
    let plan = plan_history(vec![m("user", "q")], None).unwrap();
    assert_eq!(plan.system, None);
    assert!(plan.turns.is_empty());
}

#[test]
fn history_errors() {
    assert_eq!(plan_history(vec![], None), Err("messages 为空".to_string()));
    assert_eq!(
        plan_history(vec![m("user", "q"), m("assistant", "a")], None),
        Err("messages 最后一条必须是 user，实际为 assistant".to_string())
    );
    assert_eq!(
        plan_history(vec![m("user", "q"), m("tool", "x"), m("robot", "y"), m("user", "z")], None),
        Err("不支持的 role: tool".to_string())
    );
}

#[test]
fn repl_lines() {
    assert_eq!(classify_repl_line("   "), ReplInput::Blank);
    assert_eq!(classify_repl_line(" /q "), ReplInput::Exit);
    assert_eq!(classify_repl_line("/exit"), ReplInput::Exit);
    assert_eq!(classify_repl_line("/quit"), ReplInput::Exit);
    assert_eq!(
        classify_repl_line("  /compact  keep the API notes "),
        ReplInput::Compact { instructions: "keep the API notes".to_string() }
    );
    assert_eq!(classify_repl_line("/compact"), ReplInput::Compact { instructions: String::new() });
    assert_eq!(classify_repl_line(" hello "), ReplInput::Turn);
    assert_eq!(compact_instructions(""), None);
    assert_eq!(compact_instructions("x"), Some("x"));
}

#[test]
fn usage_levels() {
    assert_eq!(usage_level(95), UsageLevel::Critical);
    assert_eq!(usage_level(90), UsageLevel::Critical);
    assert_eq!(usage_level(70), UsageLevel::Warn);
    assert_eq!(usage_level(69), UsageLevel::Calm);
}

#[test]
fn terminal_question_answers() {
    let opts = vec![
        QuestionOption { label: "A".into(), description: String::new() },
        QuestionOption { label: "B".into(), description: "second".into() },
    ];
    let items = option_display_items(&opts);
    assert_eq!(items, vec!["1. A".to_string(), "2. B — second".to_string()]);
    let labels = vec!["A".to_string(), "B".to_string()];
    assert_eq!(
        multi_select_answer(&items, &labels, &vec!["2. B — second".into(), "1. A".into()]),
        UserAnswer::SelectedMulti { labels: vec!["B".into(), "A".into()] }
    );
    assert_eq!(multi_select_answer(&items, &labels, &vec![]), UserAnswer::Cancelled);
    assert_eq!(single_select_answer(&items, &labels, "其他（自由输入）"), SingleChoice::AskText);
    assert_eq!(
        single_select_answer(&items, &labels, "1. A"),
        SingleChoice::Answer(UserAnswer::Selected { label: "A".into() })
    );
    assert_eq!(
        single_select_answer(&items, &labels, "odd"),
        SingleChoice::Answer(UserAnswer::Selected { label: "odd".into() })
    );
    assert_eq!(text_answer(Some("  ".into())), UserAnswer::Cancelled);
    assert_eq!(text_answer(Some(" x ".into())), UserAnswer::Custom { text: " x ".into() });
    assert_eq!(text_answer(None), UserAnswer::Cancelled);
    assert_eq!(single_answer(UserAnswer::Cancelled), None);
    assert_eq!(
        single_answer(UserAnswer::Custom { text: "t".into() }),
        Some(SingleAnswer::Custom { text: "t".into() })
    );
    assert_eq!(single_answer(UserAnswer::Multi { items: vec![] }), Some(SingleAnswer::Cancelled));
}
