use hebbian::messages::{fallback_from_first_user, title_prompt, Message, Role};

fn user_msg(text: &str) -> Message {
    Message { id: "m".to_string(), role: Role::User, content: text.to_string() }
}

#[test]
fn fallback_chinese_takes_10_chars() {
    let msgs = [user_msg("帮我写一个用 Rust 实现的简单 HTTP 服务器")];
    assert_eq!(fallback_from_first_user(&msgs), "帮我写一个用 Rus…");
}

#[test]
fn fallback_english_takes_15_chars() {
    let msgs = [user_msg("write a simple http server in rust")];
    assert_eq!(fallback_from_first_user(&msgs), "write a simple …");
}

#[test]
fn fallback_short_input_no_ellipsis() {
    let msgs = [user_msg("你好")];
    assert_eq!(fallback_from_first_user(&msgs), "你好");
}

#[test]
fn fallback_empty_returns_default() {
    assert_eq!(fallback_from_first_user(&[]), "新对话");
    assert_eq!(fallback_from_first_user(&[user_msg("   ")]), "新对话");
}

#[test]
fn fallback_skips_non_user_messages() {
    let msgs = [
        Message { id: "a".to_string(), role: Role::Assistant, content: "hello there".to_string() },
        user_msg("  hi  "),
    ];
    assert_eq!(fallback_from_first_user(&msgs), "hi");
}

#[test]
fn title_prompt_none_without_user_text() {
    assert_eq!(title_prompt(&[]), None);
}

#[test]
fn title_prompt_lists_user_and_assistant_lines() {
    let msgs = [
        user_msg("hi"),
        Message { id: "b".to_string(), role: Role::Assistant, content: "hello".to_string() },
        Message { id: "c".to_string(), role: Role::Marker, content: "x".to_string() },
    ];
    assert_eq!(
        title_prompt(&msgs),
        Some("请为以下对话生成标题：\n\n[用户] hi\n[助手] hello\n".to_string())
    );
}
