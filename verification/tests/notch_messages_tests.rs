use hebbian::messages::{auth_headers, AuthMode, ProviderAuth, ProviderKind};
use hebbian::messages::{
    effective_messages, is_wide_char, to_anthropic_messages, to_gemini_contents,
    to_openai_messages, ChatTurn, Message, Role,
};
use hebbian::notch::{
    base64_encode, create_notch_state, permission_payload, question_payload, run_finished_payload,
    should_suppress, NotchType,
};
use hebbian::table::KeyedTable;

fn m(role: Role, c: &str) -> Message {
    Message { id: c.to_string(), role, content: c.to_string() }
}

fn turns(v: Vec<ChatTurn>) -> Vec<(String, String)> {
    v.into_iter().map(|t| (t.role, t.content)).collect()
}

#[test]
fn provider_formats() {
    let msgs = [m(Role::System, "s"), m(Role::User, "u"), m(Role::Marker, "x"), m(Role::Assistant, "a")];
    assert_eq!(effective_messages(&msgs).len(), 3);
    assert_eq!(
        turns(to_openai_messages(Some("sys"), &msgs)),
        vec![
            ("system".into(), "sys".into()),
            ("system".into(), "s".into()),
            ("user".into(), "u".into()),
            ("assistant".into(), "a".into())
        ]
    );
    assert_eq!(turns(to_openai_messages(Some("  "), &[])), vec![]);
    assert_eq!(
        turns(to_anthropic_messages(&msgs)),
        vec![("user".into(), "u".into()), ("assistant".into(), "a".into())]
    );
    assert_eq!(
        turns(to_gemini_contents(&msgs)),
        vec![("user".into(), "u".into()), ("model".into(), "a".into())]
    );
    assert!(is_wide_char('中'));
    assert!(!is_wide_char('é'));
    assert!(!is_wide_char('a'));
}

#[test]
fn notch_queue() {
    let mut s = create_notch_state();
    assert!(!should_suppress(&s));
    let shown = s.enqueue(permission_payload("r1", "tool_call", "Bash", "{\"command\":\"ls\"}"));
    assert_eq!(shown.map(|p| p.summary), Some("Bash {\"command\":\"ls\"}".to_string()));
    assert_eq!(s.enqueue(question_payload("q1", "Which?")), None);
    assert_eq!(s.enqueue(question_payload("q2", "Other?")), None);
    assert_eq!(s.queue.len(), 1);
    assert_eq!(s.queue[0].request_id, Some("q2".to_string()));
    assert_eq!(s.enqueue(run_finished_payload()), None);
    match s.resolve_notification("r1") {
        Some(Some(next)) => assert_eq!(next.request_id, Some("q2".to_string())),
        other => panic!("unexpected {other:?}"),
    }
    assert_eq!(s.active_type, Some(NotchType::Pending));
    let next = s.dismiss_current().unwrap();
    assert_eq!(next.title, "回答完成");
    assert_eq!(s.dismiss_current(), None);
    assert_eq!(s.active_type, None);
}

#[test]
fn base64_matches_rfc_examples() {
    assert_eq!(base64_encode(b""), "");
    assert_eq!(base64_encode(b"f"), "Zg==");
    assert_eq!(base64_encode(b"fo"), "Zm8=");
    assert_eq!(base64_encode(b"foo"), "Zm9v");
    assert_eq!(base64_encode(b"foobar"), "Zm9vYmFy");
    assert_eq!(base64_encode(&[0xff, 0xfe]), "//4=");
}

#[test]
fn keyed_table_ops() {
    let mut t: KeyedTable<u32> = KeyedTable::new();
    t.insert("a".into(), 1);
    t.insert("b".into(), 2);
    t.insert("a".into(), 3);
    assert_eq!(t.len(), 2);
    assert_eq!(t.get("a"), Some(&3));
    assert!(t.contains_key("b"));
    assert_eq!(t.remove("b"), Some(2));
    assert_eq!(t.remove("b"), None);
    let drained = t.drain();
    assert_eq!(drained.len(), 1);
    assert_eq!(t.len(), 0);
}

fn auth(kind: ProviderKind, mode: AuthMode, account: Option<&str>) -> ProviderAuth {
    ProviderAuth {
        kind,
        auth_mode: mode,
        api_key: "k".into(),
        account_id: account.map(str::to_string),
        extra_headers: vec![("X-Extra".into(), "1".into())],
    }
}

fn pairs(v: &[(&str, &str)]) -> Vec<(String, String)> {
    v.iter().map(|(a, b)| (a.to_string(), b.to_string())).collect()
}

#[test]
fn provider_auth_headers() {
    assert_eq!(
        auth_headers(&auth(ProviderKind::Openai, AuthMode::OauthCodex, Some("acc"))),
        pairs(&[("authorization", "Bearer k"), ("originator", "Hebbian"), ("ChatGPT-Account-Id", "acc"), ("X-Extra", "1")])
    );
    assert_eq!(
        auth_headers(&auth(ProviderKind::Openai, AuthMode::ApiKey, None)),
        pairs(&[("authorization", "Bearer k"), ("X-Extra", "1")])
    );
    assert_eq!(
        auth_headers(&auth(ProviderKind::Anthropic, AuthMode::OauthClaudeCode, None)),
        pairs(&[
            ("authorization", "Bearer k"),
            ("anthropic-version", "2023-06-01"),
            ("anthropic-beta", "oauth-2025-04-20"),
            ("X-Extra", "1"),
        ])
    );
    assert_eq!(
        auth_headers(&auth(ProviderKind::Anthropic, AuthMode::ApiKey, None)),
        pairs(&[("x-api-key", "k"), ("anthropic-version", "2023-06-01"), ("X-Extra", "1")])
    );
    assert_eq!(
        auth_headers(&auth(ProviderKind::Gemini, AuthMode::OauthGeminiCli, None)),
        pairs(&[("authorization", "Bearer k"), ("x-goog-api-client", "GeminiCLI/1.0"), ("X-Extra", "1")])
    );
    assert_eq!(auth_headers(&auth(ProviderKind::Gemini, AuthMode::ApiKey, None)), pairs(&[("X-Extra", "1")]));
}
