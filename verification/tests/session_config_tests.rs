use hebbian::messages::{Message, Role};
use hebbian::session_config::{
    plan_model_switch, same_reasoning, update_session_config, ProviderInfo, ReasoningConfig,
    SessionSettings, SettingsUpdate, SwitchMarker, SwitchPlan,
};

fn settings() -> SessionSettings {
    SessionSettings {
        provider_id: "p1".into(),
        model: "m1".into(),
        system_prompt: Some("sys".into()),
        prompt_id: None,
        stream: true,
        reasoning: None,
    }
}

fn no_update() -> SettingsUpdate {
    SettingsUpdate {
        provider_id: None,
        model: None,
        system_prompt: None,
        prompt_id: None,
        stream: None,
        reasoning: None,
        clear_reasoning: None,
    }
}

fn thinking(effort: &str) -> ReasoningConfig {
    ReasoningConfig { enabled: Some(true), effort: Some(effort.into()), long_context: None }
}

#[test]
fn update_replaces_given_fields_and_clears_empty_texts() {
    let mut u = no_update();
    u.model = Some("m2".into());
    u.system_prompt = Some(String::new());
    u.prompt_id = Some("pr".into());
    u.stream = Some(false);
    let (s, changed) = update_session_config(settings(), u);
    assert!(!changed);
    assert_eq!(s.model, "m2");
    assert_eq!(s.provider_id, "p1");
    assert_eq!(s.system_prompt, None);
    assert_eq!(s.prompt_id, Some("pr".into()));
    assert!(!s.stream);
}

#[test]
fn reasoning_changes_are_reported() {
    let mut u = no_update();
    u.reasoning = Some(thinking("high"));
    let (s, changed) = update_session_config(settings(), u);
    assert!(changed);
    assert_eq!(s.reasoning, Some(thinking("high")));

    let mut u = no_update();
    u.reasoning = Some(thinking("high"));
    let (_, changed) = update_session_config(s, u);
    assert!(!changed);

    let mut start = settings();
    start.reasoning = Some(thinking("low"));
    let mut u = no_update();
    u.clear_reasoning = Some(true);
    let (s, changed) = update_session_config(start, u);
    assert!(changed);
    assert_eq!(s.reasoning, None);

    let mut u = no_update();
    u.clear_reasoning = Some(true);
    let (_, changed) = update_session_config(settings(), u);
    assert!(!changed);
    assert!(same_reasoning(&None, &None));
    assert!(!same_reasoning(&Some(thinking("a")), &Some(thinking("b"))));
}

fn msg(role: Role) -> Message {
    Message { id: "x".into(), role, content: "c".into() }
}

fn ds() -> Option<ProviderInfo> {
    Some(ProviderInfo { name: "DeepSeek".into(), is_deepseek: true })
}

fn oa() -> Option<ProviderInfo> {
    Some(ProviderInfo { name: "OpenAI".into(), is_deepseek: false })
}

#[test]
fn switching_rules() {
    assert_eq!(
        plan_model_switch("p1", "m1", None, &[], oa(), "p1", oa(), "m1", true),
        SwitchPlan::Unchanged
    );
    assert_eq!(
        plan_model_switch("p1", "m1", None, &[msg(Role::User)], oa(), "p2", ds(), "chat", false),
        SwitchPlan::Refused {
            reason: "本会话已锁定模型系列：DeepSeek 与其他模型之间不可互相切换，请新建会话。".into()
        }
    );
    assert_eq!(
        plan_model_switch("p1", "m1", None, &[msg(Role::Marker)], oa(), "p2", ds(), "chat", false),
        SwitchPlan::Switch {
            marker: SwitchMarker {
                from_provider: "OpenAI".into(),
                from_model: "m1".into(),
                to_provider: "DeepSeek".into(),
                to_model: "chat".into(),
            },
            reasoning: None,
        }
    );
    match plan_model_switch("p1", "m1", None, &[msg(Role::User)], None, "p3", None, "m3", true) {
        SwitchPlan::Switch { marker, reasoning } => {
            assert_eq!(marker.from_provider, "p1");
            assert_eq!(marker.to_provider, "p3");
            assert_eq!(reasoning, Some(thinking("extra")));
        }
        other => panic!("unexpected {other:?}"),
    }
    match plan_model_switch("p1", "m1", Some(thinking("low")), &[], oa(), "p1", oa(), "m2", true) {
        SwitchPlan::Switch { reasoning, .. } => assert_eq!(reasoning, Some(thinking("low"))),
        other => panic!("unexpected {other:?}"),
    }
}
