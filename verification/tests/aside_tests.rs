use hebbian::aside::{aside_model_choices, ModelChoice, PickerProvider};
use hebbian::aside::{annotation_provider, annotation_summary_prompt, aside_system_prompt, inspector_route, InspectorRoute};
use hebbian::aside::{
    aside_channel, aside_provider_model, aside_session_id, aside_user_content, elements_block,
    pasted_attachments, route_aside_event, AsideDown, AsideElement, AsideEvent, PastedImage,
    PreviewToolInput,
};
use hebbian::desktop::MessageAttachment;

fn el(r: Option<&str>, l: Option<&str>) -> AsideElement {
    AsideElement { reference: r.map(|s| s.to_string()), locator: l.map(|s| s.to_string()) }
}

#[test]
fn element_blocks() {
    let es = vec![el(Some("@1"), Some("div.a")), el(None, Some("x")), el(Some("@@2"), None)];
    assert_eq!(
        elements_block(Some(&es), "ignored"),
        "<element index=\"1\">\ndiv.a\n</element>\n<element index=\"2\">\n\n</element>"
    );
    assert_eq!(elements_block(Some(&vec![]), "old"), "<element index=\"1\">\nold\n</element>");
    assert_eq!(elements_block(None, ""), "");
    assert_eq!(aside_user_content("", "hi"), "hi");
    assert_eq!(
        aside_user_content("B", "hi"),
        "<selected_elements>\nB\n</selected_elements>\n\nhi"
    );
}

#[test]
fn pasted_screenshots() {
    let imgs = vec![
        PastedImage { data: None, media_type: None },
        PastedImage { data: Some("AAA".into()), media_type: None },
        PastedImage { data: Some("BBB".into()), media_type: Some("image/jpeg".into()) },
    ];
    assert_eq!(
        pasted_attachments(Some(&imgs)),
        vec![
            MessageAttachment::Image { name: "pasted-2.png".into(), media_type: "image/png".into(), data: "AAA".into() },
            MessageAttachment::Image { name: "pasted-3.png".into(), media_type: "image/jpeg".into(), data: "BBB".into() },
        ]
    );
    assert!(pasted_attachments(None).is_empty());
}

#[test]
fn provider_model_and_ids() {
    assert_eq!(
        aside_provider_model(None, Some("m2".into()), Some(("p".into(), "m".into()))),
        Ok(("p".to_string(), "m2".to_string()))
    );
    assert_eq!(
        aside_provider_model(None, None, None),
        Err("这个对话还没配置模型，没法开元素对话".to_string())
    );
    assert_eq!(aside_session_id(Some("aside-1"), "x"), ("aside-1".to_string(), false));
    assert_eq!(aside_session_id(Some(""), "x"), ("aside-x".to_string(), true));
    assert_eq!(aside_session_id(None, "y"), ("aside-y".to_string(), true));
}

fn input(target: Option<&str>) -> PreviewToolInput {
    PreviewToolInput { prop: None, value: Some("red".into()), target: target.map(|s| s.to_string()), all_matches: None }
}

#[test]
fn routing_events_down() {
    let d = route_aside_event(AsideEvent::ToolStart { name: "PreviewStyle".into(), input: input(None) }).unwrap();
    assert_eq!(d, AsideDown::Apply { prop: String::new(), value: "red".into(), target: "@1".into(), all_matches: false });
    assert_eq!(aside_channel(&d), "heb:aside:apply");
    assert_eq!(
        route_aside_event(AsideEvent::ToolStart { name: "PreviewMutate".into(), input: input(Some(".x")) }),
        Some(AsideDown::Mutate { default_target: false })
    );
    assert_eq!(
        route_aside_event(AsideEvent::ToolStart { name: "PreviewAct".into(), input: input(None) }),
        Some(AsideDown::Act { default_target: true })
    );
    assert_eq!(
        route_aside_event(AsideEvent::ToolStart { name: "PreviewCapture".into(), input: input(None) }),
        Some(AsideDown::Tool { name: "PreviewCapture".into() })
    );
    assert_eq!(route_aside_event(AsideEvent::ToolStart { name: "Bash".into(), input: input(None) }), None);
    assert_eq!(route_aside_event(AsideEvent::RunFinished), Some(AsideDown::Done));
    assert_eq!(aside_channel(&AsideDown::Done), "heb:aside:done");
    assert_eq!(
        route_aside_event(AsideEvent::TextDelta { text: "t".into() }),
        Some(AsideDown::Delta { text: "t".into() })
    );
}

#[test]
fn inspector_messages_and_prompts() {
    assert_eq!(inspector_route("heb:annotation:submit"), InspectorRoute::Emit { channel: "browser://annotation".into() });
    assert_eq!(inspector_route("heb:navigated"), InspectorRoute::Emit { channel: "browser://title".into() });
    assert_eq!(inspector_route("heb:aside:stop"), InspectorRoute::AsideStop);
    assert_eq!(inspector_route("heb:annotation:submit-all"), InspectorRoute::SubmitAll);
    assert_eq!(inspector_route("heb:unknown"), InspectorRoute::Ignore);
    let p = annotation_summary_prompt("[1]");
    assert!(p.contains("\n\n[1]\n\n把它们合并总结成"));
    assert!(p.starts_with("下面是用户在网页预览里收集的若干条注释（JSON）。每条含：选中元素的定位快照（elements，含 selectorPath"));
    assert!(p.ends_with("只输出这段总结，不要再调工具。"));
    assert!(aside_system_prompt().starts_with("你是网页预览里的「样式调整助手」"));
    assert!(aside_system_prompt().contains("每个 <element index=\"N\"> 是一个选中元素的定位信息"));
    assert_eq!(annotation_provider(None), Err("这个对话还没配置模型，没法提交注释".to_string()));
    assert_eq!(annotation_provider(Some(("p".into(), "m".into()))), Ok(("p".to_string(), "m".to_string())));
}

#[test]
fn aside_models_skip_switched_off_providers() {
    let providers = vec![
        PickerProvider { id: "p1".into(), name: "甲".into(), enabled: true, models: vec!["m1".into(), "m2".into()] },
        PickerProvider { id: "p2".into(), name: "乙".into(), enabled: false, models: vec!["x".into()] },
        PickerProvider { id: "p3".into(), name: "丙".into(), enabled: true, models: vec![] },
        PickerProvider { id: "p4".into(), name: "丁".into(), enabled: true, models: vec!["m4".into()] },
    ];
    let choices = aside_model_choices(&providers);
    let label = |p: &str, m: &str, l: &str| ModelChoice { provider_id: p.into(), model: m.into(), label: l.into() };
    assert_eq!(
        choices,
        vec![label("p1", "m1", "m1 · 甲"), label("p1", "m2", "m2 · 甲"), label("p4", "m4", "m4 · 丁")]
    );
}
