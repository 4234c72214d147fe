use hebbian::preview::{
    bridge_from_env_value, data_url, nav_update_event, navigation_verdict, parse_u16, popout_label,
    popout_page_label, popout_start, popout_title, state_event, toolbar_command, webview_label, BrowserEvent, CdpBridge,
    NavUpdate, NavVerdict, PageHistory, ToolbarCommand,
};
use hebbian::todos::{PlanComment, PlanCommentDto, TodoItem, TodoItemDto, TodoStatus};

#[test]
fn from_env_absent_is_none() {
    assert!(bridge_from_env_value(None).is_none());
}

#[test]
fn env_value_names_a_port() {
    assert_eq!(bridge_from_env_value(Some("9444")).unwrap().endpoint(), "http://127.0.0.1:9444");
    assert!(bridge_from_env_value(Some("not a port")).is_none());
    assert!(bridge_from_env_value(Some("70000")).is_none());
    assert_eq!(CdpBridge::new(9222).endpoint(), "http://127.0.0.1:9222");
}

#[test]
fn parse_u16_like_std() {
    for s in ["0", "65535", "65536", "+80", "", "+", "-1", "8a", "007", "99999999999"] {
        assert_eq!(parse_u16(s), s.parse::<u16>().ok(), "{s:?}");
    }
}

#[test]
fn labels() {
    assert_eq!(popout_label("s1"), "preview-popout-s1");
    assert_eq!(popout_page_label("s1"), "preview-popout-page-s1");
    assert_eq!(webview_label("s1"), "heb-preview-s1");
}

#[test]
fn navigation_verdicts() {
    assert_eq!(navigation_verdict(true, "heb-bridge", "heb-bridge://msg/?d=x"), NavVerdict::Bridge);
    assert_eq!(navigation_verdict(false, "about", "about:blank"), NavVerdict::Internal);
    assert_eq!(navigation_verdict(false, "https", "https://example.com/"), NavVerdict::Allowed);
    assert!(matches!(
        navigation_verdict(false, "http", "http://169.254.169.254/latest"),
        NavVerdict::Escaped { .. }
    ));
}

#[test]
fn page_history_skips_self_started_loads() {
    let mut p = PageHistory::open("http://a/");
    assert!(p.programmatic);
    p.on_page_navigated("http://a/");
    assert_eq!(p.history, vec!["http://a/"]);
    assert_eq!(p.cursor, 0);
    p.navigate_to("http://b/");
    p.on_page_navigated("http://b/");
    assert_eq!(p.history, vec!["http://a/", "http://b/"]);
    p.on_page_navigated("http://c/");
    assert_eq!(p.history, vec!["http://a/", "http://b/", "http://c/"]);
    assert_eq!(p.back(), Some("http://b/".to_string()));
    assert!(p.programmatic);
    p.on_page_navigated("http://b/");
    assert_eq!(p.cursor, 1);
    assert_eq!(p.state(), ("http://b/".to_string(), true, true));
    assert_eq!(p.go(-1), Some("http://a/".to_string()));
    assert!(p.programmatic);
    p.on_page_navigated("http://a/");
    assert_eq!(p.history, vec!["http://a/", "http://b/", "http://c/"]);
    assert_eq!(p.go(-1), None);
    assert!(!p.programmatic);
    assert_eq!(p.go(2), Some("http://c/".to_string()));
    p.on_page_navigated("http://c/");
    assert_eq!(p.history, vec!["http://a/", "http://b/", "http://c/"]);
    assert_eq!(p.cursor, 2);
    assert_eq!(p.forward(), None);
    p.on_page_navigated("http://d/");
    assert_eq!(p.history.len(), 4);
}

#[test]
fn toolbar_commands() {
    assert_eq!(toolbar_command("tb:navigate"), ToolbarCommand::Navigate);
    assert_eq!(toolbar_command("tb:close"), ToolbarCommand::Close);
    assert_eq!(toolbar_command("tb:unknown"), ToolbarCommand::Ignore);
}

#[test]
fn engine_reports_become_events() {
    assert_eq!(
        nav_update_event("s", NavUpdate::Url("http://x/".into())),
        BrowserEvent::State {
            session_id: "s".into(),
            url: "http://x/".into(),
            can_go_back: false,
            can_go_forward: false,
            loading: false
        }
    );
    assert_eq!(
        nav_update_event("s", NavUpdate::Title("T".into())),
        BrowserEvent::Title { session_id: "s".into(), url: String::new(), title: "T".into() }
    );
    assert_eq!(
        nav_update_event("s", NavUpdate::Loading(true)),
        BrowserEvent::State { session_id: "s".into(), url: String::new(), can_go_back: false, can_go_forward: false, loading: true }
    );
    let mut p = PageHistory::open("http://a/");
    p.navigate_to("http://b/");
    assert_eq!(
        state_event("s", &p, true),
        BrowserEvent::State { session_id: "s".into(), url: "http://b/".into(), can_go_back: true, can_go_forward: false, loading: true }
    );
}

#[test]
fn todo_and_comment_dtos() {
    let d = TodoItemDto::from_item(TodoItem {
        id: "1".into(),
        content: "write".into(),
        active_form: "writing".into(),
        status: TodoStatus::InProgress,
    });
    assert_eq!(d.status, "in_progress");
    assert_eq!(d.active_form, "writing");
    let d = TodoItemDto::from_item(TodoItem { id: "2".into(), content: "c".into(), active_form: "a".into(), status: TodoStatus::Completed });
    assert_eq!(d.status, "completed");
    let c = PlanCommentDto::from_comment(PlanComment {
        id: "c".into(),
        plan_id: "p".into(),
        anchor: "#x".into(),
        body: "b".into(),
        created_at_ms: 5,
        consumed: true,
    });
    assert_eq!((c.plan_id.as_str(), c.created_at_ms, c.consumed), ("p", 5, true));
}

#[test]
fn popout_titles() {
    assert_eq!(popout_title(Some("调样式".into()), "s1"), "调样式 · s1");
    assert_eq!(popout_title(Some(String::new()), "s1"), "页面预览 · s1");
    assert_eq!(popout_title(None, "s2"), "页面预览 · s2");
}

#[test]
fn go_back_keeps_the_history() {
    let mut p = PageHistory::open("http://a/");
    p.on_page_navigated("http://a/");
    p.navigate_to("http://b/");
    p.on_page_navigated("http://b/");
    p.navigate_to("http://c/");
    p.on_page_navigated("http://c/");
    assert_eq!(p.go(-1), Some("http://b/".to_string()));
    p.on_page_navigated("http://b/");
    assert_eq!(p.history, vec!["http://a/", "http://b/", "http://c/"]);
    assert_eq!(p.cursor, 1);
}

#[test]
fn popout_start_states() {
    let (url, p) = popout_start(Some("http://a/".into())).unwrap();
    assert_eq!(url.as_str(), "http://a/");
    assert_eq!((p.history, p.cursor, p.programmatic), (vec!["http://a/".to_string()], 0, true));
    assert_eq!(popout_start(Some("不是网址".into())).err(), Some("当前地址异常".to_string()));
    let (url, p) = popout_start(None).unwrap();
    let html = "<!DOCTYPE html><html><head><meta charset=\"utf-8\"><title>新页面</title></head><body style=\"margin:0;background:#fff\"></body></html>";
    assert_eq!(url.as_str(), data_url(html));
    assert_eq!(url.scheme(), "data");
    assert_eq!((p.history.len(), p.cursor, p.programmatic), (0, 0, true));
}
