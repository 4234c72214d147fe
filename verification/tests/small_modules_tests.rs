use hebbian::automode::ForceAutomodeState;
use hebbian::browser_history::{CefBrowser, CefHost};
use hebbian::idle::is_idle_for;
use hebbian::mock::MockClient;
use hebbian::paths::{hebcore_sock, path_join, socket_path, sockets_dir};
use std::path::Path;

#[test]
fn path_join_matches_std() {
    for (b, c) in [("/data", "x"), ("/data/", "x"), ("", "x"), ("/a", "/b"), ("rel", "y/z"), ("/", "")] {
        let std_join = Path::new(b).join(c);
        assert_eq!(path_join(b, c), std_join.to_str().unwrap(), "{b:?} + {c:?}");
    }
    assert_eq!(sockets_dir("/d"), "/d/cli-sockets");
    assert_eq!(socket_path("/d", "s1"), "/d/cli-sockets/s1.sock");
    assert_eq!(hebcore_sock("/d/"), "/d/hebcore.sock");
}

#[test]
fn idle_threshold() {
    assert!(!is_idle_for(0, 100_000));
    assert!(is_idle_for(5, 300));
    assert!(!is_idle_for(5, 299));
}

#[test]
fn mock_replies_echo() {
    let m = MockClient::new();
    assert_eq!(m.provider_id(), "mock");
    assert!(m.supports_streaming_tools());
    assert_eq!(m.reply_chunks("hi").concat(), m.full_reply("hi"));
    assert_eq!(m.full_reply("hi"), "[mock] 收到：「hi」 — 这是一条假回复。");
}

#[test]
fn hands_off_switch_reads_back() {
    let mut s = ForceAutomodeState::new();
    assert!(!s.is_enabled("a"));
    s.set("a".into(), true);
    s.set("b".into(), false);
    assert!(s.is_enabled("a"));
    assert!(!s.is_enabled("b"));
    s.set("a".into(), false);
    assert!(!s.is_enabled("a"));
}

#[test]
fn browser_history_back_and_forward() {
    let mut b = CefBrowser::create("u0");
    b.navigate("u1");
    b.navigate("u2");
    assert!(b.back());
    assert!(b.back());
    assert!(!b.back());
    assert_eq!(b.current(), "u0");
    assert!(b.forward());
    b.navigate("u3");
    assert_eq!(b.history, vec!["u0", "u1", "u3"]);
    assert!(!b.can_go_forward());
    assert!(b.can_go_back());
}

#[test]
fn host_keeps_one_browser_per_session() {
    let mut h = CefHost::new();
    h.insert("s".into(), CefBrowser::create("a"));
    h.insert("s".into(), CefBrowser::create("b"));
    assert!(h.has("s"));
    assert_eq!(h.with("s", |b| b.current().to_string()), Some("b".to_string()));
    assert_eq!(h.with("t", |b| b.current().to_string()), None);
    let removed = h.remove("s").unwrap();
    assert_eq!(removed.current(), "b");
    assert!(!h.has("s"));
    assert!(h.remove("s").is_none());
}
