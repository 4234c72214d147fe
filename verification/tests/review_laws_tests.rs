use hebbian::browser_history::{CefBrowser, CefHost};
use hebbian::daemon::{translate_wire_event, DaemonEvent, UsageTotals, WireEvent};
use hebbian::hebcore::{connect_failure, control_result, HebcoreReply};
use hebbian::mock::{last_user_text, FinishReason, MockClient, Usage};
use hebbian::render::{RenderEvent, TurnRenderer};
use hebbian::url_policy::{is_blocked_probe_host, is_local_preview_host, normalize_preview_url};

#[test]
fn with_runs_on_the_stored_browser_and_keeps_its_changes() {
    let mut h = CefHost::new();
    h.insert("s".into(), CefBrowser::create("http://a/"));
    h.insert("t".into(), CefBrowser::create("http://t/"));
    let r = h.with("s", |b| {
        b.navigate("http://b/");
        b.history.len()
    });
    assert_eq!(r, Some(2));
    assert_eq!(h.with("s", |b| b.current().to_string()), Some("http://b/".to_string()));
    assert_eq!(h.with("s", |b| b.back()), Some(true));
    assert_eq!(h.with("s", |b| b.current().to_string()), Some("http://a/".to_string()));
    assert_eq!(h.with("t", |b| b.current().to_string()), Some("http://t/".to_string()));
    let mut calls = 0;
    assert_eq!(h.with("none", |_b| calls += 1), None);
    assert_eq!(calls, 0);
}

#[test]
fn has_stays_true_until_removed() {
    let mut h = CefHost::new();
    h.insert("s".into(), CefBrowser::create("a"));
    h.insert("o".into(), CefBrowser::create("b"));
    h.with("s", |b| b.navigate("c"));
    h.remove("o");
    h.insert("p".into(), CefBrowser::create("d"));
    assert!(h.has("s"));
    assert!(!h.has("o"));
    assert!(h.has("p"));
}

#[test]
fn usage_is_summed_over_many_reports() {
    let mut u = UsageTotals::default();
    let mut expect = (0u64, 0u64, 0u64);
    for k in 1..=5u64 {
        let r = translate_wire_event(
            WireEvent::Usage { input_tokens: k, output_tokens: 2 * k, cache_read_tokens: k % 2 },
            &mut u,
        );
        assert!(r.is_none());
        expect = (expect.0 + k, expect.1 + 2 * k, expect.2 + k % 2);
        let _ = translate_wire_event(WireEvent::RunResumed { cause: "x".into() }, &mut u);
    }
    match translate_wire_event(WireEvent::RunFinished { duration_ms: 9 }, &mut u) {
        Some(DaemonEvent::RunFinished { input_tokens, output_tokens, cache_read_tokens, duration_ms }) => {
            assert_eq!((input_tokens, output_tokens, cache_read_tokens, duration_ms), (expect.0, expect.1, expect.2, 9));
        }
        other => panic!("unexpected {other:?}"),
    }
    assert_eq!(u, UsageTotals::default());
}

#[test]
fn final_text_is_the_deltas_in_order() {
    let mut r = TurnRenderer::new();
    r.on_event(RenderEvent::RunStarted);
    r.on_event(RenderEvent::TextDelta { text: "甲".into() });
    r.on_event(RenderEvent::Reasoning { text: "想".into() });
    r.on_event(RenderEvent::TextDelta { text: "乙".into() });
    r.on_event(RenderEvent::TextDone { full_text: "别的".into() });
    r.on_event(RenderEvent::TextDelta { text: "丙".into() });
    assert_eq!(r.take_final_text(), "甲乙丙");
    assert_eq!(r.take_final_text(), "");
}

#[test]
fn host_check_ignores_case_space_and_brackets() {
    for h in ["localhost", "LocalHost", "10.0.0.1", "::1", "example.com", "169.254.169.254", "Metadata.Goog"] {
        let up = h.to_ascii_uppercase();
        let wrapped = format!(" [{}] ", h.trim());
        assert_eq!(is_local_preview_host(h), is_local_preview_host(&up), "{h}");
        assert_eq!(is_local_preview_host(h), is_local_preview_host(&wrapped), "{h}");
        assert_eq!(is_blocked_probe_host(h), is_blocked_probe_host(&up), "{h}");
        assert_eq!(is_blocked_probe_host(h), is_blocked_probe_host(&wrapped), "{h}");
    }
}

#[test]
fn unspecified_hosts_become_loopback() {
    let u = normalize_preview_url("http://0.0.0.0:5173/x").unwrap();
    assert_eq!(u.scheme(), "http");
    assert_eq!(u.host_str(), Some("127.0.0.1"));
    let u = normalize_preview_url("https://[::]:8443").unwrap();
    assert_eq!(u.scheme(), "https");
    assert_eq!(u.host_str(), Some("127.0.0.1"));
    assert!(normalize_preview_url("  ").is_none());
}

#[test]
fn mock_stream_and_completion() {
    let m = MockClient::new();
    assert_eq!(m.complete(), Err("mock provider 仅支持 stream".to_string()));
    let s = m.stream_plan("hi", false);
    assert_eq!(s.deltas, vec!["[mock] 收到：", "「hi」", " — 这是一条假回复。"]);
    let done = s.outcome.unwrap();
    assert_eq!(done.finish, FinishReason::Stop);
    assert_eq!(done.text, "[mock] 收到：「hi」 — 这是一条假回复。");
    assert_eq!(done.reasoning, "");
    assert_eq!(done.usage, Usage { input_tokens: 8, output_tokens: 4, cache_read_tokens: 0, cache_creation_tokens: 0 });
    let s = m.stream_plan("hi", true);
    assert_eq!(s.deltas, vec!["[mock] 收到："]);
    assert!(s.outcome.unwrap_err().starts_with("模型流式返回错误："));
    assert_eq!(last_user_text(&vec![Some("a".into()), None, Some("b".into()), None]), "b");
    assert_eq!(last_user_text(&vec![None]), "");
}

#[test]
fn control_connect_failure_names_socket_and_error() {
    assert_eq!(
        connect_failure("/d/hebcore.sock", "No such file or directory (os error 2)"),
        "连接 hebcore 失败（/d/hebcore.sock）：No such file or directory (os error 2)"
    );
}

#[test]
fn control_requests_come_to_the_first_failure_or_the_reply() {
    let sock = "/d/hebcore.sock";
    assert_eq!(
        control_result(sock, Err("refused".into()), Ok(()), Ok(Some(HebcoreReply::Accepted))),
        Err("连接 hebcore 失败（/d/hebcore.sock）：refused".to_string())
    );
    assert_eq!(control_result(sock, Ok(()), Err("broken pipe".into()), Ok(None)), Err("broken pipe".to_string()));
    assert_eq!(control_result(sock, Ok(()), Ok(()), Err("bad json".into())), Err("bad json".to_string()));
    assert_eq!(control_result(sock, Ok(()), Ok(()), Ok(None)), Err("hebcore 无响应".to_string()));
    assert_eq!(
        control_result(sock, Ok(()), Ok(()), Ok(Some(HebcoreReply::Error { message: "no run".into() }))),
        Err("no run".to_string())
    );
    assert_eq!(control_result(sock, Ok(()), Ok(()), Ok(Some(HebcoreReply::Accepted))), Ok(()));
    assert_eq!(control_result(sock, Ok(()), Ok(()), Ok(Some(HebcoreReply::Event))), Ok(()));
}
