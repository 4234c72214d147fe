use hebbian::notch::base64_encode;
use hebbian::preview::{data_url, screenshot_bytes};
use hebbian::terminal::{
    append_scrollback, attach_result, locale_is_utf8, output_event, pty_dim, resolve_workdir,
    AttachResult, TerminalRegistry, ViewOwner, SCROLLBACK_CAP,
};

#[test]
fn registry_ids_order_and_views() {
    let mut r = TerminalRegistry::new();
    let a = r.next_id();
    let b = r.next_id();
    assert_eq!((a.as_str(), b.as_str()), ("term_001", "term_002"));
    r.add(a.clone(), "/w".into());
    r.add(b.clone(), "/v".into());
    r.mark_exited(&a);
    let l = r.list();
    assert_eq!(l.order, vec![a.clone(), b.clone()]);
    assert!(!l.terminals[0].alive);
    assert!(l.terminals[1].alive);
    r.close(&a);
    assert_eq!(r.list().order, vec![b.clone()]);
    r.set_view(ViewOwner::Popout);
    assert_eq!(r.list().active_view, ViewOwner::Popout);
}

#[test]
fn scrollback_keeps_the_tail() {
    let mut sb = vec![1u8; SCROLLBACK_CAP - 1];
    append_scrollback(&mut sb, &[2, 3, 4]);
    assert_eq!(sb.len(), SCROLLBACK_CAP);
    assert_eq!(&sb[sb.len() - 3..], &[2, 3, 4]);
    assert_eq!(sb[0], 1);
}

#[test]
fn base64_for_views_matches_both_encoders() {
    for data in [&b""[..], b"M", b"Ma", b"Man", b"hello world\xff\x00"] {
        let e = output_event("t", data);
        assert_eq!(e.data_b64, base64_encode(data));
    }
    assert_eq!(output_event("t", b"Man").data_b64, "TWFu");
    assert_eq!(attach_result(Some((b"Ma", true))), Ok(AttachResult { scrollback_b64: "TWE=".into(), alive: true }));
    assert_eq!(attach_result(None), Err("终端不存在".to_string()));
}

#[test]
fn data_urls_and_screenshots() {
    assert_eq!(data_url("<p>"), "data:text/html;base64,PHA+");
    assert_eq!(screenshot_bytes(Some("TWFu")), Ok(b"Man".to_vec()));
    assert_eq!(screenshot_bytes(None), Err("截图无数据".to_string()));
    let bad = screenshot_bytes(Some("TWF")).unwrap_err();
    assert!(bad.starts_with("截图解码失败: "), "{bad}");
    assert!(screenshot_bytes(Some("TWE")).is_err());
}

#[test]
fn shell_setup() {
    assert_eq!(pty_dim(0), 1);
    assert_eq!(pty_dim(80), 80);
    assert_eq!(resolve_workdir(Some("/p"), true, Some("/home/u")), "/p");
    assert_eq!(resolve_workdir(Some("/p"), false, Some("/home/u")), "/home/u");
    assert_eq!(resolve_workdir(Some(""), true, None), "/");
    assert!(locale_is_utf8(&vec![None, Some("zh_CN.utf8".into()), None]));
    assert!(!locale_is_utf8(&vec![Some("C".into()), None, Some("POSIX".into())]));
}
