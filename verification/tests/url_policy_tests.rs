use hebbian::url_policy::{
    is_blocked_probe_host, is_local_preview_host, normalize_preview_url, validate_preview_url,
    PreviewOrigin,
};

#[test]
fn normalize_rules() {
    assert_eq!(
        normalize_preview_url("3000").unwrap().as_str(),
        "http://127.0.0.1:3000/"
    );
    assert_eq!(
        normalize_preview_url("localhost:5173").unwrap().as_str(),
        "http://localhost:5173/"
    );
    assert_eq!(
        normalize_preview_url("example.com").unwrap().as_str(),
        "https://example.com/"
    );
    assert_eq!(
        normalize_preview_url("example.com:8443/app").unwrap().as_str(),
        "https://example.com:8443/app"
    );
    assert_eq!(
        normalize_preview_url("192.168.1.5:8080").unwrap().as_str(),
        "http://192.168.1.5:8080/"
    );
    assert_eq!(
        normalize_preview_url("http://0.0.0.0:5173").unwrap().as_str(),
        "http://127.0.0.1:5173/"
    );
    assert_eq!(
        normalize_preview_url("127.0.0.1:3000/settings?a=1")
            .unwrap()
            .as_str(),
        "http://127.0.0.1:3000/settings?a=1"
    );
    assert!(normalize_preview_url("ftp://127.0.0.1/x").is_none());
    assert!(normalize_preview_url("   ").is_none());
    assert!(normalize_preview_url("http://").is_none());
}

#[test]
fn local_hosts() {
    for host in [
        "localhost",
        "app.localhost",
        "host.docker.internal",
        "mymac.local",
        "127.0.0.1",
        "127.1.2.3",
        "10.0.0.8",
        "172.16.0.2",
        "172.31.255.1",
        "192.168.1.10",
        "::1",
    ] {
        assert!(is_local_preview_host(host), "{host} should be local");
    }
    for host in ["172.32.0.1", "example.com", "8.8.8.8"] {
        assert!(!is_local_preview_host(host), "{host} should not be local");
    }
}

#[test]
fn blocked_probe_hosts() {
    assert!(is_blocked_probe_host("169.254.169.254"));
    assert!(is_blocked_probe_host("169.254.1.1"));
    assert!(is_blocked_probe_host("metadata.google.internal"));
    assert!(!is_blocked_probe_host("example.com"));
}

#[test]
fn two_tier_validation() {
    assert_eq!(
        validate_preview_url("localhost:3000", PreviewOrigin::Auto)
            .unwrap()
            .as_str(),
        "http://localhost:3000/"
    );
    assert!(validate_preview_url("https://example.com", PreviewOrigin::Auto).is_err());
    assert_eq!(
        validate_preview_url("https://example.com", PreviewOrigin::User)
            .unwrap()
            .as_str(),
        "https://example.com/"
    );
    assert_eq!(
        validate_preview_url("3000", PreviewOrigin::User).unwrap().as_str(),
        "http://127.0.0.1:3000/"
    );
    assert!(validate_preview_url("http://169.254.169.254/latest", PreviewOrigin::User).is_err());
    assert!(validate_preview_url("169.254.169.254", PreviewOrigin::Auto).is_err());
    assert!(validate_preview_url("ftp://example.com", PreviewOrigin::User).is_err());
    assert_eq!(
        validate_preview_url("0.0.0.0:5173", PreviewOrigin::Auto)
            .unwrap()
            .as_str(),
        "http://127.0.0.1:5173/"
    );
}

#[test]
fn bracketed_ipv6_loopback_is_local() {
    assert!(is_local_preview_host("[::1]"));
    assert!(!is_local_preview_host("[::2]"));
}

#[test]
fn link_local_only_in_its_range() {
    assert!(is_blocked_probe_host("169.254.0.0"));
    assert!(!is_blocked_probe_host("169.255.0.1"));
    assert!(!is_blocked_probe_host("127.0.0.1"));
}

#[test]
fn normalized_scheme_and_host_are_exposed() {
    let u = normalize_preview_url("localhost:8080/x").unwrap();
    assert_eq!(u.scheme(), "http");
    assert_eq!(u.host_str(), Some("localhost"));
    let e = normalize_preview_url("  example.org  ").unwrap();
    assert_eq!(e.as_str(), "https://example.org/");
}

#[test]
fn user_may_open_external_but_not_metadata_host() {
    assert!(validate_preview_url("metadata.google.internal", PreviewOrigin::User).is_err());
    assert!(validate_preview_url("example.org", PreviewOrigin::User).is_ok());
    assert!(validate_preview_url("example.org", PreviewOrigin::Auto).is_err());
    assert!(validate_preview_url("", PreviewOrigin::User).is_err());
}
