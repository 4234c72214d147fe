use hebbian::hebcore::{version_action, RunningVersion, VersionAction, interrupt, set_run_mode, ControlRequest, continue_after, control_outcome, retry_decision, should_retry_subscription, HebcoreReply, SubscribeSessionEnd};
use std::sync::atomic::AtomicBool;
use std::sync::Arc;

struct ClosedSink;

#[test]
fn retry_decision_stops_when_shutdown_requested() {
    let shutdown = Arc::new(AtomicBool::new(true));
    assert!(!should_retry_subscription(&ClosedSink, Some(&shutdown)));
}

#[test]
fn retry_decision_continues_while_surface_is_alive() {
    let shutdown = Arc::new(AtomicBool::new(false));
    assert!(should_retry_subscription(&ClosedSink, Some(&shutdown)));
}

#[test]
fn retry_without_flag_retries() {
    assert!(should_retry_subscription(&ClosedSink, None));
    assert!(retry_decision(None));
    assert!(retry_decision(Some(false)));
    assert!(!retry_decision(Some(true)));
}

#[test]
fn control_outcome_maps_replies() {
    assert_eq!(control_outcome(None), Err("hebcore 无响应".to_string()));
    assert_eq!(
        control_outcome(Some(HebcoreReply::Error { message: "boom".to_string() })),
        Err("boom".to_string())
    );
    assert_eq!(control_outcome(Some(HebcoreReply::Accepted)), Ok(()));
    assert_eq!(control_outcome(Some(HebcoreReply::Rpc)), Ok(()));
}

#[test]
fn subscription_loop_stops_only_when_sink_closes() {
    assert!(!continue_after(Some(SubscribeSessionEnd::SinkClosed)));
    assert!(continue_after(Some(SubscribeSessionEnd::Subscribed)));
    assert!(continue_after(None));
}

#[test]
fn control_requests_carry_their_arguments() {
    assert_eq!(
        interrupt("s1"),
        ControlRequest::Interrupt { session_id: "s1".to_string() }
    );
    assert_eq!(
        set_run_mode("s1", "auto"),
        ControlRequest::SetRunMode { session_id: "s1".to_string(), mode: "auto".to_string() }
    );
}

#[test]
fn version_negotiation_decisions() {
    let rv = |v: &str, b: &str, active: bool| RunningVersion {
        build_version: v.to_string(),
        bin_name: b.to_string(),
        has_active_run: active,
    };
    assert_eq!(version_action("1.2", Some(rv("1.2", "hebcore", true))), VersionAction::KeepRunning);
    assert_eq!(version_action("1.2", Some(rv("0.9", "hebweb", false))), VersionAction::KeepRunning);
    assert_eq!(version_action("1.2", Some(rv("1.1", "hebcore", true))), VersionAction::ExplainBusy);
    assert_eq!(
        version_action("1.2", Some(rv("1.1", "hebcore", false))),
        VersionAction::ConfirmReplace {
            prompt: "检测到正在运行的核心是旧版本，要关掉它、换成最新版吗？\n\n运行中：1.1\n最新：1.2".to_string()
        }
    );
    assert_eq!(
        version_action("1.2", None),
        VersionAction::ConfirmReplace {
            prompt: "检测到正在运行的核心是旧版本，要关掉它、换成最新版吗？\n\n运行中：（旧版本，无版本协议）\n最新：1.2".to_string()
        }
    );
}
