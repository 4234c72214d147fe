//! Control requests to the resident hebcore process and what their replies mean.

use vstd::prelude::*;
use crate::text::{chars_of, concat_str, eq_str};

verus! {

/// How one subscription to a session's events ended.
pub enum SubscribeSessionEnd {
    /// The stream ended after the subscription was accepted.
    Subscribed,
    /// The receiving side stopped taking events.
    SinkClosed,
}

/// A control request for hebcore.
#[derive(Debug, PartialEq, Eq)]
pub enum ControlRequest {
    Interrupt { session_id: String },
    SetRunMode { session_id: String, mode: String },
}

/// The kinds of reply hebcore sends, with the error text where there is one.
#[derive(Debug, PartialEq, Eq)]
pub enum HebcoreReply {
    Rpc,
    Accepted,
    Subscribed,
    Event,
    Error { message: String },
    Version,
    Log,
}

/// The request that interrupts the current run of `session_id`.
pub fn interrupt(session_id: &str) -> (r: ControlRequest)
    ensures
        r matches ControlRequest::Interrupt { session_id: s } && s@ == session_id@,
{
    ControlRequest::Interrupt { session_id: session_id.to_string() }
}

/// The request that switches the run mode of `session_id` to `mode`.
pub fn set_run_mode(session_id: &str, mode: &str) -> (r: ControlRequest)
    ensures
        r matches ControlRequest::SetRunMode { session_id: s, mode: m } && s@ == session_id@ && m@ == mode@,
{
    ControlRequest::SetRunMode { session_id: session_id.to_string(), mode: mode.to_string() }
}

/// What a control request came to, from the first reply line (`None` when the
/// connection closed without one): only an error reply or silence fail.
pub fn control_outcome(reply: Option<HebcoreReply>) -> (r: Result<(), String>)
    ensures
        match reply {
            None => r matches Err(m) && m@ == "hebcore 无响应"@,
            Some(HebcoreReply::Error { message }) => r matches Err(m) && m@ == message@,
            Some(_) => r is Ok,
        },
{
    match reply {
        None => Err("hebcore 无响应".to_string()),
        Some(HebcoreReply::Error { message }) => Err(message),
        Some(_) => Ok(()),
    }
}

/// What the subscription loop does after one subscription ends: `None` means
/// the attempt failed. It resubscribes unless the sink closed.
pub fn continue_after(end: Option<SubscribeSessionEnd>) -> (again: bool)
    ensures
        again == !(end matches Some(SubscribeSessionEnd::SinkClosed)),
{
    match end {
        Some(SubscribeSessionEnd::SinkClosed) => false,
        _ => true,
    }
}

/// Whether to subscribe again given whether shutdown was requested (`None`:
/// the surface has no shutdown flag).
pub fn retry_decision(shutdown_requested: Option<bool>) -> (retry: bool)
    ensures
        retry == !(shutdown_requested == Some(true)),
{
    match shutdown_requested {
        Some(true) => false,
        _ => true,
    }
}

/// Whether a broken subscription should be retried: not once shutdown has been
/// requested through `shutdown`. The flag is read once; with no flag it retries.
pub fn should_retry_subscription<S: ?Sized>(
    _sink: &S,
    shutdown: Option<&std::sync::Arc<std::sync::atomic::AtomicBool>>,
) -> (retry: bool)
    ensures
        shutdown is None ==> retry,
{
    let requested = match shutdown {
        Some(flag) => Some(flag.load(std::sync::atomic::Ordering::SeqCst)),
        None => None,
    };
    retry_decision(requested)
}


/// The version a running hebcore reports of itself.
#[derive(Debug)]
pub struct RunningVersion {
    pub build_version: String,
    pub bin_name: String,
    pub has_active_run: bool,
}

/// What to do about the hebcore found running before a message is sent.
#[derive(Debug, PartialEq, Eq)]
pub enum VersionAction {
    /// Same version, or another service standing in for hebcore: use it.
    KeepRunning,
    /// An older core is busy with a run: tell the user to restart later.
    ExplainBusy,
    /// An older, idle core: ask with `prompt` whether to replace it.
    ConfirmReplace { prompt: String },
}

/// The version, binary name and activity of the running core; a core that does
/// not answer the version request is an old one without the protocol.
pub open spec fn running_identity(running: Option<RunningVersion>) -> (Seq<char>, Seq<char>, bool) {
    match running {
        Some(v) => (v.build_version@, v.bin_name@, v.has_active_run),
        None => ("（旧版本，无版本协议）"@, "hebcore"@, false),
    }
}

pub open spec fn replace_prompt_spec(running_ver: Seq<char>, current: Seq<char>) -> Seq<char> {
    "检测到正在运行的核心是旧版本，要关掉它、换成最新版吗？\n\n运行中："@ + running_ver + "\n最新："@ + current
}

/// Whether the action is `expected` (prompts compared by their text).
pub open spec fn version_action_is(a: VersionAction, expected: Option<Option<Seq<char>>>) -> bool {
    match expected {
        None => a is KeepRunning,
        Some(None) => a is ExplainBusy,
        Some(Some(p)) => a matches VersionAction::ConfirmReplace { prompt } && prompt@ == p,
    }
}

/// The version negotiation: `None` keeps the running core, `Some(None)` says
/// it is busy, `Some(Some(p))` asks with prompt `p` to replace it.
pub open spec fn version_action_spec(current: Seq<char>, running: Option<RunningVersion>) -> Option<Option<Seq<char>>> {
    let (ver, bin, active) = running_identity(running);
    if ver == current || bin == "hebweb"@ {
        None
    } else if active {
        Some(None)
    } else {
        Some(Some(replace_prompt_spec(ver, current)))
    }
}

/// Decides what to do about the running core given the version of the binary
/// on disk (`current`) and what the core reported (`None`: no version reply).
pub fn version_action(current: &str, running: Option<RunningVersion>) -> (a: VersionAction)
    ensures
        version_action_is(a, version_action_spec(current@, running)),
{
    let ghost r0 = running;
    let (ver, bin, active) = match running {
        Some(v) => (v.build_version, v.bin_name, v.has_active_run),
        None => ("（旧版本，无版本协议）".to_string(), "hebcore".to_string(), false),
    };
    assert((ver@, bin@, active) == running_identity(r0));
    let vv = chars_of(ver.as_str());
    let bv = chars_of(bin.as_str());
    if eq_str(&vv, current) || eq_str(&bv, "hebweb") {
        return VersionAction::KeepRunning;
    }
    if active {
        return VersionAction::ExplainBusy;
    }
    let a = concat_str("检测到正在运行的核心是旧版本，要关掉它、换成最新版吗？\n\n运行中：", ver.as_str());
    let b = concat_str(a.as_str(), "\n最新：");
    let prompt = concat_str(b.as_str(), current);
    VersionAction::ConfirmReplace { prompt }
}

/// What `heb connect` makes of the reply to its subscription: only an error fails it.
pub fn subscribe_outcome(reply: Option<HebcoreReply>) -> (r: Result<(), String>)
    ensures
        match reply {
            Some(HebcoreReply::Error { message }) => r matches Err(e) && e@ == "订阅失败: "@ + message@,
            _ => r is Ok,
        },
{
    match reply {
        Some(HebcoreReply::Error { message }) => Err(concat_str("订阅失败: ", message.as_str())),
        _ => Ok(()),
    }
}

/// What `heb connect` makes of the reply to starting the run: only an error fails it.
pub fn start_run_outcome(reply: Option<HebcoreReply>) -> (r: Result<(), String>)
    ensures
        match reply {
            Some(HebcoreReply::Error { message }) => r matches Err(e) && e@ == "start_run 失败: "@ + message@,
            _ => r is Ok,
        },
{
    match reply {
        Some(HebcoreReply::Error { message }) => Err(concat_str("start_run 失败: ", message.as_str())),
        _ => Ok(()),
    }
}

/// Whether an event of the type `ty` ends the run being followed.
pub fn event_ends_run(ty: &str) -> (b: bool)
    ensures
        b == (ty@ == "run_finished"@ || ty@ == "run_failed"@ || ty@ == "error"@),
{
    let v = chars_of(ty);
    eq_str(&v, "run_finished") || eq_str(&v, "run_failed") || eq_str(&v, "error")
}


/// The error of a control request when hebcore's socket at `sock_path`
/// refuses the connection with `error`: it names both, and nothing is sent.
pub fn connect_failure(sock_path: &str, error: &str) -> (m: String)
    ensures
        m@ == "连接 hebcore 失败（"@ + sock_path@ + "）："@ + error@,
{
    let a = concat_str("连接 hebcore 失败（", sock_path);
    let b = concat_str(a.as_str(), "）：");
    concat_str(b.as_str(), error)
}


/// What one control request comes to, step by step: connecting to the socket
/// at `sock_path` (its error when refused), sending the request (`sent`: its
/// error when writing failed), and the first reply line (`reply`: `Err` when
/// reading or decoding it failed, `Ok(None)` when the connection closed first).
/// The first step that failed decides; with all of them done, the reply does.
pub fn control_result(
    sock_path: &str,
    connected: Result<(), String>,
    sent: Result<(), String>,
    reply: Result<Option<HebcoreReply>, String>,
) -> (r: Result<(), String>)
    ensures
        match connected {
            Err(e) => r matches Err(m) && m@ == "连接 hebcore 失败（"@ + sock_path@ + "）："@ + e@,
            Ok(()) => match sent {
                Err(e) => r == Err::<(), String>(e),
                Ok(()) => match reply {
                    Err(e) => r == Err::<(), String>(e),
                    Ok(None) => r matches Err(m) && m@ == "hebcore 无响应"@,
                    Ok(Some(HebcoreReply::Error { message })) => r matches Err(m) && m@ == message@,
                    Ok(Some(_)) => r is Ok,
                },
            },
        },
{
    match connected {
        Err(e) => Err(connect_failure(sock_path, e.as_str())),
        Ok(()) => match sent {
            Err(e) => Err(e),
            Ok(()) => match reply {
                Err(e) => Err(e),
                Ok(rep) => control_outcome(rep),
            },
        },
    }
}

} // verus!

