//! How a desktop message send is set up: which steps it takes for a new
//! message, a system notification or a "continue", which tools the run sees,
//! where it works, and what the send returns.

use vstd::prelude::*;
use crate::daemon::TurnStatus;
use crate::text::{chars_of, eq_str, starts_with_spec, starts_with_str, strings_view};

verus! {

/// The steps of one send.
#[derive(Debug, PartialEq, Eq)]
pub struct SendSteps {
    /// A system notification that is already in the conversation: it is
    /// taken out of the history the run starts from (and not stored again).
    pub already_persisted: bool,
    /// Clear the conversation's pending "continue".
    pub clear_pending_continue: bool,
    /// Store the user message before the run.
    pub persist_user_message: bool,
    /// Hand the text to the run as a pending input (system notifications).
    pub queue_as_pending_input: bool,
    /// Append the text to the run's transcript as the user's turn.
    pub append_user_to_run: bool,
}

/// The steps for a send: `notification` when the message is a system
/// notification, `stored_match` when the conversation already holds this very
/// message, `continue_run` for the "continue" entry (no new message).
pub fn send_steps(notification: bool, stored_match: bool, continue_run: bool) -> (s: SendSteps)
    ensures
        s.already_persisted == (notification && stored_match),
        s.clear_pending_continue == (continue_run && !s.already_persisted),
        s.persist_user_message == !(s.already_persisted || continue_run),
        s.queue_as_pending_input == notification,
        s.append_user_to_run == (!notification && !continue_run),
{
    let already = notification && stored_match;
    SendSteps {
        already_persisted: already,
        clear_pending_continue: continue_run && !already,
        persist_user_message: !(already || continue_run),
        queue_as_pending_input: notification,
        append_user_to_run: !notification && !continue_run,
    }
}

/// Whether a tool stays in a run limited to `allow`: MCP tools always do;
/// without a limit every tool does.
pub fn tool_allowed(name: &str, allow: Option<&Vec<String>>) -> (b: bool)
    ensures
        b == match allow {
            None => true,
            Some(a) => starts_with_spec(name@, "Mcp__"@) || strings_view(a@).contains(name@),
        },
{
    match allow {
        None => true,
        Some(a) => {
            let nv = chars_of(name);
            if starts_with_str(&nv, "Mcp__") {
                return true;
            }
            let mut i: usize = 0;
            while i < a.len()
                invariant
                    i <= a.len(),
                    nv@ == name@,
                    allow == Some(a),
                    forall|j: int| 0 <= j < i ==> a@[j]@ != name@,
                decreases a.len() - i,
            {
                let av = chars_of(a[i].as_str());
                if eq_str(&av, name) {
                    assert(strings_view(a@)[i as int] == name@);
                    assert(strings_view(a@).contains(name@));
                    return true;
                }
                i += 1;
            }
            proof {
                if strings_view(a@).contains(name@) {
                    let k = choose|k: int| 0 <= k < strings_view(a@).len() && strings_view(a@)[k] == name@;
                    assert(a@[k]@ == name@);
                }
            }
            false
        },
    }
}

/// The tools a run enables: those the send names, else the conversation's
/// when it names any, else the global setting.
pub fn effective_enabled_tools(sent: Vec<String>, session: Option<Vec<String>>, global: Vec<String>) -> (r: Vec<String>)
    ensures
        sent.len() > 0 ==> r@ == sent@,
        sent.len() == 0 && (session matches Some(s) && s.len() > 0) ==> r@ == session->0@,
        sent.len() == 0 && !(session matches Some(s) && s.len() > 0) ==> r@ == global@,
{
    if sent.len() > 0 {
        return sent;
    }
    match session {
        Some(s) => if s.len() > 0 {
            return s;
        },
        None => {},
    }
    global
}

/// The directory a run works in: the conversation's, else the global
/// setting, else the home directory, else `.`.
pub fn chat_workdir(session: Option<String>, settings: Option<String>, home: Option<String>) -> (w: String)
    ensures
        w@ == match session {
            Some(s) => s@,
            None => match settings {
                Some(s) => s@,
                None => match home {
                    Some(h) => h@,
                    None => "."@,
                },
            },
        },
{
    match session {
        Some(s) => s,
        None => match settings {
            Some(s) => s,
            None => match home {
                Some(h) => h,
                None => ".".to_string(),
            },
        },
    }
}

/// What a send returns after its run: the last stored message when the run
/// completed or paused (`None`: the caller hands back an empty assistant
/// message), an error when it was cancelled or failed.
pub fn send_outcome<M>(outcome: &TurnStatus, last: Option<M>) -> (r: Result<Option<M>, String>)
    ensures
        match outcome {
            TurnStatus::Done | TurnStatus::Suspended => r == Ok::<Option<M>, String>(last),
            TurnStatus::Cancelled => r matches Err(e) && e@ == "请求已中断"@,
            TurnStatus::Failed(m) => r matches Err(e) && e@ == m@,
        },
{
    match outcome {
        TurnStatus::Done | TurnStatus::Suspended => Ok(last),
        TurnStatus::Cancelled => Err("请求已中断".to_string()),
        TurnStatus::Failed(m) => Err(m.clone()),
    }
}

} // verus!
