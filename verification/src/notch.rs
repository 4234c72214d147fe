//! The corner notification window: a queue of notifications with at most one
//! shown at a time, pending ones (approvals, questions) replacing each other,
//! and the Base64 text the payload travels in to the page.

use base64::Engine;
use vstd::prelude::*;
use crate::text::{chars_of, concat_str, eq_str, push_char, string_of, take_chars_vec, take_spec};

verus! {

/// With `true` notifications also pop while the main window has the focus.
pub const NOTCH_ALWAYS_POP: bool = true;

/// Whether a notification stays until handled or is informational.
#[derive(Debug, Clone, Copy, PartialEq, Eq, Structural)]
pub enum NotchType {
    Pending,
    Info,
}

/// What a notification is about.
#[derive(Debug, Clone, Copy, PartialEq, Eq, Structural)]
pub enum NotificationKind {
    PermissionRequested,
    UserQuestion,
    TurnCompleted,
}

/// A notification as the page receives it.
#[derive(Debug, PartialEq, Eq)]
pub struct NotificationPayload {
    pub notch_type: NotchType,
    pub kind: NotificationKind,
    pub title: String,
    pub summary: String,
    /// The approval or question it belongs to (pending ones only).
    pub request_id: Option<String>,
    /// The kind of approval (`tool_call`, `path_access`, `plan`).
    pub perm_kind: Option<String>,
}

/// The queue and what is shown.
pub struct NotchState {
    pub queue: Vec<NotificationPayload>,
    pub active_type: Option<NotchType>,
    pub active_request_id: Option<String>,
    pub main_focused: bool,
}

pub open spec fn opt_view(o: Option<String>) -> Option<Seq<char>> {
    match o {
        Some(s) => Some(s@),
        None => None,
    }
}

/// The state at start-up: nothing queued or shown, the main window in front.
pub fn create_notch_state() -> (s: NotchState)
    ensures
        s.queue@.len() == 0,
        s.active_type is None,
        s.active_request_id is None,
        s.main_focused,
{
    NotchState { queue: Vec::new(), active_type: None, active_request_id: None, main_focused: true }
}

/// Whether to keep a notification from popping up: only when popping is limited
/// to the background and the main window has the focus.
pub fn should_suppress(s: &NotchState) -> (b: bool)
    ensures
        b == (!NOTCH_ALWAYS_POP && s.main_focused),
{
    !NOTCH_ALWAYS_POP && s.main_focused
}

/// The queue without its pending entries.
pub open spec fn without_pending(q: Seq<NotificationPayload>) -> Seq<NotificationPayload>
    decreases q.len(),
{
    if q.len() == 0 {
        q
    } else {
        let r = without_pending(q.drop_last());
        if q.last().notch_type == NotchType::Pending { r } else { r.push(q.last()) }
    }
}

/// The queue without the entries of `request_id`.
pub open spec fn without_request(q: Seq<NotificationPayload>, request_id: Seq<char>) -> Seq<NotificationPayload>
    decreases q.len(),
{
    if q.len() == 0 {
        q
    } else {
        let r = without_request(q.drop_last(), request_id);
        if opt_view(q.last().request_id) == Some(request_id) { r } else { r.push(q.last()) }
    }
}

fn drop_pending(q: Vec<NotificationPayload>) -> (r: Vec<NotificationPayload>)
    ensures
        r@ == without_pending(q@),
{
    let mut q = q;
    let ghost orig = q@;
    // Walk from the back so the result can be rebuilt in order.
    let mut back: Vec<NotificationPayload> = Vec::new();
    while q.len() > 0
        invariant
            orig == q@ + back@.reverse(),
        decreases q.len(),
    {
        let e = q.pop().unwrap();
        let ghost b0 = back@;
        back.push(e);
        assert(back@.reverse() =~= seq![e] + b0.reverse());
    }
    assert(orig =~= back@.reverse());
    let mut out: Vec<NotificationPayload> = Vec::new();
    let ghost mut done: Seq<NotificationPayload> = Seq::empty();
    while back.len() > 0
        invariant
            orig == done + back@.reverse(),
            out@ == without_pending(done),
        decreases back.len(),
    {
        let e = back.pop().unwrap();
        proof {
            let nd = done.push(e);
            assert(nd.drop_last() =~= done);
            done = nd;
        }
        assert(orig =~= done + back@.reverse());
        if e.notch_type != NotchType::Pending {
            out.push(e);
        }
    }
    assert(done =~= orig);
    out
}

fn is_request(e: &NotificationPayload, request_id: &str) -> (b: bool)
    ensures
        b == (opt_view(e.request_id) == Some(request_id@)),
{
    match &e.request_id {
        Some(r) => {
            let rv = chars_of(r.as_str());
            eq_str(&rv, request_id)
        },
        None => false,
    }
}

fn drop_request(q: Vec<NotificationPayload>, request_id: &str) -> (r: Vec<NotificationPayload>)
    ensures
        r@ == without_request(q@, request_id@),
{
    let mut q = q;
    let ghost orig = q@;
    let mut back: Vec<NotificationPayload> = Vec::new();
    while q.len() > 0
        invariant
            orig == q@ + back@.reverse(),
        decreases q.len(),
    {
        let e = q.pop().unwrap();
        let ghost b0 = back@;
        back.push(e);
        assert(back@.reverse() =~= seq![e] + b0.reverse());
    }
    assert(orig =~= back@.reverse());
    let mut out: Vec<NotificationPayload> = Vec::new();
    let ghost mut done: Seq<NotificationPayload> = Seq::empty();
    while back.len() > 0
        invariant
            orig == done + back@.reverse(),
            out@ == without_request(done, request_id@),
        decreases back.len(),
    {
        let e = back.pop().unwrap();
        proof {
            let nd = done.push(e);
            assert(nd.drop_last() =~= done);
            done = nd;
        }
        assert(orig =~= done + back@.reverse());
        if !is_request(&e, request_id) {
            out.push(e);
        }
    }
    assert(done =~= orig);
    out
}

impl NotchState {
    /// Shows the next queued notification when nothing is shown; returns what
    /// to show, if anything.
    pub fn flush(&mut self) -> (shown: Option<NotificationPayload>)
        ensures
            old(self).active_type is Some ==> shown is None && final(self).queue@ == old(self).queue@
                && final(self).active_type == old(self).active_type && final(self).active_request_id == old(self).active_request_id,
            old(self).active_type is None && old(self).queue@.len() == 0 ==> shown is None && final(self).queue@ == old(self).queue@
                && final(self).active_type is None && final(self).active_request_id == old(self).active_request_id,
            old(self).active_type is None && old(self).queue@.len() > 0 ==> shown == Some(old(self).queue@[0])
                && final(self).queue@ == old(self).queue@.drop_first()
                && final(self).active_type == Some(old(self).queue@[0].notch_type)
                && opt_view(final(self).active_request_id) == opt_view(old(self).queue@[0].request_id),
            final(self).main_focused == old(self).main_focused,
    {
        if self.active_type.is_some() {
            return None;
        }
        if self.queue.len() == 0 {
            return None;
        }
        let entry = self.queue.remove(0);
        self.active_type = Some(entry.notch_type);
        self.active_request_id = match &entry.request_id {
            Some(r) => Some(r.clone()),
            None => None,
        };
        Some(entry)
    }

    /// Queues a notification (a pending one replaces the queued pending ones)
    /// and shows the next one if nothing is shown; returns what to show.
    pub fn enqueue(&mut self, payload: NotificationPayload) -> (shown: Option<NotificationPayload>)
        ensures
            should_suppress_spec(*old(self)) ==> shown is None && final(self).queue@ == old(self).queue@
                && final(self).active_type == old(self).active_type,
            !should_suppress_spec(*old(self)) ==> ({
                let q = if payload.notch_type == NotchType::Pending { without_pending(old(self).queue@) } else { old(self).queue@ };
                let q2 = q.push(payload);
                if old(self).active_type is Some {
                    shown is None && final(self).queue@ == q2 && final(self).active_type == old(self).active_type
                } else {
                    shown == Some(q2[0]) && final(self).queue@ == q2.drop_first() && final(self).active_type == Some(q2[0].notch_type)
                }
            }),
    {
        if should_suppress(self) {
            return None;
        }
        if payload.notch_type == NotchType::Pending {
            let mut q: Vec<NotificationPayload> = Vec::new();
            std::mem::swap(&mut q, &mut self.queue);
            self.queue = drop_pending(q);
        }
        self.queue.push(payload);
        self.flush()
    }

    /// Closes the shown notification and shows the next one; `None` means the
    /// window is to be hidden.
    pub fn dismiss_current(&mut self) -> (next: Option<NotificationPayload>)
        ensures
            old(self).queue@.len() == 0 ==> next is None && final(self).active_type is None && final(self).active_request_id is None
                && final(self).queue@ == old(self).queue@,
            old(self).queue@.len() > 0 ==> next == Some(old(self).queue@[0]) && final(self).queue@ == old(self).queue@.drop_first()
                && final(self).active_type == Some(old(self).queue@[0].notch_type)
                && opt_view(final(self).active_request_id) == opt_view(old(self).queue@[0].request_id),
    {
        self.active_type = None;
        self.active_request_id = None;
        self.flush()
    }

    /// Withdraws the notifications of a handled approval or question: queued
    /// ones go; when it is the one shown, it is closed. Returns `Some(next)`
    /// when the shown one was closed (`next` to show, or hide the window).
    pub fn resolve_notification(&mut self, request_id: &str) -> (r: Option<Option<NotificationPayload>>)
        ensures
            ({
                let q = without_request(old(self).queue@, request_id@);
                if opt_view(old(self).active_request_id) == Some(request_id@) {
                    r is Some && (q.len() == 0 ==> r == Some(None::<NotificationPayload>) && final(self).active_type is None && final(self).queue@ == q)
                        && (q.len() > 0 ==> r == Some(Some(q[0])) && final(self).queue@ == q.drop_first())
                } else {
                    r is None && final(self).queue@ == q && final(self).active_type == old(self).active_type
                }
            }),
    {
        let mut q: Vec<NotificationPayload> = Vec::new();
        std::mem::swap(&mut q, &mut self.queue);
        self.queue = drop_request(q, request_id);
        let is_active = match &self.active_request_id {
            Some(a) => {
                let av = chars_of(a.as_str());
                eq_str(&av, request_id)
            },
            None => false,
        };
        if is_active {
            Some(self.dismiss_current())
        } else {
            None
        }
    }
}

pub open spec fn should_suppress_spec(s: NotchState) -> bool {
    !NOTCH_ALWAYS_POP && s.main_focused
}

/// After a pending notification is queued, at most that one pending entry waits.
pub proof fn law_pending_replaces(q: Seq<NotificationPayload>, p: NotificationPayload)
    requires
        p.notch_type == NotchType::Pending,
    ensures
        forall|i: int| 0 <= i < without_pending(q).len() ==> (#[trigger] without_pending(q)[i]).notch_type != NotchType::Pending,
        without_pending(q).push(p).last() == p,
    decreases q.len(),
{
    if q.len() > 0 {
        law_pending_replaces(q.drop_last(), p);
        let r = without_pending(q.drop_last());
        assert forall|i: int| 0 <= i < without_pending(q).len() implies (#[trigger] without_pending(q)[i]).notch_type != NotchType::Pending by {
            if i < r.len() {
                assert(without_pending(q)[i] == r[i]);
            }
        }
    }
}

/// After a request is resolved, none of its notifications stays queued.
pub proof fn law_resolved_gone(q: Seq<NotificationPayload>, request_id: Seq<char>)
    ensures
        forall|i: int| 0 <= i < without_request(q, request_id).len() ==> opt_view((#[trigger] without_request(q, request_id)[i]).request_id) != Some(request_id),
    decreases q.len(),
{
    if q.len() > 0 {
        law_resolved_gone(q.drop_last(), request_id);
        let r = without_request(q.drop_last(), request_id);
        assert forall|i: int| 0 <= i < without_request(q, request_id).len() implies opt_view((#[trigger] without_request(q, request_id)[i]).request_id) != Some(request_id) by {
            if i < r.len() {
                assert(without_request(q, request_id)[i] == r[i]);
            }
        }
    }
}

/// The Base64 alphabet: `A`–`Z`, `a`–`z`, `0`–`9`, `+`, `/`.
pub open spec fn b64_char(i: nat) -> char {
    if i < 26 {
        (('A' as u32) + i) as char
    } else if i < 52 {
        (('a' as u32) + (i - 26)) as char
    } else if i < 62 {
        (('0' as u32) + (i - 52)) as char
    } else if i == 62 {
        '+'
    } else {
        '/'
    }
}

/// The four characters for the bytes `b0 b1 b2` of which `n` (1 to 3) are real;
/// missing ones count as zero and their places are padded with `=`.
pub open spec fn b64_group(b0: u8, b1: u8, b2: u8, n: nat) -> Seq<char> {
    let c0 = b64_char((b0 / 4) as nat);
    let c1 = b64_char(((b0 % 4) * 16 + b1 / 16) as nat);
    let c2 = if n > 1 { b64_char(((b1 % 16) * 4 + b2 / 64) as nat) } else { '=' };
    let c3 = if n > 2 { b64_char((b2 % 64) as nat) } else { '=' };
    seq![c0, c1, c2, c3]
}

/// Standard padded Base64 of `data[i..]`.
pub open spec fn b64_from(data: Seq<u8>, i: int) -> Seq<char>
    decreases data.len() - i,
{
    if i < 0 || i >= data.len() {
        Seq::empty()
    } else {
        let n = if data.len() - i >= 3 { 3nat } else { (data.len() - i) as nat };
        let b1 = if n > 1 { data[i + 1] } else { 0u8 };
        let b2 = if n > 2 { data[i + 2] } else { 0u8 };
        b64_group(data[i], b1, b2, n) + b64_from(data, i + n)
    }
}

pub open spec fn b64_spec(data: Seq<u8>) -> Seq<char> {
    b64_from(data, 0)
}

fn b64_char_exec(i: u8) -> (c: char)
    requires
        i < 64,
    ensures
        c == b64_char(i as nat),
{
    if i < 26 {
        (('A' as u8) + i) as char
    } else if i < 52 {
        (('a' as u8) + (i - 26)) as char
    } else if i < 62 {
        (('0' as u8) + (i - 52)) as char
    } else if i == 62 {
        '+'
    } else {
        '/'
    }
}

/// `base64::engine::general_purpose::STANDARD.encode`: the standard alphabet
/// with `=` padding (RFC 4648). It panics only when the encoded length
/// overflows `usize`, which `requires` rules out.
#[verifier::external_body]
pub(crate) fn b64_standard(data: &[u8]) -> (s: String)
    requires
        4 * ((data@.len() + 2) / 3) <= usize::MAX,
    ensures
        s@ == b64_spec(data@),
{
    base64::engine::general_purpose::STANDARD.encode(data)
}

/// `base64::engine::general_purpose::STANDARD.decode`: it accepts exactly the
/// canonical padded encodings (no stray symbols, canonical padding, no
/// trailing bits), and gives back the bytes encoded; the error's text is the
/// crate's description of `DecodeError`, which the contract leaves open.
#[verifier::external_body]
pub(crate) fn b64_standard_decode(text: &str) -> (r: Result<Vec<u8>, String>)
    ensures
        match r {
            Ok(bytes) => b64_spec(bytes@) == text@,
            Err(_) => forall|b: Seq<u8>| #[trigger] b64_spec(b) != text@,
        },
{
    base64::engine::general_purpose::STANDARD.decode(text).map_err(|e| e.to_string())
}

/// Standard Base64 with `=` padding.
pub fn base64_encode(data: &[u8]) -> (s: String)
    ensures
        s@ == b64_spec(data@),
{
    let mut out = String::new();
    let mut i: usize = 0;
    while i < data.len()
        invariant
            i <= data.len(),
            out@ + b64_from(data@, i as int) == b64_spec(data@),
        decreases data.len() - i,
    {
        let n: usize = if data.len() - i >= 3 { 3 } else { data.len() - i };
        let b0 = data[i];
        let b1 = if n > 1 { data[i + 1] } else { 0u8 };
        let b2 = if n > 2 { data[i + 2] } else { 0u8 };
        let c0 = b64_char_exec(b0 / 4);
        let c1 = b64_char_exec((b0 % 4) * 16 + b1 / 16);
        let c2 = if n > 1 { b64_char_exec((b1 % 16) * 4 + b2 / 64) } else { '=' };
        let c3 = if n > 2 { b64_char_exec(b2 % 64) } else { '=' };
        let ghost before = out@;
        push_char(&mut out, c0);
        push_char(&mut out, c1);
        push_char(&mut out, c2);
        push_char(&mut out, c3);
        assert(out@ =~= before + b64_group(b0, b1, b2, n as nat));
        assert(b64_from(data@, i as int) == b64_group(b0, b1, b2, n as nat) + b64_from(data@, i + n));
        i = i + n;
    }
    assert(b64_from(data@, i as int) =~= Seq::<char>::empty());
    out
}

/// Base64 takes four characters for every started group of three bytes.
pub proof fn law_b64_length(data: Seq<u8>, i: int)
    requires
        0 <= i <= data.len(),
    ensures
        b64_from(data, i).len() == 4 * ((data.len() - i + 2) / 3),
    decreases data.len() - i,
{
    if i < data.len() {
        let n = if data.len() - i >= 3 { 3int } else { data.len() - i };
        law_b64_length(data, i + n);
    }
}

/// The notification of a pending approval: the tool's name and the first 80
/// characters of its input (as JSON).
pub fn permission_payload(request_id: &str, kind: &str, tool_name: &str, input_json: &str) -> (p: NotificationPayload)
    ensures
        p.notch_type == NotchType::Pending,
        p.kind == NotificationKind::PermissionRequested,
        p.title@ == "需要你的审批"@,
        p.summary@ == tool_name@ + " "@ + take_spec(input_json@, 80),
        opt_view(p.request_id) == Some(request_id@),
        opt_view(p.perm_kind) == Some(kind@),
{
    let head = take_chars_vec(&chars_of(input_json), 80);
    let hs = string_of(&head);
    let a = concat_str(tool_name, " ");
    let summary = concat_str(a.as_str(), hs.as_str());
    NotificationPayload {
        notch_type: NotchType::Pending,
        kind: NotificationKind::PermissionRequested,
        title: "需要你的审批".to_string(),
        summary,
        request_id: Some(request_id.to_string()),
        perm_kind: Some(kind.to_string()),
    }
}

/// The notification of a pending question.
pub fn question_payload(request_id: &str, question: &str) -> (p: NotificationPayload)
    ensures
        p.notch_type == NotchType::Pending,
        p.kind == NotificationKind::UserQuestion,
        p.title@ == "需要你的回答"@,
        p.summary@ == question@,
        opt_view(p.request_id) == Some(request_id@),
        p.perm_kind is None,
{
    NotificationPayload {
        notch_type: NotchType::Pending,
        kind: NotificationKind::UserQuestion,
        title: "需要你的回答".to_string(),
        summary: question.to_string(),
        request_id: Some(request_id.to_string()),
        perm_kind: None,
    }
}

/// The notification that a whole run has answered.
pub fn run_finished_payload() -> (p: NotificationPayload)
    ensures
        p.notch_type == NotchType::Info,
        p.kind == NotificationKind::TurnCompleted,
        p.title@ == "回答完成"@,
        p.summary@ == "Agent 已完成本次回答"@,
        p.request_id is None,
        p.perm_kind is None,
{
    NotificationPayload {
        notch_type: NotchType::Info,
        kind: NotificationKind::TurnCompleted,
        title: "回答完成".to_string(),
        summary: "Agent 已完成本次回答".to_string(),
        request_id: None,
        perm_kind: None,
    }
}

} // verus!
