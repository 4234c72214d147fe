//! Reading a chat reply as the answer to a pending approval or question.

use vstd::prelude::*;
use crate::protocol::{ApprovalDecision, UserAnswer};
use crate::table::{lemma_map_at, map_of, KeyedTable};
use crate::text::{
    ascii_lower_spec, chars_of, eq_str, is_whitespace, is_ws, starts_with_spec, starts_with_str,
    string_of, to_ascii_lowercase, trim, trim_spec,
};

verus! {

/// The first index of a white-space character in `s`.
pub open spec fn first_ws(s: Seq<char>) -> Option<int> {
    if exists|i: int| 0 <= i < s.len() && is_ws(s[i]) {
        Some(choose|i: int| 0 <= i < s.len() && is_ws(s[i]) && forall|j: int| 0 <= j < i ==> !is_ws(#[trigger] s[j]))
    } else {
        None
    }
}

/// What follows the first white-space character (the feedback of a
/// "deny <reason>" reply).
pub open spec fn after_first_ws(s: Seq<char>) -> Option<Seq<char>> {
    match first_ws(s) {
        Some(i) => Some(s.subrange(i + 1, s.len() as int)),
        None => None,
    }
}

/// The decision a reply text stands for: `y`, `yes`, `允许` or `通过` allow once;
/// a reply starting with `deny ` or `拒绝 ` denies with the rest as feedback;
/// anything else denies.
pub open spec fn approval_reply_spec(text: Seq<char>, d: ApprovalDecision) -> bool {
    let t = trim_spec(text);
    let lower = ascii_lower_spec(t);
    if lower == "y"@ || lower == "yes"@ || lower == "允许"@ || lower == "通过"@ {
        d is AllowOnce
    } else if starts_with_spec(lower, "deny "@) || starts_with_spec(lower, "拒绝 "@) {
        d matches ApprovalDecision::DenyWithFeedback { feedback } && feedback@ == match after_first_ws(t) {
            Some(rest) => rest,
            None => "用户拒绝"@,
        }
    } else {
        d is Deny
    }
}

fn first_ws_index(v: &Vec<char>) -> (r: Option<usize>)
    ensures
        match r {
            Some(i) => first_ws(v@) == Some(i as int) && i < v.len(),
            None => first_ws(v@) is None,
        },
{
    let mut i: usize = 0;
    while i < v.len()
        invariant
            i <= v.len(),
            forall|j: int| 0 <= j < i ==> !is_ws(#[trigger] v@[j]),
        decreases v.len() - i,
    {
        if is_whitespace(v[i]) {
            let ghost c = choose|k: int| 0 <= k < v.len() && is_ws(v@[k]) && forall|j: int| 0 <= j < k ==> !is_ws(#[trigger] v@[j]);
            assert(0 <= i < v.len() && is_ws(v@[i as int]) && forall|j: int| 0 <= j < i ==> !is_ws(#[trigger] v@[j]));
            proof {
                if c < i {
                    assert(!is_ws(v@[c]));
                } else if c > i {
                    assert(!is_ws(v@[i as int]));
                }
            }
            return Some(i);
        }
        i += 1;
    }
    None
}

/// Reads a chat reply as an approval decision.
pub fn approval_reply(text: &str) -> (d: ApprovalDecision)
    ensures
        approval_reply_spec(text@, d),
{
    let t = trim(text);
    let lower_s = to_ascii_lowercase(t.as_str());
    let lower = chars_of(lower_s.as_str());
    if eq_str(&lower, "y") || eq_str(&lower, "yes") || eq_str(&lower, "允许") || eq_str(&lower, "通过") {
        ApprovalDecision::AllowOnce
    } else if starts_with_str(&lower, "deny ") || starts_with_str(&lower, "拒绝 ") {
        let tv = chars_of(t.as_str());
        let feedback = match first_ws_index(&tv) {
            Some(i) => {
                let mut rest: Vec<char> = Vec::new();
                let mut j = i + 1;
                while j < tv.len()
                    invariant
                        i < j <= tv.len(),
                        rest@ == tv@.subrange(i + 1, j as int),
                    decreases tv.len() - j,
                {
                    rest.push(tv[j]);
                    j += 1;
                }
                string_of(&rest)
            },
            None => "用户拒绝".to_string(),
        };
        ApprovalDecision::DenyWithFeedback { feedback }
    } else {
        ApprovalDecision::Deny
    }
}

/// The answer a reply text stands for: `cancel` or `取消` cancel, anything
/// else is a free-text answer (the trimmed reply).
pub open spec fn question_reply_spec(text: Seq<char>, a: UserAnswer) -> bool {
    let t = trim_spec(text);
    let lower = ascii_lower_spec(t);
    if lower == "cancel"@ || lower == "取消"@ {
        a is Cancelled
    } else {
        a matches UserAnswer::Custom { text: x } && x@ == t
    }
}

/// Reads a chat reply as the answer to a question.
pub fn question_reply(text: &str) -> (a: UserAnswer)
    ensures
        question_reply_spec(text@, a),
{
    let t = trim(text);
    let lower_s = to_ascii_lowercase(t.as_str());
    let lower = chars_of(lower_s.as_str());
    if eq_str(&lower, "cancel") || eq_str(&lower, "取消") {
        UserAnswer::Cancelled
    } else {
        UserAnswer::Custom { text: t }
    }
}

/// The approvals and questions a channel conversation waits on, each with
/// what answers it.
pub struct PendingInteractions<A, Q> {
    pub approvals: KeyedTable<A>,
    pub questions: KeyedTable<Q>,
}

/// What a chat reply settled.
pub enum Resolution<A, Q> {
    /// The approval `request_id`, answered through `responder` with `decision`.
    Approval { request_id: String, responder: A, decision: ApprovalDecision },
    /// The question `request_id`, answered through `responder` with `answer`.
    Question { request_id: String, responder: Q, answer: UserAnswer },
    /// Nothing was waiting: the reply is a new message.
    NotPending,
}

impl<A, Q> PendingInteractions<A, Q> {
    pub fn new() -> (p: Self)
        ensures
            p.approvals.view() == Map::<Seq<char>, A>::empty(),
            p.questions.view() == Map::<Seq<char>, Q>::empty(),
    {
        PendingInteractions { approvals: KeyedTable::new(), questions: KeyedTable::new() }
    }

    /// Reads a chat reply as the answer to what is waiting: approvals first,
    /// then questions. One waiting request is answered and the others of its
    /// kind are dropped (a reply answers at most one, and the rest go stale).
    pub fn try_resolve_pending(&mut self, text: &str) -> (r: Resolution<A, Q>)
        ensures
            old(self).approvals.view() != Map::<Seq<char>, A>::empty() ==> (r matches Resolution::Approval { request_id, responder, decision }
                && old(self).approvals.view().contains_key(request_id@)
                && old(self).approvals.view()[request_id@] == responder
                && approval_reply_spec(text@, decision)
                && final(self).approvals.view() == Map::<Seq<char>, A>::empty()
                && final(self).questions.view() == old(self).questions.view()),
            old(self).approvals.view() == Map::<Seq<char>, A>::empty() && old(self).questions.view() != Map::<Seq<char>, Q>::empty()
                ==> (r matches Resolution::Question { request_id, responder, answer }
                && old(self).questions.view().contains_key(request_id@)
                && old(self).questions.view()[request_id@] == responder
                && question_reply_spec(text@, answer)
                && final(self).approvals.view() == old(self).approvals.view()
                && final(self).questions.view() == Map::<Seq<char>, Q>::empty()),
            old(self).approvals.view() == Map::<Seq<char>, A>::empty() && old(self).questions.view() == Map::<Seq<char>, Q>::empty()
                ==> (r is NotPending && final(self).approvals.view() == old(self).approvals.view()
                && final(self).questions.view() == old(self).questions.view()),
    {
        let mut approvals = self.approvals.drain();
        if approvals.len() > 0 {
            proof {
                lemma_map_at(approvals@, 0);
            }
            let e = approvals.remove(0);
            let decision = approval_reply(text);
            return Resolution::Approval { request_id: e.key, responder: e.value, decision };
        }
        assert(map_of(approvals@) =~= Map::<Seq<char>, A>::empty());
        let mut questions = self.questions.drain();
        if questions.len() > 0 {
            proof {
                lemma_map_at(questions@, 0);
            }
            let e = questions.remove(0);
            let answer = question_reply(text);
            return Resolution::Question { request_id: e.key, responder: e.value, answer };
        }
        assert(map_of(questions@) =~= Map::<Seq<char>, Q>::empty());
        Resolution::NotPending
    }
}

} // verus!

