//! The registry of approvals and questions waiting for the user: which channel
//! (run) each request belongs to, which runs can be cancelled, and which
//! requests live in the hebcore process and are settled through it.

use vstd::prelude::*;
use crate::protocol::{ApprovalDecision, PermissionScope, UserAnswer};
use crate::table::{map_of, keys_distinct, lemma_map_at, Entry, KeyedTable};
use crate::text::{chars_of, concat_str, eq_str};

verus! {

/// Identifies one run's answering channel, through which its requests are answered.
pub type GateId = u64;

pub struct HitlState {
    pending: KeyedTable<GateId>,
    runs: KeyedTable<GateId>,
    remote: KeyedTable<String>,
}

pub open spec fn has_value(m: Map<Seq<char>, GateId>, g: GateId) -> bool {
    exists|k: Seq<char>| m.contains_key(k) && m[k] == g
}

impl HitlState {
    pub closed spec fn pending_view(&self) -> Map<Seq<char>, GateId> {
        self.pending.view()
    }

    pub closed spec fn runs_view(&self) -> Map<Seq<char>, GateId> {
        self.runs.view()
    }

    pub closed spec fn remote_view(&self) -> Map<Seq<char>, String> {
        self.remote.view()
    }

    pub fn new() -> (s: Self)
        ensures
            s.pending_view() == Map::<Seq<char>, GateId>::empty(),
            s.runs_view() == Map::<Seq<char>, GateId>::empty(),
            s.remote_view() == Map::<Seq<char>, String>::empty(),
    {
        HitlState { pending: KeyedTable::new(), runs: KeyedTable::new(), remote: KeyedTable::new() }
    }

    /// Ties `request_id` to the run of `gate`, so the run can be cancelled from it.
    pub fn track_run(&mut self, request_id: String, gate: GateId)
        ensures
            final(self).runs_view() == old(self).runs_view().insert(request_id@, gate),
            final(self).pending_view() == old(self).pending_view(),
            final(self).remote_view() == old(self).remote_view(),
    {
        self.runs.insert(request_id, gate);
    }

    /// Ties `request_id` to `gate`, through which it will be answered.
    pub fn track(&mut self, request_id: String, gate: GateId)
        ensures
            final(self).pending_view() == old(self).pending_view().insert(request_id@, gate),
            final(self).runs_view() == old(self).runs_view(),
            final(self).remote_view() == old(self).remote_view(),
    {
        self.pending.insert(request_id, gate);
    }

    /// Records a request of a run in the hebcore process: `request_id` to its session.
    pub fn track_remote(&mut self, request_id: String, session_id: String)
        ensures
            final(self).remote_view() == old(self).remote_view().insert(request_id@, session_id),
            final(self).pending_view() == old(self).pending_view(),
            final(self).runs_view() == old(self).runs_view(),
    {
        self.remote.insert(request_id, session_id);
    }

    /// The hebcore session a request belongs to; reading does not consume it.
    pub fn remote_session_of(&self, request_id: &str) -> (r: Option<String>)
        ensures
            match r {
                Some(s) => self.remote_view().contains_key(request_id@) && s@ == self.remote_view()[request_id@]@,
                None => !self.remote_view().contains_key(request_id@),
            },
    {
        match self.remote.get(request_id) {
            Some(s) => Some(s.clone()),
            None => None,
        }
    }

    /// Forgets a hebcore request once it has been settled there.
    pub fn forget_remote(&mut self, request_id: &str)
        ensures
            final(self).remote_view() == old(self).remote_view().remove(request_id@),
            final(self).pending_view() == old(self).pending_view(),
            final(self).runs_view() == old(self).runs_view(),
    {
        let _ = self.remote.remove(request_id);
    }

    /// The channel of the run `request_id` belongs to, whose run is to be cancelled.
    pub fn cancel_run(&self, request_id: &str) -> (r: Option<GateId>)
        ensures
            match r {
                Some(g) => self.runs_view().contains_key(request_id@) && self.runs_view()[request_id@] == g,
                None => !self.runs_view().contains_key(request_id@),
            },
    {
        match self.runs.get(request_id) {
            Some(g) => Some(*g),
            None => None,
        }
    }

    /// Takes `request_id` off the pending list and names the channel that answers
    /// it; an error when it is not pending.
    fn take_pending(&mut self, request_id: &str) -> (r: Result<GateId, String>)
        ensures
            final(self).pending_view() == old(self).pending_view().remove(request_id@),
            final(self).runs_view() == old(self).runs_view(),
            final(self).remote_view() == old(self).remote_view(),
            match r {
                Ok(g) => old(self).pending_view().contains_key(request_id@) && old(self).pending_view()[request_id@] == g,
                Err(e) => !old(self).pending_view().contains_key(request_id@) && e@ == "找不到 request_id: "@ + request_id@,
            },
    {
        match self.pending.remove(request_id) {
            Some(g) => Ok(g),
            None => Err(concat_str("找不到 request_id: ", request_id)),
        }
    }

    /// Settles an approval: the channel to hand `decision` to, or an error when
    /// `request_id` is not pending.
    pub fn resolve_approval(&mut self, request_id: &str, decision: ApprovalDecision) -> (r: Result<(GateId, ApprovalDecision), String>)
        ensures
            final(self).pending_view() == old(self).pending_view().remove(request_id@),
            final(self).runs_view() == old(self).runs_view(),
            final(self).remote_view() == old(self).remote_view(),
            match r {
                Ok((g, d)) => old(self).pending_view().contains_key(request_id@) && old(self).pending_view()[request_id@] == g && d == decision,
                Err(e) => !old(self).pending_view().contains_key(request_id@) && e@ == "找不到 request_id: "@ + request_id@,
            },
    {
        match self.take_pending(request_id) {
            Ok(g) => Ok((g, decision)),
            Err(e) => Err(e),
        }
    }

    /// Settles a question: the channel to hand `answer` to, or an error when
    /// `request_id` is not pending.
    pub fn answer_question(&mut self, request_id: &str, answer: UserAnswer) -> (r: Result<(GateId, UserAnswer), String>)
        ensures
            final(self).pending_view() == old(self).pending_view().remove(request_id@),
            final(self).runs_view() == old(self).runs_view(),
            final(self).remote_view() == old(self).remote_view(),
            match r {
                Ok((g, a)) => old(self).pending_view().contains_key(request_id@) && old(self).pending_view()[request_id@] == g && a == answer,
                Err(e) => !old(self).pending_view().contains_key(request_id@) && e@ == "找不到 request_id: "@ + request_id@,
            },
    {
        match self.take_pending(request_id) {
            Ok(g) => Ok((g, answer)),
            Err(e) => Err(e),
        }
    }

    /// Forgets every request of the run of `gate` once that run has ended.
    pub fn forget(&mut self, gate: GateId)
        ensures
            forall|k: Seq<char>| #[trigger] final(self).pending_view().contains_key(k) <==> old(self).pending_view().contains_key(k) && old(self).pending_view()[k] != gate,
            forall|k: Seq<char>| #[trigger] final(self).runs_view().contains_key(k) <==> old(self).runs_view().contains_key(k) && old(self).runs_view()[k] != gate,
            forall|k: Seq<char>| #[trigger] final(self).pending_view().contains_key(k) ==> final(self).pending_view()[k] == old(self).pending_view()[k],
            forall|k: Seq<char>| #[trigger] final(self).runs_view().contains_key(k) ==> final(self).runs_view()[k] == old(self).runs_view()[k],
            final(self).remote_view() == old(self).remote_view(),
    {
        self.pending.remove_value(gate);
        self.runs.remove_value(gate);
    }

    /// Whether any request waits for an answer.
    pub fn has_pending(&self) -> (b: bool)
        ensures
            b == (self.pending_view().len() > 0),
    {
        self.pending.len() > 0
    }

    /// Cancels everything that waits (closing the window): empties the pending
    /// list and the runs, and returns each channel involved once; their count is
    /// the number of distinct channels.
    pub fn cancel_all_pending(&mut self) -> (gates: Vec<GateId>)
        ensures
            final(self).pending_view() == Map::<Seq<char>, GateId>::empty(),
            final(self).runs_view() == Map::<Seq<char>, GateId>::empty(),
            final(self).remote_view() == old(self).remote_view(),
            gates@.no_duplicates(),
            forall|g: GateId| #[trigger] gates@.contains(g) <==> has_value(old(self).pending_view(), g) || has_value(old(self).runs_view(), g),
    {
        let p = self.pending.drain();
        let r = self.runs.drain();
        let mut seen: Vec<GateId> = Vec::new();
        collect_distinct(&mut seen, &p);
        collect_distinct(&mut seen, &r);
        proof {
            assert forall|g: GateId| #[trigger] seen@.contains(g) <==> has_value(old(self).pending_view(), g) || has_value(old(self).runs_view(), g) by {
                lemma_has_value(p@, g);
                lemma_has_value(r@, g);
            }
        }
        seen
    }
}

/// Some entry of `s` holds `g` exactly when the table made of `s` has `g` as a value.
proof fn lemma_has_value(s: Seq<Entry<GateId>>, g: GateId)
    requires
        keys_distinct(s),
    ensures
        has_value(map_of(s), g) <==> exists|i: int| 0 <= i < s.len() && s[i].value == g,
{
    if has_value(map_of(s), g) {
        let k = choose|k: Seq<char>| map_of(s).contains_key(k) && map_of(s)[k] == g;
        let i = choose|i: int| 0 <= i < s.len() && s[i].key@ == k;
        lemma_map_at(s, i);
    }
    if exists|i: int| 0 <= i < s.len() && s[i].value == g {
        let i = choose|i: int| 0 <= i < s.len() && s[i].value == g;
        lemma_map_at(s, i);
    }
}

/// Appends to `seen` the values of `entries` it does not hold yet.
fn collect_distinct(seen: &mut Vec<GateId>, entries: &Vec<Entry<GateId>>)
    requires
        old(seen)@.no_duplicates(),
    ensures
        final(seen)@.no_duplicates(),
        forall|g: GateId| #[trigger] final(seen)@.contains(g) <==> old(seen)@.contains(g) || exists|i: int| 0 <= i < entries.len() && entries@[i].value == g,
{
    let mut i: usize = 0;
    while i < entries.len()
        invariant
            i <= entries.len(),
            seen@.no_duplicates(),
            forall|g: GateId| #[trigger] seen@.contains(g) <==> old(seen)@.contains(g) || exists|j: int| 0 <= j < i && entries@[j].value == g,
        decreases entries.len() - i,
    {
        let g = entries[i].value;
        let mut found = false;
        let mut k: usize = 0;
        while k < seen.len()
            invariant
                k <= seen.len(),
                found == exists|x: int| 0 <= x < k && seen@[x] == g,
            decreases seen.len() - k,
        {
            if seen[k] == g {
                found = true;
            }
            k += 1;
        }
        let ghost before = seen@;
        if !found {
            seen.push(g);
            proof {
                assert forall|a: int, b: int| 0 <= a < b < seen@.len() implies seen@[a] != seen@[b] by {
                    if b == seen@.len() - 1 {
                        assert(seen@[a] == before[a]);
                    }
                }
            }
        }
        proof {
            assert forall|h: GateId| #[trigger] seen@.contains(h) <==> old(seen)@.contains(h) || exists|j: int| 0 <= j < i + 1 && entries@[j].value == h by {
                if seen@.contains(h) && !before.contains(h) {
                    assert(h == g);
                    assert(entries@[i as int].value == h);
                }
                if exists|j: int| 0 <= j < i + 1 && entries@[j].value == h {
                    let j = choose|j: int| 0 <= j < i + 1 && entries@[j].value == h;
                    if j == i {
                        if found {
                            let x = choose|x: int| 0 <= x < before.len() && before[x] == g;
                            assert(before.contains(g));
                        } else {
                            assert(seen@[seen@.len() - 1] == g);
                        }
                    } else {
                        assert(before.contains(h));
                        let x = choose|x: int| 0 <= x < before.len() && before[x] == h;
                        assert(seen@[x] == h);
                    }
                }
                if before.contains(h) {
                    let x = choose|x: int| 0 <= x < before.len() && before[x] == h;
                    assert(seen@[x] == h);
                }
            }
        }
        i += 1;
    }
}

pub open spec fn remembered(d: Option<ApprovalDecision>, scope: PermissionScope) -> bool {
    d matches Some(ApprovalDecision::AllowAndRemember { scope: s, pattern: p, extra_patterns: e }) && s == scope && p is None && e@.len() == 0
}

/// What the island's approval buttons stand for; `None` for an unknown button.
pub open spec fn island_decision_spec(s: Seq<char>, d: Option<ApprovalDecision>) -> bool {
    if s == "allow"@ {
        d == Some(ApprovalDecision::AllowOnce)
    } else if s == "deny"@ {
        d == Some(ApprovalDecision::Deny)
    } else if s == "allow_conversation"@ {
        remembered(d, PermissionScope::Session)
    } else if s == "allow_project"@ {
        remembered(d, PermissionScope::Project)
    } else if s == "allow_global"@ {
        remembered(d, PermissionScope::Global)
    } else {
        d is None
    }
}

pub fn island_decision(decision: &str) -> (d: Option<ApprovalDecision>)
    ensures
        island_decision_spec(decision@, d),
{
    let v = chars_of(decision);
    if eq_str(&v, "allow") {
        Some(ApprovalDecision::AllowOnce)
    } else if eq_str(&v, "deny") {
        Some(ApprovalDecision::Deny)
    } else if eq_str(&v, "allow_conversation") {
        Some(ApprovalDecision::AllowAndRemember { scope: PermissionScope::Session, pattern: None, extra_patterns: Vec::new() })
    } else if eq_str(&v, "allow_project") {
        Some(ApprovalDecision::AllowAndRemember { scope: PermissionScope::Project, pattern: None, extra_patterns: Vec::new() })
    } else if eq_str(&v, "allow_global") {
        Some(ApprovalDecision::AllowAndRemember { scope: PermissionScope::Global, pattern: None, extra_patterns: Vec::new() })
    } else {
        None
    }
}

/// The island's reply to a question: `skip` cancels; `submit` carries the
/// answer (`parsed`: what its JSON decoded to, `None` when it sent none, which
/// also cancels); any other action is an error.
pub fn parse_island_answer(action: &str, parsed: Option<Result<UserAnswer, String>>) -> (r: Result<UserAnswer, String>)
    ensures
        action@ == "skip"@ ==> r == Ok::<UserAnswer, String>(UserAnswer::Cancelled),
        action@ != "skip"@ && action@ == "submit"@ ==> match parsed {
            Some(Ok(a)) => r == Ok::<UserAnswer, String>(a),
            Some(Err(e)) => r matches Err(m) && m@ == "answer 反序列化失败: "@ + e@,
            None => r == Ok::<UserAnswer, String>(UserAnswer::Cancelled),
        },
        action@ != "skip"@ && action@ != "submit"@ ==> (r matches Err(m) && m@ == "未知 action: "@ + action@),
{
    let v = chars_of(action);
    if eq_str(&v, "skip") {
        Ok(UserAnswer::Cancelled)
    } else if eq_str(&v, "submit") {
        match parsed {
            Some(Ok(a)) => Ok(a),
            Some(Err(e)) => Err(concat_str("answer 反序列化失败: ", e.as_str())),
            None => Ok(UserAnswer::Cancelled),
        }
    } else {
        Err(concat_str("未知 action: ", action))
    }
}


/// Each approval button of the island stands for the decision it names:
/// `allow` once, `deny`, and the three "remember" buttons each with the scope
/// it names (conversation → session, project → project, global → global),
/// nothing else remembered; no two buttons give the same decision.
pub proof fn law_island_buttons(d_allow: Option<ApprovalDecision>, d_deny: Option<ApprovalDecision>,
    d_conv: Option<ApprovalDecision>, d_proj: Option<ApprovalDecision>, d_glob: Option<ApprovalDecision>)
    requires
        island_decision_spec("allow"@, d_allow),
        island_decision_spec("deny"@, d_deny),
        island_decision_spec("allow_conversation"@, d_conv),
        island_decision_spec("allow_project"@, d_proj),
        island_decision_spec("allow_global"@, d_glob),
    ensures
        d_allow == Some(ApprovalDecision::AllowOnce),
        d_deny == Some(ApprovalDecision::Deny),
        d_conv matches Some(ApprovalDecision::AllowAndRemember { scope, pattern, extra_patterns })
            && scope == PermissionScope::Session && pattern is None && extra_patterns@.len() == 0,
        d_proj matches Some(ApprovalDecision::AllowAndRemember { scope, pattern, extra_patterns })
            && scope == PermissionScope::Project && pattern is None && extra_patterns@.len() == 0,
        d_glob matches Some(ApprovalDecision::AllowAndRemember { scope, pattern, extra_patterns })
            && scope == PermissionScope::Global && pattern is None && extra_patterns@.len() == 0,
        d_conv != d_proj && d_conv != d_glob && d_proj != d_glob,
        d_allow != d_deny && d_allow != d_conv && d_deny != d_conv,
{
    reveal_strlit("allow");
    reveal_strlit("deny");
    reveal_strlit("allow_conversation");
    reveal_strlit("allow_project");
    reveal_strlit("allow_global");
    assert("deny"@ != "allow"@) by { assert("deny"@[0] != "allow"@[0]); }
    assert("allow_conversation"@ != "allow"@) by { assert("allow_conversation"@.len() != "allow"@.len()); }
    assert("allow_conversation"@ != "deny"@) by { assert("allow_conversation"@.len() != "deny"@.len()); }
    assert("allow_project"@ != "allow"@) by { assert("allow_project"@.len() != "allow"@.len()); }
    assert("allow_project"@ != "deny"@) by { assert("allow_project"@.len() != "deny"@.len()); }
    assert("allow_project"@ != "allow_conversation"@) by { assert("allow_project"@[6] != "allow_conversation"@[6]); }
    assert("allow_global"@ != "allow"@) by { assert("allow_global"@.len() != "allow"@.len()); }
    assert("allow_global"@ != "deny"@) by { assert("allow_global"@.len() != "deny"@.len()); }
    assert("allow_global"@ != "allow_conversation"@) by { assert("allow_global"@[6] != "allow_conversation"@[6]); }
    assert("allow_global"@ != "allow_project"@) by { assert("allow_global"@[6] != "allow_project"@[6]); }
}

} // verus!
