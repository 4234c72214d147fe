//! The per-session "hands-off" switch: off unless set, kept in memory only.

use vstd::prelude::*;
use crate::table::KeyedTable;

verus! {

pub struct ForceAutomodeState {
    sessions: KeyedTable<bool>,
}

impl ForceAutomodeState {
    pub closed spec fn view(&self) -> Map<Seq<char>, bool> {
        self.sessions.view()
    }

    pub fn new() -> (s: Self)
        ensures
            s.view() == Map::<Seq<char>, bool>::empty(),
    {
        ForceAutomodeState { sessions: KeyedTable::new() }
    }

    /// Whether hands-off is on for `session_id` (off when never set).
    pub fn is_enabled(&self, session_id: &str) -> (b: bool)
        ensures
            b == (self.view().contains_key(session_id@) && self.view()[session_id@]),
    {
        match self.sessions.get(session_id) {
            Some(b) => *b,
            None => false,
        }
    }

    pub fn set(&mut self, session_id: String, enabled: bool)
        ensures
            final(self).view() == old(self).view().insert(session_id@, enabled),
    {
        self.sessions.insert(session_id, enabled);
    }
}

/// What is set is what is read back, and other sessions keep their switch.
pub proof fn law_set_then_read(m: Map<Seq<char>, bool>, id: Seq<char>, other: Seq<char>, enabled: bool)
    requires
        other != id,
    ensures
        m.insert(id, enabled).contains_key(id) && m.insert(id, enabled)[id] == enabled,
        m.insert(id, enabled).contains_key(other) == m.contains_key(other),
        m.contains_key(other) ==> m.insert(id, enabled)[other] == m[other],
{
}

} // verus!
