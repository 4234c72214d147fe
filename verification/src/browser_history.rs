//! Per-session preview browsers: each keeps its own navigation history with a
//! cursor for back and forward, and a host table maps session ids to browsers.
//! The native browser handle is driven by the caller; the functions here decide
//! what the history becomes and whether the native view has to move.

use vstd::prelude::*;
use crate::text::{chars_of, eq_str};

verus! {

pub open spec fn strings_view(v: Seq<String>) -> Seq<Seq<char>> {
    v.map_values(|s: String| s@)
}

/// The navigation history of one preview browser.
pub struct CefBrowser {
    /// Visited URLs, oldest first.
    pub history: Vec<String>,
    /// Index of the current entry in `history`.
    pub cursor: usize,
}

/// A history as URLs plus the cursor.
pub type HistoryModel = (Seq<Seq<char>>, int);

pub open spec fn history_wf(h: HistoryModel) -> bool {
    0 <= h.1 < h.0.len()
}

/// Navigating: entries after the cursor go, `url` is appended and becomes current.
pub open spec fn navigate_spec(h: HistoryModel, url: Seq<char>) -> HistoryModel {
    let keep = if h.1 + 1 <= h.0.len() { h.1 + 1 } else { h.0.len() as int };
    let urls = h.0.subrange(0, keep).push(url);
    (urls, urls.len() - 1)
}

pub open spec fn back_spec(h: HistoryModel) -> HistoryModel {
    if h.1 > 0 { (h.0, h.1 - 1) } else { h }
}

pub open spec fn forward_spec(h: HistoryModel) -> HistoryModel {
    if h.1 + 1 < h.0.len() { (h.0, h.1 + 1) } else { h }
}

impl CefBrowser {
    pub open spec fn urls(&self) -> Seq<Seq<char>> {
        strings_view(self.history@)
    }

    pub open spec fn model(&self) -> HistoryModel {
        (self.urls(), self.cursor as int)
    }

    /// The cursor points at an entry of the history.
    pub open spec fn wf(&self) -> bool {
        history_wf(self.model())
    }

    /// A browser opened on `url`: the history holds just that URL.
    pub fn create(url: &str) -> (b: Self)
        ensures
            b.wf(),
            b.model() == (seq![url@], 0int),
    {
        let mut history: Vec<String> = Vec::new();
        history.push(url.to_string());
        let b = CefBrowser { history, cursor: 0 };
        assert(b.urls() =~= seq![url@]);
        b
    }

    /// Navigates to `url`: the entries after the cursor are dropped, `url` is
    /// appended and becomes the current entry.
    pub fn navigate(&mut self, url: &str)
        requires
            old(self).cursor < usize::MAX,
        ensures
            final(self).model() == navigate_spec(old(self).model(), url@),
    {
        self.history.truncate(self.cursor + 1);
        let ghost kept = self.urls();
        self.history.push(url.to_string());
        self.cursor = self.history.len() - 1;
        assert(self.urls() =~= kept.push(url@));
    }

    /// Steps back one entry if there is one; returns whether it moved (and the
    /// native view has to go back too).
    pub fn back(&mut self) -> (moved: bool)
        ensures
            moved == (old(self).cursor > 0),
            final(self).model() == back_spec(old(self).model()),
            final(self).history == old(self).history,
    {
        if self.cursor > 0 {
            self.cursor -= 1;
            true
        } else {
            false
        }
    }

    /// Steps forward one entry if there is one; returns whether it moved.
    pub fn forward(&mut self) -> (moved: bool)
        ensures
            moved == (old(self).cursor + 1 < old(self).history.len()),
            final(self).model() == forward_spec(old(self).model()),
            final(self).history == old(self).history,
    {
        if self.cursor < self.history.len() && self.cursor + 1 < self.history.len() {
            self.cursor += 1;
            true
        } else {
            false
        }
    }

    pub fn can_go_back(&self) -> (b: bool)
        ensures
            b == (self.cursor > 0),
    {
        self.cursor > 0
    }

    pub fn can_go_forward(&self) -> (b: bool)
        ensures
            b == (self.cursor + 1 < self.history.len()),
    {
        self.cursor < self.history.len() && self.cursor + 1 < self.history.len()
    }

    /// The current URL.
    pub fn current(&self) -> (r: &str)
        requires
            self.wf(),
        ensures
            r@ == self.urls()[self.cursor as int],
    {
        self.history[self.cursor].as_str()
    }
}

/// Navigation, back and forward keep the cursor on an entry of the history.
pub proof fn law_history_wf_preserved(h: HistoryModel, url: Seq<char>)
    requires
        history_wf(h),
    ensures
        history_wf(navigate_spec(h, url)),
        history_wf(back_spec(h)),
        history_wf(forward_spec(h)),
{
}

/// After navigating, the new URL is current, nothing lies ahead, and every
/// entry up to the old cursor is kept.
pub proof fn law_navigate_current(h: HistoryModel, url: Seq<char>)
    requires
        history_wf(h),
    ensures
        navigate_spec(h, url).0[navigate_spec(h, url).1] == url,
        forward_spec(navigate_spec(h, url)) == navigate_spec(h, url),
        navigate_spec(h, url).1 == h.1 + 1,
        forall|i: int| 0 <= i <= h.1 ==> navigate_spec(h, url).0[i] == h.0[i],
{
}

/// Going back then forward returns to the same place when back could move,
/// and forward then back likewise.
pub proof fn law_back_forward_inverse(h: HistoryModel)
    requires
        history_wf(h),
    ensures
        h.1 > 0 ==> forward_spec(back_spec(h)) == h,
        h.1 + 1 < h.0.len() ==> back_spec(forward_spec(h)) == h,
{
}

struct HostEntry {
    session_id: String,
    browser: CefBrowser,
}

spec fn keys_distinct(s: Seq<HostEntry>) -> bool {
    forall|i: int, j: int|
        0 <= i < j < s.len() ==> #[trigger] s[i].session_id@ != #[trigger] s[j].session_id@
}

spec fn model_of(s: Seq<HostEntry>) -> Map<Seq<char>, HistoryModel> {
    Map::new(
        |k: Seq<char>| exists|i: int| 0 <= i < s.len() && s[i].session_id@ == k,
        |k: Seq<char>| s[choose|i: int| 0 <= i < s.len() && s[i].session_id@ == k].browser.model(),
    )
}

proof fn lemma_model_at(s: Seq<HostEntry>, i: int)
    requires
        keys_distinct(s),
        0 <= i < s.len(),
    ensures
        model_of(s).contains_key(s[i].session_id@),
        model_of(s)[s[i].session_id@] == s[i].browser.model(),
{
    let k = s[i].session_id@;
    let j = choose|j: int| 0 <= j < s.len() && s[j].session_id@ == k;
    assert(0 <= j < s.len() && s[j].session_id@ == k);
    if j != i {
        if j < i {
            assert(s[j].session_id@ != s[i].session_id@);
        } else {
            assert(s[i].session_id@ != s[j].session_id@);
        }
    }
}

/// Removing the entry at `i` removes its key from the model.
proof fn lemma_model_remove(old_s: Seq<HostEntry>, i: int)
    requires
        keys_distinct(old_s),
        0 <= i < old_s.len(),
    ensures
        keys_distinct(old_s.remove(i)),
        model_of(old_s.remove(i)) == model_of(old_s).remove(old_s[i].session_id@),
{
    let new_s = old_s.remove(i);
    let k = old_s[i].session_id@;
    assert forall|a: int, b: int|
        0 <= a < b < new_s.len() implies #[trigger] new_s[a].session_id@
            != #[trigger] new_s[b].session_id@ by {
        let oa = if a < i { a } else { a + 1 };
        let ob = if b < i { b } else { b + 1 };
        assert(new_s[a] == old_s[oa]);
        assert(new_s[b] == old_s[ob]);
        assert(old_s[oa].session_id@ != old_s[ob].session_id@);
    }
    assert forall|key: Seq<char>| #[trigger] model_of(new_s).contains_key(key) <==> model_of(old_s).remove(k).contains_key(key) by {
        if model_of(new_s).contains_key(key) {
            let a = choose|a: int| 0 <= a < new_s.len() && new_s[a].session_id@ == key;
            let oa = if a < i { a } else { a + 1 };
            assert(new_s[a] == old_s[oa]);
            if oa < i {
                assert(old_s[oa].session_id@ != old_s[i].session_id@);
            } else {
                assert(old_s[i].session_id@ != old_s[oa].session_id@);
            }
            assert(model_of(old_s).contains_key(key));
        }
        if model_of(old_s).remove(k).contains_key(key) {
            let oa = choose|a: int| 0 <= a < old_s.len() && old_s[a].session_id@ == key;
            assert(oa != i);
            let a = if oa < i { oa } else { oa - 1 };
            assert(new_s[a] == old_s[oa]);
            assert(model_of(new_s).contains_key(key));
        }
    }
    assert forall|key: Seq<char>| #[trigger] model_of(new_s).contains_key(key) implies model_of(new_s)[key] == model_of(old_s)[key] by {
        let a = choose|a: int| 0 <= a < new_s.len() && new_s[a].session_id@ == key;
        let oa = if a < i { a } else { a + 1 };
        assert(new_s[a] == old_s[oa]);
        lemma_model_at(new_s, a);
        lemma_model_at(old_s, oa);
    }
    assert(model_of(new_s) =~= model_of(old_s).remove(k));
}

/// Appending an entry whose key is absent adds it to the model.
proof fn lemma_model_push(old_s: Seq<HostEntry>, e: HostEntry)
    requires
        keys_distinct(old_s),
        !model_of(old_s).contains_key(e.session_id@),
    ensures
        keys_distinct(old_s.push(e)),
        model_of(old_s.push(e)) == model_of(old_s).insert(e.session_id@, e.browser.model()),
{
    let new_s = old_s.push(e);
    let n = old_s.len() as int;
    assert forall|a: int, b: int|
        0 <= a < b < new_s.len() implies #[trigger] new_s[a].session_id@
            != #[trigger] new_s[b].session_id@ by {
        assert(new_s[a] == old_s[a]);
        if b < n {
            assert(new_s[b] == old_s[b]);
        } else {
            assert(old_s[a].session_id@ != e.session_id@) by {
                if old_s[a].session_id@ == e.session_id@ {
                    assert(model_of(old_s).contains_key(e.session_id@));
                }
            }
        }
    }
    let m = model_of(old_s).insert(e.session_id@, e.browser.model());
    assert forall|key: Seq<char>| #[trigger] model_of(new_s).contains_key(key) <==> m.contains_key(key) by {
        if model_of(new_s).contains_key(key) {
            let a = choose|a: int| 0 <= a < new_s.len() && new_s[a].session_id@ == key;
            if a < n {
                assert(new_s[a] == old_s[a]);
                assert(model_of(old_s).contains_key(key));
            }
        }
        if model_of(old_s).contains_key(key) {
            let a = choose|a: int| 0 <= a < old_s.len() && old_s[a].session_id@ == key;
            assert(new_s[a] == old_s[a]);
        }
        if key == e.session_id@ {
            assert(new_s[n] == e);
        }
    }
    assert forall|key: Seq<char>| #[trigger] model_of(new_s).contains_key(key) implies model_of(new_s)[key] == m[key] by {
        let a = choose|a: int| 0 <= a < new_s.len() && new_s[a].session_id@ == key;
        lemma_model_at(new_s, a);
        if a < n {
            assert(new_s[a] == old_s[a]);
            lemma_model_at(old_s, a);
        } else {
            assert(new_s[a] == e);
        }
    }
    assert(model_of(new_s) =~= m);
}

/// The preview browser of each session.
pub struct CefHost {
    instances: Vec<HostEntry>,
}

impl CefHost {
    #[verifier::type_invariant]
    spec fn inv(&self) -> bool {
        keys_distinct(self.instances@)
    }

    /// Session id to the browser's history and cursor.
    pub closed spec fn model(&self) -> Map<Seq<char>, HistoryModel> {
        model_of(self.instances@)
    }

    pub fn new() -> (h: Self)
        ensures
            h.model() == Map::<Seq<char>, HistoryModel>::empty(),
    {
        let h = CefHost { instances: Vec::new() };
        assert(h.model() =~= Map::<Seq<char>, HistoryModel>::empty());
        h
    }

    fn find(&self, session_id: &str) -> (r: Option<usize>)
        ensures
            match r {
                Some(i) => i < self.instances.len() && self.instances@[i as int].session_id@ == session_id@,
                None => forall|i: int| 0 <= i < self.instances.len() ==> self.instances@[i].session_id@ != session_id@,
            },
    {
        let mut i: usize = 0;
        while i < self.instances.len()
            invariant
                i <= self.instances.len(),
                forall|j: int| 0 <= j < i ==> self.instances@[j].session_id@ != session_id@,
            decreases self.instances.len() - i,
        {
            let k = chars_of(self.instances[i].session_id.as_str());
            if eq_str(&k, session_id) {
                return Some(i);
            }
            i += 1;
        }
        None
    }

    /// Drops the browser of `session_id` and hands it back, so the caller can
    /// close its native view.
    pub fn remove(&mut self, session_id: &str) -> (r: Option<CefBrowser>)
        ensures
            final(self).model() == old(self).model().remove(session_id@),
            match r {
                Some(b) => old(self).model().contains_key(session_id@) && old(self).model()[session_id@] == b.model(),
                None => !old(self).model().contains_key(session_id@),
            },
    {
        proof { use_type_invariant(&*self); }
        match self.find(session_id) {
            Some(i) => {
                proof { lemma_model_at(self.instances@, i as int); }
                let mut instances: Vec<HostEntry> = Vec::new();
                std::mem::swap(&mut instances, &mut self.instances);
                proof { lemma_model_remove(instances@, i as int); }
                let e = instances.remove(i);
                self.instances = instances;
                Some(e.browser)
            },
            None => {
                assert(self.model() =~= self.model().remove(session_id@));
                None
            },
        }
    }

    /// Stores `browser` for `session_id`, replacing any browser it had.
    pub fn insert(&mut self, session_id: String, browser: CefBrowser)
        ensures
            final(self).model() == old(self).model().insert(session_id@, browser.model()),
    {
        let _ = self.remove(session_id.as_str());
        proof { use_type_invariant(&*self); }
        let mut instances: Vec<HostEntry> = Vec::new();
        std::mem::swap(&mut instances, &mut self.instances);
        let e = HostEntry { session_id, browser };
        proof { lemma_model_push(instances@, e); }
        instances.push(e);
        self.instances = instances;
    }

    /// Runs `f` on the browser of `session_id` and hands back what `f` returned;
    /// the browser keeps what `f` made of it. `None` when the
    /// session has no browser.
    pub fn with<R, F: FnOnce(&mut CefBrowser) -> R>(&mut self, session_id: &str, f: F) -> (r: Option<R>)
        requires
            forall|b: &mut CefBrowser| f.requires((b,)),
        ensures
            r is None <==> !old(self).model().contains_key(session_id@),
            r is None ==> final(self).model() == old(self).model(),
            final(self).model().dom() == old(self).model().dom(),
            forall|k: Seq<char>|
                k != session_id@ && #[trigger] old(self).model().contains_key(k) ==> final(self).model()[k]
                    == old(self).model()[k],
            r is Some ==> exists|b: &mut CefBrowser|
                (*b).model() == old(self).model()[session_id@]
                && #[trigger] f.ensures((b,), r->0)
                && final(self).model()[session_id@] == (*final(b)).model(),
    {
        proof { use_type_invariant(&*self); }
        match self.find(session_id) {
            Some(i) => {
                let mut instances: Vec<HostEntry> = Vec::new();
                std::mem::swap(&mut instances, &mut self.instances);
                proof { lemma_model_remove(instances@, i as int); }
                let mut e = instances.remove(i);
                proof { lemma_model_at(old(self).instances@, i as int); }
                let ghost before = e.browser;
                let out = f(&mut e.browser);
                let ghost after = e.browser;
                assert(exists|b: &mut CefBrowser| #[trigger] f.ensures((b,), out) && *b == before && *final(b) == after);
                proof { lemma_model_push(instances@, e); }
                instances.push(e);
                self.instances = instances;
                assert(self.model().dom() =~= old(self).model().dom());
                assert(before.model() == old(self).model()[session_id@]);
                assert(self.model()[session_id@] == after.model());
                let r = Some(out);
                proof {
                    let b = choose|b: &mut CefBrowser| #[trigger] f.ensures((b,), out) && *b == before && *final(b) == after;
                    assert((*b).model() == old(self).model()[session_id@] && f.ensures((b,), out)
                        && self.model()[session_id@] == (*final(b)).model());
                    assert(r->0 == out);
                    assert(exists|b: &mut CefBrowser|
                        (*b).model() == old(self).model()[session_id@]
                        && #[trigger] f.ensures((b,), r->0)
                        && self.model()[session_id@] == (*final(b)).model());
                }
                r
            },
            None => None,
        }
    }

    /// Whether `session_id` has a browser.
    pub fn has(&self, session_id: &str) -> (b: bool)
        ensures
            b == self.model().contains_key(session_id@),
    {
        proof { use_type_invariant(self); }
        match self.find(session_id) {
            Some(i) => {
                proof { lemma_model_at(self.instances@, i as int); }
                true
            },
            None => false,
        }
    }
}


/// A call on the host, as far as the set of sessions with a browser goes:
/// `insert`, `remove`, or `with` (which keeps the set).
pub enum HostStep {
    Insert(Seq<char>),
    Remove(Seq<char>),
    With(Seq<char>),
}

/// The sessions with a browser after `steps`, starting from `d` (what the
/// contracts of `insert`, `remove` and `with` give for `model().dom()`).
pub open spec fn sessions_after(d: Set<Seq<char>>, steps: Seq<HostStep>) -> Set<Seq<char>>
    decreases steps.len(),
{
    if steps.len() == 0 {
        d
    } else {
        let prev = sessions_after(d, steps.drop_last());
        match steps.last() {
            HostStep::Insert(k) => prev.insert(k),
            HostStep::Remove(k) => prev.remove(k),
            HostStep::With(_) => prev,
        }
    }
}

/// Once a browser is stored for `sid`, `has(sid)` stays true through any
/// later calls that do not remove `sid`; and whether another session has a
/// browser is what it would have been without that insert.
pub proof fn law_has_after_insert(d: Set<Seq<char>>, sid: Seq<char>, steps: Seq<HostStep>)
    requires
        forall|k: int| 0 <= k < steps.len() ==> #[trigger] steps[k] != HostStep::Remove(sid),
    ensures
        sessions_after(d.insert(sid), steps).contains(sid),
        forall|o: Seq<char>| o != sid ==>
            (#[trigger] sessions_after(d.insert(sid), steps).contains(o) == sessions_after(d, steps).contains(o)),
    decreases steps.len(),
{
    if steps.len() > 0 {
        let init = steps.drop_last();
        assert forall|k: int| 0 <= k < init.len() implies #[trigger] init[k] != HostStep::Remove(sid) by {
            assert(init[k] == steps[k]);
        }
        law_has_after_insert(d, sid, init);
        assert(steps.last() == steps[steps.len() - 1]);
    }
}

} // verus!
