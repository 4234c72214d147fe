//! The built-in terminal's bookkeeping: terminal ids, tab order, which view
//! owns the terminal, the scrollback kept for replay, and the shell setup.

use vstd::prelude::*;
use crate::notch::{b64_spec, b64_standard};
use crate::table::KeyedTable;
use crate::text::{chars_of, concat_str, contains_spec, contains_str, decimal, decimal_spec, string_of};

verus! {

/// The scrollback kept per terminal: the last 1 MiB of output.
pub const SCROLLBACK_CAP: usize = 1048576;

/// The view that currently shows the terminal.
#[derive(Debug, Clone, Copy, PartialEq, Eq, Structural)]
pub enum ViewOwner {
    Embedded,
    Popout,
}

/// One terminal as the list reports it.
#[derive(Debug, PartialEq, Eq)]
pub struct TerminalMeta {
    pub id: String,
    pub cwd: String,
    pub alive: bool,
}

/// The terminals in tab order, the order itself and the active view.
#[derive(Debug, PartialEq, Eq)]
pub struct TerminalListResult {
    pub terminals: Vec<TerminalMeta>,
    pub order: Vec<String>,
    pub active_view: ViewOwner,
}

/// What a view gets when it attaches: the scrollback (Base64) and whether the
/// shell still runs.
#[derive(Debug, PartialEq, Eq)]
pub struct AttachResult {
    pub scrollback_b64: String,
    pub alive: bool,
}

/// The last `cap` bytes of `s` (all of it when shorter).
pub open spec fn keep_last(s: Seq<u8>, cap: nat) -> Seq<u8> {
    if s.len() <= cap { s } else { s.subrange(s.len() - cap, s.len() as int) }
}

/// Appends terminal output to the scrollback, dropping the oldest bytes past the cap.
pub fn append_scrollback(sb: &mut Vec<u8>, chunk: &[u8])
    requires
        old(sb)@.len() + chunk@.len() <= usize::MAX,
    ensures
        final(sb)@ == keep_last(old(sb)@ + chunk@, SCROLLBACK_CAP as nat),
{
    let ghost joined = old(sb)@ + chunk@;
    let mut i: usize = 0;
    while i < chunk.len()
        invariant
            i <= chunk.len(),
            sb@ == old(sb)@ + chunk@.subrange(0, i as int),
            joined == old(sb)@ + chunk@,
        decreases chunk.len() - i,
    {
        sb.push(chunk[i]);
        i += 1;
    }
    assert(sb@ =~= joined);
    if sb.len() > SCROLLBACK_CAP {
        let drop = sb.len() - SCROLLBACK_CAP;
        let mut kept: Vec<u8> = Vec::new();
        let mut j = drop;
        while j < sb.len()
            invariant
                drop <= j <= sb.len(),
                sb@ == joined,
                kept@ == joined.subrange(drop as int, j as int),
            decreases sb.len() - j,
        {
            kept.push(sb[j]);
            j += 1;
        }
        *sb = kept;
    }
}

/// The scrollback never holds more than the cap, and always the newest bytes.
pub proof fn law_scrollback_bounded(s: Seq<u8>)
    ensures
        keep_last(s, SCROLLBACK_CAP as nat).len() <= SCROLLBACK_CAP,
        keep_last(s, SCROLLBACK_CAP as nat).len() > 0 ==> keep_last(s, SCROLLBACK_CAP as nat).last() == s.last(),
{
}

/// `n` in decimal with zeros in front up to three digits.
pub open spec fn pad3(n: nat) -> Seq<char> {
    let d = decimal_spec(n);
    if d.len() >= 3 { d } else if d.len() == 2 { "0"@ + d } else { "00"@ + d }
}

/// The id of the `n`-th terminal: `term_001`, `term_002`, …
pub open spec fn term_id(n: nat) -> Seq<char> {
    "term_"@ + pad3(n)
}

/// The terminals of the app: their working directories and liveness, their tab
/// order, the id counter and the active view.
pub struct TerminalRegistry {
    terminals: KeyedTable<(String, bool)>,
    order: Vec<String>,
    counter: u64,
    active_view: ViewOwner,
}

impl TerminalRegistry {
    pub closed spec fn terminals_view(&self) -> Map<Seq<char>, (String, bool)> {
        self.terminals.view()
    }

    pub closed spec fn order_view(&self) -> Seq<Seq<char>> {
        self.order@.map_values(|s: String| s@)
    }

    pub closed spec fn counter(&self) -> u64 {
        self.counter
    }

    pub closed spec fn view_owner(&self) -> ViewOwner {
        self.active_view
    }

    pub fn new() -> (r: Self)
        ensures
            r.terminals_view() == Map::<Seq<char>, (String, bool)>::empty(),
            r.order_view().len() == 0,
            r.counter() == 0,
            r.view_owner() == ViewOwner::Embedded,
    {
        let r = TerminalRegistry { terminals: KeyedTable::new(), order: Vec::new(), counter: 0, active_view: ViewOwner::Embedded };
        assert(r.order_view() =~= Seq::<Seq<char>>::empty());
        r
    }

    /// The next terminal id (`term_` and the counter, three digits at least).
    pub fn next_id(&mut self) -> (id: String)
        requires
            old(self).counter() < u64::MAX,
        ensures
            final(self).counter() == old(self).counter() + 1,
            id@ == term_id(final(self).counter() as nat),
            final(self).terminals_view() == old(self).terminals_view(),
            final(self).order_view() == old(self).order_view(),
            final(self).view_owner() == old(self).view_owner(),
    {
        self.counter = self.counter + 1;
        let d = decimal(self.counter);
        let padded = if d.as_str().unicode_len() >= 3 {
            d
        } else if d.as_str().unicode_len() == 2 {
            concat_str("0", d.as_str())
        } else {
            concat_str("00", d.as_str())
        };
        concat_str("term_", padded.as_str())
    }

    /// Registers a new terminal at the end of the tab order.
    pub fn add(&mut self, id: String, cwd: String)
        ensures
            final(self).terminals_view() == old(self).terminals_view().insert(id@, (cwd, true)),
            final(self).order_view() == old(self).order_view().push(id@),
            final(self).counter() == old(self).counter(),
            final(self).view_owner() == old(self).view_owner(),
    {
        let ghost o0 = self.order_view();
        self.order.push(id.clone());
        assert(self.order_view() =~= o0.push(id@));
        self.terminals.insert(id, (cwd, true));
    }

    /// Marks a terminal whose shell has exited.
    pub fn mark_exited(&mut self, id: &str)
        ensures
            old(self).terminals_view().contains_key(id@) ==> final(self).terminals_view() == old(self).terminals_view().insert(id@, (old(self).terminals_view()[id@].0, false)),
            !old(self).terminals_view().contains_key(id@) ==> final(self).terminals_view() == old(self).terminals_view(),
            final(self).order_view() == old(self).order_view(),
    {
        if let Some((cwd, _)) = self.terminals.remove(id) {
            self.terminals.insert(id.to_string(), (cwd, false));
        }
    }

    /// Closes a terminal: out of the table and out of the tab order.
    pub fn close(&mut self, id: &str)
        ensures
            final(self).terminals_view() == old(self).terminals_view().remove(id@),
            final(self).order_view() == old(self).order_view().filter(|x: Seq<char>| x != id@),
            final(self).counter() == old(self).counter(),
    {
        let _ = self.terminals.remove(id);
        let ghost o0 = self.order_view();
        let mut kept: Vec<String> = Vec::new();
        let mut i: usize = 0;
        while i < self.order.len()
            invariant
                i <= self.order.len(),
                o0 == self.order@.map_values(|s: String| s@),
                kept@.map_values(|s: String| s@) == o0.subrange(0, i as int).filter(|x: Seq<char>| x != id@),
            decreases self.order.len() - i,
        {
            let v = chars_of(self.order[i].as_str());
            proof {
                let sub = o0.subrange(0, i + 1);
                assert(sub.drop_last() =~= o0.subrange(0, i as int));
                reveal_with_fuel(Seq::filter, 1);
            }
            if !crate::text::eq_str(&v, id) {
                kept.push(self.order[i].clone());
            }
            i += 1;
            assert(kept@.map_values(|s: String| s@) =~= o0.subrange(0, i as int).filter(|x: Seq<char>| x != id@));
        }
        assert(o0.subrange(0, o0.len() as int) =~= o0);
        self.order = kept;
    }

    /// The terminals in tab order (ids with no terminal skipped), the order and the active view.
    pub fn list(&self) -> (r: TerminalListResult)
        ensures
            r.order@.map_values(|s: String| s@) == self.order_view(),
            r.active_view == self.view_owner(),
            forall|i: int| #![trigger r.terminals@[i]] 0 <= i < r.terminals.len() ==> self.terminals_view().contains_key(r.terminals@[i].id@)
                && self.terminals_view()[r.terminals@[i].id@].0 == r.terminals@[i].cwd
                && self.terminals_view()[r.terminals@[i].id@].1 == r.terminals@[i].alive,
    {
        let mut terminals: Vec<TerminalMeta> = Vec::new();
        let mut i: usize = 0;
        while i < self.order.len()
            invariant
                i <= self.order.len(),
                forall|k: int| #![trigger terminals@[k]] 0 <= k < terminals.len() ==> self.terminals_view().contains_key(terminals@[k].id@)
                    && self.terminals_view()[terminals@[k].id@].0 == terminals@[k].cwd
                    && self.terminals_view()[terminals@[k].id@].1 == terminals@[k].alive,
            decreases self.order.len() - i,
        {
            match self.terminals.get(self.order[i].as_str()) {
                Some(info) => {
                    terminals.push(TerminalMeta { id: self.order[i].clone(), cwd: info.0.clone(), alive: info.1 });
                },
                None => {},
            }
            i += 1;
        }
        let mut order: Vec<String> = Vec::new();
        let mut j: usize = 0;
        while j < self.order.len()
            invariant
                j <= self.order.len(),
                order@.map_values(|s: String| s@) == self.order_view().subrange(0, j as int),
                forall|k: int| #![trigger terminals@[k]] 0 <= k < terminals.len() ==> self.terminals_view().contains_key(terminals@[k].id@)
                    && self.terminals_view()[terminals@[k].id@].0 == terminals@[k].cwd
                    && self.terminals_view()[terminals@[k].id@].1 == terminals@[k].alive,
            decreases self.order.len() - j,
        {
            let c = self.order[j].clone();
            assert(c@ == self.order_view()[j as int]);
            let ghost before = order@.map_values(|s: String| s@);
            order.push(c);
            assert(order@.map_values(|s: String| s@) =~= before.push(c@));
            j += 1;
            assert(order@.map_values(|s: String| s@) =~= self.order_view().subrange(0, j as int));
        }
        assert(self.order_view().subrange(0, self.order.len() as int) =~= self.order_view());
        TerminalListResult { terminals, order, active_view: self.active_view }
    }

    /// Hands the terminal to a view (the pop-out window, or back to the embedded one).
    pub fn set_view(&mut self, owner: ViewOwner)
        ensures
            final(self).view_owner() == owner,
            final(self).terminals_view() == old(self).terminals_view(),
            final(self).order_view() == old(self).order_view(),
    {
        self.active_view = owner;
    }
}

/// A PTY dimension: at least 1.
pub fn pty_dim(n: u16) -> (r: u16)
    ensures
        r == if n == 0 { 1 } else { n },
{
    if n < 1 { 1 } else { n }
}

/// The shell's working directory: the requested one when it is a non-empty
/// existing directory, else the home directory, else `/`.
pub fn resolve_workdir(cwd: Option<&str>, cwd_is_dir: bool, home: Option<&str>) -> (w: String)
    ensures
        w@ == match cwd {
            Some(c) if c@.len() > 0 && cwd_is_dir => c@,
            _ => match home {
                Some(h) => h@,
                None => "/"@,
            },
        },
{
    if let Some(c) = cwd {
        if !c.is_empty() && cwd_is_dir {
            return c.to_string();
        }
    }
    match home {
        Some(h) => h.to_string(),
        None => "/".to_string(),
    }
}

/// ASCII lower-case letters mapped to upper case.
pub open spec fn ascii_upper_spec(s: Seq<char>) -> Seq<char> {
    s.map_values(|c: char| if 'a' <= c && c <= 'z' { ((c as u32) - 32) as char } else { c })
}

fn to_upper(s: &str) -> (r: Vec<char>)
    ensures
        r@ == ascii_upper_spec(s@),
{
    let v = chars_of(s);
    let mut r: Vec<char> = Vec::new();
    let mut i: usize = 0;
    while i < v.len()
        invariant
            i <= v.len(),
            v@ == s@,
            r@ == ascii_upper_spec(v@.subrange(0, i as int)),
        decreases v.len() - i,
    {
        let c = v[i];
        let u = if 'a' <= c && c <= 'z' { (((c as u8) - 32) as char) } else { c };
        r.push(u);
        assert(ascii_upper_spec(v@.subrange(0, i + 1)) =~= ascii_upper_spec(v@.subrange(0, i as int)).push(u));
        i += 1;
    }
    assert(v@.subrange(0, v.len() as int) =~= v@);
    r
}

/// Whether a locale value names UTF-8.
pub open spec fn utf8_locale(v: Seq<char>) -> bool {
    contains_spec(ascii_upper_spec(v), "UTF-8"@) || contains_spec(ascii_upper_spec(v), "UTF8"@)
}

pub open spec fn set_utf8(o: Option<String>) -> bool {
    o matches Some(v) && utf8_locale(v@)
}

/// Whether the process locale is UTF-8, from the values of `LC_ALL`,
/// `LC_CTYPE` and `LANG` (`None` where unset).
pub fn locale_is_utf8(values: &Vec<Option<String>>) -> (b: bool)
    ensures
        b == exists|i: int| 0 <= i < values.len() && set_utf8(#[trigger] values@[i]),
{
    let mut i: usize = 0;
    while i < values.len()
        invariant
            i <= values.len(),
            forall|k: int| 0 <= k < i ==> !set_utf8(#[trigger] values@[k]),
        decreases values.len() - i,
    {
        if let Some(v) = &values[i] {
            let up = to_upper(v.as_str());
            if contains_str(&up, "UTF-8") || contains_str(&up, "UTF8") {
                assert(set_utf8(values@[i as int]));
                return true;
            }
        }
        i += 1;
    }
    false
}

/// A chunk of terminal output for the views.
#[derive(Debug, PartialEq, Eq)]
pub struct OutputEvent {
    pub id: String,
    pub data_b64: String,
}

/// The output event of terminal `id` for the bytes `chunk`, Base64-encoded.
pub fn output_event(id: &str, chunk: &[u8]) -> (e: OutputEvent)
    requires
        4 * ((chunk@.len() + 2) / 3) <= usize::MAX,
    ensures
        e.id@ == id@,
        e.data_b64@ == b64_spec(chunk@),
{
    OutputEvent { id: id.to_string(), data_b64: b64_standard(chunk) }
}

/// What attaching a view to a terminal gets: its scrollback (Base64) and
/// whether its shell runs; `found` is that terminal's scrollback and liveness,
/// `None` when there is no such terminal.
pub fn attach_result(found: Option<(&[u8], bool)>) -> (r: Result<AttachResult, String>)
    requires
        found matches Some((b, _)) ==> 4 * ((b@.len() + 2) / 3) <= usize::MAX,
    ensures
        match found {
            None => r matches Err(e) && e@ == "终端不存在"@,
            Some((bytes, alive)) => r matches Ok(a) && a.scrollback_b64@ == b64_spec(bytes@) && a.alive == alive,
        },
{
    match found {
        None => Err("终端不存在".to_string()),
        Some((bytes, alive)) => Ok(AttachResult { scrollback_b64: b64_standard(bytes), alive }),
    }
}

} // verus!

