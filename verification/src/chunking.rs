//! Cutting a streamed reply into chat-sized messages: a message ends at a blank
//! line, or, once more than 500 bytes are waiting, at the last line break, `。`
//! or `.` within the first 500 bytes, else right at byte 500.

use vstd::prelude::*;
use crate::text::{trim_chars, trim_spec, string_of, chars_of};

verus! {

/// Bytes that `c` takes in UTF-8.
pub open spec fn utf8_width(c: char) -> nat {
    if (c as u32) < 0x80 {
        1
    } else if (c as u32) < 0x800 {
        2
    } else if (c as u32) < 0x10000 {
        3
    } else {
        4
    }
}

/// Bytes that `s` takes in UTF-8.
pub open spec fn utf8_len(s: Seq<char>) -> nat
    decreases s.len(),
{
    if s.len() == 0 {
        0
    } else {
        utf8_len(s.drop_last()) + utf8_width(s.last())
    }
}

/// The first `i >= from` with a blank line (`\n\n`) starting at `i`.
pub open spec fn blank_line_from(s: Seq<char>, from: int) -> Option<int>
    decreases s.len() - from,
{
    if from < 0 || from + 1 >= s.len() {
        None
    } else if s[from] == '\n' && s[from + 1] == '\n' {
        Some(from)
    } else {
        blank_line_from(s, from + 1)
    }
}

/// The last index below `k` holding `c`.
pub open spec fn last_before(s: Seq<char>, c: char, k: int) -> Option<int>
    decreases k,
{
    if k <= 0 {
        None
    } else if s[k - 1] == c {
        Some(k - 1)
    } else {
        last_before(s, c, k - 1)
    }
}

/// The number of leading characters that take exactly 500 bytes, when there is one.
pub open spec fn cut_at_500(s: Seq<char>) -> Option<int> {
    if exists|k: int| 0 <= k <= s.len() && utf8_len(s.subrange(0, k)) == 500 {
        Some(choose|k: int| 0 <= k <= s.len() && utf8_len(s.subrange(0, k)) == 500)
    } else {
        None
    }
}

/// Where the next message ends, in characters: after the first blank line; or,
/// past 500 bytes, after the last `\n`, `。` or `.` within the first 500 bytes,
/// else at byte 500.
pub open spec fn split_chars_spec(s: Seq<char>) -> Option<int> {
    match blank_line_from(s, 0) {
        Some(p) => Some(p + 2),
        None => if utf8_len(s) > 500 {
            let k = cut_at_500(s)->0;
            match last_before(s, '\n', k) {
                Some(p) => Some(p + 1),
                None => match last_before(s, '。', k) {
                    Some(p) => Some(p + 1),
                    None => match last_before(s, '.', k) {
                        Some(p) => Some(p + 1),
                        None => Some(k),
                    },
                },
            }
        } else {
            None
        },
    }
}

/// The byte 500 falls on a character boundary whenever the 500-byte rule applies
/// (the cut would panic otherwise).
pub open spec fn cut_ok(s: Seq<char>) -> bool {
    blank_line_from(s, 0) is None && utf8_len(s) > 500 ==> cut_at_500(s) is Some
}

proof fn lemma_utf8_len_prefix(s: Seq<char>, i: int)
    requires
        0 <= i < s.len(),
    ensures
        utf8_len(s.subrange(0, i + 1)) == utf8_len(s.subrange(0, i)) + utf8_width(s[i]),
{
    assert(s.subrange(0, i + 1).drop_last() =~= s.subrange(0, i));
}

proof fn lemma_utf8_len_mono(s: Seq<char>, i: int, j: int)
    requires
        0 <= i <= j <= s.len(),
    ensures
        utf8_len(s.subrange(0, i)) <= utf8_len(s.subrange(0, j)),
    decreases j - i,
{
    if i < j {
        lemma_utf8_len_prefix(s, j - 1);
        lemma_utf8_len_mono(s, i, j - 1);
    }
}

proof fn lemma_last_before_bound(s: Seq<char>, c: char, k: int)
    requires
        0 <= k <= s.len(),
    ensures
        match last_before(s, c, k) {
            Some(p) => 0 <= p < k && s[p] == c,
            None => true,
        },
    decreases k,
{
    if k > 0 && s[k - 1] != c {
        lemma_last_before_bound(s, c, k - 1);
    }
}

fn width(c: char) -> (w: usize)
    ensures
        w == utf8_width(c),
{
    if (c as u32) < 0x80 {
        1
    } else if (c as u32) < 0x800 {
        2
    } else if (c as u32) < 0x10000 {
        3
    } else {
        4
    }
}

fn blank_line(s: &Vec<char>) -> (r: Option<usize>)
    ensures
        match r {
            Some(p) => blank_line_from(s@, 0) == Some(p as int),
            None => blank_line_from(s@, 0) is None,
        },
{
    let mut i: usize = 0;
    while i < s.len() && s.len() - i > 1
        invariant
            i <= s.len(),
            blank_line_from(s@, 0) == blank_line_from(s@, i as int),
        decreases s.len() - i,
    {
        if s[i] == '\n' && s[i + 1] == '\n' {
            return Some(i);
        }
        i += 1;
    }
    None
}

fn last_index(s: &Vec<char>, c: char, k: usize) -> (r: Option<usize>)
    requires
        k <= s.len(),
    ensures
        match r {
            Some(p) => last_before(s@, c, k as int) == Some(p as int),
            None => last_before(s@, c, k as int) is None,
        },
{
    let mut j: usize = k;
    while j > 0
        invariant
            j <= k <= s.len(),
            last_before(s@, c, k as int) == last_before(s@, c, j as int),
        decreases j,
    {
        if s[j - 1] == c {
            return Some(j - 1);
        }
        j -= 1;
    }
    None
}

proof fn lemma_utf8_len_strict(s: Seq<char>, i: int, j: int)
    requires
        0 <= i < j <= s.len(),
    ensures
        utf8_len(s.subrange(0, i)) < utf8_len(s.subrange(0, j)),
    decreases j - i,
{
    lemma_utf8_len_prefix(s, j - 1);
    if i < j - 1 {
        lemma_utf8_len_strict(s, i, j - 1);
    }
}

/// `cut` is the first prefix length reaching 500 bytes (or the whole string).
pub open spec fn first_reach_500(s: Seq<char>, cut: int) -> bool {
    &&& 0 <= cut <= s.len()
    &&& (utf8_len(s.subrange(0, cut)) >= 500 || cut == s.len())
    &&& (cut > 0 ==> utf8_len(s.subrange(0, cut - 1)) < 500)
}

proof fn lemma_cut(s: Seq<char>, cut: int)
    requires
        first_reach_500(s, cut),
    ensures
        utf8_len(s.subrange(0, cut)) == 500 ==> cut_at_500(s) == Some(cut),
        utf8_len(s.subrange(0, cut)) != 500 ==> cut_at_500(s) is None,
        utf8_len(s) > 500 <==> (utf8_len(s.subrange(0, cut)) > 500 || (utf8_len(s.subrange(0, cut)) == 500 && cut < s.len())),
{
    assert(s.subrange(0, s.len() as int) =~= s);
    assert forall|k: int| 0 <= k <= s.len() && utf8_len(s.subrange(0, k)) == 500 implies k == cut by {
        if k < cut {
            if k < cut - 1 {
                lemma_utf8_len_strict(s, k, cut - 1);
            }
        } else if k > cut {
            lemma_utf8_len_strict(s, cut, k);
            if cut == s.len() {
                assert(false);
            }
        }
    }
    if utf8_len(s.subrange(0, cut)) == 500 {
        assert(0 <= cut <= s.len() && utf8_len(s.subrange(0, cut)) == 500);
    }
    if cut < s.len() {
        lemma_utf8_len_strict(s, cut, s.len() as int);
    }
}

/// The first prefix length reaching 500 bytes, with its byte length.
fn prefix_500(s: &Vec<char>) -> (r: (usize, usize))
    ensures
        first_reach_500(s@, r.1 as int),
        r.0 == utf8_len(s@.subrange(0, r.1 as int)),
{
    let mut acc: usize = 0;
    let mut i: usize = 0;
    assert(s@.subrange(0, 0) =~= Seq::<char>::empty());
    while i < s.len() && acc < 500
        invariant
            i <= s.len(),
            acc == utf8_len(s@.subrange(0, i as int)),
            acc < 504,
            i > 0 ==> utf8_len(s@.subrange(0, i - 1)) < 500,
        decreases s.len() - i,
    {
        proof { lemma_utf8_len_prefix(s@, i as int); }
        acc = acc + width(s[i]);
        i += 1;
    }
    (acc, i)
}

proof fn lemma_split_range(s: Seq<char>)
    requires
        cut_ok(s),
    ensures
        split_chars_spec(s) matches Some(k) ==> 0 < k <= s.len(),
{
    lemma_blank_line_bound(s, 0);
    if blank_line_from(s, 0) is None && utf8_len(s) > 500 {
        let k = cut_at_500(s)->0;
        assert(0 <= k <= s.len() && utf8_len(s.subrange(0, k)) == 500);
        assert(s.subrange(0, 0) =~= Seq::<char>::empty());
        assert(k != 0);
        lemma_last_before_bound(s, '\n', k);
        lemma_last_before_bound(s, '。', k);
        lemma_last_before_bound(s, '.', k);
    }
}

proof fn lemma_blank_line_bound(s: Seq<char>, from: int)
    requires
        0 <= from,
    ensures
        blank_line_from(s, from) matches Some(p) ==> from <= p && p + 1 < s.len(),
    decreases s.len() - from,
{
    if from + 1 < s.len() && !(s[from] == '\n' && s[from + 1] == '\n') {
        lemma_blank_line_bound(s, from + 1);
    }
}

/// Where the next message ends in `s`, in characters.
fn split_point_chars(s: &Vec<char>) -> (r: Option<usize>)
    requires
        cut_ok(s@),
    ensures
        match r {
            Some(k) => split_chars_spec(s@) == Some(k as int) && 0 < k <= s.len(),
            None => split_chars_spec(s@) is None,
        },
{
    proof { lemma_split_range(s@); }
    if let Some(p) = blank_line(s) {
        proof { lemma_blank_line_bound(s@, 0); }
        return Some(p + 2);
    }
    let (bytes, cut) = prefix_500(s);
    proof { lemma_cut(s@, cut as int); }
    let over = bytes > 500 || (bytes == 500 && cut < s.len());
    if !over {
        return None;
    }
    if let Some(p) = last_index(s, '\n', cut) {
        return Some(p + 1);
    }
    if let Some(p) = last_index(s, '。', cut) {
        return Some(p + 1);
    }
    if let Some(p) = last_index(s, '.', cut) {
        return Some(p + 1);
    }
    Some(cut)
}

/// The byte length of the first `k` characters of `s`.
fn utf8_prefix_len(s: &Vec<char>, k: usize) -> (n: usize)
    requires
        k <= s.len(),
        utf8_len(s@) <= usize::MAX,
    ensures
        n == utf8_len(s@.subrange(0, k as int)),
{
    let mut n: usize = 0;
    let mut i: usize = 0;
    assert(s@.subrange(0, 0) =~= Seq::<char>::empty());
    assert(s@.subrange(0, s.len() as int) =~= s@);
    while i < k
        invariant
            i <= k <= s.len(),
            n == utf8_len(s@.subrange(0, i as int)),
            utf8_len(s@.subrange(0, s.len() as int)) <= usize::MAX,
        decreases k - i,
    {
        proof {
            lemma_utf8_len_prefix(s@, i as int);
            lemma_utf8_len_mono(s@, i + 1, s.len() as int);
        }
        n = n + width(s[i]);
        i += 1;
    }
    n
}

/// The byte offset at which the next message ends, if one is ready: after the
/// first blank line; else, when more than 500 bytes wait, after the last line
/// break, `。` or `.` within the first 500 bytes, or at byte 500.
pub fn find_split_point(buffer: &str) -> (r: Option<usize>)
    requires
        cut_ok(buffer@),
        utf8_len(buffer@) <= usize::MAX,
    ensures
        match split_chars_spec(buffer@) {
            Some(k) => r == Some(utf8_len(buffer@.subrange(0, k)) as usize),
            None => r is None,
        },
{
    let v = chars_of(buffer);
    match split_point_chars(&v) {
        Some(k) => Some(utf8_prefix_len(&v, k)),
        None => None,
    }
}

/// Messages cut from the front of `s` (trimmed, empty ones dropped) and what
/// is left waiting.
pub open spec fn drain_spec(s: Seq<char>) -> (Seq<Seq<char>>, Seq<char>)
    decreases s.len(),
{
    match split_chars_spec(s) {
        Some(k) => if 0 < k <= s.len() {
            let piece = trim_spec(s.subrange(0, k));
            let rest = drain_spec(s.subrange(k, s.len() as int));
            (if piece.len() > 0 { seq![piece] + rest.0 } else { rest.0 }, rest.1)
        } else {
            (Seq::empty(), s)
        },
        None => (Seq::empty(), s),
    }
}

/// Every cut that draining makes stays off the middle of a character.
pub open spec fn drain_ok(s: Seq<char>) -> bool
    decreases s.len(),
{
    cut_ok(s) && match split_chars_spec(s) {
        Some(k) => if 0 < k <= s.len() { drain_ok(s.subrange(k, s.len() as int)) } else { true },
        None => true,
    }
}

/// Takes every ready message off the front of `buffer`: the trimmed, non-empty
/// pieces in order; `buffer` keeps the rest.
pub fn drain_ready_chunks(buffer: &mut String) -> (chunks: Vec<String>)
    requires
        drain_ok(old(buffer)@),
    ensures
        strings_of(chunks@) == drain_spec(old(buffer)@).0,
        final(buffer)@ == drain_spec(old(buffer)@).1,
{
    let mut cur = chars_of(buffer.as_str());
    let ghost orig = cur@;
    let mut chunks: Vec<String> = Vec::new();
    assert(strings_of(chunks@) + drain_spec(cur@).0 =~= drain_spec(orig).0);
    loop
        invariant
            drain_ok(cur@),
            strings_of(chunks@) + drain_spec(cur@).0 == drain_spec(orig).0,
            drain_spec(cur@).1 == drain_spec(orig).1,
        ensures
            drain_spec(cur@).0.len() == 0,
            drain_spec(cur@).1 == cur@,
            strings_of(chunks@) + drain_spec(cur@).0 == drain_spec(orig).0,
            drain_spec(cur@).1 == drain_spec(orig).1,
        decreases cur.len(),
    {
        match split_point_chars(&cur) {
            Some(k) => {
                let mut head: Vec<char> = Vec::new();
                let mut tail: Vec<char> = Vec::new();
                let mut i: usize = 0;
                while i < cur.len()
                    invariant
                        0 < k <= cur.len(),
                        i <= cur.len(),
                        i <= k ==> head@ == cur@.subrange(0, i as int) && tail@.len() == 0,
                        i > k ==> head@ == cur@.subrange(0, k as int) && tail@ == cur@.subrange(k as int, i as int),
                    decreases cur.len() - i,
                {
                    if i < k {
                        head.push(cur[i]);
                    } else {
                        tail.push(cur[i]);
                    }
                    i += 1;
                }
                assert(tail@ =~= cur@.subrange(k as int, cur.len() as int));
                let piece = trim_chars(&head);
                let ghost old_chunks = strings_of(chunks@);
                if piece.len() > 0 {
                    let ps = string_of(&piece);
                    chunks.push(ps);
                    assert(strings_of(chunks@) =~= old_chunks.push(piece@));
                    assert(old_chunks + seq![piece@] + drain_spec(tail@).0 =~= old_chunks + (seq![piece@] + drain_spec(tail@).0));
                }
                cur = tail;
            },
            None => {
                assert(drain_spec(cur@) == (Seq::<Seq<char>>::empty(), cur@));
                break;
            },
        }
    }
    assert(drain_spec(cur@).0 =~= Seq::<Seq<char>>::empty());
    assert(strings_of(chunks@) =~= strings_of(chunks@) + drain_spec(cur@).0);
    *buffer = string_of(&cur);
    chunks
}

pub open spec fn strings_of(v: Seq<String>) -> Seq<Seq<char>> {
    v.map_values(|s: String| s@)
}

/// After draining, no message is ready in what is left, and every message
/// handed out is non-empty.
pub proof fn law_drain_complete(s: Seq<char>)
    requires
        drain_ok(s),
    ensures
        split_chars_spec(drain_spec(s).1) is None,
        forall|i: int| 0 <= i < drain_spec(s).0.len() ==> #[trigger] drain_spec(s).0[i].len() > 0,
    decreases s.len(),
{
    lemma_split_range(s);
    match split_chars_spec(s) {
        Some(k) => {
            let tail = s.subrange(k, s.len() as int);
            law_drain_complete(tail);
            let piece = trim_spec(s.subrange(0, k));
            if piece.len() > 0 {
                assert forall|i: int| 0 <= i < drain_spec(s).0.len() implies #[trigger] drain_spec(s).0[i].len() > 0 by {
                    if i > 0 {
                        assert(drain_spec(s).0[i] == drain_spec(tail).0[i - 1]);
                    }
                }
            }
        },
        None => {},
    }
}

/// Whether `s` takes more than `limit` bytes in UTF-8.
pub fn utf8_len_exceeds(s: &Vec<char>, limit: usize) -> (b: bool)
    requires
        limit < usize::MAX - 4,
    ensures
        b == (utf8_len(s@) > limit),
{
    let mut acc: usize = 0;
    let mut i: usize = 0;
    assert(s@.subrange(0, 0) =~= Seq::<char>::empty());
    while i < s.len() && acc <= limit
        invariant
            i <= s.len(),
            limit < usize::MAX - 4,
            acc == utf8_len(s@.subrange(0, i as int)),
            acc <= limit + 4,
        decreases s.len() - i,
    {
        proof { lemma_utf8_len_prefix(s@, i as int); }
        acc = acc + width(s[i]);
        i += 1;
    }
    proof {
        assert(s@.subrange(0, s.len() as int) =~= s@);
        if i < s.len() {
            lemma_utf8_len_mono(s@, i as int, s.len() as int);
        }
    }
    acc > limit
}

fn cut_ok_exec(s: &Vec<char>) -> (b: bool)
    ensures
        b == cut_ok(s@),
{
    if blank_line(s).is_some() {
        return true;
    }
    let (bytes, cut) = prefix_500(s);
    proof { lemma_cut(s@, cut as int); }
    let over = bytes > 500 || (bytes == 500 && cut < s.len());
    !over || bytes == 500
}

/// Whether draining `buffer` keeps every cut off the middle of a character
/// (where it would not, cutting at byte 500 panics).
pub fn drain_safe(buffer: &str) -> (b: bool)
    ensures
        b == drain_ok(buffer@),
{
    let mut cur = chars_of(buffer);
    loop
        invariant
            drain_ok(cur@) == drain_ok(buffer@),
        decreases cur.len(),
    {
        if !cut_ok_exec(&cur) {
            return false;
        }
        match split_point_chars(&cur) {
            Some(k) => {
                let mut tail: Vec<char> = Vec::new();
                let mut i: usize = k;
                while i < cur.len()
                    invariant
                        0 < k <= i <= cur.len(),
                        tail@ == cur@.subrange(k as int, i as int),
                    decreases cur.len() - i,
                {
                    tail.push(cur[i]);
                    i += 1;
                }
                cur = tail;
            },
            None => {
                return true;
            },
        }
    }
}

} // verus!

