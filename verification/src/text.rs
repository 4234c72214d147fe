//! Character-level helpers over `Seq<char>` shared by the other modules.

use vstd::prelude::*;

verus! {

/// Appends one character to a string.
#[verifier::external_body]
pub(crate) fn push_char(s: &mut String, c: char)
    ensures
        final(s)@ == old(s)@.push(c),
{
    s.push(c);
}

/// Whether `c` has the Unicode `White_Space` property (what `char::is_whitespace` tests).
pub open spec fn is_ws(c: char) -> bool {
    ||| ('\u{9}' <= c && c <= '\u{d}')
    ||| c == ' '
    ||| c == '\u{85}'
    ||| c == '\u{a0}'
    ||| c == '\u{1680}'
    ||| ('\u{2000}' <= c && c <= '\u{200a}')
    ||| c == '\u{2028}'
    ||| c == '\u{2029}'
    ||| c == '\u{202f}'
    ||| c == '\u{205f}'
    ||| c == '\u{3000}'
}

pub fn is_whitespace(c: char) -> (b: bool)
    ensures
        b == is_ws(c),
{
    ('\u{9}' <= c && c <= '\u{d}') || c == ' ' || c == '\u{85}' || c == '\u{a0}' || c == '\u{1680}'
        || ('\u{2000}' <= c && c <= '\u{200a}') || c == '\u{2028}' || c == '\u{2029}' || c
        == '\u{202f}' || c == '\u{205f}' || c == '\u{3000}'
}


/// The characters of `s`, in order.
pub fn chars_of(s: &str) -> (v: Vec<char>)
    ensures
        v@ == s@,
{
    let mut v: Vec<char> = Vec::new();
    for c in it: s.chars()
        invariant
            v@ == it.seq().subrange(0, it.index() as int),
    {
        v.push(c);
    }
    v
}

/// A string holding exactly the characters of `v`.
pub fn string_of(v: &Vec<char>) -> (s: String)
    ensures
        s@ == v@,
{
    let mut s = String::new();
    let mut i: usize = 0;
    while i < v.len()
        invariant
            i <= v.len(),
            s@ == v@.subrange(0, i as int),
        decreases v.len() - i,
    {
        push_char(&mut s, v[i]);
        i += 1;
    }
    s
}


/// `s` without its leading white space.
pub open spec fn trim_start_spec(s: Seq<char>) -> Seq<char>
    decreases s.len(),
{
    if s.len() > 0 && is_ws(s[0]) {
        trim_start_spec(s.drop_first())
    } else {
        s
    }
}

/// `s` without its trailing white space.
pub open spec fn trim_end_spec(s: Seq<char>) -> Seq<char>
    decreases s.len(),
{
    if s.len() > 0 && is_ws(s.last()) {
        trim_end_spec(s.drop_last())
    } else {
        s
    }
}

/// `s` without white space at either end (what `str::trim` gives).
pub open spec fn trim_spec(s: Seq<char>) -> Seq<char> {
    trim_end_spec(trim_start_spec(s))
}

/// Trims white space from both ends of `v`.
pub fn trim_chars(v: &Vec<char>) -> (r: Vec<char>)
    ensures
        r@ == trim_spec(v@),
{
    let n = v.len();
    let mut lo: usize = 0;
    assert(v@.subrange(0, n as int) =~= v@);
    while lo < n && is_whitespace(v[lo])
        invariant
            lo <= n,
            n == v.len(),
            trim_start_spec(v@) == trim_start_spec(v@.subrange(lo as int, n as int)),
        decreases n - lo,
    {
        assert(v@.subrange(lo as int, n as int).drop_first() =~= v@.subrange(lo + 1, n as int));
        lo += 1;
    }
    let ghost start = v@.subrange(lo as int, n as int);
    assert(trim_start_spec(start) == start);
    let mut hi: usize = n;
    while hi > lo && is_whitespace(v[hi - 1])
        invariant
            lo <= hi <= n,
            n == v.len(),
            start == v@.subrange(lo as int, n as int),
            trim_end_spec(start) == trim_end_spec(v@.subrange(lo as int, hi as int)),
        decreases hi - lo,
    {
        assert(v@.subrange(lo as int, hi as int).drop_last() =~= v@.subrange(lo as int, hi - 1));
        hi -= 1;
    }
    let mut r: Vec<char> = Vec::new();
    let mut i = lo;
    while i < hi
        invariant
            lo <= i <= hi <= n,
            n == v.len(),
            r@ == v@.subrange(lo as int, i as int),
        decreases hi - i,
    {
        r.push(v[i]);
        i += 1;
    }
    r
}

/// `str::trim`, as an owned string.
pub fn trim(s: &str) -> (r: String)
    ensures
        r@ == trim_spec(s@),
{
    let v = chars_of(s);
    let t = trim_chars(&v);
    string_of(&t)
}

/// ASCII upper-case letters mapped to lower case; every other character unchanged.
pub open spec fn ascii_lower_char(c: char) -> char {
    if 'A' <= c && c <= 'Z' {
        ((c as u32) + 32) as char
    } else {
        c
    }
}

pub open spec fn ascii_lower_spec(s: Seq<char>) -> Seq<char> {
    s.map_values(|c: char| ascii_lower_char(c))
}

pub fn to_ascii_lower_char(c: char) -> (r: char)
    ensures
        r == ascii_lower_char(c),
{
    if 'A' <= c && c <= 'Z' {
        let u: u8 = (c as u8) + 32;
        u as char
    } else {
        c
    }
}

/// `str::to_ascii_lowercase`.
pub fn to_ascii_lowercase(s: &str) -> (r: String)
    ensures
        r@ == ascii_lower_spec(s@),
{
    let v = chars_of(s);
    let mut r = String::new();
    let mut i: usize = 0;
    while i < v.len()
        invariant
            i <= v.len(),
            v@ == s@,
            r@ == ascii_lower_spec(v@.subrange(0, i as int)),
        decreases v.len() - i,
    {
        let c = to_ascii_lower_char(v[i]);
        push_char(&mut r, c);
        assert(ascii_lower_spec(v@.subrange(0, i + 1)) =~= ascii_lower_spec(v@.subrange(0, i as int)).push(c));
        i += 1;
    }
    assert(v@.subrange(0, v.len() as int) =~= v@);
    r
}


pub open spec fn starts_with_spec(s: Seq<char>, p: Seq<char>) -> bool {
    s.len() >= p.len() && s.subrange(0, p.len() as int) == p
}

pub open spec fn ends_with_spec(s: Seq<char>, p: Seq<char>) -> bool {
    s.len() >= p.len() && s.subrange(s.len() - p.len(), s.len() as int) == p
}

/// `p` occurs in `s` starting at index `i`.
pub open spec fn occurs_at(s: Seq<char>, p: Seq<char>, i: int) -> bool {
    0 <= i && i + p.len() <= s.len() && s.subrange(i, i + p.len()) == p
}

pub open spec fn contains_spec(s: Seq<char>, p: Seq<char>) -> bool {
    exists|i: int| occurs_at(s, p, i)
}

/// Whether `a[from..from + b.len()]` equals `b`.
pub fn matches_at(a: &Vec<char>, from: usize, b: &Vec<char>) -> (r: bool)
    requires
        from <= a.len(),
    ensures
        r == (from + b.len() <= a.len() && a@.subrange(from as int, from + b.len()) == b@),
{
    if b.len() > a.len() - from {
        return false;
    }
    let mut i: usize = 0;
    while i < b.len()
        invariant
            from + b.len() <= a.len(),
            i <= b.len(),
            forall|j: int| 0 <= j < i ==> a@[from + j] == b@[j],
        decreases b.len() - i,
    {
        if a[from + i] != b[i] {
            assert(a@.subrange(from as int, from + b.len())[i as int] != b@[i as int]);
            return false;
        }
        i += 1;
    }
    assert(a@.subrange(from as int, from + b.len()) =~= b@);
    true
}

pub fn eq_str(a: &Vec<char>, b: &str) -> (r: bool)
    ensures
        r == (a@ == b@),
{
    let bv = chars_of(b);
    if a.len() != bv.len() {
        return false;
    }
    let r = matches_at(a, 0, &bv);
    assert(a@.subrange(0, bv.len() as int) =~= a@);
    r
}

pub fn starts_with_str(a: &Vec<char>, p: &str) -> (r: bool)
    ensures
        r == starts_with_spec(a@, p@),
{
    let pv = chars_of(p);
    matches_at(a, 0, &pv)
}

pub fn ends_with_str(a: &Vec<char>, p: &str) -> (r: bool)
    ensures
        r == ends_with_spec(a@, p@),
{
    let pv = chars_of(p);
    if pv.len() > a.len() {
        return false;
    }
    matches_at(a, a.len() - pv.len(), &pv)
}

/// Index of the first occurrence of `p` in `a`, if any.
pub fn find_chars(a: &Vec<char>, p: &Vec<char>) -> (r: Option<usize>)
    ensures
        match r {
            Some(i) => occurs_at(a@, p@, i as int) && forall|j: int| 0 <= j < i ==> !occurs_at(a@, p@, j),
            None => !contains_spec(a@, p@),
        },
{
    if p.len() > a.len() {
        assert forall|j: int| !occurs_at(a@, p@, j) by {}
        return None;
    }
    let last = a.len() - p.len();
    let mut i: usize = 0;
    while i < last
        invariant
            last == a.len() - p.len(),
            p.len() <= a.len(),
            i <= last,
            forall|j: int| 0 <= j < i ==> !occurs_at(a@, p@, j),
        decreases last - i,
    {
        if matches_at(a, i, p) {
            return Some(i);
        }
        i += 1;
    }
    if matches_at(a, last, p) {
        return Some(last);
    }
    assert forall|j: int| !occurs_at(a@, p@, j) by {
        if 0 <= j && j + p.len() <= a.len() {
            assert(j <= last);
        }
    }
    None
}

pub fn contains_str(a: &Vec<char>, p: &str) -> (r: bool)
    ensures
        r == contains_spec(a@, p@),
{
    let pv = chars_of(p);
    find_chars(a, &pv).is_some()
}


/// The pieces of `s` between occurrences of `d` (what `str::split(d)` yields).
pub open spec fn split_spec(s: Seq<char>, d: char) -> Seq<Seq<char>>
    decreases s.len(),
{
    if s.len() == 0 {
        seq![Seq::<char>::empty()]
    } else {
        let pre = split_spec(s.drop_last(), d);
        if s.last() == d {
            pre.push(Seq::<char>::empty())
        } else {
            pre.update(pre.len() - 1, pre.last().push(s.last()))
        }
    }
}

pub proof fn lemma_split_nonempty(s: Seq<char>, d: char)
    ensures
        split_spec(s, d).len() >= 1,
    decreases s.len(),
{
    if s.len() > 0 {
        lemma_split_nonempty(s.drop_last(), d);
    }
}

/// Splits `v` at every `d`.
pub fn split_chars(v: &Vec<char>, d: char) -> (parts: Vec<Vec<char>>)
    ensures
        parts.len() == split_spec(v@, d).len(),
        forall|j: int| 0 <= j < parts.len() ==> #[trigger] parts@[j]@ == split_spec(v@, d)[j],
{
    let mut parts: Vec<Vec<char>> = Vec::new();
    let mut cur: Vec<char> = Vec::new();
    let mut i: usize = 0;
    let ghost mut g: Seq<Seq<char>> = Seq::empty();
    assert(v@.subrange(0, 0) =~= Seq::<char>::empty());
    assert(g.push(cur@) =~= split_spec(v@.subrange(0, 0), d));
    while i < v.len()
        invariant
            i <= v.len(),
            g.push(cur@) == split_spec(v@.subrange(0, i as int), d),
            parts.len() == g.len(),
            forall|j: int| 0 <= j < parts.len() ==> #[trigger] parts@[j]@ == g[j],
        decreases v.len() - i,
    {
        let c = v[i];
        let ghost prefix = v@.subrange(0, i as int);
        assert(v@.subrange(0, i + 1).drop_last() =~= prefix);
        assert(v@.subrange(0, i + 1).last() == c);
        if c == d {
            proof {
                g = g.push(cur@);
            }
            let done = cur;
            parts.push(done);
            cur = Vec::new();
            assert(g.push(cur@) =~= split_spec(prefix, d).push(Seq::<char>::empty()));
        } else {
            let ghost old_cur = cur@;
            cur.push(c);
            assert(g.push(cur@) =~= g.push(old_cur).update(g.len() as int, old_cur.push(c)));
        }
        i += 1;
    }
    proof {
        g = g.push(cur@);
    }
    let tail = cur;
    parts.push(tail);
    assert(v@.subrange(0, v.len() as int) =~= v@);
    parts
}

pub open spec fn is_digit(c: char) -> bool {
    '0' <= c && c <= '9'
}

pub open spec fn all_digits(s: Seq<char>) -> bool {
    forall|i: int| 0 <= i < s.len() ==> is_digit(#[trigger] s[i])
}

/// The decimal value of a string of ASCII digits.
pub open spec fn digits_value(s: Seq<char>) -> nat
    decreases s.len(),
{
    if s.len() == 0 {
        0
    } else {
        digits_value(s.drop_last()) * 10 + ((s.last() as int) - ('0' as int)) as nat
    }
}

/// The value of a run of at most `max` ASCII digits.
pub fn small_digits_value(v: &Vec<char>) -> (r: u32)
    requires
        v.len() <= 3,
        all_digits(v@),
    ensures
        r == digits_value(v@),
{
    let mut r: u32 = 0;
    let mut i: usize = 0;
    while i < v.len()
        invariant
            i <= v.len() <= 3,
            all_digits(v@),
            r == digits_value(v@.subrange(0, i as int)),
            i == 0 ==> r == 0,
            i == 1 ==> r < 10,
            i == 2 ==> r < 100,
            i == 3 ==> r < 1000,
        decreases v.len() - i,
    {
        assert(v@.subrange(0, i + 1).drop_last() =~= v@.subrange(0, i as int));
        assert(is_digit(v@[i as int]));
        let d = (v[i] as u32) - ('0' as u32);
        assert(i == 0 || i == 1 || i == 2);
        r = r * 10 + d;
        i += 1;
    }
    assert(v@.subrange(0, v.len() as int) =~= v@);
    r
}

pub open spec fn digit_char(d: nat) -> char {
    (('0' as u32) + d) as char
}

/// The decimal representation of `n`, without leading zeros.
pub open spec fn decimal_spec(n: nat) -> Seq<char>
    decreases n,
{
    if n < 10 {
        seq![digit_char(n)]
    } else {
        decimal_spec(n / 10).push(digit_char(n % 10))
    }
}

/// `n.to_string()`.
pub fn decimal(n: u64) -> (s: String)
    ensures
        s@ == decimal_spec(n as nat),
    decreases n,
{
    let d = n % 10;
    let c = (('0' as u8) + (d as u8)) as char;
    if n < 10 {
        let mut s = String::new();
        push_char(&mut s, c);
        assert(s@ =~= seq![digit_char(n as nat)]);
        s
    } else {
        let mut s = decimal(n / 10);
        push_char(&mut s, c);
        s
    }
}

/// Concatenation of two strings.
pub fn concat_str(a: &str, b: &str) -> (r: String)
    ensures
        r@ == a@ + b@,
{
    let mut v = chars_of(a);
    let w = chars_of(b);
    let ghost a0 = v@;
    let mut i: usize = 0;
    while i < w.len()
        invariant
            i <= w.len(),
            v@ == a0 + w@.subrange(0, i as int),
        decreases w.len() - i,
    {
        v.push(w[i]);
        i += 1;
    }
    assert(w@.subrange(0, w.len() as int) =~= w@);
    string_of(&v)
}

pub open spec fn take_spec(s: Seq<char>, n: nat) -> Seq<char> {
    if s.len() <= n { s } else { s.subrange(0, n as int) }
}

/// The first `n` characters of `v` (all of them when shorter).
pub fn take_chars_vec(v: &Vec<char>, n: usize) -> (r: Vec<char>)
    ensures
        r@ == take_spec(v@, n as nat),
{
    let mut out: Vec<char> = Vec::new();
    let mut i: usize = 0;
    while i < v.len() && i < n
        invariant
            i <= v.len(),
            i <= n,
            out@ == v@.subrange(0, i as int),
        decreases v.len() - i,
    {
        out.push(v[i]);
        i += 1;
    }
    assert(v@.subrange(0, v.len() as int) =~= v@);
    out
}

/// Joins `parts` with `sep` between them.
pub open spec fn join_spec(parts: Seq<Seq<char>>, sep: Seq<char>) -> Seq<char>
    decreases parts.len(),
{
    if parts.len() == 0 {
        Seq::empty()
    } else if parts.len() == 1 {
        parts[0]
    } else {
        join_spec(parts.drop_last(), sep) + sep + parts.last()
    }
}

pub open spec fn strings_view(v: Seq<String>) -> Seq<Seq<char>> {
    v.map_values(|s: String| s@)
}

/// `parts.join(sep)`.
pub fn join(parts: &Vec<String>, sep: &str) -> (r: String)
    ensures
        r@ == join_spec(strings_view(parts@), sep@),
{
    let sv = chars_of(sep);
    let mut out: Vec<char> = Vec::new();
    let mut i: usize = 0;
    while i < parts.len()
        invariant
            i <= parts.len(),
            sv@ == sep@,
            out@ == join_spec(strings_view(parts@.subrange(0, i as int)), sep@),
        decreases parts.len() - i,
    {
        let pv = chars_of(parts[i].as_str());
        let ghost prev = out@;
        if i > 0 {
            let mut k: usize = 0;
            while k < sv.len()
                invariant
                    k <= sv.len(),
                    out@ == prev + sv@.subrange(0, k as int),
                decreases sv.len() - k,
            {
                out.push(sv[k]);
                k += 1;
            }
            assert(sv@.subrange(0, sv.len() as int) =~= sv@);
        }
        let ghost mid = out@;
        let mut k: usize = 0;
        while k < pv.len()
            invariant
                k <= pv.len(),
                out@ == mid + pv@.subrange(0, k as int),
            decreases pv.len() - k,
        {
            out.push(pv[k]);
            k += 1;
        }
        assert(pv@.subrange(0, pv.len() as int) =~= pv@);
        proof {
            let sub = strings_view(parts@.subrange(0, i + 1));
            assert(sub.drop_last() =~= strings_view(parts@.subrange(0, i as int)));
            assert(sub.last() == parts@[i as int]@);
            if i == 0 {
                assert(sub.len() == 1);
                assert(out@ =~= sub[0]);
            }
        }
        i += 1;
    }
    assert(parts@.subrange(0, parts.len() as int) =~= parts@);
    string_of(&out)
}

/// The order of strings: lexicographic by code point, a proper prefix first
/// (the order of `String`, whose UTF-8 bytes sort as their code points do).
pub open spec fn seq_lt(a: Seq<char>, b: Seq<char>) -> bool
    decreases a.len(),
{
    if a.len() == 0 {
        b.len() > 0
    } else if b.len() == 0 {
        false
    } else if a[0] != b[0] {
        (a[0] as int) < (b[0] as int)
    } else {
        seq_lt(a.drop_first(), b.drop_first())
    }
}

pub proof fn lemma_lt_transitive(a: Seq<char>, b: Seq<char>, c: Seq<char>)
    requires
        seq_lt(a, b),
        seq_lt(b, c),
    ensures
        seq_lt(a, c),
    decreases a.len(),
{
    if a.len() > 0 && b.len() > 0 && c.len() > 0 && a[0] == b[0] && b[0] == c[0] {
        lemma_lt_transitive(a.drop_first(), b.drop_first(), c.drop_first());
    }
}

pub proof fn lemma_lt_total(a: Seq<char>, b: Seq<char>)
    requires
        a != b,
    ensures
        seq_lt(a, b) || seq_lt(b, a),
    decreases a.len(),
{
    if a.len() == 0 {
        if b.len() == 0 {
            assert(a =~= b);
        }
    } else if b.len() > 0 && a[0] == b[0] {
        if a.drop_first() == b.drop_first() {
            assert(a =~= seq![a[0]] + a.drop_first());
            assert(b =~= seq![b[0]] + b.drop_first());
        }
        lemma_lt_total(a.drop_first(), b.drop_first());
    }
}

/// Whether `a` sorts before `b`.
pub fn str_lt(a: &Vec<char>, b: &Vec<char>) -> (r: bool)
    ensures
        r == seq_lt(a@, b@),
{
    let mut i: usize = 0;
    assert(a@.skip(0) =~= a@);
    assert(b@.skip(0) =~= b@);
    while i < a.len() && i < b.len()
        invariant
            i <= a.len(),
            i <= b.len(),
            seq_lt(a@, b@) == seq_lt(a@.skip(i as int), b@.skip(i as int)),
        decreases a.len() - i,
    {
        let x = a[i];
        let y = b[i];
        assert(a@.skip(i as int)[0] == x);
        assert(b@.skip(i as int)[0] == y);
        if x != y {
            return x < y;
        }
        assert(a@.skip(i as int).drop_first() =~= a@.skip(i + 1));
        assert(b@.skip(i as int).drop_first() =~= b@.skip(i + 1));
        i += 1;
    }
    i < b.len()
}

/// Whether `s` is strictly increasing.
pub open spec fn sorted_strict(s: Seq<Seq<char>>) -> bool {
    forall|i: int, j: int| 0 <= i < j < s.len() ==> seq_lt(#[trigger] s[i], #[trigger] s[j])
}

/// `line` without its last character when that is a carriage return.
pub open spec fn strip_cr(line: Seq<char>) -> Seq<char> {
    if line.len() > 0 && line.last() == '\r' { line.drop_last() } else { line }
}

/// The lines of `s` as `str::lines` yields them: split at `\n`, with a `\r`
/// before the `\n` removed; a final empty piece (after a last newline, or of
/// an empty string) is no line.
pub open spec fn lines_spec(s: Seq<char>) -> Seq<Seq<char>> {
    let parts = split_spec(s, '\n');
    let init = parts.drop_last().map_values(|p: Seq<char>| strip_cr(p));
    if parts.last().len() == 0 { init } else { init.push(parts.last()) }
}

/// `s.lines()`.
pub fn lines_of(s: &str) -> (lines: Vec<String>)
    ensures
        strings_view(lines@) == lines_spec(s@),
{
    let v = chars_of(s);
    let parts = split_chars(&v, '\n');
    proof {
        lemma_split_nonempty(v@, '\n');
    }
    let ghost sp = split_spec(v@, '\n');
    let n = parts.len();
    let mut out: Vec<String> = Vec::new();
    let mut i: usize = 0;
    while i + 1 < n
        invariant
            n == parts.len(),
            n == sp.len(),
            n >= 1,
            i + 1 <= n,
            forall|j: int| 0 <= j < n ==> #[trigger] parts@[j]@ == sp[j],
            strings_view(out@) == sp.drop_last().subrange(0, i as int).map_values(|p: Seq<char>| strip_cr(p)),
        decreases n - i,
    {
        let part = &parts[i];
        let line = if part.len() > 0 && part[part.len() - 1] == '\r' {
            let mut t = part.clone();
            t.pop();
            proof {
                assert(t@ =~= part@.drop_last());
            }
            string_of(&t)
        } else {
            string_of(part)
        };
        let ghost before = out@;
        out.push(line);
        proof {
            assert(strings_view(out@) =~= strings_view(before).push(strip_cr(sp[i as int])));
            assert(sp.drop_last().subrange(0, i + 1).map_values(|p: Seq<char>| strip_cr(p))
                =~= sp.drop_last().subrange(0, i as int).map_values(|p: Seq<char>| strip_cr(p)).push(strip_cr(sp[i as int])));
        }
        i += 1;
    }
    assert(sp.drop_last().subrange(0, i as int) =~= sp.drop_last());
    let last = &parts[n - 1];
    if last.len() > 0 {
        let ghost before = out@;
        out.push(string_of(last));
        assert(strings_view(out@) =~= strings_view(before).push(sp.last()));
    }
    out
}

} // verus!

