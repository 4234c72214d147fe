//! Normalisation and the two-tier safety check of built-in browser preview URLs.
//!
//! Automatic navigation (chat detection, auto-follow, agent requests) may only
//! open local development addresses; navigation the user asks for may also open
//! public http(s) sites. Link-local and cloud metadata addresses are refused in
//! every tier.

use vstd::prelude::*;
use crate::text::{
    all_digits, ascii_lower_spec, chars_of, digits_value, ends_with_spec, ends_with_str, eq_str,
    is_digit, small_digits_value, split_chars, split_spec, string_of, to_ascii_lowercase, trim,
    trim_spec, contains_spec, contains_str, lemma_split_nonempty, trim_start_spec, trim_end_spec,
    is_ws, ascii_lower_char,
};

verus! {

/// Where a navigation request comes from.
#[derive(Debug, Clone, Copy, PartialEq, Eq, Structural)]
pub enum PreviewOrigin {
    /// Chat stream detection, auto-follow or an agent action.
    Auto,
    /// Typed into the address bar or clicked inside the page by the user.
    User,
}

/// `s` without leading copies of `c`.
pub open spec fn strip_leading(s: Seq<char>, c: char) -> Seq<char>
    decreases s.len(),
{
    if s.len() > 0 && s[0] == c {
        strip_leading(s.drop_first(), c)
    } else {
        s
    }
}

/// `s` without trailing copies of `c`.
pub open spec fn strip_trailing(s: Seq<char>, c: char) -> Seq<char>
    decreases s.len(),
{
    if s.len() > 0 && s.last() == c {
        strip_trailing(s.drop_last(), c)
    } else {
        s
    }
}

pub open spec fn strip_brackets_spec(s: Seq<char>) -> Seq<char> {
    strip_trailing(strip_leading(s, '['), ']')
}

/// The form of a host name that the policy compares: trimmed, without IPv6
/// brackets, ASCII lower case.
pub open spec fn host_key(h: Seq<char>) -> Seq<char> {
    ascii_lower_spec(strip_brackets_spec(trim_spec(h)))
}

/// One dotted-quad field: one to three ASCII digits whose value fits a byte.
pub open spec fn octet_ok(p: Seq<char>) -> bool {
    1 <= p.len() <= 3 && all_digits(p) && digits_value(p) <= 255
}

/// The four octets of a dotted-quad IPv4 address, or `None` when `h` is not one.
pub open spec fn ipv4_spec(h: Seq<char>) -> Option<Seq<int>> {
    let parts = split_spec(h, '.');
    if parts.len() == 4 && (forall|i: int| 0 <= i < 4 ==> octet_ok(#[trigger] parts[i])) {
        Some(Seq::new(4, |i: int| digits_value(parts[i]) as int))
    } else {
        None
    }
}

/// Local addresses: localhost, `*.localhost`, `host.docker.internal`, `*.local`,
/// `::1`, the bind-all addresses, and 127/8, 10/8, 172.16/12, 192.168/16.
pub open spec fn local_key(host: Seq<char>) -> bool {
    ||| host == "localhost"@
    ||| ends_with_spec(host, ".localhost"@)
    ||| host == "host.docker.internal"@
    ||| ends_with_spec(host, ".local"@)
    ||| host == "::1"@
    ||| host == "0.0.0.0"@
    ||| host == "::"@
    ||| match ipv4_spec(host) {
        Some(o) => o[0] == 10 || o[0] == 127 || (o[0] == 172 && 16 <= o[1] <= 31) || (o[0] == 192
            && o[1] == 168),
        None => false,
    }
}

/// Probe targets refused in every tier: the GCP metadata names and 169.254/16.
pub open spec fn blocked_key(host: Seq<char>) -> bool {
    ||| host == "metadata.google.internal"@
    ||| host == "metadata.goog"@
    ||| match ipv4_spec(host) {
        Some(o) => o[0] == 169 && o[1] == 254,
        None => false,
    }
}

pub open spec fn is_local_host_spec(hostname: Seq<char>) -> bool {
    local_key(host_key(hostname))
}

pub open spec fn is_blocked_host_spec(hostname: Seq<char>) -> bool {
    blocked_key(host_key(hostname))
}

fn strip_brackets(v: &Vec<char>) -> (r: Vec<char>)
    ensures
        r@ == strip_brackets_spec(v@),
{
    let n = v.len();
    let mut lo: usize = 0;
    assert(v@.subrange(0, n as int) =~= v@);
    while lo < n && v[lo] == '['
        invariant
            lo <= n,
            n == v.len(),
            strip_leading(v@, '[') == strip_leading(v@.subrange(lo as int, n as int), '['),
        decreases n - lo,
    {
        assert(v@.subrange(lo as int, n as int).drop_first() =~= v@.subrange(lo + 1, n as int));
        lo += 1;
    }
    let ghost start = v@.subrange(lo as int, n as int);
    let mut hi: usize = n;
    while hi > lo && v[hi - 1] == ']'
        invariant
            lo <= hi <= n,
            n == v.len(),
            start == v@.subrange(lo as int, n as int),
            strip_trailing(start, ']') == strip_trailing(v@.subrange(lo as int, hi as int), ']'),
        decreases hi - lo,
    {
        assert(v@.subrange(lo as int, hi as int).drop_last() =~= v@.subrange(lo as int, hi - 1));
        hi -= 1;
    }
    let mut r: Vec<char> = Vec::new();
    let mut i = lo;
    while i < hi
        invariant
            lo <= i <= hi <= n,
            n == v.len(),
            r@ == v@.subrange(lo as int, i as int),
        decreases hi - i,
    {
        r.push(v[i]);
        i += 1;
    }
    r
}

fn octet(p: &Vec<char>) -> (r: Option<u8>)
    ensures
        match r {
            Some(b) => octet_ok(p@) && b == digits_value(p@),
            None => !octet_ok(p@),
        },
{
    if p.len() == 0 || p.len() > 3 {
        return None;
    }
    let mut i: usize = 0;
    while i < p.len()
        invariant
            i <= p.len(),
            forall|j: int| 0 <= j < i ==> is_digit(#[trigger] p@[j]),
        decreases p.len() - i,
    {
        if !('0' <= p[i] && p[i] <= '9') {
            return None;
        }
        i += 1;
    }
    let v = small_digits_value(p);
    if v > 255 {
        None
    } else {
        Some(v as u8)
    }
}

fn parse_ipv4(host: &Vec<char>) -> (r: Option<[u8; 4]>)
    ensures
        match r {
            Some(a) => ipv4_spec(host@) == Some(Seq::new(4, |i: int| a@[i] as int)),
            None => ipv4_spec(host@) is None,
        },
{
    let parts = split_chars(host, '.');
    if parts.len() != 4 {
        return None;
    }
    let a = octet(&parts[0]);
    let b = octet(&parts[1]);
    let c = octet(&parts[2]);
    let d = octet(&parts[3]);
    let ghost sp = split_spec(host@, '.');
    assert(parts@[0]@ == sp[0] && parts@[1]@ == sp[1] && parts@[2]@ == sp[2] && parts@[3]@ == sp[3]);
    match (a, b, c, d) {
        (Some(a), Some(b), Some(c), Some(d)) => {
            let arr = [a, b, c, d];
            assert(forall|i: int| 0 <= i < 4 ==> octet_ok(#[trigger] sp[i])) by {
                assert(octet_ok(sp[0]) && octet_ok(sp[1]) && octet_ok(sp[2]) && octet_ok(sp[3]));
            }
            assert(Seq::new(4, |i: int| digits_value(sp[i]) as int) =~= Seq::new(4, |i: int| arr@[i] as int));
            Some(arr)
        },
        _ => {
            assert(!(octet_ok(sp[0]) && octet_ok(sp[1]) && octet_ok(sp[2]) && octet_ok(sp[3])));
            None
        },
    }
}

fn host_key_of(hostname: &str) -> (r: Vec<char>)
    ensures
        r@ == host_key(hostname@),
{
    let t = trim(hostname);
    let tv = chars_of(t.as_str());
    let s = strip_brackets(&tv);
    let sv = string_of(&s);
    let l = to_ascii_lowercase(sv.as_str());
    chars_of(l.as_str())
}

fn local_key_exec(host: &Vec<char>) -> (b: bool)
    ensures
        b == local_key(host@),
{
    if eq_str(host, "localhost") || ends_with_str(host, ".localhost") || eq_str(
        host,
        "host.docker.internal",
    ) || ends_with_str(host, ".local") || eq_str(host, "::1") || eq_str(host, "0.0.0.0")
        || eq_str(host, "::") {
        return true;
    }
    match parse_ipv4(host) {
        Some(o) => o[0] == 10 || o[0] == 127 || (o[0] == 172 && 16 <= o[1] && o[1] <= 31) || (o[0]
            == 192 && o[1] == 168),
        None => false,
    }
}

/// Local network addresses: localhost, `*.localhost`, `host.docker.internal`,
/// `*.local`, `::1`, `0.0.0.0`, `::`, 127.x, 10.x, 172.16–31.x and 192.168.x.
pub fn is_local_preview_host(hostname: &str) -> (b: bool)
    ensures
        b == is_local_host_spec(hostname@),
{
    let host = host_key_of(hostname);
    local_key_exec(&host)
}

/// The hard deny list of probe addresses: link-local 169.254/16 (cloud metadata
/// included) and the GCP metadata host names. Refused whatever the origin.
pub fn is_blocked_probe_host(hostname: &str) -> (b: bool)
    ensures
        b == is_blocked_host_spec(hostname@),
{
    let host = host_key_of(hostname);
    if eq_str(&host, "metadata.google.internal") || eq_str(&host, "metadata.goog") {
        return true;
    }
    match parse_ipv4(&host) {
        Some(o) => o[0] == 169 && o[1] == 254,
        None => false,
    }
}



/// `c` in ASCII upper case (what `char::to_ascii_uppercase` gives).
pub open spec fn ascii_upper_char(c: char) -> char {
    if 'a' <= c && c <= 'z' {
        ((c as u32) - 32) as char
    } else {
        c
    }
}

/// `s` in ASCII upper case (what `str::to_ascii_uppercase` gives).
pub open spec fn ascii_upper_spec(s: Seq<char>) -> Seq<char> {
    s.map_values(|c: char| ascii_upper_char(c))
}

proof fn lemma_upper_char(c: char)
    ensures
        is_ws(ascii_upper_char(c)) == is_ws(c),
        (ascii_upper_char(c) == '[') == (c == '['),
        (ascii_upper_char(c) == ']') == (c == ']'),
        ascii_lower_char(ascii_upper_char(c)) == ascii_lower_char(c),
{
    if 'a' <= c && c <= 'z' {
        assert(((c as u32) - 32) as char as u32 == (c as u32) - 32);
    }
}

proof fn lemma_upper_trim_start(s: Seq<char>)
    ensures
        trim_start_spec(ascii_upper_spec(s)) == ascii_upper_spec(trim_start_spec(s)),
    decreases s.len(),
{
    if s.len() > 0 {
        lemma_upper_char(s[0]);
        assert(ascii_upper_spec(s)[0] == ascii_upper_char(s[0]));
        assert(ascii_upper_spec(s).drop_first() =~= ascii_upper_spec(s.drop_first()));
        lemma_upper_trim_start(s.drop_first());
    } else {
        assert(ascii_upper_spec(s) =~= s);
    }
}

proof fn lemma_upper_trim_end(s: Seq<char>)
    ensures
        trim_end_spec(ascii_upper_spec(s)) == ascii_upper_spec(trim_end_spec(s)),
    decreases s.len(),
{
    if s.len() > 0 {
        lemma_upper_char(s.last());
        assert(ascii_upper_spec(s).last() == ascii_upper_char(s.last()));
        assert(ascii_upper_spec(s).drop_last() =~= ascii_upper_spec(s.drop_last()));
        lemma_upper_trim_end(s.drop_last());
    } else {
        assert(ascii_upper_spec(s) =~= s);
    }
}

proof fn lemma_upper_strip_leading(s: Seq<char>)
    ensures
        strip_leading(ascii_upper_spec(s), '[') == ascii_upper_spec(strip_leading(s, '[')),
    decreases s.len(),
{
    if s.len() > 0 {
        lemma_upper_char(s[0]);
        assert(ascii_upper_spec(s)[0] == ascii_upper_char(s[0]));
        assert(ascii_upper_spec(s).drop_first() =~= ascii_upper_spec(s.drop_first()));
        lemma_upper_strip_leading(s.drop_first());
    } else {
        assert(ascii_upper_spec(s) =~= s);
    }
}

proof fn lemma_upper_strip_trailing(s: Seq<char>)
    ensures
        strip_trailing(ascii_upper_spec(s), ']') == ascii_upper_spec(strip_trailing(s, ']')),
    decreases s.len(),
{
    if s.len() > 0 {
        lemma_upper_char(s.last());
        assert(ascii_upper_spec(s).last() == ascii_upper_char(s.last()));
        assert(ascii_upper_spec(s).drop_last() =~= ascii_upper_spec(s.drop_last()));
        lemma_upper_strip_trailing(s.drop_last());
    } else {
        assert(ascii_upper_spec(s) =~= s);
    }
}

proof fn lemma_strip_leading_close(x: Seq<char>)
    ensures
        strip_leading(x + seq![']'], '[') == strip_leading(x, '[') + seq![']'],
    decreases x.len(),
{
    if x.len() > 0 && x[0] == '[' {
        assert((x + seq![']']).drop_first() =~= x.drop_first() + seq![']']);
        lemma_strip_leading_close(x.drop_first());
    } else if x.len() > 0 {
        assert((x + seq![']'])[0] == x[0]);
    } else {
        assert(x + seq![']'] =~= seq![']']);
    }
}

/// Whether a host is local or a probe address does not depend on its ASCII
/// case, on white space around it, or on IPv6 brackets around it: the host
/// in upper case, and the trimmed host written ` [host] `, have the same
/// key as the host itself.
pub proof fn law_host_key_invariant(h: Seq<char>)
    ensures
        host_key(ascii_upper_spec(h)) == host_key(h),
        host_key(seq![' ', '['] + trim_spec(h) + seq![']', ' ']) == host_key(h),
        is_local_host_spec(ascii_upper_spec(h)) == is_local_host_spec(h),
        is_local_host_spec(seq![' ', '['] + trim_spec(h) + seq![']', ' ']) == is_local_host_spec(h),
        is_blocked_host_spec(ascii_upper_spec(h)) == is_blocked_host_spec(h),
        is_blocked_host_spec(seq![' ', '['] + trim_spec(h) + seq![']', ' ']) == is_blocked_host_spec(h),
{
    // Case.
    lemma_upper_trim_start(h);
    lemma_upper_trim_end(trim_start_spec(h));
    let t = trim_spec(h);
    lemma_upper_strip_leading(t);
    lemma_upper_strip_trailing(strip_leading(t, '['));
    let st = strip_brackets_spec(t);
    assert forall|i: int| 0 <= i < st.len() implies
        #[trigger] ascii_lower_spec(ascii_upper_spec(st))[i] == ascii_lower_spec(st)[i] by {
        lemma_upper_char(st[i]);
    }
    assert(ascii_lower_spec(ascii_upper_spec(st)) =~= ascii_lower_spec(st));
    // Brackets and white space.
    let w = seq![' ', '['] + t + seq![']', ' '];
    let inner = seq!['['] + t + seq![']'];
    assert(is_ws(' ')) by { }
    assert(!is_ws('[')) by { }
    assert(!is_ws(']')) by { }
    assert(w.drop_first() =~= inner + seq![' ']);
    assert((inner + seq![' '])[0] == '[');
    assert(trim_start_spec(w) == trim_start_spec(inner + seq![' ']));
    assert(trim_start_spec(inner + seq![' ']) == inner + seq![' ']);
    assert((inner + seq![' ']).drop_last() =~= inner);
    assert(inner.last() == ']');
    assert(trim_end_spec(inner + seq![' ']) == trim_end_spec(inner));
    assert(trim_end_spec(inner) == inner);
    assert(trim_spec(w) == inner);
    assert(inner.drop_first() =~= t + seq![']']);
    assert(strip_leading(inner, '[') == strip_leading(t + seq![']'], '['));
    lemma_strip_leading_close(t);
    let sl = strip_leading(t, '[');
    assert((sl + seq![']']).drop_last() =~= sl);
    assert(strip_trailing(sl + seq![']'], ']') == strip_trailing(sl, ']'));
}

/// The parts of a parsed URL that the policy reads: its serialisation, its
/// scheme and its host, if any.
pub type UrlParts = (Seq<char>, Seq<char>, Option<Seq<char>>);

/// What `url::Url::parse` makes of `input`: `None` when it refuses it, else the
/// parsed URL's serialisation, scheme and host.
pub uninterp spec fn url_parse_spec(input: Seq<char>) -> Option<(Seq<char>, Seq<char>, Option<Seq<char>>)>;

/// What `url::Url::set_host(Some(host))` makes of the URL serialised as `href`:
/// `None` when it refuses, else the new serialisation, scheme and host.
pub uninterp spec fn url_with_host(href: Seq<char>, host: Seq<char>) -> Option<(Seq<char>, Seq<char>, Option<Seq<char>>)>;

/// A parsed preview URL together with the plain parts the policy reads from it.
pub struct PreviewUrl {
    url: url::Url,
    href: String,
    scheme: String,
    host: Option<String>,
}

#[verifier::external_type_specification]
#[verifier::external_body]
pub struct ExUrl(url::Url);

pub open spec fn opt_view(o: Option<String>) -> Option<Seq<char>> {
    match o {
        Some(s) => Some(s@),
        None => None,
    }
}

impl PreviewUrl {
    pub closed spec fn parts(&self) -> UrlParts {
        (self.href@, self.scheme@, opt_view(self.host))
    }

    /// The serialised URL.
    pub fn as_str(&self) -> (r: &str)
        ensures
            r@ == self.parts().0,
    {
        self.href.as_str()
    }

    pub fn scheme(&self) -> (r: &str)
        ensures
            r@ == self.parts().1,
    {
        self.scheme.as_str()
    }

    pub fn host_str(&self) -> (r: Option<&str>)
        ensures
            match r {
                Some(h) => self.parts().2 == Some(h@),
                None => self.parts().2 is None,
            },
    {
        match &self.host {
            Some(h) => Some(h.as_str()),
            None => None,
        }
    }

}

/// `url::Url::parse`: the contract says that the parts handed back are those that
/// `url_parse_spec` names for the input.
#[verifier::external_body]
pub(crate) fn url_parse(input: &str) -> (r: Option<PreviewUrl>)
    ensures
        match r {
            Some(u) => url_parse_spec(input@) == Some(u.parts()),
            None => url_parse_spec(input@) is None,
        },
{
    match url::Url::parse(input) {
        Ok(url) => Some(
            PreviewUrl {
                href: url.as_str().to_string(),
                scheme: url.scheme().to_string(),
                host: url.host_str().map(|h| h.to_string()),
                url,
            },
        ),
        Err(_) => None,
    }
}

/// `url::Url::set_host(Some(host))`: succeeds exactly when `url_with_host` names a
/// result for the URL's serialisation and `host`, and the URL's parts are then that result.
/// It never touches the scheme; and on an `http` or `https` URL the loopback
/// literal `127.0.0.1` parses as that IPv4 address and reads back unchanged
/// as the host. What other hosts read back as (case, IDNA, other IPv4
/// spellings) is left to the name.
#[verifier::external_body]
fn url_set_host(u: &mut PreviewUrl, host: &str) -> (ok: bool)
    ensures
        ok == (url_with_host(old(u).parts().0, host@) is Some),
        ok ==> url_with_host(old(u).parts().0, host@) == Some(final(u).parts()),
        ok ==> final(u).parts().1 == old(u).parts().1,
        ok && host@ == "127.0.0.1"@ && (old(u).parts().1 == "http"@ || old(u).parts().1 == "https"@)
            ==> final(u).parts().2 == Some(host@),
{
    match u.url.set_host(Some(host)) {
        Ok(()) => {
            u.href = u.url.as_str().to_string();
            u.scheme = u.url.scheme().to_string();
            u.host = u.url.host_str().map(|h| h.to_string());
            true
        },
        Err(_) => false,
    }
}

/// The input with a scheme put in front: a bare port of 2 to 5 digits becomes
/// `http://127.0.0.1:<port>`; without `://`, local hosts get `http://` and
/// others `https://`.
pub open spec fn with_scheme_spec(t: Seq<char>) -> Seq<char> {
    if 2 <= t.len() <= 5 && all_digits(t) {
        "http://127.0.0.1:"@ + t
    } else if !contains_spec(t, "://"@) {
        let bare_host = split_spec(split_spec(t, '/')[0], ':')[0];
        if is_local_host_spec(bare_host) {
            "http://"@ + t
        } else {
            "https://"@ + t
        }
    } else {
        t
    }
}

/// The normalised URL for a loosely typed input, as parts.
pub open spec fn normalize_spec(input: Seq<char>) -> Option<UrlParts> {
    let t = trim_spec(input);
    if t.len() == 0 {
        None
    } else {
        match url_parse_spec(with_scheme_spec(t)) {
            None => None,
            Some(p) => if p.1 != "http"@ && p.1 != "https"@ {
                None
            } else {
                match p.2 {
                    None => None,
                    Some(h) => if strip_brackets_spec(h) == "0.0.0.0"@ || strip_brackets_spec(h) == "::"@ {
                        url_with_host(p.0, "127.0.0.1"@)
                    } else {
                        Some(p)
                    },
                }
            },
        }
    }
}

fn concat(a: &str, b: &Vec<char>) -> (r: String)
    ensures
        r@ == a@ + b@,
{
    let mut v = chars_of(a);
    let mut i: usize = 0;
    let ghost a0 = v@;
    while i < b.len()
        invariant
            i <= b.len(),
            a0 == a@,
            v@ == a0 + b@.subrange(0, i as int),
        decreases b.len() - i,
    {
        v.push(b[i]);
        i += 1;
    }
    assert(b@.subrange(0, b.len() as int) =~= b@);
    string_of(&v)
}

fn all_ascii_digits(v: &Vec<char>) -> (r: bool)
    ensures
        r == all_digits(v@),
{
    let mut i: usize = 0;
    while i < v.len()
        invariant
            i <= v.len(),
            forall|j: int| 0 <= j < i ==> is_digit(#[trigger] v@[j]),
        decreases v.len() - i,
    {
        if !('0' <= v[i] && v[i] <= '9') {
            assert(!is_digit(v@[i as int]));
            return false;
        }
        i += 1;
    }
    true
}

fn with_scheme(t: &Vec<char>) -> (r: String)
    ensures
        r@ == with_scheme_spec(t@),
{
    if 2 <= t.len() && t.len() <= 5 && all_ascii_digits(t) {
        concat("http://127.0.0.1:", t)
    } else if !contains_str(t, "://") {
        let by_slash = split_chars(t, '/');
        proof {
            lemma_split_nonempty(t@, '/');
        }
        let first = &by_slash[0];
        let by_colon = split_chars(first, ':');
        proof {
            lemma_split_nonempty(first@, ':');
        }
        let bare = string_of(&by_colon[0]);
        if is_local_preview_host(bare.as_str()) {
            concat("http://", t)
        } else {
            concat("https://", t)
        }
    } else {
        string_of(t)
    }
}

/// Loose input to a canonical URL, as the address bar does it: a bare port gets
/// `127.0.0.1`, a missing scheme gets `http` (local) or `https` (public),
/// `0.0.0.0` and `::` are rewritten to `127.0.0.1`, and only http(s) passes.
pub fn normalize_preview_url(input: &str) -> (r: Option<PreviewUrl>)
    ensures
        match r {
            Some(u) => normalize_spec(input@) == Some(u.parts()),
            None => normalize_spec(input@) is None,
        },
        trim_spec(input@).len() == 0 ==> r is None,
        r matches Some(u) ==> (u.parts().1 == "http"@ || u.parts().1 == "https"@)
            && (u.parts().2 matches Some(h) && strip_brackets_spec(h) != "0.0.0.0"@ && strip_brackets_spec(h) != "::"@),
{
    let trimmed = trim(input);
    let tv = chars_of(trimmed.as_str());
    if tv.len() == 0 {
        return None;
    }
    let ws = with_scheme(&tv);
    let mut url = match url_parse(ws.as_str()) {
        Some(u) => u,
        None => return None,
    };
    let sv = chars_of(url.scheme());
    if !eq_str(&sv, "http") && !eq_str(&sv, "https") {
        return None;
    }
    let host = match url.host_str() {
        Some(h) => chars_of(h),
        None => return None,
    };
    let bare = strip_brackets(&host);
    if eq_str(&bare, "0.0.0.0") || eq_str(&bare, "::") {
        if !url_set_host(&mut url, "127.0.0.1") {
            return None;
        }
        proof {
            reveal_strlit("127.0.0.1");
            reveal_strlit("0.0.0.0");
            reveal_strlit("::");
            let h = "127.0.0.1"@;
            assert(strip_leading(h, '[') == h);
            assert(strip_trailing(h, ']') == h);
            assert(strip_brackets_spec(h) == h);
        }
    }
    Some(url)
}

pub open spec fn host_or_empty(p: UrlParts) -> Seq<char> {
    match p.2 {
        Some(h) => h,
        None => Seq::empty(),
    }
}

/// The two-tier check: the normalised URL, or the reason it is refused.
pub open spec fn validate_spec(input: Seq<char>, origin: PreviewOrigin) -> Result<UrlParts, Seq<char>> {
    match normalize_spec(input) {
        None => Err("这个地址没法打开"@),
        Some(p) => if is_blocked_host_spec(host_or_empty(p)) {
            Err("这个地址不允许访问"@)
        } else if origin == PreviewOrigin::Auto && !is_local_host_spec(host_or_empty(p)) {
            Err("只有本地开发地址会自动打开，外部网址请在地址栏自己输入"@)
        } else {
            Ok(p)
        },
    }
}

/// Entry point of the two-tier check: `Ok` with the normalised URL, or `Err`
/// with a reason for the user.
pub fn validate_preview_url(input: &str, origin: PreviewOrigin) -> (r: Result<PreviewUrl, String>)
    ensures
        match r {
            Ok(u) => validate_spec(input@, origin) == Ok::<UrlParts, Seq<char>>(u.parts()),
            Err(m) => validate_spec(input@, origin) == Err::<UrlParts, Seq<char>>(m@),
        },
{
    let url = match normalize_preview_url(input) {
        Some(u) => u,
        None => return Err("这个地址没法打开".to_string()),
    };
    let host = match url.host_str() {
        Some(h) => h.to_string(),
        None => String::new(),
    };
    if is_blocked_probe_host(host.as_str()) {
        return Err("这个地址不允许访问".to_string());
    }
    if origin == PreviewOrigin::Auto && !is_local_preview_host(host.as_str()) {
        return Err("只有本地开发地址会自动打开，外部网址请在地址栏自己输入".to_string());
    }
    Ok(url)
}


/// The ranges of IPv4 addresses that count as local: 127/8, 10/8,
/// 172.16/12 and 192.168/16.
pub open spec fn private_ipv4(o: Seq<int>) -> bool {
    o[0] == 127 || o[0] == 10 || (o[0] == 172 && 16 <= o[1] && o[1] <= 31) || (o[0] == 192 && o[1] == 168)
}

proof fn lemma_last_char(k: Seq<char>, p: Seq<char>)
    requires
        ends_with_spec(k, p),
        p.len() > 0,
    ensures
        k[k.len() - 1] == p[p.len() - 1],
{
    assert(k.subrange(k.len() - p.len(), k.len() as int)[p.len() - 1] == k[k.len() - 1]);
}

/// A host written as a dotted quad is local exactly when its address lies in
/// 127/8, 10/8, 172.16/12 or 192.168/16, or it is the unspecified `0.0.0.0`;
/// so, for one, a `192.x` address other than `192.168.x` is not local.
pub proof fn law_ipv4_local(h: Seq<char>)
    requires
        forall|i: int| 0 <= i < host_key(h).len() ==> is_digit(#[trigger] host_key(h)[i]) || host_key(h)[i] == '.',
        ipv4_spec(host_key(h)) is Some,
    ensures
        is_local_host_spec(h) == (host_key(h) == "0.0.0.0"@ || private_ipv4(ipv4_spec(host_key(h))->0)),
{
    let k = host_key(h);
    reveal_strlit("localhost");
    reveal_strlit(".localhost");
    reveal_strlit("host.docker.internal");
    reveal_strlit(".local");
    reveal_strlit("::1");
    reveal_strlit("::");
    if k == "localhost"@ {
        assert(k[0] == 'l');
    }
    if ends_with_spec(k, ".localhost"@) {
        lemma_last_char(k, ".localhost"@);
    }
    if k == "host.docker.internal"@ {
        assert(k[0] == 'h');
    }
    if ends_with_spec(k, ".local"@) {
        lemma_last_char(k, ".local"@);
    }
    if k == "::1"@ {
        assert(k[0] == ':');
    }
    if k == "::"@ {
        assert(k[0] == ':');
    }
}

/// Automatic navigation opens only local hosts: when a URL passes the check
/// for the automatic tier, its host is local and not a probe address.
pub proof fn law_auto_tier_local_only(input: Seq<char>)
    ensures
        validate_spec(input, PreviewOrigin::Auto) matches Ok(p) ==> is_local_host_spec(host_or_empty(p))
            && !is_blocked_host_spec(host_or_empty(p)),
{
}

} // verus!
