//! Finding the local DevTools endpoint over plain HTTP/1.1: where to connect,
//! what to ask, and where the reply's body lies, by its `Content-Length`
//! (the endpoint keeps the connection open, so the body cannot be read to
//! the end).

use vstd::prelude::*;
use crate::desktop::{from_utf8_lossy, utf8_lossy};
use crate::text::{
    all_digits, ascii_lower_spec, chars_of, concat_str, eq_str, digits_value, is_digit, lines_of, lines_spec,
    starts_with_spec, starts_with_str, string_of, strings_view, to_ascii_lowercase, trim, trim_spec,
};

verus! {

/// The first index of `c` in `s`.
pub open spec fn first_of(s: Seq<char>, c: char) -> Option<int> {
    if exists|i: int| 0 <= i < s.len() && s[i] == c && (forall|j: int| 0 <= j < i ==> s[j] != c) {
        Some(choose|i: int| 0 <= i < s.len() && s[i] == c && (forall|j: int| 0 <= j < i ==> s[j] != c))
    } else {
        None
    }
}

/// `str::split_once` at the first `c`: what comes before and after it.
pub open spec fn split_once_spec(s: Seq<char>, c: char) -> Option<(Seq<char>, Seq<char>)> {
    match first_of(s, c) {
        Some(i) => Some((s.subrange(0, i), s.subrange(i + 1, s.len() as int))),
        None => None,
    }
}

/// Finds the first `c` in `v`.
pub fn find_char(v: &Vec<char>, c: char) -> (r: Option<usize>)
    ensures
        match r {
            Some(i) => first_of(v@, c) == Some(i as int),
            None => first_of(v@, c) is None,
        },
{
    let mut i: usize = 0;
    while i < v.len()
        invariant
            i <= v.len(),
            forall|j: int| 0 <= j < i ==> v@[j] != c,
        decreases v.len() - i,
    {
        if v[i] == c {
            proof {
                let k = i as int;
                assert(0 <= k < v@.len() && v@[k] == c && (forall|j: int| 0 <= j < k ==> v@[j] != c));
                let w = choose|w: int| 0 <= w < v@.len() && v@[w] == c && (forall|j: int| 0 <= j < w ==> v@[j] != c);
                assert(w == k) by {
                    if w < k {
                        assert(v@[w] != c);
                    } else if w > k {
                        assert(v@[k] != c);
                    }
                }
            }
            return Some(i);
        }
        i += 1;
    }
    None
}

fn sub_string(v: &Vec<char>, from: usize, to: usize) -> (s: String)
    requires
        from <= to <= v.len(),
    ensures
        s@ == v@.subrange(from as int, to as int),
{
    let mut out: Vec<char> = Vec::new();
    let mut i: usize = from;
    while i < to
        invariant
            from <= i <= to <= v.len(),
            out@ == v@.subrange(from as int, i as int),
        decreases to - i,
    {
        out.push(v[i]);
        i += 1;
    }
    string_of(&out)
}

/// Where a discovery URL leads: host and port, and the path after them.
pub open spec fn endpoint_spec(url: Seq<char>) -> Option<(Seq<char>, Seq<char>)> {
    if starts_with_spec(url, "http://"@) {
        let rest = url.subrange(7, url.len() as int);
        match split_once_spec(rest, '/') {
            Some(hp) => Some(hp),
            None => Some((rest, Seq::empty())),
        }
    } else {
        None
    }
}

/// Splits an `http://host:port/path` URL into `host:port` and `path`; only
/// plain `http` is served.
pub fn split_local_endpoint(url: &str) -> (r: Result<(String, String), String>)
    ensures
        match endpoint_spec(url@) {
            Some((h, p)) => r matches Ok((hs, ps)) && hs@ == h && ps@ == p,
            None => r matches Err(e) && e@ == "仅支持 http 本地端点"@,
        },
{
    let v = chars_of(url);
    if !starts_with_str(&v, "http://") {
        return Err("仅支持 http 本地端点".to_string());
    }
    proof {
        reveal_strlit("http://");
    }
    let rest_s = sub_string(&v, 7, v.len());
    let rest = chars_of(rest_s.as_str());
    match find_char(&rest, '/') {
        Some(i) => Ok((sub_string(&rest, 0, i), sub_string(&rest, i + 1, rest.len()))),
        None => {
            assert(rest@.subrange(0, rest@.len() as int) =~= rest@);
            Ok((sub_string(&rest, 0, rest.len()), String::new()))
        },
    }
}

/// The discovery request for `path` on `hostport`.
pub fn discovery_request(hostport: &str, path: &str) -> (r: String)
    ensures
        r@ == "GET /"@ + path@ + " HTTP/1.1\r\nHost: "@ + hostport@ + "\r\nConnection: close\r\n\r\n"@,
{
    let a = concat_str("GET /", path);
    let b = concat_str(a.as_str(), " HTTP/1.1\r\nHost: ");
    let c = concat_str(b.as_str(), hostport);
    concat_str(c.as_str(), "\r\nConnection: close\r\n\r\n")
}


/// What `str::parse::<usize>` makes of `s`: an optional `+`, then at least one
/// ASCII digit and nothing else, of a value that fits.
pub open spec fn parse_usize_spec(s: Seq<char>) -> Option<nat> {
    let d = if s.len() > 0 && s[0] == '+' { s.drop_first() } else { s };
    if d.len() > 0 && all_digits(d) && digits_value(d) <= usize::MAX {
        Some(digits_value(d))
    } else {
        None
    }
}

proof fn lemma_digits_prefix(s: Seq<char>, i: int)
    requires
        0 <= i < s.len(),
        is_digit(s[i]),
    ensures
        digits_value(s.subrange(0, i + 1)) == digits_value(s.subrange(0, i)) * 10 + ((s[i] as int) - ('0' as int)),
{
    assert(s.subrange(0, i + 1).drop_last() =~= s.subrange(0, i));
}

proof fn lemma_digits_grow(s: Seq<char>, i: int, k: int)
    requires
        0 <= i <= k <= s.len(),
        all_digits(s),
    ensures
        digits_value(s.subrange(0, k)) >= digits_value(s.subrange(0, i)),
    decreases k - i,
{
    if i < k {
        lemma_digits_grow(s, i, k - 1);
        lemma_digits_prefix(s, k - 1);
        assert(is_digit(s[k - 1]));
    }
}

/// `str::parse::<usize>` on the characters `v`.
pub fn parse_usize(v: &Vec<char>) -> (r: Option<usize>)
    ensures
        match r {
            Some(n) => parse_usize_spec(v@) == Some(n as nat),
            None => parse_usize_spec(v@) is None,
        },
{
    let start: usize = if v.len() > 0 && v[0] == '+' { 1 } else { 0 };
    let ghost d = if v@.len() > 0 && v@[0] == '+' { v@.drop_first() } else { v@ };
    assert(d =~= v@.subrange(start as int, v@.len() as int));
    if start == v.len() {
        return None;
    }
    let mut acc: usize = 0;
    let mut i: usize = start;
    while i < v.len()
        invariant
            start <= i <= v.len(),
            d == v@.subrange(start as int, v@.len() as int),
            d == (if v@.len() > 0 && v@[0] == '+' { v@.drop_first() } else { v@ }),
            forall|j: int| 0 <= j < i - start ==> is_digit(#[trigger] d[j]),
            acc == digits_value(d.subrange(0, i - start)),
        decreases v.len() - i,
    {
        let c = v[i];
        if !('0' <= c && c <= '9') {
            assert(!is_digit(d[i - start]));
            assert(!all_digits(d));
            return None;
        }
        let k: usize = i - start;
        proof {
            assert(is_digit(d[k as int]));
            lemma_digits_prefix(d, k as int);
        }
        let dig: usize = ((c as u32) - ('0' as u32)) as usize;
        let next = match acc.checked_mul(10) {
            Some(m) => m.checked_add(dig),
            None => None,
        };
        match next {
            Some(n) => {
                acc = n;
            },
            None => {
                proof {
                    assert(digits_value(d.subrange(0, k + 1)) > usize::MAX);
                    if all_digits(d) {
                        lemma_digits_grow(d, k + 1, d.len() as int);
                        assert(d.subrange(0, d.len() as int) =~= d);
                        assert(digits_value(d) > usize::MAX);
                    }
                }
                return None;
            },
        }
        i += 1;
    }
    assert(d.subrange(0, d.len() as int) =~= d);
    Some(acc)
}


/// The value of `line` when it is a `Content-Length` header (the name in any
/// ASCII case) whose value parses.
pub open spec fn length_header(line: Seq<char>) -> Option<nat> {
    match split_once_spec(line, ':') {
        Some((k, v)) => if ascii_lower_spec(k) == "content-length"@ {
            parse_usize_spec(trim_spec(v))
        } else {
            None
        },
        None => None,
    }
}

/// The first `Content-Length` that parses, over the header lines.
pub open spec fn content_length_spec(lines: Seq<Seq<char>>) -> Option<nat>
    decreases lines.len(),
{
    if lines.len() == 0 {
        None
    } else {
        match length_header(lines[0]) {
            Some(n) => Some(n),
            None => content_length_spec(lines.drop_first()),
        }
    }
}

fn line_length(line: &str) -> (r: Option<usize>)
    ensures
        match r {
            Some(n) => length_header(line@) == Some(n as nat),
            None => length_header(line@) is None,
        },
{
    let v = chars_of(line);
    match find_char(&v, ':') {
        Some(i) => {
            let key = sub_string(&v, 0, i);
            let lower = to_ascii_lowercase(key.as_str());
            let lv = chars_of(lower.as_str());
            if eq_str(&lv, "content-length") {
                let value = sub_string(&v, i + 1, v.len());
                let t = trim(value.as_str());
                let tv = chars_of(t.as_str());
                parse_usize(&tv)
            } else {
                None
            }
        },
        None => None,
    }
}

/// The body length that the header block `headers` announces.
pub fn content_length(headers: &str) -> (r: Option<usize>)
    ensures
        match r {
            Some(n) => content_length_spec(lines_spec(headers@)) == Some(n as nat),
            None => content_length_spec(lines_spec(headers@)) is None,
        },
{
    let lines = lines_of(headers);
    let ghost ls = lines_spec(headers@);
    let mut i: usize = 0;
    assert(ls.subrange(0, ls.len() as int) =~= ls);
    while i < lines.len()
        invariant
            i <= lines.len(),
            strings_view(lines@) == ls,
            ls == lines_spec(headers@),
            content_length_spec(ls) == content_length_spec(ls.subrange(i as int, ls.len() as int)),
        decreases lines.len() - i,
    {
        let ghost tail = ls.subrange(i as int, ls.len() as int);
        assert(tail[0] == lines@[i as int]@);
        assert(tail.drop_first() =~= ls.subrange(i + 1, ls.len() as int));
        match line_length(lines[i].as_str()) {
            Some(n) => {
                return Some(n);
            },
            None => {},
        }
        i += 1;
    }
    None
}


/// `\r\n\r\n` starts at `i` in `b`.
pub open spec fn blank_line_at(b: Seq<u8>, i: int) -> bool {
    0 <= i && i + 4 <= b.len() && b[i] == 13 && b[i + 1] == 10 && b[i + 2] == 13 && b[i + 3] == 10
}

/// Where the header block of a reply ends: the first `\r\n\r\n`.
pub open spec fn header_end_spec(b: Seq<u8>) -> Option<int> {
    if exists|i: int| blank_line_at(b, i) && (forall|j: int| 0 <= j < i ==> !blank_line_at(b, j)) {
        Some(choose|i: int| blank_line_at(b, i) && (forall|j: int| 0 <= j < i ==> !blank_line_at(b, j)))
    } else {
        None
    }
}

/// Finds the end of the header block in what has been read so far.
pub fn header_end(buf: &[u8]) -> (r: Option<usize>)
    ensures
        match r {
            Some(i) => header_end_spec(buf@) == Some(i as int) && i + 4 <= buf@.len(),
            None => header_end_spec(buf@) is None,
        },
{
    let n = buf.len();
    let mut i: usize = 0;
    while n >= 4 && i <= n - 4
        invariant
            n == buf@.len(),
            forall|j: int| 0 <= j < i ==> !blank_line_at(buf@, j),
        decreases n - i,
    {
        if buf[i] == 13 && buf[i + 1] == 10 && buf[i + 2] == 13 && buf[i + 3] == 10 {
            proof {
                let k = i as int;
                assert(blank_line_at(buf@, k));
                let w = choose|w: int| blank_line_at(buf@, w) && (forall|j: int| 0 <= j < w ==> !blank_line_at(buf@, j));
                assert(w == k) by {
                    if w < k {
                        assert(!blank_line_at(buf@, w));
                    } else if w > k {
                        assert(!blank_line_at(buf@, k));
                    }
                }
            }
            return Some(i);
        }
        i += 1;
    }
    proof {
        assert forall|j: int| blank_line_at(buf@, j) implies j < i by {}
    }
    None
}

/// The longest header block waited for.
pub const MAX_HEADER_BYTES: usize = 65536;

/// What the bytes read so far come to: `Ok(None)` to read on, the start and
/// length of the body once the headers are in, or why the reply is refused.
pub open spec fn frame_spec(b: Seq<u8>) -> Result<Option<(int, nat)>, Seq<char>> {
    match header_end_spec(b) {
        Some(pos) => match content_length_spec(lines_spec(utf8_lossy(b.subrange(0, pos)))) {
            Some(n) => Ok(Some((pos + 4, n))),
            None => Err("CDP 发现响应缺 Content-Length"@),
        },
        None => if b.len() > MAX_HEADER_BYTES {
            Err("CDP 发现响应头超长"@)
        } else {
            Ok(None)
        },
    }
}

/// Frames the reply read so far (see `frame_spec`).
pub fn frame_response(buf: &[u8]) -> (r: Result<Option<(usize, usize)>, String>)
    ensures
        match frame_spec(buf@) {
            Ok(None) => r matches Ok(None),
            Ok(Some((start, len))) => r matches Ok(Some((s, l))) && s == start && l == len,
            Err(e) => r matches Err(m) && m@ == e,
        },
{
    let total: usize = buf.len();
    match header_end(buf) {
        Some(pos) => {
            assert(pos + 4 <= total);
            let head = from_utf8_lossy(vstd::slice::slice_subrange(buf, 0, pos));
            match content_length(head.as_str()) {
                Some(n) => Ok(Some((pos + 4, n))),
                None => Err("CDP 发现响应缺 Content-Length".to_string()),
            }
        },
        None => if total > MAX_HEADER_BYTES {
            Err("CDP 发现响应头超长".to_string())
        } else {
            Ok(None)
        },
    }
}

/// The body of a framed reply: from `start`, `len` bytes or as many as came.
pub fn response_body(buf: &[u8], start: usize, len: usize) -> (b: Vec<u8>)
    requires
        start <= buf@.len(),
        start + len <= usize::MAX,
    ensures
        b@ == buf@.subrange(start as int, if start + len < buf@.len() { start + len } else { buf@.len() as int }),
{
    let end: usize = if start + len < buf.len() { start + len } else { buf.len() };
    let mut out: Vec<u8> = Vec::new();
    let mut i: usize = start;
    while i < end
        invariant
            start <= i <= end <= buf@.len(),
            out@ == buf@.subrange(start as int, i as int),
        decreases end - i,
    {
        out.push(buf[i]);
        i += 1;
    }
    out
}

} // verus!
