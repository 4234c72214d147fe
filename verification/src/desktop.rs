//! Desktop commands: permission scopes, attaching files by path, and the
//! allowed-path list of a session that only grows once the conversation began.

use vstd::prelude::*;
use crate::protocol::{ApprovalDecision, PermissionScope};
use crate::messages::{Message, Role};
use crate::text::strings_view;
use vstd::string::StringSliceAdditionalSpecFns;
use crate::notch::{b64_spec, b64_standard};
use crate::text::{
    ascii_lower_spec, chars_of, concat_str, eq_str, starts_with_spec, starts_with_str, string_of,
    to_ascii_lowercase, trim, trim_spec,
};
use vstd::utf8::encode_utf8;

verus! {

/// Whether a permission rule allows or denies.
#[derive(Debug, Clone, Copy, PartialEq, Eq, Structural)]
pub enum RuleEffect {
    Allow,
    Deny,
}

pub open spec fn scope_spec(s: Seq<char>) -> Option<PermissionScope> {
    if s == "session"@ {
        Some(PermissionScope::Session)
    } else if s == "project"@ {
        Some(PermissionScope::Project)
    } else if s == "global"@ {
        Some(PermissionScope::Global)
    } else if s == "once"@ {
        Some(PermissionScope::Once)
    } else {
        None
    }
}

/// A scope name to a permission scope; an error for an unknown name.
pub fn parse_perm_scope(s: &str) -> (r: Result<PermissionScope, String>)
    ensures
        match scope_spec(s@) {
            Some(sc) => r == Ok::<PermissionScope, String>(sc),
            None => r matches Err(m) && m@ == "未知 scope: "@ + s@,
        },
{
    let v = chars_of(s);
    if eq_str(&v, "session") {
        Ok(PermissionScope::Session)
    } else if eq_str(&v, "project") {
        Ok(PermissionScope::Project)
    } else if eq_str(&v, "global") {
        Ok(PermissionScope::Global)
    } else if eq_str(&v, "once") {
        Ok(PermissionScope::Once)
    } else {
        Err(concat_str("未知 scope: ", s))
    }
}

/// `deny` denies; any other name allows.
pub fn parse_rule_effect(s: &str) -> (r: RuleEffect)
    ensures
        r == (if s@ == "deny"@ { RuleEffect::Deny } else { RuleEffect::Allow }),
{
    let v = chars_of(s);
    if eq_str(&v, "deny") { RuleEffect::Deny } else { RuleEffect::Allow }
}

/// The value of a hexadecimal digit.
pub open spec fn hex_spec(b: u8) -> Option<u8> {
    if 48 <= b <= 57 {
        Some((b - 48) as u8)
    } else if 97 <= b <= 102 {
        Some((b - 97 + 10) as u8)
    } else if 65 <= b <= 70 {
        Some((b - 65 + 10) as u8)
    } else {
        None
    }
}

pub fn hex_val(b: u8) -> (r: Option<u8>)
    ensures
        r == hex_spec(b),
{
    if 48 <= b && b <= 57 {
        Some(b - 48)
    } else if 97 <= b && b <= 102 {
        Some(b - 97 + 10)
    } else if 65 <= b && b <= 70 {
        Some(b - 65 + 10)
    } else {
        None
    }
}

/// Percent-decoding of bytes from `i` on: `%` with two hex digits after it (and
/// not at the very end) becomes the byte they spell; every other byte stays.
pub open spec fn pct_from(b: Seq<u8>, i: int) -> Seq<u8>
    decreases b.len() - i,
{
    if i < 0 || i >= b.len() {
        Seq::empty()
    } else if b[i] == 37 && i + 2 < b.len() && hex_spec(b[i + 1]) is Some && hex_spec(b[i + 2]) is Some {
        seq![(hex_spec(b[i + 1])->0 * 16 + hex_spec(b[i + 2])->0) as u8] + pct_from(b, i + 3)
    } else {
        seq![b[i]] + pct_from(b, i + 1)
    }
}

pub fn percent_decode_bytes(b: &[u8]) -> (out: Vec<u8>)
    ensures
        out@ == pct_from(b@, 0),
{
    let mut out: Vec<u8> = Vec::new();
    let mut i: usize = 0;
    while i < b.len()
        invariant
            i <= b.len(),
            out@ + pct_from(b@, i as int) == pct_from(b@, 0),
        decreases b.len() - i,
    {
        let ghost before = out@;
        if b[i] == 37 && b.len() - i > 2 {
            match (hex_val(b[i + 1]), hex_val(b[i + 2])) {
                (Some(h), Some(l)) => {
                    out.push(h * 16 + l);
                    assert(out@ + pct_from(b@, i + 3) =~= before + pct_from(b@, i as int));
                    i += 3;
                    continue;
                },
                _ => {},
            }
        }
        out.push(b[i]);
        assert(out@ + pct_from(b@, i + 1) =~= before + pct_from(b@, i as int));
        i += 1;
    }
    assert(out@ + pct_from(b@, i as int) =~= out@);
    out
}

/// What `String::from_utf8_lossy` makes of `bytes`.
pub uninterp spec fn utf8_lossy(bytes: Seq<u8>) -> Seq<char>;

/// `String::from_utf8_lossy`: the contract names the result `utf8_lossy(bytes)`.
#[verifier::external_body]
pub(crate) fn from_utf8_lossy(bytes: &[u8]) -> (s: String)
    ensures
        s@ == utf8_lossy(bytes@),
{
    String::from_utf8_lossy(bytes).into_owned()
}

/// Percent-decodes a `file://` path; invalid UTF-8 turns into replacement characters.
pub fn percent_decode(s: &str) -> (r: String)
    ensures
        r@ == utf8_lossy(pct_from(s.spec_bytes(), 0)),
{
    let bytes = s.as_bytes();
    let out = percent_decode_bytes(bytes);
    from_utf8_lossy(out.as_slice())
}

/// What `Path::extension` gives for `path`, if anything.
pub uninterp spec fn path_extension(path: Seq<char>) -> Option<Seq<char>>;

/// `std::path::Path::extension` (as text): the contract names the result `path_extension(path)`.
#[verifier::external_body]
fn extension_of(path: &str) -> (r: Option<String>)
    ensures
        match r {
            Some(e) => path_extension(path@) == Some(e@),
            None => path_extension(path@) is None,
        },
{
    std::path::Path::new(path).extension().and_then(|s| s.to_str()).map(|s| s.to_string())
}

/// The lower-cased extension of `path`.
pub open spec fn lower_ext(path: Seq<char>) -> Option<Seq<char>> {
    match path_extension(path) {
        Some(e) => Some(ascii_lower_spec(e)),
        None => None,
    }
}

fn lower_extension(path: &str) -> (r: Option<Vec<char>>)
    ensures
        match r {
            Some(e) => lower_ext(path@) == Some(e@),
            None => lower_ext(path@) is None,
        },
{
    match extension_of(path) {
        Some(e) => {
            let l = to_ascii_lowercase(e.as_str());
            Some(chars_of(l.as_str()))
        },
        None => None,
    }
}

/// The media type an extension suggests; text/plain for anything else.
pub open spec fn media_type_spec(ext: Option<Seq<char>>) -> Seq<char> {
    match ext {
        Some(e) => if e == "png"@ {
            "image/png"@
        } else if e == "jpg"@ || e == "jpeg"@ {
            "image/jpeg"@
        } else if e == "gif"@ {
            "image/gif"@
        } else if e == "webp"@ {
            "image/webp"@
        } else if e == "bmp"@ {
            "image/bmp"@
        } else if e == "svg"@ {
            "image/svg+xml"@
        } else if e == "json"@ {
            "application/json"@
        } else if e == "xml"@ {
            "application/xml"@
        } else if e == "html"@ || e == "htm"@ {
            "text/html"@
        } else if e == "css"@ {
            "text/css"@
        } else if e == "csv"@ {
            "text/csv"@
        } else if e == "md"@ || e == "markdown"@ {
            "text/markdown"@
        } else {
            "text/plain"@
        },
        None => "text/plain"@,
    }
}

/// The media type of a file, from its lower-cased extension.
pub fn guess_media_type(path: &str) -> (m: String)
    ensures
        m@ == media_type_spec(lower_ext(path@)),
{
    let e = match lower_extension(path) {
        Some(e) => e,
        None => return "text/plain".to_string(),
    };
    if eq_str(&e, "png") {
        "image/png".to_string()
    } else if eq_str(&e, "jpg") || eq_str(&e, "jpeg") {
        "image/jpeg".to_string()
    } else if eq_str(&e, "gif") {
        "image/gif".to_string()
    } else if eq_str(&e, "webp") {
        "image/webp".to_string()
    } else if eq_str(&e, "bmp") {
        "image/bmp".to_string()
    } else if eq_str(&e, "svg") {
        "image/svg+xml".to_string()
    } else if eq_str(&e, "json") {
        "application/json".to_string()
    } else if eq_str(&e, "xml") {
        "application/xml".to_string()
    } else if eq_str(&e, "html") || eq_str(&e, "htm") {
        "text/html".to_string()
    } else if eq_str(&e, "css") {
        "text/css".to_string()
    } else if eq_str(&e, "csv") {
        "text/csv".to_string()
    } else if eq_str(&e, "md") || eq_str(&e, "markdown") {
        "text/markdown".to_string()
    } else {
        "text/plain".to_string()
    }
}

/// Extensions of files read as text whatever their media type.
pub open spec fn text_ext(e: Seq<char>) -> bool {
    e == "txt"@ || e == "md"@ || e == "markdown"@ || e == "json"@ || e == "jsonl"@ || e == "csv"@
        || e == "ts"@ || e == "tsx"@ || e == "js"@ || e == "jsx"@ || e == "rs"@ || e == "py"@ || e
        == "go"@ || e == "java"@ || e == "c"@ || e == "cpp"@ || e == "h"@ || e == "hpp"@ || e
        == "css"@ || e == "html"@ || e == "htm"@ || e == "xml"@ || e == "yaml"@ || e == "yml"@ || e
        == "toml"@ || e == "sql"@
}

fn text_ext_exec(e: &Vec<char>) -> (b: bool)
    ensures
        b == text_ext(e@),
{
    eq_str(e, "txt") || eq_str(e, "md") || eq_str(e, "markdown") || eq_str(e, "json") || eq_str(e, "jsonl")
        || eq_str(e, "csv") || eq_str(e, "ts") || eq_str(e, "tsx") || eq_str(e, "js") || eq_str(e, "jsx")
        || eq_str(e, "rs") || eq_str(e, "py") || eq_str(e, "go") || eq_str(e, "java") || eq_str(e, "c")
        || eq_str(e, "cpp") || eq_str(e, "h") || eq_str(e, "hpp") || eq_str(e, "css") || eq_str(e, "html")
        || eq_str(e, "htm") || eq_str(e, "xml") || eq_str(e, "yaml") || eq_str(e, "yml") || eq_str(e, "toml")
        || eq_str(e, "sql")
}

/// Whether a file can be attached as text: a text/ media type, JSON or XML, or
/// a known source or data extension.
pub fn looks_like_text(media_type: &str, path: &str) -> (b: bool)
    ensures
        b == (starts_with_spec(media_type@, "text/"@) || media_type@ == "application/json"@
            || media_type@ == "application/xml"@ || (lower_ext(path@) matches Some(e) && text_ext(e))),
{
    let m = chars_of(media_type);
    if starts_with_str(&m, "text/") {
        return true;
    }
    if eq_str(&m, "application/json") || eq_str(&m, "application/xml") {
        return true;
    }
    match lower_extension(path) {
        Some(e) => text_ext_exec(&e),
        None => false,
    }
}

/// Whether `Path::new(a) == Path::new(b)` (paths compare by their components).
pub uninterp spec fn path_eq(a: Seq<char>, b: Seq<char>) -> bool;

/// `PartialEq` of `std::path::Path`: the contract names the result `path_eq(a, b)`.
#[verifier::external_body]
fn same_path(a: &str, b: &str) -> (r: bool)
    ensures
        r == path_eq(a@, b@),
{
    std::path::Path::new(a) == std::path::Path::new(b)
}

/// The paths a session may reach: those it started with, those announced to
/// the model since, and those to announce with the next message.
#[derive(Debug, PartialEq, Eq)]
pub struct AllowedPaths {
    pub allowed_paths: Option<Vec<String>>,
    pub runtime_allowed_paths: Vec<String>,
    pub pending_runtime_allowed_paths: Vec<String>,
}

pub open spec fn opt_paths(o: Option<Vec<String>>) -> Seq<Seq<char>> {
    match o {
        Some(v) => strings_view(v@),
        None => Seq::empty(),
    }
}

/// Every path known so far, in order: initial, announced, pending.
pub open spec fn known_paths(a: AllowedPaths) -> Seq<Seq<char>> {
    opt_paths(a.allowed_paths) + strings_view(a.runtime_allowed_paths@) + strings_view(a.pending_runtime_allowed_paths@)
}

pub open spec fn covered(list: Seq<Seq<char>>, k: Seq<char>) -> bool {
    exists|i: int| 0 <= i < list.len() && path_eq(list[i], k)
}

/// The first known path the new list leaves out, if any.
pub open spec fn first_removed(known: Seq<Seq<char>>, target: Seq<Seq<char>>) -> Option<int> {
    if exists|i: int| 0 <= i < known.len() && !covered(target, known[i]) {
        Some(choose|i: int| 0 <= i < known.len() && !covered(target, known[i]) && forall|j: int| 0 <= j < i ==> covered(target, #[trigger] known[j]))
    } else {
        None
    }
}

/// The paths of `target` not known yet, in order.
pub open spec fn additions(target: Seq<Seq<char>>, known: Seq<Seq<char>>) -> Seq<Seq<char>>
    decreases target.len(),
{
    if target.len() == 0 {
        Seq::empty()
    } else {
        let r = additions(target.drop_last(), known);
        if covered(known, target.last()) { r } else { r.push(target.last()) }
    }
}

pub open spec fn conversation_started(msgs: Seq<Message>) -> bool {
    exists|i: int| 0 <= i < msgs.len() && msgs[i].role == Role::User
}

fn any_path_eq(list: &Vec<String>, k: &str) -> (b: bool)
    ensures
        b == covered(strings_view(list@), k@),
{
    let mut i: usize = 0;
    while i < list.len()
        invariant
            i <= list.len(),
            forall|j: int| 0 <= j < i ==> !path_eq(list@[j]@, k@),
        decreases list.len() - i,
    {
        if same_path(list[i].as_str(), k) {
            assert(strings_view(list@)[i as int] == list@[i as int]@);
            return true;
        }
        i += 1;
    }
    proof {
        if covered(strings_view(list@), k@) {
            let j = choose|j: int| 0 <= j < list.len() && path_eq(strings_view(list@)[j], k@);
            assert(strings_view(list@)[j] == list@[j]@);
        }
    }
    false
}

fn clone_strings(v: &Vec<String>) -> (r: Vec<String>)
    ensures
        strings_view(r@) == strings_view(v@),
{
    let mut r: Vec<String> = Vec::new();
    let mut i: usize = 0;
    while i < v.len()
        invariant
            i <= v.len(),
            strings_view(r@) == strings_view(v@).subrange(0, i as int),
        decreases v.len() - i,
    {
        let s = v[i].clone();
        assert(s@ == strings_view(v@)[i as int]);
        let ghost before = strings_view(r@);
        r.push(s);
        assert(strings_view(r@) =~= before.push(s@));
        assert(strings_view(r@) =~= strings_view(v@).subrange(0, i + 1));
        i += 1;
    }
    assert(strings_view(v@).subrange(0, v.len() as int) =~= strings_view(v@));
    r
}

/// Updates the allowed paths of a session. Before the first user message the
/// list is simply replaced (and nothing is announced or pending). Afterwards
/// the initial list is locked: removing any known path is an error, and the
/// paths that are new are queued to be announced.
pub fn apply_allowed_paths_update(paths: &mut AllowedPaths, messages: &[Message], new_value: Option<Vec<String>>) -> (r: Result<(), String>)
    ensures
        !conversation_started(messages@) ==> r is Ok && final(paths).allowed_paths == new_value
            && final(paths).runtime_allowed_paths@.len() == 0 && final(paths).pending_runtime_allowed_paths@.len() == 0,
        conversation_started(messages@) ==> ({
            let known = known_paths(*old(paths));
            let target = opt_paths(new_value);
            match first_removed(known, target) {
                Some(i) => r matches Err(m) && m@ == "对话开始后不能移除已允许的路径："@ + known[i] && *final(paths) == *old(paths),
                None => r is Ok && final(paths).allowed_paths == old(paths).allowed_paths
                    && final(paths).runtime_allowed_paths == old(paths).runtime_allowed_paths
                    && strings_view(final(paths).pending_runtime_allowed_paths@)
                        == strings_view(old(paths).pending_runtime_allowed_paths@) + additions(target, known),
            }
        }),
{
    let mut started = false;
    let mut i: usize = 0;
    while i < messages.len()
        invariant
            i <= messages.len(),
            started == exists|j: int| 0 <= j < i && messages@[j].role == Role::User,
        decreases messages.len() - i,
    {
        if messages[i].role == Role::User {
            started = true;
        }
        i += 1;
    }
    assert(started == conversation_started(messages@));
    if !started {
        paths.allowed_paths = new_value;
        paths.runtime_allowed_paths = Vec::new();
        paths.pending_runtime_allowed_paths = Vec::new();
        return Ok(());
    }
    let target: Vec<String> = match &new_value {
        Some(v) => clone_strings(v),
        None => Vec::new(),
    };
    let mut known: Vec<String> = match &paths.allowed_paths {
        Some(v) => clone_strings(v),
        None => Vec::new(),
    };
    let ghost k0 = strings_view(known@);
    let mut rt = clone_strings(&paths.runtime_allowed_paths);
    let mut pd = clone_strings(&paths.pending_runtime_allowed_paths);
    known.append(&mut rt);
    known.append(&mut pd);
    let ghost kv = known_paths(*old(paths));
    assert(strings_view(known@) =~= kv);
    let ghost tv = opt_paths(new_value);
    assert(strings_view(target@) == tv);
    let mut a: usize = 0;
    while a < known.len()
        invariant
            a <= known.len(),
            strings_view(known@) == kv,
            strings_view(target@) == tv,
            forall|j: int| 0 <= j < a ==> covered(tv, #[trigger] kv[j]),
            *paths == *old(paths),
            conversation_started(messages@),
            kv == known_paths(*old(paths)),
            tv == opt_paths(new_value),
        decreases known.len() - a,
    {
        if !any_path_eq(&target, known[a].as_str()) {
            assert(kv[a as int] == known@[a as int]@);
            proof {
                let c = choose|c: int| 0 <= c < kv.len() && !covered(tv, kv[c]) && forall|j: int| 0 <= j < c ==> covered(tv, #[trigger] kv[j]);
                assert(0 <= a < kv.len() && !covered(tv, kv[a as int]) && forall|j: int| 0 <= j < a ==> covered(tv, #[trigger] kv[j]));
                if c < a {
                    assert(covered(tv, kv[c]));
                } else if c > a {
                    assert(covered(tv, kv[a as int]));
                }
            }
            return Err(concat_str("对话开始后不能移除已允许的路径：", known[a].as_str()));
        }
        assert(kv[a as int] == known@[a as int]@);
        a += 1;
    }
    assert(first_removed(kv, tv) is None);
    let mut b: usize = 0;
    let ghost p0 = strings_view(paths.pending_runtime_allowed_paths@);
    while b < target.len()
        invariant
            b <= target.len(),
            strings_view(known@) == kv,
            strings_view(target@) == tv,
            paths.allowed_paths == old(paths).allowed_paths,
            paths.runtime_allowed_paths == old(paths).runtime_allowed_paths,
            strings_view(paths.pending_runtime_allowed_paths@) == p0 + additions(tv.subrange(0, b as int), kv),
        decreases target.len() - b,
    {
        let d = &target[b];
        let existed = any_path_eq(&known, d.as_str());
        proof {
            let sub = tv.subrange(0, b + 1);
            assert(sub.drop_last() =~= tv.subrange(0, b as int));
            assert(sub.last() == d@);
        }
        if !existed {
            let ghost before = strings_view(paths.pending_runtime_allowed_paths@);
            paths.pending_runtime_allowed_paths.push(d.clone());
            assert(strings_view(paths.pending_runtime_allowed_paths@) =~= before.push(d@));
        }
        b += 1;
    }
    assert(tv.subrange(0, tv.len() as int) =~= tv);
    Ok(())
}

/// Once the conversation has begun, an accepted update keeps every known path
/// in place and only appends new ones.
pub proof fn law_allowed_paths_only_grow(before: AllowedPaths, after: AllowedPaths, target: Seq<Seq<char>>)
    requires
        after.allowed_paths == before.allowed_paths,
        after.runtime_allowed_paths == before.runtime_allowed_paths,
        strings_view(after.pending_runtime_allowed_paths@) == strings_view(before.pending_runtime_allowed_paths@) + additions(target, known_paths(before)),
    ensures
        known_paths(after) == known_paths(before) + additions(target, known_paths(before)),
        forall|i: int| 0 <= i < known_paths(before).len() ==> #[trigger] known_paths(after)[i] == known_paths(before)[i],
{
    assert(known_paths(after) =~= known_paths(before) + additions(target, known_paths(before)));
}

/// Where approving an out-of-bounds access records the paths.
#[derive(Debug, Clone, Copy, PartialEq, Eq, Structural)]
pub enum PathPersist {
    /// This conversation's allowed paths.
    Session,
    /// The global settings.
    Global,
    /// Nothing to record here (once, or a project rule made by the approval itself).
    Nothing,
}

pub open spec fn path_scope_spec(scope: Seq<char>) -> Option<(PathPersist, Option<PermissionScope>)> {
    if scope == "this_session"@ {
        Some((PathPersist::Session, Some(PermissionScope::Session)))
    } else if scope == "global"@ {
        Some((PathPersist::Global, Some(PermissionScope::Global)))
    } else if scope == "this_project"@ {
        Some((PathPersist::Nothing, Some(PermissionScope::Project)))
    } else if scope == "once"@ {
        Some((PathPersist::Nothing, None))
    } else {
        None
    }
}

/// What approving a path access with `scope` records and how the request is
/// answered (`None`: allow once, else allow and remember in that scope).
pub fn path_access_plan(scope: &str, session_id: Option<&str>) -> (r: Result<(PathPersist, ApprovalDecision), String>)
    ensures
        match path_scope_spec(scope@) {
            None => r matches Err(m) && m@ == "未知 scope: "@ + scope@,
            Some((persist, remember)) => if persist == PathPersist::Session && session_id is None {
                r matches Err(m) && m@ == "approve_path_access: this_session 需要 session_id"@
            } else {
                r matches Ok((p, d)) && p == persist && match remember {
                    None => d is AllowOnce,
                    Some(sc) => d matches ApprovalDecision::AllowAndRemember { scope: s, pattern: pt, extra_patterns: e }
                        && s == sc && pt is None && e@.len() == 0,
                }
            },
        },
{
    let v = chars_of(scope);
    if eq_str(&v, "this_session") {
        if session_id.is_none() {
            return Err("approve_path_access: this_session 需要 session_id".to_string());
        }
        Ok((PathPersist::Session, ApprovalDecision::AllowAndRemember { scope: PermissionScope::Session, pattern: None, extra_patterns: Vec::new() }))
    } else if eq_str(&v, "global") {
        Ok((PathPersist::Global, ApprovalDecision::AllowAndRemember { scope: PermissionScope::Global, pattern: None, extra_patterns: Vec::new() }))
    } else if eq_str(&v, "this_project") {
        Ok((PathPersist::Nothing, ApprovalDecision::AllowAndRemember { scope: PermissionScope::Project, pattern: None, extra_patterns: Vec::new() }))
    } else if eq_str(&v, "once") {
        Ok((PathPersist::Nothing, ApprovalDecision::AllowOnce))
    } else {
        Err(concat_str("未知 scope: ", scope))
    }
}

/// `existing` with the paths of `paths` it does not hold yet appended, in order.
pub open spec fn merged(existing: Seq<Seq<char>>, paths: Seq<Seq<char>>) -> Seq<Seq<char>>
    decreases paths.len(),
{
    if paths.len() == 0 {
        existing
    } else {
        let m = merged(existing, paths.drop_last());
        if covered(m, paths.last()) { m } else { m.push(paths.last()) }
    }
}

/// Adds the approved paths to a stored list, skipping those it holds already.
pub fn merge_paths(existing: &mut Vec<String>, paths: &Vec<String>)
    ensures
        strings_view(final(existing)@) == merged(strings_view(old(existing)@), strings_view(paths@)),
{
    let ghost e0 = strings_view(existing@);
    let mut i: usize = 0;
    while i < paths.len()
        invariant
            i <= paths.len(),
            strings_view(existing@) == merged(e0, strings_view(paths@).subrange(0, i as int)),
        decreases paths.len() - i,
    {
        let p = &paths[i];
        proof {
            let sub = strings_view(paths@).subrange(0, i + 1);
            assert(sub.drop_last() =~= strings_view(paths@).subrange(0, i as int));
            assert(sub.last() == p@);
        }
        if !any_path_eq(existing, p.as_str()) {
            let ghost before = strings_view(existing@);
            existing.push(p.clone());
            assert(strings_view(existing@) =~= before.push(p@));
        }
        i += 1;
    }
    assert(strings_view(paths@).subrange(0, paths.len() as int) =~= strings_view(paths@));
}

/// What `Path::file_name` gives for `path` (as text), if anything.
pub uninterp spec fn path_file_name(path: Seq<char>) -> Option<Seq<char>>;

/// `std::path::Path::file_name` (as text): the contract names the result `path_file_name(path)`.
#[verifier::external_body]
fn file_name_of(path: &str) -> (r: Option<String>)
    ensures
        match r {
            Some(n) => path_file_name(path@) == Some(n@),
            None => path_file_name(path@) is None,
        },
{
    std::path::Path::new(path).file_name().map(|n| n.to_string_lossy().into_owned())
}

/// Only files named `SKILL.md` may be read as skills.
pub fn check_skill_md(path: &str) -> (r: Result<(), String>)
    ensures
        path_file_name(path@) == Some("SKILL.md"@) ==> r is Ok,
        path_file_name(path@) != Some("SKILL.md"@) ==> (r matches Err(m) && m@ == "仅允许读取 SKILL.md 文件"@),
{
    let ok = match file_name_of(path) {
        Some(n) => {
            let nv = chars_of(n.as_str());
            eq_str(&nv, "SKILL.md")
        },
        None => false,
    };
    if ok {
        Ok(())
    } else {
        Err("仅允许读取 SKILL.md 文件".to_string())
    }
}

/// The largest text file attached by path: 1 MiB.
pub const MAX_TEXT_FILE_BYTES: u64 = 1048576;

/// The largest image attached by path: 12 MiB.
pub const MAX_IMAGE_BYTES: u64 = 12582912;

/// The file to look at for an attachment by path: the trimmed path, or for a
/// `file://` URI its percent-decoded rest; `None` when the path is blank.
pub open spec fn attach_target_spec(path: Seq<char>) -> Option<Seq<char>> {
    let raw = trim_spec(path);
    if raw.len() == 0 {
        None
    } else if starts_with_spec(raw, "file://"@) {
        Some(utf8_lossy(pct_from(encode_utf8(raw.subrange(7, raw.len() as int)), 0)))
    } else {
        Some(raw)
    }
}

pub fn attach_target(path: &str) -> (r: Option<String>)
    ensures
        match r {
            Some(t) => attach_target_spec(path@) == Some(t@),
            None => attach_target_spec(path@) is None,
        },
{
    let t = trim(path);
    let tv = chars_of(t.as_str());
    if tv.len() == 0 {
        return None;
    }
    if starts_with_str(&tv, "file://") {
        proof {
            reveal_strlit("file://");
        }
        let mut rest: Vec<char> = Vec::new();
        let mut k: usize = 7;
        while k < tv.len()
            invariant
                7 <= k <= tv.len(),
                rest@ == tv@.subrange(7, k as int),
            decreases tv.len() - k,
        {
            rest.push(tv[k]);
            k += 1;
        }
        let rs = string_of(&rest);
        return Some(percent_decode(rs.as_str()));
    }
    Some(t)
}

/// What to do with an existing file or directory attached by path.
#[derive(Debug, PartialEq, Eq)]
pub enum AttachPlan {
    /// A directory: the front end adds it to the allowed paths.
    Dir { path: String, name: String },
    /// Not attachable, with the reason.
    Unsupported { reason: String },
    /// Read it and attach it as an image.
    ReadImage { name: String, media_type: String },
    /// Read it and attach it as text.
    ReadText { name: String, media_type: String },
}

/// A file's display name: its file name, else the whole path.
pub open spec fn display_name_spec(path: Seq<char>) -> Seq<char> {
    match path_file_name(path) {
        Some(n) => n,
        None => path,
    }
}

pub open spec fn attach_plan_spec(path: Seq<char>, is_dir: bool, size: u64, p: AttachPlan) -> bool {
    let name = display_name_spec(path);
    let media = media_type_spec(lower_ext(path));
    let text_like = starts_with_spec(media, "text/"@) || media == "application/json"@ || media == "application/xml"@
        || (lower_ext(path) matches Some(e) && text_ext(e));
    if is_dir {
        p matches AttachPlan::Dir { path: dp, name: n } && dp@ == path && n@ == name
    } else if starts_with_spec(media, "image/"@) {
        if size > MAX_IMAGE_BYTES {
            p matches AttachPlan::Unsupported { reason } && reason@ == name + " 超过 12MB"@
        } else {
            p matches AttachPlan::ReadImage { name: n, media_type: m } && n@ == name && m@ == media
        }
    } else if !text_like {
        p matches AttachPlan::Unsupported { reason } && reason@ == name + " 不是支持的文本或图片文件"@
    } else if size > MAX_TEXT_FILE_BYTES {
        p matches AttachPlan::Unsupported { reason } && reason@ == name + " 超过 1MB"@
    } else {
        p matches AttachPlan::ReadText { name: n, media_type: m } && n@ == name && m@ == media
    }
}

/// Decides how to attach the file at `path`, given whether it is a directory
/// and its size: directories are offered for the allowed paths; images up to
/// 12 MiB and text files up to 1 MiB are read; anything else is refused.
pub fn attach_plan(path: &str, is_dir: bool, size: u64) -> (p: AttachPlan)
    ensures
        attach_plan_spec(path@, is_dir, size, p),
{
    let name = match file_name_of(path) {
        Some(n) => n,
        None => path.to_string(),
    };
    if is_dir {
        return AttachPlan::Dir { path: path.to_string(), name };
    }
    let media_type = guess_media_type(path);
    let mv = chars_of(media_type.as_str());
    if starts_with_str(&mv, "image/") {
        if size > MAX_IMAGE_BYTES {
            return AttachPlan::Unsupported { reason: concat_str(name.as_str(), " 超过 12MB") };
        }
        return AttachPlan::ReadImage { name, media_type };
    }
    if !looks_like_text(media_type.as_str(), path) {
        return AttachPlan::Unsupported { reason: concat_str(name.as_str(), " 不是支持的文本或图片文件") };
    }
    if size > MAX_TEXT_FILE_BYTES {
        return AttachPlan::Unsupported { reason: concat_str(name.as_str(), " 超过 1MB") };
    }
    AttachPlan::ReadText { name, media_type }
}

/// A file attached to a message.
#[derive(Debug, PartialEq, Eq)]
pub enum MessageAttachment {
    /// An image, its bytes in Base64.
    Image { name: String, media_type: String, data: String },
    TextFile { name: String, media_type: String, content: String },
}

/// The attachment of an image read from disk: its bytes in standard Base64.
pub fn image_attachment(name: String, media_type: String, bytes: &[u8]) -> (a: MessageAttachment)
    requires
        4 * ((bytes@.len() + 2) / 3) <= usize::MAX,
    ensures
        a matches MessageAttachment::Image { name: n, media_type: m, data } && n == name && m == media_type
            && data@ == b64_spec(bytes@),
{
    MessageAttachment::Image { name, media_type, data: b64_standard(bytes) }
}


/// A snapshot of an edit the agent made, as the edit history lists it.
#[derive(Debug, PartialEq, Eq)]
pub struct EditSnapshot {
    pub snapshot_id: String,
    pub reverted: bool,
    pub real_path: String,
}

/// The first snapshot with id `id`.
pub open spec fn snapshot_index(entries: Seq<EditSnapshot>, id: Seq<char>) -> Option<int> {
    if exists|i: int| 0 <= i < entries.len() && entries[i].snapshot_id@ == id
        && (forall|j: int| 0 <= j < i ==> entries[j].snapshot_id@ != id) {
        Some(choose|i: int| 0 <= i < entries.len() && entries[i].snapshot_id@ == id
            && (forall|j: int| 0 <= j < i ==> entries[j].snapshot_id@ != id))
    } else {
        None
    }
}

fn find_snapshot(entries: &Vec<EditSnapshot>, id: &str) -> (r: Option<usize>)
    ensures
        match r {
            Some(i) => snapshot_index(entries@, id@) == Some(i as int),
            None => snapshot_index(entries@, id@) is None,
        },
{
    let mut i: usize = 0;
    while i < entries.len()
        invariant
            i <= entries.len(),
            forall|j: int| 0 <= j < i ==> entries@[j].snapshot_id@ != id@,
        decreases entries.len() - i,
    {
        let v = chars_of(entries[i].snapshot_id.as_str());
        if eq_str(&v, id) {
            proof {
                let k = i as int;
                let w = choose|w: int| 0 <= w < entries@.len() && entries@[w].snapshot_id@ == id@
                    && (forall|j: int| 0 <= j < w ==> entries@[j].snapshot_id@ != id@);
                assert(0 <= k < entries@.len() && entries@[k].snapshot_id@ == id@
                    && (forall|j: int| 0 <= j < k ==> entries@[j].snapshot_id@ != id@));
                assert(w == k) by {
                    if w < k {
                        assert(entries@[w].snapshot_id@ != id@);
                    } else if w > k {
                        assert(entries@[k].snapshot_id@ != id@);
                    }
                }
            }
            return Some(i);
        }
        i += 1;
    }
    None
}

/// Which snapshot to show the diff of: none without git, none when the id is unknown.
pub fn diff_target(git_enabled: bool, entries: &Vec<EditSnapshot>, snapshot_id: &str) -> (r: Result<usize, String>)
    ensures
        !git_enabled ==> (r matches Err(e) && e@ == "git 不可用，无法生成 diff"@),
        git_enabled ==> match snapshot_index(entries@, snapshot_id@) {
            Some(i) => r == Ok::<usize, String>(i as usize),
            None => r matches Err(e) && e@ == "找不到该快照"@,
        },
{
    if !git_enabled {
        return Err("git 不可用，无法生成 diff".to_string());
    }
    match find_snapshot(entries, snapshot_id) {
        Some(i) => Ok(i),
        None => Err("找不到该快照".to_string()),
    }
}

/// Which snapshot to revert: none without git, none when the id is unknown,
/// and never one that was reverted already.
pub fn revert_target(git_enabled: bool, entries: &Vec<EditSnapshot>, snapshot_id: &str) -> (r: Result<usize, String>)
    ensures
        !git_enabled ==> (r matches Err(e) && e@ == "git 不可用，回退功能已禁用"@),
        git_enabled ==> match snapshot_index(entries@, snapshot_id@) {
            Some(i) => if entries@[i].reverted {
                r matches Err(e) && e@ == "该快照已回退过"@
            } else {
                r == Ok::<usize, String>(i as usize)
            },
            None => r matches Err(e) && e@ == "找不到该快照"@,
        },
{
    if !git_enabled {
        return Err("git 不可用，回退功能已禁用".to_string());
    }
    match find_snapshot(entries, snapshot_id) {
        Some(i) => if entries[i].reverted {
            Err("该快照已回退过".to_string())
        } else {
            Ok(i)
        },
        None => Err("找不到该快照".to_string()),
    }
}

/// What a revert reports.
#[derive(Debug, PartialEq, Eq)]
pub struct RevertResult {
    pub success: bool,
    pub error: Option<String>,
}

/// A revert that ran reports success, or the error it met.
pub fn revert_result(outcome: Result<(), String>) -> (r: RevertResult)
    ensures
        match outcome {
            Ok(()) => r.success && r.error is None,
            Err(e) => !r.success && r.error == Some(e),
        },
{
    match outcome {
        Ok(()) => RevertResult { success: true, error: None },
        Err(e) => RevertResult { success: false, error: Some(e) },
    }
}

} // verus!
