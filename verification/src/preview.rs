//! The built-in preview browser around the history: window labels, what a
//! page navigation is allowed to do, the history of the embedded and
//! pop-out pages (which tell navigations they started from ones the user
//! made), and the pop-out toolbar's commands.

use vstd::prelude::*;
use crate::browser_history::{back_spec, forward_spec, navigate_spec, strings_view, HistoryModel};
use crate::notch::{b64_spec, b64_standard, b64_standard_decode};
use crate::text::{all_digits, chars_of, concat_str, decimal, decimal_spec, digits_value, eq_str, is_digit, starts_with_spec};
use vstd::utf8::{encode_scalar, encode_utf8};
use crate::url_policy::{url_parse, url_parse_spec, validate_preview_url, validate_spec, PreviewOrigin, PreviewUrl, UrlParts};

verus! {

/// The label of a session's pop-out window.
pub fn popout_label(session_id: &str) -> (l: String)
    ensures
        l@ == "preview-popout-"@ + session_id@,
{
    concat_str("preview-popout-", session_id)
}

/// The label of the page view inside a session's pop-out window.
pub fn popout_page_label(session_id: &str) -> (l: String)
    ensures
        l@ == "preview-popout-page-"@ + session_id@,
{
    concat_str("preview-popout-page-", session_id)
}

/// The title of a session's pop-out window: the conversation's title (or
/// `页面预览` when it has none), then the session id, so that several
/// pop-outs can be told apart.
pub fn popout_title(title: Option<String>, session_id: &str) -> (t: String)
    ensures
        t@ == match title {
            Some(x) => if x@.len() > 0 { x@ } else { "页面预览"@ },
            None => "页面预览"@,
        } + " · "@ + session_id@,
{
    let base = match title {
        Some(x) => if x.as_str().is_empty() { "页面预览".to_string() } else { x },
        None => "页面预览".to_string(),
    };
    let a = concat_str(base.as_str(), " · ");
    concat_str(a.as_str(), session_id)
}

/// The label of a session's embedded preview view.
pub fn webview_label(session_id: &str) -> (l: String)
    ensures
        l@ == "heb-preview-"@ + session_id@,
{
    concat_str("heb-preview-", session_id)
}

/// What a navigation inside a preview page leads to.
#[derive(Debug, PartialEq, Eq)]
pub enum NavVerdict {
    /// A message from the injected inspector: handled, never navigated.
    Bridge,
    /// An internal page (not http or https): allowed, not recorded.
    Internal,
    /// An allowed page the user went to: recorded in the history.
    Allowed,
    /// Refused, with the reason for the user.
    Escaped { reason: String },
}

/// The verdict on a navigation: inspector messages are handled, internal
/// pages pass, web pages pass the user-tier check or are refused.
pub open spec fn nav_verdict_spec(is_bridge: bool, scheme: Seq<char>, url: Seq<char>, v: NavVerdict) -> bool {
    if is_bridge {
        v is Bridge
    } else if scheme != "http"@ && scheme != "https"@ {
        v is Internal
    } else {
        match validate_spec(url, PreviewOrigin::User) {
            Ok(_) => v is Allowed,
            Err(m) => v matches NavVerdict::Escaped { reason } && reason@ == m,
        }
    }
}

pub fn navigation_verdict(is_bridge: bool, scheme: &str, url: &str) -> (v: NavVerdict)
    ensures
        nav_verdict_spec(is_bridge, scheme@, url@, v),
{
    if is_bridge {
        return NavVerdict::Bridge;
    }
    let sv = chars_of(scheme);
    if !eq_str(&sv, "http") && !eq_str(&sv, "https") {
        return NavVerdict::Internal;
    }
    match validate_preview_url(url, PreviewOrigin::User) {
        Ok(_) => NavVerdict::Allowed,
        Err(reason) => NavVerdict::Escaped { reason },
    }
}

/// The history of an embedded or pop-out page, and whether the next page load
/// was started by the app itself (and so is already recorded).
pub struct PageHistory {
    pub history: Vec<String>,
    pub cursor: usize,
    pub programmatic: bool,
}

impl PageHistory {
    pub open spec fn model(&self) -> HistoryModel {
        (strings_view(self.history@), self.cursor as int)
    }

    /// A page opened on `url`. The first load is the app's own, so it is not
    /// recorded a second time.
    pub fn open(url: &str) -> (p: Self)
        ensures
            p.model() == (seq![url@], 0int),
            p.programmatic,
    {
        let mut history: Vec<String> = Vec::new();
        history.push(url.to_string());
        let p = PageHistory { history, cursor: 0, programmatic: true };
        assert(p.model().0 =~= seq![url@]);
        p
    }

    fn record(&mut self, url: &str)
        requires
            old(self).cursor < usize::MAX,
        ensures
            final(self).model() == navigate_spec(old(self).model(), url@),
            final(self).programmatic == old(self).programmatic,
    {
        self.history.truncate(self.cursor + 1);
        let ghost kept = strings_view(self.history@);
        self.history.push(url.to_string());
        self.cursor = self.history.len() - 1;
        assert(strings_view(self.history@) =~= kept.push(url@));
    }

    /// The app navigates to `url` itself: recorded now, and the page load it
    /// causes is not recorded again.
    pub fn navigate_to(&mut self, url: &str)
        requires
            old(self).cursor < usize::MAX,
        ensures
            final(self).model() == navigate_spec(old(self).model(), url@),
            final(self).programmatic,
    {
        self.record(url);
        self.programmatic = true;
    }

    /// A page finished navigating to `url`: recorded unless the app started it.
    pub fn on_page_navigated(&mut self, url: &str)
        requires
            old(self).cursor < usize::MAX,
        ensures
            old(self).programmatic ==> final(self).model() == old(self).model(),
            !old(self).programmatic ==> final(self).model() == navigate_spec(old(self).model(), url@),
            !final(self).programmatic,
    {
        if self.programmatic {
            self.programmatic = false;
        } else {
            self.record(url);
        }
    }

    /// Back one entry (when there is one); returns the URL to load.
    pub fn back(&mut self) -> (r: Option<String>)
        requires
            old(self).cursor < old(self).history.len(),
        ensures
            final(self).model() == back_spec(old(self).model()),
            r is Some <==> old(self).cursor > 0,
            r matches Some(u) ==> u@ == final(self).model().0[final(self).model().1] && final(self).programmatic,
            r is None ==> final(self).programmatic == old(self).programmatic,
    {
        if self.cursor == 0 {
            return None;
        }
        self.cursor -= 1;
        self.programmatic = true;
        Some(self.history[self.cursor].clone())
    }

    /// Forward one entry (when there is one); returns the URL to load.
    pub fn forward(&mut self) -> (r: Option<String>)
        requires
            old(self).cursor < old(self).history.len(),
        ensures
            final(self).model() == forward_spec(old(self).model()),
            r is Some <==> old(self).cursor + 1 < old(self).history.len(),
            r matches Some(u) ==> u@ == final(self).model().0[final(self).model().1] && final(self).programmatic,
            r is None ==> final(self).programmatic == old(self).programmatic,
    {
        if self.cursor + 1 >= self.history.len() {
            return None;
        }
        self.cursor += 1;
        self.programmatic = true;
        Some(self.history[self.cursor].clone())
    }

    /// Moves `delta` entries through the history when that stays inside it;
    /// returns the URL of the new entry, whose load the app starts itself (so
    /// it is not recorded again).
    pub fn go(&mut self, delta: isize) -> (r: Option<String>)
        ensures
            ({
                let ni = old(self).cursor + delta;
                if ni < 0 || ni >= old(self).history.len() {
                    r is None && final(self).model() == old(self).model()
                        && final(self).programmatic == old(self).programmatic
                } else {
                    r matches Some(u) && final(self).cursor == ni && final(self).history == old(self).history
                        && u@ == old(self).model().0[ni] && final(self).programmatic
                }
            }),
    {
        let n = self.history.len();
        if delta < 0 {
            let back: usize = ((0 - (delta + 1)) as usize) + 1;
            if back > self.cursor {
                return None;
            }
            if self.cursor - back >= n {
                return None;
            }
            self.cursor = self.cursor - back;
            assert(self.cursor == old(self).cursor + delta);
        } else {
            let fwd = delta as usize;
            if fwd >= n || self.cursor >= n - fwd {
                return None;
            }
            self.cursor = self.cursor + fwd;
            assert(self.cursor == old(self).cursor + delta);
        }
        let u = self.history[self.cursor].clone();
        assert(u@ == old(self).model().0[self.cursor as int]);
        self.programmatic = true;
        Some(u)
    }

    /// The state the page reports: current URL (empty when none), whether back
    /// and forward are possible.
    pub fn state(&self) -> (r: (String, bool, bool))
        ensures
            self.cursor < self.history.len() ==> r.0@ == self.model().0[self.cursor as int],
            self.cursor >= self.history.len() ==> r.0@.len() == 0,
            r.1 == (self.cursor > 0),
            r.2 == (self.cursor + 1 < self.history.len()),
    {
        let url = if self.cursor < self.history.len() { self.history[self.cursor].clone() } else { String::new() };
        (url, self.cursor > 0, self.cursor < self.history.len() && self.cursor + 1 < self.history.len())
    }
}

/// A command from the pop-out toolbar.
#[derive(Debug, PartialEq, Eq)]
pub enum ToolbarCommand {
    Navigate,
    Back,
    Forward,
    Reload,
    Picker,
    Resize,
    Drag,
    Close,
    Ignore,
}

pub open spec fn toolbar_spec(ty: Seq<char>) -> ToolbarCommand {
    if ty == "tb:navigate"@ {
        ToolbarCommand::Navigate
    } else if ty == "tb:back"@ {
        ToolbarCommand::Back
    } else if ty == "tb:forward"@ {
        ToolbarCommand::Forward
    } else if ty == "tb:reload"@ {
        ToolbarCommand::Reload
    } else if ty == "tb:picker"@ {
        ToolbarCommand::Picker
    } else if ty == "tb:resize"@ {
        ToolbarCommand::Resize
    } else if ty == "tb:drag"@ {
        ToolbarCommand::Drag
    } else if ty == "tb:close"@ {
        ToolbarCommand::Close
    } else {
        ToolbarCommand::Ignore
    }
}

/// The toolbar command a message type names.
pub fn toolbar_command(ty: &str) -> (c: ToolbarCommand)
    ensures
        c == toolbar_spec(ty@),
{
    let v = chars_of(ty);
    if eq_str(&v, "tb:navigate") {
        ToolbarCommand::Navigate
    } else if eq_str(&v, "tb:back") {
        ToolbarCommand::Back
    } else if eq_str(&v, "tb:forward") {
        ToolbarCommand::Forward
    } else if eq_str(&v, "tb:reload") {
        ToolbarCommand::Reload
    } else if eq_str(&v, "tb:picker") {
        ToolbarCommand::Picker
    } else if eq_str(&v, "tb:resize") {
        ToolbarCommand::Resize
    } else if eq_str(&v, "tb:drag") {
        ToolbarCommand::Drag
    } else if eq_str(&v, "tb:close") {
        ToolbarCommand::Close
    } else {
        ToolbarCommand::Ignore
    }
}

/// The DevTools endpoint of a Chromium instance on a local port.
pub struct CdpBridge {
    endpoint: String,
}

impl CdpBridge {
    pub closed spec fn endpoint_spec(&self) -> Seq<char> {
        self.endpoint@
    }

    /// The bridge to `http://127.0.0.1:<port>`.
    pub fn new(port: u16) -> (b: Self)
        ensures
            b.endpoint_spec() == "http://127.0.0.1:"@ + decimal_spec(port as nat),
    {
        let d = decimal(port as u64);
        CdpBridge { endpoint: concat_str("http://127.0.0.1:", d.as_str()) }
    }

    pub fn endpoint(&self) -> (e: &str)
        ensures
            e@ == self.endpoint_spec(),
    {
        self.endpoint.as_str()
    }
}

/// What `u16::from_str` accepts: an optional `+`, then at least one ASCII digit,
/// with a value that fits.
pub open spec fn unsigned_part(s: Seq<char>) -> Seq<char> {
    if s.len() > 0 && s[0] == '+' { s.drop_first() } else { s }
}

pub open spec fn u16_spec(s: Seq<char>) -> Option<nat> {
    let digits = unsigned_part(s);
    if digits.len() > 0 && all_digits(digits) && digits_value(digits) <= 65535 {
        Some(digits_value(digits))
    } else {
        None
    }
}

/// Parses a port number as `str::parse::<u16>` does.
pub fn parse_u16(s: &str) -> (r: Option<u16>)
    ensures
        match r {
            Some(p) => u16_spec(s@) == Some(p as nat),
            None => u16_spec(s@) is None,
        },
{
    let v = chars_of(s);
    let start: usize = if v.len() > 0 && v[0] == '+' { 1 } else { 0 };
    let ghost digits = if v@.len() > 0 && v@[0] == '+' { v@.drop_first() } else { v@ };
    assert(digits =~= v@.subrange(start as int, v.len() as int));
    if v.len() == start {
        return None;
    }
    let mut acc: u32 = 0;
    let mut i: usize = start;
    while i < v.len()
        invariant
            start <= i <= v.len(),
            v@ == s@,
            digits == unsigned_part(s@),
            digits == v@.subrange(start as int, v.len() as int),
            forall|k: int| start <= k < i ==> is_digit(#[trigger] v@[k]),
            acc == digits_value(v@.subrange(start as int, i as int)),
            acc <= 65535,
        decreases v.len() - i,
    {
        let c = v[i];
        if !('0' <= c && c <= '9') {
            proof {
                assert(digits[i - start] == v@[i as int]);
                assert(!is_digit(digits[i - start]));
                assert(!all_digits(digits));
                assert(u16_spec(s@) is None);
            }
            return None;
        }
        assert(v@.subrange(start as int, i + 1).drop_last() =~= v@.subrange(start as int, i as int));
        let d = (c as u32) - ('0' as u32);
        let next = acc * 10 + d;
        if next > 65535 {
            proof {
                assert(digits.subrange(0, (i + 1 - start) as int) =~= v@.subrange(start as int, i + 1));
                if all_digits(digits) {
                    lemma_digits_value_mono(digits, (i + 1 - start) as int);
                    assert(digits_value(digits) > 65535);
                }
                assert(u16_spec(s@) is None);
            }
            return None;
        }
        acc = next;
        i += 1;
    }
    proof {
        assert(v@.subrange(start as int, i as int) =~= digits);
        assert forall|k: int| 0 <= k < digits.len() implies is_digit(#[trigger] digits[k]) by {
            assert(digits[k] == v@[start + k]);
        }
    }
    Some(acc as u16)
}

/// A prefix of digits is worth no more than the whole.
proof fn lemma_digits_value_mono(s: Seq<char>, n: int)
    requires
        0 <= n <= s.len(),
        forall|k: int| 0 <= k < s.len() ==> is_digit(#[trigger] s[k]),
    ensures
        digits_value(s.subrange(0, n)) <= digits_value(s),
    decreases s.len() - n,
{
    if n < s.len() {
        lemma_digits_value_mono(s, n + 1);
        assert(s.subrange(0, n + 1).drop_last() =~= s.subrange(0, n));
        assert(s.subrange(0, n + 1).last() == s[n]);
        assert(is_digit(s[n]));
        assert(s.subrange(0, s.len() as int) =~= s);
    } else {
        assert(s.subrange(0, n) =~= s);
    }
}

/// The bridge named by the `HEBBIAN_PREVIEW_CDP` value: a port number, else none.
pub fn bridge_from_env_value(value: Option<&str>) -> (b: Option<CdpBridge>)
    ensures
        match value {
            None => b is None,
            Some(v) => match u16_spec(v@) {
                None => b is None,
                Some(p) => b matches Some(x) && x.endpoint_spec() == "http://127.0.0.1:"@ + decimal_spec(p),
            },
        },
{
    match value {
        Some(v) => match parse_u16(v) {
            Some(p) => Some(CdpBridge::new(p)),
            None => None,
        },
        None => None,
    }
}

/// What the embedded browser engine reports about its page.
#[derive(Debug, PartialEq, Eq)]
pub enum NavUpdate {
    /// The address changed (also after a redirect was followed).
    Url(String),
    Title(String),
    /// Whether the page is loading.
    Loading(bool),
}

/// An event for the front end about the preview of one conversation.
#[derive(Debug, PartialEq, Eq)]
pub enum BrowserEvent {
    /// On `browser://state`; an empty `url` leaves the address as it is.
    State { session_id: String, url: String, can_go_back: bool, can_go_forward: bool, loading: bool },
    /// On `browser://title`.
    Title { session_id: String, url: String, title: String },
}

/// The event an engine report of the preview of `session_id` becomes: the
/// engine keeps no history of its own here, so back and forward are off.
pub fn nav_update_event(session_id: &str, update: NavUpdate) -> (e: BrowserEvent)
    ensures
        match update {
            NavUpdate::Url(u) => e matches BrowserEvent::State { session_id: s, url, can_go_back, can_go_forward, loading }
                && s@ == session_id@ && url == u && !can_go_back && !can_go_forward && !loading,
            NavUpdate::Title(t) => e matches BrowserEvent::Title { session_id: s, url, title }
                && s@ == session_id@ && url@.len() == 0 && title == t,
            NavUpdate::Loading(l) => e matches BrowserEvent::State { session_id: s, url, can_go_back, can_go_forward, loading }
                && s@ == session_id@ && url@.len() == 0 && !can_go_back && !can_go_forward && loading == l,
        },
{
    match update {
        NavUpdate::Url(url) => BrowserEvent::State {
            session_id: session_id.to_string(), url, can_go_back: false, can_go_forward: false, loading: false,
        },
        NavUpdate::Title(title) => BrowserEvent::Title { session_id: session_id.to_string(), url: String::new(), title },
        NavUpdate::Loading(loading) => BrowserEvent::State {
            session_id: session_id.to_string(), url: String::new(), can_go_back: false, can_go_forward: false, loading,
        },
    }
}

/// The state event of a preview whose page history is `page`.
pub fn state_event(session_id: &str, page: &PageHistory, loading: bool) -> (e: BrowserEvent)
    ensures
        e matches BrowserEvent::State { session_id: s, url, can_go_back, can_go_forward, loading: l }
            && s@ == session_id@ && l == loading
            && (page.cursor < page.history.len() ==> url@ == page.model().0[page.cursor as int])
            && (page.cursor >= page.history.len() ==> url@.len() == 0)
            && can_go_back == (page.cursor > 0)
            && can_go_forward == (page.cursor + 1 < page.history.len()),
{
    let (url, can_go_back, can_go_forward) = page.state();
    BrowserEvent::State { session_id: session_id.to_string(), url, can_go_back, can_go_forward, loading }
}

/// A `data:` URL carrying `html` in Base64 (pages loaded this way run their
/// initialization scripts, unlike `about:blank`).
pub fn data_url(html: &str) -> (u: String)
    requires
        4 * ((encode_utf8(html@).len() + 2) / 3) <= usize::MAX,
    ensures
        u@ == "data:text/html;base64,"@ + b64_spec(encode_utf8(html@)),
{
    let b = b64_standard(html.as_bytes());
    concat_str("data:text/html;base64,", b.as_str())
}

/// The image bytes of a screenshot reply whose `data` field is `data`.
pub fn screenshot_bytes(data: Option<&str>) -> (r: Result<Vec<u8>, String>)
    ensures
        match data {
            None => r matches Err(e) && e@ == "截图无数据"@,
            Some(d) => (r matches Ok(b) ==> b64_spec(b@) == d@)
                && ((exists|b: Seq<u8>| b64_spec(b) == d@) ==> r is Ok)
                && (r matches Err(e) ==> starts_with_spec(e@, "截图解码失败: "@)),
        },
{
    match data {
        None => Err("截图无数据".to_string()),
        Some(d) => match b64_standard_decode(d) {
            Ok(bytes) => Ok(bytes),
            Err(e) => {
                let m = concat_str("截图解码失败: ", e.as_str());
                assert(m@.subrange(0, "截图解码失败: "@.len() as int) =~= "截图解码失败: "@);
                Err(m)
            },
        },
    }
}


/// UTF-8 takes at most four bytes a character.
proof fn lemma_utf8_len_bound(s: Seq<char>)
    ensures
        encode_utf8(s).len() <= 4 * s.len(),
    decreases s.len(),
{
    if s.len() > 0 {
        assert(encode_scalar(s[0] as u32).len() <= 4);
        lemma_utf8_len_bound(s.drop_first());
    }
}

/// The blank page a pop-out opens on when its conversation has no page yet.
pub open spec fn blank_page_html() -> Seq<char> {
    "<!DOCTYPE html><html><head><meta charset=\"utf-8\"><title>新页面</title></head><body style=\"margin:0;background:#fff\"></body></html>"@
}

/// The pop-out's start: the conversation's current page with a history of
/// just that page, or, without one, the blank page as a `data:` URL and an
/// empty history (the address bar then waits for the user). Either way the
/// cursor is at 0 and the first load is the app's own, not recorded again.
/// A current page that does not parse as a URL is refused, and so would be a
/// blank page that did not.
pub fn popout_start(current: Option<String>) -> (r: Result<(PreviewUrl, PageHistory), String>)
    ensures
        r matches Ok((_, h)) ==> h.cursor == 0 && h.programmatic,
        match current {
            Some(u) => match url_parse_spec(u@) {
                Some(p) => r matches Ok((pu, h)) && pu.parts() == p && h.model() == (seq![u@], 0int),
                None => r matches Err(e) && e@ == "当前地址异常"@,
            },
            None => match url_parse_spec("data:text/html;base64,"@ + b64_spec(encode_utf8(blank_page_html()))) {
                Some(p) => r matches Ok((pu, h)) && pu.parts() == p && h.history@.len() == 0,
                None => r matches Err(e) && e@ == "空白页生成失败"@,
            },
        },
{
    match current {
        Some(u) => {
            let page = match url_parse(u.as_str()) {
                Some(pu) => pu,
                None => return Err("当前地址异常".to_string()),
            };
            let mut history: Vec<String> = Vec::new();
            history.push(u.clone());
            let p = PageHistory { history, cursor: 0, programmatic: true };
            assert(p.model().0 =~= seq![u@]);
            Ok((page, p))
        },
        None => {
            let html = "<!DOCTYPE html><html><head><meta charset=\"utf-8\"><title>新页面</title></head><body style=\"margin:0;background:#fff\"></body></html>";
            proof {
                reveal_strlit("<!DOCTYPE html><html><head><meta charset=\"utf-8\"><title>新页面</title></head><body style=\"margin:0;background:#fff\"></body></html>");
                lemma_utf8_len_bound(html@);
                assert(html@.len() < 200);
            }
            let blank = data_url(html);
            match url_parse(blank.as_str()) {
                Some(pu) => Ok((pu, PageHistory { history: Vec::new(), cursor: 0, programmatic: true })),
                None => Err("空白页生成失败".to_string()),
            }
        },
    }
}

} // verus!

