//! Conversation messages: which ones take part in a model request, how each
//! provider's format names their roles, and the fallback title of a conversation.

use vstd::prelude::*;
use crate::chunking::{utf8_len, utf8_len_exceeds, utf8_width};
use crate::text::{chars_of, concat_str, string_of, take_chars_vec, take_spec, trim, trim_spec};

verus! {

/// Who wrote a message. `Marker` separates provider switches and is never sent.
#[derive(Debug, Clone, Copy, PartialEq, Eq, Structural)]
pub enum Role {
    System,
    User,
    Assistant,
    Marker,
}

/// A stored conversation message.
#[derive(Debug, PartialEq, Eq)]
pub struct Message {
    pub id: String,
    pub role: Role,
    pub content: String,
}

/// The messages that take part in a model request: all but the markers, in order.
pub open spec fn effective_spec(msgs: Seq<Message>) -> Seq<Message> {
    msgs.filter(|m: Message| m.role != Role::Marker)
}

pub fn effective_messages(msgs: &[Message]) -> (r: Vec<&Message>)
    ensures
        r@.map_values(|m: &Message| *m) == effective_spec(msgs@),
{
    let mut r: Vec<&Message> = Vec::new();
    let mut i: usize = 0;
    while i < msgs.len()
        invariant
            i <= msgs.len(),
            r@.map_values(|m: &Message| *m) == effective_spec(msgs@.subrange(0, i as int)),
        decreases msgs.len() - i,
    {
        let m = &msgs[i];
        proof {
            let sub = msgs@.subrange(0, i + 1);
            assert(sub.drop_last() =~= msgs@.subrange(0, i as int));
            reveal_with_fuel(Seq::filter, 1);
        }
        if m.role != Role::Marker {
            r.push(m);
        }
        i += 1;
        assert(r@.map_values(|m: &Message| *m) =~= effective_spec(msgs@.subrange(0, i as int)));
    }
    assert(msgs@.subrange(0, msgs.len() as int) =~= msgs@);
    r
}

/// One entry of a provider request: role name and text.
#[derive(Debug, PartialEq, Eq)]
pub struct ChatTurn {
    pub role: String,
    pub content: String,
}

pub open spec fn turns_view(v: Seq<ChatTurn>) -> Seq<(Seq<char>, Seq<char>)> {
    v.map_values(|t: ChatTurn| (t.role@, t.content@))
}

pub open spec fn openai_role(r: Role) -> Seq<char> {
    match r {
        Role::System => "system"@,
        Role::User => "user"@,
        Role::Assistant => "assistant"@,
        Role::Marker => Seq::empty(),
    }
}

/// Turns of the messages as a provider names them; `None` for messages left out.
pub open spec fn provider_turns(msgs: Seq<Message>, name: spec_fn(Role) -> Option<Seq<char>>) -> Seq<(Seq<char>, Seq<char>)>
    decreases msgs.len(),
{
    if msgs.len() == 0 {
        Seq::empty()
    } else {
        let rest = provider_turns(msgs.drop_last(), name);
        match name(msgs.last().role) {
            Some(r) => rest.push((r, msgs.last().content@)),
            None => rest,
        }
    }
}

pub open spec fn openai_name(r: Role) -> Option<Seq<char>> {
    if r == Role::Marker { None } else { Some(openai_role(r)) }
}

pub open spec fn anthropic_name(r: Role) -> Option<Seq<char>> {
    match r {
        Role::User => Some("user"@),
        Role::Assistant => Some("assistant"@),
        _ => None,
    }
}

pub open spec fn gemini_name(r: Role) -> Option<Seq<char>> {
    match r {
        Role::User => Some("user"@),
        Role::Assistant => Some("model"@),
        _ => None,
    }
}

fn role_name(r: Role, flavour: u8) -> (n: Option<String>)
    requires
        flavour < 3,
    ensures
        flavour == 0 ==> opt_str(n) == openai_name(r),
        flavour == 1 ==> opt_str(n) == anthropic_name(r),
        flavour == 2 ==> opt_str(n) == gemini_name(r),
{
    match r {
        Role::System => if flavour == 0 { Some("system".to_string()) } else { None },
        Role::User => Some("user".to_string()),
        Role::Assistant => if flavour == 2 { Some("model".to_string()) } else { Some("assistant".to_string()) },
        Role::Marker => None,
    }
}

pub open spec fn opt_str(o: Option<String>) -> Option<Seq<char>> {
    match o {
        Some(s) => Some(s@),
        None => None,
    }
}

pub open spec fn flavour_name(flavour: u8) -> spec_fn(Role) -> Option<Seq<char>> {
    if flavour == 0 {
        |r: Role| openai_name(r)
    } else if flavour == 1 {
        |r: Role| anthropic_name(r)
    } else {
        |r: Role| gemini_name(r)
    }
}

fn turns_for(msgs: &[Message], flavour: u8) -> (out: Vec<ChatTurn>)
    requires
        flavour < 3,
    ensures
        turns_view(out@) == provider_turns(msgs@, flavour_name(flavour)),
{
    let mut out: Vec<ChatTurn> = Vec::new();
    let mut i: usize = 0;
    while i < msgs.len()
        invariant
            i <= msgs.len(),
            flavour < 3,
            turns_view(out@) == provider_turns(msgs@.subrange(0, i as int), flavour_name(flavour)),
        decreases msgs.len() - i,
    {
        let ghost sub = msgs@.subrange(0, i + 1);
        assert(sub.drop_last() =~= msgs@.subrange(0, i as int));
        assert(sub.last() == msgs@[i as int]);
        let ghost before = turns_view(out@);
        match role_name(msgs[i].role, flavour) {
            Some(role) => {
                let t = ChatTurn { role, content: msgs[i].content.clone() };
                out.push(t);
                assert(turns_view(out@) =~= before.push((t.role@, t.content@)));
            },
            None => {},
        }
        i += 1;
    }
    assert(msgs@.subrange(0, msgs.len() as int) =~= msgs@);
    out
}

/// OpenAI messages: the system prompt first when it has text, then every
/// message but the markers with its role.
pub fn to_openai_messages(system: Option<&str>, msgs: &[Message]) -> (out: Vec<ChatTurn>)
    ensures
        turns_view(out@) == (match system {
            Some(s) => if trim_spec(s@).len() > 0 { seq![("system"@, s@)] } else { Seq::empty() },
            None => Seq::empty(),
        }) + provider_turns(msgs@, flavour_name(0)),
{
    let mut out: Vec<ChatTurn> = Vec::new();
    if let Some(s) = system {
        let t = trim(s);
        if !t.as_str().is_empty() {
            out.push(ChatTurn { role: "system".to_string(), content: s.to_string() });
        }
    }
    let mut rest = turns_for(msgs, 0);
    let ghost head = out@;
    let ghost tail = rest@;
    out.append(&mut rest);
    assert(turns_view(out@) =~= turns_view(head) + turns_view(tail));
    out
}

/// Anthropic messages: the user and assistant turns only.
pub fn to_anthropic_messages(msgs: &[Message]) -> (out: Vec<ChatTurn>)
    ensures
        turns_view(out@) == provider_turns(msgs@, flavour_name(1)),
{
    turns_for(msgs, 1)
}

/// Gemini contents: user turns as `user`, assistant turns as `model`.
pub fn to_gemini_contents(msgs: &[Message]) -> (out: Vec<ChatTurn>)
    ensures
        turns_view(out@) == provider_turns(msgs@, flavour_name(2)),
{
    turns_for(msgs, 2)
}

/// Whether `c` takes three or more bytes in UTF-8 (CJK and the like).
pub open spec fn wide(c: char) -> bool {
    utf8_width(c) >= 3
}

pub fn is_wide_char(c: char) -> (b: bool)
    ensures
        b == wide(c),
{
    (c as u32) >= 0x800
}

pub open spec fn has_wide(s: Seq<char>) -> bool {
    exists|i: int| 0 <= i < s.len() && wide(#[trigger] s[i])
}

/// The first user message, if any.
pub open spec fn first_user(msgs: Seq<Message>) -> Option<Message> {
    if exists|i: int| 0 <= i < msgs.len() && msgs[i].role == Role::User {
        Some(msgs[choose|i: int| 0 <= i < msgs.len() && msgs[i].role == Role::User && forall|j: int| 0 <= j < i ==> msgs[j].role != Role::User])
    } else {
        None
    }
}

/// A title from the first user message when the model gives none: its trimmed
/// text cut to 10 characters when any of its first 20 is wide, else to 15,
/// with `…` when cut; `新对话` when there is no such text.
pub open spec fn fallback_title_spec(msgs: Seq<Message>) -> Seq<char> {
    let text = match first_user(msgs) {
        Some(m) => trim_spec(m.content@),
        None => Seq::empty(),
    };
    if text.len() == 0 {
        "新对话"@
    } else {
        let head20 = take_spec(text, 20);
        let limit: nat = if has_wide(head20) { 10 } else { 15 };
        if text.len() > limit { text.subrange(0, limit as int) + "…"@ } else { text }
    }
}

fn find_first_user(messages: &[Message]) -> (r: Option<usize>)
    ensures
        match r {
            Some(k) => k < messages.len() && first_user(messages@) == Some(messages@[k as int]),
            None => first_user(messages@) is None,
        },
{
    let mut i: usize = 0;
    while i < messages.len()
        invariant
            i <= messages.len(),
            forall|j: int| 0 <= j < i ==> messages@[j].role != Role::User,
        decreases messages.len() - i,
    {
        if messages[i].role == Role::User {
            let k = i;
            proof {
                let c = choose|c: int| 0 <= c < messages.len() && messages@[c].role == Role::User && forall|j: int| 0 <= j < c ==> messages@[j].role != Role::User;
                assert(0 <= k < messages.len() && messages@[k as int].role == Role::User && forall|j: int| 0 <= j < k ==> messages@[j].role != Role::User);
                if c < k {
                    assert(messages@[c].role != Role::User);
                } else if c > k {
                    assert(messages@[k as int].role != Role::User);
                }
            }
            return Some(k);
        }
        i += 1;
    }
    None
}

pub fn fallback_from_first_user(messages: &[Message]) -> (t: String)
    ensures
        t@ == fallback_title_spec(messages@),
{
    let text: Vec<char> = match find_first_user(messages) {
        Some(k) => {
            let t = trim(messages[k].content.as_str());
            chars_of(t.as_str())
        },
        None => Vec::new(),
    };
    if text.len() == 0 {
        return "新对话".to_string();
    }
    let head20 = take_chars_vec(&text, 20);
    let mut any_wide = false;
    let mut j: usize = 0;
    while j < head20.len()
        invariant
            j <= head20.len(),
            any_wide == has_wide(head20@.subrange(0, j as int)),
        decreases head20.len() - j,
    {
        let w = is_wide_char(head20[j]);
        proof {
            let a = head20@.subrange(0, j as int);
            let b = head20@.subrange(0, j + 1);
            if has_wide(a) {
                let x = choose|x: int| 0 <= x < a.len() && wide(#[trigger] a[x]);
                assert(b[x] == a[x]);
            }
            if w {
                assert(b[j as int] == head20@[j as int]);
            }
            if has_wide(b) {
                let x = choose|x: int| 0 <= x < b.len() && wide(#[trigger] b[x]);
                if x < j {
                    assert(a[x] == b[x]);
                }
            }
        }
        if w {
            any_wide = true;
        }
        j += 1;
    }
    assert(head20@.subrange(0, head20.len() as int) =~= head20@);
    let limit: usize = if any_wide { 10 } else { 15 };
    if text.len() > limit {
        let head = take_chars_vec(&text, limit);
        let hs = string_of(&head);
        concat_str(hs.as_str(), "…")
    } else {
        string_of(&text)
    }
}

/// The first eight user or assistant messages.
pub open spec fn convo_upto(msgs: Seq<Message>, i: int) -> Seq<Message>
    decreases i,
{
    if i <= 0 {
        Seq::empty()
    } else {
        let c = convo_upto(msgs, i - 1);
        let m = msgs[i - 1];
        if c.len() < 8 && (m.role == Role::User || m.role == Role::Assistant) { c.push(m) } else { c }
    }
}

pub open spec fn title_convo(msgs: Seq<Message>) -> Seq<Message> {
    convo_upto(msgs, msgs.len() as int)
}

/// One line of the title request: who spoke, the first 200 characters, `…`
/// when the text is longer than 200 bytes.
pub open spec fn title_line(m: Message) -> Seq<char> {
    (if m.role == Role::User { "[用户] "@ } else { "[助手] "@ }) + take_spec(m.content@, 200) + (if utf8_len(m.content@) > 200 { "…"@ } else { Seq::empty() }) + "\n"@
}

pub open spec fn title_lines(ms: Seq<Message>) -> Seq<char>
    decreases ms.len(),
{
    if ms.len() == 0 { Seq::empty() } else { title_lines(ms.drop_last()) + title_line(ms.last()) }
}

/// The request that asks the model for a title; `None` when there is nothing
/// to title (the title is then `新对话`).
pub open spec fn title_prompt_spec(msgs: Seq<Message>) -> Option<Seq<char>> {
    let convo = title_convo(msgs);
    if convo.len() == 0 { None } else { Some("请为以下对话生成标题：\n\n"@ + title_lines(convo)) }
}

fn title_line_exec(m: &Message) -> (s: String)
    requires
        m.role == Role::User || m.role == Role::Assistant,
    ensures
        s@ == title_line(*m),
{
    let who = if m.role == Role::User { "[用户] " } else { "[助手] " };
    let cv = chars_of(m.content.as_str());
    let head = take_chars_vec(&cv, 200);
    let hs = string_of(&head);
    let a = concat_str(who, hs.as_str());
    let b = if utf8_len_exceeds(&cv, 200) { concat_str(a.as_str(), "…") } else { a };
    let r = concat_str(b.as_str(), "\n");
    proof {
        if !(utf8_len(m.content@) > 200) {
            assert(a@ + Seq::<char>::empty() =~= a@);
        }
    }
    r
}

pub fn title_prompt(messages: &[Message]) -> (p: Option<String>)
    ensures
        match p {
            Some(s) => title_prompt_spec(messages@) == Some(s@),
            None => title_prompt_spec(messages@) is None,
        },
{
    let mut convo: Vec<&Message> = Vec::new();
    let mut i: usize = 0;
    while i < messages.len()
        invariant
            i <= messages.len(),
            convo@.map_values(|m: &Message| *m) == convo_upto(messages@, i as int),
        decreases messages.len() - i,
    {
        if convo.len() < 8 && (messages[i].role == Role::User || messages[i].role == Role::Assistant) {
            convo.push(&messages[i]);
        }
        i += 1;
        assert(convo@.map_values(|m: &Message| *m) =~= convo_upto(messages@, i as int));
    }
    proof { lemma_convo_talk(messages@, messages.len() as int); }
    if convo.len() == 0 {
        return None;
    }
    let mut out = "请为以下对话生成标题：\n\n".to_string();
    let ghost cv = convo@.map_values(|m: &Message| *m);
    let mut k: usize = 0;
    while k < convo.len()
        invariant
            k <= convo.len(),
            cv == convo@.map_values(|m: &Message| *m),
            forall|x: int| 0 <= x < cv.len() ==> (#[trigger] cv[x]).role == Role::User || cv[x].role == Role::Assistant,
            out@ == "请为以下对话生成标题：\n\n"@ + title_lines(cv.subrange(0, k as int)),
        decreases convo.len() - k,
    {
        assert(cv[k as int] == *convo@[k as int]);
        let line = title_line_exec(convo[k]);
        proof {
            let sub = cv.subrange(0, k + 1);
            assert(sub.drop_last() =~= cv.subrange(0, k as int));
        }
        out = concat_str(out.as_str(), line.as_str());
        k += 1;
    }
    assert(cv.subrange(0, cv.len() as int) =~= cv);
    Some(out)
}

proof fn lemma_convo_talk(msgs: Seq<Message>, i: int)
    requires
        0 <= i <= msgs.len(),
    ensures
        forall|x: int| 0 <= x < convo_upto(msgs, i).len() ==> (#[trigger] convo_upto(msgs, i)[x]).role == Role::User
            || convo_upto(msgs, i)[x].role == Role::Assistant,
    decreases i,
{
    if i > 0 {
        lemma_convo_talk(msgs, i - 1);
    }
}


/// The API family of a provider.
#[derive(Debug, Clone, Copy, PartialEq, Eq, Structural)]
pub enum ProviderKind {
    Openai,
    Anthropic,
    Gemini,
}

/// How a provider authenticates: an API key, or the sign-in of one of the
/// vendors' own command-line tools.
#[derive(Debug, Clone, Copy, PartialEq, Eq, Structural)]
pub enum AuthMode {
    ApiKey,
    OauthCodex,
    OauthClaudeCode,
    OauthGeminiCli,
}

/// What a request to a provider carries to authenticate.
#[derive(Debug, PartialEq, Eq)]
pub struct ProviderAuth {
    pub kind: ProviderKind,
    pub auth_mode: AuthMode,
    pub api_key: String,
    pub account_id: Option<String>,
    /// Headers the user added for this provider, in order.
    pub extra_headers: Vec<(String, String)>,
}

pub open spec fn hdr(name: Seq<char>, value: Seq<char>) -> (Seq<char>, Seq<char>) {
    (name, value)
}

pub open spec fn bearer(key: Seq<char>) -> (Seq<char>, Seq<char>) {
    hdr("authorization"@, "Bearer "@ + key)
}

/// The headers of a request to the provider, in the order they are added:
/// the scheme its kind and sign-in call for (a Gemini API key travels in the
/// URL instead), then the user's own headers.
pub open spec fn auth_headers_spec(a: ProviderAuth) -> Seq<(Seq<char>, Seq<char>)> {
    let key = a.api_key@;
    let base = match (a.kind, a.auth_mode) {
        (ProviderKind::Openai, AuthMode::OauthCodex) => seq![bearer(key), hdr("originator"@, "Hebbian"@)] + match a.account_id {
            Some(acc) => seq![hdr("ChatGPT-Account-Id"@, acc@)],
            None => Seq::empty(),
        },
        (ProviderKind::Openai, _) => seq![bearer(key)],
        (ProviderKind::Anthropic, AuthMode::OauthClaudeCode) => seq![
            bearer(key),
            hdr("anthropic-version"@, "2023-06-01"@),
            hdr("anthropic-beta"@, "oauth-2025-04-20"@),
        ],
        (ProviderKind::Anthropic, _) => seq![hdr("x-api-key"@, key), hdr("anthropic-version"@, "2023-06-01"@)],
        (ProviderKind::Gemini, AuthMode::OauthGeminiCli) => seq![bearer(key), hdr("x-goog-api-client"@, "GeminiCLI/1.0"@)],
        (ProviderKind::Gemini, _) => Seq::empty(),
    };
    base + a.extra_headers@.map_values(|h: (String, String)| hdr(h.0@, h.1@))
}

pub open spec fn headers_view(v: Seq<(String, String)>) -> Seq<(Seq<char>, Seq<char>)> {
    v.map_values(|h: (String, String)| hdr(h.0@, h.1@))
}

fn push_header(out: &mut Vec<(String, String)>, name: &str, value: String)
    ensures
        headers_view(final(out)@) == headers_view(old(out)@).push(hdr(name@, value@)),
{
    let ghost before = headers_view(out@);
    out.push((name.to_string(), value));
    assert(headers_view(out@) =~= before.push(hdr(name@, value@)));
}

/// The headers that authenticate a request to the provider (see `auth_headers_spec`).
pub fn auth_headers(a: &ProviderAuth) -> (r: Vec<(String, String)>)
    ensures
        headers_view(r@) == auth_headers_spec(*a),
{
    let mut out: Vec<(String, String)> = Vec::new();
    let key = a.api_key.as_str();
    match (a.kind, a.auth_mode) {
        (ProviderKind::Openai, AuthMode::OauthCodex) => {
            push_header(&mut out, "authorization", concat_str("Bearer ", key));
            push_header(&mut out, "originator", "Hebbian".to_string());
            match &a.account_id {
                Some(acc) => push_header(&mut out, "ChatGPT-Account-Id", acc.clone()),
                None => {},
            }
        },
        (ProviderKind::Openai, _) => {
            push_header(&mut out, "authorization", concat_str("Bearer ", key));
        },
        (ProviderKind::Anthropic, AuthMode::OauthClaudeCode) => {
            push_header(&mut out, "authorization", concat_str("Bearer ", key));
            push_header(&mut out, "anthropic-version", "2023-06-01".to_string());
            push_header(&mut out, "anthropic-beta", "oauth-2025-04-20".to_string());
        },
        (ProviderKind::Anthropic, _) => {
            push_header(&mut out, "x-api-key", a.api_key.clone());
            push_header(&mut out, "anthropic-version", "2023-06-01".to_string());
        },
        (ProviderKind::Gemini, AuthMode::OauthGeminiCli) => {
            push_header(&mut out, "authorization", concat_str("Bearer ", key));
            push_header(&mut out, "x-goog-api-client", "GeminiCLI/1.0".to_string());
        },
        (ProviderKind::Gemini, _) => {},
    }
    let ghost base = headers_view(out@);
    let mut i: usize = 0;
    while i < a.extra_headers.len()
        invariant
            i <= a.extra_headers.len(),
            headers_view(out@) == base + headers_view(a.extra_headers@.subrange(0, i as int)),
        decreases a.extra_headers.len() - i,
    {
        let (k, v) = &a.extra_headers[i];
        push_header(&mut out, k.as_str(), v.clone());
        assert(headers_view(a.extra_headers@.subrange(0, i + 1)) =~= headers_view(a.extra_headers@.subrange(0, i as int)).push(hdr(k@, v@)));
        assert(headers_view(out@) =~= base + headers_view(a.extra_headers@.subrange(0, i + 1)));
        i += 1;
    }
    assert(a.extra_headers@.subrange(0, a.extra_headers.len() as int) =~= a.extra_headers@);
    assert(headers_view(out@) =~= auth_headers_spec(*a));
    out
}

} // verus!
