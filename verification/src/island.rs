//! Cards for the island overlay: what an approval or question shows, and which
//! cards an engine event opens or withdraws.

use vstd::prelude::*;
use crate::protocol::{AskQuestion, QuestionOption};
use crate::text::{chars_of, concat_str, eq_str, join, join_spec, starts_with_spec, starts_with_str, string_of, strings_view};

verus! {

/// An option of a question card.
#[derive(Debug, PartialEq, Eq)]
pub struct IslandOption {
    pub label: String,
    pub desc: String,
}

/// A sub-question of a multi-question card.
#[derive(Debug, PartialEq, Eq)]
pub struct IslandQuestion {
    pub title: String,
    pub desc: String,
    pub options: Vec<IslandOption>,
    pub multi: bool,
}

/// A card pushed to the island; its id doubles as the reply's message id.
#[derive(Debug, PartialEq, Eq)]
pub struct IslandCard {
    pub id: String,
    pub card_type: String,
    pub title: String,
    pub body: String,
    pub session_id: Option<String>,
    pub options: Vec<IslandOption>,
    pub multi_select: bool,
    pub questions: Vec<IslandQuestion>,
}

impl IslandCard {
    /// A basic card: id, type, title and body, nothing else.
    pub fn new(id: String, card_type: &str, title: &str, body: String) -> (c: Self)
        ensures
            c.id == id,
            c.card_type@ == card_type@,
            c.title@ == title@,
            c.body == body,
            c.session_id is None,
            c.options@.len() == 0,
            !c.multi_select,
            c.questions@.len() == 0,
    {
        IslandCard {
            id,
            card_type: card_type.to_string(),
            title: title.to_string(),
            body,
            session_id: None,
            options: Vec::new(),
            multi_select: false,
            questions: Vec::new(),
        }
    }
}

/// The string fields of a tool input that an approval card shows.
#[derive(Debug, PartialEq, Eq)]
pub struct ToolInputFields {
    pub command: Option<String>,
    pub file_path: Option<String>,
    pub pattern: Option<String>,
    pub path: Option<String>,
}

pub open spec fn ov(o: Option<String>) -> Option<Seq<char>> {
    match o {
        Some(s) => Some(s@),
        None => None,
    }
}

/// The body of an approval card: the tool's key argument (the command for
/// shell tools, the file for Read/Edit/Write, pattern and path for Grep), else
/// the out-of-bounds paths, else the summary, else the tool's name.
pub open spec fn card_body_spec(tool_name: Seq<char>, f: ToolInputFields, summary: Seq<char>, paths: Seq<Seq<char>>) -> Seq<char> {
    let fallback = if paths.len() > 0 {
        tool_name + " 越界访问："@ + join_spec(paths, "、"@)
    } else if summary.len() > 0 {
        summary
    } else {
        tool_name
    };
    let with_key = |k: Option<Seq<char>>| match k {
        Some(d) => tool_name + " "@ + d,
        None => fallback,
    };
    if tool_name == "Bash"@ || tool_name == "BashOutput"@ || tool_name == "KillShell"@ {
        with_key(ov(f.command))
    } else if tool_name == "Read"@ || tool_name == "Edit"@ || tool_name == "Write"@ {
        with_key(ov(f.file_path))
    } else if tool_name == "Grep"@ {
        match (ov(f.pattern), ov(f.path)) {
            (Some(p), Some(path)) => tool_name + " "@ + p + " @ "@ + path,
            (Some(p), None) => with_key(Some(p)),
            _ => fallback,
        }
    } else {
        fallback
    }
}

fn opt_clone(o: &Option<String>) -> (r: Option<String>)
    ensures
        ov(r) == ov(*o),
{
    match o {
        Some(s) => Some(s.clone()),
        None => None,
    }
}

pub fn approval_card_body(kind: &str, tool_name: &str, fields: &ToolInputFields, summary: &str, paths: &Vec<String>) -> (s: String)
    ensures
        s@ == card_body_spec(tool_name@, *fields, summary@, strings_view(paths@)),
{
    let t = chars_of(tool_name);
    let key: Option<String> = if eq_str(&t, "Bash") || eq_str(&t, "BashOutput") || eq_str(&t, "KillShell") {
        opt_clone(&fields.command)
    } else if eq_str(&t, "Read") || eq_str(&t, "Edit") || eq_str(&t, "Write") {
        opt_clone(&fields.file_path)
    } else if eq_str(&t, "Grep") {
        match (&fields.pattern, &fields.path) {
            (Some(p), Some(path)) => {
                let a = concat_str(tool_name, " ");
                let b = concat_str(a.as_str(), p.as_str());
                let c = concat_str(b.as_str(), " @ ");
                return concat_str(c.as_str(), path.as_str());
            },
            (Some(p), None) => Some(p.clone()),
            _ => None,
        }
    } else {
        None
    };
    if let Some(detail) = key {
        let a = concat_str(tool_name, " ");
        return concat_str(a.as_str(), detail.as_str());
    }
    if paths.len() > 0 {
        let j = join(paths, "、");
        let a = concat_str(tool_name, " 越界访问：");
        return concat_str(a.as_str(), j.as_str());
    }
    if !summary.is_empty() {
        summary.to_string()
    } else {
        tool_name.to_string()
    }
}

/// The engine events the island reacts to.
#[derive(Debug)]
pub enum IslandEvent {
    PermissionRequested { request_id: String, kind: String, tool_name: String, fields: ToolInputFields, summary: String, paths: Vec<String>, auto_handled: bool },
    PermissionAutoJudged { request_id: String, tool_name: String, reason: Option<String>, requires_human: bool },
    UserQuestionRequested { request_id: String, question: String, options: Vec<QuestionOption>, multi: bool, questions: Vec<AskQuestion> },
    PermissionResolved { request_id: String },
    UserQuestionAnswered { request_id: String },
    Other,
}

/// What to do on the island.
#[derive(Debug, PartialEq, Eq)]
pub enum IslandAction {
    Show(IslandCard),
    Dismiss(String),
}

pub open spec fn option_shown(o: QuestionOption, io: IslandOption) -> bool {
    io.label == o.label && io.desc == o.description
}

pub open spec fn options_shown(os: Seq<QuestionOption>, ios: Seq<IslandOption>) -> bool {
    ios.len() == os.len() && forall|i: int| 0 <= i < os.len() ==> option_shown(#[trigger] os[i], ios[i])
}

pub open spec fn question_shown(q: AskQuestion, iq: IslandQuestion) -> bool {
    iq.title == q.title && iq.desc == q.description && iq.multi == q.multi && options_shown(q.options@, iq.options@)
}

fn show_options(os: &Vec<QuestionOption>) -> (r: Vec<IslandOption>)
    ensures
        options_shown(os@, r@),
{
    let mut r: Vec<IslandOption> = Vec::new();
    let mut i: usize = 0;
    while i < os.len()
        invariant
            i <= os.len(),
            r.len() == i,
            forall|k: int| 0 <= k < i ==> option_shown(#[trigger] os@[k], r@[k]),
        decreases os.len() - i,
    {
        r.push(IslandOption { label: os[i].label.clone(), desc: os[i].description.clone() });
        i += 1;
    }
    r
}

fn show_questions(qs: &Vec<AskQuestion>) -> (r: Vec<IslandQuestion>)
    ensures
        r.len() == qs.len(),
        forall|k: int| 0 <= k < qs.len() ==> question_shown(#[trigger] qs@[k], r@[k]),
{
    let mut r: Vec<IslandQuestion> = Vec::new();
    let mut i: usize = 0;
    while i < qs.len()
        invariant
            i <= qs.len(),
            r.len() == i,
            forall|k: int| 0 <= k < i ==> question_shown(#[trigger] qs@[k], r@[k]),
        decreases qs.len() - i,
    {
        let options = show_options(&qs[i].options);
        r.push(IslandQuestion { title: qs[i].title.clone(), desc: qs[i].description.clone(), options, multi: qs[i].multi });
        i += 1;
    }
    r
}

/// An approval card for `request_id` with the given body.
pub open spec fn approval_card(c: IslandCard, request_id: Seq<char>, body: Seq<char>) -> bool {
    c.id@ == "perm-"@ + request_id && c.card_type@ == "approval"@ && c.title@ == "需要你的审批"@ && c.body@ == body
        && c.session_id is None && c.options@.len() == 0 && !c.multi_select && c.questions@.len() == 0
}

/// The island's response to an engine event. Approvals show a card unless
/// AutoMode handles them (a verdict that still needs a human shows it then);
/// questions show their options or sub-questions; answered requests withdraw
/// both kinds of card.
pub open spec fn island_actions_spec(e: IslandEvent, acts: Seq<IslandAction>) -> bool {
    match e {
        IslandEvent::PermissionRequested { request_id, kind, tool_name, fields, summary, paths, auto_handled } => if auto_handled {
            acts.len() == 0
        } else {
            acts.len() == 1 && (acts[0] matches IslandAction::Show(c) && approval_card(c, request_id@, card_body_spec(tool_name@, fields, summary@, strings_view(paths@))))
        },
        IslandEvent::PermissionAutoJudged { request_id, tool_name, reason, requires_human } => if requires_human {
            let body = match reason {
                Some(r) => if r@.len() > 0 { tool_name@ + "："@ + r@ } else { tool_name@ },
                None => tool_name@,
            };
            acts.len() == 1 && (acts[0] matches IslandAction::Show(c) && approval_card(c, request_id@, body))
        } else {
            acts.len() == 0
        },
        IslandEvent::UserQuestionRequested { request_id, question, options, multi, questions } => acts.len() == 1
            && (acts[0] matches IslandAction::Show(c) && c.id@ == "question-"@ + request_id@ && c.card_type@ == "question"@
            && c.title@ == "需要你的回答"@ && c.session_id is None && if questions@.len() == 0 {
                c.body == question && options_shown(options@, c.options@) && c.multi_select == multi && c.questions@.len() == 0
            } else {
                c.body@.len() == 0 && c.options@.len() == 0 && !c.multi_select && c.questions.len() == questions.len()
                    && forall|k: int| 0 <= k < questions.len() ==> question_shown(#[trigger] questions@[k], c.questions@[k])
            }),
        IslandEvent::PermissionResolved { request_id } | IslandEvent::UserQuestionAnswered { request_id } => acts.len() == 2
            && (acts[0] matches IslandAction::Dismiss(a) && a@ == "perm-"@ + request_id@)
            && (acts[1] matches IslandAction::Dismiss(b) && b@ == "question-"@ + request_id@),
        IslandEvent::Other => acts.len() == 0,
    }
}

pub fn push_engine_event_to_island(event: &IslandEvent) -> (acts: Vec<IslandAction>)
    ensures
        island_actions_spec(*event, acts@),
{
    let mut acts: Vec<IslandAction> = Vec::new();
    match event {
        IslandEvent::PermissionRequested { request_id, kind, tool_name, fields, summary, paths, auto_handled } => {
            if *auto_handled {
                return acts;
            }
            let body = approval_card_body(kind.as_str(), tool_name.as_str(), fields, summary.as_str(), paths);
            let id = concat_str("perm-", request_id.as_str());
            acts.push(IslandAction::Show(IslandCard::new(id, "approval", "需要你的审批", body)));
        },
        IslandEvent::PermissionAutoJudged { request_id, tool_name, reason, requires_human } => {
            if *requires_human {
                let body = match reason {
                    Some(r) => if !r.as_str().is_empty() {
                        let a = concat_str(tool_name.as_str(), "：");
                        concat_str(a.as_str(), r.as_str())
                    } else {
                        tool_name.clone()
                    },
                    None => tool_name.clone(),
                };
                let id = concat_str("perm-", request_id.as_str());
                acts.push(IslandAction::Show(IslandCard::new(id, "approval", "需要你的审批", body)));
            }
        },
        IslandEvent::UserQuestionRequested { request_id, question, options, multi, questions } => {
            let id = concat_str("question-", request_id.as_str());
            let mut card = IslandCard::new(id, "question", "需要你的回答", String::new());
            if questions.len() == 0 {
                card.body = question.clone();
                card.options = show_options(options);
                card.multi_select = *multi;
            } else {
                card.questions = show_questions(questions);
            }
            acts.push(IslandAction::Show(card));
        },
        IslandEvent::PermissionResolved { request_id } | IslandEvent::UserQuestionAnswered { request_id } => {
            acts.push(IslandAction::Dismiss(concat_str("perm-", request_id.as_str())));
            acts.push(IslandAction::Dismiss(concat_str("question-", request_id.as_str())));
        },
        IslandEvent::Other => {},
    }
    acts
}


/// What a reply from the island is about, by the card it answers.
#[derive(Debug, PartialEq, Eq)]
pub enum IslandReplyTarget {
    /// The approval card of `request_id`.
    Approval { request_id: String },
    /// The question card of `request_id`.
    Question { request_id: String },
    /// A card this side never showed.
    Unknown,
}

/// The target of a reply whose card id is `msg_id`: approval cards are
/// `perm-{request_id}`, question cards `question-{request_id}`.
pub open spec fn reply_target_spec(msg_id: Seq<char>) -> (u8, Seq<char>) {
    if starts_with_spec(msg_id, "perm-"@) {
        (0, msg_id.subrange(5, msg_id.len() as int))
    } else if starts_with_spec(msg_id, "question-"@) {
        (1, msg_id.subrange(9, msg_id.len() as int))
    } else {
        (2, Seq::empty())
    }
}

pub open spec fn reply_target_is(t: IslandReplyTarget, spec: (u8, Seq<char>)) -> bool {
    match t {
        IslandReplyTarget::Approval { request_id } => spec.0 == 0 && request_id@ == spec.1,
        IslandReplyTarget::Question { request_id } => spec.0 == 1 && request_id@ == spec.1,
        IslandReplyTarget::Unknown => spec.0 == 2,
    }
}

fn chars_from(v: &Vec<char>, k: usize) -> (s: String)
    requires
        k <= v.len(),
    ensures
        s@ == v@.subrange(k as int, v.len() as int),
{
    let mut out: Vec<char> = Vec::new();
    let mut i: usize = k;
    while i < v.len()
        invariant
            k <= i <= v.len(),
            out@ == v@.subrange(k as int, i as int),
        decreases v.len() - i,
    {
        out.push(v[i]);
        i += 1;
    }
    string_of(&out)
}

/// Routes a reply from the island to the request whose card it answers.
pub fn island_reply_target(msg_id: &str) -> (t: IslandReplyTarget)
    ensures
        reply_target_is(t, reply_target_spec(msg_id@)),
{
    let v = chars_of(msg_id);
    proof {
        reveal_strlit("perm-");
        reveal_strlit("question-");
    }
    if starts_with_str(&v, "perm-") {
        IslandReplyTarget::Approval { request_id: chars_from(&v, 5) }
    } else if starts_with_str(&v, "question-") {
        IslandReplyTarget::Question { request_id: chars_from(&v, 9) }
    } else {
        IslandReplyTarget::Unknown
    }
}

/// A reply to a card that this side showed comes back to the request the
/// card was shown for: `perm-{r}` to the approval `r`, `question-{r}` to the
/// question `r`.
pub proof fn law_reply_reaches_card(request_id: Seq<char>)
    ensures
        reply_target_spec("perm-"@ + request_id) == (0u8, request_id),
        reply_target_spec("question-"@ + request_id) == (1u8, request_id),
{
    reveal_strlit("perm-");
    reveal_strlit("question-");
    let p = "perm-"@ + request_id;
    let q = "question-"@ + request_id;
    assert(p.subrange(0, 5) =~= "perm-"@);
    assert(p.subrange(5, p.len() as int) =~= request_id);
    assert(q.subrange(0, 5) != "perm-"@) by {
        assert(q.subrange(0, 5)[0] == 'q');
    }
    assert(q.subrange(0, 9) =~= "question-"@);
    assert(q.subrange(9, q.len() as int) =~= request_id);
}


/// An approval that AutoMode handles puts nothing on the island; one it does
/// not handle shows exactly one approval card, whose reply comes back to that
/// very request.
pub proof fn law_approval_cards(request_id: String, kind: String, tool_name: String, fields: ToolInputFields,
    summary: String, paths: Vec<String>, auto_handled: bool, acts: Seq<IslandAction>)
    requires
        island_actions_spec(IslandEvent::PermissionRequested { request_id, kind, tool_name, fields, summary, paths, auto_handled }, acts),
    ensures
        auto_handled ==> acts.len() == 0,
        !auto_handled ==> acts.len() == 1 && (acts[0] matches IslandAction::Show(c) && c.card_type@ == "approval"@
            && reply_target_spec(c.id@) == (0u8, request_id@)),
{
    if !auto_handled {
        law_reply_reaches_card(request_id@);
    }
}

/// An AutoMode verdict shows an approval card for its request exactly when a
/// human still has to decide.
pub proof fn law_verdict_cards(request_id: String, tool_name: String, reason: Option<String>, requires_human: bool,
    acts: Seq<IslandAction>)
    requires
        island_actions_spec(IslandEvent::PermissionAutoJudged { request_id, tool_name, reason, requires_human }, acts),
    ensures
        !requires_human ==> acts.len() == 0,
        requires_human ==> acts.len() == 1 && (acts[0] matches IslandAction::Show(c) && c.card_type@ == "approval"@
            && reply_target_spec(c.id@) == (0u8, request_id@)),
{
    if requires_human {
        law_reply_reaches_card(request_id@);
    }
}

} // verus!
