//! Forwarding approvals and questions of the main conversation to a chat
//! channel while the owner is away: the texts sent, the outcomes recorded, and
//! the table of forwards in flight that either side settles exactly once.

use vstd::prelude::*;
use crate::daemon::{AskQuestionDto, QuestionOptionDto};
use crate::protocol::{ApprovalDecision, QuestionOption, UserAnswer};
use crate::table::KeyedTable;
use crate::text::{
    chars_of, concat_str, decimal, decimal_spec, eq_str, join, join_spec, string_of, strings_view,
    take_chars_vec, trim, trim_spec,
};

verus! {

/// Forwards in flight: request id to the session and the marker recorded for it.
pub struct ChannelForwardState {
    inflight: KeyedTable<(String, String)>,
}

impl ChannelForwardState {
    pub closed spec fn view(&self) -> Map<Seq<char>, (String, String)> {
        self.inflight.view()
    }

    pub fn new() -> (s: Self)
        ensures
            s.view() == Map::<Seq<char>, (String, String)>::empty(),
    {
        ChannelForwardState { inflight: KeyedTable::new() }
    }

    /// Records that `request_id` was forwarded, with its session and marker.
    pub fn track(&mut self, request_id: &str, session_id: &str, marker_id: &str)
        ensures
            final(self).view().dom() == old(self).view().dom().insert(request_id@),
            final(self).view()[request_id@].0@ == session_id@,
            final(self).view()[request_id@].1@ == marker_id@,
            forall|k: Seq<char>| k != request_id@ && #[trigger] old(self).view().contains_key(k) ==> final(self).view()[k] == old(self).view()[k],
    {
        self.inflight.insert(request_id.to_string(), (session_id.to_string(), marker_id.to_string()));
    }

    /// Takes the forward of `request_id` out of the table: whoever settles first gets it.
    pub fn take(&mut self, request_id: &str) -> (r: Option<(String, String)>)
        ensures
            final(self).view() == old(self).view().remove(request_id@),
            match r {
                Some(v) => old(self).view().contains_key(request_id@) && old(self).view()[request_id@] == v,
                None => !old(self).view().contains_key(request_id@),
            },
    {
        self.inflight.remove(request_id)
    }
}

/// A forward is settled once: after a take, a second take of the same request
/// finds nothing.
pub proof fn law_take_once(before: Map<Seq<char>, (String, String)>, request_id: Seq<char>)
    ensures
        !before.remove(request_id).contains_key(request_id),
{
}

/// The outcome recorded for an approval answered through the channel.
pub open spec fn approval_outcome_spec(d: ApprovalDecision) -> Seq<char> {
    match d {
        ApprovalDecision::AllowOnce => "已通过"@,
        ApprovalDecision::AllowAndRemember { .. } => "已通过并记住"@,
        ApprovalDecision::Deny => "已拒绝"@,
        ApprovalDecision::DenyWithFeedback { feedback } => "已拒绝："@ + feedback@,
    }
}

pub fn approval_outcome(decision: &ApprovalDecision) -> (s: String)
    ensures
        s@ == approval_outcome_spec(*decision),
{
    match decision {
        ApprovalDecision::AllowOnce => "已通过".to_string(),
        ApprovalDecision::AllowAndRemember { .. } => "已通过并记住".to_string(),
        ApprovalDecision::Deny => "已拒绝".to_string(),
        ApprovalDecision::DenyWithFeedback { feedback } => concat_str("已拒绝：", feedback.as_str()),
    }
}

/// The outcome recorded for a question answered through the channel.
pub open spec fn answer_outcome_spec(a: UserAnswer) -> Seq<char> {
    match a {
        UserAnswer::Selected { label } => "选了："@ + label@,
        UserAnswer::SelectedMulti { labels } => "选了："@ + join_spec(strings_view(labels@), "、"@),
        UserAnswer::Custom { text } => "回复："@ + text@,
        UserAnswer::Cancelled => "已取消"@,
        UserAnswer::Multi { .. } => "已回复"@,
    }
}

pub fn answer_outcome(answer: &UserAnswer) -> (s: String)
    ensures
        s@ == answer_outcome_spec(*answer),
{
    match answer {
        UserAnswer::Selected { label } => concat_str("选了：", label.as_str()),
        UserAnswer::SelectedMulti { labels } => {
            let j = join(labels, "、");
            concat_str("选了：", j.as_str())
        },
        UserAnswer::Custom { text } => concat_str("回复：", text.as_str()),
        UserAnswer::Cancelled => "已取消".to_string(),
        UserAnswer::Multi { .. } => "已回复".to_string(),
    }
}

/// What an approval asks for: the paths of an out-of-bounds access, else the
/// summary when it has text, else the tool's name.
pub open spec fn approval_detail_spec(kind: Seq<char>, tool_name: Seq<char>, summary: Seq<char>, paths: Seq<Seq<char>>) -> Seq<char> {
    if kind == "path_access"@ && paths.len() > 0 {
        tool_name + " 越界访问："@ + join_spec(paths, "、"@)
    } else if trim_spec(summary).len() > 0 {
        summary
    } else {
        tool_name
    }
}

pub fn approval_detail(kind: &str, tool_name: &str, summary: &str, paths: &Vec<String>) -> (s: String)
    ensures
        s@ == approval_detail_spec(kind@, tool_name@, summary@, strings_view(paths@)),
{
    let kv = chars_of(kind);
    if eq_str(&kv, "path_access") && paths.len() > 0 {
        let j = join(paths, "、");
        let head = concat_str(tool_name, " 越界访问：");
        let r = concat_str(head.as_str(), j.as_str());
        assert(r@ =~= tool_name@ + " 越界访问："@ + join_spec(strings_view(paths@), "、"@));
        return r;
    }
    let t = trim(summary);
    if !t.as_str().is_empty() {
        summary.to_string()
    } else {
        tool_name.to_string()
    }
}

/// The first `max` characters of `text` followed by `…`, or all of it when it
/// is no longer than `max`.
pub open spec fn truncate_spec(text: Seq<char>, max: nat) -> Seq<char> {
    if text.len() <= max { text } else { text.subrange(0, max as int) + "…"@ }
}

pub fn truncate_chars(text: &str, max: usize) -> (s: String)
    ensures
        s@ == truncate_spec(text@, max as nat),
{
    let v = chars_of(text);
    if v.len() <= max {
        return text.to_string();
    }
    let head = take_chars_vec(&v, max);
    let hs = string_of(&head);
    concat_str(hs.as_str(), "…")
}

/// The option lines of a forwarded question: `\n  <n>. <label>` for each.
pub open spec fn option_lines(options: Seq<QuestionOption>) -> Seq<char>
    decreases options.len(),
{
    if options.len() == 0 {
        Seq::empty()
    } else {
        option_lines(options.drop_last()) + "\n  "@ + decimal_spec(options.len()) + ". "@ + options.last().label@
    }
}

/// How a forwarded question invites the reply: free text when it has no
/// options, else the numbered options and how to pick one or several.
pub open spec fn render_choices_spec(options: Seq<QuestionOption>, multi: bool) -> Seq<char> {
    if options.len() == 0 {
        "\n\n直接回复你的答案，或回「取消」放弃。"@
    } else {
        "\n\n选项："@ + option_lines(options) + if multi {
            "\n\n回复编号选择（多选用逗号隔开，如 1,3），或回「取消」。"@
        } else {
            "\n\n回复编号选择（如 2），或直接回文本，或回「取消」。"@
        }
    }
}

pub fn render_choices(options: &Vec<QuestionOption>, multi: bool) -> (s: String)
    requires
        options.len() < u64::MAX,
    ensures
        s@ == render_choices_spec(options@, multi),
{
    if options.len() == 0 {
        return "\n\n直接回复你的答案，或回「取消」放弃。".to_string();
    }
    let mut lines = "\n\n选项：".to_string();
    let mut i: usize = 0;
    while i < options.len()
        invariant
            i <= options.len() < u64::MAX,
            lines@ == "\n\n选项："@ + option_lines(options@.subrange(0, i as int)),
        decreases options.len() - i,
    {
        let n = decimal((i + 1) as u64);
        let a = concat_str(lines.as_str(), "\n  ");
        let b = concat_str(a.as_str(), n.as_str());
        let c = concat_str(b.as_str(), ". ");
        let d = concat_str(c.as_str(), options[i].label.as_str());
        proof {
            let sub = options@.subrange(0, i + 1);
            assert(sub.drop_last() =~= options@.subrange(0, i as int));
            assert(sub.last() == options@[i as int]);
        }
        lines = d;
        i += 1;
    }
    assert(options@.subrange(0, options.len() as int) =~= options@);
    let tail = if multi {
        "\n\n回复编号选择（多选用逗号隔开，如 1,3），或回「取消」。"
    } else {
        "\n\n回复编号选择（如 2），或直接回文本，或回「取消」。"
    };
    concat_str(lines.as_str(), tail)
}

pub open spec fn option_labels(q: AskQuestionDto) -> Seq<Seq<char>> {
    q.options@.map_values(|o: QuestionOptionDto| o.label@)
}

/// One line per sub-question: its title, with its option labels after it in
/// `（a / b）` when it has options.
pub open spec fn question_line(q: AskQuestionDto) -> Seq<char> {
    let labels = join_spec(option_labels(q), " / "@);
    if labels.len() == 0 { q.title@ } else { q.title@ + "（"@ + labels + "）"@ }
}

pub open spec fn render_multi_spec(questions: Seq<AskQuestionDto>) -> Seq<char> {
    join_spec(questions.map_values(|q: AskQuestionDto| question_line(q)), "\n"@)
}

fn question_line_exec(q: &AskQuestionDto) -> (s: String)
    ensures
        s@ == question_line(*q),
{
    let mut labels: Vec<String> = Vec::new();
    let mut i: usize = 0;
    while i < q.options.len()
        invariant
            i <= q.options.len(),
            strings_view(labels@) == option_labels(*q).subrange(0, i as int),
        decreases q.options.len() - i,
    {
        let c = q.options[i].label.clone();
        assert(c@ == option_labels(*q)[i as int]);
        let ghost before = strings_view(labels@);
        labels.push(c);
        assert(strings_view(labels@) =~= before.push(c@));
        assert(option_labels(*q).subrange(0, i + 1) =~= option_labels(*q).subrange(0, i as int).push(c@));
        i += 1;
        assert(strings_view(labels@) =~= option_labels(*q).subrange(0, i as int));
    }
    assert(option_labels(*q).subrange(0, q.options.len() as int) =~= option_labels(*q));
    let j = join(&labels, " / ");
    if j.as_str().is_empty() {
        q.title.clone()
    } else {
        let a = concat_str(q.title.as_str(), "（");
        let b = concat_str(a.as_str(), j.as_str());
        concat_str(b.as_str(), "）")
    }
}

/// Several sub-questions as plain text for a channel that shows one level of options.
pub fn render_multi_questions(questions: &Vec<AskQuestionDto>) -> (s: String)
    ensures
        s@ == render_multi_spec(questions@),
{
    let mut lines: Vec<String> = Vec::new();
    let mut i: usize = 0;
    while i < questions.len()
        invariant
            i <= questions.len(),
            strings_view(lines@) == questions@.subrange(0, i as int).map_values(|q: AskQuestionDto| question_line(q)),
        decreases questions.len() - i,
    {
        let l = question_line_exec(&questions[i]);
        let ghost before = strings_view(lines@);
        lines.push(l);
        assert(strings_view(lines@) =~= before.push(l@));
        assert(questions@.subrange(0, i + 1).map_values(|q: AskQuestionDto| question_line(q)) =~= questions@.subrange(0, i as int).map_values(|q: AskQuestionDto| question_line(q)).push(question_line(questions@[i as int])));
        i += 1;
        assert(strings_view(lines@) =~= questions@.subrange(0, i as int).map_values(|q: AskQuestionDto| question_line(q)));
    }
    assert(questions@.subrange(0, questions.len() as int) =~= questions@);
    join(&lines, "\n")
}

/// The last assistant text that is not blank, if any.
pub open spec fn last_nonblank(texts: Seq<Seq<char>>) -> Option<Seq<char>>
    decreases texts.len(),
{
    if texts.len() == 0 {
        None
    } else if trim_spec(texts.last()).len() > 0 {
        Some(texts.last())
    } else {
        last_nonblank(texts.drop_last())
    }
}

/// The head of a forwarded message: the session title (or `桌面对话`) and the
/// latest assistant output cut to 300 characters; a generic line when the
/// session could not be read.
pub open spec fn session_header_spec(loaded: Option<(Seq<char>, Seq<Seq<char>>)>) -> Seq<char> {
    match loaded {
        None => "📨 桌面对话需要你处理"@,
        Some((title, texts)) => {
            let t = if trim_spec(title).len() == 0 { "桌面对话"@ } else { title };
            match last_nonblank(texts) {
                None => "📨「"@ + t + "」需要你处理"@,
                Some(r) => "📨「"@ + t + "」\n\n最近 AI 输出：\n"@ + truncate_spec(trim_spec(r), 300),
            }
        },
    }
}

/// The header of a forward from the session's title and assistant texts
/// (`None`: the session could not be loaded).
pub fn session_header(loaded: Option<(&str, &Vec<String>)>) -> (s: String)
    ensures
        s@ == session_header_spec(match loaded {
            Some((t, v)) => Some((t@, strings_view(v@))),
            None => None,
        }),
{
    let (title, texts) = match loaded {
        None => return "📨 桌面对话需要你处理".to_string(),
        Some(x) => x,
    };
    let tt = trim(title);
    let t = if tt.as_str().is_empty() { "桌面对话".to_string() } else { title.to_string() };
    let mut i = texts.len();
    let ghost all = strings_view(texts@);
    assert(all.subrange(0, all.len() as int) =~= all);
    while i > 0
        invariant
            i <= texts.len(),
            all == strings_view(texts@),
            last_nonblank(all) == last_nonblank(all.subrange(0, i as int)),
            loaded == Some((title, texts)),
            t@ == (if trim_spec(title@).len() == 0 { "桌面对话"@ } else { title@ }),
        decreases i,
    {
        let c = trim(texts[i - 1].as_str());
        assert(all.subrange(0, i as int).drop_last() =~= all.subrange(0, i - 1));
        assert(all.subrange(0, i as int).last() == texts@[i - 1]@);
        if !c.as_str().is_empty() {
            assert(last_nonblank(all) == Some(texts@[i - 1]@));
            let recent = truncate_chars(c.as_str(), 300);
            let a = concat_str("📨「", t.as_str());
            let b = concat_str(a.as_str(), "」\n\n最近 AI 输出：\n");
            let r = concat_str(b.as_str(), recent.as_str());
            return r;
        }
        i -= 1;
    }
    assert(all.subrange(0, 0) =~= Seq::<Seq<char>>::empty());
    let a = concat_str("📨「", t.as_str());
    concat_str(a.as_str(), "」需要你处理")
}

/// Whether a pending approval goes to the channel: not when AutoMode handles
/// it, only while the owner is idle and the channel can take it.
pub fn should_forward_approval(auto_handled: bool, idle: bool, can_forward: bool) -> (b: bool)
    ensures
        b == (!auto_handled && idle && can_forward),
{
    !auto_handled && idle && can_forward
}

/// The message that forwards an approval.
pub fn approval_message(header: &str, detail: &str) -> (s: String)
    ensures
        s@ == header@ + "\n\n⚠️ 需要审批："@ + detail@ + "\n\n回复 1/y 通过，回复 n 拒绝，回复「deny 原因」拒绝并反馈。"@,
{
    let a = concat_str(header, "\n\n⚠️ 需要审批：");
    let b = concat_str(a.as_str(), detail);
    concat_str(b.as_str(), "\n\n回复 1/y 通过，回复 n 拒绝，回复「deny 原因」拒绝并反馈。")
}

/// The message that forwards a question.
pub fn question_message(header: &str, body: &str, choices: &str) -> (s: String)
    ensures
        s@ == header@ + "\n\n❓ "@ + body@ + choices@,
{
    let a = concat_str(header, "\n\n❓ ");
    let b = concat_str(a.as_str(), body);
    concat_str(b.as_str(), choices)
}

} // verus!
