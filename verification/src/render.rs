//! The terminal renderer of one agent turn, as a state machine: each event
//! updates what is streaming and which spinners run, and yields the output
//! actions (text to print, spinners to start or stop) in order.

use vstd::prelude::*;
use crate::protocol::{ApprovalDecision, UserAnswer};
use crate::text::{
    chars_of, concat_str, decimal, decimal_spec, eq_str, join, join_spec, string_of, strings_view,
    take_chars_vec, take_spec, trim_chars, trim_spec,
};

verus! {

/// The events of a turn that the renderer reacts to.
#[derive(Debug)]
pub enum RenderEvent {
    RunStarted,
    TurnStarted { turn: u32 },
    TextDelta { text: String },
    Reasoning { text: String },
    TextDone { full_text: String },
    ToolCallDelta { index: usize, name: Option<String> },
    /// `input_json` is the tool input serialised as JSON.
    ToolCallStarted { index: usize, call_id: String, name: String, input_json: String },
    ToolCallFinished { call_id: String, result: String, duration_ms: u64, truncated: bool },
    PermissionRequested { summary: String },
    PermissionResolved { decision: ApprovalDecision },
    PermissionAutoJudged { tool_name: String, decision: String, reason: Option<String> },
    UserQuestionRequested,
    UserQuestionAnswered { answer: UserAnswer },
    ContextCompacted { before_tokens: u64, after_tokens: u64 },
    RunFinished { total_input_tokens: u64, total_output_tokens: u64, duration_ms: u64 },
    RunFailed { message: String },
    RunCancelled,
    /// Any other event: nothing to render.
    Other,
}

/// The colour a status line is shown in.
#[derive(Debug, Clone, Copy, PartialEq, Eq, Structural)]
pub enum Tone {
    Good,
    Bad,
    Warn,
}

/// One thing the terminal has to do; `S` is the text type.
#[derive(Debug, PartialEq, Eq)]
pub enum RenderAction<S> {
    StartRunSpinner,
    StopRunSpinner,
    StartToolSpinner { key: S, name: S, summary: S },
    StopToolSpinner { key: S },
    /// End the current line.
    EndLine,
    /// Streamed answer text, printed as it comes.
    Text { text: S },
    /// Clear the spinner line and open the reasoning line.
    ReasoningStart,
    /// Streamed reasoning, dimmed.
    ReasoningText { text: S },
    /// A complete answer that was not streamed, on its own line.
    FullText { text: S },
    /// `↳ <ms>ms · <preview>`, with ` (截断)` when the result was cut.
    ToolFinished { duration_ms: u64, preview: S, truncated: bool },
    /// A paused approval, with its summary.
    PermissionPending { summary: S },
    /// A status line: `label` in a tone, then `detail` plain.
    Status { tone: Tone, label: S, detail: S },
    /// A context compaction note.
    Compacted { before_tokens: u64, after_tokens: u64 },
    /// The run's closing summary on stderr.
    RunSummary { duration_ms: u64, input_tokens: u64, output_tokens: u64 },
    RunFailed { message: S },
    Cancelled,
}

impl View for RenderAction<String> {
    type V = RenderAction<Seq<char>>;

    open spec fn view(&self) -> RenderAction<Seq<char>> {
        match self {
            RenderAction::StartRunSpinner => RenderAction::StartRunSpinner,
            RenderAction::StopRunSpinner => RenderAction::StopRunSpinner,
            RenderAction::StartToolSpinner { key, name, summary } => RenderAction::StartToolSpinner { key: key@, name: name@, summary: summary@ },
            RenderAction::StopToolSpinner { key } => RenderAction::StopToolSpinner { key: key@ },
            RenderAction::EndLine => RenderAction::EndLine,
            RenderAction::Text { text } => RenderAction::Text { text: text@ },
            RenderAction::ReasoningStart => RenderAction::ReasoningStart,
            RenderAction::ReasoningText { text } => RenderAction::ReasoningText { text: text@ },
            RenderAction::FullText { text } => RenderAction::FullText { text: text@ },
            RenderAction::ToolFinished { duration_ms, preview, truncated } => RenderAction::ToolFinished { duration_ms: *duration_ms, preview: preview@, truncated: *truncated },
            RenderAction::PermissionPending { summary } => RenderAction::PermissionPending { summary: summary@ },
            RenderAction::Status { tone, label, detail } => RenderAction::Status { tone: *tone, label: label@, detail: detail@ },
            RenderAction::Compacted { before_tokens, after_tokens } => RenderAction::Compacted { before_tokens: *before_tokens, after_tokens: *after_tokens },
            RenderAction::RunSummary { duration_ms, input_tokens, output_tokens } => RenderAction::RunSummary { duration_ms: *duration_ms, input_tokens: *input_tokens, output_tokens: *output_tokens },
            RenderAction::RunFailed { message } => RenderAction::RunFailed { message: message@ },
            RenderAction::Cancelled => RenderAction::Cancelled,
        }
    }
}

pub type Act = RenderAction<Seq<char>>;

pub open spec fn acts_view(v: Seq<RenderAction<String>>) -> Seq<Act> {
    v.map_values(|a: RenderAction<String>| a@)
}

/// The renderer's state: whether answer text or reasoning is mid-line, the
/// answer text so far, whether the run spinner turns, and the keys of the
/// running tool spinners.
#[verifier::ext_equal]
pub struct RenderModel {
    pub streaming_text: bool,
    pub streaming_reasoning: bool,
    pub text: Seq<char>,
    pub run_spinner: bool,
    pub tools: Seq<Seq<char>>,
}

/// The key of the spinner of a tool call still being streamed.
pub open spec fn stream_key_spec(index: nat) -> Seq<char> {
    "stream:"@ + decimal_spec(index)
}

/// The result on one line: line breaks become spaces, the ends are trimmed, and
/// past 100 characters it is cut to 100 with `…`.
pub open spec fn preview_spec(result: Seq<char>) -> Seq<char> {
    let t = trim_spec(result.map_values(|c: char| if c == '\n' { ' ' } else { c }));
    if t.len() > 100 { t.subrange(0, 100) + "…"@ } else { t }
}

/// The tool input in parentheses, cut to 80 characters with `…`.
pub open spec fn summary_spec(input: Seq<char>) -> Seq<char> {
    if input.len() > 80 { "("@ + input.subrange(0, 80) + "…)"@ } else { "("@ + input + ")"@ }
}

pub open spec fn stop_run(m: RenderModel) -> (RenderModel, Seq<Act>) {
    if m.run_spinner {
        (RenderModel { run_spinner: false, ..m }, seq![RenderAction::StopRunSpinner])
    } else {
        (m, seq![])
    }
}

pub open spec fn start_run(m: RenderModel) -> (RenderModel, Seq<Act>) {
    if !m.run_spinner {
        (RenderModel { run_spinner: true, ..m }, seq![RenderAction::StartRunSpinner])
    } else {
        (m, seq![])
    }
}

pub open spec fn flush(m: RenderModel) -> (RenderModel, Seq<Act>) {
    if m.streaming_text || m.streaming_reasoning {
        (RenderModel { streaming_text: false, streaming_reasoning: false, ..m }, seq![RenderAction::EndLine])
    } else {
        (m, seq![])
    }
}

pub open spec fn stop_tools(m: RenderModel) -> (RenderModel, Seq<Act>) {
    (RenderModel { tools: seq![], ..m }, m.tools.map_values(|k: Seq<char>| RenderAction::StopToolSpinner { key: k }))
}

pub open spec fn stop_all(m: RenderModel) -> (RenderModel, Seq<Act>) {
    let (m1, a1) = stop_run(m);
    let (m2, a2) = stop_tools(m1);
    (m2, a1 + a2)
}

/// Stops and forgets the tool spinner `key`, if it runs.
pub open spec fn first_index(s: Seq<Seq<char>>, k: Seq<char>) -> int {
    choose|i: int| 0 <= i < s.len() && s[i] == k && forall|j: int| 0 <= j < i ==> s[j] != k
}

pub open spec fn stop_tool(m: RenderModel, key: Seq<char>) -> (RenderModel, Seq<Act>) {
    if m.tools.contains(key) {
        let i = first_index(m.tools, key);
        (RenderModel { tools: m.tools.remove(i), ..m }, seq![RenderAction::StopToolSpinner { key }])
    } else {
        (m, seq![])
    }
}

pub open spec fn decision_status(d: ApprovalDecision) -> Act {
    match d {
        ApprovalDecision::AllowOnce => RenderAction::Status { tone: Tone::Good, label: "✓ 允许"@, detail: Seq::empty() },
        ApprovalDecision::AllowAndRemember { .. } => RenderAction::Status { tone: Tone::Good, label: "✓ 允许并记住"@, detail: Seq::empty() },
        ApprovalDecision::Deny => RenderAction::Status { tone: Tone::Bad, label: "✗ 拒绝"@, detail: Seq::empty() },
        ApprovalDecision::DenyWithFeedback { .. } => RenderAction::Status { tone: Tone::Bad, label: "✗ 拒绝（含反馈）"@, detail: Seq::empty() },
    }
}

/// How an AutoMode verdict is labelled: allow, deny, hand over to the user,
/// or the verdict's own name.
pub open spec fn judged_status(tool_name: Seq<char>, decision: Seq<char>, reason: Option<Seq<char>>) -> Act {
    let (tone, label) = if decision == "allow"@ {
        (Tone::Good, "✓ AutoMode 自动放行"@)
    } else if decision == "deny"@ {
        (Tone::Bad, "✗ AutoMode 拒绝"@)
    } else if decision == "ask"@ {
        (Tone::Warn, "? AutoMode 转人工"@)
    } else {
        (Tone::Warn, "? AutoMode "@ + decision)
    };
    let detail = match reason {
        Some(r) => "  ["@ + tool_name + "] "@ + r,
        None => "  ["@ + tool_name + "]"@,
    };
    RenderAction::Status { tone, label, detail }
}

pub open spec fn answer_label(a: UserAnswer) -> Seq<char> {
    match a {
        UserAnswer::Selected { label } => "✓ "@ + label@,
        UserAnswer::SelectedMulti { labels } => "✓ 多选："@ + join_spec(strings_view(labels@), "、"@),
        UserAnswer::Custom { text } => "✓ 自由输入："@ + text@,
        UserAnswer::Cancelled => "✗ 用户取消"@,
        UserAnswer::Multi { .. } => "✓ 已回复"@,
    }
}

pub open spec fn opt_view(o: Option<String>) -> Option<Seq<char>> {
    match o {
        Some(s) => Some(s@),
        None => None,
    }
}

/// What the renderer does on one event: the new state and the actions.
pub open spec fn step(m: RenderModel, e: RenderEvent) -> (RenderModel, Seq<Act>) {
    match e {
        RenderEvent::RunStarted => start_run(m),
        RenderEvent::TurnStarted { turn } => {
            let a0: Seq<Act> = if turn > 0 { seq![RenderAction::EndLine] } else { seq![] };
            let (m1, a1) = start_run(m);
            (m1, a0 + a1)
        },
        RenderEvent::TextDelta { text } => {
            let (m1, a1) = stop_run(m);
            let a2: Seq<Act> = if m1.streaming_reasoning { seq![RenderAction::EndLine] } else { seq![] };
            (
                RenderModel { streaming_reasoning: false, streaming_text: true, text: m1.text + text@, ..m1 },
                a1 + a2 + seq![RenderAction::Text { text: text@ }],
            )
        },
        RenderEvent::Reasoning { text } => {
            let (m1, a1) = stop_run(m);
            let (m2, a2) = stop_tools(m1);
            let a3: Seq<Act> = if !m2.streaming_reasoning { seq![RenderAction::ReasoningStart] } else { seq![] };
            (
                RenderModel { streaming_reasoning: true, ..m2 },
                a1 + a2 + a3 + seq![RenderAction::ReasoningText { text: text@ }],
            )
        },
        RenderEvent::TextDone { full_text } => {
            let (m1, a1) = stop_run(m);
            let (m2, a2) = flush(m1);
            if full_text@.len() > 0 && m2.text.len() == 0 {
                (RenderModel { text: full_text@, ..m2 }, a1 + a2 + seq![RenderAction::FullText { text: full_text@ }])
            } else {
                (m2, a1 + a2)
            }
        },
        RenderEvent::ToolCallDelta { index, name } => {
            let (m1, a1) = stop_run(m);
            let key = stream_key_spec(index as nat);
            if m1.tools.contains(key) {
                (m1, a1)
            } else {
                let (m2, a2) = flush(m1);
                let tool_name = match name {
                    Some(n) => n@,
                    None => "tool_call"@,
                };
                (
                    RenderModel { tools: m2.tools.push(key), ..m2 },
                    a1 + a2 + seq![RenderAction::StartToolSpinner { key, name: tool_name, summary: " preparing"@ }],
                )
            }
        },
        RenderEvent::ToolCallStarted { index, call_id, name, input_json } => {
            let (m1, a1) = stop_run(m);
            let (m2, a2) = flush(m1);
            let (m3, a3) = stop_tool(m2, stream_key_spec(index as nat));
            let (m4, a4) = stop_tool(m3, call_id@);
            (
                RenderModel { tools: m4.tools.push(call_id@), ..m4 },
                a1 + a2 + a3 + a4 + seq![RenderAction::StartToolSpinner { key: call_id@, name: name@, summary: summary_spec(input_json@) }],
            )
        },
        RenderEvent::ToolCallFinished { call_id, result, duration_ms, truncated } => {
            let (m1, a1) = stop_tool(m, call_id@);
            let a2 = seq![RenderAction::ToolFinished { duration_ms, preview: preview_spec(result@), truncated }];
            if m1.tools.len() == 0 {
                let (m3, a3) = start_run(m1);
                (m3, a1 + a2 + a3)
            } else {
                (m1, a1 + a2)
            }
        },
        RenderEvent::PermissionRequested { summary } => {
            let (m1, a1) = stop_run(m);
            let (m2, a2) = flush(m1);
            (m2, a1 + a2 + seq![RenderAction::PermissionPending { summary: summary@ }])
        },
        RenderEvent::PermissionResolved { decision } => {
            let (m1, a1) = start_run(m);
            (m1, seq![decision_status(decision)] + a1)
        },
        RenderEvent::PermissionAutoJudged { tool_name, decision, reason } => {
            let (m1, a1) = stop_run(m);
            let (m2, a2) = flush(m1);
            let (m3, a3) = start_run(m2);
            (m3, a1 + a2 + seq![judged_status(tool_name@, decision@, opt_view(reason))] + a3)
        },
        RenderEvent::UserQuestionRequested => flush(m),
        RenderEvent::UserQuestionAnswered { answer } => {
            let (m1, a1) = start_run(m);
            (m1, seq![RenderAction::Status { tone: Tone::Good, label: answer_label(answer), detail: Seq::empty() }] + a1)
        },
        RenderEvent::ContextCompacted { before_tokens, after_tokens } => (m, seq![RenderAction::Compacted { before_tokens, after_tokens }]),
        RenderEvent::RunFinished { total_input_tokens, total_output_tokens, duration_ms } => {
            let (m1, a1) = stop_all(m);
            let (m2, a2) = flush(m1);
            if total_input_tokens > 0 || total_output_tokens > 0 {
                (m2, a1 + a2 + seq![RenderAction::RunSummary { duration_ms, input_tokens: total_input_tokens, output_tokens: total_output_tokens }])
            } else {
                (m2, a1 + a2)
            }
        },
        RenderEvent::RunFailed { message } => {
            let (m1, a1) = stop_all(m);
            let (m2, a2) = flush(m1);
            (m2, a1 + a2 + seq![RenderAction::RunFailed { message: message@ }])
        },
        RenderEvent::RunCancelled => {
            let (m1, a1) = stop_all(m);
            let (m2, a2) = flush(m1);
            (m2, a1 + a2 + seq![RenderAction::Cancelled])
        },
        RenderEvent::Other => (m, seq![]),
    }
}

/// The key of the spinner of a tool call still being streamed: `stream:<index>`.
pub fn stream_tool_spinner_key(index: usize) -> (k: String)
    ensures
        k@ == stream_key_spec(index as nat),
{
    let d = decimal(index as u64);
    concat_str("stream:", d.as_str())
}

/// A tool result on one line for the `↳` row.
pub fn preview_result(result: &str) -> (r: String)
    ensures
        r@ == preview_spec(result@),
{
    let v = chars_of(result);
    let mut single: Vec<char> = Vec::new();
    let mut i: usize = 0;
    while i < v.len()
        invariant
            i <= v.len(),
            single@ == v@.subrange(0, i as int).map_values(|c: char| if c == '\n' { ' ' } else { c }),
        decreases v.len() - i,
    {
        let c = if v[i] == '\n' { ' ' } else { v[i] };
        single.push(c);
        i += 1;
        assert(single@ =~= v@.subrange(0, i as int).map_values(|c: char| if c == '\n' { ' ' } else { c }));
    }
    assert(v@.subrange(0, v.len() as int) =~= v@);
    let t = trim_chars(&single);
    if t.len() > 100 {
        let head = take_chars_vec(&t, 100);
        let hs = string_of(&head);
        concat_str(hs.as_str(), "…")
    } else {
        string_of(&t)
    }
}

/// The spinner summary of a tool input (given as JSON text).
pub fn summarize_input(input_json: &str) -> (r: String)
    ensures
        r@ == summary_spec(input_json@),
{
    let v = chars_of(input_json);
    if v.len() > 80 {
        let head = take_chars_vec(&v, 80);
        let hs = string_of(&head);
        let open = concat_str("(", hs.as_str());
        concat_str(open.as_str(), "…)")
    } else {
        let open = concat_str("(", input_json);
        concat_str(open.as_str(), ")")
    }
}

/// The spinner's tick in milliseconds: 100 to 150, from a random number.
pub fn random_tool_interval_ms(random: u64) -> (ms: u64)
    ensures
        ms == 100 + random % 51,
        100 <= ms <= 150,
{
    100 + random % 51
}

/// Which of the two spinner styles to show, from a random number.
pub fn pick_second_spinner(random: u64) -> (second: bool)
    ensures
        second == (random % 2 != 0),
{
    random % 2 != 0
}

/// The renderer of one turn.
pub struct TurnRenderer {
    streaming_text: bool,
    streaming_reasoning: bool,
    accumulated_text: String,
    run_spinner: bool,
    tool_spinners: Vec<String>,
}

impl TurnRenderer {
    pub closed spec fn model(&self) -> RenderModel {
        RenderModel {
            streaming_text: self.streaming_text,
            streaming_reasoning: self.streaming_reasoning,
            text: self.accumulated_text@,
            run_spinner: self.run_spinner,
            tools: strings_view(self.tool_spinners@),
        }
    }

    pub fn new() -> (r: Self)
        ensures
            r.model() == (RenderModel { streaming_text: false, streaming_reasoning: false, text: Seq::empty(), run_spinner: false, tools: Seq::empty() }),
    {
        let r = TurnRenderer {
            streaming_text: false,
            streaming_reasoning: false,
            accumulated_text: String::new(),
            run_spinner: false,
            tool_spinners: Vec::new(),
        };
        assert(r.model().tools =~= Seq::<Seq<char>>::empty());
        r
    }

    fn do_stop_run(&mut self, acts: &mut Vec<RenderAction<String>>)
        ensures
            final(self).model() == stop_run(old(self).model()).0,
            acts_view(final(acts)@) == acts_view(old(acts)@) + stop_run(old(self).model()).1,
    {
        if self.run_spinner {
            self.run_spinner = false;
            acts.push(RenderAction::StopRunSpinner);
        }
        assert(acts_view(acts@) =~= acts_view(old(acts)@) + stop_run(old(self).model()).1);
    }

    fn do_start_run(&mut self, acts: &mut Vec<RenderAction<String>>)
        ensures
            final(self).model() == start_run(old(self).model()).0,
            acts_view(final(acts)@) == acts_view(old(acts)@) + start_run(old(self).model()).1,
    {
        if !self.run_spinner {
            self.run_spinner = true;
            acts.push(RenderAction::StartRunSpinner);
        }
        assert(acts_view(acts@) =~= acts_view(old(acts)@) + start_run(old(self).model()).1);
    }

    fn do_flush(&mut self, acts: &mut Vec<RenderAction<String>>)
        ensures
            final(self).model() == flush(old(self).model()).0,
            acts_view(final(acts)@) == acts_view(old(acts)@) + flush(old(self).model()).1,
    {
        if self.streaming_text || self.streaming_reasoning {
            acts.push(RenderAction::EndLine);
            self.streaming_text = false;
            self.streaming_reasoning = false;
        }
        assert(acts_view(acts@) =~= acts_view(old(acts)@) + flush(old(self).model()).1);
    }

    fn do_stop_tools(&mut self, acts: &mut Vec<RenderAction<String>>)
        ensures
            final(self).model() == stop_tools(old(self).model()).0,
            acts_view(final(acts)@) == acts_view(old(acts)@) + stop_tools(old(self).model()).1,
    {
        let mut i: usize = 0;
        let ghost a0 = acts_view(acts@);
        let ghost keys = strings_view(self.tool_spinners@);
        while i < self.tool_spinners.len()
            invariant
                i <= self.tool_spinners.len(),
                keys == strings_view(self.tool_spinners@),
                acts_view(acts@) == a0 + keys.subrange(0, i as int).map_values(|k: Seq<char>| RenderAction::StopToolSpinner { key: k }),
            decreases self.tool_spinners.len() - i,
        {
            let k = self.tool_spinners[i].clone();
            assert(k@ == keys[i as int]);
            let ghost before = acts_view(acts@);
            acts.push(RenderAction::StopToolSpinner { key: k });
            assert(acts_view(acts@) =~= before.push(RenderAction::StopToolSpinner { key: keys[i as int] }));
            assert(keys.subrange(0, i + 1).map_values(|k: Seq<char>| RenderAction::StopToolSpinner { key: k }) =~= keys.subrange(0, i as int).map_values(|k: Seq<char>| RenderAction::StopToolSpinner { key: k }).push(RenderAction::StopToolSpinner { key: keys[i as int] }));
            i += 1;
            assert(acts_view(acts@) =~= a0 + keys.subrange(0, i as int).map_values(|k: Seq<char>| RenderAction::StopToolSpinner { key: k }));
        }
        assert(keys.subrange(0, keys.len() as int) =~= keys);
        self.tool_spinners = Vec::new();
        assert(self.model().tools =~= Seq::<Seq<char>>::empty());
    }

    fn do_stop_all(&mut self, acts: &mut Vec<RenderAction<String>>)
        ensures
            final(self).model() == stop_all(old(self).model()).0,
            acts_view(final(acts)@) == acts_view(old(acts)@) + stop_all(old(self).model()).1,
    {
        self.do_stop_run(acts);
        self.do_stop_tools(acts);
        assert(acts_view(acts@) =~= acts_view(old(acts)@) + stop_all(old(self).model()).1);
    }

    fn find_tool(&self, key: &str) -> (r: Option<usize>)
        ensures
            match r {
                Some(i) => self.model().tools.contains(key@) && i == first_index(self.model().tools, key@) && i < self.tool_spinners.len(),
                None => !self.model().tools.contains(key@),
            },
    {
        let ghost keys = self.model().tools;
        let mut i: usize = 0;
        while i < self.tool_spinners.len()
            invariant
                i <= self.tool_spinners.len(),
                keys == strings_view(self.tool_spinners@),
                forall|j: int| 0 <= j < i ==> keys[j] != key@,
            decreases self.tool_spinners.len() - i,
        {
            let kv = chars_of(self.tool_spinners[i].as_str());
            if eq_str(&kv, key) {
                assert(keys[i as int] == key@);
                assert(keys.contains(key@));
                assert(0 <= i < keys.len() && keys[i as int] == key@ && forall|j: int| 0 <= j < i ==> keys[j] != key@);
                let ghost f = first_index(keys, key@);
                proof {
                    if f < i {
                        assert(keys[f] != key@);
                    }
                    if f > i {
                        assert(keys[i as int] != key@);
                    }
                }
                return Some(i);
            }
            i += 1;
        }
        None
    }

    fn do_stop_tool(&mut self, key: &str, acts: &mut Vec<RenderAction<String>>)
        ensures
            final(self).model() == stop_tool(old(self).model(), key@).0,
            acts_view(final(acts)@) == acts_view(old(acts)@) + stop_tool(old(self).model(), key@).1,
    {
        match self.find_tool(key) {
            Some(i) => {
                let k = self.tool_spinners.remove(i);
                acts.push(RenderAction::StopToolSpinner { key: key.to_string() });
                assert(self.model().tools =~= old(self).model().tools.remove(i as int));
            },
            None => {},
        }
        assert(acts_view(acts@) =~= acts_view(old(acts)@) + stop_tool(old(self).model(), key@).1);
    }
}

fn decision_status_exec(d: &ApprovalDecision) -> (a: RenderAction<String>)
    ensures
        a@ == decision_status(*d),
{
    match d {
        ApprovalDecision::AllowOnce => RenderAction::Status { tone: Tone::Good, label: "✓ 允许".to_string(), detail: String::new() },
        ApprovalDecision::AllowAndRemember { .. } => RenderAction::Status { tone: Tone::Good, label: "✓ 允许并记住".to_string(), detail: String::new() },
        ApprovalDecision::Deny => RenderAction::Status { tone: Tone::Bad, label: "✗ 拒绝".to_string(), detail: String::new() },
        ApprovalDecision::DenyWithFeedback { .. } => RenderAction::Status { tone: Tone::Bad, label: "✗ 拒绝（含反馈）".to_string(), detail: String::new() },
    }
}

fn judged_status_exec(tool_name: &str, decision: &str, reason: &Option<String>) -> (a: RenderAction<String>)
    ensures
        a@ == judged_status(tool_name@, decision@, opt_view(*reason)),
{
    let dv = chars_of(decision);
    let (tone, label) = if eq_str(&dv, "allow") {
        (Tone::Good, "✓ AutoMode 自动放行".to_string())
    } else if eq_str(&dv, "deny") {
        (Tone::Bad, "✗ AutoMode 拒绝".to_string())
    } else if eq_str(&dv, "ask") {
        (Tone::Warn, "? AutoMode 转人工".to_string())
    } else {
        (Tone::Warn, concat_str("? AutoMode ", decision))
    };
    let head = concat_str("  [", tool_name);
    let detail = match reason {
        Some(r) => {
            let mid = concat_str(head.as_str(), "] ");
            let d = concat_str(mid.as_str(), r.as_str());
            assert(d@ =~= "  ["@ + tool_name@ + "] "@ + r@);
            d
        },
        None => concat_str(head.as_str(), "]"),
    };
    RenderAction::Status { tone, label, detail }
}

fn answer_label_exec(a: &UserAnswer) -> (l: String)
    ensures
        l@ == answer_label(*a),
{
    match a {
        UserAnswer::Selected { label } => concat_str("✓ ", label.as_str()),
        UserAnswer::SelectedMulti { labels } => {
            let j = join(labels, "、");
            concat_str("✓ 多选：", j.as_str())
        },
        UserAnswer::Custom { text } => concat_str("✓ 自由输入：", text.as_str()),
        UserAnswer::Cancelled => "✗ 用户取消".to_string(),
        UserAnswer::Multi { .. } => "✓ 已回复".to_string(),
    }
}

impl TurnRenderer {
    fn on_text_delta(&mut self, text: String) -> (acts: Vec<RenderAction<String>>)
        ensures
            (final(self).model(), acts_view(acts@)) == step(old(self).model(), RenderEvent::TextDelta { text }),
    {
        let mut acts: Vec<RenderAction<String>> = Vec::new();
        assert(acts_view(acts@) =~= Seq::<Act>::empty());
        self.do_stop_run(&mut acts);
        if self.streaming_reasoning {
            acts.push(RenderAction::EndLine);
            self.streaming_reasoning = false;
        }
        let mut acc = chars_of(self.accumulated_text.as_str());
        let tv = chars_of(text.as_str());
        let mut i: usize = 0;
        let ghost acc0 = acc@;
        while i < tv.len()
            invariant
                i <= tv.len(),
                acc@ == acc0 + tv@.subrange(0, i as int),
            decreases tv.len() - i,
        {
            acc.push(tv[i]);
            i += 1;
        }
        assert(tv@.subrange(0, tv.len() as int) =~= tv@);
        self.accumulated_text = string_of(&acc);
        let ghost t = text;
        acts.push(RenderAction::Text { text });
        self.streaming_text = true;
        assert(self.model() =~= step(old(self).model(), RenderEvent::TextDelta { text: t }).0);
        assert(acts_view(acts@) =~= step(old(self).model(), RenderEvent::TextDelta { text: t }).1);
        acts
    }

    fn on_reasoning(&mut self, text: String) -> (acts: Vec<RenderAction<String>>)
        ensures
            (final(self).model(), acts_view(acts@)) == step(old(self).model(), RenderEvent::Reasoning { text }),
    {
        let mut acts: Vec<RenderAction<String>> = Vec::new();
        assert(acts_view(acts@) =~= Seq::<Act>::empty());
        self.do_stop_run(&mut acts);
        self.do_stop_tools(&mut acts);
        if !self.streaming_reasoning {
            acts.push(RenderAction::ReasoningStart);
            self.streaming_reasoning = true;
        }
        let ghost t = text;
        acts.push(RenderAction::ReasoningText { text });
        assert(self.model() =~= step(old(self).model(), RenderEvent::Reasoning { text: t }).0);
        assert(acts_view(acts@) =~= step(old(self).model(), RenderEvent::Reasoning { text: t }).1);
        acts
    }

    fn on_text_done(&mut self, full_text: String) -> (acts: Vec<RenderAction<String>>)
        ensures
            (final(self).model(), acts_view(acts@)) == step(old(self).model(), RenderEvent::TextDone { full_text }),
    {
        let mut acts: Vec<RenderAction<String>> = Vec::new();
        assert(acts_view(acts@) =~= Seq::<Act>::empty());
        self.do_stop_run(&mut acts);
        self.do_flush(&mut acts);
        let ghost t = full_text;
        if !full_text.as_str().is_empty() && self.accumulated_text.as_str().is_empty() {
            self.accumulated_text = full_text.clone();
            acts.push(RenderAction::FullText { text: full_text });
        }
        assert(self.model() =~= step(old(self).model(), RenderEvent::TextDone { full_text: t }).0);
        assert(acts_view(acts@) =~= step(old(self).model(), RenderEvent::TextDone { full_text: t }).1);
        acts
    }

    fn on_tool_delta(&mut self, index: usize, name: Option<String>) -> (acts: Vec<RenderAction<String>>)
        ensures
            (final(self).model(), acts_view(acts@)) == step(old(self).model(), RenderEvent::ToolCallDelta { index, name }),
    {
        let mut acts: Vec<RenderAction<String>> = Vec::new();
        assert(acts_view(acts@) =~= Seq::<Act>::empty());
        let ghost nm = name;
        self.do_stop_run(&mut acts);
        let key = stream_tool_spinner_key(index);
        if self.find_tool(key.as_str()).is_none() {
            self.do_flush(&mut acts);
            let tool_name = match name {
                Some(n) => n,
                None => "tool_call".to_string(),
            };
            self.tool_spinners.push(key.clone());
            acts.push(RenderAction::StartToolSpinner { key, name: tool_name, summary: " preparing".to_string() });
        }
        assert(self.model() =~= step(old(self).model(), RenderEvent::ToolCallDelta { index, name: nm }).0);
        assert(acts_view(acts@) =~= step(old(self).model(), RenderEvent::ToolCallDelta { index, name: nm }).1);
        acts
    }

    fn on_tool_started(&mut self, index: usize, call_id: String, name: String, input_json: String) -> (acts: Vec<RenderAction<String>>)
        ensures
            (final(self).model(), acts_view(acts@)) == step(old(self).model(), RenderEvent::ToolCallStarted { index, call_id, name, input_json }),
    {
        let mut acts: Vec<RenderAction<String>> = Vec::new();
        assert(acts_view(acts@) =~= Seq::<Act>::empty());
        let ghost (c, n, ij) = (call_id, name, input_json);
        self.do_stop_run(&mut acts);
        self.do_flush(&mut acts);
        let summary = summarize_input(input_json.as_str());
        let key = stream_tool_spinner_key(index);
        self.do_stop_tool(key.as_str(), &mut acts);
        self.do_stop_tool(call_id.as_str(), &mut acts);
        self.tool_spinners.push(call_id.clone());
        acts.push(RenderAction::StartToolSpinner { key: call_id, name, summary });
        assert(self.model() =~= step(old(self).model(), RenderEvent::ToolCallStarted { index, call_id: c, name: n, input_json: ij }).0);
        assert(acts_view(acts@) =~= step(old(self).model(), RenderEvent::ToolCallStarted { index, call_id: c, name: n, input_json: ij }).1);
        acts
    }

    fn on_tool_finished(&mut self, call_id: String, result: String, duration_ms: u64, truncated: bool) -> (acts: Vec<RenderAction<String>>)
        ensures
            (final(self).model(), acts_view(acts@)) == step(old(self).model(), RenderEvent::ToolCallFinished { call_id, result, duration_ms, truncated }),
    {
        let mut acts: Vec<RenderAction<String>> = Vec::new();
        assert(acts_view(acts@) =~= Seq::<Act>::empty());
        self.do_stop_tool(call_id.as_str(), &mut acts);
        let preview = preview_result(result.as_str());
        acts.push(RenderAction::ToolFinished { duration_ms, preview, truncated });
        if self.tool_spinners.len() == 0 {
            self.do_start_run(&mut acts);
        }
        assert(self.model() =~= step(old(self).model(), RenderEvent::ToolCallFinished { call_id, result, duration_ms, truncated }).0);
        assert(acts_view(acts@) =~= step(old(self).model(), RenderEvent::ToolCallFinished { call_id, result, duration_ms, truncated }).1);
        acts
    }

    fn on_auto_judged(&mut self, tool_name: String, decision: String, reason: Option<String>) -> (acts: Vec<RenderAction<String>>)
        ensures
            (final(self).model(), acts_view(acts@)) == step(old(self).model(), RenderEvent::PermissionAutoJudged { tool_name, decision, reason }),
    {
        let mut acts: Vec<RenderAction<String>> = Vec::new();
        assert(acts_view(acts@) =~= Seq::<Act>::empty());
        self.do_stop_run(&mut acts);
        self.do_flush(&mut acts);
        acts.push(judged_status_exec(tool_name.as_str(), decision.as_str(), &reason));
        self.do_start_run(&mut acts);
        assert(self.model() =~= step(old(self).model(), RenderEvent::PermissionAutoJudged { tool_name, decision, reason }).0);
        assert(acts_view(acts@) =~= step(old(self).model(), RenderEvent::PermissionAutoJudged { tool_name, decision, reason }).1);
        acts
    }

    fn on_run_end(&mut self, event: RenderEvent) -> (acts: Vec<RenderAction<String>>)
        requires
            event is RunFinished || event is RunFailed || event is RunCancelled,
        ensures
            (final(self).model(), acts_view(acts@)) == step(old(self).model(), event),
    {
        let mut acts: Vec<RenderAction<String>> = Vec::new();
        assert(acts_view(acts@) =~= Seq::<Act>::empty());
        let ghost e = event;
        self.do_stop_all(&mut acts);
        self.do_flush(&mut acts);
        match event {
            RenderEvent::RunFinished { total_input_tokens, total_output_tokens, duration_ms } => {
                if total_input_tokens > 0 || total_output_tokens > 0 {
                    acts.push(RenderAction::RunSummary { duration_ms, input_tokens: total_input_tokens, output_tokens: total_output_tokens });
                }
            },
            RenderEvent::RunFailed { message } => {
                acts.push(RenderAction::RunFailed { message });
            },
            _ => {
                acts.push(RenderAction::Cancelled);
            },
        }
        assert(self.model() =~= step(old(self).model(), e).0);
        assert(acts_view(acts@) =~= step(old(self).model(), e).1);
        acts
    }

    /// Renders one event: updates the state and returns the output actions in order.
    pub fn on_event(&mut self, event: RenderEvent) -> (acts: Vec<RenderAction<String>>)
        ensures
            (final(self).model(), acts_view(acts@)) == step(old(self).model(), event),
    {
        match event {
            RenderEvent::RunStarted => {
                let mut acts: Vec<RenderAction<String>> = Vec::new();
                assert(acts_view(acts@) =~= Seq::<Act>::empty());
                self.do_start_run(&mut acts);
                assert(acts_view(acts@) =~= step(old(self).model(), RenderEvent::RunStarted).1);
                acts
            },
            RenderEvent::TurnStarted { turn } => {
                let mut acts: Vec<RenderAction<String>> = Vec::new();
                assert(acts_view(acts@) =~= Seq::<Act>::empty());
                if turn > 0 {
                    acts.push(RenderAction::EndLine);
                }
                self.do_start_run(&mut acts);
                assert(acts_view(acts@) =~= step(old(self).model(), RenderEvent::TurnStarted { turn }).1);
                acts
            },
            RenderEvent::TextDelta { text } => self.on_text_delta(text),
            RenderEvent::Reasoning { text } => self.on_reasoning(text),
            RenderEvent::TextDone { full_text } => self.on_text_done(full_text),
            RenderEvent::ToolCallDelta { index, name } => self.on_tool_delta(index, name),
            RenderEvent::ToolCallStarted { index, call_id, name, input_json } => self.on_tool_started(index, call_id, name, input_json),
            RenderEvent::ToolCallFinished { call_id, result, duration_ms, truncated } => self.on_tool_finished(call_id, result, duration_ms, truncated),
            RenderEvent::PermissionRequested { summary } => {
                let mut acts: Vec<RenderAction<String>> = Vec::new();
                assert(acts_view(acts@) =~= Seq::<Act>::empty());
                let ghost sm = summary;
                self.do_stop_run(&mut acts);
                self.do_flush(&mut acts);
                acts.push(RenderAction::PermissionPending { summary });
                assert(acts_view(acts@) =~= step(old(self).model(), RenderEvent::PermissionRequested { summary: sm }).1);
                acts
            },
            RenderEvent::PermissionResolved { decision } => {
                let mut acts: Vec<RenderAction<String>> = Vec::new();
                acts.push(decision_status_exec(&decision));
                self.do_start_run(&mut acts);
                assert(acts_view(acts@) =~= step(old(self).model(), RenderEvent::PermissionResolved { decision }).1);
                acts
            },
            RenderEvent::PermissionAutoJudged { tool_name, decision, reason } => self.on_auto_judged(tool_name, decision, reason),
            RenderEvent::UserQuestionRequested => {
                let mut acts: Vec<RenderAction<String>> = Vec::new();
                assert(acts_view(acts@) =~= Seq::<Act>::empty());
                self.do_flush(&mut acts);
                acts
            },
            RenderEvent::UserQuestionAnswered { answer } => {
                let mut acts: Vec<RenderAction<String>> = Vec::new();
                let label = answer_label_exec(&answer);
                acts.push(RenderAction::Status { tone: Tone::Good, label, detail: String::new() });
                self.do_start_run(&mut acts);
                assert(acts_view(acts@) =~= step(old(self).model(), RenderEvent::UserQuestionAnswered { answer }).1);
                acts
            },
            RenderEvent::ContextCompacted { before_tokens, after_tokens } => {
                let mut acts: Vec<RenderAction<String>> = Vec::new();
                acts.push(RenderAction::Compacted { before_tokens, after_tokens });
                assert(acts_view(acts@) =~= step(old(self).model(), RenderEvent::ContextCompacted { before_tokens, after_tokens }).1);
                acts
            },
            RenderEvent::RunFinished { total_input_tokens, total_output_tokens, duration_ms } => self.on_run_end(
                RenderEvent::RunFinished { total_input_tokens, total_output_tokens, duration_ms },
            ),
            RenderEvent::RunFailed { message } => self.on_run_end(RenderEvent::RunFailed { message }),
            RenderEvent::RunCancelled => self.on_run_end(RenderEvent::RunCancelled),
            RenderEvent::Other => {
                let acts: Vec<RenderAction<String>> = Vec::new();
                assert(acts_view(acts@) =~= Seq::<Act>::empty());
                acts
            },
        }
    }

    /// Hands out the answer text gathered in this turn and forgets it.
    pub fn take_final_text(&mut self) -> (t: String)
        ensures
            t@ == old(self).model().text,
            final(self).model() == (RenderModel { text: Seq::empty(), ..old(self).model() }),
    {
        let mut t = String::new();
        std::mem::swap(&mut t, &mut self.accumulated_text);
        t
    }
}

/// When a run ends (finished, failed or cancelled), every spinner is stopped
/// and no output line is left open.
pub proof fn law_run_end_quiet(m: RenderModel, e: RenderEvent)
    requires
        e is RunFinished || e is RunFailed || e is RunCancelled,
    ensures
        !step(m, e).0.run_spinner,
        step(m, e).0.tools.len() == 0,
        !step(m, e).0.streaming_text,
        !step(m, e).0.streaming_reasoning,
        step(m, e).1.contains(RenderAction::StopRunSpinner) == m.run_spinner,
{
    if m.run_spinner {
        assert(step(m, e).1[0] == RenderAction::<Seq<char>>::StopRunSpinner);
    } else {
        let a = step(m, e).1;
        assert forall|i: int| 0 <= i < a.len() implies a[i] != RenderAction::<Seq<char>>::StopRunSpinner by {}
    }
}


/// The model after the events `evs`, one `on_event` each.
pub open spec fn run_events(m: RenderModel, evs: Seq<RenderEvent>) -> RenderModel
    decreases evs.len(),
{
    if evs.len() == 0 {
        m
    } else {
        step(run_events(m, evs.drop_last()), evs.last()).0
    }
}

/// The texts of the text deltas among `evs`, concatenated in order.
pub open spec fn delta_text(evs: Seq<RenderEvent>) -> Seq<char>
    decreases evs.len(),
{
    if evs.len() == 0 {
        Seq::empty()
    } else {
        let t = delta_text(evs.drop_last());
        match evs.last() {
            RenderEvent::TextDelta { text } => t + text@,
            _ => t,
        }
    }
}

/// No non-empty full text arrives before any delta text has.
pub open spec fn done_after_deltas(evs: Seq<RenderEvent>) -> bool {
    forall|k: int| 0 <= k < evs.len() && (#[trigger] evs[k] matches RenderEvent::TextDone { full_text } && full_text@.len() > 0)
        ==> delta_text(evs.subrange(0, k)).len() > 0
}

/// What one event does to the kept text.
pub open spec fn text_after(t: Seq<char>, e: RenderEvent) -> Seq<char> {
    match e {
        RenderEvent::TextDelta { text } => t + text@,
        RenderEvent::TextDone { full_text } => if full_text@.len() > 0 && t.len() == 0 { full_text@ } else { t },
        _ => t,
    }
}

#[verifier::spinoff_prover]
#[verifier::rlimit(60)]
proof fn lemma_step_text(m: RenderModel, e: RenderEvent)
    ensures
        step(m, e).0.text == text_after(m.text, e),
{
    assert(stop_run(m).0.text == m.text);
    assert(start_run(m).0.text == m.text);
    assert(flush(m).0.text == m.text);
    assert(stop_all(m).0.text == m.text);
    match e {
        RenderEvent::ToolCallDelta { index, name } => {
            let m1 = stop_run(m).0;
            assert(flush(m1).0.text == m.text);
        },
        RenderEvent::ToolCallStarted { index, call_id, name, input_json } => {
            let m1 = stop_run(m).0;
            let m2 = flush(m1).0;
            let m3 = stop_tool(m2, stream_key_spec(index as nat)).0;
            assert(m3.text == m.text);
            assert(stop_tool(m3, call_id@).0.text == m.text);
        },
        RenderEvent::ToolCallFinished { call_id, result, duration_ms, truncated } => {
            let m1 = stop_tool(m, call_id@).0;
            assert(m1.text == m.text);
            assert(start_run(m1).0.text == m.text);
        },
        RenderEvent::Reasoning { text } => {
            let m1 = stop_run(m).0;
            assert(stop_tools(m1).0.text == m.text);
        },
        RenderEvent::PermissionAutoJudged { tool_name, decision, reason } => {
            let m1 = stop_run(m).0;
            let m2 = flush(m1).0;
            assert(start_run(m2).0.text == m.text);
        },
        RenderEvent::RunFinished { .. } | RenderEvent::RunFailed { .. } | RenderEvent::RunCancelled => {
            let m1 = stop_all(m).0;
            assert(flush(m1).0.text == m.text);
        },
        RenderEvent::TextDone { full_text } => {
            let m1 = stop_run(m).0;
            assert(flush(m1).0.text == m.text);
        },
        _ => {},
    }
}

proof fn lemma_text_prefix(m: RenderModel, evs: Seq<RenderEvent>, k: int)
    requires
        m.text.len() == 0,
        done_after_deltas(evs),
        0 <= k <= evs.len(),
    ensures
        run_events(m, evs.subrange(0, k)).text == delta_text(evs.subrange(0, k)),
    decreases k,
{
    if k > 0 {
        lemma_text_prefix(m, evs, k - 1);
        let p = evs.subrange(0, k);
        assert(p.drop_last() =~= evs.subrange(0, k - 1));
        assert(p.last() == evs[k - 1]);
        let e = evs[k - 1];
        lemma_step_text(run_events(m, evs.subrange(0, k - 1)), e);
        if let RenderEvent::TextDone { full_text } = e {
            if full_text@.len() > 0 {
                assert(delta_text(evs.subrange(0, k - 1)).len() > 0);
            }
        }
    }
}

/// Streamed answer text is kept in order: starting from an empty text (a new
/// renderer, or right after `take_final_text`), after any events in which no
/// non-empty full text comes before the first delta text, the text kept (what
/// `take_final_text` hands out, leaving it empty) is the delta texts
/// concatenated in arrival order.
pub proof fn law_text_accumulates(m: RenderModel, evs: Seq<RenderEvent>)
    requires
        m.text.len() == 0,
        done_after_deltas(evs),
    ensures
        run_events(m, evs).text == delta_text(evs),
{
    lemma_text_prefix(m, evs, evs.len() as int);
    assert(evs.subrange(0, evs.len() as int) =~= evs);
}


/// The status line an AutoMode verdict shows: `allow` in the good tone with
/// "✓ AutoMode 自动放行", `deny` in the bad tone with "✗ AutoMode 拒绝"; only
/// a denial is shown in the bad tone, and the two labels differ.
pub proof fn law_verdict_status(m: RenderModel, tool_name: String, decision: String, reason: Option<String>)
    ensures
        ({
            let acts = step(m, RenderEvent::PermissionAutoJudged { tool_name, decision, reason }).1;
            &&& exists|i: int| 0 <= i < acts.len() && (#[trigger] acts[i] matches RenderAction::Status { tone, label, .. }
                && (decision@ == "allow"@ ==> tone == Tone::Good && label == "✓ AutoMode 自动放行"@)
                && (decision@ == "deny"@ ==> tone == Tone::Bad && label == "✗ AutoMode 拒绝"@)
                && (tone == Tone::Bad <==> decision@ == "deny"@))
            &&& forall|i: int| 0 <= i < acts.len() && decision@ != "deny"@ ==> !(#[trigger] acts[i] matches RenderAction::Status { tone: Tone::Bad, .. })
        }),
        "✓ AutoMode 自动放行"@ != "✗ AutoMode 拒绝"@,
{
    reveal_strlit("allow");
    reveal_strlit("deny");
    reveal_strlit("ask");
    reveal_strlit("✓ AutoMode 自动放行");
    reveal_strlit("✗ AutoMode 拒绝");
    assert("✓ AutoMode 自动放行"@[0] != "✗ AutoMode 拒绝"@[0]);
    let (m1, a1) = stop_run(m);
    let (m2, a2) = flush(m1);
    let (m3, a3) = start_run(m2);
    let st = judged_status(tool_name@, decision@, opt_view(reason));
    let acts = step(m, RenderEvent::PermissionAutoJudged { tool_name, decision, reason }).1;
    assert(acts == a1 + a2 + seq![st] + a3);
    let k = (a1.len() + a2.len()) as int;
    assert(acts[k] == st);
    assert("allow"@ != "deny"@) by { assert("allow"@.len() != "deny"@.len()); }
    assert("ask"@ != "deny"@) by { assert("ask"@.len() != "deny"@.len()); }
    assert forall|i: int| 0 <= i < acts.len() && decision@ != "deny"@ implies !(#[trigger] acts[i] matches RenderAction::Status { tone: Tone::Bad, .. }) by {
        if i < a1.len() {
        } else if i < a1.len() + a2.len() {
            assert(acts[i] == a2[i - a1.len()]);
        } else if i == k {
        } else {
            assert(acts[i] == a3[i - k - 1]);
        }
    }
}

} // verus!
