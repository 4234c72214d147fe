//! The CLI daemon: translating core wire events into the daemon's NDJSON events
//! (with token usage summed per run), and the decisions behind its IPC commands.

use vstd::prelude::*;
use crate::protocol::{ApprovalDecision, AskQuestion, PermissionScope, QuestionOption, UserAnswer};
use crate::text::{chars_of, eq_str, lemma_lt_total, lemma_lt_transitive, seq_lt, sorted_strict, str_lt, string_of, strings_view};

verus! {

/// How a file changed in a run.
#[derive(Debug, Clone, Copy, PartialEq, Eq, Structural)]
pub enum EditAction {
    Create,
    Modify,
    Overwrite,
    Delete,
}

/// One file touched by a run.
#[derive(Debug, PartialEq, Eq)]
pub struct FileEdit {
    pub real_path: String,
    pub action: EditAction,
    pub before_bytes: u64,
    pub after_bytes: u64,
}

/// One file of a `run_edits_committed` event, with the action as its lower-case name.
#[derive(Debug, PartialEq, Eq)]
pub struct EditSummary {
    pub real_path: String,
    pub action: String,
    pub before_bytes: u64,
    pub after_bytes: u64,
}

/// A question option as the daemon reports it.
#[derive(Debug, PartialEq, Eq)]
pub struct QuestionOptionDto {
    pub label: String,
    pub description: String,
}

/// A sub-question as the daemon reports it.
#[derive(Debug, PartialEq, Eq)]
pub struct AskQuestionDto {
    pub title: String,
    pub description: String,
    pub options: Vec<QuestionOptionDto>,
    pub multi: bool,
}

/// Events of the shared core, as they come over the wire.
#[derive(Debug)]
pub enum WireEvent {
    TextDelta { text: String, subagent_call_id: Option<String> },
    TextDone { full_text: String, subagent_call_id: Option<String> },
    Reasoning { text: String, subagent_call_id: Option<String> },
    ToolStart { id: String, name: String, input: serde_json::Value, subagent_call_id: Option<String> },
    ToolOutputDelta { id: String, chunk: String, subagent_call_id: Option<String> },
    ToolDone { id: String, result: String, duration_ms: u64, is_error: bool, subagent_call_id: Option<String> },
    RunStarted { run_id: String, trigger: String, mode: String },
    MessageAppended { message: serde_json::Value },
    RunFinished { duration_ms: u64 },
    Usage { input_tokens: u64, output_tokens: u64, cache_read_tokens: u64 },
    RunSuspended { reason: String },
    RunResumed { cause: String },
    PermissionRequested {
        request_id: String,
        kind: String,
        tool_name: String,
        input: serde_json::Value,
        summary: String,
        risk: String,
        paths: Vec<String>,
        fingerprint: Option<String>,
        command_segments: Vec<String>,
        auto_handled: bool,
        call_id: String,
    },
    PermissionResolved { request_id: String, decision: String },
    PermissionAutoJudged { request_id: String, tool_name: String, decision: String, reason: Option<String>, requires_human: bool },
    Notice { level: String, message: String, dedup_key: Option<String> },
    UserQuestionRequested { request_id: String, question: String, options: Vec<QuestionOption>, multi: bool, questions: Vec<AskQuestion> },
    UserQuestionAnswered { request_id: String },
    RunModeChanged { from: String, to: String },
    SessionTitleChanged { session_id: String, title: String },
    SessionTitleGenerationFailed { session_id: String, reason: String },
    RunEditsCommitted { run_id: String, files: Vec<FileEdit> },
    MemoryExtracted { session_id: String, items: Vec<serde_json::Value> },
    MemoryExtractionFailed { session_id: String, reason: String },
    Error { message: String },
    /// Any other wire event; the daemon does not report these.
    Other,
}

/// The daemon's own events, written to stdout one JSON object per line.
#[derive(Debug)]
pub enum DaemonEvent {
    Started { session_id: String },
    RunStarted { run_id: String, trigger: String, mode: String },
    MessageAppended { message: serde_json::Value },
    RunFinished { input_tokens: u64, output_tokens: u64, cache_read_tokens: u64, duration_ms: u64 },
    RunFailed { error: String },
    RunCancelled,
    RunSuspended { reason: String },
    RunResumed { cause: String },
    TextDelta { text: String, subagent_call_id: Option<String> },
    TextDone { full_text: String, subagent_call_id: Option<String> },
    Reasoning { text: String, subagent_call_id: Option<String> },
    ToolStart { id: String, name: String, input: serde_json::Value, subagent_call_id: Option<String> },
    ToolOutputDelta { id: String, chunk: String, subagent_call_id: Option<String> },
    ToolDone { id: String, result: String, duration_ms: u64, is_error: bool, subagent_call_id: Option<String> },
    PermissionRequested {
        request_id: String,
        kind: String,
        tool_name: String,
        summary: String,
        risk: String,
        fingerprint: Option<String>,
        command_segments: Vec<String>,
        input: Option<serde_json::Value>,
        paths: Vec<String>,
        auto_handled: bool,
        call_id: String,
    },
    PermissionResolved { request_id: String, decision: String },
    PermissionAutoJudged { request_id: Option<String>, tool_name: String, decision: String, reason: Option<String>, requires_human: bool },
    QuestionRequested { request_id: String, question: String, options: Vec<QuestionOptionDto>, multi: bool, questions: Vec<AskQuestionDto> },
    QuestionAnswered { request_id: String },
    RunModeChanged { from: String, to: String },
    SessionTitleChanged { session_id: String, title: String },
    SessionTitleGenerationFailed { session_id: String, reason: String },
    RunEditsCommitted { run_id: String, files: Vec<EditSummary> },
    MemoryExtracted { session_id: String, items: Vec<serde_json::Value> },
    MemoryExtractionFailed { session_id: String, reason: String },
    Notice { level: String, message: String, dedup_key: Option<String> },
    Error { message: String },
}

/// Token usage summed over the current run.
#[derive(Debug, Clone, Copy, PartialEq, Eq, Default)]
pub struct UsageTotals {
    pub input_tokens: u64,
    pub output_tokens: u64,
    pub cache_read_tokens: u64,
}

pub open spec fn first_chars(s: Seq<char>, n: nat) -> Seq<char> {
    if s.len() <= n { s } else { s.subrange(0, n as int) }
}

/// The first `n` characters of `s` (all of it when shorter).
pub fn take_chars(s: &str, n: usize) -> (r: String)
    ensures
        r@ == first_chars(s@, n as nat),
{
    let v = chars_of(s);
    let mut out: Vec<char> = Vec::new();
    let mut i: usize = 0;
    while i < v.len() && i < n
        invariant
            i <= v.len(),
            i <= n,
            out@ == v@.subrange(0, i as int),
        decreases v.len() - i,
    {
        out.push(v[i]);
        i += 1;
    }
    assert(v@.subrange(0, v.len() as int) =~= v@);
    string_of(&out)
}

pub open spec fn action_name(a: EditAction) -> Seq<char> {
    match a {
        EditAction::Create => "create"@,
        EditAction::Modify => "modify"@,
        EditAction::Overwrite => "overwrite"@,
        EditAction::Delete => "delete"@,
    }
}

fn summarize_edit(f: FileEdit) -> (s: EditSummary)
    ensures
        s.real_path == f.real_path,
        s.action@ == action_name(f.action),
        s.before_bytes == f.before_bytes,
        s.after_bytes == f.after_bytes,
{
    let action = match f.action {
        EditAction::Create => "create".to_string(),
        EditAction::Modify => "modify".to_string(),
        EditAction::Overwrite => "overwrite".to_string(),
        EditAction::Delete => "delete".to_string(),
    };
    EditSummary { real_path: f.real_path, action, before_bytes: f.before_bytes, after_bytes: f.after_bytes }
}

pub open spec fn edit_summarized(f: FileEdit, s: EditSummary) -> bool {
    s.real_path == f.real_path && s.action@ == action_name(f.action) && s.before_bytes == f.before_bytes
        && s.after_bytes == f.after_bytes
}

fn summarize_edits(files: Vec<FileEdit>) -> (r: Vec<EditSummary>)
    ensures
        r.len() == files.len(),
        forall|i: int| 0 <= i < r.len() ==> edit_summarized(#[trigger] files@[i], r@[i]),
{
    let mut files = files;
    let ghost orig = files@;
    let mut rev: Vec<EditSummary> = Vec::new();
    while files.len() > 0
        invariant
            files@ == orig.subrange(0, files.len() as int),
            rev.len() + files.len() == orig.len(),
            forall|i: int| 0 <= i < rev.len() ==> edit_summarized(#[trigger] orig[orig.len() - 1 - i], rev@[i]),
        decreases files.len(),
    {
        let f = files.pop().unwrap();
        let s = summarize_edit(f);
        rev.push(s);
    }
    let mut out: Vec<EditSummary> = Vec::new();
    while rev.len() > 0
        invariant
            out.len() + rev.len() == orig.len(),
            forall|i: int| 0 <= i < rev.len() ==> edit_summarized(#[trigger] orig[orig.len() - 1 - i], rev@[i]),
            forall|i: int| 0 <= i < out.len() ==> edit_summarized(#[trigger] orig[i], out@[i]),
        decreases rev.len(),
    {
        let ghost k = rev.len() - 1;
        let s = rev.pop().unwrap();
        proof {
            assert(edit_summarized(orig[orig.len() - 1 - k], s));
        }
        out.push(s);
    }
    out
}

pub open spec fn option_converted(o: QuestionOption, d: QuestionOptionDto) -> bool {
    d.label == o.label && d.description == o.description
}

fn convert_options(opts: Vec<QuestionOption>) -> (r: Vec<QuestionOptionDto>)
    ensures
        r.len() == opts.len(),
        forall|i: int| 0 <= i < r.len() ==> option_converted(#[trigger] opts@[i], r@[i]),
{
    let mut opts = opts;
    let ghost orig = opts@;
    let mut rev: Vec<QuestionOptionDto> = Vec::new();
    while opts.len() > 0
        invariant
            opts@ == orig.subrange(0, opts.len() as int),
            rev.len() + opts.len() == orig.len(),
            forall|i: int| 0 <= i < rev.len() ==> option_converted(#[trigger] orig[orig.len() - 1 - i], rev@[i]),
        decreases opts.len(),
    {
        let o = opts.pop().unwrap();
        rev.push(QuestionOptionDto { label: o.label, description: o.description });
    }
    let mut out: Vec<QuestionOptionDto> = Vec::new();
    while rev.len() > 0
        invariant
            out.len() + rev.len() == orig.len(),
            forall|i: int| 0 <= i < rev.len() ==> option_converted(#[trigger] orig[orig.len() - 1 - i], rev@[i]),
            forall|i: int| 0 <= i < out.len() ==> option_converted(#[trigger] orig[i], out@[i]),
        decreases rev.len(),
    {
        let ghost k = rev.len() - 1;
        let d = rev.pop().unwrap();
        proof {
            assert(option_converted(orig[orig.len() - 1 - k], d));
        }
        out.push(d);
    }
    out
}

pub open spec fn question_converted(q: AskQuestion, d: AskQuestionDto) -> bool {
    d.title == q.title && d.description == q.description && d.multi == q.multi && d.options.len()
        == q.options.len() && forall|i: int|
        0 <= i < d.options.len() ==> option_converted(#[trigger] q.options@[i], d.options@[i])
}

fn convert_questions(qs: Vec<AskQuestion>) -> (r: Vec<AskQuestionDto>)
    ensures
        r.len() == qs.len(),
        forall|i: int| 0 <= i < r.len() ==> question_converted(#[trigger] qs@[i], r@[i]),
{
    let mut qs = qs;
    let ghost orig = qs@;
    let mut rev: Vec<AskQuestionDto> = Vec::new();
    while qs.len() > 0
        invariant
            qs@ == orig.subrange(0, qs.len() as int),
            rev.len() + qs.len() == orig.len(),
            forall|i: int| 0 <= i < rev.len() ==> question_converted(#[trigger] orig[orig.len() - 1 - i], rev@[i]),
        decreases qs.len(),
    {
        let q = qs.pop().unwrap();
        let options = convert_options(q.options);
        rev.push(AskQuestionDto { title: q.title, description: q.description, options, multi: q.multi });
    }
    let mut out: Vec<AskQuestionDto> = Vec::new();
    while rev.len() > 0
        invariant
            out.len() + rev.len() == orig.len(),
            forall|i: int| 0 <= i < rev.len() ==> question_converted(#[trigger] orig[orig.len() - 1 - i], rev@[i]),
            forall|i: int| 0 <= i < out.len() ==> question_converted(#[trigger] orig[i], out@[i]),
        decreases rev.len(),
    {
        let ghost k = rev.len() - 1;
        let d = rev.pop().unwrap();
        proof {
            assert(question_converted(orig[orig.len() - 1 - k], d));
        }
        out.push(d);
    }
    out
}

/// The usage totals after `e`: a usage report adds to them, the end of a run
/// clears them, anything else leaves them.
pub open spec fn usage_after(u: UsageTotals, e: WireEvent) -> (int, int, int) {
    match e {
        WireEvent::Usage { input_tokens, output_tokens, cache_read_tokens } => (
            u.input_tokens + input_tokens,
            u.output_tokens + output_tokens,
            u.cache_read_tokens + cache_read_tokens,
        ),
        WireEvent::RunFinished { .. } => (0, 0, 0),
        _ => (u.input_tokens as int, u.output_tokens as int, u.cache_read_tokens as int),
    }
}

pub open spec fn totals(u: UsageTotals) -> (int, int, int) {
    (u.input_tokens as int, u.output_tokens as int, u.cache_read_tokens as int)
}

/// Usage reports do not overflow the running totals.
pub open spec fn usage_fits(u: UsageTotals, e: WireEvent) -> bool {
    match e {
        WireEvent::Usage { input_tokens, output_tokens, cache_read_tokens } => u.input_tokens + input_tokens
            <= u64::MAX && u.output_tokens + output_tokens <= u64::MAX && u.cache_read_tokens
            + cache_read_tokens <= u64::MAX,
        _ => true,
    }
}

/// The daemon event for a wire event (`None`: not reported), given the usage
/// summed so far in the run.
pub open spec fn translated(e: WireEvent, u: UsageTotals, r: Option<DaemonEvent>) -> bool {
    match e {
        WireEvent::TextDelta { text, subagent_call_id } => r == Some(DaemonEvent::TextDelta { text, subagent_call_id }),
        WireEvent::TextDone { full_text, subagent_call_id } => r == Some(DaemonEvent::TextDone { full_text, subagent_call_id }),
        WireEvent::Reasoning { text, subagent_call_id } => r == Some(DaemonEvent::Reasoning { text, subagent_call_id }),
        WireEvent::ToolStart { id, name, input, subagent_call_id } => r == Some(DaemonEvent::ToolStart { id, name, input, subagent_call_id }),
        WireEvent::ToolOutputDelta { id, chunk, subagent_call_id } => r == Some(DaemonEvent::ToolOutputDelta { id, chunk, subagent_call_id }),
        WireEvent::ToolDone { id, result, duration_ms, is_error, subagent_call_id } => r matches Some(
            DaemonEvent::ToolDone { id: i, result: res, duration_ms: d, is_error: err, subagent_call_id: s },
        ) && i == id && res@ == first_chars(result@, 500) && d == duration_ms && err == is_error && s == subagent_call_id,
        WireEvent::RunStarted { run_id, trigger, mode } => r == Some(DaemonEvent::RunStarted { run_id, trigger, mode }),
        WireEvent::MessageAppended { message } => r == Some(DaemonEvent::MessageAppended { message }),
        WireEvent::RunFinished { duration_ms } => r == Some(DaemonEvent::RunFinished {
            input_tokens: u.input_tokens,
            output_tokens: u.output_tokens,
            cache_read_tokens: u.cache_read_tokens,
            duration_ms,
        }),
        WireEvent::Usage { .. } => r is None,
        WireEvent::RunSuspended { reason } => r == Some(DaemonEvent::RunSuspended { reason }),
        WireEvent::RunResumed { cause } => r == Some(DaemonEvent::RunResumed { cause }),
        WireEvent::PermissionRequested { request_id, kind, tool_name, input, summary, risk, paths, fingerprint, command_segments, auto_handled, call_id } =>
            r == Some(DaemonEvent::PermissionRequested { request_id, kind, tool_name, summary, risk, fingerprint, command_segments, input: Some(input), paths, auto_handled, call_id }),
        WireEvent::PermissionResolved { request_id, decision } => r == Some(DaemonEvent::PermissionResolved { request_id, decision }),
        WireEvent::PermissionAutoJudged { request_id, tool_name, decision, reason, requires_human } => r == Some(
            DaemonEvent::PermissionAutoJudged {
                request_id: if request_id@.len() == 0 { None } else { Some(request_id) },
                tool_name,
                decision,
                reason,
                requires_human,
            },
        ),
        WireEvent::Notice { level, message, dedup_key } => r == Some(DaemonEvent::Notice { level, message, dedup_key }),
        WireEvent::UserQuestionRequested { request_id, question, options, multi, questions } => r matches Some(
            DaemonEvent::QuestionRequested { request_id: rid, question: q, options: o, multi: m, questions: qs },
        ) && rid == request_id && q == question && m == multi && o.len() == options.len() && (forall|i: int|
            0 <= i < o.len() ==> option_converted(#[trigger] options@[i], o@[i])) && qs.len() == questions.len()
            && (forall|i: int| 0 <= i < qs.len() ==> question_converted(#[trigger] questions@[i], qs@[i])),
        WireEvent::UserQuestionAnswered { request_id } => r == Some(DaemonEvent::QuestionAnswered { request_id }),
        WireEvent::RunModeChanged { from, to } => r == Some(DaemonEvent::RunModeChanged { from, to }),
        WireEvent::SessionTitleChanged { session_id, title } => r == Some(DaemonEvent::SessionTitleChanged { session_id, title }),
        WireEvent::SessionTitleGenerationFailed { session_id, reason } => r == Some(DaemonEvent::SessionTitleGenerationFailed { session_id, reason }),
        WireEvent::RunEditsCommitted { run_id, files } => r matches Some(DaemonEvent::RunEditsCommitted { run_id: rid, files: fs })
            && rid == run_id && fs.len() == files.len() && forall|i: int|
            0 <= i < fs.len() ==> edit_summarized(#[trigger] files@[i], fs@[i]),
        WireEvent::MemoryExtracted { session_id, items } => r == Some(DaemonEvent::MemoryExtracted { session_id, items }),
        WireEvent::MemoryExtractionFailed { session_id, reason } => r == Some(DaemonEvent::MemoryExtractionFailed { session_id, reason }),
        WireEvent::Error { message } => r == Some(DaemonEvent::Error { message }),
        WireEvent::Other => r is None,
    }
}

/// Translates one wire event into the daemon event that reports it, keeping
/// the run's token usage in `usage`: usage reports are summed and not reported
/// themselves; the end of a run reports the sums and clears them.
pub fn translate_wire_event(event: WireEvent, usage: &mut UsageTotals) -> (r: Option<DaemonEvent>)
    requires
        usage_fits(*old(usage), event),
    ensures
        translated(event, *old(usage), r),
        totals(*final(usage)) == usage_after(*old(usage), event),
{
    match event {
        WireEvent::TextDelta { text, subagent_call_id } => Some(DaemonEvent::TextDelta { text, subagent_call_id }),
        WireEvent::TextDone { full_text, subagent_call_id } => Some(DaemonEvent::TextDone { full_text, subagent_call_id }),
        WireEvent::Reasoning { text, subagent_call_id } => Some(DaemonEvent::Reasoning { text, subagent_call_id }),
        WireEvent::ToolStart { id, name, input, subagent_call_id } => Some(DaemonEvent::ToolStart { id, name, input, subagent_call_id }),
        WireEvent::ToolOutputDelta { id, chunk, subagent_call_id } => Some(DaemonEvent::ToolOutputDelta { id, chunk, subagent_call_id }),
        WireEvent::ToolDone { id, result, duration_ms, is_error, subagent_call_id } => {
            let result = take_chars(result.as_str(), 500);
            Some(DaemonEvent::ToolDone { id, result, duration_ms, is_error, subagent_call_id })
        },
        WireEvent::RunStarted { run_id, trigger, mode } => Some(DaemonEvent::RunStarted { run_id, trigger, mode }),
        WireEvent::MessageAppended { message } => Some(DaemonEvent::MessageAppended { message }),
        WireEvent::RunFinished { duration_ms } => {
            let ev = DaemonEvent::RunFinished {
                input_tokens: usage.input_tokens,
                output_tokens: usage.output_tokens,
                cache_read_tokens: usage.cache_read_tokens,
                duration_ms,
            };
            *usage = UsageTotals { input_tokens: 0, output_tokens: 0, cache_read_tokens: 0 };
            Some(ev)
        },
        WireEvent::Usage { input_tokens, output_tokens, cache_read_tokens } => {
            usage.input_tokens = usage.input_tokens + input_tokens;
            usage.output_tokens = usage.output_tokens + output_tokens;
            usage.cache_read_tokens = usage.cache_read_tokens + cache_read_tokens;
            None
        },
        WireEvent::RunSuspended { reason } => Some(DaemonEvent::RunSuspended { reason }),
        WireEvent::RunResumed { cause } => Some(DaemonEvent::RunResumed { cause }),
        WireEvent::PermissionRequested { request_id, kind, tool_name, input, summary, risk, paths, fingerprint, command_segments, auto_handled, call_id } =>
            Some(DaemonEvent::PermissionRequested { request_id, kind, tool_name, summary, risk, fingerprint, command_segments, input: Some(input), paths, auto_handled, call_id }),
        WireEvent::PermissionResolved { request_id, decision } => Some(DaemonEvent::PermissionResolved { request_id, decision }),
        WireEvent::PermissionAutoJudged { request_id, tool_name, decision, reason, requires_human } => {
            let rid = if request_id.as_str().is_empty() { None } else { Some(request_id) };
            Some(DaemonEvent::PermissionAutoJudged { request_id: rid, tool_name, decision, reason, requires_human })
        },
        WireEvent::Notice { level, message, dedup_key } => Some(DaemonEvent::Notice { level, message, dedup_key }),
        WireEvent::UserQuestionRequested { request_id, question, options, multi, questions } => {
            let options = convert_options(options);
            let questions = convert_questions(questions);
            Some(DaemonEvent::QuestionRequested { request_id, question, options, multi, questions })
        },
        WireEvent::UserQuestionAnswered { request_id } => Some(DaemonEvent::QuestionAnswered { request_id }),
        WireEvent::RunModeChanged { from, to } => Some(DaemonEvent::RunModeChanged { from, to }),
        WireEvent::SessionTitleChanged { session_id, title } => Some(DaemonEvent::SessionTitleChanged { session_id, title }),
        WireEvent::SessionTitleGenerationFailed { session_id, reason } => Some(DaemonEvent::SessionTitleGenerationFailed { session_id, reason }),
        WireEvent::RunEditsCommitted { run_id, files } => {
            let files = summarize_edits(files);
            Some(DaemonEvent::RunEditsCommitted { run_id, files })
        },
        WireEvent::MemoryExtracted { session_id, items } => Some(DaemonEvent::MemoryExtracted { session_id, items }),
        WireEvent::MemoryExtractionFailed { session_id, reason } => Some(DaemonEvent::MemoryExtractionFailed { session_id, reason }),
        WireEvent::Error { message } => Some(DaemonEvent::Error { message }),
        WireEvent::Other => None,
    }
}

/// The sums of the usage reports among `evs`.
pub open spec fn usage_sum(evs: Seq<WireEvent>) -> (int, int, int)
    decreases evs.len(),
{
    if evs.len() == 0 {
        (0, 0, 0)
    } else {
        let s = usage_sum(evs.drop_last());
        match evs.last() {
            WireEvent::Usage { input_tokens, output_tokens, cache_read_tokens } =>
                (s.0 + input_tokens, s.1 + output_tokens, s.2 + cache_read_tokens),
            _ => s,
        }
    }
}

proof fn lemma_usage_prefix(evs: Seq<WireEvent>, us: Seq<UsageTotals>, k: int)
    requires
        us.len() == evs.len() + 1,
        totals(us[0]) == (0int, 0int, 0int),
        forall|j: int| 0 <= j < evs.len() ==> !(#[trigger] evs[j] is RunFinished),
        forall|j: int| 0 <= j < evs.len() ==> totals(#[trigger] us[j + 1]) == usage_after(us[j], evs[j]),
        0 <= k <= evs.len(),
    ensures
        totals(us[k]) == usage_sum(evs.subrange(0, k)),
    decreases k,
{
    if k > 0 {
        lemma_usage_prefix(evs, us, k - 1);
        assert(evs.subrange(0, k).drop_last() =~= evs.subrange(0, k - 1));
        assert(evs.subrange(0, k).last() == evs[k - 1]);
        assert(totals(us[(k - 1) + 1]) == usage_after(us[k - 1], evs[k - 1]));
        assert(!(evs[k - 1] is RunFinished));
    }
}

/// Over a run, however many usage reports (and other events) come, the
/// end-of-run report carries their sums since the totals were last cleared,
/// and the totals are cleared again after it. `us[k]` are the totals before
/// `evs[k]`, as `translate_wire_event` leaves them.
pub proof fn law_run_usage_sums(evs: Seq<WireEvent>, us: Seq<UsageTotals>, fin: WireEvent, r: Option<DaemonEvent>)
    requires
        us.len() == evs.len() + 1,
        totals(us[0]) == (0int, 0int, 0int),
        forall|j: int| 0 <= j < evs.len() ==> !(#[trigger] evs[j] is RunFinished),
        forall|j: int| 0 <= j < evs.len() ==> totals(#[trigger] us[j + 1]) == usage_after(us[j], evs[j]),
        fin is RunFinished,
        translated(fin, us.last(), r),
    ensures
        r matches Some(DaemonEvent::RunFinished { input_tokens, output_tokens, cache_read_tokens, .. })
            && (input_tokens as int, output_tokens as int, cache_read_tokens as int) == usage_sum(evs),
        usage_after(us.last(), fin) == (0int, 0int, 0int),
{
    lemma_usage_prefix(evs, us, evs.len() as int);
    assert(evs.subrange(0, evs.len() as int) =~= evs);
}

/// A command from a client to the daemon.
#[derive(Debug, PartialEq, Eq)]
pub enum IpcCommand {
    /// User input: injected into the running run, else starts a new one.
    Send { text: String },
    /// Injected into the running run; an error when none runs.
    Inject { text: String },
    /// Approve a request, once or remembered (`scope`: once, session, project, global).
    Allow { request_id: String, scope: String, pattern: Option<String>, extra_patterns: Vec<String> },
    Deny { request_id: String },
    DenyWithFeedback { request_id: String, feedback: String },
    /// Answer a question (`kind`: selected, custom, cancelled).
    Answer { request_id: String, kind: String, value: String },
    Stop,
    Mode { mode: String },
    Ping,
    ListModelIo,
}

/// The scope an `allow` command takes when it names none.
pub fn default_once() -> (s: String)
    ensures
        s@ == "once"@,
{
    "once".to_string()
}

/// The daemon's reply to one command.
#[derive(Debug)]
pub struct IpcResponse {
    pub ok: bool,
    pub error: Option<String>,
    pub data: Option<serde_json::Value>,
}

impl IpcResponse {
    pub fn ok() -> (r: Self)
        ensures
            r.ok && r.error is None && r.data is None,
    {
        IpcResponse { ok: true, error: None, data: None }
    }

    pub fn err(msg: String) -> (r: Self)
        ensures
            !r.ok && r.error == Some(msg) && r.data is None,
    {
        IpcResponse { ok: false, error: Some(msg), data: None }
    }

    pub fn with_data(data: serde_json::Value) -> (r: Self)
        ensures
            r.ok && r.error is None && r.data == Some(data),
    {
        IpcResponse { ok: true, error: None, data: Some(data) }
    }
}

/// The decision an `allow` command stands for: `session`, `project` and
/// `global` remember the approval in that scope; any other scope allows once.
pub open spec fn allow_decision_spec(scope: Seq<char>, pattern: Option<String>, extra: Vec<String>, d: ApprovalDecision) -> bool {
    if scope == "session"@ {
        d == ApprovalDecision::AllowAndRemember { scope: PermissionScope::Session, pattern, extra_patterns: extra }
    } else if scope == "project"@ {
        d == ApprovalDecision::AllowAndRemember { scope: PermissionScope::Project, pattern, extra_patterns: extra }
    } else if scope == "global"@ {
        d == ApprovalDecision::AllowAndRemember { scope: PermissionScope::Global, pattern, extra_patterns: extra }
    } else {
        d is AllowOnce
    }
}

pub fn allow_decision(scope: &str, pattern: Option<String>, extra_patterns: Vec<String>) -> (d: ApprovalDecision)
    ensures
        allow_decision_spec(scope@, pattern, extra_patterns, d),
{
    let sv = chars_of(scope);
    if eq_str(&sv, "session") {
        ApprovalDecision::AllowAndRemember { scope: PermissionScope::Session, pattern, extra_patterns }
    } else if eq_str(&sv, "project") {
        ApprovalDecision::AllowAndRemember { scope: PermissionScope::Project, pattern, extra_patterns }
    } else if eq_str(&sv, "global") {
        ApprovalDecision::AllowAndRemember { scope: PermissionScope::Global, pattern, extra_patterns }
    } else {
        ApprovalDecision::AllowOnce
    }
}

/// The answer an `answer` command stands for: kind `cancelled` cancels,
/// `custom` answers with free text, anything else selects the option `value`.
pub fn answer_for(kind: &str, value: String) -> (a: UserAnswer)
    ensures
        kind@ == "cancelled"@ ==> (a is Cancelled),
        kind@ != "cancelled"@ && kind@ == "custom"@ ==> a == (UserAnswer::Custom { text: value }),
        kind@ != "cancelled"@ && kind@ != "custom"@ ==> a == (UserAnswer::Selected { label: value }),
{
    let kv = chars_of(kind);
    if eq_str(&kv, "cancelled") {
        UserAnswer::Cancelled
    } else if eq_str(&kv, "custom") {
        UserAnswer::Custom { text: value }
    } else {
        UserAnswer::Selected { label: value }
    }
}

/// How the daemon is started (paths as text).
#[derive(Debug, PartialEq, Eq)]
pub struct DaemonArgs {
    pub session_id: Option<String>,
    pub provider: Option<String>,
    pub model: Option<String>,
    pub workdir: Option<String>,
    pub run_mode: String,
    pub data_dir: Option<String>,
}

/// How `heb run` is started: the daemon's arguments, the task, a time limit
/// in seconds and whether to end with the JSON summary.
#[derive(Debug, PartialEq, Eq)]
pub struct RunOnceArgs {
    pub base: DaemonArgs,
    pub task: String,
    pub timeout_secs: Option<u64>,
    pub json: bool,
}

/// The first event of a daemon: the run mode it starts in (from `default`).
pub fn initial_mode_event(run_mode: &str) -> (e: DaemonEvent)
    ensures
        e matches DaemonEvent::RunModeChanged { from, to } && from@ == "default"@ && to@ == run_mode@,
{
    DaemonEvent::RunModeChanged { from: "default".to_string(), to: run_mode.to_string() }
}

/// The notice that the event subscription fell behind by `skipped` events.
pub fn lagged_notice(skipped: u64) -> (e: DaemonEvent)
    ensures
        e matches DaemonEvent::Notice { level, message, dedup_key } && level@ == "warn"@
            && message@ == "事件订阅落后，已跳过 "@ + crate::text::decimal_spec(skipped as nat) + " 条事件"@
            && dedup_key is None,
{
    let d = crate::text::decimal(skipped);
    let a = crate::text::concat_str("事件订阅落后，已跳过 ", d.as_str());
    DaemonEvent::Notice { level: "warn".to_string(), message: crate::text::concat_str(a.as_str(), " 条事件"), dedup_key: None }
}

pub open spec fn exit_code_spec(outcome: TurnStatus, timed_out: bool) -> nat {
    match outcome {
        TurnStatus::Done | TurnStatus::Suspended => 0,
        TurnStatus::Failed(_) => 1,
        TurnStatus::Cancelled => if timed_out { 2 } else { 130 },
    }
}

pub open spec fn outcome_label_spec(outcome: TurnStatus, timed_out: bool) -> Seq<char> {
    match outcome {
        TurnStatus::Done => "完成"@,
        TurnStatus::Suspended => "挂起（等待后台任务）"@,
        TurnStatus::Failed(_) => "失败"@,
        TurnStatus::Cancelled => if timed_out { "超时中断"@ } else { "已取消"@ },
    }
}

/// The closing line of `heb run` on stderr: the outcome, how many approvals
/// were denied and questions cancelled, and the exit code.
pub fn closing_line(outcome: &TurnStatus, timed_out: bool, stats: &AutoResolveStats) -> (s: String)
    ensures
        s@ == "\n[heb run] "@ + outcome_label_spec(*outcome, timed_out) + "；自动拒审批 "@
            + crate::text::decimal_spec(stats.denied_approvals as nat) + " 次、自动取消提问 "@
            + crate::text::decimal_spec(stats.cancelled_questions as nat) + " 次（exit "@
            + crate::text::decimal_spec(exit_code_spec(*outcome, timed_out)) + "）"@,
{
    let label = outcome_label(outcome, timed_out);
    let code = run_exit_code(outcome, timed_out);
    let cd = crate::text::decimal(code as u64);
    let dd = crate::text::decimal(stats.denied_approvals);
    let qd = crate::text::decimal(stats.cancelled_questions);
    let a = crate::text::concat_str("\n[heb run] ", label);
    let b = crate::text::concat_str(a.as_str(), "；自动拒审批 ");
    let c = crate::text::concat_str(b.as_str(), dd.as_str());
    let d = crate::text::concat_str(c.as_str(), " 次、自动取消提问 ");
    let e = crate::text::concat_str(d.as_str(), qd.as_str());
    let f = crate::text::concat_str(e.as_str(), " 次（exit ");
    let g = crate::text::concat_str(f.as_str(), cd.as_str());
    crate::text::concat_str(g.as_str(), "）")
}

/// The session a socket file name belongs to: the name without `.sock`
/// (`None` for other files).
pub fn socket_session_id(file_name: &str) -> (r: Option<String>)
    ensures
        crate::text::ends_with_spec(file_name@, ".sock"@) ==> (r matches Some(id)
            && id@ == file_name@.subrange(0, file_name@.len() - 5)),
        !crate::text::ends_with_spec(file_name@, ".sock"@) ==> r is None,
{
    let v = chars_of(file_name);
    if !crate::text::ends_with_str(&v, ".sock") {
        return None;
    }
    proof {
        reveal_strlit(".sock");
    }
    let n = v.len() - 5;
    let mut out: Vec<char> = Vec::new();
    let mut i: usize = 0;
    while i < n
        invariant
            i <= n,
            n + 5 == v.len(),
            out@ == v@.subrange(0, i as int),
        decreases n - i,
    {
        out.push(v[i]);
        i += 1;
    }
    Some(string_of(&out))
}

/// What a client makes of the daemon's reply: its data when it went well,
/// else its error (or a generic one).
pub fn response_outcome(resp: IpcResponse) -> (r: Result<Option<serde_json::Value>, String>)
    ensures
        resp.ok ==> r == Ok::<Option<serde_json::Value>, String>(resp.data),
        !resp.ok ==> (r matches Err(e) && match resp.error {
            Some(m) => e == m,
            None => e@ == "daemon 返回错误"@,
        }),
{
    if !resp.ok {
        return Err(match resp.error {
            Some(m) => m,
            None => "daemon 返回错误".to_string(),
        });
    }
    Ok(resp.data)
}

/// What the daemon does for a command.
#[derive(Debug, PartialEq, Eq)]
pub enum CommandPlan {
    /// Inject into the running run, else start a run with it.
    Send { text: String },
    /// Inject into the running run only.
    Inject { text: String },
    /// Settle the approval `request_id` with `decision`.
    Approve { request_id: String, decision: ApprovalDecision },
    /// Settle the question `request_id` with `answer`.
    Answer { request_id: String, answer: UserAnswer },
    Stop,
    /// Switch the run mode to the one named `mode`.
    SetMode { mode: String },
    Ping,
    ListModelIo,
}

/// The plan of a command: approvals carry the decision their scope stands
/// for, answers the answer their kind stands for.
pub fn command_plan(cmd: IpcCommand) -> (p: CommandPlan)
    ensures
        match cmd {
            IpcCommand::Send { text } => p == CommandPlan::Send { text },
            IpcCommand::Inject { text } => p == CommandPlan::Inject { text },
            IpcCommand::Allow { request_id, scope, pattern, extra_patterns } => p matches CommandPlan::Approve { request_id: r, decision }
                && r == request_id && allow_decision_spec(scope@, pattern, extra_patterns, decision),
            IpcCommand::Deny { request_id } => p == CommandPlan::Approve { request_id, decision: ApprovalDecision::Deny },
            IpcCommand::DenyWithFeedback { request_id, feedback } => p == CommandPlan::Approve { request_id, decision: ApprovalDecision::DenyWithFeedback { feedback } },
            IpcCommand::Answer { request_id, kind, value } => p matches CommandPlan::Answer { request_id: r, answer } && r == request_id
                && (kind@ == "cancelled"@ ==> answer is Cancelled)
                && (kind@ != "cancelled"@ && kind@ == "custom"@ ==> answer == (UserAnswer::Custom { text: value }))
                && (kind@ != "cancelled"@ && kind@ != "custom"@ ==> answer == (UserAnswer::Selected { label: value })),
            IpcCommand::Stop => p is Stop,
            IpcCommand::Mode { mode } => p == CommandPlan::SetMode { mode },
            IpcCommand::Ping => p is Ping,
            IpcCommand::ListModelIo => p is ListModelIo,
        },
{
    match cmd {
        IpcCommand::Send { text } => CommandPlan::Send { text },
        IpcCommand::Inject { text } => CommandPlan::Inject { text },
        IpcCommand::Allow { request_id, scope, pattern, extra_patterns } => {
            let decision = allow_decision(scope.as_str(), pattern, extra_patterns);
            CommandPlan::Approve { request_id, decision }
        },
        IpcCommand::Deny { request_id } => CommandPlan::Approve { request_id, decision: ApprovalDecision::Deny },
        IpcCommand::DenyWithFeedback { request_id, feedback } => CommandPlan::Approve { request_id, decision: ApprovalDecision::DenyWithFeedback { feedback } },
        IpcCommand::Answer { request_id, kind, value } => {
            let answer = answer_for(kind.as_str(), value);
            CommandPlan::Answer { request_id, answer }
        },
        IpcCommand::Stop => CommandPlan::Stop,
        IpcCommand::Mode { mode } => CommandPlan::SetMode { mode },
        IpcCommand::Ping => CommandPlan::Ping,
        IpcCommand::ListModelIo => CommandPlan::ListModelIo,
    }
}

/// The reply to a `send`: fine when the text was injected or a run was started with it.
pub fn send_response(injected: bool, queued: bool) -> (r: IpcResponse)
    ensures
        (injected || queued) ==> r.ok && r.error is None,
        !(injected || queued) ==> !r.ok && (r.error matches Some(e) && e@ == "daemon 输入通道已关闭"@),
        r.data is None,
{
    if injected || queued { IpcResponse::ok() } else { IpcResponse::err("daemon 输入通道已关闭".to_string()) }
}

/// The reply to an `inject`: an error when no run was active to take it.
pub fn inject_response(injected: bool) -> (r: IpcResponse)
    ensures
        injected ==> r.ok && r.error is None,
        !injected ==> !r.ok && (r.error matches Some(e) && e@ == "无活跃 run，无法注入"@),
        r.data is None,
{
    if injected { IpcResponse::ok() } else { IpcResponse::err("无活跃 run，无法注入".to_string()) }
}

/// The reply to settling `request_id`: an error when nothing waited under that id.
pub fn settle_response(found: bool, request_id: &str) -> (r: IpcResponse)
    ensures
        found ==> r.ok && r.error is None,
        !found ==> !r.ok && (r.error matches Some(e) && e@ == "未找到 request_id: "@ + request_id@),
        r.data is None,
{
    if found { IpcResponse::ok() } else { IpcResponse::err(crate::text::concat_str("未找到 request_id: ", request_id)) }
}

/// The reply to a `mode` command naming no run mode.
pub fn invalid_mode_response(mode: &str) -> (r: IpcResponse)
    ensures
        !r.ok && r.data is None,
        r.error matches Some(e) && e@ == "无效 mode："@ + mode@ + "（default | plan-mode | auto-mode | yolo）"@,
{
    let a = crate::text::concat_str("无效 mode：", mode);
    IpcResponse::err(crate::text::concat_str(a.as_str(), "（default | plan-mode | auto-mode | yolo）"))
}

/// How a turn ended.
#[derive(Debug, PartialEq, Eq)]
pub enum TurnStatus {
    Done,
    Suspended,
    Failed(String),
    Cancelled,
}

/// The exit code of `heb run`: done or suspended 0, failed 1, timed out 2,
/// cancelled 130.
pub fn run_exit_code(outcome: &TurnStatus, timed_out: bool) -> (code: i32)
    ensures
        code == match outcome {
            TurnStatus::Done | TurnStatus::Suspended => 0i32,
            TurnStatus::Failed(_) => 1i32,
            TurnStatus::Cancelled => if timed_out { 2i32 } else { 130i32 },
        },
{
    match outcome {
        TurnStatus::Done | TurnStatus::Suspended => 0,
        TurnStatus::Failed(_) => 1,
        TurnStatus::Cancelled => if timed_out { 2 } else { 130 },
    }
}

/// The outcome's name in the JSON summary.
pub fn outcome_name(outcome: &TurnStatus) -> (s: &'static str)
    ensures
        s@ == match outcome {
            TurnStatus::Done => "done"@,
            TurnStatus::Suspended => "suspended"@,
            TurnStatus::Failed(_) => "failed"@,
            TurnStatus::Cancelled => "cancelled"@,
        },
{
    match outcome {
        TurnStatus::Done => "done",
        TurnStatus::Suspended => "suspended",
        TurnStatus::Failed(_) => "failed",
        TurnStatus::Cancelled => "cancelled",
    }
}

/// The outcome as the closing line of `heb run` words it.
pub fn outcome_label(outcome: &TurnStatus, timed_out: bool) -> (s: &'static str)
    ensures
        s@ == match outcome {
            TurnStatus::Done => "完成"@,
            TurnStatus::Suspended => "挂起（等待后台任务）"@,
            TurnStatus::Failed(_) => "失败"@,
            TurnStatus::Cancelled => if timed_out { "超时中断"@ } else { "已取消"@ },
        },
{
    match outcome {
        TurnStatus::Done => "完成",
        TurnStatus::Suspended => "挂起（等待后台任务）",
        TurnStatus::Failed(_) => "失败",
        TurnStatus::Cancelled => if timed_out { "超时中断" } else { "已取消" },
    }
}

/// The event announcing that the daemon serves `session_id`.
pub fn emit_started(session_id: &str) -> (e: DaemonEvent)
    ensures
        e matches DaemonEvent::Started { session_id: s } && s@ == session_id@,
{
    DaemonEvent::Started { session_id: session_id.to_string() }
}

/// How many requests an unattended run settled by itself.
#[derive(Debug, PartialEq, Eq)]
pub struct AutoResolveStats {
    pub denied_approvals: u64,
    pub cancelled_questions: u64,
}

/// The feedback an unattended run gives the agent when it denies an approval.
pub open spec fn unattended_feedback() -> Seq<char> {
    "无人值守模式：该操作需要人工审批，但当前没有人能批准，已自动拒绝。请改用工作区内的安全做法，或换一种不需要审批的方式。"@
}

impl AutoResolveStats {
    pub fn new() -> (s: Self)
        ensures
            s.denied_approvals == 0,
            s.cancelled_questions == 0,
    {
        AutoResolveStats { denied_approvals: 0, cancelled_questions: 0 }
    }

    /// Nobody can approve in an unattended run: every approval is denied with
    /// feedback, and counted (the counter wraps as an atomic counter does).
    pub fn deny_unattended(&mut self) -> (d: ApprovalDecision)
        ensures
            d matches ApprovalDecision::DenyWithFeedback { feedback } && feedback@ == unattended_feedback(),
            final(self).denied_approvals == (old(self).denied_approvals + 1) % 0x1_0000_0000_0000_0000,
            final(self).cancelled_questions == old(self).cancelled_questions,
    {
        self.denied_approvals = self.denied_approvals.wrapping_add(1);
        ApprovalDecision::DenyWithFeedback {
            feedback: "无人值守模式：该操作需要人工审批，但当前没有人能批准，已自动拒绝。请改用工作区内的安全做法，或换一种不需要审批的方式。".to_string(),
        }
    }

    /// Nobody can answer in an unattended run: every question is cancelled, and counted.
    pub fn cancel_unattended(&mut self) -> (a: UserAnswer)
        ensures
            a is Cancelled,
            final(self).cancelled_questions == (old(self).cancelled_questions + 1) % 0x1_0000_0000_0000_0000,
            final(self).denied_approvals == old(self).denied_approvals,
    {
        self.cancelled_questions = self.cancelled_questions.wrapping_add(1);
        UserAnswer::Cancelled
    }
}

/// The one-line result of `heb run --json`.
#[derive(Debug, PartialEq, Eq)]
pub struct RunSummary {
    pub session_id: String,
    pub outcome: String,
    pub exit_code: i32,
    pub final_text: String,
    pub tool_calls: usize,
    pub files_changed: Vec<String>,
    pub denied_approvals: u64,
    pub cancelled_questions: u64,
    pub duration_ms: u64,
    pub error: Option<String>,
}

/// The run's result: the last assistant message's text and tool-call count
/// (`last_assistant`; empty and 0 when there is none), the files its edits
/// touched, the outcome with its error text when it failed, and the counters.
pub fn build_run_summary(
    session_id: &str,
    last_assistant: Option<(String, usize)>,
    files_changed: Vec<String>,
    outcome: &TurnStatus,
    stats: &AutoResolveStats,
    duration_ms: u64,
    exit_code: i32,
) -> (r: RunSummary)
    ensures
        r.session_id@ == session_id@,
        r.outcome@ == match outcome {
            TurnStatus::Done => "done"@,
            TurnStatus::Suspended => "suspended"@,
            TurnStatus::Failed(_) => "failed"@,
            TurnStatus::Cancelled => "cancelled"@,
        },
        r.exit_code == exit_code,
        match last_assistant {
            Some((t, n)) => r.final_text@ == t@ && r.tool_calls == n,
            None => r.final_text@ == Seq::<char>::empty() && r.tool_calls == 0,
        },
        r.files_changed@ == files_changed@,
        r.denied_approvals == stats.denied_approvals,
        r.cancelled_questions == stats.cancelled_questions,
        r.duration_ms == duration_ms,
        match outcome {
            TurnStatus::Failed(e) => r.error matches Some(x) && x@ == e@,
            _ => r.error is None,
        },
{
    let (final_text, tool_calls) = match last_assistant {
        Some((t, n)) => (t, n),
        None => (String::new(), 0),
    };
    let error = match outcome {
        TurnStatus::Failed(e) => Some(e.clone()),
        _ => None,
    };
    RunSummary {
        session_id: session_id.to_string(),
        outcome: outcome_name(outcome).to_string(),
        exit_code,
        final_text,
        tool_calls,
        files_changed,
        denied_approvals: stats.denied_approvals,
        cancelled_questions: stats.cancelled_questions,
        duration_ms,
        error,
    }
}

pub proof fn lemma_push_contains(s: Seq<Seq<char>>, a: Seq<char>, x: Seq<char>)
    ensures
        s.push(a).contains(x) <==> (s.contains(x) || x == a),
{
    if s.push(a).contains(x) {
        let k = choose|k: int| 0 <= k < s.push(a).len() && s.push(a)[k] == x;
        if k < s.len() {
            assert(s[k] == x);
        }
    }
    if s.contains(x) {
        let k = choose|k: int| 0 <= k < s.len() && s[k] == x;
        assert(s.push(a)[k] == x);
    }
    if x == a {
        assert(s.push(a)[s.len() as int] == x);
    }
}

pub proof fn lemma_concat_contains(a: Seq<Seq<char>>, b: Seq<Seq<char>>, x: Seq<char>)
    ensures
        (a + b).contains(x) <==> (a.contains(x) || b.contains(x)),
{
    if (a + b).contains(x) {
        let k = choose|k: int| 0 <= k < (a + b).len() && (a + b)[k] == x;
        if k < a.len() {
            assert(a[k] == x);
        } else {
            assert(b[k - a.len()] == x);
        }
    }
    if a.contains(x) {
        let k = choose|k: int| 0 <= k < a.len() && a[k] == x;
        assert((a + b)[k] == x);
    }
    if b.contains(x) {
        let k = choose|k: int| 0 <= k < b.len() && b[k] == x;
        assert((a + b)[a.len() + k] == x);
    }
}

/// The position of the first entry of `out` that does not sort before `p`.
fn lower_bound(out: &Vec<String>, p: &Vec<char>) -> (j: usize)
    ensures
        j <= out.len(),
        forall|i: int| 0 <= i < j ==> seq_lt(#[trigger] out@[i]@, p@),
        j < out.len() ==> !seq_lt(out@[j as int]@, p@),
{
    let mut j: usize = 0;
    while j < out.len()
        invariant
            j <= out.len(),
            forall|i: int| 0 <= i < j ==> seq_lt(#[trigger] out@[i]@, p@),
        decreases out.len() - j,
    {
        let ov = chars_of(out[j].as_str());
        if !str_lt(&ov, p) {
            return j;
        }
        j += 1;
    }
    j
}

/// Adds `p` to the sorted set `out`.
fn insert_sorted(out: &mut Vec<String>, p: &String)
    requires
        sorted_strict(strings_view(old(out)@)),
    ensures
        sorted_strict(strings_view(final(out)@)),
        forall|x: Seq<char>| #[trigger] strings_view(final(out)@).contains(x) <==> (strings_view(old(out)@).contains(x) || x == p@),
{
    let pv = chars_of(p.as_str());
    let j = lower_bound(out, &pv);
    let ghost s = strings_view(out@);
    if j < out.len() {
        let ov = chars_of(out[j].as_str());
        if !str_lt(&pv, &ov) {
            proof {
                if ov@ != pv@ {
                    lemma_lt_total(ov@, pv@);
                }
                assert(s[j as int] == p@);
            }
            return;
        }
    }
    out.insert(j, p.clone());
    proof {
        let t = strings_view(out@);
        assert(t =~= s.insert(j as int, p@));
        assert forall|a: int, b: int| 0 <= a < b < t.len() implies seq_lt(#[trigger] t[a], #[trigger] t[b]) by {
            if b < j {
                assert(t[a] == s[a] && t[b] == s[b]);
            } else if b == j {
                assert(t[a] == s[a] && t[b] == p@);
            } else if a < j {
                assert(t[a] == s[a] && t[b] == s[b - 1]);
            } else if a == j {
                assert(t[a] == p@ && t[b] == s[b - 1]);
                if b - 1 > j {
                    assert(seq_lt(s[j as int], s[b - 1]));
                    lemma_lt_transitive(p@, s[j as int], s[b - 1]);
                }
            } else {
                assert(t[a] == s[a - 1] && t[b] == s[b - 1]);
            }
        }
        assert forall|x: Seq<char>| #[trigger] t.contains(x) <==> (s.contains(x) || x == p@) by {
            if t.contains(x) {
                let k = choose|k: int| 0 <= k < t.len() && t[k] == x;
                if k < j {
                    assert(s[k] == x);
                } else if k > j {
                    assert(s[k - 1] == x);
                }
            }
            if s.contains(x) {
                let k = choose|k: int| 0 <= k < s.len() && s[k] == x;
                if k < j {
                    assert(t[k] == x);
                } else {
                    assert(t[k + 1] == x);
                }
            }
            if x == p@ {
                assert(t[j as int] == x);
            }
        }
    }
}

/// All the paths that the runs' edits touched, run after run.
pub open spec fn run_paths(runs: Seq<Vec<String>>) -> Seq<Seq<char>>
    decreases runs.len(),
{
    if runs.len() == 0 {
        Seq::empty()
    } else {
        run_paths(runs.drop_last()) + strings_view(runs.last()@)
    }
}

/// The files touched by the edits of all runs of a session, each once, in
/// ascending order.
pub fn run_edit_files(runs: &Vec<Vec<String>>) -> (files: Vec<String>)
    ensures
        sorted_strict(strings_view(files@)),
        forall|x: Seq<char>| #[trigger] strings_view(files@).contains(x) <==> run_paths(runs@).contains(x),
{
    let mut out: Vec<String> = Vec::new();
    let mut k: usize = 0;
    assert(strings_view(out@) =~= Seq::<Seq<char>>::empty());
    while k < runs.len()
        invariant
            k <= runs.len(),
            sorted_strict(strings_view(out@)),
            forall|x: Seq<char>| #[trigger] strings_view(out@).contains(x) <==> run_paths(runs@.subrange(0, k as int)).contains(x),
        decreases runs.len() - k,
    {
        let files = &runs[k];
        let ghost done = run_paths(runs@.subrange(0, k as int));
        let mut l: usize = 0;
        while l < files.len()
            invariant
                l <= files.len(),
                files == runs@[k as int],
                sorted_strict(strings_view(out@)),
                forall|x: Seq<char>| #[trigger] strings_view(out@).contains(x) <==> (done.contains(x) || strings_view(files@.subrange(0, l as int)).contains(x)),
            decreases files.len() - l,
        {
            let ghost before = strings_view(out@);
            insert_sorted(&mut out, &files[l]);
            proof {
                let cur = strings_view(files@.subrange(0, l as int));
                assert(strings_view(files@.subrange(0, l + 1)) =~= cur.push(files@[l as int]@));
                assert forall|x: Seq<char>| #[trigger] strings_view(out@).contains(x) <==> (done.contains(x) || strings_view(files@.subrange(0, l + 1)).contains(x)) by {
                    lemma_push_contains(cur, files@[l as int]@, x);
                    assert(before.contains(x) <==> (done.contains(x) || cur.contains(x)));
                }
            }
            l += 1;
        }
        proof {
            let rs = runs@.subrange(0, k + 1);
            assert(rs.drop_last() =~= runs@.subrange(0, k as int));
            assert(rs.last() == runs@[k as int]);
            assert(files@.subrange(0, files.len() as int) =~= files@);
            assert forall|x: Seq<char>| #[trigger] strings_view(out@).contains(x) <==> run_paths(runs@.subrange(0, k + 1)).contains(x) by {
                lemma_concat_contains(done, strings_view(files@), x);
            }
        }
        k += 1;
    }
    assert(runs@.subrange(0, runs.len() as int) =~= runs@);
    out
}

/// A configured provider.
#[derive(Debug, PartialEq, Eq)]
pub struct ProviderEntry {
    pub id: String,
    pub name: String,
    pub default_model: Option<String>,
}

/// The provider configuration.
#[derive(Debug, PartialEq, Eq)]
pub struct ProvidersFile {
    pub default_provider_id: Option<String>,
    pub providers: Vec<ProviderEntry>,
}

/// The part before the last `/` and the part after it.
pub open spec fn rsplit_slash(s: Seq<char>) -> Option<(Seq<char>, Seq<char>)> {
    if exists|i: int| 0 <= i < s.len() && s[i] == '/' {
        let i = choose|i: int| 0 <= i < s.len() && s[i] == '/' && forall|j: int| i < j < s.len() ==> s[j] != '/';
        Some((s.subrange(0, i), s.subrange(i + 1, s.len() as int)))
    } else {
        None
    }
}

fn rsplit_slash_exec(v: &Vec<char>) -> (r: Option<(Vec<char>, Vec<char>)>)
    ensures
        match r {
            Some((a, b)) => rsplit_slash(v@) == Some((a@, b@)),
            None => rsplit_slash(v@) is None,
        },
{
    let mut i: usize = v.len();
    while i > 0
        invariant
            i <= v.len(),
            forall|j: int| i <= j < v.len() ==> v@[j] != '/',
        decreases i,
    {
        if v[i - 1] == '/' {
            let k = i - 1;
            let ghost c = choose|c: int| 0 <= c < v.len() && v@[c] == '/' && forall|j: int| c < j < v.len() ==> v@[j] != '/';
            assert(0 <= k < v.len() && v@[k as int] == '/' && forall|j: int| k < j < v.len() ==> v@[j] != '/');
            proof {
                if c < k {
                    assert(v@[k as int] != '/');
                } else if c > k {
                    assert(v@[c] != '/');
                }
            }
            let mut a: Vec<char> = Vec::new();
            let mut b: Vec<char> = Vec::new();
            let mut j: usize = 0;
            while j < v.len()
                invariant
                    k < v.len(),
                    j <= v.len(),
                    j <= k ==> a@ == v@.subrange(0, j as int) && b@.len() == 0,
                    j > k ==> a@ == v@.subrange(0, k as int) && b@ == v@.subrange(k + 1, j as int),
                decreases v.len() - j,
            {
                if j < k {
                    a.push(v[j]);
                } else if j > k {
                    b.push(v[j]);
                }
                j += 1;
            }
            return Some((a, b));
        }
        i -= 1;
    }
    None
}

pub open spec fn provider_matches(p: ProviderEntry, key: Seq<char>) -> bool {
    p.id@ == key || p.name@ == key
}

/// The provider a name or id picks: the first whose id or name equals it.
pub open spec fn provider_index(file: ProvidersFile, key: Seq<char>) -> Option<int> {
    if exists|i: int| 0 <= i < file.providers.len() && provider_matches(file.providers@[i], key) {
        Some(choose|i: int| 0 <= i < file.providers.len() && provider_matches(file.providers@[i], key)
            && forall|j: int| 0 <= j < i ==> !provider_matches(#[trigger] file.providers@[j], key))
    } else {
        None
    }
}

/// The provider key: `--provider` up to its last `/` (the whole of it when it
/// has none), else the configured default.
pub open spec fn provider_key_spec(file: ProvidersFile, provider_arg: Option<Seq<char>>) -> Option<Seq<char>> {
    match provider_arg {
        Some(arg) => match rsplit_slash(arg) {
            Some((p, _)) => Some(p),
            None => Some(arg),
        },
        None => match file.default_provider_id {
            Some(d) => Some(d@),
            None => None,
        },
    }
}

/// The model part of `--provider p/model`.
pub open spec fn model_from_arg_spec(provider_arg: Option<Seq<char>>) -> Option<Seq<char>> {
    match provider_arg {
        Some(arg) => match rsplit_slash(arg) {
            Some((_, m)) => Some(m),
            None => None,
        },
        None => None,
    }
}

/// Which provider and model `--provider` / `--model` name: the model comes from
/// `--model`, else from `--provider p/model`, else from the provider's default.
pub open spec fn resolve_spec(file: ProvidersFile, provider_arg: Option<Seq<char>>, model_arg: Option<Seq<char>>) -> Result<(Seq<char>, Seq<char>), Seq<char>> {
    match provider_key_spec(file, provider_arg) {
        None => Err("未指定 --provider 且无默认 provider（先在 desktop 配置）"@),
        Some(key) => match provider_index(file, key) {
            None => Err("provider 不存在："@ + key),
            Some(i) => {
                let p = file.providers@[i];
                match model_arg {
                    Some(m) => Ok((p.id@, m)),
                    None => match model_from_arg_spec(provider_arg) {
                        Some(m) => Ok((p.id@, m)),
                        None => match p.default_model {
                            Some(m) => Ok((p.id@, m@)),
                            None => Err("未指定 model（用 --model 或 --provider "@ + p.name@ + "/model_id）"@),
                        },
                    },
                }
            },
        },
    }
}

pub open spec fn opt_str_view(o: Option<&str>) -> Option<Seq<char>> {
    match o {
        Some(s) => Some(s@),
        None => None,
    }
}

fn append_chars(v: &mut Vec<char>, b: &Vec<char>)
    ensures
        final(v)@ == old(v)@ + b@,
{
    let ghost a0 = v@;
    let mut i: usize = 0;
    while i < b.len()
        invariant
            i <= b.len(),
            v@ == a0 + b@.subrange(0, i as int),
        decreases b.len() - i,
    {
        v.push(b[i]);
        i += 1;
    }
    assert(b@.subrange(0, b.len() as int) =~= b@);
}

fn provider_key(file: &ProvidersFile, provider_arg: Option<&str>) -> (r: Option<Vec<char>>)
    ensures
        match r {
            Some(k) => provider_key_spec(*file, opt_str_view(provider_arg)) == Some(k@),
            None => provider_key_spec(*file, opt_str_view(provider_arg)) is None,
        },
{
    match provider_arg {
        Some(arg) => match rsplit_slash_exec(&chars_of(arg)) {
            Some((p, _)) => Some(p),
            None => Some(chars_of(arg)),
        },
        None => match &file.default_provider_id {
            Some(d) => Some(chars_of(d.as_str())),
            None => None,
        },
    }
}

fn model_from_arg(provider_arg: Option<&str>) -> (r: Option<String>)
    ensures
        match r {
            Some(m) => model_from_arg_spec(opt_str_view(provider_arg)) == Some(m@),
            None => model_from_arg_spec(opt_str_view(provider_arg)) is None,
        },
{
    match provider_arg {
        Some(arg) => match rsplit_slash_exec(&chars_of(arg)) {
            Some((_, m)) => Some(string_of(&m)),
            None => None,
        },
        None => None,
    }
}

/// Resolves the provider id and model for a new session.
pub fn resolve_provider_model(file: &ProvidersFile, provider_arg: Option<&str>, model_arg: Option<&str>) -> (r: Result<(String, String), String>)
    ensures
        match r {
            Ok((p, m)) => resolve_spec(*file, opt_str_view(provider_arg), opt_str_view(model_arg)) == Ok::<(Seq<char>, Seq<char>), Seq<char>>((p@, m@)),
            Err(e) => resolve_spec(*file, opt_str_view(provider_arg), opt_str_view(model_arg)) == Err::<(Seq<char>, Seq<char>), Seq<char>>(e@),
        },
{
    let key = match provider_key(file, provider_arg) {
        Some(k) => k,
        None => return Err("未指定 --provider 且无默认 provider（先在 desktop 配置）".to_string()),
    };
    let pi = match find_provider(file, &key) {
        Some(pi) => pi,
        None => {
            let mut msg = chars_of("provider 不存在：");
            append_chars(&mut msg, &key);
            return Err(string_of(&msg));
        },
    };
    let p = &file.providers[pi];
    let model = match model_arg {
        Some(m) => m.to_string(),
        None => match model_from_arg(provider_arg) {
            Some(m) => m,
            None => match &p.default_model {
                Some(m) => m.clone(),
                None => {
                    let mut msg = chars_of("未指定 model（用 --model 或 --provider ");
                    append_chars(&mut msg, &chars_of(p.name.as_str()));
                    append_chars(&mut msg, &chars_of("/model_id）"));
                    return Err(string_of(&msg));
                },
            },
        },
    };
    Ok((p.id.clone(), model))
}

fn find_provider(file: &ProvidersFile, key: &Vec<char>) -> (r: Option<usize>)
    ensures
        match r {
            Some(i) => provider_index(*file, key@) == Some(i as int) && i < file.providers.len(),
            None => provider_index(*file, key@) is None,
        },
{
    let mut i: usize = 0;
    while i < file.providers.len()
        invariant
            i <= file.providers.len(),
            forall|j: int| 0 <= j < i ==> !provider_matches(#[trigger] file.providers@[j], key@),
        decreases file.providers.len() - i,
    {
        let idv = chars_of(file.providers[i].id.as_str());
        let namev = chars_of(file.providers[i].name.as_str());
        let hit_id = eq_str(key, file.providers[i].id.as_str());
        let hit_name = eq_str(key, file.providers[i].name.as_str());
        if hit_id || hit_name {
            assert(provider_matches(file.providers@[i as int], key@));
            let ghost c = choose|c: int| 0 <= c < file.providers.len() && provider_matches(file.providers@[c], key@)
                && forall|j: int| 0 <= j < c ==> !provider_matches(#[trigger] file.providers@[j], key@);
            proof {
                if c < i {
                    assert(!provider_matches(file.providers@[c], key@));
                } else if c > i {
                    assert(!provider_matches(file.providers@[i as int], key@));
                }
            }
            return Some(i);
        }
        i += 1;
    }
    None
}


/// A mode change is reported in the direction it happened: the daemon event's
/// `from` is the mode left and its `to` the mode entered, and the usage totals
/// stay as they were.
pub proof fn law_mode_change_direction(from: String, to: String, u: UsageTotals, r: Option<DaemonEvent>)
    requires
        translated(WireEvent::RunModeChanged { from, to }, u, r),
    ensures
        r matches Some(DaemonEvent::RunModeChanged { from: f, to: t }) && f@ == from@ && t@ == to@,
        usage_after(u, WireEvent::RunModeChanged { from, to }) == totals(u),
{
}

/// Text, reasoning and suspension reasons pass through unchanged, and stay
/// attached to the sub-agent call they came from.
pub proof fn law_text_passes_through(text: String, sub: Option<String>, u: UsageTotals, r1: Option<DaemonEvent>, r2: Option<DaemonEvent>, r3: Option<DaemonEvent>)
    requires
        translated(WireEvent::TextDelta { text, subagent_call_id: sub }, u, r1),
        translated(WireEvent::Reasoning { text, subagent_call_id: sub }, u, r2),
        translated(WireEvent::RunSuspended { reason: text }, u, r3),
    ensures
        r1 matches Some(DaemonEvent::TextDelta { text: t, subagent_call_id: s }) && t@ == text@ && s == sub,
        r2 matches Some(DaemonEvent::Reasoning { text: t, subagent_call_id: s }) && t@ == text@ && s == sub,
        r3 matches Some(DaemonEvent::RunSuspended { reason: t }) && t@ == text@,
{
}

} // verus!
