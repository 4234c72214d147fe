//! The terminal UI's state: input box, chat blocks and their scrolling, the
//! approval and question pop-ups, and how run events update them.

use vstd::prelude::*;
use crate::protocol::{ApprovalDecision, PermissionScope, QuestionOption, UserAnswer};
use crate::text::{
    ascii_lower_spec, chars_of, concat_str, contains_spec, contains_str, push_char, string_of,
    to_ascii_lowercase, trim, trim_spec, eq_str,
};

verus! {

/// The text being typed.
pub struct InputBox {
    buffer: String,
}

impl InputBox {
    pub closed spec fn view(&self) -> Seq<char> {
        self.buffer@
    }

    pub fn new() -> (b: Self)
        ensures
            b.view() == Seq::<char>::empty(),
    {
        InputBox { buffer: String::new() }
    }

    pub fn buffer(&self) -> (s: &str)
        ensures
            s@ == self.view(),
    {
        self.buffer.as_str()
    }

    pub fn push_char(&mut self, c: char)
        ensures
            final(self).view() == old(self).view().push(c),
    {
        push_char(&mut self.buffer, c);
    }

    /// Removes the last character, if any.
    pub fn pop_char(&mut self)
        ensures
            final(self).view() == if old(self).view().len() > 0 { old(self).view().drop_last() } else { old(self).view() },
    {
        let v = chars_of(self.buffer.as_str());
        if v.len() > 0 {
            let mut w = v;
            w.pop();
            self.buffer = string_of(&w);
        }
    }

    pub fn clear(&mut self)
        ensures
            final(self).view() == Seq::<char>::empty(),
    {
        self.buffer = String::new();
    }

    /// Hands out the text and empties the box.
    pub fn take(&mut self) -> (s: String)
        ensures
            s@ == old(self).view(),
            final(self).view() == Seq::<char>::empty(),
    {
        let mut s = String::new();
        std::mem::swap(&mut s, &mut self.buffer);
        s
    }
}

/// How a tool call is doing.
#[derive(Debug, Clone, Copy, PartialEq, Eq, Structural)]
pub enum ToolStatus {
    Running,
    Succeeded,
    Failed,
}

/// An AutoMode verdict as shown in the chat.
#[derive(Debug, Clone, Copy, PartialEq, Eq, Structural)]
pub enum AutoDecision {
    Allow,
    Deny,
    Route,
}

/// One entry of the chat.
#[derive(Debug, PartialEq, Eq)]
pub enum ChatBlock {
    User(String),
    Assistant { text: String, reasoning: String },
    ToolCall { name: String, brief: String, status: ToolStatus },
    AutoJudged { tool: String, decision: AutoDecision, reason: Option<String> },
    Note(String),
}

/// The chat blocks, the scroll offset in lines and whether it follows the bottom.
pub struct ChatView {
    pub blocks: Vec<ChatBlock>,
    pub scroll: u16,
    pub follow: bool,
}

impl ChatView {
    pub fn new() -> (v: Self)
        ensures
            v.blocks@.len() == 0,
            v.scroll == 0,
            v.follow,
    {
        ChatView { blocks: Vec::new(), scroll: 0, follow: true }
    }

    pub fn push(&mut self, block: ChatBlock)
        ensures
            final(self).blocks@ == old(self).blocks@.push(block),
            final(self).scroll == old(self).scroll,
            final(self).follow == old(self).follow,
    {
        self.blocks.push(block);
    }

    /// Scrolls up `n` lines (not past the top) and stops following the bottom.
    pub fn scroll_up(&mut self, n: u16)
        ensures
            final(self).scroll == if old(self).scroll >= n { (old(self).scroll - n) as u16 } else { 0u16 },
            !final(self).follow,
            final(self).blocks == old(self).blocks,
    {
        self.scroll = if self.scroll >= n { self.scroll - n } else { 0 };
        self.follow = false;
    }

    /// Scrolls down `n` lines (saturating).
    pub fn scroll_down(&mut self, n: u16)
        ensures
            final(self).scroll == if old(self).scroll + n <= u16::MAX { (old(self).scroll + n) as u16 } else { u16::MAX },
            final(self).follow == old(self).follow,
            final(self).blocks == old(self).blocks,
    {
        self.scroll = if self.scroll <= u16::MAX - n { self.scroll + n } else { u16::MAX };
    }

    pub fn follow_bottom(&mut self)
        ensures
            final(self).follow,
            final(self).scroll == old(self).scroll,
            final(self).blocks == old(self).blocks,
    {
        self.follow = true;
    }

    /// The offset to draw with for `total` lines in an area `height` rows high
    /// (borders take two): when following, the last page.
    pub fn scroll_for(&mut self, total: u16, height: u16) -> (s: u16)
        ensures
            old(self).follow ==> s == (if total >= (if height >= 2 { height - 2 } else { 0 }) { total - (if height >= 2 { height - 2 } else { 0 }) } else { 0 }),
            !old(self).follow ==> s == old(self).scroll,
            final(self).scroll == s,
            final(self).follow == old(self).follow,
            final(self).blocks == old(self).blocks,
    {
        let inner: u16 = if height >= 2 { height - 2 } else { 0 };
        if self.follow {
            self.scroll = if total >= inner { total - inner } else { 0 };
        }
        self.scroll
    }
}

/// Whether a tool result reads as a failure: it mentions "error" in any case.
pub open spec fn result_failed(result: Seq<char>) -> bool {
    contains_spec(ascii_lower_spec(result), "error"@)
}

pub open spec fn running_call(b: ChatBlock, call_id: Seq<char>) -> bool {
    b matches ChatBlock::ToolCall { brief, status, .. } && brief@ == call_id && status == ToolStatus::Running
}

/// The last running tool call block of `call_id`, if any.
pub open spec fn last_running(blocks: Seq<ChatBlock>, call_id: Seq<char>) -> Option<int> {
    if exists|i: int| 0 <= i < blocks.len() && running_call(blocks[i], call_id) {
        Some(choose|i: int| 0 <= i < blocks.len() && running_call(blocks[i], call_id) && forall|j: int| i < j < blocks.len() ==> !running_call(#[trigger] blocks[j], call_id))
    } else {
        None
    }
}

pub open spec fn tool_finished_spec(before: Seq<ChatBlock>, after: Seq<ChatBlock>, call_id: Seq<char>, result: Seq<char>) -> bool {
    match last_running(before, call_id) {
        None => after == before,
        Some(i) => after.len() == before.len()
            && (forall|j: int| 0 <= j < before.len() && j != i ==> #[trigger] after[j] == before[j])
            && (before[i] matches ChatBlock::ToolCall { name, brief, .. } && after[i] == (ChatBlock::ToolCall {
                name,
                brief,
                status: if result_failed(result) { ToolStatus::Failed } else { ToolStatus::Succeeded },
            })),
    }
}

/// Marks the last running call of `call_id` done: failed when its result
/// mentions an error, else ok. No other block changes.
pub fn mark_tool_finished(blocks: &mut Vec<ChatBlock>, call_id: &str, result: &str)
    ensures
        tool_finished_spec(old(blocks)@, final(blocks)@, call_id@, result@),
{
    let lower = to_ascii_lowercase(result);
    let lv = chars_of(lower.as_str());
    let failed = contains_str(&lv, "error");
    let mut i = blocks.len();
    while i > 0
        invariant
            i <= blocks.len(),
            blocks@ == old(blocks)@,
            failed == result_failed(result@),
            forall|j: int| i <= j < blocks.len() ==> !running_call(#[trigger] blocks@[j], call_id@),
        decreases i,
    {
        let hit = match &blocks[i - 1] {
            ChatBlock::ToolCall { brief, status, .. } => {
                let bv = chars_of(brief.as_str());
                eq_str(&bv, call_id) && *status == ToolStatus::Running
            },
            _ => false,
        };
        if hit {
            let k = i - 1;
            proof {
                let c = choose|c: int| 0 <= c < blocks@.len() && running_call(blocks@[c], call_id@) && forall|j: int| c < j < blocks@.len() ==> !running_call(#[trigger] blocks@[j], call_id@);
                assert(running_call(blocks@[k as int], call_id@));
                if c < k {
                    assert(!running_call(blocks@[k as int], call_id@));
                } else if c > k {
                    assert(!running_call(blocks@[c], call_id@));
                }
            }
            let ghost before = blocks@;
            let old_block = blocks.remove(k);
            assert(old_block == before[k as int]);
            let new_block = match old_block {
                ChatBlock::ToolCall { name, brief, status } => ChatBlock::ToolCall {
                    name,
                    brief,
                    status: if failed { ToolStatus::Failed } else { ToolStatus::Succeeded },
                },
                other => other,
            };
            let ghost nb = new_block;
            blocks.insert(k, new_block);
            assert(blocks@ =~= before.update(k as int, nb));
            return;
        }
        i -= 1;
    }
}

/// What a key in the approval pop-up decides: `a` once, `b` for the
/// conversation, `c` everywhere, `d` deny (either case).
pub open spec fn key_decision_spec(c: char, d: Option<ApprovalDecision>) -> bool {
    if c == 'a' || c == 'A' {
        d == Some(ApprovalDecision::AllowOnce)
    } else if c == 'b' || c == 'B' {
        d matches Some(ApprovalDecision::AllowAndRemember { scope, pattern, extra_patterns })
            && scope == PermissionScope::Session && pattern is None && extra_patterns@.len() == 0
    } else if c == 'c' || c == 'C' {
        d matches Some(ApprovalDecision::AllowAndRemember { scope, pattern, extra_patterns })
            && scope == PermissionScope::Global && pattern is None && extra_patterns@.len() == 0
    } else if c == 'd' || c == 'D' {
        d == Some(ApprovalDecision::Deny)
    } else {
        d is None
    }
}

pub fn decision_for_key(c: char) -> (d: Option<ApprovalDecision>)
    ensures
        key_decision_spec(c, d),
{
    if c == 'a' || c == 'A' {
        Some(ApprovalDecision::AllowOnce)
    } else if c == 'b' || c == 'B' {
        Some(ApprovalDecision::AllowAndRemember { scope: PermissionScope::Session, pattern: None, extra_patterns: Vec::new() })
    } else if c == 'c' || c == 'C' {
        Some(ApprovalDecision::AllowAndRemember { scope: PermissionScope::Global, pattern: None, extra_patterns: Vec::new() })
    } else if c == 'd' || c == 'D' {
        Some(ApprovalDecision::Deny)
    } else {
        None
    }
}

/// The option a digit key picks: `1`–`9` pick the first to ninth.
pub fn option_index_for_key(c: char) -> (r: Option<usize>)
    ensures
        ('1' <= c && c <= '9') ==> r == Some(((c as u32) - ('1' as u32)) as usize),
        !('1' <= c && c <= '9') ==> r is None,
{
    if '1' <= c && c <= '9' {
        Some(((c as u32) - ('1' as u32)) as usize)
    } else {
        None
    }
}

/// The run modes that F2 cycles through.
#[derive(Debug, Clone, Copy, PartialEq, Eq, Structural)]
pub enum RunMode {
    AskBeforeEdits,
    EditAutomatically,
    PlanMode,
    AutoMode,
}

/// The next mode: ask → edit automatically → plan → auto → ask.
pub fn cycle_run_mode(m: RunMode) -> (n: RunMode)
    ensures
        n == match m {
            RunMode::AskBeforeEdits => RunMode::EditAutomatically,
            RunMode::EditAutomatically => RunMode::PlanMode,
            RunMode::PlanMode => RunMode::AutoMode,
            RunMode::AutoMode => RunMode::AskBeforeEdits,
        },
{
    match m {
        RunMode::AskBeforeEdits => RunMode::EditAutomatically,
        RunMode::EditAutomatically => RunMode::PlanMode,
        RunMode::PlanMode => RunMode::AutoMode,
        RunMode::AutoMode => RunMode::AskBeforeEdits,
    }
}

/// Four presses of F2 come back to the same mode.
pub proof fn law_cycle_period_four(m: RunMode)
    ensures
        ({
            let next = |x: RunMode| match x {
                RunMode::AskBeforeEdits => RunMode::EditAutomatically,
                RunMode::EditAutomatically => RunMode::PlanMode,
                RunMode::PlanMode => RunMode::AutoMode,
                RunMode::AutoMode => RunMode::AskBeforeEdits,
            };
            next(next(next(next(m)))) == m && next(m) != m
        }),
{
}

/// An open question pop-up.
#[derive(Debug, PartialEq, Eq)]
pub struct QuestionPopupState {
    pub request_id: String,
    pub question: String,
    pub options: Vec<QuestionOption>,
    pub multi: bool,
    pub input_buffer: String,
    pub free_input_mode: bool,
    pub picked: Vec<String>,
}

/// The answer the pop-up gives: typed text when in free-input mode with text;
/// else the picked labels (several when multiple choice), or a cancel when none.
pub open spec fn answer_spec(s: QuestionPopupState, a: UserAnswer) -> bool {
    if s.free_input_mode && trim_spec(s.input_buffer@).len() > 0 {
        a matches UserAnswer::Custom { text } && text@ == trim_spec(s.input_buffer@)
    } else if s.multi {
        if s.picked@.len() == 0 { a is Cancelled } else { a matches UserAnswer::SelectedMulti { labels } && labels@ == s.picked@ }
    } else if s.picked@.len() > 0 {
        a == UserAnswer::Selected { label: s.picked@[0] }
    } else {
        a is Cancelled
    }
}

fn clone_vec_string(v: &Vec<String>) -> (r: Vec<String>)
    ensures
        r@ == v@,
{
    let mut r: Vec<String> = Vec::new();
    let mut i: usize = 0;
    while i < v.len()
        invariant
            i <= v.len(),
            r@ == v@.subrange(0, i as int),
        decreases v.len() - i,
    {
        r.push(v[i].clone());
        i += 1;
    }
    assert(v@.subrange(0, v.len() as int) =~= v@);
    r
}

pub fn build_answer(state: &QuestionPopupState) -> (a: UserAnswer)
    ensures
        answer_spec(*state, a),
{
    let t = trim(state.input_buffer.as_str());
    if state.free_input_mode && !t.as_str().is_empty() {
        return UserAnswer::Custom { text: t };
    }
    if state.multi {
        if state.picked.len() == 0 {
            UserAnswer::Cancelled
        } else {
            UserAnswer::SelectedMulti { labels: clone_vec_string(&state.picked) }
        }
    } else if state.picked.len() > 0 {
        UserAnswer::Selected { label: state.picked[0].clone() }
    } else {
        UserAnswer::Cancelled
    }
}

/// The status bar: provider, token usage, mode and step counters.
#[derive(Debug, PartialEq, Eq)]
pub struct StatusBarState {
    pub provider_display: String,
    pub used_tokens: u64,
    pub budget_tokens: u64,
    pub run_mode: String,
    pub model_step: u32,
    pub tool_step: u32,
}

/// An open approval pop-up.
#[derive(Debug, PartialEq, Eq)]
pub struct PermissionPopupState {
    pub request_id: String,
    pub kind: String,
    pub summary: String,
}

/// The run in progress: its streamed text and reasoning and the chat block they fill.
#[derive(Debug, PartialEq, Eq)]
pub struct ActiveRun {
    pub streaming_text: String,
    pub streaming_reasoning: String,
    pub assistant_block_idx: Option<usize>,
}

/// The run events the terminal UI reacts to.
#[derive(Debug)]
pub enum TuiEvent {
    TextDelta { text: String },
    Reasoning { text: String },
    TextDone { full_text: String },
    ToolCallStarted { name: String, call_id: String },
    ToolCallFinished { call_id: String, result: String },
    PermissionRequested { request_id: String, kind: String, summary: String },
    UserQuestionRequested { request_id: String, question: String, options: Vec<QuestionOption>, multi: bool },
    PermissionAutoJudged { tool_name: String, decision: String, reason: Option<String> },
    RunModeChanged { to: String },
    StepStarted { model_step: bool },
    RunFinished { total_input_tokens: u64, total_output_tokens: u64 },
    RunFailed { message: String },
    RunCancelled,
    Other,
}

/// The terminal UI.
pub struct TuiApp {
    pub chat: ChatView,
    pub input: InputBox,
    pub status: StatusBarState,
    pub permission_popup: Option<PermissionPopupState>,
    pub question_popup: Option<QuestionPopupState>,
    pub active_run: Option<ActiveRun>,
    pub should_quit: bool,
    pub run_mode: RunMode,
}

/// The chat after the assistant block of the run shows `text` and `reasoning`.
pub open spec fn refreshed(blocks: Seq<ChatBlock>, idx: Option<usize>, text: String, reasoning: String) -> Seq<ChatBlock> {
    match idx {
        Some(i) => if i < blocks.len() && blocks[i as int] is Assistant {
            blocks.update(i as int, ChatBlock::Assistant { text, reasoning })
        } else {
            blocks
        },
        None => blocks,
    }
}

pub open spec fn sat_add_u32(a: u32, b: u32) -> u32 {
    if a + b <= u32::MAX { (a + b) as u32 } else { u32::MAX }
}

pub open spec fn sat_add_u64(a: u64, b: int) -> u64 {
    if a + b <= u64::MAX { (a + b) as u64 } else { u64::MAX }
}

pub open spec fn judged(decision: Seq<char>) -> AutoDecision {
    if decision == "allow"@ {
        AutoDecision::Allow
    } else if decision == "deny"@ {
        AutoDecision::Deny
    } else {
        AutoDecision::Route
    }
}

impl TuiApp {
    /// The parts of the UI a run event may change are what `run_event_spec` says;
    /// the input box, the quit flag and the mode never change.
    pub open spec fn unchanged_rest(&self, o: &TuiApp) -> bool {
        self.input == o.input && self.should_quit == o.should_quit && self.run_mode == o.run_mode
    }

    fn refresh_assistant_block(&mut self)
        ensures
            final(self).chat.blocks@ == match old(self).active_run {
                Some(r) => refreshed(old(self).chat.blocks@, r.assistant_block_idx, r.streaming_text, r.streaming_reasoning),
                None => old(self).chat.blocks@,
            },
            final(self).chat.scroll == old(self).chat.scroll,
            final(self).chat.follow == old(self).chat.follow,
            final(self).active_run == old(self).active_run,
            final(self).status == old(self).status,
            final(self).permission_popup == old(self).permission_popup,
            final(self).question_popup == old(self).question_popup,
            final(self).unchanged_rest(&*old(self)),
    {
        let (text, reasoning, idx) = match &self.active_run {
            Some(r) => (r.streaming_text.clone(), r.streaming_reasoning.clone(), r.assistant_block_idx),
            None => return,
        };
        let i = match idx {
            Some(i) => i,
            None => return,
        };
        if i < self.chat.blocks.len() {
            let is_assistant = match &self.chat.blocks[i] {
                ChatBlock::Assistant { .. } => true,
                _ => false,
            };
            if is_assistant {
                let ghost before = self.chat.blocks@;
                let _ = self.chat.blocks.remove(i);
                self.chat.blocks.insert(i, ChatBlock::Assistant { text, reasoning });
                assert(self.chat.blocks@ =~= before.update(i as int, ChatBlock::Assistant { text, reasoning }));
            }
        }
    }

    /// Applies one run event. Returns the answer text to keep when a run
    /// finishes with some.
    pub fn on_run_event(&mut self, event: TuiEvent) -> (commit: Option<String>)
        requires
            event matches TuiEvent::RunFinished { total_input_tokens, total_output_tokens }
                ==> total_input_tokens + total_output_tokens <= u64::MAX,
        ensures
            final(self).unchanged_rest(&*old(self)),
            final(self).chat.scroll == old(self).chat.scroll,
            final(self).chat.follow == old(self).chat.follow,
            match event {
                TuiEvent::TextDelta { text } => commit is None && match old(self).active_run {
                    Some(r) => final(self).active_run matches Some(n) && n.streaming_text@ == r.streaming_text@ + text@
                        && n.streaming_reasoning == r.streaming_reasoning && n.assistant_block_idx == r.assistant_block_idx
                        && final(self).chat.blocks@ == refreshed(old(self).chat.blocks@, n.assistant_block_idx, n.streaming_text, n.streaming_reasoning),
                    None => final(self).active_run is None && final(self).chat.blocks@ == old(self).chat.blocks@,
                },
                TuiEvent::Reasoning { text } => commit is None && match old(self).active_run {
                    Some(r) => final(self).active_run matches Some(n) && n.streaming_reasoning@ == r.streaming_reasoning@ + text@
                        && n.streaming_text == r.streaming_text && n.assistant_block_idx == r.assistant_block_idx
                        && final(self).chat.blocks@ == refreshed(old(self).chat.blocks@, n.assistant_block_idx, n.streaming_text, n.streaming_reasoning),
                    None => final(self).active_run is None && final(self).chat.blocks@ == old(self).chat.blocks@,
                },
                TuiEvent::TextDone { full_text } => commit is None && match old(self).active_run {
                    Some(r) => final(self).active_run matches Some(n) && n.streaming_text == full_text
                        && n.streaming_reasoning == r.streaming_reasoning && n.assistant_block_idx == r.assistant_block_idx
                        && final(self).chat.blocks@ == refreshed(old(self).chat.blocks@, n.assistant_block_idx, n.streaming_text, n.streaming_reasoning),
                    None => final(self).active_run is None && final(self).chat.blocks@ == old(self).chat.blocks@,
                },
                TuiEvent::ToolCallStarted { name, call_id } => commit is None
                    && final(self).chat.blocks@ == old(self).chat.blocks@.push(ChatBlock::ToolCall { name, brief: call_id, status: ToolStatus::Running })
                    && final(self).status.tool_step == sat_add_u32(old(self).status.tool_step, 1),
                TuiEvent::ToolCallFinished { call_id, result } => commit is None && tool_finished_spec(old(self).chat.blocks@, final(self).chat.blocks@, call_id@, result@),
                TuiEvent::PermissionRequested { request_id, kind, summary } => commit is None && if old(self).run_mode == RunMode::AutoMode {
                    final(self).permission_popup == old(self).permission_popup
                } else {
                    final(self).permission_popup == Some(PermissionPopupState { request_id, kind, summary })
                },
                TuiEvent::UserQuestionRequested { request_id, question, options, multi } => commit is None
                    && (final(self).question_popup matches Some(q) && q.request_id == request_id && q.question == question
                    && q.options == options && q.multi == multi && q.input_buffer@.len() == 0 && !q.free_input_mode && q.picked@.len() == 0),
                TuiEvent::PermissionAutoJudged { tool_name, decision, reason } => commit is None
                    && final(self).chat.blocks@ == old(self).chat.blocks@.push(ChatBlock::AutoJudged { tool: tool_name, decision: judged(decision@), reason }),
                TuiEvent::RunModeChanged { to } => commit is None && final(self).status.run_mode == to
                    && final(self).chat.blocks@.len() == old(self).chat.blocks@.len() + 1
                    && final(self).chat.blocks@.drop_last() == old(self).chat.blocks@
                    && (final(self).chat.blocks@.last() matches ChatBlock::Note(n) && n@ == "RunMode → "@ + to@),
                TuiEvent::StepStarted { model_step } => commit is None && final(self).status.model_step
                    == if model_step { sat_add_u32(old(self).status.model_step, 1) } else { old(self).status.model_step },
                TuiEvent::RunFinished { total_input_tokens, total_output_tokens } => final(self).active_run is None
                    && final(self).status.used_tokens == sat_add_u64(old(self).status.used_tokens, total_input_tokens + total_output_tokens)
                    && match old(self).active_run {
                        Some(r) => if r.streaming_text@.len() > 0 { commit == Some(r.streaming_text) } else { commit is None },
                        None => commit is None,
                    },
                TuiEvent::RunFailed { message } => commit is None && final(self).active_run is None
                    && final(self).chat.blocks@.len() == old(self).chat.blocks@.len() + 1
                    && final(self).chat.blocks@.drop_last() == old(self).chat.blocks@
                    && (final(self).chat.blocks@.last() matches ChatBlock::Note(n) && n@ == "✗ run 失败："@ + message@),
                TuiEvent::RunCancelled => commit is None && final(self).active_run is None
                    && final(self).chat.blocks@.len() == old(self).chat.blocks@.len() + 1
                    && final(self).chat.blocks@.drop_last() == old(self).chat.blocks@
                    && (final(self).chat.blocks@.last() matches ChatBlock::Note(n) && n@ == "⏸ 已取消"@),
                TuiEvent::Other => commit is None && final(self).chat.blocks@ == old(self).chat.blocks@,
            },
    {
        match event {
            TuiEvent::TextDelta { text } => {
                if let Some(run) = &mut self.active_run {
                    let t = concat_str(run.streaming_text.as_str(), text.as_str());
                    run.streaming_text = t;
                }
                self.refresh_assistant_block();
                None
            },
            TuiEvent::Reasoning { text } => {
                if let Some(run) = &mut self.active_run {
                    let t = concat_str(run.streaming_reasoning.as_str(), text.as_str());
                    run.streaming_reasoning = t;
                }
                self.refresh_assistant_block();
                None
            },
            TuiEvent::TextDone { full_text } => {
                if let Some(run) = &mut self.active_run {
                    run.streaming_text = full_text;
                }
                self.refresh_assistant_block();
                None
            },
            TuiEvent::ToolCallStarted { name, call_id } => {
                self.chat.push(ChatBlock::ToolCall { name, brief: call_id, status: ToolStatus::Running });
                self.status.tool_step = if self.status.tool_step < u32::MAX { self.status.tool_step + 1 } else { u32::MAX };
                None
            },
            TuiEvent::ToolCallFinished { call_id, result } => {
                mark_tool_finished(&mut self.chat.blocks, call_id.as_str(), result.as_str());
                None
            },
            TuiEvent::PermissionRequested { request_id, kind, summary } => {
                if self.run_mode != RunMode::AutoMode {
                    self.permission_popup = Some(PermissionPopupState { request_id, kind, summary });
                }
                None
            },
            TuiEvent::UserQuestionRequested { request_id, question, options, multi } => {
                self.question_popup = Some(QuestionPopupState {
                    request_id,
                    question,
                    options,
                    multi,
                    input_buffer: String::new(),
                    free_input_mode: false,
                    picked: Vec::new(),
                });
                None
            },
            TuiEvent::PermissionAutoJudged { tool_name, decision, reason } => {
                let dv = chars_of(decision.as_str());
                let dec = if eq_str(&dv, "allow") {
                    AutoDecision::Allow
                } else if eq_str(&dv, "deny") {
                    AutoDecision::Deny
                } else {
                    AutoDecision::Route
                };
                self.chat.push(ChatBlock::AutoJudged { tool: tool_name, decision: dec, reason });
                None
            },
            TuiEvent::RunModeChanged { to } => {
                let note = concat_str("RunMode → ", to.as_str());
                self.status.run_mode = to;
                self.chat.push(ChatBlock::Note(note));
                None
            },
            TuiEvent::StepStarted { model_step } => {
                if model_step {
                    self.status.model_step = if self.status.model_step < u32::MAX { self.status.model_step + 1 } else { u32::MAX };
                }
                None
            },
            TuiEvent::RunFinished { total_input_tokens, total_output_tokens } => {
                let mut commit: Option<String> = None;
                if let Some(run) = &mut self.active_run {
                    let mut final_text = String::new();
                    std::mem::swap(&mut final_text, &mut run.streaming_text);
                    if !final_text.as_str().is_empty() {
                        commit = Some(final_text);
                    }
                }
                let add = total_input_tokens + total_output_tokens;
                self.status.used_tokens = if self.status.used_tokens <= u64::MAX - add { self.status.used_tokens + add } else { u64::MAX };
                self.active_run = None;
                commit
            },
            TuiEvent::RunFailed { message } => {
                self.chat.push(ChatBlock::Note(concat_str("✗ run 失败：", message.as_str())));
                self.active_run = None;
                None
            },
            TuiEvent::RunCancelled => {
                self.chat.push(ChatBlock::Note("⏸ 已取消".to_string()));
                self.active_run = None;
                None
            },
            TuiEvent::Other => None,
        }
    }
}

pub open spec fn labels(v: Seq<String>) -> Seq<Seq<char>> {
    v.map_values(|s: String| s@)
}

/// Ticking a label in a multiple-choice pop-up: unticked when ticked (its first
/// place), else ticked at the end.
pub open spec fn toggled(picked: Seq<Seq<char>>, label: Seq<char>) -> Seq<Seq<char>> {
    if picked.contains(label) {
        picked.remove(first_place(picked, label))
    } else {
        picked.push(label)
    }
}

pub open spec fn first_place(picked: Seq<Seq<char>>, label: Seq<char>) -> int {
    choose|i: int| 0 <= i < picked.len() && picked[i] == label && forall|j: int| 0 <= j < i ==> picked[j] != label
}

/// Ticking a label that was not ticked and ticking it again leaves the ticks as they were.
pub proof fn law_toggle_twice(picked: Seq<Seq<char>>, label: Seq<char>)
    requires
        !picked.contains(label),
    ensures
        toggled(toggled(picked, label), label) == picked,
{
    let t = picked.push(label);
    assert(t[picked.len() as int] == label);
    assert(t.contains(label));
    let f = first_place(t, label);
    assert(0 <= f < t.len() && t[f] == label && forall|j: int| 0 <= j < f ==> t[j] != label) by {
        assert(0 <= picked.len() < t.len() && t[picked.len() as int] == label && forall|j: int| 0 <= j < picked.len() ==> t[j] != label) by {
            assert forall|j: int| 0 <= j < picked.len() implies t[j] != label by {
                assert(t[j] == picked[j]);
            }
        }
    }
    if f < picked.len() {
        assert(t[f] == picked[f]);
        assert(picked.contains(label));
    }
    assert(t.remove(f) =~= picked);
}

fn find_label(picked: &Vec<String>, label: &str) -> (r: Option<usize>)
    ensures
        match r {
            Some(p) => labels(picked@).contains(label@) && p == first_place(labels(picked@), label@) && p < picked.len(),
            None => !labels(picked@).contains(label@),
        },
{
    let ghost l = labels(picked@);
    let mut i: usize = 0;
    while i < picked.len()
        invariant
            i <= picked.len(),
            l == labels(picked@),
            forall|j: int| 0 <= j < i ==> l[j] != label@,
        decreases picked.len() - i,
    {
        let pv = chars_of(picked[i].as_str());
        if eq_str(&pv, label) {
            assert(l[i as int] == label@);
            proof {
                let c = first_place(l, label@);
                assert(0 <= i < l.len() && l[i as int] == label@ && forall|j: int| 0 <= j < i ==> l[j] != label@);
                if c < i {
                    assert(l[c] != label@);
                } else if c > i {
                    assert(l[i as int] != label@);
                }
            }
            return Some(i);
        }
        i += 1;
    }
    None
}

/// A digit key in the question pop-up: in multiple choice it ticks or unticks
/// the option; in single choice it picks the option and answers at once.
pub fn pick_option(state: &mut QuestionPopupState, idx: usize) -> (answer: Option<UserAnswer>)
    ensures
        idx >= old(state).options.len() ==> answer is None && *final(state) == *old(state),
        idx < old(state).options.len() ==> *final(state) == (QuestionPopupState { picked: final(state).picked, ..*old(state) }),
        idx < old(state).options.len() && old(state).multi ==> answer is None
            && labels(final(state).picked@) == toggled(labels(old(state).picked@), old(state).options@[idx as int].label@),
        idx < old(state).options.len() && !old(state).multi ==> labels(final(state).picked@) == seq![old(state).options@[idx as int].label@]
            && (answer matches Some(a) && answer_spec(*final(state), a)),
{
    if idx >= state.options.len() {
        return None;
    }
    let label = state.options[idx].label.clone();
    if state.multi {
        let ghost before = labels(state.picked@);
        match find_label(&state.picked, label.as_str()) {
            Some(p) => {
                let _ = state.picked.remove(p);
                assert(labels(state.picked@) =~= before.remove(p as int));
            },
            None => {
                state.picked.push(label);
                assert(labels(state.picked@) =~= before.push(label@));
            },
        }
        None
    } else {
        state.picked.clear();
        state.picked.push(label);
        assert(labels(state.picked@) =~= seq![label@]);
        Some(build_answer(state))
    }
}

} // verus!
