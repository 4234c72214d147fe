//! What a key press does in the terminal UI: the open pop-up takes it first
//! (approval, then question); otherwise it edits the input, scrolls, cycles
//! the mode, quits or interrupts, or starts a run with the typed text. What
//! needs the running agent comes back as an effect for the caller to carry out.

use vstd::prelude::*;
use crate::protocol::{ApprovalDecision, UserAnswer};
use crate::text::{concat_str, trim, trim_spec};
use crate::tui::{
    answer_spec, build_answer, cycle_run_mode, decision_for_key, key_decision_spec, labels,
    option_index_for_key, pick_option, toggled, ActiveRun, ChatBlock, QuestionPopupState, RunMode,
    TuiApp,
};

verus! {

/// Which key was pressed.
#[derive(Debug, Clone, Copy, PartialEq, Eq, Structural)]
pub enum KeyCode {
    Char(char),
    Enter,
    Backspace,
    Esc,
    Tab,
    PageUp,
    PageDown,
    /// A function key, by its number.
    F(u8),
    Other,
}

/// The modifiers held: Control, Shift, and whether any other was.
#[derive(Debug, Clone, Copy, PartialEq, Eq, Structural)]
pub struct KeyMods {
    pub control: bool,
    pub shift: bool,
    pub other: bool,
}

#[derive(Debug, Clone, Copy, PartialEq, Eq, Structural)]
pub struct Key {
    pub code: KeyCode,
    pub mods: KeyMods,
}

/// What the caller does after a key.
#[derive(Debug, PartialEq, Eq)]
pub enum KeyEffect {
    Nothing,
    /// Ask the running run to stop.
    Interrupt,
    /// Settle the approval `request_id` with `decision`.
    ResolvePermission { request_id: String, decision: ApprovalDecision },
    /// Settle the question `request_id` with `answer`.
    AnswerQuestion { request_id: String, answer: UserAnswer },
    /// Add `text` as the user's message and start a run.
    StartRun { text: String },
    /// The mode moved on to `to` (the caller shows its name with `show_mode`).
    ModeCycled { to: RunMode },
}

pub open spec fn only_control(m: KeyMods) -> bool {
    m.control && !m.shift && !m.other
}

pub open spec fn only_shift(m: KeyMods) -> bool {
    m.shift && !m.control && !m.other
}

/// `o` and `f` differ at most in the chat blocks.
pub open spec fn same_but_blocks(o: TuiApp, f: TuiApp) -> bool {
    &&& f.chat.scroll == o.chat.scroll && f.chat.follow == o.chat.follow
    &&& f.input == o.input && f.status == o.status && f.should_quit == o.should_quit
    &&& f.run_mode == o.run_mode && f.active_run == o.active_run
}

/// `f`'s chat is `o`'s with the note `text` added.
pub open spec fn noted(o: TuiApp, f: TuiApp, text: Seq<char>) -> bool {
    &&& f.chat.blocks@.len() == o.chat.blocks@.len() + 1
    &&& f.chat.blocks@.drop_last() == o.chat.blocks@
    &&& f.chat.blocks@.last() matches ChatBlock::Note(n) && n@ == text
}

/// A key while the approval pop-up is open: a decision key (or Esc, which
/// denies) settles it, tells the run when there is one, and closes the pop-up.
pub open spec fn permission_key_spec(o: TuiApp, f: TuiApp, key: Key, e: KeyEffect) -> bool {
    let rid = o.permission_popup->0.request_id;
    &&& f.question_popup == o.question_popup
    &&& match key.code {
        KeyCode::Char(c) => exists|d: Option<ApprovalDecision>| key_decision_spec(c, d) && settled(o, f, rid, d, e),
        KeyCode::Esc => settled(o, f, rid, Some(ApprovalDecision::Deny), e),
        _ => unchanged(o, f) && e is Nothing && f.permission_popup == o.permission_popup,
    }
}

pub open spec fn unchanged(o: TuiApp, f: TuiApp) -> bool {
    same_but_blocks(o, f) && f.chat.blocks@ == o.chat.blocks@
}

pub open spec fn settled(o: TuiApp, f: TuiApp, rid: String, d: Option<ApprovalDecision>, e: KeyEffect) -> bool {
    match d {
        Some(dec) => {
            &&& f.permission_popup is None
            &&& same_but_blocks(o, f)
            &&& noted(o, f, "(已处理审批决定)"@)
            &&& e == if o.active_run is Some {
                KeyEffect::ResolvePermission { request_id: rid, decision: dec }
            } else {
                KeyEffect::Nothing
            }
        },
        None => unchanged(o, f) && e is Nothing && f.permission_popup == o.permission_popup,
    }
}

/// The question pop-up after a key, and what it answers (when it answers).
pub open spec fn question_key_spec(o: TuiApp, f: TuiApp, key: Key, e: KeyEffect) -> bool {
    let q = o.question_popup->0;
    &&& unchanged(o, f)
    &&& f.permission_popup == o.permission_popup
    &&& match key.code {
        KeyCode::Esc => f.question_popup is None && answered(o, q.request_id, UserAnswer::Cancelled, e),
        KeyCode::Tab => e is Nothing && f.question_popup == Some(QuestionPopupState { free_input_mode: !q.free_input_mode, ..q }),
        KeyCode::Enter => f.question_popup is None && exists|a: UserAnswer| answer_spec(q, a) && answered(o, q.request_id, a, e),
        KeyCode::Backspace => e is Nothing && if q.free_input_mode {
            f.question_popup matches Some(n) && n == QuestionPopupState { input_buffer: n.input_buffer, ..q }
                && n.input_buffer@ == if q.input_buffer@.len() > 0 { q.input_buffer@.drop_last() } else { q.input_buffer@ }
        } else {
            f.question_popup == o.question_popup
        },
        KeyCode::Char(c) => if q.free_input_mode {
            e is Nothing && (f.question_popup matches Some(n) && n == QuestionPopupState { input_buffer: n.input_buffer, ..q }
                && n.input_buffer@ == q.input_buffer@.push(c))
        } else if '1' <= c <= '9' && ((c as u32) - ('1' as u32)) < q.options@.len() {
            picked_spec(o, f, q, ((c as u32) - ('1' as u32)) as int, e)
        } else {
            e is Nothing && f.question_popup == o.question_popup
        },
        _ => e is Nothing && f.question_popup == o.question_popup,
    }
}

pub open spec fn answered(o: TuiApp, rid: String, a: UserAnswer, e: KeyEffect) -> bool {
    e == if o.active_run is Some { KeyEffect::AnswerQuestion { request_id: rid, answer: a } } else { KeyEffect::Nothing }
}

/// Picking option `i`: in multiple choice it is ticked or unticked; in single
/// choice it is the answer and the pop-up closes.
pub open spec fn picked_spec(o: TuiApp, f: TuiApp, q: QuestionPopupState, i: int, e: KeyEffect) -> bool {
    let label = q.options@[i].label@;
    if q.multi {
        e is Nothing && (f.question_popup matches Some(n) && n == QuestionPopupState { picked: n.picked, ..q }
            && labels(n.picked@) == toggled(labels(q.picked@), label))
    } else {
        f.question_popup is None && exists|n: QuestionPopupState, a: UserAnswer|
            n == QuestionPopupState { picked: n.picked, ..q } && labels(n.picked@) == seq![label]
            && answer_spec(n, a) && answered(o, q.request_id, a, e)
    }
}

/// A key with no pop-up open.
pub open spec fn main_key_spec(o: TuiApp, f: TuiApp, key: Key, e: KeyEffect) -> bool {
    &&& f.permission_popup == o.permission_popup && f.question_popup == o.question_popup
    &&& match key.code {
        KeyCode::Char(c) => if only_control(key.mods) && c == 'c' {
            if o.active_run is Some {
                e is Interrupt && same_but_blocks(o, f) && noted(o, f, "⏸ 已请求取消当前 run"@)
            } else {
                e is Nothing && f.should_quit && f.chat.blocks@ == o.chat.blocks@
                    && f.chat.scroll == o.chat.scroll && f.chat.follow == o.chat.follow
                    && f.input == o.input && f.status == o.status && f.run_mode == o.run_mode && f.active_run == o.active_run
            }
        } else if only_control(key.mods) && c == 'u' {
            e is Nothing && typed(o, f, Seq::empty())
        } else if !key.mods.control {
            e is Nothing && typed(o, f, o.input.view().push(c))
        } else {
            e is Nothing && unchanged(o, f)
        },
        KeyCode::F(n) => if n == 2 {
            e == KeyEffect::ModeCycled { to: cycle_mode_spec(o.run_mode) } && f.run_mode == cycle_mode_spec(o.run_mode)
                && f.chat.blocks@ == o.chat.blocks@ && f.chat.scroll == o.chat.scroll && f.chat.follow == o.chat.follow
                && f.input == o.input && f.status == o.status && f.should_quit == o.should_quit && f.active_run == o.active_run
        } else {
            e is Nothing && unchanged(o, f)
        },
        KeyCode::PageUp => e is Nothing && f.chat.scroll == (if o.chat.scroll >= 5 { (o.chat.scroll - 5) as u16 } else { 0u16 })
            && !f.chat.follow && f.chat.blocks == o.chat.blocks && f.input == o.input && f.status == o.status
            && f.should_quit == o.should_quit && f.run_mode == o.run_mode && f.active_run == o.active_run,
        KeyCode::PageDown => e is Nothing && f.chat.scroll == (if o.chat.scroll + 5 <= u16::MAX { (o.chat.scroll + 5) as u16 } else { u16::MAX })
            && f.chat.follow && f.chat.blocks == o.chat.blocks && f.input == o.input && f.status == o.status
            && f.should_quit == o.should_quit && f.run_mode == o.run_mode && f.active_run == o.active_run,
        KeyCode::Enter => if only_shift(key.mods) {
            e is Nothing && typed(o, f, o.input.view().push('\n'))
        } else {
            submitted(o, f, e)
        },
        KeyCode::Backspace => e is Nothing && typed(o, f,
            if o.input.view().len() > 0 { o.input.view().drop_last() } else { o.input.view() }),
        _ => e is Nothing && unchanged(o, f),
    }
}

pub open spec fn cycle_mode_spec(m: RunMode) -> RunMode {
    match m {
        RunMode::AskBeforeEdits => RunMode::EditAutomatically,
        RunMode::EditAutomatically => RunMode::PlanMode,
        RunMode::PlanMode => RunMode::AutoMode,
        RunMode::AutoMode => RunMode::AskBeforeEdits,
    }
}

/// Only the input changed, to `text`.
pub open spec fn typed(o: TuiApp, f: TuiApp, text: Seq<char>) -> bool {
    &&& f.input.view() == text
    &&& f.chat.blocks@ == o.chat.blocks@ && f.chat.scroll == o.chat.scroll && f.chat.follow == o.chat.follow
    &&& f.status == o.status && f.should_quit == o.should_quit && f.run_mode == o.run_mode && f.active_run == o.active_run
}

/// Enter: the input is taken; blank text does nothing more; while a run goes
/// on a note says to wait; else the text is shown with an empty answer block
/// after it, which the new run fills.
pub open spec fn submitted(o: TuiApp, f: TuiApp, e: KeyEffect) -> bool {
    let text = trim_spec(o.input.view());
    &&& f.input.view() == Seq::<char>::empty()
    &&& f.chat.scroll == o.chat.scroll && f.chat.follow == o.chat.follow
    &&& f.status == o.status && f.should_quit == o.should_quit && f.run_mode == o.run_mode
    &&& if text.len() == 0 {
        e is Nothing && f.chat.blocks@ == o.chat.blocks@ && f.active_run == o.active_run
    } else if o.active_run is Some {
        e is Nothing && f.active_run == o.active_run
            && f.chat.blocks@.len() == o.chat.blocks@.len() + 1 && f.chat.blocks@.drop_last() == o.chat.blocks@
            && (f.chat.blocks@.last() matches ChatBlock::Note(n) && n@ == "(当前 run 进行中，请等待或 Ctrl+C 取消)"@)
    } else {
        (e matches KeyEffect::StartRun { text: t } && t@ == text)
            && f.chat.blocks@.len() == o.chat.blocks@.len() + 2
            && f.chat.blocks@.subrange(0, o.chat.blocks@.len() as int) == o.chat.blocks@
            && (f.chat.blocks@[o.chat.blocks@.len() as int] matches ChatBlock::User(u) && u@ == text)
            && (f.chat.blocks@.last() matches ChatBlock::Assistant { text: at, reasoning: ar } && at@.len() == 0 && ar@.len() == 0)
            && (f.active_run matches Some(r) && r.streaming_text@.len() == 0 && r.streaming_reasoning@.len() == 0
                && r.assistant_block_idx == Some((o.chat.blocks@.len() + 1) as usize))
    }
}

impl TuiApp {
    /// Handles one key press (see `permission_key_spec`, `question_key_spec`
    /// and `main_key_spec`).
    pub fn handle_key(&mut self, key: Key) -> (e: KeyEffect)
        requires
            old(self).chat.blocks@.len() + 2 <= usize::MAX,
        ensures
            match old(self).permission_popup {
                Some(_) => permission_key_spec(*old(self), *final(self), key, e),
                None => match old(self).question_popup {
                    Some(_) => question_key_spec(*old(self), *final(self), key, e),
                    None => main_key_spec(*old(self), *final(self), key, e),
                },
            },
    {
        if self.permission_popup.is_some() {
            return self.permission_key(key);
        }
        if self.question_popup.is_some() {
            return self.question_key(key);
        }
        self.main_key(key)
    }

    fn permission_key(&mut self, key: Key) -> (e: KeyEffect)
        requires
            old(self).permission_popup is Some,
        ensures
            permission_key_spec(*old(self), *final(self), key, e),
    {
        let decision: Option<ApprovalDecision> = match key.code {
            KeyCode::Char(c) => decision_for_key(c),
            KeyCode::Esc => Some(ApprovalDecision::Deny),
            _ => None,
        };
        match decision {
            Some(dec) => {
                let mut popup = None;
                std::mem::swap(&mut popup, &mut self.permission_popup);
                let rid = match popup {
                    Some(p) => p.request_id,
                    None => String::new(),
                };
                self.chat.push(ChatBlock::Note("(已处理审批决定)".to_string()));
                assert(self.chat.blocks@.drop_last() =~= old(self).chat.blocks@);
                let e = if self.active_run.is_some() {
                    KeyEffect::ResolvePermission { request_id: rid, decision: dec }
                } else {
                    KeyEffect::Nothing
                };
                proof {
                    if let KeyCode::Char(c) = key.code {
                        assert(key_decision_spec(c, decision));
                        assert(settled(*old(self), *self, rid, decision, e));
                    }
                }
                e
            },
            None => KeyEffect::Nothing,
        }
    }

    fn question_key(&mut self, key: Key) -> (e: KeyEffect)
        requires
            old(self).question_popup is Some,
        ensures
            question_key_spec(*old(self), *final(self), key, e),
    {
        let mut popup = None;
        std::mem::swap(&mut popup, &mut self.question_popup);
        let mut q = match popup {
            Some(q) => q,
            None => return KeyEffect::Nothing,
        };
        let running = self.active_run.is_some();
        match key.code {
            KeyCode::Esc => {
                if running {
                    KeyEffect::AnswerQuestion { request_id: q.request_id, answer: UserAnswer::Cancelled }
                } else {
                    KeyEffect::Nothing
                }
            },
            KeyCode::Tab => {
                q.free_input_mode = !q.free_input_mode;
                self.question_popup = Some(q);
                KeyEffect::Nothing
            },
            KeyCode::Enter => {
                let a = build_answer(&q);
                if running {
                    KeyEffect::AnswerQuestion { request_id: q.request_id, answer: a }
                } else {
                    KeyEffect::Nothing
                }
            },
            KeyCode::Backspace => {
                if q.free_input_mode {
                    let mut t = String::new();
                    std::mem::swap(&mut t, &mut q.input_buffer);
                    q.input_buffer = drop_last_char(t);
                }
                self.question_popup = Some(q);
                KeyEffect::Nothing
            },
            KeyCode::Char(c) => {
                if q.free_input_mode {
                    crate::text::push_char(&mut q.input_buffer, c);
                    self.question_popup = Some(q);
                    KeyEffect::Nothing
                } else {
                    match option_index_for_key(c) {
                        Some(idx) => {
                            if idx < q.options.len() {
                                let rid = q.request_id.clone();
                                let multi = q.multi;
                                let a = pick_option(&mut q, idx);
                                if multi {
                                    self.question_popup = Some(q);
                                    KeyEffect::Nothing
                                } else {
                                    match a {
                                        Some(a) => if running {
                                            KeyEffect::AnswerQuestion { request_id: rid, answer: a }
                                        } else {
                                            KeyEffect::Nothing
                                        },
                                        None => KeyEffect::Nothing,
                                    }
                                }
                            } else {
                                self.question_popup = Some(q);
                                KeyEffect::Nothing
                            }
                        },
                        None => {
                            self.question_popup = Some(q);
                            KeyEffect::Nothing
                        },
                    }
                }
            },
            _ => {
                self.question_popup = Some(q);
                KeyEffect::Nothing
            },
        }
    }

    fn main_key(&mut self, key: Key) -> (e: KeyEffect)
        requires
            old(self).permission_popup is None,
            old(self).question_popup is None,
            old(self).chat.blocks@.len() + 2 <= usize::MAX,
        ensures
            main_key_spec(*old(self), *final(self), key, e),
    {
        match key.code {
            KeyCode::Char(c) => {
                let ctrl_only = key.mods.control && !key.mods.shift && !key.mods.other;
                if ctrl_only && c == 'c' {
                    if self.active_run.is_some() {
                        self.chat.push(ChatBlock::Note("⏸ 已请求取消当前 run".to_string()));
                        assert(self.chat.blocks@.drop_last() =~= old(self).chat.blocks@);
                        KeyEffect::Interrupt
                    } else {
                        self.should_quit = true;
                        KeyEffect::Nothing
                    }
                } else if ctrl_only && c == 'u' {
                    self.input.clear();
                    KeyEffect::Nothing
                } else if !key.mods.control {
                    self.input.push_char(c);
                    KeyEffect::Nothing
                } else {
                    KeyEffect::Nothing
                }
            },
            KeyCode::F(n) => {
                if n == 2 {
                    let next = cycle_run_mode(self.run_mode);
                    self.run_mode = next;
                    KeyEffect::ModeCycled { to: next }
                } else {
                    KeyEffect::Nothing
                }
            },
            KeyCode::PageUp => {
                self.chat.scroll_up(5);
                KeyEffect::Nothing
            },
            KeyCode::PageDown => {
                self.chat.scroll_down(5);
                self.chat.follow_bottom();
                KeyEffect::Nothing
            },
            KeyCode::Enter => {
                if key.mods.shift && !key.mods.control && !key.mods.other {
                    self.input.push_char('\n');
                    return KeyEffect::Nothing;
                }
                let taken = self.input.take();
                let text = trim(taken.as_str());
                if text.as_str().is_empty() {
                    return KeyEffect::Nothing;
                }
                if self.active_run.is_some() {
                    self.chat.push(ChatBlock::Note("(当前 run 进行中，请等待或 Ctrl+C 取消)".to_string()));
                    assert(self.chat.blocks@.drop_last() =~= old(self).chat.blocks@);
                    return KeyEffect::Nothing;
                }
                self.chat.push(ChatBlock::User(text.clone()));
                let idx = self.chat.blocks.len();
                self.chat.push(ChatBlock::Assistant { text: String::new(), reasoning: String::new() });
                assert(self.chat.blocks@.subrange(0, old(self).chat.blocks@.len() as int) =~= old(self).chat.blocks@);
                self.active_run = Some(ActiveRun {
                    streaming_text: String::new(),
                    streaming_reasoning: String::new(),
                    assistant_block_idx: Some(idx),
                });
                KeyEffect::StartRun { text }
            },
            KeyCode::Backspace => {
                self.input.pop_char();
                KeyEffect::Nothing
            },
            _ => KeyEffect::Nothing,
        }
    }

    /// Shows the mode the UI switched to, by the name the agent gives it.
    pub fn show_mode(&mut self, name: String)
        ensures
            final(self).status.run_mode == name,
            final(self).chat.blocks@.len() == old(self).chat.blocks@.len() + 1,
            final(self).chat.blocks@.drop_last() == old(self).chat.blocks@,
            final(self).chat.blocks@.last() matches ChatBlock::Note(n) && n@ == "切到模式："@ + name@,
            final(self).chat.scroll == old(self).chat.scroll && final(self).chat.follow == old(self).chat.follow,
            final(self).input == old(self).input && final(self).run_mode == old(self).run_mode,
            final(self).active_run == old(self).active_run && final(self).should_quit == old(self).should_quit,
            final(self).permission_popup == old(self).permission_popup && final(self).question_popup == old(self).question_popup,
            final(self).status.used_tokens == old(self).status.used_tokens,
            final(self).status.model_step == old(self).status.model_step,
            final(self).status.tool_step == old(self).status.tool_step,
            final(self).status.provider_display == old(self).status.provider_display,
            final(self).status.budget_tokens == old(self).status.budget_tokens,
    {
        let note = concat_str("切到模式：", name.as_str());
        self.status.run_mode = name;
        self.chat.push(ChatBlock::Note(note));
    }
}

/// `s` without its last character, if any.
fn drop_last_char(s: String) -> (r: String)
    ensures
        r@ == if s@.len() > 0 { s@.drop_last() } else { s@ },
{
    let mut v = crate::text::chars_of(s.as_str());
    if v.len() > 0 {
        v.pop();
    }
    crate::text::string_of(&v)
}

} // verus!
