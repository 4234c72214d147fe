//! A chat channel's view of one agent turn: streamed text is sent in chat-sized
//! messages as it comes, tool calls are collected, and what the assistant said
//! is kept for the conversation.

use vstd::prelude::*;
use crate::chunking::{drain_ok, drain_ready_chunks, drain_spec, strings_of};
use crate::daemon::TurnStatus;
use crate::protocol::QuestionOption;
use crate::table::KeyedTable;
use crate::text::{concat_str, join, join_spec, strings_view, trim, trim_spec};

verus! {

pub assume_specification[<serde_json::Value as Clone>::clone](v: &serde_json::Value) -> (r: serde_json::Value)
    ensures
        r == *v,
;

/// A piece of a stored assistant message.
#[derive(Debug, PartialEq)]
pub enum MessagePart {
    Reasoning { text: String },
    Text { text: String },
    ToolCall { id: String, name: String, input: serde_json::Value, arguments: String, result: Option<String>, duration_ms: Option<u64> },
}

/// A finished tool call of the turn.
#[derive(Debug, PartialEq)]
pub struct ToolCallRecord {
    pub id: String,
    pub name: String,
    pub input: serde_json::Value,
    pub result: Option<String>,
    pub duration_ms: Option<u64>,
}

/// The events of the turn that the channel follows.
#[derive(Debug)]
pub enum ObservedEvent {
    Reasoning { text: String },
    TextDelta { text: String },
    TextDone { full_text: String },
    ToolCallStarted { call_id: String, name: String, input: serde_json::Value },
    ToolCallFinished { call_id: String, result: String, duration_ms: u64 },
    Other,
}

/// What a turn leaves for the conversation: the assistant's text, its tool
/// calls and the pieces of the message.
#[derive(Debug, PartialEq)]
pub struct AssistantRecord {
    pub content: String,
    pub tool_calls: Vec<ToolCallRecord>,
    pub parts: Vec<MessagePart>,
}

/// The state of the channel during a turn.
pub struct ChannelObserver {
    pub buffer: String,
    pub full_text: String,
    pub parts: Vec<MessagePart>,
    pub tool_calls: Vec<ToolCallRecord>,
    pub pending_tools: KeyedTable<(String, serde_json::Value)>,
}

/// `p` is the stored piece of a finished tool call: no arguments text, the
/// result and the duration set.
pub open spec fn finished_call_part(p: MessagePart, id: Seq<char>, name: Seq<char>, input: serde_json::Value, result: Seq<char>, duration_ms: u64) -> bool {
    match p {
        MessagePart::ToolCall { id: i, name: n, input: v, arguments, result: r, duration_ms: d } =>
            i@ == id && n@ == name && v == input && arguments@.len() == 0
                && (r matches Some(t) && t@ == result) && d == Some(duration_ms),
        _ => false,
    }
}

pub open spec fn is_text_part(p: MessagePart) -> bool {
    p is Text
}

/// The parts without the text parts.
pub open spec fn without_text(ps: Seq<MessagePart>) -> Seq<MessagePart> {
    ps.filter(|p: MessagePart| !is_text_part(p))
}

/// The text to send for `text`: trimmed, nothing when blank.
pub open spec fn outbound_spec(text: Seq<char>) -> Option<Seq<char>> {
    if trim_spec(text).len() == 0 { None } else { Some(trim_spec(text)) }
}

pub fn outbound_text(text: &str) -> (r: Option<String>)
    ensures
        match r {
            Some(t) => outbound_spec(text@) == Some(t@),
            None => outbound_spec(text@) is None,
        },
{
    let t = trim(text);
    if t.as_str().is_empty() { None } else { Some(t) }
}

impl ChannelObserver {
    pub fn new() -> (o: Self)
        ensures
            o.buffer@.len() == 0 && o.full_text@.len() == 0,
            o.parts@.len() == 0 && o.tool_calls@.len() == 0,
            o.pending_tools.view() == Map::<Seq<char>, (String, serde_json::Value)>::empty(),
    {
        ChannelObserver {
            buffer: String::new(),
            full_text: String::new(),
            parts: Vec::new(),
            tool_calls: Vec::new(),
            pending_tools: KeyedTable::new(),
        }
    }

    /// Follows one event (events of sub-agents are ignored); returns the
    /// messages that are ready to be sent.
    pub fn on_event(&mut self, event: ObservedEvent, from_subagent: bool) -> (ready: Vec<String>)
        requires
            !from_subagent ==> (event matches ObservedEvent::TextDelta { text } ==> drain_ok(old(self).buffer@ + text@)),
        ensures
            from_subagent ==> ready@.len() == 0 && final(self).buffer == old(self).buffer
                && final(self).full_text == old(self).full_text && final(self).parts@ == old(self).parts@
                && final(self).tool_calls@ == old(self).tool_calls@ && final(self).pending_tools.view() == old(self).pending_tools.view(),
            !from_subagent ==> match event {
                ObservedEvent::Reasoning { text } => ready@.len() == 0 && final(self).parts@ == old(self).parts@.push(MessagePart::Reasoning { text })
                    && final(self).buffer == old(self).buffer && final(self).full_text == old(self).full_text
                    && final(self).tool_calls@ == old(self).tool_calls@ && final(self).pending_tools.view() == old(self).pending_tools.view(),
                ObservedEvent::TextDelta { text } => strings_of(ready@) == drain_spec(old(self).buffer@ + text@).0
                    && final(self).buffer@ == drain_spec(old(self).buffer@ + text@).1
                    && final(self).full_text == old(self).full_text && final(self).parts@ == old(self).parts@
                    && final(self).tool_calls@ == old(self).tool_calls@ && final(self).pending_tools.view() == old(self).pending_tools.view(),
                ObservedEvent::TextDone { full_text } => ready@.len() == 0 && final(self).full_text == full_text
                    && final(self).parts@ == without_text(old(self).parts@).push(MessagePart::Text { text: full_text })
                    && final(self).buffer == old(self).buffer
                    && final(self).tool_calls@ == old(self).tool_calls@ && final(self).pending_tools.view() == old(self).pending_tools.view(),
                ObservedEvent::ToolCallStarted { call_id, name, input } => ready@.len() == 0
                    && final(self).pending_tools.view() == old(self).pending_tools.view().insert(call_id@, (name, input))
                    && final(self).buffer == old(self).buffer && final(self).full_text == old(self).full_text
                    && final(self).parts@ == old(self).parts@ && final(self).tool_calls@ == old(self).tool_calls@,
                ObservedEvent::ToolCallFinished { call_id, result, duration_ms } => ready@.len() == 0
                    && final(self).pending_tools.view() == old(self).pending_tools.view().remove(call_id@)
                    && final(self).buffer == old(self).buffer && final(self).full_text == old(self).full_text
                    && if old(self).pending_tools.view().contains_key(call_id@) {
                        let (name, input) = old(self).pending_tools.view()[call_id@];
                        final(self).tool_calls@ == old(self).tool_calls@.push(ToolCallRecord {
                            id: call_id, name, input, result: Some(result), duration_ms: Some(duration_ms),
                        }) && final(self).parts@.len() == old(self).parts@.len() + 1
                        && final(self).parts@.drop_last() == old(self).parts@
                        && finished_call_part(final(self).parts@.last(), call_id@, name@, input, result@, duration_ms)
                    } else {
                        final(self).tool_calls@ == old(self).tool_calls@ && final(self).parts@ == old(self).parts@
                    },
                ObservedEvent::Other => ready@.len() == 0 && final(self).buffer == old(self).buffer
                    && final(self).full_text == old(self).full_text && final(self).parts@ == old(self).parts@
                    && final(self).tool_calls@ == old(self).tool_calls@ && final(self).pending_tools.view() == old(self).pending_tools.view(),
            },
    {
        let mut ready: Vec<String> = Vec::new();
        if from_subagent {
            return ready;
        }
        match event {
            ObservedEvent::Reasoning { text } => {
                self.parts.push(MessagePart::Reasoning { text });
            },
            ObservedEvent::TextDelta { text } => {
                let mut b = concat_str(self.buffer.as_str(), text.as_str());
                ready = drain_ready_chunks(&mut b);
                self.buffer = b;
            },
            ObservedEvent::TextDone { full_text } => {
                let mut kept: Vec<MessagePart> = Vec::new();
                let mut old_parts: Vec<MessagePart> = Vec::new();
                std::mem::swap(&mut old_parts, &mut self.parts);
                let ghost ops = old_parts@;
                let mut i: usize = 0;
                let mut rest = old_parts;
                assert(rest@ =~= ops.subrange(0, ops.len() as int));
                let n: usize = rest.len();
                assert(n == ops.len());
                while rest.len() > 0
                    invariant
                        i + rest.len() == ops.len(),
                        ops.len() <= usize::MAX,
                        rest@ == ops.subrange(i as int, ops.len() as int),
                        kept@ == without_text(ops.subrange(0, i as int)),
                    decreases rest.len(),
                {
                    let p = rest.remove(0);
                    proof {
                        assert(p == ops[i as int]);
                        let sub = ops.subrange(0, i + 1);
                        assert(sub.drop_last() =~= ops.subrange(0, i as int));
                        reveal_with_fuel(Seq::filter, 1);
                    }
                    let is_text = match &p {
                        MessagePart::Text { .. } => true,
                        _ => false,
                    };
                    if !is_text {
                        kept.push(p);
                    }
                    i += 1;
                    assert(rest@ =~= ops.subrange(i as int, ops.len() as int));
                    assert(kept@ =~= without_text(ops.subrange(0, i as int)));
                }
                assert(ops.subrange(0, ops.len() as int) =~= ops);
                let t = full_text;
                self.full_text = t.clone();
                kept.push(MessagePart::Text { text: t });
                self.parts = kept;
            },
            ObservedEvent::ToolCallStarted { call_id, name, input } => {
                self.pending_tools.insert(call_id, (name, input));
            },
            ObservedEvent::ToolCallFinished { call_id, result, duration_ms } => {
                match self.pending_tools.remove(call_id.as_str()) {
                    Some((name, input)) => {
                        self.tool_calls.push(ToolCallRecord {
                            id: call_id.clone(),
                            name: name.clone(),
                            input: input.clone(),
                            result: Some(result.clone()),
                            duration_ms: Some(duration_ms),
                        });
                        self.parts.push(MessagePart::ToolCall {
                            id: call_id,
                            name,
                            input,
                            arguments: String::new(),
                            result: Some(result),
                            duration_ms: Some(duration_ms),
                        });
                    },
                    None => {},
                }
            },
            ObservedEvent::Other => {},
        }
        ready
    }

    /// At the end of the turn: the text still waiting, when it is not blank
    /// (the buffer is emptied then).
    pub fn flush(&mut self) -> (r: Option<String>)
        ensures
            match outbound_spec(old(self).buffer@) {
                Some(t) => r matches Some(x) && x@ == t && final(self).buffer@.len() == 0,
                None => r is None && final(self).buffer == old(self).buffer,
            },
            final(self).full_text == old(self).full_text && final(self).parts@ == old(self).parts@
                && final(self).tool_calls@ == old(self).tool_calls@,
    {
        match outbound_text(self.buffer.as_str()) {
            Some(t) => {
                self.buffer = String::new();
                Some(t)
            },
            None => None,
        }
    }

    /// What the turn leaves for the conversation: nothing when it said nothing
    /// and called no tool.
    pub fn build_message(self) -> (r: Option<AssistantRecord>)
        ensures
            (self.full_text@.len() == 0 && self.tool_calls@.len() == 0) ==> r is None,
            !(self.full_text@.len() == 0 && self.tool_calls@.len() == 0) ==> (r matches Some(m)
                && m.content == self.full_text && m.tool_calls@ == self.tool_calls@ && m.parts@ == self.parts@),
    {
        if self.full_text.as_str().is_empty() && self.tool_calls.len() == 0 {
            return None;
        }
        Some(AssistantRecord { content: self.full_text, tool_calls: self.tool_calls, parts: self.parts })
    }
}

/// The message that asks the channel's owner for an approval.
pub fn permission_prompt(summary: &str) -> (s: String)
    ensures
        s@ == "⚠️ 需要审批："@ + summary@ + "\n回复 y/yes/允许 通过；回复 n/no/拒绝 拒绝；回复 deny <原因> 拒绝并反馈。"@,
{
    let a = concat_str("⚠️ 需要审批：", summary);
    concat_str(a.as_str(), "\n回复 y/yes/允许 通过；回复 n/no/拒绝 拒绝；回复 deny <原因> 拒绝并反馈。")
}

pub open spec fn option_labels(options: Seq<QuestionOption>) -> Seq<Seq<char>> {
    options.map_values(|o: QuestionOption| o.label@)
}

/// The message that asks the channel's owner a question, with its options.
pub fn question_prompt(question: &str, options: &Vec<QuestionOption>) -> (s: String)
    ensures
        s@ == "❓ "@ + question@ + "\n选项："@ + join_spec(option_labels(options@), " / "@) + "\n也可以直接回复自定义文本。"@,
{
    let mut labels: Vec<String> = Vec::new();
    let mut i: usize = 0;
    while i < options.len()
        invariant
            i <= options.len(),
            strings_view(labels@) == option_labels(options@).subrange(0, i as int),
        decreases options.len() - i,
    {
        let ghost before = strings_view(labels@);
        labels.push(options[i].label.clone());
        assert(strings_view(labels@) =~= before.push(options@[i as int].label@));
        i += 1;
        assert(strings_view(labels@) =~= option_labels(options@).subrange(0, i as int));
    }
    assert(option_labels(options@).subrange(0, options.len() as int) =~= option_labels(options@));
    let j = join(&labels, " / ");
    let a = concat_str("❓ ", question);
    let b = concat_str(a.as_str(), "\n选项：");
    let c = concat_str(b.as_str(), j.as_str());
    concat_str(c.as_str(), "\n也可以直接回复自定义文本。")
}

/// What the channel hears when a turn ends: nothing more when it completed or
/// paused, a note when it was cancelled, the error when it failed.
pub fn turn_end_notice(outcome: &TurnStatus) -> (r: Option<String>)
    ensures
        match outcome {
            TurnStatus::Done | TurnStatus::Suspended => r is None,
            TurnStatus::Cancelled => r matches Some(t) && t@ == "run 已取消"@,
            TurnStatus::Failed(e) => r matches Some(t) && t@ == "❌ "@ + e@,
        },
{
    match outcome {
        TurnStatus::Done | TurnStatus::Suspended => None,
        TurnStatus::Cancelled => Some("run 已取消".to_string()),
        TurnStatus::Failed(e) => Some(concat_str("❌ ", e.as_str())),
    }
}

/// What the gateway does with a chat message that answers nothing pending.
#[derive(Debug, PartialEq, Eq)]
pub enum InboundAction {
    /// Reply with this text (a command's answer or why nothing runs).
    Reply { text: String },
    /// Start an agent turn with the message.
    StartTurn,
}

/// A message that is not a command starts a turn, unless there is no active
/// conversation or a turn still runs; a command is answered.
pub fn inbound_action(command_reply: Option<String>, has_active_session: bool, run_busy: bool) -> (a: InboundAction)
    ensures
        match command_reply {
            Some(t) => a == (InboundAction::Reply { text: t }),
            None => if !has_active_session {
                a matches InboundAction::Reply { text } && text@ == "还没有活跃对话。用 /new 创建一个，或 /help 查看帮助。"@
            } else if run_busy {
                a matches InboundAction::Reply { text } && text@ == "上一轮还在运行中，请稍后再发。"@
            } else {
                a is StartTurn
            },
        },
{
    match command_reply {
        Some(t) => InboundAction::Reply { text: t },
        None => if !has_active_session {
            InboundAction::Reply { text: "还没有活跃对话。用 /new 创建一个，或 /help 查看帮助。".to_string() }
        } else if run_busy {
            InboundAction::Reply { text: "上一轮还在运行中，请稍后再发。".to_string() }
        } else {
            InboundAction::StartTurn
        },
    }
}

/// What a channel turn needs from the owner's state: the conversation, the
/// provider and the model, each with its own error.
pub fn turn_prerequisites(session_id: Option<String>, provider_id: Option<String>, model: Option<String>) -> (r: Result<(String, String, String), String>)
    ensures
        match (session_id, provider_id, model) {
            (Some(s), Some(p), Some(m)) => r == Ok::<(String, String, String), String>((s, p, m)),
            (None, _, _) => r matches Err(e) && e@ == "缺少 active_session_id"@,
            (Some(_), None, _) => r matches Err(e) && e@ == "缺少 provider_id，请用 /new --provider 指定"@,
            (Some(_), Some(_), None) => r matches Err(e) && e@ == "缺少 model，请用 /new --model 指定"@,
        },
{
    let s = match session_id {
        Some(s) => s,
        None => return Err("缺少 active_session_id".to_string()),
    };
    let p = match provider_id {
        Some(p) => p,
        None => return Err("缺少 provider_id，请用 /new --provider 指定".to_string()),
    };
    let m = match model {
        Some(m) => m,
        None => return Err("缺少 model，请用 /new --model 指定".to_string()),
    };
    Ok((s, p, m))
}

} // verus!
