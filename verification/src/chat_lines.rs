//! How the terminal chat view lays its blocks out as styled lines.

use vstd::prelude::*;
use crate::text::{concat_str, lines_of, lines_spec, strings_view};
use crate::tui::{AutoDecision, ChatBlock, ChatView, ToolStatus};

verus! {

/// The style a piece of a chat line is drawn in.
#[derive(Debug, Clone, Copy, PartialEq, Eq, Structural)]
pub enum SpanTone {
    UserPrefix,
    Plain,
    Reasoning,
    AssistantText,
    Hint,
    ToolCall,
    ToolFailure,
    AutoAllow,
    AutoDeny,
    AutoRoute,
    /// A pop-up's heading.
    Title,
}

/// A piece of a line in one style.
#[derive(Debug, PartialEq, Eq)]
pub struct StyledSpan {
    pub tone: SpanTone,
    pub text: String,
}

pub open spec fn span_view(s: StyledSpan) -> (SpanTone, Seq<char>) {
    (s.tone, s.text@)
}

pub open spec fn line_view(l: Vec<StyledSpan>) -> Seq<(SpanTone, Seq<char>)> {
    l@.map_values(|s: StyledSpan| span_view(s))
}

pub open spec fn lines_view(ls: Seq<Vec<StyledSpan>>) -> Seq<Seq<(SpanTone, Seq<char>)>> {
    ls.map_values(|l: Vec<StyledSpan>| line_view(l))
}

pub open spec fn one(tone: SpanTone, text: Seq<char>) -> Seq<(SpanTone, Seq<char>)> {
    seq![(tone, text)]
}

pub open spec fn blank_line() -> Seq<(SpanTone, Seq<char>)> {
    one(SpanTone::Plain, Seq::empty())
}

pub open spec fn reasoning_lines(ls: Seq<Seq<char>>) -> Seq<Seq<(SpanTone, Seq<char>)>> {
    ls.map_values(|l: Seq<char>| one(SpanTone::Reasoning, "  · "@ + l))
}

pub open spec fn text_lines(ls: Seq<Seq<char>>) -> Seq<Seq<(SpanTone, Seq<char>)>> {
    ls.map_values(|l: Seq<char>| one(SpanTone::AssistantText, l))
}

pub open spec fn tool_mark(status: ToolStatus) -> Seq<char> {
    match status {
        ToolStatus::Running => "…"@,
        ToolStatus::Succeeded => "✓"@,
        ToolStatus::Failed => "✗"@,
    }
}

pub open spec fn tool_line(name: Seq<char>, brief: Seq<char>, status: ToolStatus) -> Seq<char> {
    if brief.len() == 0 {
        "> "@ + name + "() "@ + tool_mark(status)
    } else {
        "> "@ + name + "("@ + brief + ") "@ + tool_mark(status)
    }
}

pub open spec fn auto_mark(d: AutoDecision) -> Seq<char> {
    match d {
        AutoDecision::Allow => "✓"@,
        AutoDecision::Deny => "✗"@,
        AutoDecision::Route => "?"@,
    }
}

pub open spec fn auto_tone(d: AutoDecision) -> SpanTone {
    match d {
        AutoDecision::Allow => SpanTone::AutoAllow,
        AutoDecision::Deny => SpanTone::AutoDeny,
        AutoDecision::Route => SpanTone::AutoRoute,
    }
}

pub open spec fn auto_action(d: AutoDecision) -> Seq<char> {
    match d {
        AutoDecision::Allow => "自动放行"@,
        AutoDecision::Deny => "自动拒绝"@,
        AutoDecision::Route => "转人工"@,
    }
}

pub open spec fn auto_line(tool: Seq<char>, d: AutoDecision, reason: Option<String>) -> Seq<char> {
    let base = auto_mark(d) + " AutoMode "@ + auto_action(d) + " ["@ + tool + "]"@;
    match reason {
        Some(r) => base + "："@ + r@,
        None => base,
    }
}

/// The lines of one block: a user message with its prompt mark and a blank
/// line; an assistant message's reasoning (marked), its text, `…` while both
/// are empty, and a blank line; one line per tool call, AutoMode verdict and note.
pub open spec fn block_lines(b: ChatBlock) -> Seq<Seq<(SpanTone, Seq<char>)>> {
    match b {
        ChatBlock::User(text) => seq![seq![(SpanTone::UserPrefix, "› "@), (SpanTone::Plain, text@)], blank_line()],
        ChatBlock::Assistant { text, reasoning } =>
            (if reasoning@.len() > 0 { reasoning_lines(lines_spec(reasoning@)) } else { Seq::empty() })
            + text_lines(lines_spec(text@))
            + (if text@.len() == 0 && reasoning@.len() == 0 { seq![one(SpanTone::Hint, "…"@)] } else { Seq::empty() })
            + seq![blank_line()],
        ChatBlock::ToolCall { name, brief, status } =>
            seq![one(if status == ToolStatus::Failed { SpanTone::ToolFailure } else { SpanTone::ToolCall }, tool_line(name@, brief@, status))],
        ChatBlock::AutoJudged { tool, decision, reason } => seq![one(auto_tone(decision), auto_line(tool@, decision, reason))],
        ChatBlock::Note(s) => seq![one(SpanTone::Hint, s@)],
    }
}

pub open spec fn render_spec(blocks: Seq<ChatBlock>) -> Seq<Seq<(SpanTone, Seq<char>)>>
    decreases blocks.len(),
{
    if blocks.len() == 0 {
        Seq::empty()
    } else {
        render_spec(blocks.drop_last()) + block_lines(blocks.last())
    }
}

fn span(tone: SpanTone, text: String) -> (s: StyledSpan)
    ensures
        span_view(s) == (tone, text@),
{
    StyledSpan { tone, text }
}

fn single(tone: SpanTone, text: String) -> (l: Vec<StyledSpan>)
    ensures
        line_view(l) == one(tone, text@),
{
    let mut l: Vec<StyledSpan> = Vec::new();
    l.push(span(tone, text));
    assert(line_view(l) =~= one(tone, l@[0].text@));
    l
}

fn push_line(out: &mut Vec<Vec<StyledSpan>>, l: Vec<StyledSpan>)
    ensures
        lines_view(final(out)@) == lines_view(old(out)@).push(line_view(l)),
{
    let ghost before = out@;
    let ghost lv = line_view(l);
    out.push(l);
    assert(lines_view(out@) =~= lines_view(before).push(lv));
}

fn push_block_lines(out: &mut Vec<Vec<StyledSpan>>, b: &ChatBlock)
    ensures
        lines_view(final(out)@) == lines_view(old(out)@) + block_lines(*b),
{
    let ghost start = lines_view(out@);
    match b {
        ChatBlock::User(text) => {
            let mut l: Vec<StyledSpan> = Vec::new();
            l.push(span(SpanTone::UserPrefix, "› ".to_string()));
            l.push(span(SpanTone::Plain, text.clone()));
            assert(line_view(l) =~= seq![(SpanTone::UserPrefix, "› "@), (SpanTone::Plain, text@)]);
            push_line(out, l);
            push_line(out, single(SpanTone::Plain, String::new()));
            assert(lines_view(out@) =~= start + block_lines(*b));
        },
        ChatBlock::Assistant { text, reasoning } => {
            let ghost mut acc: Seq<Seq<(SpanTone, Seq<char>)>> = Seq::empty();
            if !reasoning.as_str().is_empty() {
                let rl = lines_of(reasoning.as_str());
                let mut i: usize = 0;
                while i < rl.len()
                    invariant
                        i <= rl.len(),
                        strings_view(rl@) == lines_spec(reasoning@),
                        lines_view(out@) == start + reasoning_lines(strings_view(rl@).subrange(0, i as int)),
                    decreases rl.len() - i,
                {
                    let t = concat_str("  · ", rl[i].as_str());
                    push_line(out, single(SpanTone::Reasoning, t));
                    assert(strings_view(rl@)[i as int] == rl@[i as int]@);
                    assert(reasoning_lines(strings_view(rl@).subrange(0, i + 1))
                        =~= reasoning_lines(strings_view(rl@).subrange(0, i as int)).push(one(SpanTone::Reasoning, "  · "@ + rl@[i as int]@)));
                    i += 1;
                }
                assert(strings_view(rl@).subrange(0, rl.len() as int) =~= strings_view(rl@));
                proof {
                    acc = reasoning_lines(lines_spec(reasoning@));
                }
            }
            assert(lines_view(out@) == start + acc);
            let tl = lines_of(text.as_str());
            let ghost mid = lines_view(out@);
            let mut i: usize = 0;
            while i < tl.len()
                invariant
                    i <= tl.len(),
                    strings_view(tl@) == lines_spec(text@),
                    lines_view(out@) == mid + text_lines(strings_view(tl@).subrange(0, i as int)),
                decreases tl.len() - i,
            {
                push_line(out, single(SpanTone::AssistantText, tl[i].clone()));
                assert(strings_view(tl@)[i as int] == tl@[i as int]@);
                assert(text_lines(strings_view(tl@).subrange(0, i + 1))
                    =~= text_lines(strings_view(tl@).subrange(0, i as int)).push(one(SpanTone::AssistantText, tl@[i as int]@)));
                i += 1;
            }
            assert(strings_view(tl@).subrange(0, tl.len() as int) =~= strings_view(tl@));
            let ghost after_text = lines_view(out@);
            if text.as_str().is_empty() && reasoning.as_str().is_empty() {
                push_line(out, single(SpanTone::Hint, "…".to_string()));
                assert(lines_view(out@) =~= after_text + seq![one(SpanTone::Hint, "…"@)]);
            } else {
                assert(lines_view(out@) =~= after_text + Seq::<Seq<(SpanTone, Seq<char>)>>::empty());
            }
            push_line(out, single(SpanTone::Plain, String::new()));
            assert(lines_view(out@) =~= start + block_lines(*b));
        },
        ChatBlock::ToolCall { name, brief, status } => {
            let mark = match status {
                ToolStatus::Running => "…",
                ToolStatus::Succeeded => "✓",
                ToolStatus::Failed => "✗",
            };
            let tone = match status {
                ToolStatus::Failed => SpanTone::ToolFailure,
                _ => SpanTone::ToolCall,
            };
            let a = concat_str("> ", name.as_str());
            let line = if brief.as_str().is_empty() {
                let b2 = concat_str(a.as_str(), "() ");
                concat_str(b2.as_str(), mark)
            } else {
                let b2 = concat_str(a.as_str(), "(");
                let c = concat_str(b2.as_str(), brief.as_str());
                let d = concat_str(c.as_str(), ") ");
                concat_str(d.as_str(), mark)
            };
            push_line(out, single(tone, line));
            assert(lines_view(out@) =~= start + block_lines(*b));
        },
        ChatBlock::AutoJudged { tool, decision, reason } => {
            let mark = match decision {
                AutoDecision::Allow => "✓",
                AutoDecision::Deny => "✗",
                AutoDecision::Route => "?",
            };
            let tone = match decision {
                AutoDecision::Allow => SpanTone::AutoAllow,
                AutoDecision::Deny => SpanTone::AutoDeny,
                AutoDecision::Route => SpanTone::AutoRoute,
            };
            let action = match decision {
                AutoDecision::Allow => "自动放行",
                AutoDecision::Deny => "自动拒绝",
                AutoDecision::Route => "转人工",
            };
            let a = concat_str(mark, " AutoMode ");
            let b2 = concat_str(a.as_str(), action);
            let c = concat_str(b2.as_str(), " [");
            let d = concat_str(c.as_str(), tool.as_str());
            let e = concat_str(d.as_str(), "]");
            let line = match reason {
                Some(r) => {
                    let f = concat_str(e.as_str(), "：");
                    concat_str(f.as_str(), r.as_str())
                },
                None => e,
            };
            push_line(out, single(tone, line));
            assert(lines_view(out@) =~= start + block_lines(*b));
        },
        ChatBlock::Note(s) => {
            push_line(out, single(SpanTone::Hint, s.clone()));
            assert(lines_view(out@) =~= start + block_lines(*b));
        },
    }
}

impl ChatView {
    /// All the chat's lines, block after block.
    pub fn render_lines(&self) -> (lines: Vec<Vec<StyledSpan>>)
        ensures
            lines_view(lines@) == render_spec(self.blocks@),
    {
        let mut out: Vec<Vec<StyledSpan>> = Vec::new();
        let mut i: usize = 0;
        assert(lines_view(out@) =~= render_spec(self.blocks@.subrange(0, 0)));
        while i < self.blocks.len()
            invariant
                i <= self.blocks.len(),
                lines_view(out@) == render_spec(self.blocks@.subrange(0, i as int)),
            decreases self.blocks.len() - i,
        {
            push_block_lines(&mut out, &self.blocks[i]);
            let ghost bs = self.blocks@.subrange(0, i + 1);
            assert(bs.drop_last() =~= self.blocks@.subrange(0, i as int));
            assert(bs.last() == self.blocks@[i as int]);
            i += 1;
        }
        assert(self.blocks@.subrange(0, self.blocks.len() as int) =~= self.blocks@);
        out
    }
}

} // verus!
