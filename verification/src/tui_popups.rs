//! The text of the terminal UI's pop-ups, line by line, each line in one style.

use vstd::prelude::*;
use crate::chat_lines::{span_view, SpanTone, StyledSpan};
use crate::protocol::QuestionOption;
use crate::text::{concat_str, decimal, decimal_spec, lines_of, lines_spec, strings_view};
use crate::tui::{labels, QuestionPopupState};

verus! {

pub open spec fn line(tone: SpanTone, text: Seq<char>) -> (SpanTone, Seq<char>) {
    (tone, text)
}

/// The mark in front of an option: ticked or not in multiple choice, none in single.
pub open spec fn mark_spec(multi: bool, picked: Seq<Seq<char>>, label: Seq<char>) -> Seq<char> {
    if multi && picked.contains(label) {
        "[x]"@
    } else if multi {
        "[ ]"@
    } else {
        ""@
    }
}

/// The lines of option `i`: its number, mark and label, then its description
/// when it has one.
pub open spec fn option_rows(s: QuestionPopupState, i: int) -> Seq<(SpanTone, Seq<char>)> {
    let o = s.options@[i];
    let tone = if s.free_input_mode { SpanTone::Hint } else { SpanTone::Plain };
    let head = line(tone, "  ("@ + decimal_spec((i + 1) as nat) + ") "@ + mark_spec(s.multi, labels(s.picked@), o.label@) + " "@ + o.label@);
    if o.description@.len() > 0 {
        seq![head, line(SpanTone::Hint, "      "@ + o.description@)]
    } else {
        seq![head]
    }
}

/// The lines of the first `k` options.
pub open spec fn options_rows(s: QuestionPopupState, k: int) -> Seq<(SpanTone, Seq<char>)>
    decreases k,
{
    if k <= 0 {
        Seq::empty()
    } else {
        options_rows(s, k - 1) + option_rows(s, k - 1)
    }
}

pub open spec fn shown_options(s: QuestionPopupState) -> int {
    if s.options@.len() < 9 { s.options@.len() as int } else { 9 }
}

/// The question pop-up: the question, at most nine options, the typed text and
/// a hint on the keys.
pub open spec fn question_popup_spec(s: QuestionPopupState) -> Seq<(SpanTone, Seq<char>)> {
    seq![line(SpanTone::Title, s.question@), line(SpanTone::Plain, Seq::empty())] + options_rows(s, shown_options(s)) + seq![
        line(SpanTone::Plain, Seq::empty()),
        if s.free_input_mode {
            line(SpanTone::AutoAllow, "[自由输入] "@ + s.input_buffer@ + "_"@)
        } else {
            line(SpanTone::Hint, "[Tab 切到自由输入] "@ + s.input_buffer@)
        },
        line(SpanTone::Plain, Seq::empty()),
        line(SpanTone::Hint, if s.multi {
            "1-9 切换勾选，Enter 提交，Tab 自由输入，Esc 取消"@
        } else {
            "1-9 选项，Enter 提交自由输入，Tab 切换模式，Esc 取消"@
        }),
    ]
}

pub open spec fn spans_view(v: Seq<StyledSpan>) -> Seq<(SpanTone, Seq<char>)> {
    v.map_values(|s: StyledSpan| span_view(s))
}

fn span(tone: SpanTone, text: String) -> (s: StyledSpan)
    ensures
        span_view(s) == line(tone, text@),
{
    StyledSpan { tone, text }
}

fn picked_contains(picked: &Vec<String>, label: &str) -> (b: bool)
    ensures
        b == labels(picked@).contains(label@),
{
    let mut i: usize = 0;
    while i < picked.len()
        invariant
            i <= picked.len(),
            forall|j: int| 0 <= j < i ==> labels(picked@)[j] != label@,
        decreases picked.len() - i,
    {
        let pv = crate::text::chars_of(picked[i].as_str());
        if crate::text::eq_str(&pv, label) {
            assert(labels(picked@)[i as int] == label@);
            return true;
        }
        i += 1;
    }
    proof {
        if labels(picked@).contains(label@) {
            let j = choose|j: int| 0 <= j < labels(picked@).len() && labels(picked@)[j] == label@;
            assert(labels(picked@)[j] != label@);
        }
    }
    false
}

/// The lines of the question pop-up (see `question_popup_spec`).
pub fn question_popup_lines(s: &QuestionPopupState) -> (lines: Vec<StyledSpan>)
    ensures
        spans_view(lines@) == question_popup_spec(*s),
{
    let mut out: Vec<StyledSpan> = Vec::new();
    out.push(span(SpanTone::Title, s.question.clone()));
    out.push(span(SpanTone::Plain, String::new()));
    let n: usize = if s.options.len() < 9 { s.options.len() } else { 9 };
    let ghost head = seq![line(SpanTone::Title, s.question@), line(SpanTone::Plain, Seq::empty())];
    assert(spans_view(out@) =~= head + options_rows(*s, 0));
    let mut i: usize = 0;
    while i < n
        invariant
            i <= n,
            n as int == shown_options(*s),
            n <= s.options.len(),
            head == seq![line(SpanTone::Title, s.question@), line(SpanTone::Plain, Seq::empty())],
            spans_view(out@) == head + options_rows(*s, i as int),
        decreases n - i,
    {
        let o = &s.options[i];
        let num = decimal((i + 1) as u64);
        let mark = if s.multi && picked_contains(&s.picked, o.label.as_str()) {
            "[x]"
        } else if s.multi {
            "[ ]"
        } else {
            ""
        };
        let a = concat_str("  (", num.as_str());
        let b = concat_str(a.as_str(), ") ");
        let c = concat_str(b.as_str(), mark);
        let d = concat_str(c.as_str(), " ");
        let text = concat_str(d.as_str(), o.label.as_str());
        let tone = if s.free_input_mode { SpanTone::Hint } else { SpanTone::Plain };
        let ghost before = spans_view(out@);
        out.push(span(tone, text));
        if !o.description.as_str().is_empty() {
            out.push(span(SpanTone::Hint, concat_str("      ", o.description.as_str())));
        }
        proof {
            assert(spans_view(out@) =~= before + option_rows(*s, i as int));
            assert(options_rows(*s, i + 1) == options_rows(*s, i as int) + option_rows(*s, i as int));
            assert(head + options_rows(*s, i + 1) =~= before + option_rows(*s, i as int));
        }
        i += 1;
    }
    let ghost mid = spans_view(out@);
    out.push(span(SpanTone::Plain, String::new()));
    if s.free_input_mode {
        let a = concat_str("[自由输入] ", s.input_buffer.as_str());
        out.push(span(SpanTone::AutoAllow, concat_str(a.as_str(), "_")));
    } else {
        out.push(span(SpanTone::Hint, concat_str("[Tab 切到自由输入] ", s.input_buffer.as_str())));
    }
    out.push(span(SpanTone::Plain, String::new()));
    let hint = if s.multi {
        "1-9 切换勾选，Enter 提交，Tab 自由输入，Esc 取消"
    } else {
        "1-9 选项，Enter 提交自由输入，Tab 切换模式，Esc 取消"
    };
    out.push(span(SpanTone::Hint, hint.to_string()));
    assert(spans_view(out@) =~= question_popup_spec(*s));
    out
}

/// The approval pop-up's lines: the summary's lines (and a blank line after
/// them when there is a summary), the four choices and the Esc hint.
pub open spec fn permission_popup_spec(summary: Seq<char>) -> Seq<(SpanTone, Seq<char>)> {
    let intro = if summary.len() > 0 {
        lines_spec(summary).map_values(|l: Seq<char>| line(SpanTone::Plain, l)).push(line(SpanTone::Plain, Seq::empty()))
    } else {
        Seq::empty()
    };
    intro + seq![
        line(SpanTone::AutoAllow, "(a) 仅本次允许"@),
        line(SpanTone::AutoAllow, "(b) 本对话不再询问（Session 级）"@),
        line(SpanTone::AutoAllow, "(c) 始终允许（Global 级）"@),
        line(SpanTone::AutoDeny, "(d) 拒绝"@),
        line(SpanTone::Plain, Seq::empty()),
        line(SpanTone::Hint, "Esc 取消（视同拒绝）"@),
    ]
}

/// The lines of the approval pop-up for `summary` (see `permission_popup_spec`).
pub fn permission_popup_lines(summary: &str) -> (lines: Vec<StyledSpan>)
    ensures
        spans_view(lines@) == permission_popup_spec(summary@),
{
    let mut out: Vec<StyledSpan> = Vec::new();
    if !summary.is_empty() {
        let ls = lines_of(summary);
        let ghost lv = strings_view(ls@);
        let mut i: usize = 0;
        while i < ls.len()
            invariant
                i <= ls.len(),
                lv == strings_view(ls@),
                spans_view(out@) == lv.subrange(0, i as int).map_values(|l: Seq<char>| line(SpanTone::Plain, l)),
            decreases ls.len() - i,
        {
            let ghost before = spans_view(out@);
            out.push(span(SpanTone::Plain, ls[i].clone()));
            assert(lv[i as int] == ls@[i as int]@);
            assert(spans_view(out@) =~= before.push(line(SpanTone::Plain, lv[i as int])));
            assert(spans_view(out@) =~= lv.subrange(0, i + 1).map_values(|l: Seq<char>| line(SpanTone::Plain, l)));
            i += 1;
        }
        assert(lv.subrange(0, ls.len() as int) =~= lv);
        out.push(span(SpanTone::Plain, String::new()));
    }
    let ghost intro = spans_view(out@);
    out.push(span(SpanTone::AutoAllow, "(a) 仅本次允许".to_string()));
    out.push(span(SpanTone::AutoAllow, "(b) 本对话不再询问（Session 级）".to_string()));
    out.push(span(SpanTone::AutoAllow, "(c) 始终允许（Global 级）".to_string()));
    out.push(span(SpanTone::AutoDeny, "(d) 拒绝".to_string()));
    out.push(span(SpanTone::Plain, String::new()));
    out.push(span(SpanTone::Hint, "Esc 取消（视同拒绝）".to_string()));
    assert(spans_view(out@) =~= permission_popup_spec(summary@));
    out
}

} // verus!
