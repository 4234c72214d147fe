//! The CSS rules that match an element in the preview, as the inspector tools
//! report them to the model: one line per project rule, user-agent defaults
//! left out, the inline style last.

use vstd::prelude::*;
use crate::text::{chars_of, concat_str, eq_str, join, join_spec, strings_view, trim, trim_spec};

verus! {

/// One declared property of a rule. `has_text` is set when the page's own
/// source declares it (expanded longhands have no source text).
#[derive(Debug)]
pub struct CssProperty {
    pub name: Option<String>,
    pub value: Option<String>,
    pub has_text: bool,
}

/// One matched rule: where it comes from, its selector list and properties.
#[derive(Debug)]
pub struct CssRule {
    pub origin: Option<String>,
    pub selector: Option<String>,
    pub properties: Vec<CssProperty>,
}

/// What the browser reports for one element: the matched entries (`None`
/// for an entry without a rule) and the inline style text.
#[derive(Debug)]
pub struct MatchedStyles {
    pub rules: Vec<Option<CssRule>>,
    pub inline_css: Option<String>,
}

/// `name: value` of a source-declared property whose name and value are known.
pub open spec fn decl_spec(p: CssProperty) -> Option<Seq<char>> {
    if p.has_text && p.name is Some && p.value is Some {
        Some(p.name->0@ + ": "@ + p.value->0@)
    } else {
        None
    }
}

pub open spec fn decls_spec(ps: Seq<CssProperty>) -> Seq<Seq<char>>
    decreases ps.len(),
{
    if ps.len() == 0 {
        Seq::empty()
    } else {
        let d = decls_spec(ps.drop_last());
        match decl_spec(ps.last()) {
            Some(x) => d.push(x),
            None => d,
        }
    }
}

pub open spec fn is_user_agent(origin: Option<String>) -> bool {
    origin is Some && origin->0@ == "user-agent"@
}

pub open spec fn selector_text(sel: Option<String>) -> Seq<char> {
    match sel {
        Some(s) => s@,
        None => "?"@,
    }
}

/// `  selector { a: 1; b: 2 }`
pub open spec fn rule_line(r: CssRule) -> Seq<char> {
    "  "@ + selector_text(r.selector) + " { "@ + join_spec(decls_spec(r.properties@), "; "@) + " }"@
}

/// The lines of the entries that carry a rule not from the user agent.
pub open spec fn rule_lines(rs: Seq<Option<CssRule>>) -> Seq<Seq<char>>
    decreases rs.len(),
{
    if rs.len() == 0 {
        Seq::empty()
    } else {
        let prev = rule_lines(rs.drop_last());
        match rs.last() {
            Some(r) => if is_user_agent(r.origin) { prev } else { prev.push(rule_line(r)) },
            None => prev,
        }
    }
}

pub open spec fn header_line(selector: Seq<char>) -> Seq<char> {
    "元素 "@ + selector + " 的生效 CSS 规则（后列的优先级更高）："@
}

pub open spec fn inline_lines(inline: Option<String>) -> Seq<Seq<char>> {
    match inline {
        Some(s) => if trim_spec(s@).len() > 0 {
            seq!["  [inline style] { "@ + trim_spec(s@) + " }"@]
        } else {
            Seq::empty()
        },
        None => Seq::empty(),
    }
}

pub open spec fn no_rules_line() -> Seq<char> {
    "  （没有项目级规则命中，样式可能全部来自继承或 UA 默认）"@
}

pub open spec fn matched_lines(m: MatchedStyles, selector: Seq<char>) -> Seq<Seq<char>> {
    let base = seq![header_line(selector)] + rule_lines(m.rules@) + inline_lines(m.inline_css);
    if base.len() == 1 { base.push(no_rules_line()) } else { base }
}

/// The report on the rules matching `selector`, its lines joined by newlines.
pub open spec fn format_matched_spec(m: MatchedStyles, selector: Seq<char>) -> Seq<char> {
    join_spec(matched_lines(m, selector), "\n"@)
}

fn decl_text(p: &CssProperty) -> (r: Option<String>)
    ensures
        match r {
            Some(s) => decl_spec(*p) == Some(s@),
            None => decl_spec(*p) is None,
        },
{
    if !p.has_text {
        return None;
    }
    match (&p.name, &p.value) {
        (Some(n), Some(v)) => {
            let a = concat_str(n.as_str(), ": ");
            Some(concat_str(a.as_str(), v.as_str()))
        },
        _ => None,
    }
}

fn rule_text(r: &CssRule) -> (s: String)
    ensures
        s@ == rule_line(*r),
{
    let mut decls: Vec<String> = Vec::new();
    let mut i: usize = 0;
    while i < r.properties.len()
        invariant
            i <= r.properties.len(),
            strings_view(decls@) == decls_spec(r.properties@.subrange(0, i as int)),
        decreases r.properties.len() - i,
    {
        let d = decl_text(&r.properties[i]);
        proof {
            let ps = r.properties@.subrange(0, i + 1);
            assert(ps.drop_last() =~= r.properties@.subrange(0, i as int));
            assert(ps.last() == r.properties@[i as int]);
        }
        match d {
            Some(x) => {
                let ghost before = decls@;
                decls.push(x);
                proof {
                    assert(strings_view(decls@) =~= strings_view(before).push(decls@.last()@));
                }
            },
            None => {},
        }
        i += 1;
    }
    assert(r.properties@.subrange(0, r.properties.len() as int) =~= r.properties@);
    let body = join(&decls, "; ");
    let sel = match &r.selector {
        Some(s) => s.clone(),
        None => "?".to_string(),
    };
    let a = concat_str("  ", sel.as_str());
    let b = concat_str(a.as_str(), " { ");
    let c = concat_str(b.as_str(), body.as_str());
    concat_str(c.as_str(), " }")
}

fn origin_is_user_agent(origin: &Option<String>) -> (b: bool)
    ensures
        b == is_user_agent(*origin),
{
    match origin {
        Some(o) => {
            let ov = chars_of(o.as_str());
            eq_str(&ov, "user-agent")
        },
        None => false,
    }
}

/// Formats the matched rules of the element `selector` for the model: a
/// header, one line per project rule (later lines take precedence), the inline
/// style when it is not blank, and a note when nothing matched.
pub fn format_matched_rules(result: &MatchedStyles, selector: &str) -> (s: String)
    ensures
        s@ == format_matched_spec(*result, selector@),
{
    let h1 = concat_str("元素 ", selector);
    let header = concat_str(h1.as_str(), " 的生效 CSS 规则（后列的优先级更高）：");
    let mut out: Vec<String> = Vec::new();
    out.push(header);
    assert(strings_view(out@) =~= seq![header_line(selector@)]);
    let mut i: usize = 0;
    while i < result.rules.len()
        invariant
            i <= result.rules.len(),
            strings_view(out@) == seq![header_line(selector@)] + rule_lines(result.rules@.subrange(0, i as int)),
        decreases result.rules.len() - i,
    {
        proof {
            let rs = result.rules@.subrange(0, i + 1);
            assert(rs.drop_last() =~= result.rules@.subrange(0, i as int));
            assert(rs.last() == result.rules@[i as int]);
        }
        match &result.rules[i] {
            Some(rule) => {
                if !origin_is_user_agent(&rule.origin) {
                    let line = rule_text(rule);
                    let ghost before = out@;
                    out.push(line);
                    proof {
                        assert(strings_view(out@) =~= strings_view(before).push(out@.last()@));
                    }
                }
            },
            None => {},
        }
        i += 1;
    }
    assert(result.rules@.subrange(0, result.rules.len() as int) =~= result.rules@);
    match &result.inline_css {
        Some(css) => {
            let t = trim(css.as_str());
            if !t.as_str().is_empty() {
                let a = concat_str("  [inline style] { ", t.as_str());
                let line = concat_str(a.as_str(), " }");
                let ghost before = out@;
                out.push(line);
                proof {
                    assert(strings_view(out@) =~= strings_view(before).push(out@.last()@));
                }
            } else {
                assert(seq![header_line(selector@)] + rule_lines(result.rules@) + inline_lines(result.inline_css)
                    =~= seq![header_line(selector@)] + rule_lines(result.rules@));
            }
        },
        None => {
            assert(seq![header_line(selector@)] + rule_lines(result.rules@) + inline_lines(result.inline_css)
                =~= seq![header_line(selector@)] + rule_lines(result.rules@));
        },
    }
    assert(strings_view(out@) =~= seq![header_line(selector@)] + rule_lines(result.rules@) + inline_lines(result.inline_css));
    if out.len() == 1 {
        let ghost before = out@;
        out.push("  （没有项目级规则命中，样式可能全部来自继承或 UA 默认）".to_string());
        proof {
            assert(strings_view(out@) =~= strings_view(before).push(out@.last()@));
        }
    }
    join(&out, "\n")
}

} // verus!
