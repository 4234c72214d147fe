use hebbian::css_rules::{format_matched_rules, CssProperty, CssRule, MatchedStyles};

fn s(x: &str) -> Option<String> {
    Some(x.to_string())
}

#[test]
fn matched_rules_formats_and_skips_ua() {
    let result = MatchedStyles {
        rules: vec![
            Some(CssRule { origin: s("user-agent"), selector: s("div"), properties: vec![] }),
            Some(CssRule {
                origin: s("regular"),
                selector: s(".btn"),
                properties: vec![
                    CssProperty { name: s("color"), value: s("red"), has_text: true },
                    CssProperty { name: s("color"), value: s("rgb(255,0,0)"), has_text: false },
                ],
            }),
        ],
        inline_css: s("font-size: 12px;"),
    };
    let s = format_matched_rules(&result, ".btn");
    assert!(s.contains(".btn { color: red }"), "实际: {s}");
    assert!(!s.contains("div"), "UA 规则应被过滤: {s}");
    assert!(s.contains("[inline style]"));
}

#[test]
fn matched_rules_exact_layout() {
    let result = MatchedStyles {
        rules: vec![
            None,
            Some(CssRule {
                origin: None,
                selector: None,
                properties: vec![
                    CssProperty { name: s("a"), value: s("1"), has_text: true },
                    CssProperty { name: s("b"), value: s("2"), has_text: true },
                ],
            }),
        ],
        inline_css: s("   "),
    };
    assert_eq!(
        format_matched_rules(&result, "p"),
        "元素 p 的生效 CSS 规则（后列的优先级更高）：\n  ? { a: 1; b: 2 }"
    );
}

#[test]
fn matched_rules_nothing_matched() {
    let result = MatchedStyles { rules: vec![], inline_css: None };
    assert_eq!(
        format_matched_rules(&result, "#x"),
        "元素 #x 的生效 CSS 规则（后列的优先级更高）：\n  （没有项目级规则命中，样式可能全部来自继承或 UA 默认）"
    );
}
