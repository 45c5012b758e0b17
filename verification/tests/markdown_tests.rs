use rsstui::markdown::{html_to_markdown, htmd_accepts, render_event_list, render_markdown, split_lines, MdEvent, MdTag};
use rsstui::style::{Color, Modifier, Style, Text};

fn rows(t: &Text) -> Vec<Vec<(String, Style)>> {
    t.lines
        .iter()
        .map(|l| l.spans.iter().map(|s| (s.content.clone(), s.style)).collect())
        .collect()
}

fn plain() -> Style {
    Style::new()
}

fn fg(c: Color) -> Style {
    Style::new().fg(c)
}

fn rule() -> Vec<(String, Style)> {
    vec![("\u{2500}".repeat(40), fg(Color::DarkGray))]
}

fn s(t: &str, st: Style) -> (String, Style) {
    (t.to_string(), st)
}

#[test]
fn paragraph_with_emphasis() {
    let t = render_markdown("Hello *world*");
    assert_eq!(
        rows(&t),
        vec![vec![s("Hello ", plain()), s("world", plain().add_modifier(Modifier::Italic))], vec![]]
    );
}

#[test]
fn strong_strikethrough_link_and_inline_code() {
    let t = render_markdown("**b** ~~s~~ [l](http://x) `c`");
    assert_eq!(
        rows(&t),
        vec![
            vec![
                s("b", plain().add_modifier(Modifier::Bold)),
                s(" ", plain()),
                s("s", plain().add_modifier(Modifier::CrossedOut)),
                s(" ", plain()),
                s("l", fg(Color::Cyan).add_modifier(Modifier::Underlined)),
                s(" ", plain()),
                s("c", fg(Color::Green)),
            ],
            vec![],
        ]
    );
}

#[test]
fn headings_have_level_styles() {
    let bold = plain().add_modifier(Modifier::Bold);
    assert_eq!(rows(&render_markdown("# T")), vec![vec![], vec![s("T", bold.fg(Color::Cyan))], vec![]]);
    assert_eq!(rows(&render_markdown("## T")), vec![vec![], vec![s("T", bold.fg(Color::Blue))], vec![]]);
    assert_eq!(rows(&render_markdown("### T")), vec![vec![], vec![s("T", bold.fg(Color::Green))], vec![]]);
    assert_eq!(rows(&render_markdown("#### T")), vec![vec![], vec![s("T", bold)], vec![]]);
}

#[test]
fn bulleted_and_numbered_lists() {
    let y = fg(Color::Yellow);
    assert_eq!(
        rows(&render_markdown("- a\n- b")),
        vec![vec![s("\u{2022} ", y), s("a", plain())], vec![s("\u{2022} ", y), s("b", plain())], vec![]]
    );
    assert_eq!(
        rows(&render_markdown("3. x\n4. y")),
        vec![vec![s("3. ", y), s("x", plain())], vec![s("4. ", y), s("y", plain())], vec![]]
    );
}

#[test]
fn code_block_is_framed_by_rules() {
    let g = fg(Color::Green);
    assert_eq!(
        rows(&render_markdown("```\nfoo\nbar\n```")),
        vec![vec![], rule(), vec![s("foo", g)], vec![s("bar", g)], vec![], rule(), vec![]]
    );
}

#[test]
fn image_is_a_placeholder() {
    assert_eq!(
        rows(&render_markdown("![alt text](x.png)")),
        vec![vec![s("[image]", fg(Color::DarkGray))], vec![]]
    );
}

#[test]
fn block_quote_has_gutter() {
    let q = fg(Color::DarkGray).add_modifier(Modifier::Italic);
    assert_eq!(
        rows(&render_markdown("> q")),
        vec![vec![s("| ", fg(Color::DarkGray)), s("q", q)], vec![], vec![], vec![]]
    );
}

#[test]
fn horizontal_rule_and_soft_break() {
    assert_eq!(rows(&render_markdown("---")), vec![vec![], rule(), vec![]]);
    assert_eq!(rows(&render_markdown("a\nb")), vec![vec![s("a", plain()), s(" ", plain()), s("b", plain())], vec![]]);
}

#[test]
fn empty_document_renders_nothing() {
    assert!(render_markdown("").lines.is_empty());
}

#[test]
fn trailing_spans_form_a_last_line() {
    let evs = vec![MdEvent::Text("x".to_string())];
    assert_eq!(rows(&render_event_list(&evs)), vec![vec![s("x", plain())]]);
}

#[test]
fn plain_paragraph_events() {
    let evs = vec![
        MdEvent::Start(MdTag::Paragraph),
        MdEvent::Text("words".to_string()),
        MdEvent::End(MdTag::Paragraph),
    ];
    assert_eq!(rows(&render_event_list(&evs)), vec![vec![s("words", plain())], vec![]]);
}

#[test]
fn ordered_list_events_number_from_start() {
    let evs = vec![
        MdEvent::Start(MdTag::List(Some(9))),
        MdEvent::Start(MdTag::Item),
        MdEvent::Text("a".to_string()),
        MdEvent::End(MdTag::Item),
        MdEvent::Start(MdTag::Item),
        MdEvent::Text("b".to_string()),
        MdEvent::End(MdTag::Item),
        MdEvent::End(MdTag::List(Some(9))),
    ];
    let y = fg(Color::Yellow);
    assert_eq!(
        rows(&render_event_list(&evs)),
        vec![vec![s("9. ", y), s("a", plain())], vec![s("10. ", y), s("b", plain())], vec![]]
    );
}

#[test]
fn nested_list_items_are_indented() {
    let evs = vec![
        MdEvent::Start(MdTag::List(None)),
        MdEvent::Start(MdTag::List(Some(1))),
        MdEvent::Start(MdTag::Item),
        MdEvent::Text("x".to_string()),
        MdEvent::End(MdTag::Item),
        MdEvent::End(MdTag::List(Some(1))),
        MdEvent::End(MdTag::List(None)),
    ];
    let y = fg(Color::Yellow);
    assert_eq!(rows(&render_event_list(&evs)), vec![vec![s("  1. ", y), s("x", plain())], vec![]]);
}

#[test]
fn text_inside_code_block_events_splits_lines() {
    let evs = vec![
        MdEvent::Start(MdTag::CodeBlock),
        MdEvent::Text("a\r\nb".to_string()),
        MdEvent::End(MdTag::CodeBlock),
    ];
    let g = fg(Color::Green);
    assert_eq!(
        rows(&render_event_list(&evs)),
        vec![vec![], rule(), vec![s("a", g)], vec![s("b", g)], rule(), vec![]]
    );
}

#[test]
fn unbalanced_closers_do_not_fail() {
    let evs = vec![
        MdEvent::End(MdTag::Strong),
        MdEvent::End(MdTag::Strong),
        MdEvent::End(MdTag::List(None)),
        MdEvent::Text("t".to_string()),
    ];
    assert_eq!(rows(&render_event_list(&evs)), vec![vec![], vec![s("t", plain())]]);
}

#[test]
fn html_is_converted_to_markdown() {
    assert_eq!(html_to_markdown("<h1>Hello</h1>"), "# Hello");
    assert_eq!(html_to_markdown("plain words"), "plain words");
}

#[test]
fn split_lines_behaves_like_str_lines() {
    for input in ["", "a", "a\n", "a\nb", "a\r\nb\r\n", "\n\n", "x\r"] {
        let expected: Vec<String> = input.lines().map(|l| l.to_string()).collect();
        assert_eq!(split_lines(input), expected, "input {:?}", input);
    }
}

#[test]
fn nested_bullet_starts_its_own_line() {
    let t = render_markdown("- a\n  - b");
    let y = fg(Color::Yellow);
    let r = rows(&t);
    assert_eq!(r[0], vec![s("\u{2022} ", y), s("a", plain())]);
    assert_eq!(r[1], vec![s("  \u{2022} ", y), s("b", plain())]);
    assert!(r[2..].iter().all(|l| l.is_empty()));
}

#[test]
fn nested_item_events_flush_the_open_line() {
    let evs = vec![
        MdEvent::Start(MdTag::List(None)),
        MdEvent::Start(MdTag::Item),
        MdEvent::Text("a".to_string()),
        MdEvent::Start(MdTag::List(None)),
        MdEvent::Start(MdTag::Item),
        MdEvent::Text("b".to_string()),
        MdEvent::End(MdTag::Item),
        MdEvent::End(MdTag::List(None)),
        MdEvent::End(MdTag::Item),
        MdEvent::End(MdTag::List(None)),
    ];
    let y = fg(Color::Yellow);
    assert_eq!(
        rows(&render_event_list(&evs)),
        vec![
            vec![s("\u{2022} ", y), s("a", plain())],
            vec![s("  \u{2022} ", y), s("b", plain())],
            vec![],
            vec![],
        ]
    );
}

#[test]
fn huge_list_start_is_left_as_html() {
    let html = "<ol start=\"18446744073709551615\"><li>a</li><li>b</li></ol>";
    assert!(!htmd_accepts(html));
    assert_eq!(html_to_markdown(html), html);
    let spaced = "<ol START = 4294967295><li>a</li></ol>";
    assert!(!htmd_accepts(spaced));
    assert_eq!(html_to_markdown(spaced), spaced);
}

#[test]
fn small_list_start_is_converted() {
    let html = "<ol start=\"3\"><li>a</li><li>b</li></ol>";
    assert!(htmd_accepts(html));
    let md = html_to_markdown(html);
    assert_eq!(md, "3.  a\n4.  b");
    // A long number is fine where no list start is given.
    assert!(htmd_accepts("<p>id 123456789012345 &amp; more, start here</p>"));
}

#[test]
fn entities_and_start_words_outside_list_starts_are_converted() {
    let html = "<ol start=\"2\"><li>a &amp; b</li></ol>";
    assert!(htmd_accepts(html));
    assert_eq!(html_to_markdown(html), "2.  a & b");
    let link = "<p><a href=\"http://x/?start=10&amp;n=12345678901\">watch</a></p>";
    assert!(htmd_accepts(link));
    assert_ne!(html_to_markdown(link), link);
    assert!(!htmd_accepts("<OL start='&#57;&#57;'><li>a</li></OL>"));
}
