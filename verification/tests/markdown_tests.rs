use meta_tui::ansi::{Color, Style, StyledSpan, MOD_BOLD, MOD_DIM, MOD_ITALIC};
use meta_tui::components::Theme;
use meta_tui::markdown::{render, render_events, MdEvent, MdTag, MdTagEnd, MOD_CROSSED_OUT};

fn has_text(lines: &[Vec<StyledSpan>], needle: &str) -> bool {
    lines.iter().any(|line| line.iter().any(|s| s.0.contains(needle)))
}

fn texts(line: &[StyledSpan]) -> Vec<String> {
    line.iter().map(|s| s.0.clone()).collect()
}

fn plain() -> Style {
    Style { fg: None, bg: None, underline_color: None, add_modifier: 0, sub_modifier: 0 }
}

fn fg(c: Color) -> Style {
    Style { fg: Some(c), ..plain() }
}

fn start(t: MdTag) -> MdEvent {
    MdEvent::Start(t)
}

fn end(t: MdTagEnd) -> MdEvent {
    MdEvent::End(t)
}

fn text(s: &str) -> MdEvent {
    MdEvent::Text(s.to_string())
}

#[test]
fn test_plain_text_no_markdown() {
    let theme = Theme::cyan();
    let lines = render("Hello World", &theme);
    assert_eq!(lines.len(), 1);
    assert!(lines[0].iter().any(|s| s.0.contains("Hello")));
}

#[test]
fn test_bold_text() {
    let theme = Theme::cyan();
    let lines = render("Hello **World**!", &theme);
    let has_bold = lines
        .iter()
        .any(|line| line.iter().any(|s| s.1.add_modifier == MOD_BOLD || s.1.add_modifier & MOD_BOLD != 0));
    assert!(
        has_bold || has_text(&lines, "World"),
        "Should render bold text or at minimum preserve the content"
    );
}

#[test]
fn test_inline_code() {
    let theme = Theme::cyan();
    let lines = render("Use `cargo build` to compile", &theme);
    assert!(has_text(&lines, "cargo build"), "Should preserve inline code content");
}

#[test]
fn test_heading() {
    let theme = Theme::cyan();
    let lines = render("# Hello", &theme);
    let has_heading = lines
        .iter()
        .any(|line| line.iter().any(|s| s.0.contains("Hello") && s.1.add_modifier & MOD_BOLD != 0));
    assert!(has_heading, "Heading should be bold");
}

#[test]
fn test_code_block() {
    let theme = Theme::cyan();
    let lines = render("```rust\nfn main() {}\n```", &theme);
    assert!(has_text(&lines, "fn main"), "Code block should contain the code content");
}

#[test]
fn test_blockquote() {
    let theme = Theme::cyan();
    let lines = render("> quoted text", &theme);
    assert!(has_text(&lines, "quoted text"), "Blockquote should contain the quoted text");
}

#[test]
fn test_unordered_list() {
    let theme = Theme::cyan();
    let lines = render("- item one\n- item two", &theme);
    assert!(
        lines.iter().any(|line| line.iter().any(|s| s.0.contains('•'))),
        "Unordered list should have bullet points"
    );
}

#[test]
fn test_empty_input() {
    let theme = Theme::cyan();
    let lines = render("", &theme);
    assert!(lines.is_empty() || lines.iter().all(|l| l.is_empty()));
}

#[test]
fn test_link_renders_text() {
    let theme = Theme::cyan();
    let lines = render("[click here](https://example.com)", &theme);
    assert!(has_text(&lines, "click here"), "Link should show link text");
}

#[test]
fn plain_text_keeps_each_line_unstyled() {
    let theme = Theme::cyan();
    let lines = render("first line\r\nsecond line\n\nlast", &theme);
    assert_eq!(lines.len(), 4);
    assert_eq!(lines[0], vec![("first line".to_string(), plain())]);
    assert_eq!(lines[1], vec![("second line".to_string(), plain())]);
    assert_eq!(lines[2], vec![(String::new(), plain())]);
    assert_eq!(lines[3], vec![("last".to_string(), plain())]);
    assert_eq!(render("one\n", &theme).len(), 1);
}

#[test]
fn paragraph_styles_nest_and_end_with_a_blank_line() {
    let theme = Theme::cyan();
    let lines = render("Hello **bold *both*** done", &theme);
    assert_eq!(lines.len(), 2);
    assert!(lines[1].is_empty());
    let base = fg(theme.text);
    assert_eq!(texts(&lines[0]), vec!["Hello ", "bold ", "both", " done"]);
    assert_eq!(lines[0][0].1, base);
    assert_eq!(lines[0][1].1, Style { add_modifier: MOD_BOLD, ..base });
    assert_eq!(lines[0][2].1, Style { add_modifier: MOD_BOLD | MOD_ITALIC, ..base });
    assert_eq!(lines[0][3].1, base);
}

#[test]
fn heading_is_bold_in_heading_colour() {
    let theme = Theme::cyan();
    let lines = render("## Title\n\ntext", &theme);
    assert_eq!(lines[0], vec![("Title".to_string(), Style { add_modifier: MOD_BOLD, ..fg(theme.heading_color) })]);
    assert!(lines[1].is_empty());
    assert_eq!(lines[2], vec![("text".to_string(), fg(theme.text))]);
}

#[test]
fn inline_code_has_its_background() {
    let theme = Theme::cyan();
    let lines = render("run `ls` now", &theme);
    assert_eq!(lines[0][1], ("ls".to_string(), Style { bg: Some(theme.inline_code_bg), ..fg(theme.text) }));
}

#[test]
fn link_shows_its_text_in_link_colour_without_destination() {
    let theme = Theme::cyan();
    let lines = render("see [docs](https://x.y) here", &theme);
    assert_eq!(texts(&lines[0]), vec!["see ", "docs", " here"]);
    assert_eq!(lines[0][1].1, fg(theme.link_color));
    assert!(!has_text(&lines, "https"));
}

#[test]
fn ordered_list_numbers_items_and_nests() {
    let theme = Theme::cyan();
    let lines = render("3. a\n4. b\n   - c", &theme);
    assert_eq!(texts(&lines[0]), vec!["3. a"]);
    assert_eq!(texts(&lines[1]), vec!["4. b"]);
    assert_eq!(texts(&lines[2]), vec!["  • c"]);
    assert!(lines[3].is_empty());
    assert_eq!(lines.len(), 4);
}

#[test]
fn fenced_code_block_is_framed_with_line_numbers() {
    let theme = Theme::cyan();
    let lines = render("```rust\nlet x = 1;\n```", &theme);
    let border = Style { add_modifier: MOD_DIM, ..fg(theme.code_border) };
    let body = Style { bg: Some(theme.code_bg), ..plain() };
    assert_eq!(lines.len(), 4);
    assert_eq!(lines[0], vec![("┌── rust ──".to_string(), border)]);
    assert_eq!(lines[1], vec![("│ 1 │ let x = 1;\n │".to_string(), body)]);
    assert_eq!(lines[2], vec![(format!("└{}", "─".repeat(19)), border)]);
    assert!(lines[3].is_empty());
}

#[test]
fn rule_and_quote_render_from_events() {
    let theme = Theme::cyan();
    let evs = vec![
        start(MdTag::BlockQuote),
        text("quoted"),
        end(MdTagEnd::Paragraph),
        end(MdTagEnd::BlockQuote),
        MdEvent::Rule,
        start(MdTag::Strikethrough),
        text("gone"),
        end(MdTagEnd::Strikethrough),
        MdEvent::TaskListMarker(true),
    ];
    let lines = render_events(&evs, &theme);
    let quote = Style { add_modifier: MOD_ITALIC, ..fg(theme.blockquote_text) };
    assert_eq!(lines[0], vec![("quoted".to_string(), quote)]);
    assert!(lines[1].is_empty());
    assert!(lines[2].is_empty());
    assert_eq!(lines[3], vec![("─".repeat(40), Style { add_modifier: MOD_DIM, ..fg(theme.text_dim) })]);
    assert!(lines[4].is_empty());
    assert_eq!(
        lines[5],
        vec![
            ("gone".to_string(), Style { add_modifier: MOD_CROSSED_OUT, ..fg(theme.text) }),
            ("[x]".to_string(), fg(theme.text)),
        ]
    );
    assert_eq!(lines.len(), 6);
}

#[test]
fn empty_code_block_has_minimum_width_and_no_rows() {
    let theme = Theme::cyan();
    let evs = vec![start(MdTag::CodeBlock(String::new())), end(MdTagEnd::CodeBlock)];
    let lines = render_events(&evs, &theme);
    assert_eq!(lines.len(), 3);
    assert_eq!(lines[0][0].0, "┌───");
    assert_eq!(texts(&render_events(&vec![start(MdTag::CodeBlock(String::new())), text("ab\n"), text("c\n"), end(MdTagEnd::CodeBlock)], &theme)[1]), vec!["│ 1 │ ab\n │   "]);
    assert_eq!(lines[1][0].0, format!("└{}", "─".repeat(19)));
    assert!(lines[2].is_empty());
}

#[test]
fn markdown_scan_stops_at_a_character_boundary() {
    let text = format!("a{}", "中".repeat(3000));
    assert!(!meta_tui::components::needs_markdown(&text));
    let late = format!("a{}*", "中".repeat(3000));
    assert!(!meta_tui::components::needs_markdown(&late));
    let early = format!("*a{}", "中".repeat(3000));
    assert!(meta_tui::components::needs_markdown(&early));
    let th = meta_tui::components::Theme::cyan();
    assert_eq!(meta_tui::markdown::render(&text, &th).len(), 1);
}
