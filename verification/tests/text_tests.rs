use meta_tui::ansi::{apply_sgr, parse_ansi_spans, Color, Style, MOD_BOLD, MOD_DIM};
use meta_tui::strip_ansi;

#[test]
fn test_strip_ansi_colors() {
    let input = "\u{1b}[38;2;138;190;183mThinking:\u{1b}[39m hello";
    let output = strip_ansi(input);
    assert_eq!(output, "Thinking: hello");
}

#[test]
fn test_strip_ansi_bold() {
    let input = "\u{1b}[1mbold\u{1b}[0m text";
    let output = strip_ansi(input);
    assert_eq!(output, "bold text");
}

#[test]
fn test_strip_no_ansi() {
    let input = "plain text";
    let output = strip_ansi(input);
    assert_eq!(output, "plain text");
}

#[test]
fn test_strip_incomplete_escape() {
    let input = "text \u{1b} after";
    let output = strip_ansi(input);
    assert_eq!(output, "text  after");
}

fn white() -> Style {
    Style { fg: Some(Color::White), ..Style::default() }
}

#[test]
fn test_parse_ansi_truecolor() {
    let input = "\u{1b}[38;2;138;190;183mThinking:\u{1b}[39m hello";
    let base = white();
    let spans = parse_ansi_spans(input, base);
    assert_eq!(spans.len(), 2, "should have 2 spans");
    assert_eq!(spans[0].0, "Thinking:");
    let expected_fg = Color::Rgb(138, 190, 183);
    assert_eq!(spans[0].1.fg, Some(expected_fg));
    assert!(spans[0].1.add_modifier & MOD_DIM != 0);
    assert_eq!(spans[1].0, " hello");
    assert_eq!(spans[1].1.fg, Some(Color::White));
}

#[test]
fn test_parse_ansi_reset() {
    let input = "\u{1b}[1;31merror\u{1b}[0m ok";
    let base = white();
    let spans = parse_ansi_spans(input, base);
    assert_eq!(spans.len(), 2);
    assert_eq!(spans[0].0, "error");
    assert_eq!(spans[1].0, " ok");
    assert_eq!(spans[1].1.fg, Some(Color::White));
}

#[test]
fn test_parse_no_ansi() {
    let input = "plain text";
    let base = white();
    let spans = parse_ansi_spans(input, base);
    assert_eq!(spans.len(), 1);
    assert_eq!(spans[0].0, "plain text");
    assert_eq!(spans[0].1.fg, Some(Color::White));
}

#[test]
fn sgr_codes_set_colours_and_modifiers() {
    let base = white();
    let st = apply_sgr("1;31", base, base);
    assert_eq!(st.fg, Some(Color::Red));
    assert_eq!(st.add_modifier, MOD_BOLD | MOD_DIM);
    let st = apply_sgr("38;5;196", base, base);
    // 196 - 16 = 180: r = 5 * 51, g = 0, b = 0
    assert_eq!(st.fg, Some(Color::Rgb(255, 0, 0)));
    let st = apply_sgr("48;5;232", base, base);
    assert_eq!(st.bg, Some(Color::Rgb(8, 8, 8)));
    let st = apply_sgr("44;97", base, base);
    assert_eq!(st.bg, Some(Color::Blue));
    assert_eq!(st.fg, Some(Color::White));
    let st = apply_sgr("49", base, base);
    assert_eq!(st.bg, Some(Color::Reset));
    let st = apply_sgr("x;300;4", base, base);
    assert_eq!(st.add_modifier, 0x0008 | MOD_DIM);
}

#[test]
fn span_without_m_terminator_keeps_the_terminator_as_text() {
    let spans = parse_ansi_spans("a\u{1b}[2Kb", white());
    assert_eq!(spans.len(), 2);
    assert_eq!(spans[0].0, "a");
    assert_eq!(spans[1].0, "Kb");
}
