use meta_tui::ansi::{Color, Style, StyledSpan, MOD_BOLD, MOD_DIM};
use meta_tui::components::Theme;
use meta_tui::main_view::MainView;
use meta_tui::message::{ChatMessage, ContentBlock, ToolCallInfo, ToolStatus};
use meta_tui::message_lines::{
    format_args_summary, message_lines_with, render_message, tool_texts, ToolTexts,
};
use meta_tui::state::MainViewSubsection;

fn plain() -> Style {
    Style { fg: None, bg: None, underline_color: None, add_modifier: 0, sub_modifier: 0 }
}

fn fg(c: Color) -> Style {
    Style { fg: Some(c), ..plain() }
}

fn json(text: &str) -> meta_tui::history::Json {
    meta_tui::history::parse_json_line(text).unwrap()
}

fn texts(lines: &[Vec<StyledSpan>]) -> Vec<String> {
    lines.iter().map(|l| l.iter().map(|s| s.0.as_str()).collect::<String>()).collect()
}

fn tool_block(args: &str, result: Option<&str>, is_error: bool) -> ContentBlock {
    ContentBlock::ToolCall {
        id: "t1".into(),
        name: "bash".into(),
        arguments: json(args),
        result: result.map(json),
        is_error,
    }
}

#[test]
fn user_message_has_title_rule_text_and_blank_line() {
    let theme = Theme::cyan();
    let mut mv = MainView::default();
    mv.add_user_message("a", "Hello World");
    let lines = render_message(&mv.messages[0], &theme, &mv, 0);
    assert_eq!(lines.len(), 4);
    assert_eq!(lines[0], vec![(" 你 ".to_string(), Style { add_modifier: MOD_BOLD, ..fg(theme.accent) })]);
    assert_eq!(lines[1], vec![(" ─".to_string(), fg(theme.text_dim))]);
    assert_eq!(lines[2], vec![(" ".to_string(), plain()), ("Hello World".to_string(), plain())]);
    assert!(lines[3].is_empty());
}

#[test]
fn reply_blocks_fold_and_unfold_with_the_cursor() {
    let theme = Theme::cyan();
    let mut mv = MainView::default();
    let mut msg = ChatMessage::assistant("a", "");
    msg.content = vec![
        ContentBlock::Thinking { thinking: "分析中...".to_string() },
        ContentBlock::Text { text: "这是回复".to_string() },
    ];
    let id = msg.id.clone();
    mv.messages.push(msg);
    let lines = render_message(&mv.messages[0], &theme, &mv, 0);
    assert_eq!(texts(&lines), vec![" pi ", " ─", " ▶ [思考] 6 字 — 分析中...", " 这是回复", ""]);
    assert_eq!(lines[2][0].1, fg(theme.text_dim));

    mv.has_focus = true;
    mv.subsection = MainViewSubsection::Messages;
    mv.block_cursor = 0;
    mv.toggle_block(&id, 0);
    let lines = render_message(&mv.messages[0], &theme, &mv, 0);
    assert_eq!(texts(&lines), vec![" pi ", " ─", " ▼ [思考] 6 字", "   分析中...", " 这是回复", ""]);
    let hl = theme.highlight_bg;
    assert_eq!(lines[2][0].1, Style { bg: Some(hl), ..fg(theme.text_dim) });
    assert_eq!(
        lines[3],
        vec![
            ("   ".to_string(), Style { bg: Some(hl), add_modifier: MOD_DIM, ..fg(theme.text_dim) }),
            ("分析中...".to_string(), Style { bg: Some(hl), add_modifier: MOD_DIM, ..fg(theme.text_dim) }),
        ]
    );
    let other = render_message(&mv.messages[0], &theme, &mv, 1);
    assert_eq!(other[2][0].1, fg(theme.text_dim));
}

#[test]
fn reply_without_blocks_previews_its_reasoning() {
    let theme = Theme::cyan();
    let mv = MainView::default();
    let mut msg = ChatMessage::assistant("a", "answer");
    msg.thinking = Some("one\ntwo\nthree\nfour".to_string());
    let lines = render_message(&msg, &theme, &mv, 0);
    assert_eq!(texts(&lines), vec![" pi ", " ─", " [思考] one\ntwo\nthree", " answer", ""]);
    assert_eq!(lines[2][0].1, Style { add_modifier: MOD_DIM, ..fg(theme.text_dim) });
}

#[test]
fn tool_call_block_shows_summary_then_details() {
    let theme = Theme::cyan();
    let mut mv = MainView::default();
    let mut msg = ChatMessage::assistant("a", "");
    msg.content = vec![tool_block(
        "{\"timeout\":5,\"command\":\"ls\",\"cwd\":\"/\",\"env\":{}}",
        Some("{\"content\":\"out\\nmore\\nx\\ny\"}"),
        false,
    )];
    let id = msg.id.clone();
    mv.messages.push(msg);
    let lines = render_message(&mv.messages[0], &theme, &mv, 0);
    assert_eq!(texts(&lines), vec![" pi ", " ─", " ✓ bash (command, cwd, env, …) ", ""]);
    mv.toggle_block(&id, 0);
    let lines = render_message(&mv.messages[0], &theme, &mv, 0);
    assert_eq!(
        texts(&lines),
        vec![
            " pi ",
            " ─",
            " ✓ bash ",
            "   {",
            "     \"command\": \"ls\",",
            "     \"cwd\": \"/\",",
            "     \"env\": {},",
            "     \"timeout\": 5",
            "   ---",
            "   out",
            "   more",
            "   x",
            "",
        ]
    );
}

#[test]
fn failed_and_running_tool_calls() {
    let theme = Theme::cyan();
    let mv = MainView::default();
    let mut msg = ChatMessage::assistant("a", "");
    msg.content = vec![tool_block("{}", None, false), tool_block("[1]", Some("{}"), true)];
    let lines = render_message(&msg, &theme, &mv, 0);
    assert_eq!(texts(&lines), vec![" pi ", " ─", " ▶ bash  ", " ✗ bash  (出错)", ""]);
}

#[test]
fn tool_system_and_error_messages() {
    let theme = Theme::cyan();
    let mv = MainView::default();
    let info = ToolCallInfo {
        tool_name: "bash".into(),
        tool_call_id: "test-1".into(),
        status: ToolStatus::Done,
        args: json("{\"command\":\"ls\"}"),
        result: Some(json("{\"output\":\"file1.txt\"}")),
        detail_text: String::new(),
    };
    let tool = ChatMessage::tool("a", info);
    assert_eq!(texts(&render_message(&tool, &theme, &mv, 0)), vec![" ✓ bash  "]);
    let sys = ChatMessage::system("a", "ready");
    assert_eq!(texts(&render_message(&sys, &theme, &mv, 0)), vec![" ready", ""]);
    let err = ChatMessage::error("a", "boom");
    assert_eq!(texts(&render_message(&err, &theme, &mv, 0)), vec![" ⚠ boom", ""]);
}

#[test]
fn argument_summaries() {
    assert_eq!(format_args_summary(&None), "");
    assert_eq!(format_args_summary(&Some(vec![])), "");
    assert_eq!(format_args_summary(&Some(vec!["a".into(), "b".into()])), "(a, b)");
    assert_eq!(
        format_args_summary(&Some(vec!["a".into(), "b".into(), "c".into(), "d".into()])),
        "(a, b, c, …)"
    );
    let tx = tool_texts(&json("\"text\""), &None);
    assert_eq!(tx.summary, "");
    assert!(tx.content.is_none());
    let tx = tool_texts(&json("{\"b\":1,\"a\":2}"), &Some(json("{\"content\":\"done\"}")));
    assert_eq!(tx.summary, "(a, b)");
    assert_eq!(tx.pretty.as_deref(), Some("{\n  \"a\": 2,\n  \"b\": 1\n}"));
    assert_eq!(tx.content.as_deref(), Some("done"));
    let tx = tool_texts(&json("{\"n\":1.5,\"m\":-3}"), &Some(json("{\"content\":7}")));
    assert_eq!(tx.pretty.as_deref(), Some("{\n  \"m\": -3,\n  \"n\": 1.5\n}"));
    assert!(tx.content.is_none());
}

#[test]
fn lines_follow_given_tool_texts() {
    let theme = Theme::cyan();
    let mv = MainView::default();
    let mut msg = ChatMessage::assistant("a", "");
    msg.content = vec![tool_block("{}", None, false)];
    let txs = vec![ToolTexts { summary: "(x)".into(), pretty: None, content: None }];
    let lines = message_lines_with(&msg, &mv.block_states, Some(0), &txs, &theme);
    assert_eq!(texts(&lines), vec![" pi ", " ─", " ▶ bash (x) ", ""]);
    assert_eq!(lines[2][0].1, Style { bg: Some(theme.highlight_bg), ..fg(theme.text_dim) });
}
