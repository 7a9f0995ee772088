use meta_tui::main_view::{
    block_key, compute_diff_lines, count_lines, diff_lines_of, tool_detail, tool_entered_view, BlockStates,
    MainView, ToolDetail,
};
use meta_tui::message::{BlockExpanded, ChatMessage, ContentBlock, EnteredView, ToolCallInfo, ToolStatus};

fn json(text: &str) -> meta_tui::history::Json {
    meta_tui::history::parse_json_line(text).unwrap()
}

#[test]
fn test_empty_state() {
    let mv = MainView::default();
    assert!(mv.messages.is_empty());
    assert_eq!(mv.input_buffer, "");
}

#[test]
fn test_add_user_message() {
    let mut mv = MainView::default();
    mv.add_user_message("test", "Hello");
    assert_eq!(mv.messages.len(), 1);
    assert_eq!(mv.messages[0].text, "Hello");
}

#[test]
fn test_user_input_buffer() {
    let mut mv = MainView::default();
    mv.input_buffer = "show me files".to_string();
    assert_eq!(mv.input_buffer, "show me files");
}

#[test]
fn test_compute_diff_lines() {
    let old = "line1\nline2\nline3\n";
    let new = "line1\nline2_changed\nline3\nline4\n";
    let lines = compute_diff_lines(old, new);
    assert!(lines.iter().any(|l| l.kind == '-'), "should have deleted lines");
    assert!(lines.iter().any(|l| l.kind == '+'), "should have added lines");
    assert!(lines.iter().any(|l| l.kind == ' '), "should have unchanged lines");
}

#[test]
fn diff_lines_number_from_one() {
    let lines = compute_diff_lines("a\nb\n", "a\nc\n");
    let view: Vec<(char, Option<usize>, Option<usize>, &str)> =
        lines.iter().map(|l| (l.kind, l.old_line, l.new_line, l.text.as_str())).collect();
    assert_eq!(
        view,
        vec![(' ', Some(1), Some(1), "a\n"), ('-', Some(2), None, "b\n"), ('+', None, Some(2), "c\n")]
    );
}

#[test]
fn diff_lines_of_maps_each_change() {
    let changes = vec![
        (0u8, Some(0usize), Some(3usize), "x".to_string()),
        (1u8, Some(4), None, "y".to_string()),
        (2u8, None, Some(7), "z".to_string()),
    ];
    let lines = diff_lines_of(&changes);
    assert_eq!(lines.len(), 3);
    assert_eq!((lines[0].kind, lines[0].old_line, lines[0].new_line), (' ', Some(1), Some(4)));
    assert_eq!((lines[1].kind, lines[1].old_line, lines[1].new_line), ('-', Some(5), None));
    assert_eq!((lines[2].kind, lines[2].old_line, lines[2].new_line), ('+', None, Some(8)));
    assert_eq!(lines[2].text, "z");
}

#[test]
fn identical_texts_diff_to_unchanged_lines() {
    let lines = compute_diff_lines("same\n", "same\n");
    assert_eq!(lines.len(), 1);
    assert_eq!(lines[0].kind, ' ');
}

#[test]
fn block_keys_join_id_and_index() {
    assert_eq!(block_key("msg-1", 0), "msg-1:0");
    assert_eq!(block_key("m", 120), "m:120");
}

#[test]
fn line_counts_follow_str_lines() {
    for text in ["", "a", "a\n", "a\nb", "a\nb\n", "\n", "\n\n", "a\r\nb"] {
        assert_eq!(count_lines(text), text.lines().count(), "{:?}", text);
    }
}

#[test]
fn block_states_read_back_what_was_set() {
    let mut states = BlockStates::new();
    assert_eq!(states.get("a:0"), None);
    states.set("a:0", BlockExpanded::Expanded);
    states.set("b:1", BlockExpanded::Collapsed);
    states.set("a:0", BlockExpanded::Collapsed);
    assert_eq!(states.get("a:0"), Some(BlockExpanded::Collapsed));
    assert_eq!(states.get("b:1"), Some(BlockExpanded::Collapsed));
    assert_eq!(states.get("c:2"), None);
}

#[test]
fn toggle_block_twice_restores_the_state() {
    let mut mv = MainView::default();
    mv.toggle_block("msg-1", 0);
    assert_eq!(mv.block_states.get("msg-1:0"), Some(BlockExpanded::Expanded));
    mv.toggle_block("msg-1", 0);
    assert_eq!(mv.block_states.get("msg-1:0"), Some(BlockExpanded::Collapsed));
}

fn assistant_with(blocks: Vec<ContentBlock>) -> ChatMessage {
    let mut msg = ChatMessage::assistant("a", "");
    msg.id = "m1".to_string();
    msg.content = blocks;
    msg
}

#[test]
fn entering_a_short_thinking_block_unfolds_it() {
    let msgs = vec![assistant_with(vec![ContentBlock::Thinking { thinking: "one\ntwo".into() }])];
    let mut mv = MainView::default();
    mv.enter_block(&msgs, "m1", 0);
    assert_eq!(mv.block_states.get("m1:0"), Some(BlockExpanded::Expanded));
    assert!(mv.entered_view.is_none());
    mv.enter_block(&msgs, "m1", 0);
    assert_eq!(mv.block_states.get("m1:0"), Some(BlockExpanded::Expanded));
}

#[test]
fn entering_a_long_thinking_block_opens_it() {
    let text = "1\n2\n3\n4\n5\n6";
    let msgs = vec![assistant_with(vec![ContentBlock::Thinking { thinking: text.into() }])];
    let mut mv = MainView::default();
    mv.enter_block(&msgs, "m1", 0);
    match &mv.entered_view {
        Some(EnteredView::FullOutput { title, content, scroll }) => {
            assert_eq!(title, "思考过程");
            assert_eq!(content, text);
            assert_eq!(*scroll, 0);
        },
        other => panic!("unexpected view {:?}", other),
    }
    assert_eq!(mv.block_states.get("m1:0"), None);
}

#[test]
fn entering_an_unknown_block_changes_nothing() {
    let msgs = vec![assistant_with(vec![ContentBlock::Text { text: "hi".into() }])];
    let mut mv = MainView::default();
    mv.enter_block(&msgs, "m1", 0);
    mv.enter_block(&msgs, "m2", 0);
    assert!(mv.entered_view.is_none());
    assert_eq!(mv.block_states.get("m1:0"), None);
}

#[test]
fn entering_an_edit_opens_its_diff() {
    let msgs = vec![assistant_with(vec![
        ContentBlock::Text { text: "x".into() },
        ContentBlock::ToolCall {
            id: "t".into(),
            name: "edit".into(),
            arguments: json(r#"{"path": "src/a.rs", "oldText": "a\n", "newText": "b\n"}"#),
            result: None,
            is_error: false,
        },
    ])];
    let mut mv = MainView::default();
    mv.enter_block(&msgs, "m1", 1);
    match &mv.entered_view {
        Some(EnteredView::Diff { path, diff_lines, scroll }) => {
            assert_eq!(path, "src/a.rs");
            assert_eq!(*scroll, 0);
            let kinds: Vec<char> = diff_lines.iter().map(|l| l.kind).collect();
            assert_eq!(kinds, vec!['-', '+']);
        },
        other => panic!("unexpected view {:?}", other),
    }
}

#[test]
fn entering_a_read_shows_its_output() {
    let msgs = vec![assistant_with(vec![ContentBlock::ToolCall {
        id: "t".into(),
        name: "read".into(),
        arguments: json(r#"{"path": "a"}"#),
        result: Some(json(r#"{"content": "file text"}"#)),
        is_error: false,
    }])];
    let mut mv = MainView::default();
    mv.enter_block(&msgs, "m1", 0);
    match &mv.entered_view {
        Some(EnteredView::FullOutput { title, content, .. }) => {
            assert_eq!(title, "read");
            assert_eq!(content, "file text");
        },
        other => panic!("unexpected view {:?}", other),
    }
}

#[test]
fn tool_details_come_from_arguments_and_result() {
    let d = tool_detail(&json(r#"{"oldText": "o", "newText": 3}"#), &Some(json(r#"{"content": "c"}"#)));
    assert_eq!(d.old_text.as_deref(), Some("o"));
    assert_eq!(d.new_text, None);
    assert_eq!(d.path, None);
    assert_eq!(d.output.as_deref(), Some("c"));
    assert_eq!(d.value_debug.as_deref(), Some("Object {\"content\": String(\"c\")}"));
    assert_eq!(d.result_debug, "Some(Object {\"content\": String(\"c\")})");
    let none = tool_detail(&json("{}"), &None);
    assert_eq!(none.result_debug, "None");
    assert!(none.value_debug.is_none());
}

#[test]
fn tool_views_by_tool_name() {
    let d = ToolDetail {
        old_text: None,
        new_text: Some("n\n".into()),
        path: None,
        output: None,
        result_debug: "None".into(),
        value_debug: Some("v".into()),
    };
    match tool_entered_view("write", &d) {
        EnteredView::Diff { path, diff_lines, .. } => {
            assert_eq!(path, "unknown");
            assert_eq!(diff_lines.len(), 1);
            assert_eq!(diff_lines[0].kind, '+');
        },
        other => panic!("unexpected view {:?}", other),
    }
    match tool_entered_view("bash", &d) {
        EnteredView::FullOutput { title, content, .. } => {
            assert_eq!(title, "bash");
            assert_eq!(content, "");
        },
        other => panic!("unexpected view {:?}", other),
    }
    match tool_entered_view("subagent", &d) {
        EnteredView::FullOutput { title, content, .. } => {
            assert_eq!(title, "subagent: subagent");
            assert_eq!(content, "None");
        },
        other => panic!("unexpected view {:?}", other),
    }
    match tool_entered_view("grep", &d) {
        EnteredView::FullOutput { title, content, .. } => {
            assert_eq!(title, "grep");
            assert_eq!(content, "v");
        },
        other => panic!("unexpected view {:?}", other),
    }
}

#[test]
fn test_tool_message() {
    let mut mv = MainView::default();
    let tool_info = ToolCallInfo {
        tool_name: "bash".into(),
        tool_call_id: "test-1".into(),
        status: ToolStatus::Done,
        args: json("{\"command\": \"ls\"}"),
        result: Some(json("{\"output\": \"file1.txt\"}")),
        detail_text: String::new(),
    };
    mv.messages.push(ChatMessage::tool("test", tool_info));
    assert_eq!(mv.messages.len(), 1);
}
