use meta_tui::message::{
    append_assistant_text, append_assistant_thinking, apply_tool_event, build_block_refs,
    finalize_assistant_thinking, start_assistant_thinking, update_assistant_content, BlockExpanded,
    BlockKind, ChatMessage, ChatRole, ContentBlock, EnteredView, ToolCallInfo, ToolStatus,
};

fn json(text: &str) -> meta_tui::history::Json {
    meta_tui::history::parse_json_line(text).unwrap()
}

#[test]
fn message_test_chat_message_user() {
    let msg = ChatMessage::user("agent-1", "Hello, world!");
    assert_eq!(msg.agent_id, "agent-1");
    assert_eq!(msg.role, ChatRole::User);
    assert_eq!(msg.text, "Hello, world!");
    assert!(msg.thinking.is_none());
    assert!(msg.tool_call.is_none());
    assert!(msg.timestamp > 0);
}

#[test]
fn message_test_chat_message_assistant() {
    let msg = ChatMessage::assistant("agent-1", "Hi there!");
    assert_eq!(msg.role, ChatRole::Assistant);
    assert_eq!(msg.text, "Hi there!");
}

#[test]
fn message_test_chat_message_tool() {
    let info = ToolCallInfo {
        tool_name: "read".to_string(),
        tool_call_id: "call-1".to_string(),
        status: ToolStatus::Done,
        args: json(r#"{"path": "src/main.rs"}"#),
        result: Some(json(r#"{"content": "fn main() {}"}"#)),
        detail_text: "Read src/main.rs (12 bytes)".to_string(),
    };
    let msg = ChatMessage::tool("agent-1", info);
    assert_eq!(msg.role, ChatRole::Tool);
    assert!(msg.text.contains("read"));
    assert!(msg.tool_call.is_some());
    assert_eq!(msg.tool_call.as_ref().unwrap().tool_name, "read");
}

#[test]
fn message_test_chat_message_system() {
    let msg = ChatMessage::system("agent-1", "Connected to pi");
    assert_eq!(msg.role, ChatRole::System);
    assert_eq!(msg.text, "Connected to pi");
}

#[test]
fn message_test_chat_message_error() {
    let msg = ChatMessage::error("agent-1", "Connection failed");
    assert_eq!(msg.role, ChatRole::Error);
    assert_eq!(msg.text, "Connection failed");
}

#[test]
fn test_unique_ids() {
    let msg1 = ChatMessage::user("agent-1", "a");
    let msg2 = ChatMessage::user("agent-1", "b");
    assert_ne!(msg1.id, msg2.id);
}

#[test]
fn integration_test_test_chat_message_user() {
    let msg = ChatMessage::user("agent-1", "Hello, world!");
    assert_eq!(msg.agent_id, "agent-1");
    assert_eq!(msg.text, "Hello, world!");
    assert_eq!(msg.role, ChatRole::User);
    assert!(msg.thinking.is_none());
    assert!(msg.tool_call.is_none());
}

#[test]
fn integration_test_test_chat_message_assistant() {
    let msg = ChatMessage::assistant("agent-1", "Hi there!");
    assert_eq!(msg.role, ChatRole::Assistant);
    assert_eq!(msg.text, "Hi there!");
}

#[test]
fn integration_test_test_chat_message_tool() {
    let tool = ToolCallInfo {
        tool_name: "bash".into(),
        tool_call_id: "call-1".into(),
        status: ToolStatus::Done,
        args: json(r#"{"command": "ls"}"#),
        result: Some(json(r#"{"output": "file.txt"}"#)),
        detail_text: String::new(),
    };
    let msg = ChatMessage::tool("agent-1", tool);
    assert_eq!(msg.role, ChatRole::Tool);
    assert!(msg.tool_call.is_some());
    let tc = msg.tool_call.unwrap();
    assert_eq!(tc.tool_name, "bash");
    assert_eq!(tc.tool_call_id, "call-1");
    assert_eq!(tc.status, ToolStatus::Done);
}

#[test]
fn integration_test_test_chat_message_system() {
    let msg = ChatMessage::system("agent-1", "System message");
    assert_eq!(msg.role, ChatRole::System);
    assert_eq!(msg.text, "System message");
}

#[test]
fn integration_test_test_chat_message_error() {
    let msg = ChatMessage::error("agent-1", "Something went wrong");
    assert_eq!(msg.role, ChatRole::Error);
    assert_eq!(msg.text, "Something went wrong");
}

#[test]
fn test_toggle_block() {
    let mut block_states: std::collections::HashMap<String, BlockExpanded> = std::collections::HashMap::new();
    block_states.insert("msg-1:0".to_string(), BlockExpanded::Collapsed);
    let key = "msg-1:0".to_string();
    let state = block_states.get_mut(&key).unwrap();
    *state = BlockExpanded::Expanded;
    assert_eq!(*state, BlockExpanded::Expanded);
}

#[test]
fn test_exit_block() {
    let mut entered_view: Option<EnteredView> = Some(EnteredView::FullOutput {
        title: "test".into(),
        content: "hello".into(),
        scroll: 0,
    });
    assert!(entered_view.is_some());
    entered_view = None;
    assert!(entered_view.is_none());
}

#[test]
fn test_build_block_refs_empty() {
    let msgs: Vec<ChatMessage> = vec![];
    let refs = build_block_refs(&msgs);
    assert!(refs.is_empty(), "empty messages should give no block refs");
}

#[test]
fn test_build_block_refs_with_content() {
    let mut msg = ChatMessage::assistant("test", "");
    msg.content = vec![
        ContentBlock::Thinking { thinking: "思考中...".to_string() },
        ContentBlock::Text { text: "回复内容".to_string() },
        ContentBlock::ToolCall {
            id: "tc-1".to_string(),
            name: "read".to_string(),
            arguments: json(r#"{"path": "src/main.rs"}"#),
            result: None,
            is_error: false,
        },
    ];
    let msgs = vec![msg];
    let refs = build_block_refs(&msgs);
    assert_eq!(refs.len(), 2, "Thinking + ToolCall = 2 blocks, Text skipped");
    assert_eq!(refs[0].kind, BlockKind::Thinking);
    assert_eq!(refs[1].kind, BlockKind::ToolCall);
    assert_eq!(refs[0].block_index, 0);
    assert_eq!(refs[1].block_index, 2);
    assert_eq!(refs[1].msg_index, 0);
}

#[test]
fn test_tool_event_running_creates_message() {
    let mut msgs: Vec<ChatMessage> = Vec::new();
    apply_tool_event(&mut msgs, "agent-1", "bash", "tc-1", ToolStatus::Running, Some(json(r#"{"command": "ls"}"#)), None);
    assert_eq!(msgs.len(), 1, "should have 1 tool message");
    assert_eq!(msgs[0].role, ChatRole::Tool);
}

#[test]
fn test_tool_event_done_updates_existing() {
    let mut msgs: Vec<ChatMessage> = Vec::new();
    apply_tool_event(&mut msgs, "agent-1", "bash", "tc-1", ToolStatus::Running, Some(json(r#"{"command": "ls"}"#)), None);
    apply_tool_event(&mut msgs, "agent-1", "bash", "tc-1", ToolStatus::Done, None, Some(json(r#"{"content": "ok"}"#)));
    assert_eq!(msgs.len(), 1, "should still be 1 tool message (updated, not duplicated)");
    assert_eq!(msgs[0].tool_call.as_ref().unwrap().status, ToolStatus::Done);
    assert!(msgs[0].text.contains("✓"), "Done should show ✓");
}

#[test]
fn tool_event_error_for_unknown_call_changes_nothing() {
    let mut msgs: Vec<ChatMessage> = Vec::new();
    apply_tool_event(&mut msgs, "a", "bash", "tc-1", ToolStatus::Running, None, None);
    assert_eq!(msgs[0].text, "▶ bash");
    apply_tool_event(&mut msgs, "a", "bash", "tc-2", ToolStatus::Error, None, None);
    assert_eq!(msgs.len(), 1);
    assert_eq!(msgs[0].text, "▶ bash");
    apply_tool_event(&mut msgs, "a", "bash", "tc-1", ToolStatus::Error, None, None);
    assert_eq!(msgs[0].text, "✗ bash");
}

#[test]
fn streaming_text_builds_one_text_block() {
    let mut msgs: Vec<ChatMessage> = Vec::new();
    append_assistant_text(&mut msgs, "a", "Hello ");
    append_assistant_text(&mut msgs, "a", "World");
    assert_eq!(msgs.len(), 1);
    assert_eq!(msgs[0].text, "Hello World");
    assert_eq!(msgs[0].content.len(), 1);
    match &msgs[0].content[0] {
        ContentBlock::Text { text } => assert_eq!(text, "Hello World"),
        _ => panic!("expected a text block"),
    }
}

#[test]
fn streaming_thinking_then_text() {
    let mut msgs: Vec<ChatMessage> = Vec::new();
    append_assistant_thinking(&mut msgs, "a", "先分析问题。\n");
    append_assistant_thinking(&mut msgs, "a", "再给出修复。");
    append_assistant_text(&mut msgs, "a", "最终回复");
    assert_eq!(msgs.len(), 1);
    assert_eq!(msgs[0].thinking.as_deref(), Some("先分析问题。\n再给出修复。"));
    assert_eq!(msgs[0].content.len(), 2);
    match &msgs[0].content[0] {
        ContentBlock::Thinking { thinking } => assert_eq!(thinking, "先分析问题。\n再给出修复。"),
        _ => panic!("expected a thinking block"),
    }
}

#[test]
fn delta_already_in_snapshot_is_not_duplicated() {
    let mut msgs: Vec<ChatMessage> = Vec::new();
    update_assistant_content(&mut msgs, "a", vec![ContentBlock::Text { text: "Hi".into() }]);
    append_assistant_text(&mut msgs, "a", "Hi");
    assert_eq!(msgs[0].text, "Hi");
    assert_eq!(msgs[0].content.len(), 1);
    match &msgs[0].content[0] {
        ContentBlock::Text { text } => assert_eq!(text, "Hi"),
        _ => panic!("expected a text block"),
    }
}

#[test]
fn thinking_start_begins_a_new_block_and_finalize_replaces_it() {
    let mut msgs: Vec<ChatMessage> = Vec::new();
    append_assistant_thinking(&mut msgs, "a", "第一段思考");
    start_assistant_thinking(&mut msgs, "a");
    start_assistant_thinking(&mut msgs, "a");
    assert_eq!(msgs[0].content.len(), 2);
    finalize_assistant_thinking(&mut msgs, "a", "第二段思考");
    match &msgs[0].content[1] {
        ContentBlock::Thinking { thinking } => assert_eq!(thinking, "第二段思考"),
        _ => panic!("expected a thinking block"),
    }
    finalize_assistant_thinking(&mut msgs, "a", "");
    assert_eq!(msgs[0].thinking.as_deref(), Some("第二段思考"));
}

#[test]
fn streaming_after_a_tool_message_starts_a_new_assistant_message() {
    let mut msgs: Vec<ChatMessage> = Vec::new();
    append_assistant_text(&mut msgs, "a", "工具前回复");
    apply_tool_event(&mut msgs, "a", "bash", "tc", ToolStatus::Running, None, None);
    append_assistant_text(&mut msgs, "a", "工具后回复");
    assert_eq!(msgs.len(), 3);
    assert_eq!(msgs[2].role, ChatRole::Assistant);
    assert_eq!(msgs[2].text, "工具后回复");
    assert_eq!(msgs[0].text, "工具前回复");
}
