use meta_tui::history::{
    build_ai_rename_prompt, extract_session_name, extract_workspace_cwd, load_session, recent_lines, rename_prompt, session_cwd, session_head, session_lines, session_messages,
    session_name_from, Json, parse_json_line,
};
use meta_tui::message::{ChatRole, ContentBlock, ToolStatus};

fn parse(text: &str) -> Json {
    parse_json_line(text).unwrap()
}

fn value(text: &str) -> String {
    format!("{:?}", parse(text))
}

fn shown(j: &Json) -> String {
    format!("{:?}", j)
}

fn load(content: &str) -> Vec<meta_tui::message::ChatMessage> {
    let lines: Vec<Json> = session_lines(content).iter().map(|l| parse(l)).collect();
    session_messages(&lines)
}

fn head(content: &str) -> Vec<(String, Option<Json>)> {
    session_head(content)
        .into_iter()
        .map(|l| {
            let p = parse_json_line(&l).ok();
            (l, p)
        })
        .collect()
}

#[test]
fn session_lines_trims_and_skips_blank_lines() {
    let lines = session_lines("  {\"a\":1}  \n\n \r\n{\"b\":2}\r\n");
    assert_eq!(lines, vec!["{\"a\":1}".to_string(), "{\"b\":2}".to_string()]);
    assert!(session_lines("").is_empty());
    assert!(session_lines("\n\n").is_empty());
}

#[test]
fn plain_user_message_gets_numbered_id_and_text_block() {
    let msgs = load("{\"role\":\"user\",\"content\":\"hello\"}");
    assert_eq!(msgs.len(), 1);
    let m = &msgs[0];
    assert_eq!(m.id, "msg_0");
    assert_eq!(m.role, ChatRole::User);
    assert_eq!(m.text, "hello");
    assert_eq!(m.agent_id, "");
    assert_eq!(m.timestamp, 0);
    assert!(m.thinking.is_none());
    assert!(m.tool_call.is_none());
    assert!(m.meta.is_none());
    assert_eq!(m.content.len(), 1);
    assert!(matches!(&m.content[0], ContentBlock::Text { text } if text == "hello"));
}

#[test]
fn metadata_lines_are_skipped_and_ids_count_messages() {
    let content = "{\"session_meta\":{\"cwd\":\"/x\"}}\n\
                   {\"message\":{\"role\":\"assistant\",\"content\":\"a\"}}\n\
                   {\"message\":{\"id\":\"m9\",\"role\":\"user\",\"content\":\"b\",\"timestamp\":1700}}\n\
                   {\"turn_context\":{\"role\":\"system\",\"content\":\"c\"}}";
    let msgs = load(content);
    assert_eq!(msgs.len(), 3);
    assert_eq!(msgs[0].id, "msg_0");
    assert_eq!(msgs[0].role, ChatRole::Assistant);
    assert_eq!(msgs[1].id, "m9");
    assert_eq!(msgs[1].timestamp, 1700);
    assert_eq!(msgs[2].id, "msg_2");
    assert_eq!(msgs[2].role, ChatRole::System);
    assert_eq!(msgs[2].text, "c");
}

#[test]
fn unknown_or_missing_role_is_user_and_tool_messages_have_no_blocks() {
    let msgs = load("{\"role\":\"robot\",\"content\":\"x\"}\n{\"content\":\"y\"}\n{\"role\":\"tool\",\"content\":\"z\"}");
    assert_eq!(msgs[0].role, ChatRole::User);
    assert_eq!(msgs[1].role, ChatRole::User);
    assert_eq!(msgs[2].role, ChatRole::Tool);
    assert_eq!(msgs[2].text, "z");
    assert!(msgs[2].content.is_empty());
}

#[test]
fn content_array_gives_blocks_thinking_and_tool_call() {
    let line = "{\"message\":{\"role\":\"assistant\",\"content\":[\
        {\"type\":\"thinking\",\"thinking\":\"hmm\"},\
        {\"type\":\"text\",\"text\":\"ok\"},\
        {\"type\":\"toolCall\",\"id\":\"t1\",\"name\":\"bash\",\"arguments\":{\"command\":\"ls\"}},\
        {\"type\":\"image\",\"data\":\"zz\"}]}}";
    let msgs = load(line);
    let m = &msgs[0];
    assert_eq!(m.text, "");
    assert_eq!(m.thinking.as_deref(), Some("hmm"));
    assert_eq!(m.content.len(), 3);
    assert!(matches!(&m.content[0], ContentBlock::Thinking { thinking } if thinking == "hmm"));
    assert!(matches!(&m.content[1], ContentBlock::Text { text } if text == "ok"));
    match &m.content[2] {
        ContentBlock::ToolCall { id, name, arguments, result, is_error } => {
            assert_eq!(id, "t1");
            assert_eq!(name, "bash");
            assert_eq!(shown(arguments), value("{\"command\":\"ls\"}"));
            assert!(result.is_none());
            assert!(!is_error);
        }
        _ => panic!("expected a tool call block"),
    }
    let tc = m.tool_call.as_ref().unwrap();
    assert_eq!(tc.tool_call_id, "t1");
    assert_eq!(tc.tool_name, "bash");
    assert_eq!(tc.status, ToolStatus::Running);
    assert_eq!(shown(&tc.args), value("{\"command\":\"ls\"}"));
    assert!(tc.result.is_none());
    assert_eq!(tc.detail_text, "");
}

#[test]
fn tool_result_fills_the_last_matching_call() {
    let line = "{\"role\":\"assistant\",\"content\":[\
        {\"type\":\"tool_use\",\"id\":\"a\",\"name\":\"read\",\"input\":{\"path\":\"x\"}},\
        {\"type\":\"tool_use\",\"id\":\"b\",\"name\":\"bash\"},\
        {\"type\":\"tool_result\",\"tool_call_id\":\"a\",\"content\":\"out\",\"is_error\":true},\
        {\"type\":\"toolExecutionEnd\",\"id\":\"b\",\"result\":{\"n\":1}},\
        {\"type\":\"tool_result\",\"id\":\"zz\",\"result\":3}]}";
    let msgs = load(line);
    let m = &msgs[0];
    assert_eq!(m.content.len(), 2);
    match &m.content[0] {
        ContentBlock::ToolCall { id, result, is_error, arguments, .. } => {
            assert_eq!(id, "a");
            assert_eq!(shown(arguments), value("{\"path\":\"x\"}"));
            assert_eq!(result.as_ref().map(shown), Some(value("{\"content\":\"out\"}")));
            assert!(*is_error);
        }
        _ => panic!("expected a tool call block"),
    }
    match &m.content[1] {
        ContentBlock::ToolCall { id, result, is_error, arguments, .. } => {
            assert_eq!(id, "b");
            assert_eq!(shown(arguments), value("null"));
            assert_eq!(result.as_ref().map(shown), Some(value("{\"n\":1}")));
            assert!(!*is_error);
        }
        _ => panic!("expected a tool call block"),
    }
    assert_eq!(m.tool_call.as_ref().unwrap().tool_call_id, "b");
}

#[test]
fn tool_calls_form_sets_the_tool_call() {
    let line = "{\"role\":\"assistant\",\"content\":\"calling\",\"tool_calls\":[\
        {\"id\":\"c1\",\"function\":{\"name\":\"ls\",\"arguments\":\"{}\"}},\
        {\"id\":\"c2\",\"function\":{\"name\":\"grep\"},\"input\":{\"q\":1}}]}";
    let msgs = load(line);
    let m = &msgs[0];
    let tc = m.tool_call.as_ref().unwrap();
    assert_eq!(tc.tool_call_id, "c2");
    assert_eq!(tc.tool_name, "grep");
    assert_eq!(shown(&tc.args), value("{\"q\":1}"));
    assert_eq!(m.content.len(), 1);
    assert!(matches!(&m.content[0], ContentBlock::Text { text } if text == "calling"));
}

#[test]
fn empty_file_has_no_messages() {
    assert!(load("").is_empty());
    assert!(load("{\"session_meta\":{}}").is_empty());
}

#[test]
fn session_name_line_gives_the_title() {
    let content = "\n{\"type\":\"session\",\"cwd\":\"/w\"}\n{\"type\":\"session_name\",\"name\":\"  My work  \"}";
    assert_eq!(session_name_from(&head(content)), Some("My work".to_string()));
}

#[test]
fn session_name_line_wins_over_an_earlier_user_message() {
    let content = "{\"type\":\"message\",\"message\":{\"role\":\"user\",\"content\":[{\"text\":\"question\"}]}}\n\
                   {\"type\":\"session_name\",\"name\":\"named\"}";
    assert_eq!(session_name_from(&head(content)), Some("named".to_string()));
}

#[test]
fn first_user_message_gives_a_shortened_title() {
    let content = "{\"type\":\"message\",\"message\":{\"role\":\"assistant\",\"content\":[{\"text\":\"hi\"}]}}\n\
                   {\"type\":\"message\",\"message\":{\"role\":\"user\",\"content\":[{\"text\":\"   \"}]}}\n\
                   {\"type\":\"message\",\"message\":{\"role\":\"user\",\"content\":[{\"text\":\"abcdefghijklmnopqrstuvwxyz0123456789XYZ\"}]}}";
    assert_eq!(
        session_name_from(&head(content)),
        Some("abcdefghijklmnopqrstuvwxyz012345678…".to_string())
    );
}

#[test]
fn invalid_line_or_missing_parts_give_no_title() {
    assert_eq!(session_name_from(&head("not json\n{\"type\":\"session_name\",\"name\":\"x\"}")), None);
    assert_eq!(session_name_from(&head("{\"type\":\"message\"}")), None);
    assert_eq!(session_name_from(&head("{\"type\":\"session_name\"}")), None);
    assert_eq!(session_name_from(&head("")), None);
}

#[test]
fn title_is_looked_for_in_the_first_twenty_lines() {
    let mut content = String::new();
    for _ in 0..20 {
        content.push_str("{\"type\":\"other\"}\n");
    }
    content.push_str("{\"type\":\"session_name\",\"name\":\"late\"}\n");
    assert_eq!(session_head(&content).len(), 20);
    assert_eq!(session_name_from(&head(&content)), None);
    assert_eq!(session_head("a\n b \n").len(), 2);
    assert_eq!(session_head("a\n b \n")[1], "b");
}

#[test]
fn cwd_of_first_line() {
    assert_eq!(session_cwd(&parse("{\"type\":\"session\",\"cwd\":\"/home/u/p\"}")), Some("/home/u/p".to_string()));
    assert_eq!(session_cwd(&parse("{\"cwd\":3}")), None);
}

fn name_of(content: &str) -> Option<String> {
    session_name_from(&head(content))
}

#[test]
fn test_extract_session_name_from_session_name_line() {
    let name = name_of(
        r#"{"type":"session","version":3,"id":"019eea06-e08e-7057-8793-8bedab78eaf4","timestamp":"2026-06-21T11:52:59.790Z","cwd":"/home/hr/.config/pi-desktop/chat-workspace"}
{"type":"session_name","name":"chat-workspace-调试","version":3}
{"type":"message","message":{"role":"user","content":[{"type":"text","text":"你好"}]}}
"#,
    );
    assert_eq!(name.as_deref(), Some("chat-workspace-调试"));
}

#[test]
fn test_extract_session_name_from_user_message() {
    let name = name_of(
        r#"{"type":"session","version":3,"id":"019e3b77-9ea9-7656-b707-45b1f2363e7f","timestamp":"2026-05-18T14:22:35.689Z","cwd":"/home/hr"}
{"type":"message","message":{"role":"user","content":[{"type":"text","text":"帮我分析一下这个项目的架构"}]}}
{"type":"message","message":{"role":"assistant","content":[{"type":"text","text":"好的，让我看看"}]}}
"#,
    );
    assert_eq!(name.as_deref(), Some("帮我分析一下这个项目的架构"));
}

#[test]
fn test_extract_session_name_no_names_returns_none() {
    let name = name_of(
        r#"{"type":"session","version":3,"id":"abc123","cwd":"/tmp"}
{"type":"message","message":{"role":"assistant","content":[{"type":"text","text":"你好"}]}}
"#,
    );
    assert!(name.is_none());
}

#[test]
fn test_extract_session_name_long_user_message_truncated() {
    let name = name_of(
        r#"{"type":"session","version":3,"id":"abc123","cwd":"/tmp"}
{"type":"message","message":{"role":"user","content":[{"type":"text","text":"这是一个非常非常非常长的用户问题用来测试会话名称截断逻辑是否正常工作666666"}]}}
"#,
    );
    assert!(name.is_some());
    let n = name.unwrap();
    assert!(n.ends_with('…'), "long name should be truncated with …: {}", n);
    assert!(n.chars().count() <= 36, "truncated name too long: {} chars", n.chars().count());
}

#[test]
fn test_extract_session_name_skip_non_user_message() {
    let name = name_of(
        r#"{"type":"session","version":3,"id":"abc123","cwd":"/tmp"}
{"type":"message","message":{"role":"assistant","content":[{"type":"text","text":"跳过这条"}]}}
{"type":"message","message":{"role":"tool","content":[]}}
{"type":"message","message":{"role":"user","content":[{"type":"text","text":"这才是用户消息"}]}}
"#,
    );
    assert_eq!(name.as_deref(), Some("这才是用户消息"));
}

fn recent(content: &str) -> Vec<Option<Json>> {
    recent_lines(content)
        .iter()
        .map(|l| parse_json_line(l).ok())
        .collect()
}

fn user_line(text: &str) -> String {
    format!("{{\"type\":\"message\",\"message\":{{\"role\":\"user\",\"content\":[{{\"type\":\"text\",\"text\":\"{}\"}}]}}}}", text)
}

#[test]
fn rename_prompt_lists_user_texts_of_recent_lines() {
    let mut content = String::new();
    content.push_str(&user_line("too old"));
    content.push('\n');
    for i in 0..28 {
        content.push_str(&format!("{{\"n\":{}}}\n", i));
    }
    content.push_str(&user_line("  first question  "));
    content.push('\n');
    content.push_str("not json\n");
    content.push_str(&user_line("second"));
    content.push('\n');
    assert_eq!(recent_lines(&content).len(), 30);
    let lines = recent(&content);
    let p = rename_prompt(&lines, "old-name");
    assert_eq!(build_ai_rename_prompt(&content, "old-name"), p);
    assert_eq!(
        p,
        "请为以下对话生成 3 个候选会话名称（简短、描述性的英文名，用连字符连接）。当前名称为「old-name」。\n\n对话概要:\n  first question\n  second\n\n请只输出 3 个候选名称，每行一个，不要编号或其他文字。"
    );
}

#[test]
fn rename_prompt_clips_long_texts_at_eighty_bytes() {
    let long = "a".repeat(100);
    let lines = recent(&user_line(&long));
    let p = rename_prompt(&lines, "x");
    assert!(p.contains(&format!("  {}…\n", "a".repeat(80))));
    // 27 three-byte characters: byte 80 falls inside the 27th, so the text
    // is cut after the 26th (78 bytes).
    let wide = "中".repeat(27);
    let p = rename_prompt(&recent(&user_line(&wide)), "x");
    assert!(p.contains(&format!("  {}…\n", "中".repeat(26))));
    let fits = format!("{}{}", "ab", "中".repeat(27));
    let p = rename_prompt(&recent(&user_line(&fits)), "x");
    assert!(p.contains(&format!("  ab{}…\n", "中".repeat(26))));
}

#[test]
fn rename_prompt_without_user_texts_has_empty_summary() {
    let lines = recent("{\"message\":{\"role\":\"assistant\",\"content\":[{\"text\":\"hi\"}]}}");
    let p = rename_prompt(&lines, "n");
    assert!(p.contains("对话概要:\n  \n\n请只输出"));
    assert!(recent_lines("").is_empty());
}

#[test]
fn session_text_is_loaded_or_its_first_bad_line_reported() {
    let ok = load_session("{\"message\":{\"role\":\"user\",\"content\":\"hi\"}}\n\n  {\"session_meta\":{}}  \n").unwrap();
    assert_eq!(ok.len(), 1);
    assert_eq!(ok[0].text, "hi");
    let err = load_session("{\"message\":{}}\nnot json\n{\"also\": bad").unwrap_err();
    assert!(err.starts_with("JSON 解析失败: "), "{}", err);
    assert!(err.contains("line 1"), "{}", err);
    assert_eq!(load_session("").unwrap().len(), 0);
}

#[test]
fn workspace_cwd_and_name_come_from_the_file_text() {
    assert_eq!(extract_workspace_cwd("{\"type\":\"session\",\"cwd\":\"/w\"}\nrest"), Some("/w".to_string()));
    assert_eq!(extract_workspace_cwd("not json\n{\"cwd\":\"/w\"}"), None);
    assert_eq!(extract_workspace_cwd(""), None);
    assert_eq!(
        extract_session_name("{\"type\":\"message\",\"message\":{\"role\":\"user\",\"content\":[{\"text\":\"q\"}]}}\n{\"type\":\"session_name\",\"name\":\"n\"}"),
        Some("n".to_string())
    );
    assert_eq!(extract_session_name("bad\n{\"type\":\"session_name\",\"name\":\"n\"}"), None);
}
