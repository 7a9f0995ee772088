use meta_tui::ansi::Color;
use meta_tui::components::{compute_ws_scroll, needs_markdown, AgentPanel, Theme, TopBar};
use meta_tui::config::Config;
use meta_tui::errors::Error;
use meta_tui::event::{classify_pi_json, event_parse_error, translate_pi_events, AssistantEventType, AssistantMessageEvent, PiEvent};
use meta_tui::action::Action;
use meta_tui::message::{ContentBlock, MessageData, ToolStatus};
use meta_tui::persistence::{build_persist_state, find_session, restore_expanded, state_path, UiPersistState};
use meta_tui::provider::{
    config_path, generate_local_provider_ts, upstream_path, upstream_provider, ModelInfo, ProviderConfig, ProviderInfo,
};
use meta_tui::state::{AgentStatus, SessionNode, WorkspaceNode};
use meta_tui::utils::{dir_matches_cwd, encode_workspace_name, hex16, parse_agent_md, parse_skill_md, session_title, short_id_from_nanos, uuid_v4_simple};

#[test]
fn test_default_is_empty() {
    let state = UiPersistState::default();
    assert!(state.active_session_id.is_none());
    assert!(state.active_agent_sessions.is_empty());
    assert!(state.expanded_workspaces.is_empty());
    assert!(state.session_names.is_empty());
}

#[test]
fn cyan_theme_should_match_midnight_control_room_palette() {
    let theme = Theme::cyan();

    assert_eq!(theme.bg, Color::Rgb(0, 7, 14));
    assert_eq!(theme.text, Color::Rgb(223, 232, 232));
    assert_eq!(theme.text_dim, Color::Rgb(132, 155, 156));
    assert_eq!(theme.border, Color::Rgb(151, 255, 245));
    assert_eq!(theme.border_dim, Color::Rgb(76, 133, 135));
    assert_eq!(theme.highlight_bg, Color::Rgb(90, 90, 90));
    assert_eq!(theme.accent, Color::Rgb(255, 191, 92));
    assert_eq!(theme.heading, Color::Rgb(255, 191, 92));
    assert_eq!(theme.success, Color::Rgb(173, 255, 47));
    assert_eq!(theme.selection_fg, Color::Rgb(255, 255, 255));
    assert_eq!(theme.diff_red_bg, Color::Rgb(42, 26, 26));
    assert_eq!(theme.diff_green_bg, Color::Rgb(26, 42, 26));
    assert_eq!(theme.heading_color, Color::Rgb(255, 191, 92));
    assert_eq!(theme.blockquote_text, Color::Rgb(132, 155, 156));
    assert_eq!(theme.inline_code_bg, Color::Rgb(30, 40, 45));
    assert_eq!(theme.code_border, Color::Rgb(76, 133, 135));
    assert_eq!(theme.code_bg, Color::Rgb(10, 22, 28));
    assert_eq!(theme.link_color, Color::Rgb(151, 255, 245));
    assert_eq!(theme.warning, Color::Rgb(255, 159, 67));
    assert_eq!(theme.user_bg, Color::Rgb(45, 60, 72));
}

#[test]
fn status_texts_of_panels() {
    let mut panel = AgentPanel::default();
    assert_eq!(panel.status_text(), ("closed".to_string(), Color::Rgb(132, 155, 156)));
    panel.agent_status = Some(AgentStatus::Error);
    assert_eq!(panel.status_text(), ("error".to_string(), Color::Red));
    let mut bar = TopBar::default();
    bar.agent_status = Some(AgentStatus::Starting);
    let theme = Theme::cyan();
    assert_eq!(bar.status_indicator(&theme), ("◌ starting".to_string(), theme.heading));
}

#[test]
fn markdown_detection() {
    assert!(!needs_markdown("Hello World"));
    assert!(needs_markdown("Hello **World**!"));
    assert!(needs_markdown("1. first"));
    assert!(needs_markdown("- item"));
    assert!(!needs_markdown("-item 1 2"));
    let long = format!("{}*", "a".repeat(9000));
    assert!(!needs_markdown(&long));
}

fn ws(cwd: &str, expanded: bool, sessions: &[&str]) -> WorkspaceNode {
    WorkspaceNode {
        cwd: cwd.into(),
        display_name: cwd.into(),
        sessions: sessions
            .iter()
            .map(|s| SessionNode { id: s.to_string(), name: s.to_string(), file_path: None, message_count: 0, is_online: false })
            .collect(),
        expanded,
    }
}

#[test]
fn workspace_scroll_keeps_cursor_visible() {
    let w = vec![ws("/a", true, &["1", "2", "3"]), ws("/b", true, &["4", "5", "6"])];
    assert_eq!(compute_ws_scroll(&w, 7, false, 9, 4), 0);
    assert_eq!(compute_ws_scroll(&w, 0, true, 9, 4), 0);
    assert_eq!(compute_ws_scroll(&w, 2, true, 9, 4), 0);
    // cursor 7: line 7 >= 4 -> 7 - 1 = 6, capped at 9 - 4 = 5
    assert_eq!(compute_ws_scroll(&w, 7, true, 9, 4), 5);
    assert_eq!(compute_ws_scroll(&w, 5, true, 9, 4), 4);
    assert_eq!(compute_ws_scroll(&w, 8, true, 20, 4), 7);
}

#[test]
fn agent_front_matter() {
    let md = "\n---\nname: planner\ndescription:  Plans work \nmodel: gpt-4o\n---\nbody";
    let a = parse_agent_md(md).unwrap();
    assert_eq!(a.name, "planner");
    assert_eq!(a.description, "Plans work");
    assert_eq!(a.model, "gpt-4o");
    assert!(parse_agent_md("no front matter").is_none());
    assert!(parse_agent_md("---\ndescription: x\n---").is_none());
    assert!(parse_agent_md("---\nname: x\n").is_none());
}

#[test]
fn skill_front_matter() {
    let md = "---\r\nname: pdf\r\ndescription: Reads PDFs\r\nname: pdf2\r\n---\r\n";
    let s = parse_skill_md(md).unwrap();
    assert_eq!(s.name, "pdf2");
    assert_eq!(s.description, "Reads PDFs");
}

#[test]
fn workspace_names() {
    assert_eq!(encode_workspace_name("/home/hr/Projects/agent-tui"), "--home-hr-Projects-agent-tui--");
    assert_eq!(encode_workspace_name("//tmp"), "--tmp--");
    assert_eq!(encode_workspace_name(""), "----");
    assert!(dir_matches_cwd("--home-hr-Projects-agent-tui--", "/home/hr/Projects/agent-tui"));
    assert!(!dir_matches_cwd("--home-hr--", "/home/hr/x"));
}

#[test]
fn short_ids_are_8_hex_digits() {
    assert_eq!(hex16(0), "0000000000000000");
    assert_eq!(hex16(0xdead_beef), "00000000deadbeef");
    assert_eq!(short_id_from_nanos(0x1234_5678_dead_beefu128), "deadbeef");
    assert_eq!(short_id_from_nanos(0x1_0000_0000u128), "00000000");
    assert_eq!(short_id_from_nanos(0xab), "000000ab");
    let id = uuid_v4_simple();
    assert_eq!(id.len(), 8);
    assert!(id.chars().all(|c| c.is_ascii_hexdigit() && !c.is_ascii_uppercase()));
}

#[test]
fn session_titles() {
    assert_eq!(session_title("  帮我分析一下这个项目的架构  "), "帮我分析一下这个项目的架构");
    let long = "a".repeat(40);
    let t = session_title(&long);
    assert_eq!(t.chars().count(), 36);
    assert!(t.ends_with('…'));
    assert_eq!(session_title(&"b".repeat(35)), "b".repeat(35));
}

#[test]
fn config_and_state_paths() {
    assert_eq!(config_path(Some("/x"), Some("/home/u")), "/x/agent-tui/providers.json");
    assert_eq!(config_path(None, Some("/home/u/")), "/home/u/.config/agent-tui/providers.json");
    assert_eq!(config_path(None, None), ".agent-tui/providers.json");
    assert_eq!(state_path(Some("/x/"), None), "/x/agent-tui/state.json");
    assert_eq!(state_path(None, Some("/h")), "/h/.config/agent-tui/state.json");
}

#[test]
fn error_messages() {
    assert_eq!(Error::Io("disk".into()).message(), "I/O error: disk");
    assert_eq!(Error::Channel("x".into()).message(), "Channel error: x");
    let d = Config::defaults();
    assert_eq!(d.target_command, "/bin/sh");
    assert_eq!(d.pi_command, "pi");
    assert!(!d.dry_run);
}

#[test]
fn event_lines_are_classified() {
    assert!(matches!(classify_pi_json(Some("agent_start"), false), Ok(true)));
    assert!(matches!(classify_pi_json(Some("response"), true), Ok(false)));
    match classify_pi_json(Some("response"), false) {
        Err(Error::Channel(m)) => assert_eq!(m, "response without id field"),
        _ => panic!("expected an error"),
    }
    match classify_pi_json(None, false) {
        Err(Error::Channel(m)) => assert_eq!(m, "PiEvent missing 'type' field"),
        _ => panic!("expected an error"),
    }
    match event_parse_error("agent_end", "missing field") {
        Error::Channel(m) => assert_eq!(m, "failed to parse PiEvent 'agent_end': missing field"),
        _ => panic!("expected a channel error"),
    }
}

#[test]
fn events_translate_into_actions() {
    let acts = translate_pi_events(PiEvent::AgentStart, "a1");
    assert!(matches!(&acts[..], [Action::AgentStatusChange { status: AgentStatus::Running, .. }]));
    let acts = translate_pi_events(
        PiEvent::MessageUpdate {
            assistant_event: AssistantMessageEvent { event_type: AssistantEventType::TextDelta, delta: Some("Hello".into()) },
            delta: None,
            message: Some(MessageData {
                role: "assistant".into(),
                content: vec![ContentBlock::Text { text: "Hello".into() }],
                stop_reason: None,
                error_message: Some("boom".into()),
            }),
        },
        "a1",
    );
    assert_eq!(acts.len(), 3);
    match &acts[0] {
        Action::MessageAppend { agent_id, text } => {
            assert_eq!(agent_id, "a1");
            assert_eq!(text, "Hello");
        },
        _ => panic!("expected MessageAppend"),
    }
    assert!(matches!(&acts[1], Action::ContentUpdate { .. }));
    match &acts[2] {
        Action::AutoRetryStatus { text, .. } => assert_eq!(text, "错误: boom"),
        _ => panic!("expected a status line"),
    }
    let acts = translate_pi_events(
        PiEvent::AutoRetryStart { attempt: 2, max_attempts: 3, delay_ms: 1500, error_message: None },
        "a1",
    );
    match &acts[0] {
        Action::AutoRetryStatus { text, .. } => assert_eq!(text, "自动重试 2/3 (1500ms 后): unknown error"),
        _ => panic!("expected a status line"),
    }
    let acts = translate_pi_events(
        PiEvent::ToolExecutionEnd { tool_name: "bash".into(), tool_call_id: "t".into(), result: meta_tui::history::Json::Null, is_error: true },
        "a1",
    );
    assert!(matches!(&acts[0], Action::ToolEvent { status: ToolStatus::Error, is_error: true, .. }));
    let acts = translate_pi_events(
        PiEvent::MessageUpdate {
            assistant_event: AssistantMessageEvent { event_type: AssistantEventType::ThinkingStart, delta: None },
            delta: None,
            message: None,
        },
        "a1",
    );
    assert!(acts.is_empty());
    let acts = translate_pi_events(PiEvent::AutoRetryEnd { success: false, final_error: None }, "a1");
    match &acts[0] {
        Action::AutoRetryStatus { text, .. } => assert_eq!(text, "全部重试失败: unknown"),
        _ => panic!("expected a status line"),
    }
}

#[test]
fn persisted_state_roundtrip_of_expanded_workspaces() {
    let mut w = vec![ws("/a", true, &["s1"]), ws("/b", false, &["s2", "s3"]), ws("/c", true, &[])];
    for (x, n) in w.iter_mut().zip(["a", "b", "c"]) {
        x.display_name = n.to_string();
    }
    let st = build_persist_state(&Some("s2".to_string()), &vec!["s1".to_string()], &w, &vec![("s1".to_string(), "One".to_string())]);
    assert_eq!(st.expanded_workspaces, vec!["a".to_string(), "c".to_string()]);
    assert_eq!(st.active_session_id.as_deref(), Some("s2"));
    for x in w.iter_mut() {
        x.expanded = !x.expanded;
    }
    restore_expanded(&mut w, &st.expanded_workspaces);
    assert!(w[0].expanded && !w[1].expanded && w[2].expanded);
    assert_eq!(find_session(&w, "s3"), Some((1, 1)));
    assert_eq!(find_session(&w, "nope"), None);
}

#[test]
fn local_provider_extension_lists_every_model() {
    let cfg = ProviderConfig {
        port: 8001,
        current_model: None,
        current_provider: None,
        providers: vec![
            ProviderInfo {
                id: "off".into(),
                name: "Off".into(),
                enabled: false,
                base_url: "".into(),
                api_key: "".into(),
                models: vec![],
                endpoint_type: "openai_compat".into(),
            },
            ProviderInfo {
                id: "a".into(),
                name: "A".into(),
                enabled: true,
                base_url: "".into(),
                api_key: "".into(),
                models: vec![ModelInfo {
                    id: "m".into(),
                    name: "".into(),
                    context_window: 4096,
                    reasoning: true,
                    tier: "T1".into(),
                    enabled: true,
                    thinking_level_map: None,
                }],
                endpoint_type: "anthropic_messages".into(),
            },
        ],
    };
    let ts = generate_local_provider_ts(&cfg, 9000);
    assert!(ts.contains("baseUrl: \"http://127.0.0.1:9000/v1\""));
    assert!(ts.contains("api: \"anthropic-messages\""));
    assert!(ts.contains("{ id: \"m\", name: \"m\", reasoning: true, contextWindow: 4096, input: [\"text\"]"));
}

fn routed(id: &str, enabled: bool, models: &[&str]) -> ProviderInfo {
    let mut p = ProviderInfo::default();
    p.id = id.to_string();
    p.name = id.to_string();
    p.enabled = enabled;
    p.models = models
        .iter()
        .map(|m| ModelInfo {
            id: m.to_string(),
            name: m.to_string(),
            context_window: 1000,
            reasoning: false,
            tier: "T2".into(),
            enabled: true,
            thinking_level_map: None,
        })
        .collect();
    p
}

#[test]
fn upstream_paths_by_endpoint_type() {
    assert_eq!(upstream_path("openai_compat", "m"), "/v1/chat/completions");
    assert_eq!(upstream_path("openai_responses", "m"), "/v1/responses");
    assert_eq!(upstream_path("anthropic_messages", "m"), "/v1/messages");
    assert_eq!(upstream_path("gemini", "g-1"), "/v1/models/g-1:generateContent");
    assert_eq!(upstream_path("", "m"), "/v1/chat/completions");
}

#[test]
fn upstream_provider_prefers_the_active_one() {
    let cfg = ProviderConfig {
        port: 8001,
        current_model: None,
        current_provider: None,
        providers: vec![routed("a", true, &["x"]), routed("b", true, &["y", "x"]), routed("c", false, &["z"])],
    };
    let active = routed("b", true, &["y", "x"]);
    assert_eq!(upstream_provider(&cfg, &active, "x").map(|p| p.id.as_str()), Some("b"));
    let other = routed("q", true, &["w"]);
    assert_eq!(upstream_provider(&cfg, &other, "x").map(|p| p.id.as_str()), Some("a"));
    assert_eq!(upstream_provider(&cfg, &other, "z").map(|p| p.id.as_str()), Some("c"));
    assert!(upstream_provider(&cfg, &other, "none").is_none());
    let off = routed("b", false, &["y"]);
    assert_eq!(upstream_provider(&cfg, &off, "y").map(|p| p.id.as_str()), Some("b"));
}

#[test]
fn display_names_are_told_apart_by_parent_directories() {
    let mut w = vec![ws("/home/a/proj", false, &[]), ws("/home/b/proj", false, &[]), ws("/srv/tool", false, &[])];
    assert!(meta_tui::utils::names_settle_within(&w, 4));
    meta_tui::utils::compute_display_names(&mut w);
    let names: Vec<&str> = w.iter().map(|x| x.display_name.as_str()).collect();
    assert_eq!(names, vec!["a/proj", "b/proj", "tool"]);
    assert_eq!(w[0].cwd, "/home/a/proj");
}

#[test]
fn display_names_that_never_differ_do_not_settle() {
    let w = vec![ws("/p/x/b", false, &[]), ws("/q/x/b", false, &[])];
    assert!(!meta_tui::utils::names_settle_within(&w, 16));
    let single = vec![ws("/only/one", false, &[])];
    assert!(meta_tui::utils::names_settle_within(&single, 0));
}
