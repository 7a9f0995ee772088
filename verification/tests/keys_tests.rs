use meta_tui::components::Popup;
use meta_tui::keys::{mouse_down, mouse_drag, tui_key, KeyOutcome, KeyPress};
use meta_tui::main_view::MainView;
use meta_tui::message::{ChatMessage, ContentBlock, EnteredView};
use meta_tui::state::{
    AgentPanelSubsection, FocusPanel, MainViewSubsection, ScrollMode, SelectionPanel, SelectionState, SessionNode,
    SidebarSubsection, SkillInfo, WorkspaceNode,
};
use meta_tui::tui_state::{KeyCode, TuiState};
use meta_tui::Action;

fn key(code: KeyCode) -> KeyPress {
    KeyPress { code, alt: false, ctrl: false }
}

fn alt(code: KeyCode) -> KeyPress {
    KeyPress { code, alt: true, ctrl: false }
}

fn ctrl(code: KeyCode) -> KeyPress {
    KeyPress { code, alt: false, ctrl: true }
}

fn popup() -> Popup {
    Popup { visible: false, title: String::new(), description: String::new() }
}

fn setup() -> (TuiState, MainView, Popup) {
    (TuiState::new(), MainView::default(), popup())
}

#[test]
fn alt_arrows_move_the_focus() {
    let (mut t, mut mv, mut p) = setup();
    assert!(matches!(tui_key(&mut t, &mut mv, &mut p, alt(KeyCode::Left), "a"), KeyOutcome::Act(Action::CycleFocusPanel(-1))));
    assert!(matches!(tui_key(&mut t, &mut mv, &mut p, alt(KeyCode::Right), "a"), KeyOutcome::Act(Action::CycleFocusPanel(1))));
    t.main_view_subsection = MainViewSubsection::Input;
    assert!(matches!(tui_key(&mut t, &mut mv, &mut p, alt(KeyCode::Up), "a"), KeyOutcome::Act(Action::CycleFocusSubsection(-1))));
    assert!(matches!(tui_key(&mut t, &mut mv, &mut p, ctrl(KeyCode::Char('c')), "a"), KeyOutcome::Quit));
    assert!(matches!(tui_key(&mut t, &mut mv, &mut p, ctrl(KeyCode::Char('z')), "a"), KeyOutcome::Abort));
}

fn thinking_message(id: &str) -> ChatMessage {
    let mut m = ChatMessage::assistant("a", "");
    m.id = id.to_string();
    m.content = vec![ContentBlock::Thinking { thinking: "t".into() }, ContentBlock::Text { text: "x".into() }];
    m
}

#[test]
fn alt_up_down_walk_the_blocks_of_the_message_list() {
    let (mut t, mut mv, mut p) = setup();
    t.main_view_subsection = MainViewSubsection::Messages;
    mv.messages = vec![thinking_message("m0"), thinking_message("m1")];
    tui_key(&mut t, &mut mv, &mut p, alt(KeyCode::Down), "a");
    assert_eq!(mv.block_cursor, 1);
    assert_eq!(t.message_cursor, 1);
    assert_eq!(t.scroll_mode, ScrollMode::Pinned);
    tui_key(&mut t, &mut mv, &mut p, alt(KeyCode::Down), "a");
    assert_eq!(mv.block_cursor, 1);
    tui_key(&mut t, &mut mv, &mut p, alt(KeyCode::Up), "a");
    assert_eq!(mv.block_cursor, 0);
    assert_eq!(t.message_cursor, 0);
}

#[test]
fn space_and_enter_on_the_message_list_act_on_the_block() {
    let (mut t, mut mv, mut p) = setup();
    t.main_view_subsection = MainViewSubsection::Messages;
    mv.messages = vec![thinking_message("m0")];
    match tui_key(&mut t, &mut mv, &mut p, key(KeyCode::Char(' ')), "agent") {
        KeyOutcome::Act(Action::ToggleBlock { agent_id, msg_id, block_index }) => {
            assert_eq!((agent_id.as_str(), msg_id.as_str(), block_index), ("agent", "m0", 0));
        },
        other => panic!("unexpected outcome {:?}", other),
    }
    match tui_key(&mut t, &mut mv, &mut p, key(KeyCode::Enter), "agent") {
        KeyOutcome::Act(Action::EnterBlock { msg_id, block_index, .. }) => {
            assert_eq!((msg_id.as_str(), block_index), ("m0", 0));
        },
        other => panic!("unexpected outcome {:?}", other),
    }
}

#[test]
fn enter_without_blocks_shows_the_message_in_the_popup() {
    let (mut t, mut mv, mut p) = setup();
    t.main_view_subsection = MainViewSubsection::Messages;
    mv.messages = vec![ChatMessage::user("a", "hello")];
    assert!(matches!(tui_key(&mut t, &mut mv, &mut p, key(KeyCode::Enter), "a"), KeyOutcome::Done));
    assert!(p.visible);
    assert_eq!(p.title, "你");
    assert_eq!(p.description, "hello");
    assert!(matches!(tui_key(&mut t, &mut mv, &mut p, key(KeyCode::Esc), "a"), KeyOutcome::Done));
    assert!(!p.visible);
}

#[test]
fn message_cursor_moves_and_follows_the_tail() {
    let (mut t, mut mv, mut p) = setup();
    t.main_view_subsection = MainViewSubsection::Messages;
    mv.messages = vec![ChatMessage::user("a", "1"), ChatMessage::user("a", "2"), ChatMessage::user("a", "3")];
    tui_key(&mut t, &mut mv, &mut p, key(KeyCode::Down), "a");
    assert_eq!(t.message_cursor, 1);
    assert_eq!(t.scroll_mode, ScrollMode::TailFollow);
    tui_key(&mut t, &mut mv, &mut p, key(KeyCode::Up), "a");
    assert_eq!(t.message_cursor, 0);
    assert_eq!(t.scroll_mode, ScrollMode::Pinned);
    tui_key(&mut t, &mut mv, &mut p, key(KeyCode::Up), "a");
    assert_eq!(t.message_cursor, 0);
}

#[test]
fn entered_views_scroll_and_esc_leaves_them() {
    let (mut t, mut mv, mut p) = setup();
    t.main_view_subsection = MainViewSubsection::Messages;
    mv.entered_view = Some(EnteredView::FullOutput { title: "x".into(), content: "y".into(), scroll: 0 });
    tui_key(&mut t, &mut mv, &mut p, key(KeyCode::Down), "a");
    tui_key(&mut t, &mut mv, &mut p, key(KeyCode::Down), "a");
    tui_key(&mut t, &mut mv, &mut p, key(KeyCode::Up), "a");
    match &mv.entered_view {
        Some(EnteredView::FullOutput { scroll, .. }) => assert_eq!(*scroll, 1),
        other => panic!("unexpected view {:?}", other),
    }
    assert!(matches!(tui_key(&mut t, &mut mv, &mut p, key(KeyCode::Esc), "a"), KeyOutcome::Act(Action::ExitBlock)));
}

#[test]
fn typing_completing_and_submitting_input() {
    let (mut t, mut mv, mut p) = setup();
    assert_eq!(t.main_view_subsection, MainViewSubsection::Input);
    tui_key(&mut t, &mut mv, &mut p, key(KeyCode::Char('/')), "a");
    assert_eq!(mv.input_buffer, "/");
    let items: Vec<String> = mv.completion_popup.as_ref().unwrap().items.iter().map(|i| i.label.clone()).collect();
    assert_eq!(items, vec!["skill-creator".to_string(), "skill-finder".to_string()]);
    tui_key(&mut t, &mut mv, &mut p, key(KeyCode::Tab), "a");
    tui_key(&mut t, &mut mv, &mut p, key(KeyCode::Tab), "a");
    assert_eq!(mv.completion_popup.as_ref().unwrap().cursor, 1);
    tui_key(&mut t, &mut mv, &mut p, key(KeyCode::Enter), "a");
    assert!(mv.completion_popup.is_none());
    assert_eq!(mv.input_buffer, "/skill:skill-finder ");
    match tui_key(&mut t, &mut mv, &mut p, key(KeyCode::Enter), "a") {
        KeyOutcome::Submit(text) => assert_eq!(text, "/skill:skill-finder"),
        other => panic!("unexpected outcome {:?}", other),
    }
    assert_eq!(mv.input_buffer, "");
    assert!(matches!(tui_key(&mut t, &mut mv, &mut p, key(KeyCode::Enter), "a"), KeyOutcome::Done));
}

#[test]
fn at_opens_file_completion_and_backspace_closes_it() {
    let (mut t, mut mv, mut p) = setup();
    tui_key(&mut t, &mut mv, &mut p, key(KeyCode::Char('@')), "a");
    assert_eq!(mv.input_buffer, "@");
    assert_eq!(mv.completion_popup.as_ref().unwrap().trigger, '@');
    tui_key(&mut t, &mut mv, &mut p, key(KeyCode::Backspace), "a");
    assert_eq!(mv.input_buffer, "");
    assert!(mv.completion_popup.is_none());
    tui_key(&mut t, &mut mv, &mut p, key(KeyCode::Char('h')), "a");
    tui_key(&mut t, &mut mv, &mut p, key(KeyCode::Char('/')), "a");
    assert_eq!(mv.input_buffer, "h/");
    assert!(mv.completion_popup.is_none());
    tui_key(&mut t, &mut mv, &mut p, key(KeyCode::Up), "a");
    assert_eq!(t.main_view_subsection, MainViewSubsection::Messages);
}

#[test]
fn workspace_keys_ask_for_actions() {
    let (mut t, mut mv, mut p) = setup();
    t.focus_panel = FocusPanel::Sidebar;
    t.sidebar_subsection = SidebarSubsection::Workspace;
    t.workspaces = vec![WorkspaceNode {
        cwd: "/w".into(),
        display_name: "w".into(),
        sessions: vec![SessionNode { id: "s1".into(), name: "n".into(), file_path: None, message_count: 0, is_online: false }],
        expanded: true,
    }];
    assert!(matches!(tui_key(&mut t, &mut mv, &mut p, key(KeyCode::Down), "a"), KeyOutcome::Act(Action::SidebarMove(1))));
    t.sidebar_cursor = 1;
    assert!(matches!(tui_key(&mut t, &mut mv, &mut p, key(KeyCode::Enter), "a"), KeyOutcome::Act(Action::ToggleWorkspace(0))));
    t.sidebar_cursor = 2;
    match tui_key(&mut t, &mut mv, &mut p, key(KeyCode::Char(' ')), "a") {
        KeyOutcome::Act(Action::SelectSession(id)) => assert_eq!(id, "s1"),
        other => panic!("unexpected outcome {:?}", other),
    }
    t.sidebar_cursor = 0;
    assert!(matches!(tui_key(&mut t, &mut mv, &mut p, key(KeyCode::Enter), "a"), KeyOutcome::Done));
}

#[test]
fn skill_cursor_stops_at_the_sixth_skill() {
    let (mut t, mut mv, mut p) = setup();
    t.focus_panel = FocusPanel::AgentPanel;
    t.agent_panel_subsection = AgentPanelSubsection::Skills;
    t.skills = (0..9).map(|i| SkillInfo { name: format!("s{}", i), description: String::new() }).collect();
    for _ in 0..10 {
        tui_key(&mut t, &mut mv, &mut p, key(KeyCode::Down), "a");
    }
    assert_eq!(t.skill_cursor, 5);
    tui_key(&mut t, &mut mv, &mut p, key(KeyCode::Up), "a");
    assert_eq!(t.skill_cursor, 4);
}

#[test]
fn mouse_selection_stays_in_its_panel() {
    let mut sel = SelectionState::default();
    mouse_down(&mut sel, 50, 3, 120);
    assert_eq!(sel.panel, SelectionPanel::Content);
    assert!(sel.active);
    mouse_drag(&mut sel, 100, 5, 120);
    assert_eq!(sel.focus, Some((79, 5)));
    mouse_drag(&mut sel, 2, 6, 120);
    assert_eq!(sel.focus, Some((40, 6)));
    mouse_down(&mut sel, 10, 1, 120);
    assert_eq!(sel.panel, SelectionPanel::Sidebar);
    mouse_drag(&mut sel, 60, 1, 120);
    assert_eq!(sel.focus, Some((39, 1)));
    mouse_down(&mut sel, 90, 1, 120);
    assert_eq!(sel.panel, SelectionPanel::AgentPanel);
    mouse_drag(&mut sel, 45, 2, 120);
    assert_eq!(sel.focus, Some((80, 2)));
}
