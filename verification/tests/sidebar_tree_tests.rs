use meta_tui::ansi::{Color, Style, StyledSpan, MOD_BOLD};
use meta_tui::components::Theme;
use meta_tui::sidebar_tree::{active_sessions, workspace_tree};
use meta_tui::state::{SessionNode, WorkspaceNode};

fn session(id: &str, name: &str, count: usize, online: bool) -> SessionNode {
    SessionNode { id: id.into(), name: name.into(), file_path: None, message_count: count, is_online: online }
}

fn workspace(name: &str, expanded: bool, sessions: Vec<SessionNode>) -> WorkspaceNode {
    WorkspaceNode { cwd: format!("/w/{}", name), display_name: name.into(), sessions, expanded }
}

fn texts(lines: &[Vec<StyledSpan>]) -> Vec<String> {
    lines.iter().map(|l| l.iter().map(|s| s.0.as_str()).collect::<String>()).collect()
}

fn fg(c: Color) -> Style {
    Style { fg: Some(c), bg: None, underline_color: None, add_modifier: 0, sub_modifier: 0 }
}

#[test]
fn tree_lists_expanded_sessions_with_counts() {
    let th = Theme::cyan();
    let ws = vec![
        workspace("alpha", true, vec![session("a1", "one", 7, true), session("a2", "two", 12345, false)]),
        workspace("beta", false, vec![session("b1", "three", 0, false)]),
    ];
    let (lines, nw, ns) = workspace_tree(&ws, true, 2, "a2", &th);
    assert_eq!(nw, 2);
    assert_eq!(ns, 3);
    assert_eq!(
        texts(&lines),
        vec!["▼ 📁 alpha (2)", "  ├─ ● one   7条", "  └─ ○ two 12345条", "▶ 📁 beta (1)"]
    );
    // The row under the cursor is highlighted; the active session's name is in the accent colour.
    assert_eq!(lines[1][0].1.bg, Some(th.highlight_bg));
    assert_eq!(lines[2][3].1.fg, Some(th.accent));
    assert_eq!(lines[2][0].1.bg, Some(th.bg));
    assert_eq!(lines[0][0].1, fg(th.border_dim));
}

#[test]
fn tree_of_no_workspace_is_empty() {
    let th = Theme::cyan();
    let (lines, nw, ns) = workspace_tree(&Vec::new(), false, 0, "", &th);
    assert!(lines.is_empty());
    assert_eq!((nw, ns), (0, 0));
}

#[test]
fn active_list_shows_online_sessions_only() {
    let th = Theme::cyan();
    let ws = vec![
        workspace("alpha", false, vec![session("0123456789abcdef", "one", 3, true), session("x", "two", 1, false)]),
        workspace("beta", true, vec![session("short", "three", 10, true)]),
    ];
    let lines = active_sessions(&ws, true, 2, &th);
    assert_eq!(texts(&lines), vec!["● one  0123456789ab   3条", "● three  short  10条"]);
    assert_eq!(lines[1][1].1.fg, Some(th.selection_fg));
    assert_eq!(lines[1][1].1.add_modifier & MOD_BOLD, MOD_BOLD);
    assert_eq!(lines[1][1].1.bg, Some(th.highlight_bg));
    assert_eq!(lines[0][1].1.fg, Some(th.success));
    assert_eq!(lines[0][0].1.bg, Some(th.bg));
}

#[test]
fn active_list_without_online_sessions_says_so() {
    let th = Theme::cyan();
    let ws = vec![workspace("alpha", true, vec![session("x", "two", 1, false)])];
    let lines = active_sessions(&ws, false, 0, &th);
    assert_eq!(texts(&lines), vec!["○ 暂无活跃会话"]);
    assert_eq!(lines[0][0].1, fg(th.text_dim));
}
