use meta_tui::ansi::{Color, Style, StyledSpan, MOD_BOLD};
use meta_tui::components::{AgentPanel, Theme};
use meta_tui::state::{AgentPanelSubsection, AgentStatus, McpInfo, SkillInfo, SubAgentInfo};

fn texts(lines: &[Vec<StyledSpan>]) -> Vec<String> {
    lines.iter().map(|l| l.iter().map(|s| s.0.as_str()).collect::<String>()).collect()
}

fn fg(c: Color) -> Style {
    Style { fg: Some(c), bg: None, underline_color: None, add_modifier: 0, sub_modifier: 0 }
}

fn sub(name: &str) -> SubAgentInfo {
    SubAgentInfo { name: name.into(), description: format!("{} agent", name), model: String::new() }
}

fn skill(name: &str) -> SkillInfo {
    SkillInfo { name: name.into(), description: String::new() }
}

#[test]
fn empty_panel_shows_every_section() {
    let theme = Theme::cyan();
    let p = AgentPanel::default();
    let lines = p.panel_lines(&theme);
    assert_eq!(
        texts(&lines),
        vec![" AGENTS (0)", "● pi  closed", "", " SKILLS (0)", "○ 暂无", "", " MCPS (0)", "○ 暂无", "", " TASKS", "○ 暂无任务"]
    );
    assert_eq!(lines[0][1].1, Style { add_modifier: MOD_BOLD, ..fg(theme.heading) });
    assert_eq!(lines[1][0].1, Style { bg: Some(theme.highlight_bg), ..fg(Color::Rgb(132, 155, 156)) });
}

#[test]
fn panel_lists_subagents_skills_and_servers() {
    let theme = Theme::cyan();
    let mut p = AgentPanel::default();
    p.active_agent = "main".into();
    p.agent_status = Some(AgentStatus::Running);
    p.subagents = vec![sub("main"), sub("scout"), sub("review")];
    p.skills = (0..8).map(|i| skill(&format!("s{}", i))).collect();
    p.mcps = vec![
        McpInfo { name: "fs".into(), command: "npx fs".into(), tool_count: 0 },
        McpInfo { name: "web".into(), command: String::new(), tool_count: 4 },
    ];
    p.has_focus = true;
    p.subsection = AgentPanelSubsection::Agents;
    p.cursor = 2;
    let lines = p.panel_lines(&theme);
    assert_eq!(
        texts(&lines),
        vec![
            "▎AGENTS (3)",
            "● main  running",
            "○ scout  scout agent",
            "○ review  review agent",
            "",
            " SKILLS (8)",
            "○ s0",
            "○ s1",
            "○ s2",
            "○ s3",
            "○ s4",
            "○ s5",
            "… 还有 2 个",
            "",
            " MCPS (2)",
            "◈ fs  npx fs",
            "◈ web  (4 tools)",
            "",
            " TASKS",
            "○ 暂无任务",
        ]
    );
    let sel = Style { bg: Some(theme.highlight_bg), ..fg(theme.selection_fg) };
    assert_eq!(lines[2][0].1, sel);
    assert_eq!(lines[3][0].1, Style { bg: Some(theme.bg), ..fg(theme.text_dim) });
    assert_eq!(lines[15][2].1, Style { bg: Some(theme.bg), ..fg(theme.text_dim) });
    p.subsection = AgentPanelSubsection::Tasks;
    let lines = p.panel_lines(&theme);
    assert_eq!(texts(&lines)[18], "▎TASKS");
    assert_eq!(lines[18][0].1, Style { bg: Some(theme.highlight_bg), ..fg(theme.accent) });
}
