use meta_tui::ansi::{Color, Style, StyledSpan, MOD_BOLD};
use meta_tui::components::Theme;
use meta_tui::provider::{ModelInfo, ProviderInfo};
use meta_tui::sidebar_footer::sidebar_footer;
use meta_tui::state::SidebarSubsection;
use meta_tui::tui_state::TuiState;

fn model(id: &str, cw: u32, tier: &str, enabled: bool) -> ModelInfo {
    ModelInfo {
        thinking_level_map: None,
        id: id.into(),
        name: id.into(),
        context_window: cw,
        reasoning: false,
        tier: tier.into(),
        enabled,
    }
}

fn provider(id: &str, ep: &str, enabled: bool, models: Vec<ModelInfo>) -> ProviderInfo {
    ProviderInfo {
        endpoint_type: ep.into(),
        id: id.into(),
        name: id.to_uppercase(),
        enabled,
        base_url: "".into(),
        api_key: "".into(),
        models,
    }
}

fn texts(lines: &[Vec<StyledSpan>]) -> Vec<String> {
    lines.iter().map(|l| l.iter().map(|s| s.0.as_str()).collect::<String>()).collect()
}

fn fg(c: Color) -> Style {
    Style { fg: Some(c), bg: None, underline_color: None, add_modifier: 0, sub_modifier: 0 }
}

fn fg_bg(f: Color, b: Color) -> Style {
    Style { bg: Some(b), ..fg(f) }
}

#[test]
fn footer_without_providers_offers_to_add_one() {
    let theme = Theme::cyan();
    let mut t = TuiState::new();
    t.router_running = false;
    let lines = sidebar_footer(&t, false, 6, 20, &theme);
    assert_eq!(texts(&lines), vec!["─────", " PROVIDER (0)", "  ○ [+] add provider"]);
    assert_eq!(lines[0][0].1, fg(theme.border_dim));
    assert_eq!(lines[1][1].1, Style { add_modifier: MOD_BOLD, ..fg(theme.heading) });
    t.router_running = true;
    t.sidebar_subsection = SidebarSubsection::Provider;
    t.provider_cursor = 1;
    let lines = sidebar_footer(&t, true, 1, 20, &theme);
    assert_eq!(texts(&lines), vec!["─", "▎PROVIDER (0) ◇ 无配置", "  ◆ [+] add provider"]);
    assert_eq!(lines[1][2].1, fg(theme.success));
    assert_eq!(lines[2][0].1, fg_bg(theme.selection_fg, theme.highlight_bg));
}

#[test]
fn footer_lists_providers_and_the_models_in_use() {
    let theme = Theme::cyan();
    let mut t = TuiState::new();
    t.router_running = true;
    t.providers = vec![
        provider("a", "openai_compat", true, vec![model("m1", 128000, "T1", true), model("m2", 2000000, "T2", true), model("off", 1000, "T3", false)]),
        provider("b", "gemini", false, vec![]),
    ];
    t.active_provider_idx = Some(0);
    t.current_model = "m2".into();
    let lines = sidebar_footer(&t, false, 10, 20, &theme);
    assert_eq!(
        texts(&lines),
        vec![
            "─────────",
            " PROVIDER (2) ◈ 已就绪",
            "  ◆ A  (3 models)",
            "  ⊗ B  (0 models) [gemini]",
            "  ○ [+] add provider",
            "─────────",
            " MODEL  a  3 models",
            "  ○ [T1] 128K m1",
            "  ◆ [T2] 2M m2 ←",
        ]
    );
    assert_eq!(lines[2][0].1, fg_bg(theme.success, theme.bg));
    assert_eq!(lines[3][0].1, fg_bg(theme.text_dim, theme.bg));
    assert_eq!(lines[8][0].1, fg_bg(theme.success, theme.bg));
}

#[test]
fn footer_model_search_cursor_and_scroll() {
    let theme = Theme::cyan();
    let mut t = TuiState::new();
    let models = (0..10).map(|i| model(&format!("m{}", i), 8000, "T1", true)).collect();
    t.providers = vec![provider("p", "openai_compat", true, models)];
    t.sidebar_subsection = SidebarSubsection::Model;
    t.model_cursor = 9;
    let lines = sidebar_footer(&t, true, 4, 10, &theme);
    assert_eq!(lines.len(), 10);
    assert_eq!(texts(&lines)[5], "▎MODEL  p  10 models");
    assert_eq!(texts(&lines)[6], "  ○ [T1] 8K m5");
    assert_eq!(texts(&lines)[9], "  ○ [T1] 8K m8");
    assert_eq!(lines[9][0].1, fg_bg(theme.selection_fg, theme.highlight_bg));
    t.model_search = "M1".into();
    t.model_cursor = 0;
    let lines = sidebar_footer(&t, true, 4, 10, &theme);
    let tx = texts(&lines);
    assert_eq!(tx[6], "  🔍 M1");
    assert_eq!(tx[7], "  ○ [T1] 8K m1");
    assert_eq!(tx.len(), 8);
    assert_eq!(lines[5][1].1, Style { bg: Some(theme.highlight_bg), add_modifier: MOD_BOLD, ..fg(theme.accent) });
}
