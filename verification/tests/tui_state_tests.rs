use meta_tui::provider::{ModelInfo, ProviderInfo};
use meta_tui::state::{
    AgentPanelSubsection, FocusPanel, MainViewSubsection, SessionNode, SidebarSubsection, WorkspaceNode,
};
use meta_tui::tui_state::{KeyCode, TuiState};

fn model(id: &str, name: &str, context_window: u32, reasoning: bool, tier: &str) -> ModelInfo {
    ModelInfo {
        thinking_level_map: None,
        id: id.into(),
        name: name.into(),
        context_window,
        reasoning,
        tier: tier.into(),
        enabled: true,
    }
}

fn provider(id: &str, name: &str, models: Vec<ModelInfo>) -> ProviderInfo {
    ProviderInfo {
        endpoint_type: "openai_compat".into(),
        id: id.into(),
        name: name.into(),
        enabled: true,
        base_url: "".into(),
        api_key: "".into(),
        models,
    }
}

#[test]
fn test_provider_enter_opens_popup() {
    let mut state = TuiState::new();
    state.providers = vec![ProviderInfo {
        endpoint_type: "openai_compat".into(),
        id: "deepseek".into(),
        name: "DeepSeek".into(),
        enabled: true,
        base_url: "https://api.deepseek.com/v1".into(),
        api_key: "sk-test".into(),
        models: vec![model("deepseek-chat", "DeepSeek Chat", 64000, false, "T2")],
    }];
    state.focus_panel = FocusPanel::Sidebar;
    state.sidebar_subsection = SidebarSubsection::Provider;
    state.provider_popup = None;
    state.provider_cursor = 1;

    state.handle_provider_key(KeyCode::Enter);

    let editor = state.provider_editor.as_ref().expect("Enter 应该打开 Provider 编辑表单");
    assert!(!editor.is_new, "编辑已有 provider 时 is_new 应为 false");
    assert_eq!(editor.draft.id, "deepseek", "编辑表单应预填充 provider 数据");
    assert_eq!(state.provider_popup, None, "不应同时打开 popup");
}

#[test]
fn test_provider_enter_on_empty_list_keeps_popup_closed() {
    let mut state = TuiState::new();
    state.focus_panel = FocusPanel::Sidebar;
    state.sidebar_subsection = SidebarSubsection::Provider;
    state.provider_popup = None;
    state.provider_cursor = 0;

    state.handle_provider_key(KeyCode::Enter);

    assert_eq!(state.provider_popup, None, "无 provider 时 Enter 不应打开 popup");
}

#[test]
fn test_provider_popup_esc_closes() {
    let mut state = TuiState::new();
    state.providers = vec![ProviderInfo {
        endpoint_type: "openai_compat".into(),
        id: "deepseek".into(),
        name: "DeepSeek".into(),
        enabled: true,
        base_url: "https://api.deepseek.com/v1".into(),
        api_key: "sk-test".into(),
        models: vec![],
    }];
    state.focus_panel = FocusPanel::Sidebar;
    state.sidebar_subsection = SidebarSubsection::Provider;
    state.provider_popup = Some(0);

    state.handle_provider_key(KeyCode::Esc);
    assert_eq!(state.provider_popup, None, "Esc 应关闭 popup");
}

#[test]
fn test_provider_popup_enter_activates_first_model() {
    let mut state = TuiState::new();
    state.current_model = "old-model".into();
    state.providers = vec![ProviderInfo {
        endpoint_type: "openai_compat".into(),
        id: "deepseek".into(),
        name: "DeepSeek".into(),
        enabled: true,
        base_url: "https://api.deepseek.com/v1".into(),
        api_key: "sk-test".into(),
        models: vec![model("deepseek-chat", "DeepSeek Chat", 64000, false, "T2")],
    }];
    state.focus_panel = FocusPanel::Sidebar;
    state.sidebar_subsection = SidebarSubsection::Provider;
    state.provider_popup = Some(0);

    state.handle_provider_key(KeyCode::Enter);
    assert_eq!(state.current_model, "deepseek-chat", "Enter 应激活第一个 model");
    assert_eq!(state.active_provider_idx, Some(0), "Enter 应设置 active_provider_idx");
    assert_eq!(state.provider_popup, None, "激活后 popup 应关闭");
}

#[test]
fn test_provider_nav_down_up() {
    let mut state = TuiState::new();
    state.providers = vec![provider("a", "A", vec![]), provider("b", "B", vec![]), provider("c", "C", vec![])];
    state.focus_panel = FocusPanel::Sidebar;
    state.sidebar_subsection = SidebarSubsection::Provider;
    state.provider_cursor = 0;

    state.handle_provider_key(KeyCode::Down);
    assert_eq!(state.provider_cursor, 1, "Down 应移动到第一个 provider");
    state.handle_provider_key(KeyCode::Down);
    assert_eq!(state.provider_cursor, 2, "Down 应移动到第二个 provider");
    state.handle_provider_key(KeyCode::Down);
    assert_eq!(state.provider_cursor, 3, "Down 应移动到第三个 provider");
    state.handle_provider_key(KeyCode::Down);
    assert_eq!(state.provider_cursor, 4, "Down 应到 add provider 行");
    state.handle_provider_key(KeyCode::Down);
    assert_eq!(state.provider_cursor, 4, "Down 在末尾不应越界");
    state.handle_provider_key(KeyCode::Up);
    assert_eq!(state.provider_cursor, 3, "Up 应回到第三个");
    state.handle_provider_key(KeyCode::Up);
    assert_eq!(state.provider_cursor, 2, "Up 应回到第二个");
    state.handle_provider_key(KeyCode::Up);
    assert_eq!(state.provider_cursor, 1, "Up 应回到第一个");
    state.handle_provider_key(KeyCode::Up);
    assert_eq!(state.provider_cursor, 0, "Up 应回到 title");
    state.handle_provider_key(KeyCode::Up);
    assert_eq!(state.provider_cursor, 0, "Up 在开头不应越界");
}

#[test]
fn test_model_nav_down_up_enter() {
    let mut state = TuiState::new();
    state.current_model = "m1".to_string();
    state.active_provider_idx = Some(0);
    state.providers = vec![provider("ds", "DS", vec![model("m1", "M1", 1000, false, "T1"), model("m2", "M2", 2000, true, "T2")])];
    state.focus_panel = FocusPanel::Sidebar;
    state.sidebar_subsection = SidebarSubsection::Model;
    state.model_cursor = 0;

    state.handle_model_key(KeyCode::Down);
    assert_eq!(state.model_cursor, 1, "Down 应移动到第一个 model");
    state.handle_model_key(KeyCode::Down);
    assert_eq!(state.model_cursor, 2, "Down 应移动到第二个 model");
    state.handle_model_key(KeyCode::Enter);
    assert_eq!(state.current_model, "m2", "Enter 应切换到选中的 model");
    assert_eq!(state.active_provider_idx, Some(0), "Enter 应保持当前活跃 Provider 不变");
}

#[test]
fn test_model_space_toggle_activate() {
    let mut state = TuiState::new();
    state.current_model = "m1".into();
    state.active_provider_idx = Some(0);
    state.providers = vec![provider("ds", "DS", vec![model("m1", "M1", 1000, false, "T1"), model("m2", "M2", 2000, true, "T2")])];
    state.focus_panel = FocusPanel::Sidebar;
    state.sidebar_subsection = SidebarSubsection::Model;
    state.model_cursor = 2;

    state.handle_model_key(KeyCode::Char(' '));
    assert_eq!(state.current_model, "m2", "Space 应切换到 m2");
    assert_eq!(state.active_provider_idx, Some(0), "不应切换 Provider");
    assert!(state.model_just_switched);
}

#[test]
fn test_model_space_toggle_deactivate() {
    let mut state = TuiState::new();
    state.current_model = "m1".into();
    state.active_provider_idx = Some(0);
    state.providers = vec![provider("ds", "DS", vec![model("m1", "M1", 1000, false, "T1")])];
    state.focus_panel = FocusPanel::Sidebar;
    state.sidebar_subsection = SidebarSubsection::Model;
    state.model_cursor = 1;

    state.handle_model_key(KeyCode::Char(' '));
    assert_eq!(state.current_model, "", "Space 应取消选中");
    assert_eq!(
        state.active_provider_idx,
        Some(0),
        "取消选中应保留 active_provider_idx（MODEL 区仍显示原 Provider 模型）"
    );
}

#[test]
fn test_model_space_does_not_switch_provider_on_same_model_id() {
    let mut state = TuiState::new();
    state.providers = vec![
        provider("elysiver", "Elysiver", vec![model("shared-model", "Shared", 1000, false, "T2")]),
        provider("deepseek", "DeepSeek", vec![model("shared-model", "Shared", 2000, true, "T2")]),
    ];
    state.focus_panel = FocusPanel::Sidebar;
    state.sidebar_subsection = SidebarSubsection::Model;
    state.model_cursor = 1;
    state.active_provider_idx = Some(1);
    state.current_model = "shared-model".into();

    state.handle_model_key(KeyCode::Char(' '));
    assert_eq!(state.current_model, "", "Space 应取消选中");

    state.handle_model_key(KeyCode::Char(' '));
    assert_eq!(state.current_model, "shared-model");
    assert_eq!(state.active_provider_idx, Some(1), "同名模型不应导致 Provider 跳到第一个 (elysiver)");
}

#[test]
fn test_model_enter_does_not_switch_provider_on_same_model_id() {
    let mut state = TuiState::new();
    state.providers = vec![
        provider("a", "A", vec![model("dup", "Dup", 1000, false, "T1")]),
        provider("b", "B", vec![model("dup", "Dup", 2000, true, "T2")]),
    ];
    state.focus_panel = FocusPanel::Sidebar;
    state.sidebar_subsection = SidebarSubsection::Model;
    state.model_cursor = 1;
    state.active_provider_idx = Some(1);
    state.current_model = "other".into();

    state.handle_model_key(KeyCode::Enter);
    assert_eq!(state.current_model, "dup");
    assert_eq!(state.active_provider_idx, Some(1), "Enter 不应把 Provider 从 B 切到 A");
}

#[test]
fn test_provider_space_sets_active_provider_idx() {
    let mut state = TuiState::new();
    state.providers = vec![provider("ds", "DS", vec![model("m1", "M1", 1000, false, "T1")])];
    state.focus_panel = FocusPanel::Sidebar;
    state.sidebar_subsection = SidebarSubsection::Provider;
    state.provider_cursor = 1;

    state.handle_provider_key(KeyCode::Char(' '));
    assert_eq!(state.active_provider_idx, Some(0));
    assert_eq!(state.current_model, "m1");
}

#[test]
fn test_provider_space_toggle_deactivates() {
    let mut state = TuiState::new();
    state.providers = vec![provider("ds", "DS", vec![model("m1", "M1", 1000, false, "T1")])];
    state.focus_panel = FocusPanel::Sidebar;
    state.sidebar_subsection = SidebarSubsection::Provider;
    state.provider_cursor = 1;
    state.active_provider_idx = Some(0);
    state.current_model = "m1".into();

    state.handle_provider_key(KeyCode::Char(' '));
    assert_eq!(state.active_provider_idx, None);
    assert_eq!(state.current_model, "");
}

#[test]
fn test_provider_space_does_not_cross_affect() {
    let mut state = TuiState::new();
    state.providers = vec![
        provider("a", "A", vec![model("ma", "MA", 1000, false, "T1")]),
        provider("b", "B", vec![model("mb", "MB", 2000, true, "T2")]),
    ];
    state.focus_panel = FocusPanel::Sidebar;
    state.sidebar_subsection = SidebarSubsection::Provider;

    state.provider_cursor = 1;
    state.handle_provider_key(KeyCode::Char(' '));
    assert_eq!(state.active_provider_idx, Some(0));
    assert_eq!(state.current_model, "ma");

    state.provider_cursor = 2;
    state.handle_provider_key(KeyCode::Char(' '));
    assert_eq!(state.active_provider_idx, Some(1), "Space 应激活 Provider B，而不是保持 A");
    assert_eq!(state.current_model, "mb");

    assert_ne!(state.active_provider_idx, Some(0));
}

#[test]
fn test_provider_d_key_clears_active_idx_when_disabling_active() {
    let mut state = TuiState::new();
    state.persistence_disabled = true;
    state.providers = vec![provider("ds", "DS", vec![model("m1", "M1", 1000, false, "T1")])];
    state.focus_panel = FocusPanel::Sidebar;
    state.sidebar_subsection = SidebarSubsection::Provider;
    state.provider_cursor = 0;
    state.active_provider_idx = Some(0);
    state.current_model = "m1".into();

    state.handle_provider_key(KeyCode::Char('d'));
    assert!(!state.providers[0].enabled, "Provider 应被禁用");
    assert_eq!(state.active_provider_idx, None, "禁用活跃 Provider 应清除 active_provider_idx");
    assert_eq!(state.current_model, "", "禁用活跃 Provider 应清除 current_model");
}

#[test]
fn test_provider_d_key_keeps_active_idx_when_disabling_inactive() {
    let mut state = TuiState::new();
    state.persistence_disabled = true;
    state.providers = vec![
        provider("a", "A", vec![model("ma", "MA", 1000, false, "T1")]),
        provider("b", "B", vec![model("mb", "MB", 2000, true, "T2")]),
    ];
    state.focus_panel = FocusPanel::Sidebar;
    state.sidebar_subsection = SidebarSubsection::Provider;
    state.active_provider_idx = Some(0);
    state.current_model = "ma".into();

    state.provider_cursor = 1;
    state.handle_provider_key(KeyCode::Char('d'));
    assert!(!state.providers[1].enabled, "Provider B 应被禁用");
    assert_eq!(state.active_provider_idx, Some(0), "禁用非活跃 Provider 不应清除 active_provider_idx");
    assert_eq!(state.current_model, "ma", "current_model 不应被清除");
}

#[test]
fn test_active_provider_for_models_prefers_idx() {
    let mut state = TuiState::new();
    state.current_model = "shared".into();
    state.providers = vec![
        provider("first", "First", vec![model("shared", "Shared", 1000, false, "T1")]),
        provider("second", "Second", vec![model("shared", "Shared", 2000, true, "T2")]),
    ];
    state.active_provider_idx = Some(1);
    let ap = state.active_provider_for_models().unwrap();
    assert_eq!(ap.id, "second", "应按 idx 返回 second，不是 first");
}

#[test]
fn test_active_provider_for_models_fallback_to_current_model() {
    let mut state = TuiState::new();
    state.current_model = "model-b".into();
    state.providers = vec![
        provider("a", "A", vec![model("model-a", "MA", 1000, false, "T1")]),
        provider("b", "B", vec![model("model-b", "MB", 2000, true, "T2")]),
    ];
    state.active_provider_idx = None;
    let ap = state.active_provider_for_models().unwrap();
    assert_eq!(ap.id, "b", "回退应按 current_model 匹配找到 Provider B");
}

#[test]
fn test_active_provider_index_prefers_idx() {
    let mut state = TuiState::new();
    state.current_model = "shared".into();
    state.providers = vec![
        provider("first", "First", vec![model("shared", "Shared", 1000, false, "T1")]),
        provider("second", "Second", vec![model("shared", "Shared", 2000, true, "T2")]),
    ];
    state.active_provider_idx = Some(1);
    let idx = state.active_provider_index().unwrap();
    assert_eq!(idx, 1, "应返回 idx=1，不按 current_model 匹配到 0");
}

#[test]
fn test_active_provider_index_fallback() {
    let mut state = TuiState::new();
    state.current_model = "m2".into();
    state.providers = vec![provider("p", "P", vec![model("m1", "M1", 1000, false, "T1"), model("m2", "M2", 2000, true, "T2")])];
    state.active_provider_idx = None;
    let idx = state.active_provider_index().unwrap();
    assert_eq!(idx, 0, "回退应按 current_model='m2' 匹配到索引 0");
}

#[test]
fn test_filtered_models_uses_active_provider() {
    let mut state = TuiState::new();
    state.current_model = "m1".into();
    state.providers = vec![
        provider("p0", "P0", vec![model("m1", "M1", 1000, false, "T1")]),
        provider("p1", "P1", vec![model("m2", "M2", 2000, true, "T2")]),
    ];
    state.active_provider_idx = Some(1);

    let models = state.filtered_models();
    assert_eq!(models.len(), 1);
    assert_eq!(models[0].id, "m2", "应从 p1 取模型，不是 p0");
}

#[test]
fn test_handle_provider_key_space_on_disabled_provider_noop_via_guard() {
    let mut state = TuiState::new();
    state.providers = vec![ProviderInfo {
        endpoint_type: "openai_compat".into(),
        id: "ds".into(),
        name: "DS".into(),
        enabled: false,
        base_url: "".into(),
        api_key: "".into(),
        models: vec![],
    }];
    state.focus_panel = FocusPanel::Sidebar;
    state.sidebar_subsection = SidebarSubsection::Provider;
    state.provider_cursor = 0;
    state.current_model = "x".into();

    state.handle_provider_key(KeyCode::Char(' '));
    assert_eq!(state.current_model, "x", "无模型的 provider 不应切换 current_model");
    assert_eq!(state.active_provider_idx, None, "无模型的 provider 不应设为活跃");
}

#[test]
fn provider_plus_adds_template_and_requests_save() {
    let mut state = TuiState::new();
    state.provider_cursor = 1;
    assert!(state.handle_provider_key(KeyCode::Char('+')));
    assert_eq!(state.providers.len(), 1);
    assert_eq!(state.providers[0].id, "new-provider");
    assert_eq!(state.providers[0].base_url, "https://api.openai.com/v1");
    assert_eq!(state.providers[0].models[0].id, "gpt-4o");
    assert_eq!(state.providers[0].models[0].tier, "T3");
    assert!(state.config_save_pending);
}

#[test]
fn provider_changes_are_not_saved_when_persistence_is_disabled() {
    let mut state = TuiState::new();
    state.persistence_disabled = true;
    state.handle_provider_key(KeyCode::Char('+'));
    assert_eq!(state.providers.len(), 1);
    assert!(!state.config_save_pending);
}

#[test]
fn provider_form_new_provider_typing_and_saving() {
    let mut state = TuiState::new();
    state.persistence_disabled = true;
    state.provider_cursor = 1;
    // empty list: Enter opens the form of a new provider
    state.handle_provider_key(KeyCode::Enter);
    {
        let e = state.provider_editor.as_ref().unwrap();
        assert!(e.is_new);
        assert_eq!(e.index, 0);
        assert_eq!(e.field_focus, 6);
        assert_eq!(e.draft.endpoint_type, "openai_compat");
    }
    // Space on the endpoint field cycles the endpoint type
    state.handle_provider_key(KeyCode::Char(' '));
    assert_eq!(state.provider_editor.as_ref().unwrap().draft.endpoint_type, "openai_responses");
    // Tab moves to the id field (focus order 6, 0, 1, 2, 3, 5, 4)
    state.handle_provider_key(KeyCode::Tab);
    assert_eq!(state.provider_editor.as_ref().unwrap().field_focus, 0);
    state.handle_provider_key(KeyCode::Char('x'));
    state.handle_provider_key(KeyCode::Char('y'));
    state.handle_provider_key(KeyCode::Backspace);
    assert_eq!(state.provider_editor.as_ref().unwrap().draft.id, "x");
    // Enter (not on the models field) saves
    state.handle_provider_key(KeyCode::Enter);
    assert!(state.provider_editor.is_none());
    assert_eq!(state.providers.len(), 1);
    assert_eq!(state.providers[0].id, "x");
    assert_eq!(state.providers[0].endpoint_type, "openai_responses");
}

#[test]
fn provider_form_leaving_api_key_starts_model_fetch() {
    let mut state = TuiState::new();
    state.providers = vec![ProviderInfo {
        endpoint_type: "openai_compat".into(),
        id: "p".into(),
        name: "P".into(),
        enabled: true,
        base_url: "https://x".into(),
        api_key: "k".into(),
        models: vec![],
    }];
    state.provider_cursor = 1;
    state.handle_provider_key(KeyCode::Char('e'));
    // focus 6 -> 0 -> 1 -> 2 -> 3 (API key)
    for _ in 0..4 {
        state.handle_provider_key(KeyCode::Down);
    }
    assert_eq!(state.provider_editor.as_ref().unwrap().field_focus, 3);
    assert!(!state.provider_editor.as_ref().unwrap().models_fetching);
    state.handle_provider_key(KeyCode::Down);
    assert_eq!(state.provider_editor.as_ref().unwrap().field_focus, 5);
    assert!(state.provider_editor.as_ref().unwrap().models_fetching);
}

#[test]
fn model_manager_edit_add_and_commit() {
    let mut state = TuiState::new();
    state.persistence_disabled = true;
    state.providers = vec![provider("p", "P", vec![model("m1", "", 1000, false, "T1")])];
    state.provider_cursor = 1;
    state.handle_provider_key(KeyCode::Char('e'));
    assert_eq!(state.provider_editor.as_ref().unwrap().models_text, "m1:T1:1000");
    // move to the models field: 6 -> 0 -> 1 -> 2 -> 3 -> 5
    for _ in 0..5 {
        state.handle_provider_key(KeyCode::Tab);
    }
    assert_eq!(state.provider_editor.as_ref().unwrap().field_focus, 5);
    // Enter opens the model manager with the parsed models
    state.handle_provider_key(KeyCode::Enter);
    assert!(state.provider_editor.as_ref().unwrap().model_mgr.is_some());
    // Enter on model 0 opens its field editor
    state.handle_provider_key(KeyCode::Enter);
    {
        let fe = state.provider_editor.as_ref().unwrap().model_mgr.as_ref().unwrap().editor.as_ref().unwrap();
        assert_eq!(fe.draft_id, "m1");
        assert_eq!(fe.draft_ctx, "1000");
    }
    // set the tier to t3 (uppercased on save)
    state.handle_provider_key(KeyCode::Tab);
    state.handle_provider_key(KeyCode::Backspace);
    state.handle_provider_key(KeyCode::Backspace);
    state.handle_provider_key(KeyCode::Char('t'));
    state.handle_provider_key(KeyCode::Char('3'));
    state.handle_provider_key(KeyCode::Enter);
    {
        let e = state.provider_editor.as_ref().unwrap();
        assert!(e.model_mgr.as_ref().unwrap().editor.is_none());
        assert_eq!(e.draft.models[0].tier, "T3");
        assert!(e.draft.models[0].reasoning);
    }
    // Down to "add model", Enter adds a model and edits it; Esc closes its editor
    state.handle_provider_key(KeyCode::Down);
    state.handle_provider_key(KeyCode::Enter);
    state.handle_provider_key(KeyCode::Esc);
    assert_eq!(state.provider_editor.as_ref().unwrap().draft.models.len(), 2);
    assert_eq!(state.provider_editor.as_ref().unwrap().draft.models[1].id, "new-model");
    // Down to "done", Enter saves the provider
    state.handle_provider_key(KeyCode::Down);
    state.handle_provider_key(KeyCode::Down);
    state.handle_provider_key(KeyCode::Enter);
    assert!(state.provider_editor.is_none());
    assert_eq!(state.providers[0].models.len(), 2);
    assert_eq!(state.providers[0].models[0].tier, "T3");
}

#[test]
fn model_field_editor_rejects_bad_tier_and_context() {
    let mut state = TuiState::new();
    state.providers = vec![provider("p", "P", vec![model("m1", "", 1000, false, "T1")])];
    state.provider_cursor = 1;
    state.handle_provider_key(KeyCode::Char('e'));
    for _ in 0..5 {
        state.handle_provider_key(KeyCode::Tab);
    }
    state.handle_provider_key(KeyCode::Enter);
    state.handle_provider_key(KeyCode::Enter);
    // tier "T1x" is not a tier: focus goes to the tier field
    state.handle_provider_key(KeyCode::Tab);
    state.handle_provider_key(KeyCode::Char('x'));
    state.handle_provider_key(KeyCode::Enter);
    {
        let fe = state.provider_editor.as_ref().unwrap().model_mgr.as_ref().unwrap().editor.as_ref().unwrap();
        assert_eq!(fe.field_focus, 1);
    }
    state.handle_provider_key(KeyCode::Backspace);
    // context "0" is not positive: focus goes to the context field
    state.handle_provider_key(KeyCode::Tab);
    for _ in 0..4 {
        state.handle_provider_key(KeyCode::Backspace);
    }
    state.handle_provider_key(KeyCode::Char('0'));
    state.handle_provider_key(KeyCode::Enter);
    let fe = state.provider_editor.as_ref().unwrap().model_mgr.as_ref().unwrap().editor.as_ref().unwrap();
    assert_eq!(fe.field_focus, 2);
}

#[test]
fn model_search_filters_case_insensitively() {
    let mut state = TuiState::new();
    state.providers = vec![provider("p", "P", vec![model("GPT-4o", "", 1, false, "T1"), model("beta", "", 1, false, "T1")])];
    state.active_provider_idx = Some(0);
    state.handle_model_key(KeyCode::Char('g'));
    state.handle_model_key(KeyCode::Char('p'));
    let f = state.filtered_models();
    assert_eq!(f.len(), 1);
    assert_eq!(f[0].id, "GPT-4o");
    state.handle_model_key(KeyCode::Esc);
    assert_eq!(state.filtered_models().len(), 2);
    assert_eq!(state.model_search, "");
}

fn workspace(cwd: &str, expanded: bool, n: usize) -> WorkspaceNode {
    WorkspaceNode {
        cwd: cwd.into(),
        display_name: cwd.into(),
        sessions: (0..n)
            .map(|i| SessionNode {
                id: format!("{}-{}", cwd, i),
                name: String::new(),
                file_path: None,
                message_count: 0,
                is_online: false,
            })
            .collect(),
        expanded,
    }
}

#[test]
fn sidebar_rows_and_items_agree() {
    let mut state = TuiState::new();
    state.workspaces = vec![workspace("/a", true, 2), workspace("/b", false, 3), workspace("/c", true, 1)];
    let count = state.sidebar_visible_count();
    assert_eq!(count, 1 + 3 + 1 + 2);
    assert_eq!(state.sidebar_item_at(0), None);
    assert_eq!(state.sidebar_item_at(1), Some((true, 0, None)));
    assert_eq!(state.sidebar_item_at(2), Some((false, 0, Some(0))));
    assert_eq!(state.sidebar_item_at(3), Some((false, 0, Some(1))));
    assert_eq!(state.sidebar_item_at(4), Some((true, 1, None)));
    assert_eq!(state.sidebar_item_at(5), Some((true, 2, None)));
    assert_eq!(state.sidebar_item_at(6), Some((false, 2, Some(0))));
    assert_eq!(state.sidebar_item_at(7), None);
    for c in 1..count {
        assert!(state.sidebar_item_at(c).is_some());
    }
}

#[test]
fn provider_config_snapshot() {
    let mut state = TuiState::new();
    state.providers = vec![provider("p", "P", vec![])];
    state.current_model = "m".into();
    state.active_provider_idx = Some(0);
    let cfg = state.provider_config();
    assert_eq!(cfg.port, 8001);
    assert_eq!(cfg.current_model.as_deref(), Some("m"));
    assert_eq!(cfg.current_provider, Some(0));
    assert_eq!(cfg.providers.len(), 1);
}

#[test]
fn sidebar_move_clamps_to_rows() {
    let mut state = TuiState::new();
    state.workspaces = vec![workspace("/a", true, 2), workspace("/b", false, 3)];
    // rows: title, /a, two sessions, /b
    state.sidebar_move(3);
    assert_eq!(state.sidebar_cursor, 3);
    state.sidebar_move(10);
    assert_eq!(state.sidebar_cursor, 4);
    state.sidebar_move(-2);
    assert_eq!(state.sidebar_cursor, 2);
    state.sidebar_move(-7);
    assert_eq!(state.sidebar_cursor, 0);
}

#[test]
fn sidebar_move_on_empty_tree_stays_on_title() {
    let mut state = TuiState::new();
    state.sidebar_move(1);
    assert_eq!(state.sidebar_cursor, 0);
}

#[test]
fn focus_panel_cycles_both_ways() {
    let mut state = TuiState::new();
    state.focus_panel = FocusPanel::Sidebar;
    state.cycle_focus_panel(1);
    assert_eq!(state.focus_panel, FocusPanel::MainView);
    state.cycle_focus_panel(1);
    assert_eq!(state.focus_panel, FocusPanel::AgentPanel);
    state.cycle_focus_panel(1);
    assert_eq!(state.focus_panel, FocusPanel::Sidebar);
    state.cycle_focus_panel(-1);
    assert_eq!(state.focus_panel, FocusPanel::AgentPanel);
}

#[test]
fn focus_subsection_cycles_within_the_panel() {
    let mut state = TuiState::new();
    state.focus_panel = FocusPanel::Sidebar;
    state.sidebar_subsection = SidebarSubsection::ActiveSession;
    state.cycle_focus_subsection(-1);
    assert_eq!(state.sidebar_subsection, SidebarSubsection::Model);
    state.cycle_focus_subsection(1);
    assert_eq!(state.sidebar_subsection, SidebarSubsection::ActiveSession);

    state.focus_panel = FocusPanel::MainView;
    state.main_view_subsection = MainViewSubsection::Input;
    state.cycle_focus_subsection(1);
    assert_eq!(state.main_view_subsection, MainViewSubsection::Messages);
    assert_eq!(state.sidebar_subsection, SidebarSubsection::ActiveSession);

    state.focus_panel = FocusPanel::AgentPanel;
    state.agent_panel_subsection = AgentPanelSubsection::Tasks;
    state.cycle_focus_subsection(1);
    assert_eq!(state.agent_panel_subsection, AgentPanelSubsection::Agents);
    state.cycle_focus_subsection(-1);
    assert_eq!(state.agent_panel_subsection, AgentPanelSubsection::Tasks);
}

#[test]
fn toggle_workspace_flips_only_that_node() {
    let mut state = TuiState::new();
    state.workspaces = vec![workspace("/a", false, 1), workspace("/b", true, 1)];
    assert!(state.toggle_workspace(0));
    assert!(state.workspaces[0].expanded);
    assert!(state.workspaces[1].expanded);
    assert!(!state.toggle_workspace(2));
    assert!(state.workspaces[0].expanded);
}

fn named(cwd: &str, ids: &[(&str, &str, Option<&str>)]) -> WorkspaceNode {
    WorkspaceNode {
        cwd: cwd.into(),
        display_name: cwd.into(),
        sessions: ids
            .iter()
            .map(|(id, name, path)| SessionNode {
                id: id.to_string(),
                name: name.to_string(),
                file_path: path.map(|p| p.to_string()),
                message_count: 0,
                is_online: false,
            })
            .collect(),
        expanded: false,
    }
}

#[test]
fn session_lookups_take_the_first_match() {
    let mut state = TuiState::new();
    state.workspaces = vec![
        named("/a", &[("s1", "first", None), ("s2", "two", Some("/p/2"))]),
        named("/b", &[("s1", "again", Some("/p/1"))]),
    ];
    assert_eq!(state.session_name("s1").as_deref(), Some("first"));
    assert_eq!(state.session_file_path("s1").as_deref(), Some("/p/1"));
    assert_eq!(state.session_file_path("s2").as_deref(), Some("/p/2"));
    assert_eq!(state.session_name("nope"), None);
    assert_eq!(state.session_file_path("nope"), None);
}

#[test]
fn renaming_a_session_records_its_name() {
    let mut state = TuiState::new();
    state.workspaces = vec![named("/a", &[("s1", "old", None)])];
    assert_eq!(state.rename_session(0, 0, "new").as_deref(), Some("old"));
    assert_eq!(state.workspaces[0].sessions[0].name, "new");
    assert_eq!(state.session_names, vec![("s1".to_string(), "new".to_string())]);
    assert_eq!(state.rename_session(0, 0, "newer").as_deref(), Some("new"));
    assert_eq!(state.session_names, vec![("s1".to_string(), "newer".to_string())]);
    assert_eq!(state.rename_session(0, 1, "x"), None);
    assert_eq!(state.rename_session(3, 0, "x"), None);
    assert_eq!(state.session_names.len(), 1);
}

#[test]
fn created_sessions_join_their_workspace() {
    let mut state = TuiState::new();
    state.workspaces = vec![named("/a", &[])];
    state.add_created_session(0, "id9", "fresh", "/p/id9.jsonl");
    let s = &state.workspaces[0].sessions[0];
    assert_eq!((s.id.as_str(), s.name.as_str(), s.file_path.as_deref()), ("id9", "fresh", Some("/p/id9.jsonl")));
    assert!(s.is_online);
    assert_eq!(s.message_count, 0);
    state.add_created_session(5, "id10", "lost", "/p/x");
    assert_eq!(state.workspaces[0].sessions.len(), 1);
    assert_eq!(state.session_names.len(), 2);
}
