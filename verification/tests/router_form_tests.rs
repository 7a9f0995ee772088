use meta_tui::provider::{ModelInfo, ProviderInfo};
use meta_tui::ansi::Color;
use meta_tui::router_form::{
    compute_content_size, content_size_fits, handle_key, provider_icon, RouterTuiState, RouterView, LIST_KEYS,
    NO_PROVIDERS,
};
use meta_tui::tui_state::KeyCode;

fn provider(id: &str, models: Vec<ModelInfo>) -> ProviderInfo {
    ProviderInfo {
        id: id.into(),
        name: id.to_uppercase(),
        enabled: true,
        base_url: "https://x".into(),
        api_key: "secret".into(),
        models,
        endpoint_type: "gemini".into(),
    }
}

fn typed(state: &mut RouterTuiState, text: &str) {
    for c in text.chars() {
        handle_key(KeyCode::Char(c), false, state);
    }
}

#[test]
fn router_list_navigation_and_quit() {
    let mut st = RouterTuiState::new(vec![provider("a", vec![]), provider("b", vec![])], 8001);
    assert!(!handle_key(KeyCode::Char('j'), false, &mut st));
    assert_eq!(st.selected, 1);
    handle_key(KeyCode::Down, false, &mut st);
    assert_eq!(st.selected, 1);
    handle_key(KeyCode::Enter, false, &mut st);
    assert_eq!(st.expanded, Some(1));
    handle_key(KeyCode::Left, false, &mut st);
    assert_eq!(st.expanded, None);
    handle_key(KeyCode::Char(' '), false, &mut st);
    assert!(!st.providers[1].enabled);
    assert!(st.save_pending);
    handle_key(KeyCode::Char('d'), false, &mut st);
    assert_eq!(st.providers.len(), 1);
    assert_eq!(st.selected, 0);
    assert!(handle_key(KeyCode::Char('q'), false, &mut st));
}

#[test]
fn router_form_add_provider() {
    let mut st = RouterTuiState::new(vec![], 8001);
    handle_key(KeyCode::Char('a'), false, &mut st);
    assert_eq!(st.view, RouterView::Form);
    assert_eq!(st.form_url, "https://");
    typed(&mut st, "id1");
    handle_key(KeyCode::Tab, false, &mut st);
    typed(&mut st, "Name");
    handle_key(KeyCode::Tab, false, &mut st);
    typed(&mut st, "api.x");
    handle_key(KeyCode::Tab, true, &mut st);
    assert_eq!(st.form_focus, 1);
    // choose the endpoint: focus 4, open the chooser, Down twice
    for _ in 0..3 {
        handle_key(KeyCode::Tab, false, &mut st);
    }
    assert_eq!(st.form_focus, 4);
    handle_key(KeyCode::Enter, false, &mut st);
    handle_key(KeyCode::Down, false, &mut st);
    handle_key(KeyCode::Down, false, &mut st);
    handle_key(KeyCode::Enter, false, &mut st);
    assert_eq!(st.form_ep_idx, 2);
    st.form_models = "m1:t1:64000:reasoning\n\n m2 \n".into();
    handle_key(KeyCode::F(2), false, &mut st);
    assert_eq!(st.view, RouterView::List);
    assert_eq!(st.providers.len(), 1);
    let p = &st.providers[0];
    assert_eq!(p.id, "id1");
    assert_eq!(p.base_url, "https://api.x");
    assert_eq!(p.endpoint_type, "anthropic_messages");
    assert_eq!(p.models.len(), 2);
    assert_eq!(p.models[0].tier, "T1");
    assert_eq!(p.models[0].context_window, 64000);
    assert!(p.models[0].reasoning);
    assert_eq!(p.models[1].id, "m2");
    assert_eq!(p.models[1].tier, "T2");
    assert!(!p.models[1].reasoning);
    assert_eq!(st.selected, 0);
}

#[test]
fn router_form_edit_keeps_key_when_left_empty() {
    let m = ModelInfo {
        id: "m".into(),
        name: "".into(),
        context_window: 1000,
        reasoning: true,
        tier: "T3".into(),
        enabled: true,
        thinking_level_map: None,
    };
    let mut st = RouterTuiState::new(vec![provider("p", vec![m])], 8001);
    handle_key(KeyCode::Char('e'), false, &mut st);
    assert_eq!(st.form_models, "m:T3:1000:reasoning");
    assert_eq!(st.form_ep_idx, 3);
    assert_eq!(st.form_key, "");
    handle_key(KeyCode::F(2), false, &mut st);
    assert_eq!(st.providers[0].api_key, "secret");
    assert_eq!(st.providers[0].models[0].id, "m");
    // a form with an empty id is not saved
    handle_key(KeyCode::Char('a'), false, &mut st);
    handle_key(KeyCode::F(2), false, &mut st);
    assert_eq!(st.providers.len(), 1);
}

#[test]
fn provider_icons_use_two_upper_case_letters_and_a_hashed_colour() {
    assert_eq!(provider_icon("openai"), ("OP".to_string(), Color::Rgb(13, 40, 24)));
    assert_eq!(provider_icon("ds"), ("DS".to_string(), Color::Rgb(26, 47, 74)));
    assert_eq!(provider_icon("x"), ("X".to_string(), Color::Rgb(26, 47, 74)));
    assert_eq!(provider_icon("").0, "");
    assert_eq!(provider_icon("é1z").0, "é1");
}

fn model(id: &str) -> ModelInfo {
    ModelInfo {
        id: id.into(),
        name: "".into(),
        context_window: 1000,
        reasoning: false,
        tier: "T1".into(),
        enabled: true,
        thinking_level_map: None,
    }
}

#[test]
fn content_size_of_an_empty_list() {
    let st = RouterTuiState::new(vec![], 8001);
    assert!(content_size_fits(&st));
    let top = format!(" Provider Router {} 127.0.0.1:{}  LIST mode  proxied: {}", "● Stopped", 8001, 0).chars().count();
    let w = top.max(LIST_KEYS.chars().count()).max(NO_PROVIDERS.chars().count()) as u16 + 4;
    assert_eq!(compute_content_size(&st), Some((w, 6)));
}

#[test]
fn content_size_counts_rows_and_widest_provider() {
    let mut p = provider("p", vec![model("a"), model("b"), model("c")]);
    p.name = "n".repeat(100);
    let mut st = RouterTuiState::new(vec![p, provider("q", vec![model("x")])], 8001);
    assert_eq!(compute_content_size(&st), Some((3 + 4 + 100 + 2 + 6 + 2 + 9 + 2 + 9 + 2 + 4, 7)));
    st.expanded = Some(0);
    assert_eq!(compute_content_size(&st), Some((143, 10)));
    st.view = RouterView::Form;
    assert!(content_size_fits(&st));
    assert_eq!(compute_content_size(&st), None);
}
