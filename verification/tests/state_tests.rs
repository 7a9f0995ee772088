use meta_tui::provider::ModelInfo;
use meta_tui::state::{merge_models_text, next_field, pad_value, prev_field, rebuild_models_text};

fn model(id: &str, tier: &str, ctx: u32, enabled: bool) -> ModelInfo {
    ModelInfo {
        thinking_level_map: None,
        id: id.into(),
        name: "Name".into(),
        context_window: ctx,
        reasoning: false,
        tier: tier.into(),
        enabled,
    }
}

#[test]
fn rebuild_models_text_lines() {
    let ms = vec![model("a", "T1", 1000, true), model("b", "T3", 200000, false)];
    assert_eq!(rebuild_models_text(&ms), "a:T1:1000\nb:T3:200000");
    assert_eq!(rebuild_models_text(&[]), "");
}

#[test]
fn merge_models_text_parses_lines_with_defaults() {
    let existing = vec![model("b", "T2", 1, true), model("c", "T2", 1, true)];
    let ms = merge_models_text(" a \n\n b : T1 : 64000 \nz:T3:notanumber\n:T1", &existing);
    assert_eq!(ms.len(), 3);
    assert_eq!(ms[0].id, "a");
    assert_eq!(ms[0].tier, "T2");
    assert_eq!(ms[0].context_window, 128000);
    assert!(ms[0].reasoning);
    assert!(!ms[0].enabled);
    assert_eq!(ms[1].id, "b");
    assert_eq!(ms[1].tier, "T1");
    assert_eq!(ms[1].context_window, 64000);
    assert!(!ms[1].reasoning);
    assert!(ms[1].enabled);
    assert_eq!(ms[1].name, "");
    assert_eq!(ms[2].id, "z");
    assert_eq!(ms[2].context_window, 128000);
}

#[test]
fn merge_models_text_keeps_existing_when_nothing_parses() {
    let existing = vec![model("b", "T2", 7, true)];
    let ms = merge_models_text("  \n :x", &existing);
    assert_eq!(ms.len(), 1);
    assert_eq!(ms[0].id, "b");
    assert_eq!(ms[0].name, "Name");
    assert_eq!(ms[0].context_window, 7);
}

#[test]
fn rebuild_then_merge_keeps_ids_tiers_and_contexts() {
    let ms = vec![model("a", "T1", 1000, true), model("b", "T3", 200000, false)];
    let back = merge_models_text(&rebuild_models_text(&ms), &ms);
    assert_eq!(back.len(), 2);
    for i in 0..2 {
        assert_eq!(back[i].id, ms[i].id);
        assert_eq!(back[i].tier, ms[i].tier);
        assert_eq!(back[i].context_window, ms[i].context_window);
        assert_eq!(back[i].enabled, ms[i].enabled);
    }
}

#[test]
fn field_focus_order_cycles() {
    let order = [6usize, 0, 1, 2, 3, 5, 4];
    for k in 0..7 {
        assert_eq!(next_field(order[k]), order[(k + 1) % 7]);
        assert_eq!(prev_field(order[(k + 1) % 7]), order[k]);
        assert_eq!(prev_field(next_field(order[k])), order[k]);
    }
    assert_eq!(next_field(9), 9);
    assert_eq!(prev_field(9), 9);
}

#[test]
fn pad_value_pads_and_clips_by_display_width() {
    assert_eq!(pad_value("ab", 4), "ab  ");
    assert_eq!(pad_value("abcdef", 4), "abcd");
    assert_eq!(pad_value("中文字", 4), "中文");
    assert_eq!(pad_value("中文字", 5), "中文");
    assert_eq!(pad_value("", 2), "  ");
}
