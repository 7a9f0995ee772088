use meta_tui::ansi::{Color, Style, StyledSpan};
use meta_tui::components::Theme;
use meta_tui::selection::{apply_selection, Area};
use meta_tui::state::{SelectionPanel, SelectionState};

fn plain() -> Style {
    Style { fg: None, bg: None, underline_color: None, add_modifier: 0, sub_modifier: 0 }
}

fn red() -> Style {
    Style { fg: Some(Color::Red), ..plain() }
}

fn sel(anchor: Option<(u16, u16)>, focus: Option<(u16, u16)>) -> SelectionState {
    SelectionState {
        panel: SelectionPanel::Content,
        active: true,
        anchor,
        focus,
        selected_text: "old".to_string(),
    }
}

fn lines() -> Vec<Vec<StyledSpan>> {
    vec![
        vec![("he".to_string(), plain()), ("llo".to_string(), red())],
        vec![("world".to_string(), plain())],
        vec![("tail".to_string(), plain())],
    ]
}

fn area() -> Area {
    Area { x: 0, y: 0, width: 20, height: 10 }
}

#[test]
fn selection_without_extent_changes_nothing() {
    let theme = Theme::cyan();
    for s0 in [sel(None, Some((1, 1))), sel(Some((1, 1)), None), sel(Some((2, 1)), Some((2, 1)))] {
        let mut ls = lines();
        let mut s = s0.clone();
        apply_selection(&mut ls, area(), &mut s, &theme);
        assert_eq!(ls, lines());
        assert_eq!(s.selected_text, "old");
    }
}

#[test]
fn selection_outside_the_area_changes_nothing() {
    let theme = Theme::cyan();
    let mut ls = lines();
    let mut s = sel(Some((0, 0)), Some((3, 1)));
    apply_selection(&mut ls, Area { x: 0, y: 5, width: 20, height: 3 }, &mut s, &theme);
    assert_eq!(ls, lines());
    assert_eq!(s.selected_text, "old");
    let mut s = sel(Some((0, 8)), Some((3, 9)));
    apply_selection(&mut ls, Area { x: 0, y: 5, width: 20, height: 3 }, &mut s, &theme);
    assert_eq!(s.selected_text, "old");
}

#[test]
fn selection_highlights_covered_columns_and_collects_text() {
    let theme = Theme::cyan();
    let hl = theme.highlight_bg;
    let mut ls = lines();
    let mut s = sel(Some((3, 1)), Some((1, 0)));
    apply_selection(&mut ls, area(), &mut s, &theme);
    assert_eq!(s.selected_text, "ell\norl");
    assert_eq!(s.anchor, Some((3, 1)));
    assert!(s.active);
    assert_eq!(
        ls[0],
        vec![
            ("h".to_string(), plain()),
            ("e".to_string(), Style { bg: Some(hl), ..plain() }),
            ("l".to_string(), Style { bg: Some(hl), ..red() }),
            ("l".to_string(), Style { bg: Some(hl), ..red() }),
            ("o".to_string(), red()),
        ]
    );
    assert_eq!(ls[1].len(), 5);
    assert_eq!(ls[1][0], ("w".to_string(), plain()));
    assert_eq!(ls[1][3], ("l".to_string(), Style { bg: Some(hl), ..plain() }));
    assert_eq!(ls[2], lines()[2]);
}

#[test]
fn selection_follows_area_offset_and_wide_characters() {
    let theme = Theme::cyan();
    let mut ls = vec![vec![("中文x".to_string(), plain())]];
    let mut s = sel(Some((3, 4)), Some((3, 4 + 0)));
    s.focus = Some((2, 4));
    apply_selection(&mut ls, Area { x: 2, y: 4, width: 10, height: 2 }, &mut s, &theme);
    assert_eq!(s.selected_text, "中");
    assert_eq!(ls[0].len(), 3);
    assert_eq!(ls[0][1], ("文".to_string(), plain()));
}

#[test]
fn selection_on_rows_without_lines_collects_nothing() {
    let theme = Theme::cyan();
    let mut ls = lines();
    let mut s = sel(Some((0, 5)), Some((4, 6)));
    apply_selection(&mut ls, area(), &mut s, &theme);
    assert_eq!(s.selected_text, "");
    assert_eq!(ls, lines());
}
