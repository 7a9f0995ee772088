//! The lower part of the sidebar: the providers of the router and the
//! models of the provider in use, with their cursors, the search text and
//! the scrolling of the model list.

use vstd::prelude::*;
use crate::ansi::{Style, StyledSpan, MOD_BOLD, with_modifier, with_fg, with_bg, spans_view, add_modifier};
use crate::components::Theme;
use crate::markdown::{MdLine, lines_view, plain_style, patch, patch_style};
use crate::provider::{ModelInfo, ModelView, ProviderView};
use crate::state::SidebarSubsection;
use crate::strs::{dec_spec, push_str, push_char, push_decimal, string_of, str_eq, text_is_empty};
use crate::tui_state::{TuiState, PanelView, tui_active_index, filtered_spec};

verus! {

/// `n` box-drawing dashes.
pub open spec fn dashes(n: nat) -> Seq<char> {
    Seq::new(n, |i: int| '─')
}

/// The separator across the sidebar: one dash less than its width, at
/// least one.
pub open spec fn separator(width: u16, th: Theme) -> MdLine {
    seq![(dashes(if width >= 2 { (width - 1) as nat } else { 1 }), with_fg(plain_style(), th.border_dim))]
}

/// Spans drawn on a line of style `ls`: each span's style patched over it.
pub open spec fn on_line(spans: MdLine, ls: Style) -> MdLine {
    Seq::new(spans.len(), |i: int| (spans[i].0, patch(ls, spans[i].1)))
}

/// The style with foreground `f` and background `b`.
pub open spec fn fg_bg(f: crate::ansi::Color, b: crate::ansi::Color) -> Style {
    with_bg(with_fg(plain_style(), f), b)
}

/// The router's state beside the provider title.
pub open spec fn router_status(running: bool, n: nat) -> Seq<char> {
    if running && n > 0 {
        " ◈ 已就绪"@
    } else if running {
        " ◇ 无配置"@
    } else {
        " ◇ 离线"@
    }
}

/// The provider section's title: with the section focused, a bar, the title
/// and the router's state (on the highlight when the cursor is on it);
/// otherwise the title, and the state only while the router runs.
pub open spec fn provider_title(p: PanelView, running: bool, on: bool, th: Theme) -> MdLine {
    let title = "PROVIDER ("@ + dec_spec(p.providers.len()) + ")"@;
    let status = (router_status(running, p.providers.len()), with_fg(
        plain_style(),
        if running { th.success } else { th.text_dim },
    ));
    if on {
        let spans = seq![
            ("▎"@, with_fg(plain_style(), th.accent)),
            (title, with_modifier(with_fg(plain_style(), th.accent), MOD_BOLD)),
            status,
        ];
        if p.provider_cursor == 0 {
            on_line(spans, with_bg(plain_style(), th.highlight_bg))
        } else {
            spans
        }
    } else {
        seq![(" "@, plain_style()), (title, with_modifier(with_fg(plain_style(), th.heading), MOD_BOLD))]
            + if running {
            seq![(router_status(running, p.providers.len()), with_fg(plain_style(), th.success))]
        } else {
            Seq::empty()
        }
    }
}

/// The row of provider `i`: its icon (disabled, in use or not), name,
/// model count and endpoint (unless the default), in the row's colours.
pub open spec fn provider_row(p: PanelView, i: int, on: bool, th: Theme) -> MdLine {
    let pv = p.providers[i];
    let active = p.active_provider_idx == Some(i as usize);
    let selected = on && i + 1 == p.provider_cursor;
    let ls = if selected {
        fg_bg(th.selection_fg, th.highlight_bg)
    } else if active && pv.enabled {
        fg_bg(th.success, th.bg)
    } else {
        fg_bg(th.text_dim, th.bg)
    };
    let icon = if !pv.enabled {
        "⊗"@
    } else if active {
        "◆"@
    } else {
        "○"@
    };
    let ep = if pv.endpoint_type.len() > 0 && pv.endpoint_type != "openai_compat"@ {
        " ["@ + pv.endpoint_type + "]"@
    } else {
        Seq::empty()
    };
    on_line(seq![("  "@ + icon + " "@ + pv.name + "  ("@ + dec_spec(pv.models.len()) + " models)"@ + ep, plain_style())], ls)
}

/// The "add provider" row: highlighted when the cursor is on it.
pub open spec fn add_row(selected: bool, th: Theme) -> MdLine {
    if selected {
        on_line(seq![("  ◆ [+] add provider"@, plain_style())], fg_bg(th.selection_fg, th.highlight_bg))
    } else {
        on_line(seq![("  ○ [+] add provider"@, plain_style())], fg_bg(th.text_dim, th.bg))
    }
}

/// The provider section: its title, then each provider and the "add
/// provider" row; with no provider, only an "add provider" row.
pub open spec fn provider_section(p: PanelView, running: bool, on: bool, th: Theme) -> Seq<MdLine> {
    let n = p.providers.len();
    seq![provider_title(p, running, on, th)] + if n == 0 {
        if on && p.provider_cursor == 1 {
            seq![on_line(seq![("  ◆ [+] add provider"@, with_fg(plain_style(), th.selection_fg))], with_bg(plain_style(), th.highlight_bg))]
        } else {
            seq![seq![("  ○ [+] add provider"@, with_fg(plain_style(), th.text_dim))]]
        }
    } else {
        Seq::new(n, |i: int| provider_row(p, i, on, th)) + seq![add_row(on && p.provider_cursor == n + 1, th)]
    }
}

/// The model section's title: the provider's id and model count; with the
/// section focused after a bar (on the highlight when the cursor is on it),
/// in the heading colour while the provider section is focused.
pub open spec fn model_title(ap: ProviderView, cursor: usize, on_models: bool, on_providers: bool, th: Theme) -> MdLine {
    let count = ("  "@ + dec_spec(ap.models.len()) + " models"@, with_fg(plain_style(), th.text_dim));
    if on_models {
        let spans = seq![
            ("▎"@, with_fg(plain_style(), th.accent)),
            ("MODEL  "@ + ap.id, with_modifier(with_fg(plain_style(), th.accent), MOD_BOLD)),
            count,
        ];
        if cursor == 0 {
            on_line(spans, with_bg(plain_style(), th.highlight_bg))
        } else {
            spans
        }
    } else if on_providers {
        seq![
            (" MODEL  "@, with_fg(plain_style(), th.heading)),
            (ap.id, with_modifier(with_fg(plain_style(), th.heading), MOD_BOLD)),
            count,
        ]
    } else {
        seq![
            (" MODEL  "@, with_fg(plain_style(), th.heading)),
            (ap.id, with_modifier(with_fg(plain_style(), th.accent), MOD_BOLD)),
            count,
        ]
    }
}

/// A context window in thousands (`K`) or, from a million, millions (`M`).
pub open spec fn context_text(cw: u32) -> Seq<char> {
    if cw >= 1_000_000 {
        dec_spec((cw / 1_000_000) as nat) + "M"@
    } else {
        dec_spec((cw / 1000) as nat) + "K"@
    }
}

/// The row of a model: marked when it is the current model, with its tier,
/// context window and id, in the row's colours.
pub open spec fn model_row(m: ModelView, current: Seq<char>, selected: bool, th: Theme) -> MdLine {
    let active = current == m.id;
    let ls = if selected {
        fg_bg(th.selection_fg, th.highlight_bg)
    } else if active {
        fg_bg(th.success, th.bg)
    } else {
        fg_bg(th.text_dim, th.bg)
    };
    let text = "  "@ + (if active { "◆"@ } else { "○"@ }) + " ["@ + m.tier + "] "@ + context_text(m.context_window)
        + " "@ + m.id + if active { " ←"@ } else { Seq::empty() };
    on_line(seq![(text, plain_style())], ls)
}

/// The first model row shown: the list scrolls just enough for the model
/// under the cursor to be seen in `available` rows.
pub open spec fn model_scroll(n: nat, cursor: usize, available: nat) -> nat {
    let c: nat = if cursor > 0 {
        let k = (cursor - 1) as nat;
        let last: nat = if n > 0 { (n - 1) as nat } else { 0 };
        if k < last { k } else { last }
    } else {
        0
    };
    if n > available && c >= available {
        (c + 1 - available) as nat
    } else {
        0
    }
}

/// The head of the model section: a separator, the title, and the search
/// text when there is one.
pub open spec fn model_head(p: PanelView, ap: ProviderView, on_models: bool, on_providers: bool, width: u16, th: Theme) -> Seq<MdLine> {
    seq![separator(width, th), model_title(ap, p.model_cursor, on_models, on_providers, th)]
        + if p.model_search.len() > 0 {
        seq![seq![("  🔍 "@ + p.model_search, with_fg(plain_style(), th.accent))]]
    } else {
        Seq::empty()
    }
}

/// The rows of the shown models that fit in the rows of `height` left after
/// `pushed` lines, scrolled to the cursor.
#[verifier::opaque]
pub open spec fn model_rows(p: PanelView, on_models: bool, height: u16, pushed: nat, th: Theme) -> Seq<MdLine> {
    let shown = filtered_spec(p);
    let available: nat = if height >= pushed { (height - pushed) as nat } else { 0 };
    let scroll = model_scroll(shown.len(), p.model_cursor, available);
    let rest: nat = if shown.len() >= scroll { (shown.len() - scroll) as nat } else { 0 };
    let k = if rest < available { rest } else { available };
    Seq::new(
        k,
        |vi: int| model_row(shown[scroll + vi], p.current_model, on_models && scroll + vi + 1 == p.model_cursor, th),
    )
}

/// The model section: its head, then the shown models that fit in the rows
/// left of `height`.
pub open spec fn model_section(p: PanelView, ap: ProviderView, on_models: bool, on_providers: bool, width: u16, height: u16, before: nat, th: Theme) -> Seq<MdLine> {
    let head = model_head(p, ap, on_models, on_providers, width, th);
    head + model_rows(p, on_models, height, before + head.len(), th)
}

/// The lower part of the sidebar: a separator, the provider section and,
/// when a provider's models are shown, the model section, in `height` rows
/// at most for the models.
pub open spec fn footer_spec(
    p: PanelView,
    running: bool,
    focused: bool,
    sub: SidebarSubsection,
    width: u16,
    height: u16,
    th: Theme,
) -> Seq<MdLine> {
    let on_p = focused && sub == SidebarSubsection::Provider;
    let on_m = focused && sub == SidebarSubsection::Model;
    let top = seq![separator(width, th)] + provider_section(p, running, on_p, th);
    match tui_active_index(p) {
        Some(i) => top + model_section(p, p.providers[i], on_m, on_p, width, height, top.len(), th),
        None => top,
    }
}

/// The style with foreground `f`.
pub(crate) fn fg_style(f: crate::ansi::Color) -> (r: Style)
    ensures
        r == with_fg(plain_style(), f),
{
    Style { fg: Some(f), bg: None, underline_color: None, add_modifier: 0, sub_modifier: 0 }
}

/// The style with no colour and no modifier.
pub(crate) fn plain() -> (r: Style)
    ensures
        r == plain_style(),
{
    Style { fg: None, bg: None, underline_color: None, add_modifier: 0, sub_modifier: 0 }
}

/// The style with foreground `f` and background `b`.
pub(crate) fn fg_bg_style(f: crate::ansi::Color, b: crate::ansi::Color) -> (r: Style)
    ensures
        r == fg_bg(f, b),
{
    Style { fg: Some(f), bg: Some(b), underline_color: None, add_modifier: 0, sub_modifier: 0 }
}

/// Spans drawn on a line of style `ls` (see `on_line`).
pub(crate) fn on_line_exec(spans: Vec<StyledSpan>, ls: Style) -> (r: Vec<StyledSpan>)
    ensures
        spans_view(r@) == on_line(spans_view(spans@), ls),
{
    let ghost sv = spans_view(spans@);
    let mut r: Vec<StyledSpan> = Vec::new();
    let mut i: usize = 0;
    while i < spans.len()
        invariant
            sv == spans_view(spans@),
            i <= spans@.len(),
            spans_view(r@) =~= on_line(sv, ls).take(i as int),
        decreases spans@.len() - i,
    {
        let ghost b = spans_view(r@);
        r.push((string_of(spans[i].0.as_str()), patch_style(ls, spans[i].1)));
        assert(spans_view(r@) =~= b.push(on_line(sv, ls)[i as int]));
        i += 1;
    }
    r
}

/// The separator across the sidebar (see `separator`).
fn separator_line(width: u16, th: &Theme) -> (r: Vec<StyledSpan>)
    ensures
        spans_view(r@) == separator(width, *th),
{
    let n: u16 = if width >= 2 { width - 1 } else { 1 };
    let mut d = String::new();
    let mut i: u16 = 0;
    while i < n
        invariant
            i <= n,
            d@ == dashes(i as nat),
        decreases n - i,
    {
        push_char(&mut d, '─');
        assert(dashes((i + 1) as nat) =~= dashes(i as nat).push('─'));
        i += 1;
    }
    let r = vec![(d, fg_style(th.border_dim))];
    assert(spans_view(r@) =~= separator(width, *th));
    r
}

/// The provider section's title (see `provider_title`).
fn provider_title_line(tui: &TuiState, on: bool, th: &Theme) -> (r: Vec<StyledSpan>)
    ensures
        spans_view(r@) == provider_title(tui.panel(), tui.router_running, on, *th),
{
    let n = tui.providers.len();
    let mut title = string_of("PROVIDER (");
    push_decimal(&mut title, n as u64);
    push_str(&mut title, ")");
    let status = if tui.router_running && n > 0 {
        string_of(" ◈ 已就绪")
    } else if tui.router_running {
        string_of(" ◇ 无配置")
    } else {
        string_of(" ◇ 离线")
    };
    if on {
        let status_style = fg_style(if tui.router_running { th.success } else { th.text_dim });
        let spans = vec![
            (string_of("▎"), fg_style(th.accent)),
            (title, add_modifier(fg_style(th.accent), MOD_BOLD)),
            (status, status_style),
        ];
        let ghost sv = spans_view(spans@);
        assert(sv =~= seq![sv[0], sv[1], sv[2]]);
        if tui.provider_cursor == 0 {
            let r = on_line_exec(spans, Style { bg: Some(th.highlight_bg), ..plain() });
            assert(spans_view(r@) =~= provider_title(tui.panel(), tui.router_running, on, *th));
            r
        } else {
            assert(spans_view(spans@) =~= provider_title(tui.panel(), tui.router_running, on, *th));
            spans
        }
    } else {
        let mut spans = vec![(string_of(" "), plain()), (title, add_modifier(fg_style(th.heading), MOD_BOLD))];
        if tui.router_running {
            spans.push((status, fg_style(th.success)));
        }
        assert(spans_view(spans@) =~= provider_title(tui.panel(), tui.router_running, on, *th));
        spans
    }
}

/// The row of provider `i` (see `provider_row`).
fn provider_row_line(tui: &TuiState, i: usize, on: bool, th: &Theme) -> (r: Vec<StyledSpan>)
    requires
        i < tui.providers@.len(),
    ensures
        spans_view(r@) == provider_row(tui.panel(), i as int, on, *th),
{
    let p = &tui.providers[i];
    assert(tui.panel().providers[i as int] == p@);
    let active = match tui.active_provider_idx {
        Some(j) => j == i,
        None => false,
    };
    let selected = on && tui.provider_cursor > 0 && tui.provider_cursor - 1 == i;
    let ls = if selected {
        fg_bg_style(th.selection_fg, th.highlight_bg)
    } else if active && p.enabled {
        fg_bg_style(th.success, th.bg)
    } else {
        fg_bg_style(th.text_dim, th.bg)
    };
    let icon = if !p.enabled { "⊗" } else if active { "◆" } else { "○" };
    let mut text = string_of("  ");
    push_str(&mut text, icon);
    push_str(&mut text, " ");
    push_str(&mut text, p.name.as_str());
    push_str(&mut text, "  (");
    push_decimal(&mut text, p.models.len() as u64);
    push_str(&mut text, " models)");
    if !text_is_empty(p.endpoint_type.as_str()) && !str_eq(p.endpoint_type.as_str(), "openai_compat") {
        push_str(&mut text, " [");
        push_str(&mut text, p.endpoint_type.as_str());
        push_str(&mut text, "]");
    }
    let ghost t = text@;
    let ghost pv = p@;
    let ghost ep = if pv.endpoint_type.len() > 0 && pv.endpoint_type != "openai_compat"@ {
        " ["@ + pv.endpoint_type + "]"@
    } else {
        Seq::<char>::empty()
    };
    assert(t =~= "  "@ + icon@ + " "@ + pv.name + "  ("@ + dec_spec(pv.models.len()) + " models)"@ + ep);
    let one = vec![(text, plain())];
    assert(spans_view(one@) =~= seq![(t, plain_style())]);
    let r = on_line_exec(one, ls);
    proof {
        reveal_strlit("⊗");
        reveal_strlit("◆");
        reveal_strlit("○");
    }
    r
}

/// One line of one span.
pub(crate) fn one_line(text: String, style: Style) -> (r: Vec<StyledSpan>)
    ensures
        spans_view(r@) == seq![(text@, style)],
{
    let r = vec![(text, style)];
    assert(spans_view(r@) =~= seq![(text@, style)]);
    r
}

/// The provider section (see `provider_section`).
fn provider_section_lines(tui: &TuiState, on: bool, th: &Theme) -> (r: Vec<Vec<StyledSpan>>)
    ensures
        lines_view(r@) == provider_section(tui.panel(), tui.router_running, on, *th),
{
    let ghost p = tui.panel();
    let mut out: Vec<Vec<StyledSpan>> = Vec::new();
    out.push(provider_title_line(tui, on, th));
    let n = tui.providers.len();
    if n == 0 {
        if on && tui.provider_cursor == 1 {
            let l = on_line_exec(one_line(string_of("  ◆ [+] add provider"), fg_style(th.selection_fg)), Style { bg: Some(th.highlight_bg), ..plain() });
            out.push(l);
        } else {
            out.push(one_line(string_of("  ○ [+] add provider"), fg_style(th.text_dim)));
        }
        assert(lines_view(out@) =~= provider_section(p, tui.router_running, on, *th));
    } else {
        let ghost head = lines_view(out@);
        let mut i: usize = 0;
        while i < n
            invariant
                p == tui.panel(),
                n == tui.providers@.len() == p.providers.len(),
                i <= n,
                lines_view(out@) =~= head + Seq::new(i as nat, |k: int| provider_row(p, k, on, *th)),
            decreases n - i,
        {
            let ghost b = lines_view(out@);
            out.push(provider_row_line(tui, i, on, th));
            assert(lines_view(out@) =~= b.push(provider_row(p, i as int, on, *th)));
            i += 1;
        }
        let selected = on && tui.provider_cursor > 0 && tui.provider_cursor - 1 == n;
        let row = if selected {
            on_line_exec(one_line(string_of("  ◆ [+] add provider"), plain()), fg_bg_style(th.selection_fg, th.highlight_bg))
        } else {
            on_line_exec(one_line(string_of("  ○ [+] add provider"), plain()), fg_bg_style(th.text_dim, th.bg))
        };
        let ghost b = lines_view(out@);
        out.push(row);
        assert(lines_view(out@) =~= b.push(add_row(on && p.provider_cursor == n + 1, *th)));
        assert(lines_view(out@) =~= provider_section(p, tui.router_running, on, *th));
    }
    out
}

/// The model section's title (see `model_title`).
fn model_title_line(ap: &crate::provider::ProviderInfo, cursor: usize, on_models: bool, on_providers: bool, th: &Theme) -> (r: Vec<StyledSpan>)
    ensures
        spans_view(r@) == model_title(ap@, cursor, on_models, on_providers, *th),
{
    let mut count = string_of("  ");
    push_decimal(&mut count, ap.models.len() as u64);
    push_str(&mut count, " models");
    let cstyle = fg_style(th.text_dim);
    if on_models {
        let mut t = string_of("MODEL  ");
        push_str(&mut t, ap.id.as_str());
        let spans = vec![(string_of("▎"), fg_style(th.accent)), (t, add_modifier(fg_style(th.accent), MOD_BOLD)), (count, cstyle)];
        let ghost sv = spans_view(spans@);
        assert(sv =~= seq![sv[0], sv[1], sv[2]]);
        if cursor == 0 {
            let r = on_line_exec(spans, Style { bg: Some(th.highlight_bg), ..plain() });
            assert(spans_view(r@) =~= model_title(ap@, cursor, on_models, on_providers, *th));
            r
        } else {
            assert(spans_view(spans@) =~= model_title(ap@, cursor, on_models, on_providers, *th));
            spans
        }
    } else {
        let idc = if on_providers { th.heading } else { th.accent };
        let spans = vec![
            (string_of(" MODEL  "), fg_style(th.heading)),
            (string_of(ap.id.as_str()), add_modifier(fg_style(idc), MOD_BOLD)),
            (count, cstyle),
        ];
        assert(spans_view(spans@) =~= model_title(ap@, cursor, on_models, on_providers, *th));
        spans
    }
}

/// The row of a model (see `model_row`).
fn model_row_line(m: &ModelInfo, current: &str, selected: bool, th: &Theme) -> (r: Vec<StyledSpan>)
    ensures
        spans_view(r@) == model_row(m@, current@, selected, *th),
{
    let active = str_eq(current, m.id.as_str());
    let ls = if selected {
        fg_bg_style(th.selection_fg, th.highlight_bg)
    } else if active {
        fg_bg_style(th.success, th.bg)
    } else {
        fg_bg_style(th.text_dim, th.bg)
    };
    let mut text = string_of("  ");
    push_str(&mut text, if active { "◆" } else { "○" });
    push_str(&mut text, " [");
    push_str(&mut text, m.tier.as_str());
    push_str(&mut text, "] ");
    if m.context_window >= 1_000_000 {
        push_decimal(&mut text, (m.context_window / 1_000_000) as u64);
        push_str(&mut text, "M");
    } else {
        push_decimal(&mut text, (m.context_window / 1000) as u64);
        push_str(&mut text, "K");
    }
    push_str(&mut text, " ");
    push_str(&mut text, m.id.as_str());
    if active {
        push_str(&mut text, " ←");
    }
    let ghost mv = m@;
    assert(text@ =~= "  "@ + (if active { "◆"@ } else { "○"@ }) + " ["@ + mv.tier + "] "@ + context_text(mv.context_window) + " "@ + mv.id + if active { " ←"@ } else { Seq::<char>::empty() });
    let ghost t = text@;
    let one = one_line(text, plain());
    on_line_exec(one, ls)
}

/// The lower part of the sidebar (see `footer_spec`): the sidebar has the
/// focus when `focused`, is `width` columns wide, and the model list ends
/// within `height` rows.
pub fn sidebar_footer(tui: &TuiState, focused: bool, width: u16, height: u16, th: &Theme) -> (r: Vec<Vec<StyledSpan>>)
    ensures
        lines_view(r@) == footer_spec(tui.panel(), tui.router_running, focused, tui.sidebar_subsection, width, height, *th),
{
    let ghost p = tui.panel();
    let on_p = focused && tui.sidebar_subsection == SidebarSubsection::Provider;
    let on_m = focused && tui.sidebar_subsection == SidebarSubsection::Model;
    let mut out: Vec<Vec<StyledSpan>> = Vec::new();
    out.push(separator_line(width, th));
    let ps = provider_section_lines(tui, on_p, th);
    let ghost top0 = lines_view(out@);
    let mut i: usize = 0;
    while i < ps.len()
        invariant
            i <= ps@.len(),
            lines_view(out@) =~= top0 + lines_view(ps@).take(i as int),
        decreases ps@.len() - i,
    {
        let ghost b = lines_view(out@);
        out.push(crate::markdown::copy_spans(&ps[i]));
        assert(lines_view(out@) =~= b.push(lines_view(ps@)[i as int]));
        i += 1;
    }
    assert(lines_view(ps@).take(ps@.len() as int) =~= lines_view(ps@));
    let ghost top = lines_view(out@);
    assert(top =~= seq![separator(width, *th)] + provider_section(p, tui.router_running, on_p, *th));
    match tui.active_provider_for_models() {
        None => {
            out
        },
        Some(ap) => {
            let ghost ai = tui_active_index(p)->0;
            assert(p.providers[ai] == ap@);
            let ms = model_section_lines(tui, ap, on_m, on_p, width, height, out.len(), th);
            let ghost mv = lines_view(ms@);
            let mut j: usize = 0;
            while j < ms.len()
                invariant
                    j <= ms@.len(),
                    mv == lines_view(ms@),
                    lines_view(out@) =~= top + mv.take(j as int),
                decreases ms@.len() - j,
            {
                let ghost b = lines_view(out@);
                out.push(crate::markdown::copy_spans(&ms[j]));
                assert(lines_view(out@) =~= b.push(mv[j as int]));
                j += 1;
            }
            assert(mv.take(ms@.len() as int) =~= mv);
            out
        },
    }
}

/// The rows of the shown models (see `model_rows`).
fn model_rows_lines(tui: &TuiState, on_m: bool, height: u16, pushed: usize, th: &Theme) -> (r: Vec<Vec<StyledSpan>>)
    ensures
        lines_view(r@) == model_rows(tui.panel(), on_m, height, pushed as nat, *th),
{
    let ghost p = tui.panel();
    let shown = tui.filtered_models();
    let ghost sv = shown.deep_view();
    let n = shown.len();
    let available: usize = if height as usize >= pushed { height as usize - pushed } else { 0 };
    let c: usize = if tui.model_cursor > 0 {
        let k = tui.model_cursor - 1;
        let last = if n > 0 { n - 1 } else { 0 };
        if k < last { k } else { last }
    } else {
        0
    };
    let scroll: usize = if n > available && c >= available { c + 1 - available } else { 0 };
    assert(scroll == model_scroll(sv.len(), p.model_cursor, available as nat));
    let rest: usize = if n >= scroll { n - scroll } else { 0 };
    let k: usize = if rest < available { rest } else { available };
    let mut out: Vec<Vec<StyledSpan>> = Vec::new();
    let mut vi: usize = 0;
    while vi < k
        invariant
            p == tui.panel(),
            sv == shown.deep_view(),
            sv == filtered_spec(p),
            n == shown@.len() == sv.len(),
            k <= rest,
            rest == (if n >= scroll { n - scroll } else { 0 }),
            vi <= k,
            lines_view(out@) =~= Seq::new(
                vi as nat,
                |j: int| model_row(sv[scroll + j], p.current_model, on_m && scroll + j + 1 == p.model_cursor, *th),
            ),
        decreases k - vi,
    {
        let idx = scroll + vi;
        assert(sv[idx as int] == shown@[idx as int]@);
        let selected = on_m && idx + 1 == tui.model_cursor;
        let row = model_row_line(shown[idx], tui.current_model.as_str(), selected, th);
        let ghost b = lines_view(out@);
        out.push(row);
        assert(lines_view(out@) =~= b.push(model_row(sv[scroll + vi], p.current_model, on_m && scroll + vi + 1 == p.model_cursor, *th)));
        vi += 1;
    }
    proof {
        reveal(model_rows);
    }
    assert(lines_view(out@) =~= model_rows(p, on_m, height, pushed as nat, *th));
    out
}

/// The model section (see `model_section`), after `before` lines.
fn model_section_lines(
    tui: &TuiState,
    ap: &crate::provider::ProviderInfo,
    on_m: bool,
    on_p: bool,
    width: u16,
    height: u16,
    before: usize,
    th: &Theme,
) -> (r: Vec<Vec<StyledSpan>>)
    ensures
        lines_view(r@) == model_section(tui.panel(), ap@, on_m, on_p, width, height, before as nat, *th),
{
    let ghost p = tui.panel();
    let mut out: Vec<Vec<StyledSpan>> = Vec::new();
    out.push(separator_line(width, th));
    out.push(model_title_line(ap, tui.model_cursor, on_m, on_p, th));
    if !text_is_empty(tui.model_search.as_str()) {
        let mut t = string_of("  🔍 ");
        push_str(&mut t, tui.model_search.as_str());
        out.push(one_line(t, fg_style(th.accent)));
    }
    let ghost head = lines_view(out@);
    assert(head =~= model_head(p, ap@, on_m, on_p, width, *th));
    let pushed: usize = if before <= usize::MAX - out.len() { before + out.len() } else { usize::MAX };
    let rows = model_rows_lines(tui, on_m, height, pushed, th);
    proof {
        if before + head.len() > usize::MAX {
            reveal(model_rows);
            assert(model_rows(p, on_m, height, pushed as nat, *th) =~= model_rows(p, on_m, height, (before + head.len()) as nat, *th));
        }
    }
    let ghost rv = lines_view(rows@);
    let mut j: usize = 0;
    while j < rows.len()
        invariant
            j <= rows@.len(),
            rv == lines_view(rows@),
            lines_view(out@) =~= head + rv.take(j as int),
        decreases rows@.len() - j,
    {
        let ghost b = lines_view(out@);
        out.push(crate::markdown::copy_spans(&rows[j]));
        assert(lines_view(out@) =~= b.push(rv[j as int]));
        j += 1;
    }
    assert(rv.take(rows@.len() as int) =~= rv);
    out
}

} // verus!
