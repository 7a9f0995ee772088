//! Mouse selection over rendered lines: the characters a drag covers are
//! highlighted, and their text is collected for the clipboard.

use vstd::prelude::*;
use crate::ansi::{Color, Style, StyledSpan, spans_view, with_bg};
use crate::components::Theme;
use crate::markdown::{MdLine, lines_view};
use crate::state::{SelectionState, char_width, unicode_char_width};
use crate::strs::{chars_of, join_spec, push_char, push_str, string_from_chars};

verus! {

/// The screen area lines are drawn in: its top-left cell and its size.
#[derive(Debug, Clone, Copy, PartialEq, Eq)]
pub struct Area {
    pub x: u16,
    pub y: u16,
    pub width: u16,
    pub height: u16,
}

/// The characters of a line, each with the style of its span.
pub open spec fn flat(line: MdLine) -> Seq<(char, Style)>
    decreases line.len(),
{
    if line.len() == 0 {
        Seq::empty()
    } else {
        flat(line.drop_last()) + Seq::new(line.last().0.len(), |k: int| (line.last().0[k], line.last().1))
    }
}

/// The columns a character takes (0 for a control character).
pub open spec fn cw(c: char) -> u16 {
    match unicode_char_width(c) {
        Some(w) => w as u16,
        None => 0,
    }
}

/// The columns the characters take together.
pub open spec fn row_width(fl: Seq<(char, Style)>) -> int
    decreases fl.len(),
{
    if fl.len() == 0 {
        0
    } else {
        row_width(fl.drop_last()) + cw(fl.last().0)
    }
}

/// The characters of a line read from column `x` on: the column after them,
/// the text of those whose columns meet `x1..=x2`, and the line rebuilt
/// with one span per character, the selected ones on background `hl`.
pub open spec fn pick_scan(fl: Seq<(char, Style)>, x: u16, x1: u16, x2: u16, hl: Color) -> (int, Seq<char>, MdLine)
    decreases fl.len(),
{
    if fl.len() == 0 {
        (x as int, Seq::empty(), Seq::empty())
    } else {
        let (col, text, spans) = pick_scan(fl.drop_last(), x, x1, x2, hl);
        let (c, st) = fl.last();
        let w = cw(c);
        let end = col + if w > 0 { w - 1 } else { 0 };
        let hit = end >= x1 && col <= x2;
        (
            col + w,
            if hit { text.push(c) } else { text },
            spans.push((seq![c], if hit { with_bg(st, hl) } else { st })),
        )
    }
}

/// The column after the characters is `x` plus their width.
proof fn lemma_scan_col(fl: Seq<(char, Style)>, x: u16, x1: u16, x2: u16, hl: Color)
    ensures
        pick_scan(fl, x, x1, x2, hl).0 == x + row_width(fl),
    decreases fl.len(),
{
    if fl.len() > 0 {
        lemma_scan_col(fl.drop_last(), x, x1, x2, hl);
    }
}

/// The leading characters take no more columns than all of them.
proof fn lemma_row_width_prefix(fl: Seq<(char, Style)>, k: int)
    requires
        0 <= k <= fl.len(),
    ensures
        row_width(fl.take(k)) <= row_width(fl),
    decreases fl.len(),
{
    if k < fl.len() {
        assert(fl.drop_last().take(k) =~= fl.take(k));
        lemma_row_width_prefix(fl.drop_last(), k);
    } else {
        assert(fl.take(k) =~= fl);
    }
}

/// The characters of a line, flattened.
fn flatten(line: &Vec<StyledSpan>) -> (r: Vec<(char, Style)>)
    ensures
        r@ == flat(spans_view(line@)),
{
    let ghost sv = spans_view(line@);
    let mut out: Vec<(char, Style)> = Vec::new();
    let mut si: usize = 0;
    assert(sv.take(0) =~= Seq::<(Seq<char>, Style)>::empty());
    while si < line.len()
        invariant
            sv == spans_view(line@),
            si <= line@.len(),
            out@ == flat(sv.take(si as int)),
        decreases line@.len() - si,
    {
        let cs = chars_of(line[si].0.as_str());
        let st = line[si].1;
        let ghost before = out@;
        assert(cs@ == sv[si as int].0);
        let mut k: usize = 0;
        while k < cs.len()
            invariant
                k <= cs@.len(),
                out@ == before + Seq::new(k as nat, |j: int| (cs@[j], st)),
            decreases cs@.len() - k,
        {
            out.push((cs[k], st));
            assert(before + Seq::new((k + 1) as nat, |j: int| (cs@[j], st)) =~= (before + Seq::new(k as nat, |j: int| (cs@[j], st))).push((cs@[k as int], st)));
            k += 1;
        }
        assert(sv.take(si + 1).drop_last() =~= sv.take(si as int));
        assert(sv.take(si + 1).last() == sv[si as int]);
        assert(out@ =~= flat(sv.take(si + 1)));
        si += 1;
    }
    assert(sv.take(line@.len() as int) =~= sv);
    out
}

/// The columns a character takes.
fn char_cols(c: char) -> (r: u16)
    ensures
        r == cw(c),
{
    match char_width(c) {
        Some(w) => w as u16,
        None => 0,
    }
}

/// Selects within one line drawn from column `x` (see `pick_scan`): the
/// selected text and the rebuilt line.
fn select_line(line: &Vec<StyledSpan>, x: u16, x1: u16, x2: u16, hl: Color) -> (r: (String, Vec<StyledSpan>))
    requires
        x + row_width(flat(spans_view(line@))) <= u16::MAX,
    ensures
        r.0@ == pick_scan(flat(spans_view(line@)), x, x1, x2, hl).1,
        spans_view(r.1@) == pick_scan(flat(spans_view(line@)), x, x1, x2, hl).2,
{
    let fl = flatten(line);
    let mut col: u16 = x;
    let mut text: Vec<char> = Vec::new();
    let mut out: Vec<StyledSpan> = Vec::new();
    let mut k: usize = 0;
    assert(fl@.take(0) =~= Seq::<(char, Style)>::empty());
    assert(spans_view(out@) =~= Seq::<(Seq<char>, Style)>::empty());
    while k < fl.len()
        invariant
            k <= fl@.len(),
            x + row_width(fl@) <= u16::MAX,
            (col as int, text@, spans_view(out@)) == pick_scan(fl@.take(k as int), x, x1, x2, hl),
        decreases fl@.len() - k,
    {
        assert(fl@.take(k + 1).drop_last() =~= fl@.take(k as int));
        proof {
            lemma_scan_col(fl@.take(k + 1), x, x1, x2, hl);
            lemma_row_width_prefix(fl@, k + 1);
        }
        let (c, st) = fl[k];
        let w = char_cols(c);
        let end = col + if w > 0 { w - 1 } else { 0 };
        let hit = end >= x1 && col <= x2;
        if hit {
            text.push(c);
        }
        let style = if hit { Style { bg: Some(hl), ..st } } else { st };
        let ghost before = spans_view(out@);
        let mut one = String::new();
        push_char(&mut one, c);
        assert(one@ =~= seq![c]);
        out.push((one, style));
        assert(spans_view(out@) =~= before.push((seq![c], style)));
        col = col + w;
        k += 1;
    }
    assert(fl@.take(fl@.len() as int) =~= fl@);
    (string_from_chars(&text), out)
}

/// The selection spans at least two cells.
pub open spec fn has_extent(sel: SelectionState) -> bool {
    &&& sel.anchor is Some
    &&& sel.focus is Some
    &&& sel.anchor != sel.focus
}

/// The first and last selected rows.
pub open spec fn sel_rows(sel: SelectionState) -> (u16, u16) {
    let a = sel.anchor.unwrap().1;
    let f = sel.focus.unwrap().1;
    if a < f { (a, f) } else { (f, a) }
}

/// The first and last selected columns.
pub open spec fn sel_cols(sel: SelectionState) -> (u16, u16) {
    let a = sel.anchor.unwrap().0;
    let f = sel.focus.unwrap().0;
    if a < f { (a, f) } else { (f, a) }
}

/// The selection covers rows of the area.
pub open spec fn engaged(sel: SelectionState, area: Area) -> bool {
    &&& has_extent(sel)
    &&& sel_rows(sel).1 >= area.y
    &&& sel_rows(sel).0 < area.y + area.height
}

/// Line `i` of the area lies on a selected row.
pub open spec fn row_selected(sel: SelectionState, area: Area, i: int) -> bool {
    sel_rows(sel).0 <= area.y + i <= sel_rows(sel).1
}

/// The text selected in line `line` of the area.
pub open spec fn line_pick(sel: SelectionState, area: Area, line: MdLine, hl: Color) -> (Seq<char>, MdLine) {
    let r = pick_scan(flat(line), area.x, sel_cols(sel).0, sel_cols(sel).1, hl);
    (r.1, r.2)
}

/// The texts selected in the first `n` lines, in order.
pub open spec fn picked(sel: SelectionState, area: Area, lines: Seq<MdLine>, hl: Color, n: int) -> Seq<Seq<char>>
    decreases n,
{
    if n <= 0 {
        Seq::empty()
    } else if row_selected(sel, area, n - 1) {
        picked(sel, area, lines, hl, n - 1).push(line_pick(sel, area, lines[n - 1], hl).0)
    } else {
        picked(sel, area, lines, hl, n - 1)
    }
}

/// The lines of the area may be selected without running past the last
/// screen row or column: each selected line fits in the columns after `x`.
pub open spec fn fits(sel: SelectionState, area: Area, lines: Seq<MdLine>) -> bool {
    &&& area.y + lines.len() <= 65536
    &&& forall|i: int|
        0 <= i < lines.len() && row_selected(sel, area, i) ==> area.x + row_width(flat(#[trigger] lines[i]))
            <= u16::MAX
}

/// Highlights the part of the lines a mouse selection covers and records its
/// text: when the selection spans cells and covers rows of the area, every
/// line on a selected row becomes one span per character, those whose
/// columns meet the selected columns on the highlight background, and the
/// selected text is the selected characters of those lines, a line feed
/// between lines. Otherwise nothing changes.
pub fn apply_selection(lines: &mut Vec<Vec<StyledSpan>>, area: Area, selection: &mut SelectionState, theme: &Theme)
    requires
        has_extent(*old(selection)) && sel_rows(*old(selection)).1 >= area.y ==> area.y + area.height <= u16::MAX,
        engaged(*old(selection), area) ==> fits(*old(selection), area, lines_view(old(lines)@)),
    ensures
        !engaged(*old(selection), area) ==> *final(lines) == *old(lines) && *final(selection) == *old(selection),
        engaged(*old(selection), area) ==> {
            &&& final(selection).selected_text@ == join_spec(
                picked(*old(selection), area, lines_view(old(lines)@), theme.highlight_bg, old(lines)@.len() as int),
                seq!['\n'],
            )
            &&& final(selection).panel == old(selection).panel
            &&& final(selection).active == old(selection).active
            &&& final(selection).anchor == old(selection).anchor
            &&& final(selection).focus == old(selection).focus
            &&& lines_view(final(lines)@) == Seq::new(
                old(lines)@.len(),
                |i: int|
                    if row_selected(*old(selection), area, i) {
                        line_pick(*old(selection), area, lines_view(old(lines)@)[i], theme.highlight_bg).1
                    } else {
                        lines_view(old(lines)@)[i]
                    },
            )
        },
{
    let (a_col, a_row) = match selection.anchor {
        Some(v) => v,
        None => {
            return;
        },
    };
    let (f_col, f_row) = match selection.focus {
        Some(v) => v,
        None => {
            return;
        },
    };
    if a_col == f_col && a_row == f_row {
        return;
    }
    let y1 = if a_row < f_row { a_row } else { f_row };
    let y2 = if a_row < f_row { f_row } else { a_row };
    if y2 < area.y || y1 >= area.y + area.height {
        return;
    }
    let x1 = if a_col < f_col { a_col } else { f_col };
    let x2 = if a_col < f_col { f_col } else { a_col };
    let hl = theme.highlight_bg;
    let ghost sel0 = *selection;
    let ghost lv = lines_view(lines@);
    let ghost n = lines@.len();
    selection.selected_text = String::new();
    let mut first = true;
    let mut i: usize = 0;
    while i < lines.len()
        invariant
            n == lines@.len() == lv.len(),
            i <= n,
            engaged(sel0, area),
            fits(sel0, area, lv),
            sel_rows(sel0) == (y1, y2),
            sel_cols(sel0) == (x1, x2),
            hl == theme.highlight_bg,
            selection.panel == sel0.panel,
            selection.active == sel0.active,
            selection.anchor == sel0.anchor,
            selection.focus == sel0.focus,
            selection.selected_text@ == join_spec(picked(sel0, area, lv, hl, i as int), seq!['\n']),
            first == (picked(sel0, area, lv, hl, i as int).len() == 0),
            forall|j: int|
                0 <= j < n ==> #[trigger] lines_view(lines@)[j] == if j < i && row_selected(sel0, area, j) {
                    line_pick(sel0, area, lv[j], hl).1
                } else {
                    lv[j]
                },
        decreases n - i,
    {
        let line_y = area.y + i as u16;
        if line_y < y1 || line_y > y2 {
            assert(!row_selected(sel0, area, i as int));
        } else {
            assert(row_selected(sel0, area, i as int));
            assert(lines_view(lines@)[i as int] == lv[i as int]);
            assert(lv[i as int] == spans_view(lines@[i as int]@));
            let (t, new_line) = select_line(&lines[i], area.x, x1, x2, hl);
            if !first {
                push_char(&mut selection.selected_text, '\n');
            }
            push_str(&mut selection.selected_text, t.as_str());
            let ghost p = picked(sel0, area, lv, hl, i as int);
            assert(picked(sel0, area, lv, hl, i + 1) == p.push(t@));
            proof {
                if p.len() == 0 {
                    assert(p.push(t@) =~= seq![t@]);
                } else {
                    assert(p.push(t@).drop_last() =~= p);
                }
            }
            let ghost nl = spans_view(new_line@);
            let ghost lv_before = lines_view(lines@);
            lines[i] = new_line;
            assert(lines_view(lines@) =~= lv_before.update(i as int, nl));
            first = false;
        }
        i += 1;
    }
    assert(lines_view(lines@) =~= Seq::new(
        n,
        |j: int|
            if row_selected(sel0, area, j) {
                line_pick(sel0, area, lv[j], hl).1
            } else {
                lv[j]
            },
    ));
}

} // verus!
