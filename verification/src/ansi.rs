//! ANSI escape handling: removing CSI sequences and reading SGR colour codes.

use vstd::prelude::*;
use crate::strs::{chars_of, string_from_chars, split_chars, split_spec, parse_unsigned, parse_unsigned_spec, dec_spec, free_of};

verus! {

/// A character that may appear in the parameter part of a CSI sequence.
pub open spec fn is_csi_param(c: char) -> bool {
    ('0' <= c && c <= '9') || c == ';'
}

/// An ASCII letter.
pub open spec fn is_ascii_alpha(c: char) -> bool {
    ('a' <= c && c <= 'z') || ('A' <= c && c <= 'Z')
}

/// The number of leading CSI parameter characters of `s`.
pub open spec fn csi_params_len(s: Seq<char>) -> nat
    decreases s.len(),
{
    if s.len() > 0 && is_csi_param(s[0]) {
        1 + csi_params_len(s.drop_first())
    } else {
        0
    }
}

pub proof fn lemma_csi_params_len_bound(s: Seq<char>)
    ensures
        csi_params_len(s) <= s.len(),
    decreases s.len(),
{
    if s.len() > 0 && is_csi_param(s[0]) {
        lemma_csi_params_len_bound(s.drop_first());
    }
}

/// How many characters after an ESC belong to the escape sequence: a `[`,
/// then the parameters, then one terminating ASCII letter if present.
/// An ESC not followed by `[` swallows nothing beyond itself.
pub open spec fn escape_len(s: Seq<char>) -> nat {
    if s.len() > 0 && s[0] == '[' {
        let p = 1 + csi_params_len(s.drop_first());
        if p < s.len() && is_ascii_alpha(s[p as int]) {
            p + 1
        } else {
            p
        }
    } else {
        0
    }
}

pub proof fn lemma_escape_len_bound(s: Seq<char>)
    ensures
        escape_len(s) <= s.len(),
{
    if s.len() > 0 {
        lemma_csi_params_len_bound(s.drop_first());
    }
}

/// `s` with every ESC removed, together with the CSI sequence that follows it.
pub open spec fn strip_ansi_spec(s: Seq<char>) -> Seq<char>
    decreases s.len(),
{
    if s.len() == 0 {
        seq![]
    } else if s[0] == '\u{1b}' {
        let rest = s.drop_first();
        proof {
            lemma_escape_len_bound(rest);
        }
        strip_ansi_spec(rest.subrange(escape_len(rest) as int, rest.len() as int))
    } else {
        seq![s[0]] + strip_ansi_spec(s.drop_first())
    }
}

fn is_csi_param_char(c: char) -> (r: bool)
    ensures
        r == is_csi_param(c),
{
    ('0' <= c && c <= '9') || c == ';'
}

fn is_ascii_alpha_char(c: char) -> (r: bool)
    ensures
        r == is_ascii_alpha(c),
{
    ('a' <= c && c <= 'z') || ('A' <= c && c <= 'Z')
}

/// The end of the run of CSI parameter characters starting at `start`.
fn csi_params_end(v: &Vec<char>, start: usize) -> (e: usize)
    requires
        start <= v.len(),
    ensures
        start <= e <= v.len(),
        e - start == csi_params_len(v@.subrange(start as int, v.len() as int)),
{
    let n = v.len();
    let mut k = start;
    while k < n && is_csi_param_char(v[k])
        invariant
            start <= k <= n == v.len(),
            csi_params_len(v@.subrange(start as int, n as int)) == (k - start) + csi_params_len(
                v@.subrange(k as int, n as int),
            ),
        decreases n - k,
    {
        assert(v@.subrange(k as int, n as int).drop_first() =~= v@.subrange(k + 1, n as int));
        k = k + 1;
    }
    k
}

/// The index just past the escape sequence introduced by the ESC at `i`.
fn escape_end(v: &Vec<char>, i: usize) -> (e: usize)
    requires
        i < v.len(),
    ensures
        i < e <= v.len(),
        e - (i + 1) == escape_len(v@.subrange(i + 1, v.len() as int)),
{
    let n = v.len();
    let ghost rest = v@.subrange(i + 1, n as int);
    let j = i + 1;
    if j < n && v[j] == '[' {
        let p = csi_params_end(v, j + 1);
        assert(rest.drop_first() =~= v@.subrange(j + 1, n as int));
        if p < n && is_ascii_alpha_char(v[p]) {
            p + 1
        } else {
            p
        }
    } else {
        j
    }
}

/// Removes ANSI escape sequences (ESC `[` parameters terminator) from `s`.
pub fn strip_ansi(s: &str) -> (r: String)
    ensures
        r@ == strip_ansi_spec(s@),
        subsequence_of(r@, s@),
{
    proof {
        lemma_strip_ansi_subsequence(s@);
    }
    let v = chars_of(s);
    let n = v.len();
    let mut out: Vec<char> = Vec::new();
    let mut i: usize = 0;
    assert(v@.subrange(0, n as int) =~= v@);
    while i < n
        invariant
            i <= n == v.len(),
            out@ + strip_ansi_spec(v@.subrange(i as int, n as int)) == strip_ansi_spec(v@),
        decreases n - i,
    {
        let ghost sub = v@.subrange(i as int, n as int);
        if v[i] == '\u{1b}' {
            let e = escape_end(&v, i);
            proof {
                let rest = sub.drop_first();
                assert(rest =~= v@.subrange(i + 1, n as int));
                assert(rest.subrange(escape_len(rest) as int, rest.len() as int) =~= v@.subrange(
                    e as int,
                    n as int,
                ));
            }
            i = e;
        } else {
            out.push(v[i]);
            proof {
                assert(sub.drop_first() =~= v@.subrange(i + 1, n as int));
                assert(out@ + strip_ansi_spec(v@.subrange(i + 1, n as int)) =~= (out@.drop_last()
                    + strip_ansi_spec(sub)));
            }
            i = i + 1;
        }
    }
    assert(v@.subrange(n as int, n as int) =~= Seq::<char>::empty());
    assert(out@ + Seq::<char>::empty() =~= out@);
    string_from_chars(&out)
}

/// A terminal colour.
#[derive(Debug, Clone, Copy, PartialEq, Eq)]
pub enum Color {
    Reset,
    Black,
    Red,
    Green,
    Yellow,
    Blue,
    Magenta,
    Cyan,
    Gray,
    DarkGray,
    LightRed,
    LightGreen,
    LightYellow,
    LightBlue,
    LightMagenta,
    LightCyan,
    White,
    Rgb(u8, u8, u8),
    Indexed(u8),
}

/// Text modifier bits.
pub const MOD_BOLD: u16 = 0x0001;

pub const MOD_DIM: u16 = 0x0002;

pub const MOD_ITALIC: u16 = 0x0004;

pub const MOD_UNDERLINED: u16 = 0x0008;

/// A text style: colours and the modifiers added and removed.
#[derive(Debug, Clone, Copy, PartialEq, Eq, Default)]
pub struct Style {
    pub fg: Option<Color>,
    pub bg: Option<Color>,
    pub underline_color: Option<Color>,
    /// Modifier bits switched on.
    pub add_modifier: u16,
    /// Modifier bits switched off.
    pub sub_modifier: u16,
}

/// The style with modifier bits `m` switched on (and no longer switched off).
pub open spec fn with_modifier(st: Style, m: u16) -> Style {
    Style { add_modifier: st.add_modifier | m, sub_modifier: st.sub_modifier & !m, ..st }
}

/// The style with foreground `c`.
pub open spec fn with_fg(st: Style, c: Color) -> Style {
    Style { fg: Some(c), ..st }
}

/// The style with background `c`.
pub open spec fn with_bg(st: Style, c: Color) -> Style {
    Style { bg: Some(c), ..st }
}

/// The standard colour `n` of the 16-colour palette (0..=7), `Reset` otherwise.
pub open spec fn ansi16_spec(n: u8) -> Color {
    if n == 0 { Color::Black }
    else if n == 1 { Color::Red }
    else if n == 2 { Color::Green }
    else if n == 3 { Color::Yellow }
    else if n == 4 { Color::Blue }
    else if n == 5 { Color::Magenta }
    else if n == 6 { Color::Cyan }
    else if n == 7 { Color::Gray }
    else { Color::Reset }
}

/// The bright colour `n` of the 16-colour palette (0..=7), `Reset` otherwise.
pub open spec fn ansi16_bright_spec(n: u8) -> Color {
    if n == 0 { Color::DarkGray }
    else if n == 1 { Color::LightRed }
    else if n == 2 { Color::LightGreen }
    else if n == 3 { Color::LightYellow }
    else if n == 4 { Color::LightBlue }
    else if n == 5 { Color::LightMagenta }
    else if n == 6 { Color::LightCyan }
    else if n == 7 { Color::White }
    else { Color::Reset }
}

/// Colour `n` of the 256-colour palette: the 16 standard and bright colours,
/// the 6×6×6 cube (steps of 51), then 24 greys from 8 in steps of 10.
pub open spec fn ansi256_spec(n: u8) -> Color {
    if n <= 7 {
        ansi16_spec(n)
    } else if n <= 15 {
        ansi16_bright_spec((n - 8) as u8)
    } else if n <= 231 {
        let k = n - 16;
        Color::Rgb(((k / 36) * 51) as u8, (((k / 6) % 6) * 51) as u8, ((k % 6) * 51) as u8)
    } else {
        let g = (8 + (n - 232) * 10) as u8;
        Color::Rgb(g, g, g)
    }
}

/// The standard colour `n` of the 16-colour palette.
fn ansi_16_color(n: u8) -> (r: Color)
    ensures
        r == ansi16_spec(n),
        n == 0 ==> r == Color::Black,
        n == 1 ==> r == Color::Red,
        n == 2 ==> r == Color::Green,
        n == 3 ==> r == Color::Yellow,
        n == 4 ==> r == Color::Blue,
        n == 5 ==> r == Color::Magenta,
        n == 6 ==> r == Color::Cyan,
        n == 7 ==> r == Color::Gray,
        n > 7 ==> r == Color::Reset,
{
    match n {
        0 => Color::Black,
        1 => Color::Red,
        2 => Color::Green,
        3 => Color::Yellow,
        4 => Color::Blue,
        5 => Color::Magenta,
        6 => Color::Cyan,
        7 => Color::Gray,
        _ => Color::Reset,
    }
}

/// The bright colour `n` of the 16-colour palette.
fn ansi_16_bright_color(n: u8) -> (r: Color)
    ensures
        r == ansi16_bright_spec(n),
{
    match n {
        0 => Color::DarkGray,
        1 => Color::LightRed,
        2 => Color::LightGreen,
        3 => Color::LightYellow,
        4 => Color::LightBlue,
        5 => Color::LightMagenta,
        6 => Color::LightCyan,
        7 => Color::White,
        _ => Color::Reset,
    }
}

/// Colour `n` of the 256-colour palette.
fn ansi_256_color(n: u8) -> (r: Color)
    ensures
        r == ansi256_spec(n),
{
    if n <= 7 {
        ansi_16_color(n)
    } else if n <= 15 {
        ansi_16_bright_color(n - 8)
    } else if n <= 231 {
        let k = n - 16;
        assert((k / 36) * 51 <= 255) by (nonlinear_arith)
            requires k <= 215;
        assert(((k / 6) % 6) * 51 <= 255) by (nonlinear_arith);
        assert((k % 6) * 51 <= 255) by (nonlinear_arith);
        Color::Rgb((k / 36) * 51, ((k / 6) % 6) * 51, (k % 6) * 51)
    } else {
        let g = 8 + (n - 232) * 10;
        Color::Rgb(g, g, g)
    }
}

/// The numbers of the SGR parameters: the `;`-separated pieces that parse
/// as a `u8`, in order (others are skipped).
pub open spec fn sgr_nums(pieces: Seq<Seq<char>>) -> Seq<u8>
    decreases pieces.len(),
{
    if pieces.len() == 0 {
        Seq::empty()
    } else {
        let rest = sgr_nums(pieces.drop_last());
        match parse_unsigned_spec(pieces.last(), 255) {
            Some(n) => rest.push(n as u8),
            None => rest,
        }
    }
}

/// One SGR code at index `i`: the new style and the index of the last number used.
pub open spec fn sgr_step(nums: Seq<u8>, i: int, st: Style, base: Style) -> (Style, int) {
    let n = nums[i];
    let len = nums.len();
    if n == 0 {
        (base, i)
    } else if n == 1 {
        (with_modifier(st, MOD_BOLD), i)
    } else if n == 2 {
        (with_modifier(st, MOD_DIM), i)
    } else if n == 3 {
        (with_modifier(st, MOD_ITALIC), i)
    } else if n == 4 {
        (with_modifier(st, MOD_UNDERLINED), i)
    } else if 30 <= n <= 37 {
        (with_fg(st, ansi16_spec((n - 30) as u8)), i)
    } else if n == 38 || n == 48 {
        let set = |c: Color| if n == 38 { with_fg(st, c) } else { with_bg(st, c) };
        if i + 2 < len && nums[i + 1] == 5 {
            (set(ansi256_spec(nums[i + 2])), i + 2)
        } else if i + 4 < len && nums[i + 1] == 2 {
            (set(Color::Rgb(nums[i + 2], nums[i + 3], nums[i + 4])), i + 4)
        } else {
            (st, i)
        }
    } else if n == 39 {
        (with_fg(st, match base.fg { Some(c) => c, None => Color::Reset }), i)
    } else if 40 <= n <= 47 {
        (with_bg(st, ansi16_spec((n - 40) as u8)), i)
    } else if n == 49 {
        (with_bg(st, Color::Reset), i)
    } else if 90 <= n <= 97 {
        (with_fg(st, ansi16_bright_spec((n - 90) as u8)), i)
    } else if 100 <= n <= 107 {
        (with_bg(st, ansi16_bright_spec((n - 100) as u8)), i)
    } else {
        (st, i)
    }
}

/// The style after the SGR codes from index `i` on.
pub open spec fn sgr_from(nums: Seq<u8>, i: int, st: Style, base: Style) -> Style
    decreases nums.len() - i,
{
    if i < 0 || i >= nums.len() {
        st
    } else {
        let (st2, j) = sgr_step(nums, i, st, base);
        if j >= i {
            sgr_from(nums, j + 1, st2, base)
        } else {
            st2
        }
    }
}

/// The style after an SGR sequence with parameter text `params`, starting
/// from `current` (code 0 resets to `base`); dim is always added on top.
pub open spec fn apply_sgr_spec(params: Seq<char>, current: Style, base: Style) -> Style {
    with_modifier(sgr_from(sgr_nums(split_spec(params, ';')), 0, current, base), MOD_DIM)
}

/// Switches modifier bits `m` on (see `with_modifier`).
pub fn add_modifier(st: Style, m: u16) -> (r: Style)
    ensures
        r == with_modifier(st, m),
{
    Style { add_modifier: st.add_modifier | m, sub_modifier: st.sub_modifier & !m, ..st }
}

/// Applies the SGR parameters `params` to the style `current` (see `apply_sgr_spec`).
pub fn apply_sgr(params: &str, current: Style, base: Style) -> (r: Style)
    ensures
        r == apply_sgr_spec(params@, current, base),
{
    let v = chars_of(params);
    let pieces = split_chars(&v, ';');
    let ghost ps = pieces.deep_view();
    let mut nums: Vec<u8> = Vec::new();
    for k in 0..pieces.len()
        invariant
            ps == pieces.deep_view(),
            ps.len() == pieces@.len(),
            nums@ == sgr_nums(ps.take(k as int)),
    {
        assert(ps.take(k + 1).drop_last() =~= ps.take(k as int));
        assert(pieces@[k as int].deep_view() =~= pieces@[k as int]@);
        match parse_unsigned(&pieces[k], 255) {
            Some(n) => {
                nums.push(n as u8);
            },
            None => {},
        }
    }
    assert(ps.take(ps.len() as int) =~= ps);
    assert(v@ == params@);
    let ghost ns = nums@;
    let mut style = current;
    let mut i: usize = 0;
    while i < nums.len()
        invariant
            ns == nums@,
            i <= ns.len(),
            sgr_from(ns, 0, current, base) == sgr_from(ns, i as int, style, base),
        decreases ns.len() - i,
    {
        let n = nums[i];
        let len = nums.len();
        let ghost step = sgr_step(ns, i as int, style, base);
        let mut j = i;
        if n == 0 {
            style = base;
        } else if n == 1 {
            style = add_modifier(style, MOD_BOLD);
        } else if n == 2 {
            style = add_modifier(style, MOD_DIM);
        } else if n == 3 {
            style = add_modifier(style, MOD_ITALIC);
        } else if n == 4 {
            style = add_modifier(style, MOD_UNDERLINED);
        } else if 30 <= n && n <= 37 {
            style = Style { fg: Some(ansi_16_color(n - 30)), ..style };
        } else if n == 38 || n == 48 {
            let mut c: Option<Color> = None;
            if len - i > 2 && nums[i + 1] == 5 {
                c = Some(ansi_256_color(nums[i + 2]));
                j = i + 2;
            } else if len - i > 4 && nums[i + 1] == 2 {
                c = Some(Color::Rgb(nums[i + 2], nums[i + 3], nums[i + 4]));
                j = i + 4;
            }
            if let Some(col) = c {
                if n == 38 {
                    style = Style { fg: Some(col), ..style };
                } else {
                    style = Style { bg: Some(col), ..style };
                }
            }
        } else if n == 39 {
            let f = match base.fg {
                Some(c) => c,
                None => Color::Reset,
            };
            style = Style { fg: Some(f), ..style };
        } else if 40 <= n && n <= 47 {
            style = Style { bg: Some(ansi_16_color(n - 40)), ..style };
        } else if n == 49 {
            style = Style { bg: Some(Color::Reset), ..style };
        } else if 90 <= n && n <= 97 {
            style = Style { fg: Some(ansi_16_bright_color(n - 90)), ..style };
        } else if 100 <= n && n <= 107 {
            style = Style { bg: Some(ansi_16_bright_color(n - 100)), ..style };
        }
        assert(step == (style, j as int));
        i = j + 1;
    }
    add_modifier(style, MOD_DIM)
}

/// A styled piece of text.
pub type StyledSpan = (String, Style);

/// The state of the span scan: the finished spans, the pending text and the
/// current style.
pub ghost struct SpanScan {
    pub spans: Seq<(Seq<char>, Style)>,
    pub cur: Seq<char>,
    pub style: Style,
}

/// Ending the pending text: it becomes a span unless it is empty.
pub open spec fn flush_spec(st: SpanScan) -> SpanScan {
    if st.cur.len() == 0 {
        st
    } else {
        SpanScan { spans: st.spans.push((st.cur, st.style)), cur: Seq::empty(), ..st }
    }
}

/// The spans of `s` from position `i` on, in scan state `st`: text is
/// gathered into the current style; an ESC `[` ends the pending text and
/// reads parameters (digits and `;`), applied as SGR when an `m` follows
/// (the `m` is consumed; another terminator is kept as text); a lone ESC is
/// dropped.
pub open spec fn spans_from(s: Seq<char>, i: int, st: SpanScan, base: Style) -> Seq<(Seq<char>, Style)>
    decreases s.len() - i,
{
    if i < 0 || i >= s.len() {
        flush_spec(st).spans
    } else if s[i] == '\u{1b}' {
        if i + 1 < s.len() && s[i + 1] == '[' {
            let st1 = flush_spec(st);
            proof {
                lemma_csi_params_len_bound(s.subrange(i + 2, s.len() as int));
            }
            let p = i + 2 + csi_params_len(s.subrange(i + 2, s.len() as int));
            let params = s.subrange(i + 2, p);
            if p < s.len() && s[p] == 'm' {
                spans_from(s, p + 1, SpanScan { style: apply_sgr_spec(params, st1.style, base), ..st1 }, base)
            } else {
                spans_from(s, p, st1, base)
            }
        } else {
            spans_from(s, i + 1, st, base)
        }
    } else {
        spans_from(s, i + 1, SpanScan { cur: st.cur.push(s[i]), ..st }, base)
    }
}

/// The spans of a line with SGR escapes, starting in `base`.
pub open spec fn parse_ansi_spans_spec(s: Seq<char>, base: Style) -> Seq<(Seq<char>, Style)> {
    spans_from(s, 0, SpanScan { spans: Seq::empty(), cur: Seq::empty(), style: base }, base)
}

/// The spans as plain values.
pub open spec fn spans_view(v: Seq<StyledSpan>) -> Seq<(Seq<char>, Style)> {
    Seq::new(v.len(), |k: int| (v[k].0@, v[k].1))
}

/// Splits a line with ANSI SGR escapes into styled spans (see
/// `parse_ansi_spans_spec`); text outside escapes keeps the current style,
/// which starts as `base`.
pub fn parse_ansi_spans(line: &str, base: Style) -> (r: Vec<StyledSpan>)
    ensures
        spans_view(r@) == parse_ansi_spans_spec(line@, base),
{
    let v = chars_of(line);
    let n = v.len();
    let mut spans: Vec<StyledSpan> = Vec::new();
    let mut cur: Vec<char> = Vec::new();
    let mut style = base;
    let mut i: usize = 0;
    assert(spans_view(spans@) =~= Seq::<(Seq<char>, Style)>::empty());
    while i < n
        invariant
            i <= n == v.len(),
            v@ == line@,
            spans_from(v@, i as int, SpanScan { spans: spans_view(spans@), cur: cur@, style }, base)
                == parse_ansi_spans_spec(line@, base),
        decreases n - i,
    {
        if v[i] == '\u{1b}' {
            if i + 1 < n && v[i + 1] == '[' {
                let ghost st = SpanScan { spans: spans_view(spans@), cur: cur@, style };
                if cur.len() > 0 {
                    let t = string_from_chars(&cur);
                    let ghost before = spans@;
                    spans.push((t, style));
                    cur = Vec::new();
                    assert(spans_view(spans@) =~= spans_view(before).push((st.cur, style)));
                }
                assert(SpanScan { spans: spans_view(spans@), cur: cur@, style } == flush_spec(st));
                let p = csi_params_end(&v, i + 2);
                let mut params: Vec<char> = Vec::new();
                let mut k = i + 2;
                while k < p
                    invariant
                        i + 2 <= k <= p <= n == v.len(),
                        params@ == v@.subrange(i + 2, k as int),
                    decreases p - k,
                {
                    params.push(v[k]);
                    assert(v@.subrange(i + 2, k + 1) =~= v@.subrange(i + 2, k as int).push(v@[k as int]));
                    k = k + 1;
                }
                if p < n && v[p] == 'm' {
                    let ps = string_from_chars(&params);
                    style = apply_sgr(ps.as_str(), style, base);
                    i = p + 1;
                } else {
                    i = p;
                }
            } else {
                i = i + 1;
            }
        } else {
            cur.push(v[i]);
            i = i + 1;
        }
    }
    let ghost st = SpanScan { spans: spans_view(spans@), cur: cur@, style };
    if cur.len() > 0 {
        let t = string_from_chars(&cur);
        let ghost before = spans@;
        spans.push((t, style));
        assert(spans_view(spans@) =~= spans_view(before).push((st.cur, style)));
    }
    spans
}

/// Text without ESC characters is left as it is.
pub proof fn lemma_strip_ansi_plain(s: Seq<char>)
    requires
        forall|i: int| 0 <= i < s.len() ==> s[i] != '\u{1b}',
    ensures
        strip_ansi_spec(s) == s,
    decreases s.len(),
{
    if s.len() > 0 {
        assert forall|i: int| 0 <= i < s.drop_first().len() implies s.drop_first()[i] != '\u{1b}' by {
            assert(s.drop_first()[i] == s[i + 1]);
        }
        lemma_strip_ansi_plain(s.drop_first());
        assert(seq![s[0]] + s.drop_first() =~= s);
    }
}

/// `a` is a subsequence of `b`: `a` is `b` with some characters left out.
pub open spec fn subsequence_of(a: Seq<char>, b: Seq<char>) -> bool
    decreases b.len(),
{
    if b.len() == 0 {
        a.len() == 0
    } else {
        subsequence_of(a, b.drop_first()) || (a.len() > 0 && a[0] == b[0] && subsequence_of(
            a.drop_first(),
            b.drop_first(),
        ))
    }
}

/// A subsequence of a suffix is a subsequence of the whole.
proof fn lemma_subsequence_of_suffix(a: Seq<char>, b: Seq<char>, k: int)
    requires
        0 <= k <= b.len(),
        subsequence_of(a, b.subrange(k, b.len() as int)),
    ensures
        subsequence_of(a, b),
    decreases k,
{
    if k > 0 {
        assert(b.subrange(k - 1, b.len() as int).drop_first() =~= b.subrange(k, b.len() as int));
        lemma_subsequence_of_suffix(a, b, k - 1);
    } else {
        assert(b.subrange(0, b.len() as int) =~= b);
    }
}

/// Stripping only leaves characters out: the result is a subsequence of
/// the text.
pub proof fn lemma_strip_ansi_subsequence(s: Seq<char>)
    ensures
        subsequence_of(strip_ansi_spec(s), s),
    decreases s.len(),
{
    if s.len() > 0 {
        let rest = s.drop_first();
        if s[0] == '\u{1b}' {
            lemma_escape_len_bound(rest);
            let e = escape_len(rest) as int;
            let t = rest.subrange(e, rest.len() as int);
            lemma_strip_ansi_subsequence(t);
            lemma_subsequence_of_suffix(strip_ansi_spec(s), rest, e);
        } else {
            lemma_strip_ansi_subsequence(rest);
            assert((seq![s[0]] + strip_ansi_spec(rest)).drop_first() =~= strip_ansi_spec(rest));
        }
    }
}

/// The standard foreground codes 30 to 37 choose black, red, green,
/// yellow, blue, magenta, cyan and gray, in that order, and the background
/// codes 40 to 47 the same colours, whatever the current and base styles.
pub proof fn lemma_sgr_standard_colors(st: Style, base: Style, n: u8)
    requires
        30 <= n <= 37 || 40 <= n <= 47,
    ensures
        ({
            let r = apply_sgr_spec(dec_spec(n as nat), st, base);
            let c = if n == 30 || n == 40 {
                Color::Black
            } else if n == 31 || n == 41 {
                Color::Red
            } else if n == 32 || n == 42 {
                Color::Green
            } else if n == 33 || n == 43 {
                Color::Yellow
            } else if n == 34 || n == 44 {
                Color::Blue
            } else if n == 35 || n == 45 {
                Color::Magenta
            } else if n == 36 || n == 46 {
                Color::Cyan
            } else {
                Color::Gray
            };
            &&& n <= 37 ==> r.fg == Some(c) && r.bg == st.bg
            &&& n >= 40 ==> r.bg == Some(c) && r.fg == st.fg
        }),
{
    let t = dec_spec(n as nat);
    crate::strs::lemma_dec_props(n as nat);
    crate::strs::lemma_parse_dec(n as nat, 255);
    assert(free_of(t, ';')) by {
        assert forall|i: int| 0 <= i < t.len() implies t[i] != ';' by {
            assert(crate::strs::is_digit(t[i]));
        }
    }
    crate::strs::lemma_split_free(t, ';');
    let ps = seq![t];
    assert(ps.drop_last() =~= Seq::<Seq<char>>::empty());
    assert(ps.last() == t);
    assert(sgr_nums(Seq::<Seq<char>>::empty()) == Seq::<u8>::empty());
    assert(sgr_nums(ps) =~= seq![n]);
    let nums = seq![n];
    let (st2, j) = sgr_step(nums, 0, st, base);
    assert(j == 0);
    assert(sgr_from(nums, 1, st2, base) == st2);
    assert(sgr_from(nums, 0, st, base) == st2);
}

/// The bright foreground codes 90 to 97 choose dark gray, light red, light
/// green, light yellow, light blue, light magenta, light cyan and white, in
/// that order, and the background codes 100 to 107 the same colours.
pub proof fn lemma_sgr_bright_colors(st: Style, base: Style, n: u8)
    requires
        90 <= n <= 97 || 100 <= n <= 107,
    ensures
        ({
            let r = apply_sgr_spec(dec_spec(n as nat), st, base);
            let k = if n >= 100 { n - 100 } else { n - 90 };
            let c = if k == 0 {
                Color::DarkGray
            } else if k == 1 {
                Color::LightRed
            } else if k == 2 {
                Color::LightGreen
            } else if k == 3 {
                Color::LightYellow
            } else if k == 4 {
                Color::LightBlue
            } else if k == 5 {
                Color::LightMagenta
            } else if k == 6 {
                Color::LightCyan
            } else {
                Color::White
            };
            &&& n <= 97 ==> r.fg == Some(c) && r.bg == st.bg
            &&& n >= 100 ==> r.bg == Some(c) && r.fg == st.fg
        }),
{
    let t = dec_spec(n as nat);
    crate::strs::lemma_dec_props(n as nat);
    crate::strs::lemma_parse_dec(n as nat, 255);
    assert(free_of(t, ';')) by {
        assert forall|i: int| 0 <= i < t.len() implies t[i] != ';' by {
            assert(crate::strs::is_digit(t[i]));
        }
    }
    crate::strs::lemma_split_free(t, ';');
    let ps = seq![t];
    assert(ps.drop_last() =~= Seq::<Seq<char>>::empty());
    assert(ps.last() == t);
    assert(sgr_nums(Seq::<Seq<char>>::empty()) == Seq::<u8>::empty());
    assert(sgr_nums(ps) =~= seq![n]);
    let nums = seq![n];
    let (st2, j) = sgr_step(nums, 0, st, base);
    assert(j == 0);
    assert(sgr_from(nums, 1, st2, base) == st2);
    assert(sgr_from(nums, 0, st, base) == st2);
}

/// Stripping leaves no ESC character behind.
pub proof fn lemma_strip_ansi_no_escape(s: Seq<char>)
    ensures
        forall|i: int| 0 <= i < strip_ansi_spec(s).len() ==> strip_ansi_spec(s)[i] != '\u{1b}',
    decreases s.len(),
{
    if s.len() > 0 {
        if s[0] == '\u{1b}' {
            let rest = s.drop_first();
            lemma_escape_len_bound(rest);
            lemma_strip_ansi_no_escape(rest.subrange(escape_len(rest) as int, rest.len() as int));
            assert(strip_ansi_spec(s) == strip_ansi_spec(rest.subrange(escape_len(rest) as int, rest.len() as int)));
        } else {
            lemma_strip_ansi_no_escape(s.drop_first());
            let r = strip_ansi_spec(s.drop_first());
            assert(strip_ansi_spec(s) == seq![s[0]] + r);
            assert forall|i: int| 0 <= i < strip_ansi_spec(s).len() implies strip_ansi_spec(s)[i] != '\u{1b}' by {
                if i > 0 {
                    assert(strip_ansi_spec(s)[i] == r[i - 1]);
                }
            }
        }
    }
}

/// Stripping twice is stripping once.
pub proof fn lemma_strip_ansi_idempotent(s: Seq<char>)
    ensures
        strip_ansi_spec(strip_ansi_spec(s)) == strip_ansi_spec(s),
{
    lemma_strip_ansi_no_escape(s);
    lemma_strip_ansi_plain(strip_ansi_spec(s));
}

} // verus!
