//! Rendering markdown as styled terminal lines: the events of the markdown
//! parser drive a small state machine that builds lines of styled spans
//! (headings, emphasis, inline and fenced code, quotes, lists, links, rules).

use vstd::prelude::*;
use pulldown_cmark::{CodeBlockKind, Event, Tag, TagEnd};
use crate::ansi::{Style, StyledSpan, MOD_BOLD, MOD_DIM, MOD_ITALIC, with_modifier, with_fg, with_bg, spans_view, add_modifier};
use crate::components::{Theme, needs_markdown, needs_markdown_spec};
use vstd::string::StringSliceAdditionalSpecFns;
use crate::strs::{trim_spec, dec_spec, std_lines, text_lines, chars_of, string_from_chars, push_str, push_char, string_of, text_is_empty, trim, push_decimal, decimal_string};

verus! {

/// An opening markdown element, as the renderer tells them apart.
#[derive(Debug)]
pub enum MdTag {
    /// A heading of level 1 to 6.
    Heading(u8),
    BlockQuote,
    /// A code block, with its fence's language (empty when indented or unnamed).
    CodeBlock(String),
    /// A list, with its first number when ordered.
    List(Option<u64>),
    Item,
    TableCell,
    Emphasis,
    Strong,
    Strikethrough,
    /// A link, with its destination.
    Link(String),
    /// An image, with its source.
    Image(String),
    /// Any other element (paragraphs, tables and their rows, footnotes, ...).
    Other,
}

/// A closing markdown element.
#[derive(Debug)]
pub enum MdTagEnd {
    Paragraph,
    Heading,
    BlockQuote,
    CodeBlock,
    List,
    Item,
    Table,
    TableHead,
    TableRow,
    Emphasis,
    Strong,
    Strikethrough,
    Link,
    /// Any other element.
    Other,
}

/// A markdown parser event.
#[derive(Debug)]
pub enum MdEvent {
    Start(MdTag),
    End(MdTagEnd),
    Text(String),
    Code(String),
    Html(String),
    InlineHtml(String),
    InlineMath(String),
    DisplayMath(String),
    SoftBreak,
    HardBreak,
    Rule,
    FootnoteReference,
    TaskListMarker(bool),
}

/// The mathematical value of an `MdTag`.
pub ghost enum MdTagV {
    Heading(u8),
    BlockQuote,
    CodeBlock(Seq<char>),
    List(Option<u64>),
    Item,
    TableCell,
    Emphasis,
    Strong,
    Strikethrough,
    Link(Seq<char>),
    Image(Seq<char>),
    Other,
}

/// The mathematical value of an `MdEvent`.
pub ghost enum MdEventV {
    Start(MdTagV),
    End(MdTagEnd),
    Text(Seq<char>),
    Code(Seq<char>),
    Html(Seq<char>),
    InlineHtml(Seq<char>),
    InlineMath(Seq<char>),
    DisplayMath(Seq<char>),
    SoftBreak,
    HardBreak,
    Rule,
    FootnoteReference,
    TaskListMarker(bool),
}

impl DeepView for MdTag {
    type V = MdTagV;

    open spec fn deep_view(&self) -> MdTagV {
        match self {
            MdTag::Heading(l) => MdTagV::Heading(*l),
            MdTag::BlockQuote => MdTagV::BlockQuote,
            MdTag::CodeBlock(l) => MdTagV::CodeBlock(l@),
            MdTag::List(s) => MdTagV::List(*s),
            MdTag::Item => MdTagV::Item,
            MdTag::TableCell => MdTagV::TableCell,
            MdTag::Emphasis => MdTagV::Emphasis,
            MdTag::Strong => MdTagV::Strong,
            MdTag::Strikethrough => MdTagV::Strikethrough,
            MdTag::Link(u) => MdTagV::Link(u@),
            MdTag::Image(u) => MdTagV::Image(u@),
            MdTag::Other => MdTagV::Other,
        }
    }
}

impl DeepView for MdEvent {
    type V = MdEventV;

    open spec fn deep_view(&self) -> MdEventV {
        match self {
            MdEvent::Start(t) => MdEventV::Start(t.deep_view()),
            MdEvent::End(t) => MdEventV::End(*t),
            MdEvent::Text(s) => MdEventV::Text(s@),
            MdEvent::Code(s) => MdEventV::Code(s@),
            MdEvent::Html(s) => MdEventV::Html(s@),
            MdEvent::InlineHtml(s) => MdEventV::InlineHtml(s@),
            MdEvent::InlineMath(s) => MdEventV::InlineMath(s@),
            MdEvent::DisplayMath(s) => MdEventV::DisplayMath(s@),
            MdEvent::SoftBreak => MdEventV::SoftBreak,
            MdEvent::HardBreak => MdEventV::HardBreak,
            MdEvent::Rule => MdEventV::Rule,
            MdEvent::FootnoteReference => MdEventV::FootnoteReference,
            MdEvent::TaskListMarker(b) => MdEventV::TaskListMarker(*b),
        }
    }
}

/// A markdown parser event (`pulldown_cmark::Event`).
#[verifier::external_type_specification]
#[verifier::external_body]
pub struct ExMdEvent<'a>(pulldown_cmark::Event<'a>);

/// An opening markdown element (`pulldown_cmark::Tag`).
#[verifier::external_type_specification]
#[verifier::external_body]
pub struct ExMdTag<'a>(pulldown_cmark::Tag<'a>);

/// A closing markdown element (`pulldown_cmark::TagEnd`).
#[verifier::external_type_specification]
#[verifier::external_body]
pub struct ExMdTagEnd(pulldown_cmark::TagEnd);

/// The events of `pulldown_cmark::Parser::new(text)` (CommonMark, no
/// extension enabled), as the renderer tells them apart. The parser's
/// result is a function of the text alone; it is named, not stated.
pub uninterp spec fn markdown_events(text: Seq<char>) -> Seq<MdEventV>;

/// The events' mathematical values.
pub open spec fn events_view(evs: Seq<MdEvent>) -> Seq<MdEventV> {
    Seq::new(evs.len(), |i: int| evs[i].deep_view())
}

/// Parses markdown text into its events: `pulldown_cmark::Parser::new`,
/// each event converted by `md_event`. The result is `markdown_events(text)`.
#[verifier::external_body]
fn md_events(text: &str) -> (r: Vec<MdEvent>)
    ensures
        events_view(r@) == markdown_events(text@),
{
    pulldown_cmark::Parser::new(text).map(md_event).collect()
}

/// Converts a parser event, one variant for one (part of `md_events`).
#[verifier::external_body]
fn md_event(e: pulldown_cmark::Event<'_>) -> MdEvent {
    match e {
        Event::Start(t) => MdEvent::Start(md_tag(t)),
        Event::End(t) => MdEvent::End(md_tag_end(t)),
        Event::Text(s) => MdEvent::Text(s.to_string()),
        Event::Code(s) => MdEvent::Code(s.to_string()),
        Event::Html(s) => MdEvent::Html(s.to_string()),
        Event::InlineHtml(s) => MdEvent::InlineHtml(s.to_string()),
        Event::InlineMath(s) => MdEvent::InlineMath(s.to_string()),
        Event::DisplayMath(s) => MdEvent::DisplayMath(s.to_string()),
        Event::SoftBreak => MdEvent::SoftBreak,
        Event::HardBreak => MdEvent::HardBreak,
        Event::Rule => MdEvent::Rule,
        Event::FootnoteReference(_) => MdEvent::FootnoteReference,
        Event::TaskListMarker(b) => MdEvent::TaskListMarker(b),
    }
}

/// Converts an opening element (part of `md_events`).
#[verifier::external_body]
fn md_tag(t: pulldown_cmark::Tag<'_>) -> MdTag {
    match t {
        Tag::Heading { level, .. } => MdTag::Heading(level as u8),
        Tag::BlockQuote(_) => MdTag::BlockQuote,
        Tag::CodeBlock(CodeBlockKind::Fenced(l)) => MdTag::CodeBlock(l.to_string()),
        Tag::CodeBlock(CodeBlockKind::Indented) => MdTag::CodeBlock(String::new()),
        Tag::List(s) => MdTag::List(s),
        Tag::Item => MdTag::Item,
        Tag::TableCell => MdTag::TableCell,
        Tag::Emphasis => MdTag::Emphasis,
        Tag::Strong => MdTag::Strong,
        Tag::Strikethrough => MdTag::Strikethrough,
        Tag::Link { dest_url, .. } => MdTag::Link(dest_url.to_string()),
        Tag::Image { dest_url, .. } => MdTag::Image(dest_url.to_string()),
        _ => MdTag::Other,
    }
}

/// Converts a closing element (part of `md_events`).
#[verifier::external_body]
fn md_tag_end(t: pulldown_cmark::TagEnd) -> MdTagEnd {
    match t {
        TagEnd::Paragraph => MdTagEnd::Paragraph,
        TagEnd::Heading(_) => MdTagEnd::Heading,
        TagEnd::BlockQuote(_) => MdTagEnd::BlockQuote,
        TagEnd::CodeBlock => MdTagEnd::CodeBlock,
        TagEnd::List(_) => MdTagEnd::List, TagEnd::Item => MdTagEnd::Item,
        TagEnd::Table => MdTagEnd::Table,
        TagEnd::TableHead => MdTagEnd::TableHead, TagEnd::TableRow => MdTagEnd::TableRow,
        TagEnd::Emphasis => MdTagEnd::Emphasis,
        TagEnd::Strong => MdTagEnd::Strong,
        TagEnd::Strikethrough => MdTagEnd::Strikethrough,
        TagEnd::Link => MdTagEnd::Link,
        _ => MdTagEnd::Other,
    }
}

/// The crossed-out modifier bit.
pub const MOD_CROSSED_OUT: u16 = 0x0100;

/// A rendered line: its styled spans.
pub type MdLine = Seq<(Seq<char>, Style)>;

/// The style with no colour and no modifier.
pub open spec fn plain_style() -> Style {
    Style { fg: None, bg: None, underline_color: None, add_modifier: 0, sub_modifier: 0 }
}

/// Style `a` patched with `b` (ratatui's `Style::patch`): the colours `b`
/// sets replace those of `a`, and its modifiers are added and removed.
pub open spec fn patch(a: Style, b: Style) -> Style {
    Style {
        fg: if b.fg is Some { b.fg } else { a.fg },
        bg: if b.bg is Some { b.bg } else { a.bg },
        underline_color: if b.underline_color is Some { b.underline_color } else { a.underline_color },
        add_modifier: (a.add_modifier & !b.sub_modifier) | b.add_modifier,
        sub_modifier: (a.sub_modifier & !b.add_modifier) | b.sub_modifier,
    }
}

/// The state of the renderer: the finished lines, the spans of the line
/// being built, the text not yet made a span, the inline styles in force,
/// the block's base style, the fenced code block being read, whether a
/// quote is open, the heading level (0 outside headings), and the list
/// nesting depth and next item number (0 for bullets).
pub ghost struct MdState {
    pub lines: Seq<MdLine>,
    pub spans: MdLine,
    pub buf: Seq<char>,
    pub stack: Seq<Style>,
    pub base: Style,
    pub in_code: bool,
    pub lang: Seq<char>,
    pub code: Seq<Seq<char>>,
    pub in_quote: bool,
    pub heading: u8,
    pub depth: nat,
    pub index: u64,
}

/// The renderer before any event.
pub open spec fn md_initial(th: Theme) -> MdState {
    MdState {
        lines: Seq::empty(),
        spans: Seq::empty(),
        buf: Seq::empty(),
        stack: Seq::empty(),
        base: with_fg(plain_style(), th.text),
        in_code: false,
        lang: Seq::empty(),
        code: Seq::empty(),
        in_quote: false,
        heading: 0,
        depth: 0,
        index: 0,
    }
}

/// `base` patched with each style of `stack` in turn.
pub open spec fn stacked(base: Style, stack: Seq<Style>) -> Style
    decreases stack.len(),
{
    if stack.len() == 0 {
        base
    } else {
        patch(stacked(base, stack.drop_last()), stack.last())
    }
}

/// The style of inline text: the base style (bold inside a heading)
/// patched with the inline styles in force.
pub open spec fn current_style(st: MdState) -> Style {
    stacked(
        if st.heading > 0 {
            with_modifier(st.base, MOD_BOLD)
        } else {
            st.base
        },
        st.stack,
    )
}

/// The text outside the `\0`-delimited runs of `s` (a link's destination is
/// kept in the text so delimited), and whether `s` ends inside such a run.
pub open spec fn outside_marks(s: Seq<char>) -> (Seq<char>, bool)
    decreases s.len(),
{
    if s.len() == 0 {
        (Seq::empty(), false)
    } else {
        let (k, inside) = outside_marks(s.drop_last());
        if s.last() == '\0' {
            (k, !inside)
        } else if inside {
            (k, inside)
        } else {
            (k.push(s.last()), inside)
        }
    }
}

/// The pending text becomes a span in the current style (unless nothing
/// outside a link destination is left of it).
pub open spec fn flush_text(st: MdState) -> MdState {
    if st.buf.len() == 0 {
        st
    } else {
        let clean = outside_marks(st.buf).0;
        MdState {
            buf: Seq::empty(),
            spans: if clean.len() > 0 {
                st.spans.push((clean, current_style(st)))
            } else {
                st.spans
            },
            ..st
        }
    }
}

/// The pending text is flushed and the line being built, if it has spans,
/// is finished.
pub open spec fn end_line(st: MdState) -> MdState {
    let s = flush_text(st);
    if s.spans.len() > 0 {
        MdState { lines: s.lines.push(s.spans), spans: Seq::empty(), ..s }
    } else {
        s
    }
}

/// An empty line is added.
pub open spec fn push_blank(st: MdState) -> MdState {
    MdState { lines: st.lines.push(Seq::empty()), ..st }
}

/// The base style of a block: dim italic in a quote, the text colour elsewhere.
pub open spec fn default_base(in_quote: bool, th: Theme) -> Style {
    if in_quote {
        with_modifier(with_fg(plain_style(), th.blockquote_text), MOD_ITALIC)
    } else {
        with_fg(plain_style(), th.text)
    }
}

/// `n` spaces.
pub open spec fn spaces(n: nat) -> Seq<char> {
    Seq::new(n, |i: int| ' ')
}

/// The prefix of a list item at nesting depth `depth`: two spaces per
/// level below the first, then the item's number and a dot, or a bullet.
pub open spec fn item_prefix(depth: nat, index: u64) -> Seq<char> {
    let indent = spaces(if depth > 0 { (2 * (depth - 1)) as nat } else { 0 });
    if index > 0 {
        indent + dec_spec(index as nat) + ". "@
    } else {
        indent + "• "@
    }
}

/// The item number after `index` (wrapping at the largest 64-bit number).
pub open spec fn next_index(index: u64) -> u64 {
    if index == u64::MAX {
        0
    } else {
        (index + 1) as u64
    }
}

/// An opening element read into the state.
pub open spec fn on_start(st: MdState, tag: MdTagV, th: Theme) -> MdState {
    match tag {
        MdTagV::Heading(l) => MdState {
            heading: l,
            base: with_modifier(with_fg(plain_style(), th.heading_color), MOD_BOLD),
            ..st
        },
        MdTagV::BlockQuote => MdState { in_quote: true, base: default_base(true, th), ..st },
        MdTagV::CodeBlock(l) => {
            let s = end_line(MdState { in_code: true, ..st });
            MdState { lang: l, code: Seq::empty(), ..s }
        },
        MdTagV::List(o) => MdState {
            depth: st.depth + 1,
            index: match o {
                Some(n) => n,
                None => 0,
            },
            ..st
        },
        MdTagV::Item => {
            let s = end_line(st);
            MdState {
                buf: item_prefix(s.depth, s.index),
                index: if s.index > 0 { next_index(s.index) } else { s.index },
                ..s
            }
        },
        MdTagV::TableCell => MdState { buf: st.buf + " | "@, ..st },
        MdTagV::Emphasis => {
            let s = flush_text(st);
            MdState { stack: s.stack.push(with_modifier(plain_style(), MOD_ITALIC)), ..s }
        },
        MdTagV::Strong => {
            let s = flush_text(st);
            MdState { stack: s.stack.push(with_modifier(plain_style(), MOD_BOLD)), ..s }
        },
        MdTagV::Strikethrough => {
            let s = flush_text(st);
            MdState { stack: s.stack.push(with_modifier(plain_style(), MOD_CROSSED_OUT)), ..s }
        },
        MdTagV::Link(u) => {
            let s = flush_text(st);
            MdState {
                buf: s.buf + seq!['\0'] + u + seq!['\0'],
                stack: s.stack.push(with_fg(plain_style(), th.link_color)),
                ..s
            }
        },
        MdTagV::Image(u) => MdState { buf: st.buf + "[IMG: "@ + u + "]"@, ..st },
        MdTagV::Other => st,
    }
}

/// The inline style last opened is closed, after the pending text is flushed.
pub open spec fn pop_style(st: MdState) -> MdState {
    let s = flush_text(st);
    MdState {
        stack: if s.stack.len() > 0 {
            s.stack.drop_last()
        } else {
            s.stack
        },
        ..s
    }
}

/// The number of digits shown for line numbers of a code block of `n` lines.
pub open spec fn num_width(n: nat) -> nat {
    if n > 99 {
        3
    } else if n > 9 {
        2
    } else {
        1
    }
}

/// The length in bytes of a text, as `str::len` gives it.
pub open spec fn byte_len(s: Seq<char>) -> usize {
    vstd::utf8::encode_utf8(s).len() as usize
}

/// The greatest byte length among `lines` (0 for none).
pub open spec fn max_bytes(lines: Seq<Seq<char>>) -> usize
    decreases lines.len(),
{
    if lines.len() == 0 {
        0
    } else {
        let m = max_bytes(lines.drop_last());
        let b = byte_len(lines.last());
        if b > m {
            b
        } else {
            m
        }
    }
}

/// `x`, or the largest `usize` where it is larger.
pub open spec fn sat(x: int) -> usize {
    if x > usize::MAX {
        usize::MAX
    } else if x < 0 {
        0
    } else {
        x as usize
    }
}

/// The width of a code block's rows: the longest line's bytes, the line
/// number's digits and 4, and at least 20.
pub open spec fn code_width(code: Seq<Seq<char>>) -> usize {
    let w = sat(sat(max_bytes(code) + num_width(code.len())) + 4);
    if w < 20 {
        20
    } else {
        w
    }
}

/// `n` in decimal, right-aligned in `w` characters.
pub open spec fn pad_num(n: nat, w: nat) -> Seq<char> {
    let d = dec_spec(n);
    if d.len() < w {
        spaces((w - d.len()) as nat) + d
    } else {
        d
    }
}

/// Row `i` of a code block: the line number and the code between bars,
/// padded with spaces to `width` bytes.
pub open spec fn code_row(i: int, line: Seq<char>, nw: nat, width: usize) -> Seq<char> {
    let text = "│ "@ + pad_num((i + 1) as nat, nw) + " │ "@ + line + " │"@;
    let b = byte_len(text);
    if b < width {
        text + spaces((width - b) as nat)
    } else {
        text
    }
}

/// The lines of a code block: a top border naming the language, one row per
/// code line on the code background, a bottom border and an empty line.
pub open spec fn code_block_lines(lang: Seq<char>, code: Seq<Seq<char>>, th: Theme) -> Seq<MdLine> {
    let border = with_modifier(with_fg(plain_style(), th.code_border), MOD_DIM);
    let body = with_bg(plain_style(), th.code_bg);
    let top = if lang.len() == 0 {
        "┌───"@
    } else {
        "┌── "@ + lang + " ──"@
    };
    let w = code_width(code);
    let nw = num_width(code.len());
    let rows = Seq::new(code.len(), |i: int| seq![(code_row(i, code[i], nw, w), body)]);
    let bottom = "└"@ + Seq::new((w - 1) as nat, |i: int| '─');
    seq![seq![(top, border)]] + rows + seq![seq![(bottom, border)], Seq::empty()]
}

/// A closing element read into the state.
pub open spec fn on_end(st: MdState, tag: MdTagEnd, th: Theme) -> MdState {
    match tag {
        MdTagEnd::Paragraph => push_blank(end_line(st)),
        MdTagEnd::Heading => {
            let s = push_blank(end_line(st));
            MdState { heading: 0, base: default_base(s.in_quote, th), ..s }
        },
        MdTagEnd::BlockQuote => {
            let s = push_blank(end_line(st));
            MdState { in_quote: false, base: default_base(false, th), ..s }
        },
        MdTagEnd::CodeBlock => {
            let s = end_line(st);
            MdState {
                lines: s.lines + code_block_lines(s.lang, s.code, th),
                in_code: false,
                lang: Seq::empty(),
                code: Seq::empty(),
                ..s
            }
        },
        MdTagEnd::List => {
            let d: nat = if st.depth > 0 { (st.depth - 1) as nat } else { 0 };
            let s = MdState { depth: d, ..st };
            if d == 0 {
                push_blank(s)
            } else {
                s
            }
        },
        MdTagEnd::Item => end_line(st),
        MdTagEnd::Table => push_blank(st),
        MdTagEnd::TableHead => end_line(st),
        MdTagEnd::TableRow => end_line(st),
        MdTagEnd::Emphasis => pop_style(st),
        MdTagEnd::Strong => pop_style(st),
        MdTagEnd::Strikethrough => pop_style(st),
        MdTagEnd::Link => pop_style(st),
        MdTagEnd::Other => st,
    }
}

/// The horizontal rule: forty box-drawing dashes, dim.
pub open spec fn rule_line(th: Theme) -> MdLine {
    seq![(Seq::new(40, |i: int| '─'), with_modifier(with_fg(plain_style(), th.text_dim), MOD_DIM))]
}

/// One event read into the state.
pub open spec fn md_step(st: MdState, ev: MdEventV, th: Theme) -> MdState {
    match ev {
        MdEventV::Start(t) => on_start(st, t, th),
        MdEventV::End(t) => on_end(st, t, th),
        MdEventV::Text(t) => if st.in_code {
            MdState { code: st.code.push(t), ..st }
        } else {
            MdState { buf: st.buf + t, ..st }
        },
        MdEventV::Code(c) => {
            let s = flush_text(st);
            MdState { spans: s.spans.push((c, with_bg(with_fg(plain_style(), th.text), th.inline_code_bg))), ..s }
        },
        MdEventV::Html(h) => if trim_spec(h).len() > 0 {
            MdState { buf: st.buf + h, ..st }
        } else {
            st
        },
        MdEventV::InlineHtml(h) => MdState { buf: st.buf + h, ..st },
        MdEventV::InlineMath(m) => MdState { buf: st.buf + m, ..st },
        MdEventV::DisplayMath(m) => MdState { buf: st.buf + m, ..st },
        MdEventV::SoftBreak => if st.in_code {
            st
        } else {
            MdState { buf: st.buf.push(' '), ..st }
        },
        MdEventV::HardBreak => if st.in_code {
            st
        } else {
            end_line(st)
        },
        MdEventV::Rule => {
            let s = end_line(st);
            MdState { lines: s.lines.push(rule_line(th)).push(Seq::empty()), ..s }
        },
        MdEventV::FootnoteReference => st,
        MdEventV::TaskListMarker(b) => MdState {
            buf: st.buf + if b { "[x]"@ } else { "[ ]"@ },
            ..st
        },
    }
}

/// The events read in order.
pub open spec fn md_fold(evs: Seq<MdEventV>, th: Theme) -> MdState
    decreases evs.len(),
{
    if evs.len() == 0 {
        md_initial(th)
    } else {
        md_step(md_fold(evs.drop_last(), th), evs.last(), th)
    }
}

/// The lines rendered from events: once all are read, the pending text and
/// line are finished.
pub open spec fn md_render(evs: Seq<MdEventV>, th: Theme) -> Seq<MdLine> {
    end_line(md_fold(evs, th)).lines
}

/// The lines as plain values.
pub open spec fn lines_view(v: Seq<Vec<StyledSpan>>) -> Seq<MdLine> {
    Seq::new(v.len(), |i: int| spans_view(v[i]@))
}

/// The style with no colour and no modifier.
fn no_style() -> (r: Style)
    ensures
        r == plain_style(),
{
    Style { fg: None, bg: None, underline_color: None, add_modifier: 0, sub_modifier: 0 }
}

/// Patches style `a` with `b` (see `patch`).
pub(crate) fn patch_style(a: Style, b: Style) -> (r: Style)
    ensures
        r == patch(a, b),
{
    Style {
        fg: if b.fg.is_some() { b.fg } else { a.fg },
        bg: if b.bg.is_some() { b.bg } else { a.bg },
        underline_color: if b.underline_color.is_some() { b.underline_color } else { a.underline_color },
        add_modifier: (a.add_modifier & !b.sub_modifier) | b.add_modifier,
        sub_modifier: (a.sub_modifier & !b.add_modifier) | b.sub_modifier,
    }
}

/// Appends `n` spaces.
fn push_spaces(s: &mut String, n: usize)
    ensures
        final(s)@ == old(s)@ + spaces(n as nat),
{
    let mut i: usize = 0;
    while i < n
        invariant
            i <= n,
            s@ == old(s)@ + spaces(i as nat),
        decreases n - i,
    {
        push_char(s, ' ');
        assert(old(s)@ + spaces((i + 1) as nat) =~= (old(s)@ + spaces(i as nat)).push(' '));
        i += 1;
    }
}

/// Appends `n` box-drawing dashes.
fn push_dashes(s: &mut String, n: usize)
    ensures
        final(s)@ == old(s)@ + Seq::new(n as nat, |i: int| '─'),
{
    let mut i: usize = 0;
    while i < n
        invariant
            i <= n,
            s@ == old(s)@ + Seq::new(i as nat, |k: int| '─'),
        decreases n - i,
    {
        push_char(s, '─');
        assert(old(s)@ + Seq::new((i + 1) as nat, |k: int| '─') =~= (old(s)@ + Seq::new(i as nat, |k: int| '─')).push('─'));
        i += 1;
    }
}

/// A line of one span.
fn one_span(text: String, style: Style) -> (r: Vec<StyledSpan>)
    ensures
        spans_view(r@) == seq![(text@, style)],
{
    let r = vec![(text, style)];
    assert(spans_view(r@) =~= seq![(text@, style)]);
    r
}

/// Row `i` of a code block (see `code_row`).
fn code_row_text(i: usize, line: &str, nw: usize, width: usize) -> (r: String)
    requires
        i < usize::MAX,
    ensures
        r@ == code_row(i as int, line@, nw as nat, width),
{
    let mut text = string_of("│ ");
    let d = decimal_string((i + 1) as u64);
    let dl = chars_of(d.as_str()).len();
    if dl < nw {
        push_spaces(&mut text, nw - dl);
    }
    push_str(&mut text, d.as_str());
    let ghost num = pad_num((i + 1) as nat, nw as nat);
    assert(text@ == "│ "@ + num);
    push_str(&mut text, " │ ");
    push_str(&mut text, line);
    push_str(&mut text, " │");
    let ghost t = text@;
    assert(t =~= "│ "@ + num + " │ "@ + line@ + " │"@);
    let b = text.as_str().len();
    if b < width {
        push_spaces(&mut text, width - b);
    }
    text
}

/// The lines of a code block (see `code_block_lines`).
fn code_block(lang: &str, code: &Vec<String>, th: &Theme) -> (r: Vec<Vec<StyledSpan>>)
    ensures
        lines_view(r@) == code_block_lines(lang@, code.deep_view(), *th),
{
    let ghost cv = code.deep_view();
    let border = add_modifier(Style { fg: Some(th.code_border), ..no_style() }, MOD_DIM);
    let body = Style { bg: Some(th.code_bg), ..no_style() };
    let mut top = String::new();
    if text_is_empty(lang) {
        push_str(&mut top, "┌───");
    } else {
        push_str(&mut top, "┌── ");
        push_str(&mut top, lang);
        push_str(&mut top, " ──");
    }
    assert(top@ == (if lang@.len() == 0 { "┌───"@ } else { "┌── "@ + lang@ + " ──"@ }));
    let n = code.len();
    let nw: usize = if n > 99 {
        3
    } else if n > 9 {
        2
    } else {
        1
    };
    let mut m: usize = 0;
    let mut i: usize = 0;
    while i < n
        invariant
            n == code@.len() == cv.len(),
            cv == code.deep_view(),
            i <= n,
            m == max_bytes(cv.take(i as int)),
        decreases n - i,
    {
        assert(cv.take(i + 1).drop_last() =~= cv.take(i as int));
        assert(cv[i as int] == code@[i as int]@);
        let b = code[i].as_str().len();
        if b > m {
            m = b;
        }
        i += 1;
    }
    assert(cv.take(n as int) =~= cv);
    let w1: usize = if m > usize::MAX - nw { usize::MAX } else { m + nw };
    let w2: usize = if w1 > usize::MAX - 4 { usize::MAX } else { w1 + 4 };
    let w: usize = if w2 < 20 { 20 } else { w2 };
    assert(w == code_width(cv));
    let mut out: Vec<Vec<StyledSpan>> = Vec::new();
    out.push(one_span(top, border));
    let ghost rows = Seq::new(cv.len(), |k: int| seq![(code_row(k, cv[k], nw as nat, w), body)]);
    let ghost head: Seq<MdLine> = seq![seq![(top@, border)]];
    assert(lines_view(out@) =~= head);
    let mut k: usize = 0;
    while k < n
        invariant
            n == code@.len() == cv.len(),
            cv == code.deep_view(),
            k <= n,
            rows == Seq::new(cv.len(), |j: int| seq![(code_row(j, cv[j], nw as nat, w), body)]),
            lines_view(out@) =~= head + rows.take(k as int),
        decreases n - k,
    {
        assert(cv[k as int] == code@[k as int]@);
        let row = code_row_text(k, code[k].as_str(), nw, w);
        let ghost before = lines_view(out@);
        out.push(one_span(row, body));
        assert(lines_view(out@) =~= before.push(rows[k as int]));
        assert(head + rows.take(k + 1) =~= (head + rows.take(k as int)).push(rows[k as int]));
        k += 1;
    }
    assert(rows.take(n as int) =~= rows);
    let mut bottom = string_of("└");
    push_dashes(&mut bottom, w - 1);
    let ghost before = lines_view(out@);
    out.push(one_span(bottom, border));
    let empty: Vec<StyledSpan> = Vec::new();
    assert(spans_view(empty@) =~= Seq::<(Seq<char>, Style)>::empty());
    out.push(empty);
    assert(lines_view(out@) =~= before.push(seq![(bottom@, border)]).push(Seq::empty()));
    out
}

/// The renderer's state (see `MdState`).
struct Renderer {
    lines: Vec<Vec<StyledSpan>>,
    spans: Vec<StyledSpan>,
    buf: String,
    stack: Vec<Style>,
    base: Style,
    in_code: bool,
    lang: String,
    code: Vec<String>,
    in_quote: bool,
    heading: u8,
    depth: usize,
    index: u64,
}

impl Renderer {
    /// The state as plain values.
    spec fn state(&self) -> MdState {
        MdState {
            lines: lines_view(self.lines@),
            spans: spans_view(self.spans@),
            buf: self.buf@,
            stack: self.stack@,
            base: self.base,
            in_code: self.in_code,
            lang: self.lang@,
            code: self.code.deep_view(),
            in_quote: self.in_quote,
            heading: self.heading,
            depth: self.depth as nat,
            index: self.index,
        }
    }

    fn new(th: &Theme) -> (r: Renderer)
        ensures
            r.state() == md_initial(*th),
    {
        let r = Renderer {
            lines: Vec::new(),
            spans: Vec::new(),
            buf: String::new(),
            stack: Vec::new(),
            base: Style { fg: Some(th.text), ..no_style() },
            in_code: false,
            lang: String::new(),
            code: Vec::new(),
            in_quote: false,
            heading: 0,
            depth: 0,
            index: 0,
        };
        assert(r.state().lines =~= Seq::<MdLine>::empty());
        assert(r.state().spans =~= Seq::<(Seq<char>, Style)>::empty());
        assert(r.state().code =~= Seq::<Seq<char>>::empty());
        r
    }

    /// The style of inline text (see `current_style`).
    fn style_now(&self) -> (r: Style)
        ensures
            r == current_style(self.state()),
    {
        let start = if self.heading > 0 {
            add_modifier(self.base, MOD_BOLD)
        } else {
            self.base
        };
        let mut st = start;
        let mut i: usize = 0;
        while i < self.stack.len()
            invariant
                i <= self.stack@.len(),
                st == stacked(start, self.stack@.take(i as int)),
            decreases self.stack@.len() - i,
        {
            assert(self.stack@.take(i + 1).drop_last() =~= self.stack@.take(i as int));
            st = patch_style(st, self.stack[i]);
            i += 1;
        }
        assert(self.stack@.take(self.stack@.len() as int) =~= self.stack@);
        st
    }

    /// Makes the pending text a span (see `flush_text`).
    fn flush_text(&mut self)
        ensures
            final(self).state() == flush_text(old(self).state()),
    {
        if text_is_empty(self.buf.as_str()) {
            return;
        }
        let v = chars_of(self.buf.as_str());
        let mut out: Vec<char> = Vec::new();
        let mut inside = false;
        let mut i: usize = 0;
        while i < v.len()
            invariant
                i <= v@.len(),
                (out@, inside) == outside_marks(v@.take(i as int)),
            decreases v@.len() - i,
        {
            assert(v@.take(i + 1).drop_last() =~= v@.take(i as int));
            let c = v[i];
            if c == '\0' {
                inside = !inside;
            } else if !inside {
                out.push(c);
            }
            i += 1;
        }
        assert(v@.take(v@.len() as int) =~= v@);
        let style = self.style_now();
        if out.len() > 0 {
            let ghost sp = spans_view(self.spans@);
            let clean = string_from_chars(&out);
            self.spans.push((clean, style));
            assert(spans_view(self.spans@) =~= sp.push((out@, style)));
        }
        self.buf = String::new();
    }

    /// Finishes the line being built (see `end_line`).
    fn end_line(&mut self)
        ensures
            final(self).state() == end_line(old(self).state()),
    {
        self.flush_text();
        if self.spans.len() > 0 {
            let ghost ls = lines_view(self.lines@);
            let ghost sp = spans_view(self.spans@);
            let mut done: Vec<StyledSpan> = Vec::new();
            std::mem::swap(&mut done, &mut self.spans);
            self.lines.push(done);
            assert(lines_view(self.lines@) =~= ls.push(sp));
            assert(spans_view(self.spans@) =~= Seq::<(Seq<char>, Style)>::empty());
        }
    }

    /// Adds an empty line (see `push_blank`).
    fn push_blank(&mut self)
        ensures
            final(self).state() == push_blank(old(self).state()),
    {
        let ghost ls = lines_view(self.lines@);
        let empty: Vec<StyledSpan> = Vec::new();
        assert(spans_view(empty@) =~= Seq::<(Seq<char>, Style)>::empty());
        self.lines.push(empty);
        assert(lines_view(self.lines@) =~= ls.push(Seq::empty()));
    }

    /// An opening element (see `on_start`).
    fn on_start(&mut self, tag: &MdTag, th: &Theme)
        requires
            old(self).depth < usize::MAX,
        ensures
            final(self).state() == on_start(old(self).state(), tag.deep_view(), *th),
    {
        let ghost st = self.state();
        match tag {
            MdTag::Heading(l) => {
                self.heading = *l;
                self.base = add_modifier(Style { fg: Some(th.heading_color), ..no_style() }, MOD_BOLD);
            },
            MdTag::BlockQuote => {
                self.in_quote = true;
                self.base = add_modifier(Style { fg: Some(th.blockquote_text), ..no_style() }, MOD_ITALIC);
            },
            MdTag::CodeBlock(l) => {
                self.in_code = true;
                self.end_line();
                self.lang = string_of(l.as_str());
                self.code = Vec::new();
                assert(self.code.deep_view() =~= Seq::<Seq<char>>::empty());
            },
            MdTag::List(o) => {
                self.depth = self.depth + 1;
                self.index = match o {
                    Some(n) => *n,
                    None => 0,
                };
            },
            MdTag::Item => {
                self.end_line();
                let mut p = String::new();
                let k: usize = if self.depth > 0 { self.depth - 1 } else { 0 };
                let mut j: usize = 0;
                while j < k
                    invariant
                        j <= k,
                        p@ == spaces((2 * j) as nat),
                    decreases k - j,
                {
                    push_str(&mut p, "  ");
                    proof {
                        reveal_strlit("  ");
                    }
                    assert(spaces((2 * (j + 1)) as nat) =~= spaces((2 * j) as nat) + "  "@);
                    j += 1;
                }
                if self.index > 0 {
                    push_decimal(&mut p, self.index);
                    push_str(&mut p, ". ");
                    self.index = if self.index == u64::MAX { 0 } else { self.index + 1 };
                } else {
                    push_str(&mut p, "• ");
                }
                self.buf = p;
            },
            MdTag::TableCell => {
                push_str(&mut self.buf, " | ");
            },
            MdTag::Emphasis => {
                self.flush_text();
                self.stack.push(add_modifier(no_style(), MOD_ITALIC));
            },
            MdTag::Strong => {
                self.flush_text();
                self.stack.push(add_modifier(no_style(), MOD_BOLD));
            },
            MdTag::Strikethrough => {
                self.flush_text();
                self.stack.push(add_modifier(no_style(), MOD_CROSSED_OUT));
            },
            MdTag::Link(u) => {
                self.flush_text();
                let ghost b0 = self.buf@;
                push_char(&mut self.buf, '\0');
                push_str(&mut self.buf, u.as_str());
                push_char(&mut self.buf, '\0');
                assert(self.buf@ =~= b0 + seq!['\0'] + u@ + seq!['\0']);
                self.stack.push(Style { fg: Some(th.link_color), ..no_style() });
            },
            MdTag::Image(u) => {
                push_str(&mut self.buf, "[IMG: ");
                push_str(&mut self.buf, u.as_str());
                push_str(&mut self.buf, "]");
            },
            MdTag::Other => {},
        }
    }

    /// The lines of the code block just closed are added and the block is
    /// left.
    fn close_code(&mut self, th: &Theme)
        ensures
            final(self).state() == (MdState {
                lines: old(self).state().lines + code_block_lines(old(self).state().lang, old(self).state().code, *th),
                in_code: false,
                lang: Seq::empty(),
                code: Seq::empty(),
                ..old(self).state()
            }),
    {
        let block = code_block(self.lang.as_str(), &self.code, th);
        let ghost ls = lines_view(self.lines@);
        let ghost bl = lines_view(block@);
        let mut i: usize = 0;
        while i < block.len()
            invariant
                i <= block@.len(),
                bl == lines_view(block@),
                lines_view(self.lines@) =~= ls + bl.take(i as int),
                self.spans == old(self).spans,
                self.buf == old(self).buf,
                self.stack == old(self).stack,
                self.base == old(self).base,
                self.in_code == old(self).in_code,
                self.lang == old(self).lang,
                self.code == old(self).code,
                self.in_quote == old(self).in_quote,
                self.heading == old(self).heading,
                self.depth == old(self).depth,
                self.index == old(self).index,
                ls == lines_view(old(self).lines@),
            decreases block@.len() - i,
        {
            let row = copy_spans(&block[i]);
            let ghost before = lines_view(self.lines@);
            self.lines.push(row);
            assert(lines_view(self.lines@) =~= before.push(bl[i as int]));
            assert(ls + bl.take(i + 1) =~= (ls + bl.take(i as int)).push(bl[i as int]));
            i += 1;
        }
        assert(bl.take(block@.len() as int) =~= bl);
        self.in_code = false;
        self.lang = String::new();
        self.code = Vec::new();
        assert(self.code.deep_view() =~= Seq::<Seq<char>>::empty());
    }

    /// A closing element (see `on_end`).
    fn on_end(&mut self, tag: &MdTagEnd, th: &Theme)
        ensures
            final(self).state() == on_end(old(self).state(), *tag, *th),
    {
        match tag {
            MdTagEnd::Paragraph => {
                self.end_line();
                self.push_blank();
            },
            MdTagEnd::Heading => {
                self.end_line();
                self.push_blank();
                self.heading = 0;
                self.base = if self.in_quote {
                    add_modifier(Style { fg: Some(th.blockquote_text), ..no_style() }, MOD_ITALIC)
                } else {
                    Style { fg: Some(th.text), ..no_style() }
                };
            },
            MdTagEnd::BlockQuote => {
                self.end_line();
                self.push_blank();
                self.in_quote = false;
                self.base = Style { fg: Some(th.text), ..no_style() };
            },
            MdTagEnd::CodeBlock => {
                self.end_line();
                self.close_code(th);
            },
            MdTagEnd::List => {
                self.depth = if self.depth > 0 { self.depth - 1 } else { 0 };
                if self.depth == 0 {
                    self.push_blank();
                }
            },
            MdTagEnd::Item => {
                self.end_line();
            },
            MdTagEnd::Table => {
                self.push_blank();
            },
            MdTagEnd::TableHead => {
                self.end_line();
            },
            MdTagEnd::TableRow => {
                self.end_line();
            },
            MdTagEnd::Emphasis => {
                self.pop_style();
            },
            MdTagEnd::Strong => {
                self.pop_style();
            },
            MdTagEnd::Strikethrough => {
                self.pop_style();
            },
            MdTagEnd::Link => {
                self.pop_style();
            },
            MdTagEnd::Other => {},
        }
    }

    /// Reads one event (see `md_step`).
    fn step(&mut self, ev: &MdEvent, th: &Theme)
        requires
            old(self).depth < usize::MAX,
        ensures
            final(self).state() == md_step(old(self).state(), ev.deep_view(), *th),
            ev.deep_view() == MdEventV::SoftBreak && !old(self).state().in_code ==> final(self).state() == (MdState {
                buf: old(self).state().buf + seq![' '],
                ..old(self).state()
            }),
            ev.deep_view() == MdEventV::SoftBreak && old(self).state().in_code ==> final(self).state() == old(self).state(),
    {
        proof {
            lemma_soft_break(self.state(), *th);
        }
        match ev {
            MdEvent::Start(t) => self.on_start(t, th),
            MdEvent::End(t) => self.on_end(t, th),
            MdEvent::Text(t) => {
                if self.in_code {
                    let ghost c0 = self.code.deep_view();
                    self.code.push(string_of(t.as_str()));
                    assert(self.code.deep_view() =~= c0.push(t@));
                } else {
                    push_str(&mut self.buf, t.as_str());
                }
            },
            MdEvent::Code(c) => {
                self.flush_text();
                let ghost sp = spans_view(self.spans@);
                let style = Style { fg: Some(th.text), bg: Some(th.inline_code_bg), ..no_style() };
                self.spans.push((string_of(c.as_str()), style));
                assert(spans_view(self.spans@) =~= sp.push((c@, style)));
            },
            MdEvent::Html(h) => {
                let t = trim(h.as_str());
                if !text_is_empty(t.as_str()) {
                    push_str(&mut self.buf, h.as_str());
                }
            },
            MdEvent::InlineHtml(h) => push_str(&mut self.buf, h.as_str()),
            MdEvent::InlineMath(m) => push_str(&mut self.buf, m.as_str()),
            MdEvent::DisplayMath(m) => push_str(&mut self.buf, m.as_str()),
            MdEvent::SoftBreak => {
                if !self.in_code {
                    push_char(&mut self.buf, ' ');
                }
            },
            MdEvent::HardBreak => {
                if !self.in_code {
                    self.end_line();
                }
            },
            MdEvent::Rule => {
                self.end_line();
                let mut dashes = String::new();
                push_dashes(&mut dashes, 40);
                let style = add_modifier(Style { fg: Some(th.text_dim), ..no_style() }, MOD_DIM);
                let ghost ls = lines_view(self.lines@);
                self.lines.push(one_span(dashes, style));
                assert(Seq::<char>::empty() + Seq::new(40, |i: int| '─') =~= Seq::new(40, |i: int| '─'));
                assert(lines_view(self.lines@) =~= ls.push(rule_line(*th)));
                self.push_blank();
            },
            MdEvent::FootnoteReference => {},
            MdEvent::TaskListMarker(b) => {
                if *b {
                    push_str(&mut self.buf, "[x]");
                } else {
                    push_str(&mut self.buf, "[ ]");
                }
            },
        }
    }

    /// Closes the inline style last opened (see `pop_style`).
    fn pop_style(&mut self)
        ensures
            final(self).state() == pop_style(old(self).state()),
    {
        self.flush_text();
        if self.stack.len() > 0 {
            self.stack.pop();
        }
    }
}

/// A copy of a line of spans.
pub(crate) fn copy_spans(v: &Vec<StyledSpan>) -> (r: Vec<StyledSpan>)
    ensures
        spans_view(r@) == spans_view(v@),
{
    let mut r: Vec<StyledSpan> = Vec::new();
    let mut i: usize = 0;
    while i < v.len()
        invariant
            i <= v@.len(),
            spans_view(r@) =~= spans_view(v@).take(i as int),
        decreases v@.len() - i,
    {
        let ghost before = spans_view(r@);
        r.push((string_of(v[i].0.as_str()), v[i].1));
        assert(spans_view(r@) =~= before.push(spans_view(v@)[i as int]));
        i += 1;
    }
    r
}

/// An event deepens list nesting by at most one level.
proof fn lemma_step_depth(st: MdState, ev: MdEventV, th: Theme)
    ensures
        md_step(st, ev, th).depth <= st.depth + 1,
{
}

/// Renders markdown events as styled lines (see `md_render`).
pub fn render_events(evs: &Vec<MdEvent>, th: &Theme) -> (r: Vec<Vec<StyledSpan>>)
    ensures
        lines_view(r@) == md_render(events_view(evs@), *th),
{
    let ghost ev = events_view(evs@);
    let mut rd = Renderer::new(th);
    let mut i: usize = 0;
    while i < evs.len()
        invariant
            ev == events_view(evs@),
            i <= evs@.len(),
            rd.depth <= i,
            rd.state() == md_fold(ev.take(i as int), *th),
        decreases evs@.len() - i,
    {
        assert(ev.take(i + 1).drop_last() =~= ev.take(i as int));
        assert(ev[i as int] == evs@[i as int].deep_view());
        proof {
            lemma_step_depth(rd.state(), ev[i as int], *th);
        }
        rd.step(&evs[i], th);
        i += 1;
    }
    assert(ev.take(evs@.len() as int) =~= ev);
    rd.end_line();
    rd.lines
}

/// Text without markdown shown as it is: one unstyled span per line.
pub open spec fn plain_render(text: Seq<char>) -> Seq<MdLine> {
    let ls = std_lines(text);
    Seq::new(ls.len(), |i: int| seq![(ls[i], plain_style())])
}

/// Markdown text rendered as styled lines: text in which a quick scan finds
/// no markdown syntax (`needs_markdown_spec`) is shown line by line;
/// otherwise its parser events are rendered (`md_render`).
pub open spec fn render_spec(text: Seq<char>, th: Theme) -> Seq<MdLine> {
    if !needs_markdown_spec(vstd::utf8::encode_utf8(text)) {
        plain_render(text)
    } else {
        md_render(markdown_events(text), th)
    }
}

/// The lines of a text as unstyled spans (see `plain_render`).
fn plain_lines(text: &str) -> (r: Vec<Vec<StyledSpan>>)
    ensures
        lines_view(r@) == plain_render(text@),
{
    let ls = text_lines(text);
    let ghost lv = ls.deep_view();
    let mut out: Vec<Vec<StyledSpan>> = Vec::new();
    let mut i: usize = 0;
    while i < ls.len()
        invariant
            lv == ls.deep_view(),
            lv == std_lines(text@),
            i <= ls@.len(),
            lines_view(out@) =~= Seq::new(i as nat, |k: int| seq![(lv[k], plain_style())]),
        decreases ls@.len() - i,
    {
        assert(lv[i as int] == ls@[i as int]@);
        let ghost before = lines_view(out@);
        out.push(one_span(string_of(ls[i].as_str()), no_style()));
        assert(lines_view(out@) =~= before.push(seq![(lv[i as int], plain_style())]));
        i += 1;
    }
    out
}

/// Renders markdown text as styled lines (see `render_spec`).
pub fn render(text: &str, th: &Theme) -> (r: Vec<Vec<StyledSpan>>)
    ensures
        lines_view(r@) == render_spec(text@, *th),
{
    if !needs_markdown(text) {
        plain_lines(text)
    } else {
        let evs = md_events(text);
        render_events(&evs, th)
    }
}

/// A soft line break outside a code block becomes exactly one space in the
/// pending text, and changes nothing else; inside a code block it changes
/// nothing.
pub proof fn lemma_soft_break(st: MdState, th: Theme)
    ensures
        !st.in_code ==> md_step(st, MdEventV::SoftBreak, th) == (MdState { buf: st.buf + seq![' '], ..st }),
        !st.in_code ==> md_step(st, MdEventV::SoftBreak, th).buf.len() == st.buf.len() + 1,
        !st.in_code ==> md_step(st, MdEventV::SoftBreak, th).buf.last() == ' ',
        st.in_code ==> md_step(st, MdEventV::SoftBreak, th) == st,
{
    assert(st.buf.push(' ') =~= st.buf + seq![' ']);
}

} // verus!
