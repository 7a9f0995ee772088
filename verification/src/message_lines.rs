//! The lines the message list shows for a message: its title, its text
//! through markdown, and its blocks (reasoning and tool calls) folded or
//! unfolded, the block under the cursor highlighted.

use vstd::prelude::*;
use crate::ansi::{
    Style, StyledSpan, MOD_BOLD, MOD_DIM, with_modifier, with_fg, with_bg, spans_view, strip_ansi,
    strip_ansi_spec, parse_ansi_spans, parse_ansi_spans_spec, add_modifier,
};
use crate::components::Theme;
use crate::markdown::{MdLine, lines_view, plain_style, patch, render, render_spec, copy_spans, patch_style};
use crate::message::{BlockExpanded, BlockView, ChatMessage, ChatRole, ContentBlock, MessageView, ToolStatus, tool_icon, block_refs_spec, build_block_refs};
use crate::main_view::{BlockStates, MainView, block_key, block_key_spec};
use crate::history::{Json, JsonV, jview, vkeys, vstr_at, json_keys, json_vstr_at, json_value};
use crate::message::opt_jview;
use crate::state::MainViewSubsection;
use crate::strs::{std_lines, text_lines, join_spec, dec_spec, push_str, push_decimal, string_of, chars_of};

verus! {

/// A text through markdown, each rendered line after a `prefix` span.
pub open spec fn md_lines(text: Seq<char>, prefix: Seq<char>, th: Theme) -> Seq<MdLine> {
    let r = render_spec(strip_ansi_spec(text), th);
    Seq::new(r.len(), |i: int| seq![(prefix, plain_style())] + r[i])
}

/// The first `n` lines of a text, joined with line feeds.
pub open spec fn first_lines(s: Seq<char>, n: nat) -> Seq<char> {
    let ls = std_lines(s);
    join_spec(if ls.len() > n { ls.take(n as int) } else { ls }, seq!['\n'])
}

/// The dim text style.
pub open spec fn dim(th: Theme) -> Style {
    with_fg(plain_style(), th.text_dim)
}

/// A style on the highlight background when `selected`.
pub open spec fn marked(st: Style, selected: bool, th: Theme) -> Style {
    if selected {
        with_bg(st, th.highlight_bg)
    } else {
        st
    }
}

/// A line on the highlight background when `selected`: each span's style
/// patched over it.
pub open spec fn on_highlight(line: MdLine, selected: bool, th: Theme) -> MdLine {
    if selected {
        Seq::new(line.len(), |i: int| (line[i].0, patch(with_bg(plain_style(), th.highlight_bg), line[i].1)))
    } else {
        line
    }
}

/// The joined text of the first `n` pieces.
fn join_first(ls: &Vec<String>, n: usize, sep: &str) -> (r: String)
    ensures
        r@ == join_spec(if ls.deep_view().len() > n { ls.deep_view().take(n as int) } else { ls.deep_view() }, sep@),
{
    let ghost lv = ls.deep_view();
    let m = if ls.len() > n { n } else { ls.len() };
    let ghost ps = if lv.len() > n { lv.take(n as int) } else { lv };
    assert(ps.len() == m);
    let mut out = String::new();
    let mut i: usize = 0;
    while i < m
        invariant
            lv == ls.deep_view(),
            m <= ls@.len(),
            ps.len() == m,
            forall|k: int| 0 <= k < m ==> ps[k] == lv[k],
            i <= m,
            out@ == join_spec(ps.take(i as int), sep@),
        decreases m - i,
    {
        assert(lv[i as int] == ls@[i as int]@);
        let ghost before = ps.take(i as int);
        if i > 0 {
            push_str(&mut out, sep);
        }
        push_str(&mut out, ls[i].as_str());
        proof {
            if i == 0 {
                assert(ps.take(1) =~= seq![ps[0]]);
                assert(out@ =~= Seq::<char>::empty() + ps[0]);
            } else {
                assert(ps.take(i + 1).drop_last() =~= before);
            }
        }
        i += 1;
    }
    assert(ps.take(m as int) =~= ps);
    out
}

/// The first `n` lines of a text (see `first_lines`).
fn first_lines_of(s: &str, n: usize) -> (r: String)
    ensures
        r@ == first_lines(s@, n as nat),
{
    let ls = text_lines(s);
    let r = join_first(&ls, n, "\n");
    proof {
        reveal_strlit("\n");
        assert("\n"@ =~= seq!['\n']);
    }
    r
}

/// A line of one span.
fn span_line(text: String, style: Style) -> (r: Vec<StyledSpan>)
    ensures
        spans_view(r@) == seq![(text@, style)],
{
    let r = vec![(text, style)];
    assert(spans_view(r@) =~= seq![(text@, style)]);
    r
}

/// Appends lines.
fn append_lines(out: &mut Vec<Vec<StyledSpan>>, more: &Vec<Vec<StyledSpan>>)
    ensures
        lines_view(final(out)@) == lines_view(old(out)@) + lines_view(more@),
{
    let ghost start = lines_view(out@);
    let ghost mv = lines_view(more@);
    let mut i: usize = 0;
    while i < more.len()
        invariant
            mv == lines_view(more@),
            i <= more@.len(),
            lines_view(out@) =~= start + mv.take(i as int),
        decreases more@.len() - i,
    {
        let l = copy_spans(&more[i]);
        let ghost before = lines_view(out@);
        out.push(l);
        assert(lines_view(out@) =~= before.push(mv[i as int]));
        assert(mv.take(i + 1) =~= mv.take(i as int).push(mv[i as int]));
        i += 1;
    }
    assert(mv.take(more@.len() as int) =~= mv);
}

/// Renders a text through markdown after a prefix span (see `md_lines`).
fn md_prefixed(text: &str, prefix: &str, th: &Theme) -> (r: Vec<Vec<StyledSpan>>)
    ensures
        lines_view(r@) == md_lines(text@, prefix@, *th),
{
    let clean = strip_ansi(text);
    let md = render(clean.as_str(), th);
    let ghost mv = lines_view(md@);
    let mut out: Vec<Vec<StyledSpan>> = Vec::new();
    let mut i: usize = 0;
    while i < md.len()
        invariant
            mv == lines_view(md@),
            mv == render_spec(strip_ansi_spec(text@), *th),
            i <= md@.len(),
            lines_view(out@) =~= Seq::new(i as nat, |k: int| seq![(prefix@, plain_style())] + mv[k]),
        decreases md@.len() - i,
    {
        let mut line: Vec<StyledSpan> = Vec::new();
        line.push((string_of(prefix), Style { fg: None, bg: None, underline_color: None, add_modifier: 0, sub_modifier: 0 }));
        let src = &md[i];
        let mut k: usize = 0;
        while k < src.len()
            invariant
                k <= src@.len(),
                spans_view(line@) =~= seq![(prefix@, plain_style())] + spans_view(src@).take(k as int),
            decreases src@.len() - k,
        {
            let ghost before = spans_view(line@);
            line.push((string_of(src[k].0.as_str()), src[k].1));
            assert(spans_view(line@) =~= before.push(spans_view(src@)[k as int]));
            k += 1;
        }
        assert(spans_view(src@).take(src@.len() as int) =~= spans_view(src@));
        let ghost before = lines_view(out@);
        out.push(line);
        assert(lines_view(out@) =~= before.push(seq![(prefix@, plain_style())] + mv[i as int]));
        i += 1;
    }
    out
}

/// A reasoning block: folded, one line with its length in characters and
/// its first line; unfolded, a line with its length and then each of its
/// lines dim, after three spaces, with their ANSI styles.
pub open spec fn thinking_lines(t: Seq<char>, state: BlockExpanded, selected: bool, th: Theme) -> Seq<MdLine> {
    let clean = strip_ansi_spec(t);
    let st = marked(dim(th), selected, th);
    match state {
        BlockExpanded::Collapsed => seq![
            seq![(" ▶ [思考] "@ + dec_spec(clean.len()) + " 字 — "@ + first_lines(clean, 1), st)],
        ],
        BlockExpanded::Expanded => {
            let base = with_modifier(dim(th), MOD_DIM);
            let ls = std_lines(t);
            seq![seq![(" ▼ [思考] "@ + dec_spec(clean.len()) + " 字"@, st)]] + Seq::new(
                ls.len(),
                |i: int| on_highlight(seq![("   "@, base)] + parse_ansi_spans_spec(ls[i], base), selected, th),
            )
        },
    }
}

/// Appends a line on the highlight background when `selected` (see
/// `on_highlight`).
fn push_highlighted(out: &mut Vec<Vec<StyledSpan>>, line: Vec<StyledSpan>, selected: bool, th: &Theme)
    ensures
        lines_view(final(out)@) == lines_view(old(out)@).push(on_highlight(spans_view(line@), selected, *th)),
{
    let ghost before = lines_view(out@);
    if !selected {
        out.push(line);
        assert(lines_view(out@) =~= before.push(spans_view(line@)));
        return;
    }
    let ghost lv = spans_view(line@);
    let bg = Style { bg: Some(th.highlight_bg), fg: None, underline_color: None, add_modifier: 0, sub_modifier: 0 };
    let mut r: Vec<StyledSpan> = Vec::new();
    let mut i: usize = 0;
    while i < line.len()
        invariant
            lv == spans_view(line@),
            bg == with_bg(plain_style(), th.highlight_bg),
            i <= line@.len(),
            spans_view(r@) =~= Seq::new(i as nat, |k: int| (lv[k].0, patch(bg, lv[k].1))),
        decreases line@.len() - i,
    {
        let ghost b = spans_view(r@);
        r.push((string_of(line[i].0.as_str()), patch_style(bg, line[i].1)));
        assert(spans_view(r@) =~= b.push((lv[i as int].0, patch(bg, lv[i as int].1))));
        i += 1;
    }
    out.push(r);
    assert(lines_view(out@) =~= before.push(on_highlight(lv, selected, *th)));
}

/// The lines of a reasoning block (see `thinking_lines`).
fn thinking_block(t: &str, state: BlockExpanded, selected: bool, th: &Theme) -> (r: Vec<Vec<StyledSpan>>)
    ensures
        lines_view(r@) == thinking_lines(t@, state, selected, *th),
{
    let clean = strip_ansi(t);
    let n = chars_of(clean.as_str()).len();
    let d = Style { fg: Some(th.text_dim), bg: None, underline_color: None, add_modifier: 0, sub_modifier: 0 };
    let st = if selected { Style { bg: Some(th.highlight_bg), ..d } } else { d };
    let mut out: Vec<Vec<StyledSpan>> = Vec::new();
    match state {
        BlockExpanded::Collapsed => {
            let mut text = string_of(" ▶ [思考] ");
            push_decimal(&mut text, n as u64);
            push_str(&mut text, " 字 — ");
            let first = first_lines_of(clean.as_str(), 1);
            push_str(&mut text, first.as_str());
            out.push(span_line(text, st));
            assert(lines_view(out@) =~= thinking_lines(t@, state, selected, *th));
        },
        BlockExpanded::Expanded => {
            let mut text = string_of(" ▼ [思考] ");
            push_decimal(&mut text, n as u64);
            push_str(&mut text, " 字");
            out.push(span_line(text, st));
            let base = add_modifier(d, MOD_DIM);
            let ls = text_lines(t);
            let ghost lv = ls.deep_view();
            let ghost head = lines_view(out@);
            let mut i: usize = 0;
            while i < ls.len()
                invariant
                    lv == ls.deep_view(),
                    lv == std_lines(t@),
                    base == with_modifier(dim(*th), MOD_DIM),
                    i <= ls@.len(),
                    lines_view(out@) =~= head + Seq::new(
                        i as nat,
                        |k: int| on_highlight(seq![("   "@, base)] + parse_ansi_spans_spec(lv[k], base), selected, *th),
                    ),
                decreases ls@.len() - i,
            {
                assert(lv[i as int] == ls@[i as int]@);
                let mut line: Vec<StyledSpan> = Vec::new();
                line.push((string_of("   "), base));
                let spans = parse_ansi_spans(ls[i].as_str(), base);
                let ghost sv = spans_view(spans@);
                let mut k: usize = 0;
                while k < spans.len()
                    invariant
                        sv == spans_view(spans@),
                        k <= spans@.len(),
                        spans_view(line@) =~= seq![("   "@, base)] + sv.take(k as int),
                    decreases spans@.len() - k,
                {
                    let ghost b = spans_view(line@);
                    line.push((string_of(spans[k].0.as_str()), spans[k].1));
                    assert(spans_view(line@) =~= b.push(sv[k as int]));
                    k += 1;
                }
                assert(sv.take(spans@.len() as int) =~= sv);
                push_highlighted(&mut out, line, selected, th);
                i += 1;
            }
            assert(lines_view(out@) =~= thinking_lines(t@, state, selected, *th));
        },
    }
    out
}

/// What a tool call block shows of its JSON: the summary of its argument
/// names, its arguments pretty-printed, and the text of its result's
/// `content`.
#[derive(Debug)]
pub struct ToolTexts {
    pub summary: String,
    pub pretty: Option<String>,
    pub content: Option<String>,
}

/// The mathematical value of `ToolTexts`.
pub ghost struct ToolTextsV {
    pub summary: Seq<char>,
    pub pretty: Option<Seq<char>>,
    pub content: Option<Seq<char>>,
}

impl DeepView for ToolTexts {
    type V = ToolTextsV;

    open spec fn deep_view(&self) -> ToolTextsV {
        ToolTextsV { summary: self.summary@, pretty: self.pretty.deep_view(), content: self.content.deep_view() }
    }
}

/// The summary of a tool's argument names: the first three in parentheses,
/// `…` after them when there are more; nothing when the arguments are not
/// an object or an empty one.
pub open spec fn args_summary_spec(keys: Option<Seq<Seq<char>>>) -> Seq<char> {
    match keys {
        None => Seq::empty(),
        Some(ks) => if ks.len() == 0 {
            Seq::empty()
        } else {
            let t = join_spec(if ks.len() > 3 { ks.take(3) } else { ks }, ", "@);
            if ks.len() > 3 {
                "("@ + t + ", …)"@
            } else {
                "("@ + t + ")"@
            }
        },
    }
}

/// Summarises a tool's argument names, given the names of the arguments
/// object (see `args_summary_spec`).
pub fn format_args_summary(keys: &Option<Vec<String>>) -> (r: String)
    ensures
        r@ == args_summary_spec(keys.deep_view()),
{
    match keys {
        None => String::new(),
        Some(ks) => {
            if ks.len() == 0 {
                return String::new();
            }
            let t = join_first(ks, 3, ", ");
            let mut r = string_of("(");
            push_str(&mut r, t.as_str());
            if ks.len() > 3 {
                push_str(&mut r, ", …)");
            } else {
                push_str(&mut r, ")");
            }
            r
        },
    }
}

/// The text `serde_json::to_string_pretty` gives for the
/// `serde_json::Value` that a JSON value stands for, named: the library does
/// not spell out serde_json's layout.
pub uninterp spec fn json_pretty_text(v: JsonV) -> Seq<char>;

/// A JSON value pretty-printed: turned into a `serde_json::Value`, then
/// `serde_json::to_string_pretty`. Its text is `json_pretty_text` of the
/// value's view. It always succeeds: a `Value` serializes without error
/// (its object keys are strings, and writing into memory does not fail).
#[verifier::external_body]
fn json_pretty(v: &Json) -> (r: Option<String>)
    ensures
        r is Some,
        match r {
            Some(t) => t@ == json_pretty_text(jview(*v)),
            None => true,
        },
{
    serde_json::to_string_pretty(&json_value(v)).ok()
}

/// What a tool call block shows of its arguments and result: the summary of
/// the argument object's keys, the pretty-printed arguments, and the
/// result's `content` when it is a string.
pub open spec fn tool_texts_spec(args: JsonV, result: Option<JsonV>) -> ToolTextsV {
    ToolTextsV {
        summary: args_summary_spec(vkeys(args)),
        pretty: Some(json_pretty_text(args)),
        content: match result {
            Some(r) => vstr_at(r, "content"@),
            None => None,
        },
    }
}

/// What a tool call block shows of its arguments and result (see
/// `tool_texts_spec`).
pub fn tool_texts(arguments: &Json, result: &Option<Json>) -> (r: ToolTexts)
    ensures
        r.deep_view() == tool_texts_spec(jview(*arguments), opt_jview(*result)),
{
    let keys = json_keys(arguments);
    let summary = format_args_summary(&keys);
    let pretty = json_pretty(arguments);
    let content = match result {
        Some(r) => json_vstr_at(r, "content"),
        None => None,
    };
    ToolTexts { summary, pretty, content }
}

/// The icon of a tool call block: failed, done, or still running.
pub open spec fn tool_icon_of(is_error: bool, has_result: bool) -> Seq<char> {
    if is_error {
        "✗"@
    } else if has_result {
        "✓"@
    } else {
        "▶"@
    }
}

/// The mark of a failed tool call.
pub open spec fn error_mark(is_error: bool) -> Seq<char> {
    if is_error {
        "(出错)"@
    } else {
        Seq::empty()
    }
}

/// The first `n` lines of a text, each after three spaces, in style `st`.
pub open spec fn indented(s: Seq<char>, n: nat, st: Style) -> Seq<MdLine> {
    let ls = std_lines(s);
    let k = if ls.len() > n { n } else { ls.len() };
    Seq::new(k, |i: int| seq![("   "@ + ls[i], st)])
}

/// A tool call block: folded, its icon, name, argument summary and failure
/// mark; unfolded, its icon, name and failure mark, the first five lines of
/// its arguments and, under a rule, the first three of its result's text.
pub open spec fn tool_lines(
    name: Seq<char>,
    is_error: bool,
    has_result: bool,
    state: BlockExpanded,
    selected: bool,
    tx: ToolTextsV,
    th: Theme,
) -> Seq<MdLine> {
    let icon = tool_icon_of(is_error, has_result);
    let st = marked(dim(th), selected, th);
    match state {
        BlockExpanded::Collapsed => seq![
            seq![(" "@ + icon + " "@ + name + " "@ + tx.summary + " "@ + error_mark(is_error), st)],
        ],
        BlockExpanded::Expanded => seq![seq![(" "@ + icon + " "@ + name + " "@ + error_mark(is_error), st)]]
            + match tx.pretty {
            Some(p) => indented(p, 5, st),
            None => Seq::empty(),
        } + match tx.content {
            Some(c) => seq![seq![("   ---"@, dim(th))]] + indented(c, 3, st),
            None => Seq::empty(),
        },
    }
}

/// Appends the first `n` lines of a text, indented (see `indented`).
fn push_indented(out: &mut Vec<Vec<StyledSpan>>, s: &str, n: usize, st: Style)
    ensures
        lines_view(final(out)@) == lines_view(old(out)@) + indented(s@, n as nat, st),
{
    let ls = text_lines(s);
    let ghost lv = ls.deep_view();
    let ghost start = lines_view(out@);
    let k = if ls.len() > n { n } else { ls.len() };
    let mut i: usize = 0;
    while i < k
        invariant
            lv == ls.deep_view(),
            lv == std_lines(s@),
            k == (if lv.len() > n { n as int } else { lv.len() as int }),
            k <= ls@.len(),
            i <= k,
            lines_view(out@) =~= start + Seq::new(i as nat, |j: int| seq![("   "@ + lv[j], st)]),
        decreases k - i,
    {
        assert(lv[i as int] == ls@[i as int]@);
        let mut t = string_of("   ");
        push_str(&mut t, ls[i].as_str());
        let ghost before = lines_view(out@);
        out.push(span_line(t, st));
        assert(lines_view(out@) =~= before.push(seq![("   "@ + lv[i as int], st)]));
        i += 1;
    }
}

/// The lines of a tool call block (see `tool_lines`).
fn tool_block(
    name: &str,
    is_error: bool,
    has_result: bool,
    state: BlockExpanded,
    selected: bool,
    tx: &ToolTexts,
    th: &Theme,
) -> (r: Vec<Vec<StyledSpan>>)
    ensures
        lines_view(r@) == tool_lines(name@, is_error, has_result, state, selected, tx.deep_view(), *th),
{
    let d = Style { fg: Some(th.text_dim), bg: None, underline_color: None, add_modifier: 0, sub_modifier: 0 };
    let st = if selected { Style { bg: Some(th.highlight_bg), ..d } } else { d };
    let icon = if is_error {
        "✗"
    } else if has_result {
        "✓"
    } else {
        "▶"
    };
    let mut head = string_of(" ");
    push_str(&mut head, icon);
    push_str(&mut head, " ");
    push_str(&mut head, name);
    push_str(&mut head, " ");
    let mut out: Vec<Vec<StyledSpan>> = Vec::new();
    match state {
        BlockExpanded::Collapsed => {
            push_str(&mut head, tx.summary.as_str());
            push_str(&mut head, " ");
            if is_error {
                push_str(&mut head, "(出错)");
            }
            out.push(span_line(head, st));
            assert(lines_view(out@) =~= tool_lines(name@, is_error, has_result, state, selected, tx.deep_view(), *th));
        },
        BlockExpanded::Expanded => {
            if is_error {
                push_str(&mut head, "(出错)");
            }
            out.push(span_line(head, st));
            let ghost h = lines_view(out@);
            let ghost pv = match tx.pretty.deep_view() {
                Some(p) => indented(p, 5, st),
                None => Seq::<MdLine>::empty(),
            };
            let ghost cv = match tx.content.deep_view() {
                Some(c) => seq![seq![("   ---"@, dim(*th))]] + indented(c, 3, st),
                None => Seq::<MdLine>::empty(),
            };
            match &tx.pretty {
                Some(p) => push_indented(&mut out, p.as_str(), 5, st),
                None => {},
            }
            assert(lines_view(out@) =~= h + pv);
            let ghost a = lines_view(out@);
            match &tx.content {
                Some(c) => {
                    out.push(span_line(string_of("   ---"), d));
                    let ghost r1 = lines_view(out@);
                    push_indented(&mut out, c.as_str(), 3, st);
                    assert(lines_view(out@) =~= a + cv);
                },
                None => {
                    assert(lines_view(out@) =~= a + cv);
                },
            }
            assert(lines_view(out@) =~= h + pv + cv);
            assert(lines_view(out@) =~= tool_lines(name@, is_error, has_result, state, selected, tx.deep_view(), *th));
        },
    }
    out
}

/// The fold state of block `k` of the message with id `id`: folded unless
/// recorded otherwise.
pub open spec fn state_of(states: Map<Seq<char>, BlockExpanded>, id: Seq<char>, k: int) -> BlockExpanded {
    let key = block_key_spec(id, k as usize);
    if states.contains_key(key) {
        states[key]
    } else {
        BlockExpanded::Collapsed
    }
}

/// The lines of one content block.
pub open spec fn block_lines(b: BlockView, state: BlockExpanded, selected: bool, tx: ToolTextsV, th: Theme) -> Seq<MdLine> {
    match b {
        BlockView::Thinking(t) => thinking_lines(t, state, selected, th),
        BlockView::Text(x) => md_lines(x, " "@, th),
        BlockView::ToolCall { name, result, is_error, .. } => tool_lines(
            name,
            is_error,
            result is Some,
            state,
            selected,
            tx,
            th,
        ),
        BlockView::Image { .. } => Seq::empty(),
    }
}

/// The lines of the first `n` content blocks of a message, block `sel`
/// (if any) under the cursor.
pub open spec fn blocks_lines(
    m: MessageView,
    states: Map<Seq<char>, BlockExpanded>,
    sel: Option<usize>,
    txs: Seq<ToolTextsV>,
    th: Theme,
    n: int,
) -> Seq<MdLine>
    decreases n,
{
    if n <= 0 {
        Seq::empty()
    } else {
        blocks_lines(m, states, sel, txs, th, n - 1) + block_lines(
            m.content[n - 1],
            state_of(states, m.id, n - 1),
            sel == Some((n - 1) as usize),
            txs[n - 1],
            th,
        )
    }
}

/// A message's title line.
pub open spec fn title_line(label: Seq<char>, th: Theme) -> MdLine {
    seq![(label, with_modifier(with_fg(plain_style(), th.accent), MOD_BOLD))]
}

/// The rule under a message's title.
pub open spec fn title_rule(th: Theme) -> MdLine {
    seq![(" ─"@, dim(th))]
}

/// The lines of a message: a user message and an agent reply have a title
/// and a rule; the reply shows its content blocks (or, before any arrives,
/// a preview of its reasoning and its text); a tool message is one line with
/// its status icon and tool's name; system and error messages show their
/// text (the error after a warning sign). Texts go through markdown; all
/// but tool messages end with an empty line.
pub open spec fn message_lines_spec(
    m: MessageView,
    states: Map<Seq<char>, BlockExpanded>,
    sel: Option<usize>,
    txs: Seq<ToolTextsV>,
    th: Theme,
) -> Seq<MdLine> {
    match m.role {
        ChatRole::User => seq![title_line(" 你 "@, th), title_rule(th)] + md_lines(m.text, " "@, th) + seq![
            Seq::empty(),
        ],
        ChatRole::Assistant => if m.content.len() == 0 {
            let preview = match m.thinking {
                Some(t) => if t.len() > 0 {
                    seq![
                        seq![
                            (" [思考] "@ + first_lines(strip_ansi_spec(t), 3), with_modifier(dim(th), MOD_DIM)),
                        ],
                    ]
                } else {
                    Seq::empty()
                },
                None => Seq::empty(),
            };
            seq![title_line(" pi "@, th), title_rule(th)] + preview + md_lines(m.text, " "@, th) + seq![
                Seq::empty(),
            ]
        } else {
            seq![title_line(" pi "@, th), title_rule(th)] + blocks_lines(m, states, sel, txs, th, m.content.len() as int)
                + seq![Seq::empty()]
        },
        ChatRole::Tool => match m.tool_call {
            Some(tc) => seq![seq![(" "@ + tool_icon(tc.status) + " "@ + tc.tool_name + " "@ + " "@, dim(th))]],
            None => Seq::empty(),
        },
        ChatRole::System => md_lines(m.text, " "@, th) + seq![Seq::empty()],
        ChatRole::Error => md_lines(m.text, " ⚠ "@, th) + seq![Seq::empty()],
    }
}

/// The lines of a message, given its blocks' fold states, the block under
/// the cursor and what its tool call blocks show of their JSON (see
/// `message_lines_spec`).
pub fn message_lines_with(
    m: &ChatMessage,
    states: &BlockStates,
    sel: Option<usize>,
    txs: &Vec<ToolTexts>,
    th: &Theme,
) -> (r: Vec<Vec<StyledSpan>>)
    requires
        txs@.len() == m.content@.len(),
    ensures
        lines_view(r@) == message_lines_spec(m.deep_view(), states@, sel, txs.deep_view(), *th),
{
    let ghost mv = m.deep_view();
    let accent = add_modifier(Style { fg: Some(th.accent), bg: None, underline_color: None, add_modifier: 0, sub_modifier: 0 }, MOD_BOLD);
    let d = Style { fg: Some(th.text_dim), bg: None, underline_color: None, add_modifier: 0, sub_modifier: 0 };
    let mut out: Vec<Vec<StyledSpan>> = Vec::new();
    let empty: Vec<StyledSpan> = Vec::new();
    assert(spans_view(empty@) =~= Seq::<(Seq<char>, Style)>::empty());
    match m.role {
        ChatRole::User => {
            out.push(span_line(string_of(" 你 "), accent));
            out.push(span_line(string_of(" ─"), d));
            assert(lines_view(out@) =~= seq![title_line(" 你 "@, *th), title_rule(*th)]);
            let md = md_prefixed(m.text.as_str(), " ", th);
            append_lines(&mut out, &md);
            out.push(empty);
            assert(lines_view(out@) =~= message_lines_spec(mv, states@, sel, txs.deep_view(), *th));
        },
        ChatRole::Assistant => {
            out.push(span_line(string_of(" pi "), accent));
            out.push(span_line(string_of(" ─"), d));
            assert(lines_view(out@) =~= seq![title_line(" pi "@, *th), title_rule(*th)]);
            if m.content.len() == 0 {
                let ghost h = lines_view(out@);
                let ghost preview = match mv.thinking {
                    Some(t) => if t.len() > 0 {
                        seq![
                            seq![
                                (" [思考] "@ + first_lines(strip_ansi_spec(t), 3), with_modifier(dim(*th), MOD_DIM)),
                            ],
                        ]
                    } else {
                        Seq::<MdLine>::empty()
                    },
                    None => Seq::<MdLine>::empty(),
                };
                match &m.thinking {
                    Some(t) => {
                        if !crate::strs::text_is_empty(t.as_str()) {
                            let mut line = string_of(" [思考] ");
                            let clean = strip_ansi(t.as_str());
                            let first = first_lines_of(clean.as_str(), 3);
                            push_str(&mut line, first.as_str());
                            out.push(span_line(line, add_modifier(d, MOD_DIM)));
                        }
                    },
                    None => {},
                }
                assert(lines_view(out@) =~= h + preview);
                let md = md_prefixed(m.text.as_str(), " ", th);
                append_lines(&mut out, &md);
                out.push(empty);
                assert(lines_view(out@) =~= message_lines_spec(mv, states@, sel, txs.deep_view(), *th));
            } else {
                let ghost h = lines_view(out@);
                let mut k: usize = 0;
                while k < m.content.len()
                    invariant
                        mv == m.deep_view(),
                        mv.role == ChatRole::Assistant,
                        mv.content.len() > 0,
                        txs@.len() == m.content@.len(),
                        k <= m.content@.len(),
                        lines_view(out@) =~= h + blocks_lines(mv, states@, sel, txs.deep_view(), *th, k as int),
                    decreases m.content@.len() - k,
                {
                    assert(mv.content[k as int] == m.content@[k as int].deep_view());
                    assert(txs.deep_view()[k as int] == txs@[k as int].deep_view());
                    let key = block_key(m.id.as_str(), k);
                    let state = match states.get(key.as_str()) {
                        Some(s) => s,
                        None => BlockExpanded::Collapsed,
                    };
                    let selected = match sel {
                        Some(j) => j == k,
                        None => false,
                    };
                    let lines = match &m.content[k] {
                        ContentBlock::Thinking { thinking } => thinking_block(thinking.as_str(), state, selected, th),
                        ContentBlock::Text { text } => md_prefixed(text.as_str(), " ", th),
                        ContentBlock::ToolCall { name, result, is_error, .. } => tool_block(
                            name.as_str(),
                            *is_error,
                            result.is_some(),
                            state,
                            selected,
                            &txs[k],
                            th,
                        ),
                        ContentBlock::Image { .. } => {
                            let e: Vec<Vec<StyledSpan>> = Vec::new();
                            assert(lines_view(e@) =~= Seq::<MdLine>::empty());
                            e
                        },
                    };
                    append_lines(&mut out, &lines);
                    k += 1;
                }
                out.push(empty);
                assert(lines_view(out@) =~= message_lines_spec(mv, states@, sel, txs.deep_view(), *th));
            }
        },
        ChatRole::Tool => {
            match &m.tool_call {
                Some(tc) => {
                    let mut line = string_of(" ");
                    let icon = match tc.status {
                        ToolStatus::Running => "▶",
                        ToolStatus::Done => "✓",
                        ToolStatus::Error => "✗",
                    };
                    push_str(&mut line, icon);
                    push_str(&mut line, " ");
                    push_str(&mut line, tc.tool_name.as_str());
                    push_str(&mut line, " ");
                    push_str(&mut line, " ");
                    proof {
                        reveal_strlit("▶");
                        reveal_strlit("✓");
                        reveal_strlit("✗");
                        assert(icon@ == tool_icon(tc.status));
                    }
                    assert(line@ =~= " "@ + tool_icon(tc.status) + " "@ + tc.tool_name@ + " "@ + " "@);
                    out.push(span_line(line, d));
                },
                None => {},
            }
            assert(lines_view(out@) =~= message_lines_spec(mv, states@, sel, txs.deep_view(), *th));
        },
        ChatRole::System => {
            let md = md_prefixed(m.text.as_str(), " ", th);
            append_lines(&mut out, &md);
            out.push(empty);
            assert(lines_view(out@) =~= message_lines_spec(mv, states@, sel, txs.deep_view(), *th));
        },
        ChatRole::Error => {
            let md = md_prefixed(m.text.as_str(), " ⚠ ", th);
            append_lines(&mut out, &md);
            out.push(empty);
            assert(lines_view(out@) =~= message_lines_spec(mv, states@, sel, txs.deep_view(), *th));
        },
    }
    out
}

/// The block of message `msg_index` under the message list's cursor, if
/// any: the list must have the focus on its messages, and the interactive
/// block under the cursor must belong to that message.
pub open spec fn selected_block(mv: MainView, msg_index: usize) -> Option<usize> {
    let refs = block_refs_spec(mv.messages.deep_view());
    if mv.has_focus && mv.subsection == MainViewSubsection::Messages && mv.block_cursor < refs.len()
        && refs[mv.block_cursor as int].msg_index == msg_index {
        Some(refs[mv.block_cursor as int].block_index)
    } else {
        None
    }
}

/// What a block shows of its JSON: a tool call block its texts (see
/// `tool_texts_spec`), any other block nothing.
pub open spec fn block_texts(b: BlockView) -> ToolTextsV {
    match b {
        BlockView::ToolCall { arguments, result, .. } => tool_texts_spec(arguments, result),
        _ => ToolTextsV { summary: Seq::empty(), pretty: None, content: None },
    }
}

/// What each block of a message shows of its JSON.
pub open spec fn message_texts(bs: Seq<BlockView>) -> Seq<ToolTextsV> {
    Seq::new(bs.len(), |k: int| block_texts(bs[k]))
}

/// The lines the message list shows for message `msg_index` (see
/// `message_lines_spec`): the fold states and the block under the cursor
/// come from the list; what tool call blocks show of their JSON is read
/// from their arguments and results.
pub fn render_message(message: &ChatMessage, theme: &Theme, main_view: &MainView, msg_index: usize) -> (r: Vec<Vec<StyledSpan>>)
    ensures
        lines_view(r@) == message_lines_spec(
            message.deep_view(),
            main_view.block_states@,
            selected_block(*main_view, msg_index),
            message_texts(message.deep_view().content),
            *theme,
        ),
{
    let msgs = main_view.messages.as_slice();
    let blocks = build_block_refs(msgs);
    assert(msgs.deep_view() =~= main_view.messages.deep_view());
    let ghost refs = blocks.deep_view();
    let sel = if main_view.has_focus && main_view.subsection == MainViewSubsection::Messages
        && main_view.block_cursor < blocks.len() && blocks[main_view.block_cursor].msg_index == msg_index {
        assert(refs[main_view.block_cursor as int] == blocks@[main_view.block_cursor as int].deep_view());
        Some(blocks[main_view.block_cursor].block_index)
    } else {
        proof {
            if main_view.block_cursor < blocks.len() {
                assert(refs[main_view.block_cursor as int] == blocks@[main_view.block_cursor as int].deep_view());
            }
        }
        None
    };
    assert(sel == selected_block(*main_view, msg_index));
    let ghost mv = message.deep_view();
    let mut txs: Vec<ToolTexts> = Vec::new();
    let mut k: usize = 0;
    while k < message.content.len()
        invariant
            mv == message.deep_view(),
            k <= message.content@.len(),
            txs@.len() == k,
            txs.deep_view() =~= message_texts(mv.content).take(k as int),
        decreases message.content@.len() - k,
    {
        assert(mv.content[k as int] == message.content@[k as int].deep_view());
        let tx = match &message.content[k] {
            ContentBlock::ToolCall { arguments, result, .. } => tool_texts(arguments, result),
            _ => ToolTexts { summary: String::new(), pretty: None, content: None },
        };
        let ghost before = txs.deep_view();
        let ghost tv = tx.deep_view();
        txs.push(tx);
        assert(txs.deep_view() =~= before.push(tv));
        k += 1;
    }
    assert(message_texts(mv.content).take(mv.content.len() as int) =~= message_texts(mv.content));
    message_lines_with(message, &main_view.block_states, sel, &txs, theme)
}

} // verus!
