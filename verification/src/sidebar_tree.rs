//! The upper parts of the sidebar: the sessions with a running agent, and
//! the tree of workspaces and their sessions with the cursor.

use vstd::prelude::*;
use crate::ansi::{Style, StyledSpan, MOD_BOLD, with_modifier, with_fg, with_bg, spans_view, add_modifier};
use crate::components::Theme;
use crate::markdown::{MdLine, lines_view, plain_style};
use crate::sidebar_footer::{on_line, fg_bg, on_line_exec, fg_style, plain, fg_bg_style};
use crate::state::{SessionNode, WorkspaceNode};
use crate::strs::{dec_spec, push_str, push_decimal, string_of, str_eq, chars_of};
use crate::tui_state::tree_rows;
use vstd::utf8::{encode_utf8, decode_utf8, is_char_boundary};

verus! {

/// `n` spaces.
pub open spec fn pad(n: nat) -> Seq<char> {
    Seq::new(n, |i: int| ' ')
}

/// A session's message count right-aligned in four columns after a space:
/// the count and `条`.
pub open spec fn count_text(n: usize) -> Seq<char> {
    let t = dec_spec(n as nat) + "条"@;
    " "@ + if t.len() < 4 { pad((4 - t.len()) as nat) + t } else { t }
}

/// The rows of a workspace tree's header: fold marker, folder, name and
/// session count, on the highlight under the cursor.
pub open spec fn header_row(w: WorkspaceNode, selected: bool, th: Theme) -> MdLine {
    let spans = seq![
        (if w.expanded { "▼ "@ } else { "▶ "@ }, with_fg(plain_style(), th.border_dim)),
        ("📁 "@, with_fg(plain_style(), th.text_dim)),
        (w.display_name@, with_fg(plain_style(), th.text)),
        (" ("@ + dec_spec(w.sessions@.len()) + ")"@, with_fg(plain_style(), th.border_dim)),
    ];
    if selected {
        on_line(spans, fg_bg(th.selection_fg, th.highlight_bg))
    } else {
        spans
    }
}

/// A session's row in the tree: branch, online dot, name (in the accent
/// colour for the active session) and message count; on the highlight
/// under the cursor.
pub open spec fn session_row(s: SessionNode, last: bool, selected: bool, active: Seq<char>, th: Theme) -> MdLine {
    let name_color = if s.id@ == active { th.accent } else { th.text };
    let spans = seq![
        (if last { "  └─ "@ } else { "  ├─ "@ }, with_fg(plain_style(), th.border_dim)),
        (if s.is_online { "●"@ } else { "○"@ }, with_fg(plain_style(), if s.is_online { th.success } else { th.text_dim })),
        (" "@, plain_style()),
        (s.name@, with_fg(plain_style(), name_color)),
        (count_text(s.message_count), with_fg(plain_style(), th.border_dim)),
    ];
    if selected {
        on_line(spans, fg_bg(th.selection_fg, th.highlight_bg))
    } else {
        on_line(spans, fg_bg(name_color, th.bg))
    }
}

/// The tree rows of workspace `w` whose header is row `first` (1-based):
/// its header, then its sessions when expanded.
pub open spec fn workspace_lines(w: WorkspaceNode, first: nat, focused: bool, cursor: usize, active: Seq<char>, th: Theme) -> Seq<MdLine> {
    let ss = w.sessions@;
    seq![header_row(w, focused && cursor == first, th)] + if w.expanded {
        Seq::new(ss.len(), |si: int| session_row(ss[si], si == ss.len() - 1, focused && cursor == first + 1 + si, active, th))
    } else {
        Seq::empty()
    }
}

/// The tree rows of the workspaces, the first header being row 1.
pub open spec fn tree_lines(ws: Seq<WorkspaceNode>, focused: bool, cursor: usize, active: Seq<char>, th: Theme) -> Seq<MdLine>
    decreases ws.len(),
{
    if ws.len() == 0 {
        Seq::empty()
    } else {
        tree_lines(ws.drop_last(), focused, cursor, active, th) + workspace_lines(
            ws.last(),
            tree_rows(ws.drop_last()) + 1,
            focused,
            cursor,
            active,
            th,
        )
    }
}

/// The number of sessions of the workspaces.
pub open spec fn session_total(ws: Seq<WorkspaceNode>) -> nat
    decreases ws.len(),
{
    if ws.len() == 0 {
        0
    } else {
        session_total(ws.drop_last()) + ws.last().sessions@.len()
    }
}

/// The first twelve bytes of a session id (the whole id when shorter).
pub open spec fn id_prefix(id: Seq<char>) -> Seq<char> {
    let b = encode_utf8(id);
    if b.len() > 12 {
        decode_utf8(b.subrange(0, 12))
    } else {
        id
    }
}

/// A session id can be cut after twelve bytes: it is no longer, or its
/// twelfth byte ends a character.
pub open spec fn id_cuts(id: Seq<char>) -> bool {
    let b = encode_utf8(id);
    b.len() > 12 ==> is_char_boundary(b, 12)
}

/// Whether a session has a running agent.
pub open spec fn online_pred() -> spec_fn(SessionNode) -> bool {
    |s: SessionNode| s.is_online
}

/// The sessions of the workspaces that have a running agent, in tree order.
pub open spec fn online_sessions(ws: Seq<WorkspaceNode>) -> Seq<SessionNode>
    decreases ws.len(),
{
    if ws.len() == 0 {
        Seq::empty()
    } else {
        online_sessions(ws.drop_last()) + ws.last().sessions@.filter(online_pred())
    }
}

/// The row of a session with a running agent: dot, name in bold, the start
/// of its id and its message count; on the highlight when selected.
pub open spec fn active_row(s: SessionNode, selected: bool, th: Theme) -> MdLine {
    let fg = if selected { th.selection_fg } else { th.success };
    let bg = if selected { th.highlight_bg } else { th.bg };
    on_line(
        seq![
            ("● "@, with_fg(plain_style(), th.success)),
            (s.name@, with_modifier(with_fg(plain_style(), fg), MOD_BOLD)),
            ("  "@ + id_prefix(s.id@), with_fg(plain_style(), th.border_dim)),
            (count_text(s.message_count), with_fg(plain_style(), th.text_dim)),
        ],
        with_bg(plain_style(), bg),
    )
}

/// The rows of the sessions with a running agent, the first being row 1 of
/// the active list; a single dim line when there is none.
pub open spec fn active_lines(ws: Seq<WorkspaceNode>, selecting: bool, cursor: usize, th: Theme) -> Seq<MdLine> {
    let on = online_sessions(ws);
    if on.len() == 0 {
        seq![seq![("○ 暂无活跃会话"@, with_fg(plain_style(), th.text_dim))]]
    } else {
        active_rows(on, selecting, cursor, th)
    }
}

/// The rows of the given sessions, the first being row 1.
pub open spec fn active_rows(on: Seq<SessionNode>, selecting: bool, cursor: usize, th: Theme) -> Seq<MdLine> {
    Seq::new(on.len(), |k: int| active_row(on[k], selecting && cursor == k + 1, th))
}

/// Every session with a running agent has an id that can be cut.
pub open spec fn online_ids_cut(ws: Seq<WorkspaceNode>) -> bool {
    forall|k: int| 0 <= k < online_sessions(ws).len() ==> #[trigger] id_cuts(online_sessions(ws)[k].id@)
}

/// A session's count right-aligned (see `count_text`).
fn count_string(n: usize) -> (r: String)
    ensures
        r@ == count_text(n),
{
    let mut t = String::new();
    push_decimal(&mut t, n as u64);
    push_str(&mut t, "条");
    let len = chars_of(t.as_str()).len();
    let mut r = string_of(" ");
    if len < 4 {
        let mut i: usize = 0;
        while i < 4 - len
            invariant
                len < 4,
                i <= 4 - len,
                r@ == " "@ + pad(i as nat),
            decreases 4 - len - i,
        {
            push_str(&mut r, " ");
            proof {
                reveal_strlit(" ");
            }
            assert(" "@ + pad((i + 1) as nat) =~= " "@ + pad(i as nat) + " "@);
            i += 1;
        }
    }
    push_str(&mut r, t.as_str());
    r
}

/// The first twelve bytes of a session id (see `id_prefix`).
fn id_short(id: &str) -> (r: String)
    requires
        id_cuts(id@),
    ensures
        r@ == id_prefix(id@),
{
    if id.as_bytes().len() > 12 {
        let (a, _) = id.split_at(12);
        proof {
            vstd::utf8::encode_utf8_decode_utf8(a@);
        }
        string_of(a)
    } else {
        string_of(id)
    }
}

/// The row of a session with a running agent (see `active_row`).
fn active_line(s: &SessionNode, selected: bool, th: &Theme) -> (r: Vec<StyledSpan>)
    requires
        id_cuts(s.id@),
    ensures
        spans_view(r@) == active_row(*s, selected, *th),
{
    let fg = if selected { th.selection_fg } else { th.success };
    let bg = if selected { th.highlight_bg } else { th.bg };
    let mut id = string_of("  ");
    let short = id_short(s.id.as_str());
    push_str(&mut id, short.as_str());
    let spans = vec![
        (string_of("● "), fg_style(th.success)),
        (string_of(s.name.as_str()), add_modifier(fg_style(fg), MOD_BOLD)),
        (id, fg_style(th.border_dim)),
        (count_string(s.message_count), fg_style(th.text_dim)),
    ];
    let ghost sv = spans_view(spans@);
    assert(sv =~= seq![sv[0], sv[1], sv[2], sv[3]]);
    on_line_exec(spans, with_bg_style(bg))
}

/// The style with background `b` alone.
fn with_bg_style(b: crate::ansi::Color) -> (r: Style)
    ensures
        r == with_bg(plain_style(), b),
{
    Style { fg: None, bg: Some(b), underline_color: None, add_modifier: 0, sub_modifier: 0 }
}

/// The rows of the sessions with a running agent (see `active_lines`);
/// `selecting` says whether the cursor is in that list.
pub fn active_sessions(workspaces: &Vec<WorkspaceNode>, selecting: bool, cursor: usize, th: &Theme) -> (r: Vec<Vec<StyledSpan>>)
    requires
        online_ids_cut(workspaces@),
    ensures
        lines_view(r@) == active_lines(workspaces@, selecting, cursor, *th),
{
    let ghost ws = workspaces@;
    let mut out: Vec<Vec<StyledSpan>> = Vec::new();
    let ghost mut on: Seq<SessionNode> = Seq::empty();
    let mut i: usize = 0;
    while i < workspaces.len()
        invariant
            ws == workspaces@,
            i <= ws.len(),
            online_ids_cut(ws),
            on == online_sessions(ws.take(i as int)),
            lines_view(out@) =~= active_rows(on, selecting, cursor, *th),
        decreases ws.len() - i,
    {
        let ghost before = on;
        let ss = &workspaces[i].sessions;
        proof {
            lemma_online_prefix(ws, i + 1);
            assert(ws.take(i + 1).drop_last() =~= ws.take(i as int));
            assert(ws.take(i + 1).last() == ws[i as int]);
            reveal(Seq::filter);
            assert(ss@.take(0) =~= Seq::<SessionNode>::empty());
            assert(before + ss@.take(0).filter(online_pred()) =~= before);
            assert(ss@ == ws[i as int].sessions@);
            assert(online_sessions(ws.take(i + 1)) == online_sessions(ws.take(i as int)) + ws[i as int].sessions@.filter(online_pred()));
        }
        let mut j: usize = 0;
        while j < ss.len()
            invariant
                ws == workspaces@,
                i < ws.len(),
                ss@ == ws[i as int].sessions@,
                j <= ss@.len(),
                online_ids_cut(ws),
                online_sessions(ws.take(i + 1)) == before + ss@.filter(online_pred()),
                on == before + ss@.take(j as int).filter(online_pred()),
                lines_view(out@) =~= active_rows(on, selecting, cursor, *th),
            decreases ss@.len() - j,
        {
            let s = &ss[j];
            assert(ss@.take(j + 1).drop_last() =~= ss@.take(j as int));
            assert(ss@.take(j + 1).last() == ss@[j as int]);
            proof {
                reveal(Seq::filter);
            }
            assert(ss@.take(j + 1).filter(online_pred()) == if s.is_online {
                ss@.take(j as int).filter(online_pred()).push(*s)
            } else {
                ss@.take(j as int).filter(online_pred())
            });
            if s.is_online {
                proof {
                    lemma_filter_prefix(ss@, online_pred(), j + 1);
                    lemma_online_prefix(ws, i + 1);
                    assert(on.push(*s) =~= before + ss@.take(j + 1).filter(online_pred()));
                    let f = ss@.filter(online_pred());
                    let t = ss@.take(j + 1).filter(online_pred());
                    assert(t.len() == on.len() - before.len() + 1);
                    assert(t[t.len() - 1] == *s);
                    assert(f[t.len() - 1] == *s);
                    let whole = online_sessions(ws.take(i + 1));
                    assert(whole == before + f);
                    assert(whole[on.len() as int] == *s);
                    assert(online_sessions(ws)[on.len() as int] == *s);
                }
                let sel = selecting && cursor >= 1 && cursor - 1 == out.len();
                let ghost b = lines_view(out@);
                out.push(active_line(s, sel, th));
                proof {
                    on = on.push(*s);
                }
                assert(lines_view(out@) =~= b.push(active_row(*s, sel, *th)));
            } else {
                assert(before + ss@.take(j + 1).filter(online_pred()) =~= on);
            }
            j += 1;
        }
        assert(ss@.take(ss@.len() as int) =~= ss@);
        i += 1;
    }
    assert(ws.take(ws.len() as int) =~= ws);
    if out.len() == 0 {
        let mut v: Vec<StyledSpan> = Vec::new();
        v.push((string_of("○ 暂无活跃会话"), fg_style(th.text_dim)));
        let mut r: Vec<Vec<StyledSpan>> = Vec::new();
        r.push(v);
        assert(spans_view(r@[0]@) =~= seq![("○ 暂无活跃会话"@, with_fg(plain_style(), th.text_dim))]);
        assert(lines_view(r@) =~= active_lines(ws, selecting, cursor, *th));
        r
    } else {
        out
    }
}

/// The sessions online in the leading workspaces begin those of all.
proof fn lemma_online_prefix(ws: Seq<WorkspaceNode>, k: int)
    requires
        0 <= k <= ws.len(),
    ensures
        online_sessions(ws.take(k)).len() <= online_sessions(ws).len(),
        online_sessions(ws.take(k)) =~= online_sessions(ws).subrange(0, online_sessions(ws.take(k)).len() as int),
    decreases ws.len(),
{
    if k < ws.len() {
        assert(ws.drop_last().take(k) =~= ws.take(k));
        lemma_online_prefix(ws.drop_last(), k);
    } else {
        assert(ws.take(k) =~= ws);
    }
}

/// The kept items of a leading part of `s` begin the kept items of `s`.
proof fn lemma_filter_prefix(s: Seq<SessionNode>, pred: spec_fn(SessionNode) -> bool, k: int)
    requires
        0 <= k <= s.len(),
    ensures
        s.take(k).filter(pred).len() <= s.filter(pred).len(),
        s.take(k).filter(pred) =~= s.filter(pred).subrange(0, s.take(k).filter(pred).len() as int),
    decreases s.len(),
{
    if k < s.len() {
        assert(s.drop_last().take(k) =~= s.take(k));
        lemma_filter_prefix(s.drop_last(), pred, k);
        reveal(Seq::filter);
        let a = s.drop_last().filter(pred);
        let t = s.take(k).filter(pred);
        if pred(s.last()) {
            assert(s.filter(pred) == a.push(s.last()));
            assert(a.push(s.last()).subrange(0, t.len() as int) =~= a.subrange(0, t.len() as int));
        } else {
            assert(s.filter(pred) == a);
        }
    } else {
        assert(s.take(k) =~= s);
    }
}

/// The header row of a workspace (see `header_row`).
fn header_line(w: &WorkspaceNode, selected: bool, th: &Theme) -> (r: Vec<StyledSpan>)
    ensures
        spans_view(r@) == header_row(*w, selected, *th),
{
    let mut c = string_of(" (");
    push_decimal(&mut c, w.sessions.len() as u64);
    push_str(&mut c, ")");
    let spans = vec![
        (string_of(if w.expanded { "▼ " } else { "▶ " }), fg_style(th.border_dim)),
        (string_of("📁 "), fg_style(th.text_dim)),
        (string_of(w.display_name.as_str()), fg_style(th.text)),
        (c, fg_style(th.border_dim)),
    ];
    let ghost sv = spans_view(spans@);
    assert(sv =~= seq![sv[0], sv[1], sv[2], sv[3]]);
    if selected {
        on_line_exec(spans, fg_bg_style(th.selection_fg, th.highlight_bg))
    } else {
        spans
    }
}

/// The row of a session (see `session_row`).
fn session_line(s: &SessionNode, last: bool, selected: bool, active: &str, th: &Theme) -> (r: Vec<StyledSpan>)
    ensures
        spans_view(r@) == session_row(*s, last, selected, active@, *th),
{
    let is_active = str_eq(s.id.as_str(), active);
    let name_color = if is_active { th.accent } else { th.text };
    let spans = vec![
        (string_of(if last { "  └─ " } else { "  ├─ " }), fg_style(th.border_dim)),
        (string_of(if s.is_online { "●" } else { "○" }), fg_style(if s.is_online { th.success } else { th.text_dim })),
        (string_of(" "), plain()),
        (string_of(s.name.as_str()), fg_style(name_color)),
        (count_string(s.message_count), fg_style(th.border_dim)),
    ];
    let ghost sv = spans_view(spans@);
    assert(sv =~= seq![sv[0], sv[1], sv[2], sv[3], sv[4]]);
    if selected {
        on_line_exec(spans, fg_bg_style(th.selection_fg, th.highlight_bg))
    } else {
        on_line_exec(spans, fg_bg_style(name_color, th.bg))
    }
}

/// The tree rows of the workspaces (see `tree_lines`), with the number of
/// workspaces and of sessions.
pub fn workspace_tree(
    workspaces: &Vec<WorkspaceNode>,
    focused: bool,
    cursor: usize,
    active: &str,
    th: &Theme,
) -> (r: (Vec<Vec<StyledSpan>>, usize, usize))
    requires
        1 + tree_rows(workspaces@) <= usize::MAX,
        session_total(workspaces@) <= usize::MAX,
    ensures
        lines_view(r.0@) == tree_lines(workspaces@, focused, cursor, active@, *th),
        r.1 == workspaces@.len(),
        r.2 == session_total(workspaces@),
{
    let ghost ws = workspaces@;
    let mut out: Vec<Vec<StyledSpan>> = Vec::new();
    let mut sess_count: usize = 0;
    let mut flat: usize = 0;
    let mut i: usize = 0;
    while i < workspaces.len()
        invariant
            ws == workspaces@,
            i <= ws.len(),
            1 + tree_rows(ws) <= usize::MAX,
            session_total(ws) <= usize::MAX,
            flat == tree_rows(ws.take(i as int)),
            sess_count == session_total(ws.take(i as int)),
            lines_view(out@) =~= tree_lines(ws.take(i as int), focused, cursor, active@, *th),
        decreases ws.len() - i,
    {
        assert(ws.take(i + 1).drop_last() =~= ws.take(i as int));
        proof {
            lemma_rows_prefix(ws, i + 1);
            lemma_sessions_prefix(ws, i + 1);
        }
        let w = &workspaces[i];
        sess_count = sess_count + w.sessions.len();
        let first = flat + 1;
        let ghost before = lines_view(out@);
        out.push(header_line(w, focused && cursor == first, th));
        flat = flat + 1;
        if w.expanded {
            let n = w.sessions.len();
            let mut si: usize = 0;
            while si < n
                invariant
                    n == w.sessions@.len(),
                    si <= n,
                    w.expanded,
                    flat == first + si,
                    first + n <= usize::MAX,
                    lines_view(out@) =~= before + workspace_lines(*w, first as nat, focused, cursor, active@, *th).take(1 + si),
                decreases n - si,
            {
                let ghost b = lines_view(out@);
                let sel = focused && cursor == flat + 1;
                out.push(session_line(&w.sessions[si], si == n - 1, sel, active, th));
                assert(lines_view(out@) =~= b.push(workspace_lines(*w, first as nat, focused, cursor, active@, *th)[1 + si]));
                assert(workspace_lines(*w, first as nat, focused, cursor, active@, *th).take(1 + si + 1) =~= workspace_lines(*w, first as nat, focused, cursor, active@, *th).take(1 + si).push(workspace_lines(*w, first as nat, focused, cursor, active@, *th)[1 + si]));
                flat = flat + 1;
                si += 1;
            }
            assert(workspace_lines(*w, first as nat, focused, cursor, active@, *th).take(1 + n) =~= workspace_lines(*w, first as nat, focused, cursor, active@, *th));
        } else {
            assert(lines_view(out@) =~= before + workspace_lines(*w, first as nat, focused, cursor, active@, *th));
        }
        i += 1;
    }
    assert(ws.take(ws.len() as int) =~= ws);
    (out, workspaces.len(), sess_count)
}

/// The rows of the leading workspaces are no more than all rows.
proof fn lemma_rows_prefix(ws: Seq<WorkspaceNode>, k: int)
    requires
        0 <= k <= ws.len(),
    ensures
        tree_rows(ws.take(k)) <= tree_rows(ws),
    decreases ws.len(),
{
    if k < ws.len() {
        assert(ws.drop_last().take(k) =~= ws.take(k));
        lemma_rows_prefix(ws.drop_last(), k);
    } else {
        assert(ws.take(k) =~= ws);
    }
}

/// The sessions of the leading workspaces are no more than all sessions.
proof fn lemma_sessions_prefix(ws: Seq<WorkspaceNode>, k: int)
    requires
        0 <= k <= ws.len(),
    ensures
        session_total(ws.take(k)) <= session_total(ws),
    decreases ws.len(),
{
    if k < ws.len() {
        assert(ws.drop_last().take(k) =~= ws.take(k));
        lemma_sessions_prefix(ws.drop_last(), k);
    } else {
        assert(ws.take(k) =~= ws);
    }
}

} // verus!
