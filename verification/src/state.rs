//! Plain state records of the workbench and the text helpers of the provider editor.

use vstd::prelude::*;
use crate::provider::{ModelInfo, ModelView, ProviderView};
use crate::seqs::{first_index, lemma_first_index_is, lemma_first_index_none};
use crate::strs::{
    push_str, push_char, push_decimal, dec_spec, chars_of, string_from_chars, trim_chars,
    trim_spec, split_chars, split_spec, parse_unsigned, parse_unsigned_spec, string_of,
    vec_chars_eq, free_of, is_white_space, lemma_split_free, lemma_split_join,
    lemma_trim_unchanged, lemma_dec_props, lemma_parse_dec,
};

verus! {

/// A session as the workbench knows it.
#[derive(Debug, Clone, Default)]
pub struct SessionInfo {
    /// The session UUID.
    pub id: String,
    /// The session file path.
    pub file_path: Option<String>,
    /// The display name.
    pub name: Option<String>,
}

/// What the workspace tree is prompting a name for.
#[derive(Debug, Clone, Copy, PartialEq, Eq)]
pub enum RenameState {
    CreateSession { ws_idx: usize },
    RenameSession { ws_idx: usize, si: usize },
    RenameWorkspace { ws_idx: usize },
    CreateWorkspace,
}

/// A workspace of the sidebar tree.
#[derive(Debug, Clone)]
pub struct WorkspaceNode {
    /// The working directory of the workspace (the `cwd` of its sessions).
    pub cwd: String,
    /// The name shown in the sidebar.
    pub display_name: String,
    pub sessions: Vec<SessionNode>,
    pub expanded: bool,
}

/// A session leaf of the workspace tree.
#[derive(Debug, Clone)]
pub struct SessionNode {
    pub id: String,
    pub name: String,
    pub file_path: Option<String>,
    pub message_count: usize,
    pub is_online: bool,
}

/// The run state of an agent.
#[derive(Debug, Clone, Copy, PartialEq, Eq)]
pub enum AgentStatus {
    Starting,
    Idle,
    Running,
    Error,
    Closed,
}

/// A subagent definition (from the front matter of an agent `.md` file).
#[derive(Debug, Clone)]
pub struct SubAgentInfo {
    pub name: String,
    pub description: String,
    pub model: String,
}

/// A skill definition (from the front matter of a `SKILL.md` file).
#[derive(Debug, Clone)]
pub struct SkillInfo {
    pub name: String,
    pub description: String,
}

/// An MCP server definition.
#[derive(Debug, Clone)]
pub struct McpInfo {
    pub name: String,
    pub command: String,
    /// The number of tools of a cached server (used when there is no command).
    pub tool_count: usize,
}

/// The focused panel.
#[derive(Debug, Clone, Copy, PartialEq, Eq, Structural, Default)]
pub enum FocusPanel {
    Sidebar,
    #[default]
    MainView,
    AgentPanel,
}

/// The sections of the sidebar.
#[derive(Debug, Clone, Copy, PartialEq, Eq, Structural, Default)]
pub enum SidebarSubsection {
    ActiveSession,
    #[default]
    Workspace,
    Provider,
    Model,
}

/// The sections of the main view.
#[derive(Debug, Clone, Copy, PartialEq, Eq, Structural, Default)]
pub enum MainViewSubsection {
    Messages,
    #[default]
    Input,
}

/// The sections of the agent panel.
#[derive(Debug, Clone, Copy, PartialEq, Eq, Structural, Default)]
pub enum AgentPanelSubsection {
    #[default]
    Agents,
    Skills,
    Mcps,
    Tasks,
}

/// How the message list scrolls.
#[derive(Debug, Clone, Copy, PartialEq, Eq, Default)]
pub enum ScrollMode {
    /// Follow the tail: new messages scroll to the bottom.
    #[default]
    TailFollow,
    /// Stay on the message under the cursor.
    Pinned,
}

/// A deletion waiting for confirmation.
#[derive(Debug, Clone)]
pub struct ConfirmDelete {
    pub target: ConfirmDeleteTarget,
}

/// What a pending deletion removes.
#[derive(Debug, Clone)]
pub enum ConfirmDeleteTarget {
    /// A workspace with all its sessions.
    Workspace { index: usize, name: String },
    /// One session of a workspace.
    Session { workspace_index: usize, session_index: usize, name: String },
}

/// The panel a mouse selection lies in.
#[derive(Debug, Clone, Copy, PartialEq, Eq, Default)]
pub enum SelectionPanel {
    /// No panel.
    #[default]
    NoPanel,
    Sidebar,
    Content,
    AgentPanel,
}

/// A mouse drag selection.
#[derive(Debug, Clone, Default)]
pub struct SelectionState {
    pub panel: SelectionPanel,
    /// Between mouse down and mouse up.
    pub active: bool,
    /// Terminal cell (col, row) where the button went down.
    pub anchor: Option<(u16, u16)>,
    /// Terminal cell (col, row) the drag reached.
    pub focus: Option<(u16, u16)>,
    /// The text selected at the last render.
    pub selected_text: String,
}

/// The provider form being edited.
#[derive(Debug, Clone)]
pub struct ProviderEditor {
    pub is_new: bool,
    pub index: usize,
    pub draft: crate::provider::ProviderInfo,
    pub field_focus: usize,
    pub models_text: String,
    pub models_fetching: bool,
    pub model_mgr: Option<ModelManager>,
}

/// The model list manager inside the provider form.
#[derive(Debug, Clone)]
pub struct ModelManager {
    pub cursor: usize,
    pub editor: Option<ModelFieldEditor>,
}

/// The editor of one model's fields.
#[derive(Debug, Clone)]
pub struct ModelFieldEditor {
    pub field_focus: usize,
    pub draft_id: String,
    pub draft_tier: String,
    pub draft_ctx: String,
    pub model_index: usize,
}

/// The mathematical value of a `ModelFieldEditor`.
pub ghost struct FieldEditorView {
    pub field_focus: usize,
    pub draft_id: Seq<char>,
    pub draft_tier: Seq<char>,
    pub draft_ctx: Seq<char>,
    pub model_index: usize,
}

impl View for ModelFieldEditor {
    type V = FieldEditorView;

    open spec fn view(&self) -> FieldEditorView {
        FieldEditorView {
            field_focus: self.field_focus,
            draft_id: self.draft_id@,
            draft_tier: self.draft_tier@,
            draft_ctx: self.draft_ctx@,
            model_index: self.model_index,
        }
    }
}

impl DeepView for ModelFieldEditor {
    type V = FieldEditorView;

    open spec fn deep_view(&self) -> FieldEditorView {
        self@
    }
}

/// The mathematical value of a `ModelManager`.
pub ghost struct ModelManagerView {
    pub cursor: usize,
    pub editor: Option<FieldEditorView>,
}

impl View for ModelManager {
    type V = ModelManagerView;

    open spec fn view(&self) -> ModelManagerView {
        ModelManagerView { cursor: self.cursor, editor: self.editor.deep_view() }
    }
}

impl DeepView for ModelManager {
    type V = ModelManagerView;

    open spec fn deep_view(&self) -> ModelManagerView {
        self@
    }
}

/// The mathematical value of a `ProviderEditor`.
pub ghost struct EditorView {
    pub is_new: bool,
    pub index: usize,
    pub draft: ProviderView,
    pub field_focus: usize,
    pub models_text: Seq<char>,
    pub models_fetching: bool,
    pub model_mgr: Option<ModelManagerView>,
}

impl View for ProviderEditor {
    type V = EditorView;

    open spec fn view(&self) -> EditorView {
        EditorView {
            is_new: self.is_new,
            index: self.index,
            draft: self.draft@,
            field_focus: self.field_focus,
            models_text: self.models_text@,
            models_fetching: self.models_fetching,
            model_mgr: self.model_mgr.deep_view(),
        }
    }
}

impl DeepView for ProviderEditor {
    type V = EditorView;

    open spec fn deep_view(&self) -> EditorView {
        self@
    }
}

/// One line of the models text: `id:tier:context_window`.
pub open spec fn model_line(m: ModelView) -> Seq<char> {
    m.id + seq![':'] + m.tier + seq![':'] + dec_spec(m.context_window as nat)
}

/// The models text: one `id:tier:context_window` line per model, joined by newlines.
pub open spec fn models_text_spec(ms: Seq<ModelView>) -> Seq<char>
    decreases ms.len(),
{
    if ms.len() == 0 {
        Seq::empty()
    } else if ms.len() == 1 {
        model_line(ms[0])
    } else {
        models_text_spec(ms.drop_last()) + seq!['\n'] + model_line(ms.last())
    }
}

/// Renders a model list as editable text, one `id:tier:context_window` line per model.
pub fn rebuild_models_text(models: &[ModelInfo]) -> (r: String)
    ensures
        r@ == models_text_spec(models.deep_view()),
{
    let ghost dv = models.deep_view();
    let mut s = String::new();
    for i in 0..models.len()
        invariant
            dv == models.deep_view(),
            dv.len() == models@.len(),
            s@ == models_text_spec(dv.take(i as int)),
    {
        let m = &models[i];
        assert(dv[i as int] == m@);
        let ghost before = s@;
        if i > 0 {
            push_char(&mut s, '\n');
        }
        push_str(&mut s, m.id.as_str());
        push_char(&mut s, ':');
        push_str(&mut s, m.tier.as_str());
        push_char(&mut s, ':');
        push_decimal(&mut s, m.context_window as u64);
        proof {
            assert(dv.take(i + 1).drop_last() =~= dv.take(i as int));
            if i == 0 {
                assert(s@ =~= models_text_spec(dv.take(i + 1)));
            } else {
                assert(s@ =~= models_text_spec(dv.take(i + 1)));
            }
        }
    }
    assert(dv.take(models@.len() as int) =~= dv);
    s
}

/// The visual focus order of the provider form fields:
/// endpoint type, id, name, base URL, API key, models, bridge.
pub open spec fn field_order() -> Seq<usize> {
    seq![6usize, 0, 1, 2, 3, 5, 4]
}

/// The position of a field in the focus order.
pub open spec fn field_pos(f: usize) -> Option<int> {
    if f == 6 {
        Some(0)
    } else if f == 0 {
        Some(1)
    } else if f == 1 {
        Some(2)
    } else if f == 2 {
        Some(3)
    } else if f == 3 {
        Some(4)
    } else if f == 5 {
        Some(5)
    } else if f == 4 {
        Some(6)
    } else {
        None
    }
}

/// The field before `f` in the focus order, wrapping around; other values stay.
pub open spec fn prev_field_spec(f: usize) -> usize {
    match field_pos(f) {
        Some(p) => field_order()[(p + 6) % 7],
        None => f,
    }
}

/// The field after `f` in the focus order, wrapping around; other values stay.
pub open spec fn next_field_spec(f: usize) -> usize {
    match field_pos(f) {
        Some(p) => field_order()[(p + 1) % 7],
        None => f,
    }
}

/// The form field focused before `current` (see `prev_field_spec`).
pub fn prev_field(current: usize) -> (r: usize)
    ensures
        r == prev_field_spec(current),
{
    let order: [usize; 7] = [6, 0, 1, 2, 3, 5, 4];
    let mut pos: usize = 0;
    while pos < 7
        invariant
            pos <= 7,
            order@ == field_order(),
            forall|j: int| 0 <= j < pos ==> order@[j] != current,
        decreases 7 - pos,
    {
        if order[pos] == current {
            assert(field_pos(current) == Some(pos as int));
            return order[(pos + 6) % 7];
        }
        pos = pos + 1;
    }
    assert(field_pos(current) is None) by {
        if field_pos(current) is Some {
            assert(order@[field_pos(current)->0] == current);
        }
    }
    current
}

/// The form field focused after `current` (see `next_field_spec`).
pub fn next_field(current: usize) -> (r: usize)
    ensures
        r == next_field_spec(current),
{
    let order: [usize; 7] = [6, 0, 1, 2, 3, 5, 4];
    let mut pos: usize = 0;
    while pos < 7
        invariant
            pos <= 7,
            order@ == field_order(),
            forall|j: int| 0 <= j < pos ==> order@[j] != current,
        decreases 7 - pos,
    {
        if order[pos] == current {
            assert(field_pos(current) == Some(pos as int));
            return order[(pos + 1) % 7];
        }
        pos = pos + 1;
    }
    assert(field_pos(current) is None) by {
        if field_pos(current) is Some {
            assert(order@[field_pos(current)->0] == current);
        }
    }
    current
}

/// Moving focus forward and then back (or back and then forward) returns to
/// the same field, for every field value.
pub proof fn lemma_prev_next_inverse(f: usize)
    ensures
        prev_field_spec(next_field_spec(f)) == f,
        next_field_spec(prev_field_spec(f)) == f,
{
}

/// Seven forward moves bring the focus back to where it started.
pub proof fn lemma_next_field_cycle(f: usize)
    ensures
        next_field_spec(next_field_spec(next_field_spec(next_field_spec(next_field_spec(
            next_field_spec(next_field_spec(f)),
        ))))) == f,
{
}


/// The tier written for a model line that gives none.
pub open spec fn default_tier_chars() -> Seq<char> {
    seq!['T', '2']
}

/// The predicate "has this id".
pub open spec fn id_is(id: Seq<char>) -> spec_fn(ModelView) -> bool {
    |m: ModelView| m.id == id
}

/// Whether an existing model with this id is enabled (`false` when none has it;
/// the first model with the id decides).
pub open spec fn existing_enabled(existing: Seq<ModelView>, id: Seq<char>) -> bool {
    match first_index(existing, id_is(id)) {
        Some(i) => existing[i].enabled,
        None => false,
    }
}

/// The context window written in the third part of a model line, if any and
/// if it parses as a `u32`; 128000 otherwise.
pub open spec fn entry_context(parts: Seq<Seq<char>>) -> u32 {
    if parts.len() > 2 {
        match parse_unsigned_spec(trim_spec(parts[2]), 0xffff_ffff) {
            Some(n) => n as u32,
            None => 128000,
        }
    } else {
        128000
    }
}

/// The model described by one line of the models text: `id[:tier[:context]]`,
/// each part trimmed; `None` when the id is empty.
pub open spec fn entry_model(e: Seq<char>, existing: Seq<ModelView>) -> Option<ModelView> {
    let parts = split_spec(trim_spec(e), ':');
    let id = trim_spec(parts[0]);
    if id.len() == 0 {
        None
    } else {
        let tier = if parts.len() > 1 {
            trim_spec(parts[1])
        } else {
            default_tier_chars()
        };
        Some(
            ModelView {
                id: id,
                name: Seq::empty(),
                context_window: entry_context(parts),
                reasoning: tier != seq!['T', '1'],
                tier: tier,
                enabled: existing_enabled(existing, id),
                thinking_level_map: None,
            },
        )
    }
}

/// The models described by a list of lines, in order, skipping lines without an id.
pub open spec fn entries_models(es: Seq<Seq<char>>, existing: Seq<ModelView>) -> Seq<ModelView>
    decreases es.len(),
{
    if es.len() == 0 {
        Seq::empty()
    } else {
        let rest = entries_models(es.drop_last(), existing);
        match entry_model(es.last(), existing) {
            Some(m) => rest.push(m),
            None => rest,
        }
    }
}

/// The model list after editing the models text: the models of its lines, or
/// the existing list unchanged when no line names a model.
pub open spec fn merge_models_spec(text: Seq<char>, existing: Seq<ModelView>) -> Seq<ModelView> {
    let parsed = entries_models(split_spec(text, '\n'), existing);
    if parsed.len() == 0 {
        existing
    } else {
        parsed
    }
}

proof fn lemma_char_vec_deep_view(v: Vec<char>)
    ensures
        v.deep_view() == v@,
{
    assert(v.deep_view() =~= v@);
}

fn existing_enabled_exec(existing: &[ModelInfo], id: &Vec<char>) -> (r: bool)
    ensures
        r == existing_enabled(existing.deep_view(), id@),
{
    let ghost dv = existing.deep_view();
    let ghost p = id_is(id@);
    let mut i: usize = 0;
    while i < existing.len()
        invariant
            i <= existing@.len(),
            dv == existing.deep_view(),
            dv.len() == existing@.len(),
            p == id_is(id@),
            forall|j: int| 0 <= j < i ==> !p(#[trigger] dv[j]),
        decreases existing.len() - i,
    {
        let mid = chars_of(existing[i].id.as_str());
        assert(dv[i as int] == existing@[i as int]@);
        if vec_chars_eq(&mid, id) {
            proof {
                lemma_first_index_is(dv, p, i as int);
            }
            return existing[i].enabled;
        }
        i = i + 1;
    }
    proof {
        lemma_first_index_none(dv, p);
    }
    false
}

/// Parses one line of the models text (see `entry_model`).
fn parse_model_entry(e: &Vec<char>, existing: &[ModelInfo]) -> (r: Option<ModelInfo>)
    ensures
        r.deep_view() == entry_model(e@, existing.deep_view()),
{
    let t = trim_chars(e);
    let parts = split_chars(&t, ':');
    proof {
        assert(parts.deep_view().len() == parts@.len());
        assert forall|k: int| 0 <= k < parts@.len() implies #[trigger] parts@[k]@ == parts.deep_view()[k] by {
            lemma_char_vec_deep_view(parts@[k]);
        }
    }
    let id = trim_chars(&parts[0]);
    if id.len() == 0 {
        return None;
    }
    let tier: Vec<char> = if parts.len() > 1 {
        trim_chars(&parts[1])
    } else {
        vec!['T', '2']
    };
    let ctx: u32 = if parts.len() > 2 {
        let c = trim_chars(&parts[2]);
        match parse_unsigned(&c, 0xffff_ffff) {
            Some(n) => n as u32,
            None => 128000,
        }
    } else {
        128000
    };
    let enabled = existing_enabled_exec(existing, &id);
    let t1: Vec<char> = vec!['T', '1'];
    let is_t1 = vec_chars_eq(&tier, &t1);
    let m = ModelInfo {
        id: string_from_chars(&id),
        name: String::new(),
        context_window: ctx,
        reasoning: !is_t1,
        tier: string_from_chars(&tier),
        enabled,
        thinking_level_map: None,
    };
    proof {
        assert(tier@ == (if parts@.len() > 1 {
            trim_spec(parts.deep_view()[1])
        } else {
            default_tier_chars()
        }));
        assert(ctx == entry_context(parts.deep_view()));
    }
    Some(m)
}

/// Rebuilds the model list from edited models text (see `merge_models_spec`):
/// each line `id[:tier[:context]]` gives a model, with tier "T2" and context
/// 128000 by default, reasoning unless the tier is "T1", and enabled as the
/// existing model with that id was.
pub fn merge_models_text(text: &str, existing: &[ModelInfo]) -> (r: Vec<ModelInfo>)
    ensures
        r.deep_view() == merge_models_spec(text@, existing.deep_view()),
{
    let v = chars_of(text);
    let lines = split_chars(&v, '\n');
    let ghost ls = lines.deep_view();
    let mut parsed: Vec<ModelInfo> = Vec::new();
    for i in 0..lines.len()
        invariant
            ls == lines.deep_view(),
            ls.len() == lines@.len(),
            parsed.deep_view() == entries_models(ls.take(i as int), existing.deep_view()),
    {
        proof {
            lemma_char_vec_deep_view(lines@[i as int]);
            assert(ls.take(i + 1).drop_last() =~= ls.take(i as int));
        }
        match parse_model_entry(&lines[i], existing) {
            Some(m) => {
                let ghost old_p = parsed;
                parsed.push(m);
                proof {
                    crate::seqs::lemma_deep_view_push(old_p, parsed, m);
                }
            },
            None => {},
        }
    }
    assert(ls.take(lines@.len() as int) =~= ls);
    if parsed.len() == 0 {
        proof {
            assert(parsed.deep_view().len() == 0);
        }
        let r = duplicate_existing(existing);
        r
    } else {
        parsed
    }
}

fn duplicate_existing(existing: &[ModelInfo]) -> (r: Vec<ModelInfo>)
    ensures
        r.deep_view() == existing.deep_view(),
{
    let mut out: Vec<ModelInfo> = Vec::new();
    for i in 0..existing.len()
        invariant
            out.deep_view() == existing.deep_view().take(i as int),
            existing.deep_view().len() == existing@.len(),
    {
        let x = existing[i].duplicate();
        let ghost old_out = out;
        out.push(x);
        proof {
            crate::seqs::lemma_deep_view_push(old_out, out, x);
            assert(existing.deep_view().take(i + 1) =~= existing.deep_view().take(i as int).push(
                existing.deep_view()[i as int],
            ));
        }
    }
    assert(out.deep_view() =~= existing.deep_view());
    out
}


/// The display width `unicode-width` gives a character (`None` for a control character).
pub uninterp spec fn unicode_char_width(c: char) -> Option<usize>;

/// The display width `unicode-width` gives a string.
pub uninterp spec fn unicode_str_width(s: Seq<char>) -> usize;

/// `UnicodeWidthChar::width` of `unicode-width`: the result is the named
/// `unicode_char_width(c)`; nothing more of it is claimed here.
#[verifier::external_body]
pub(crate) fn char_width(c: char) -> (r: Option<usize>)
    ensures
        r == unicode_char_width(c),
{
    unicode_width::UnicodeWidthChar::width(c)
}

/// `UnicodeWidthStr::width` of `unicode-width`: the result is the named
/// `unicode_str_width(s@)`; nothing more of it is claimed here (it is not in
/// general the sum of the character widths).
#[verifier::external_body]
fn str_width(s: &str) -> (r: usize)
    ensures
        r == unicode_str_width(s@),
{
    unicode_width::UnicodeWidthStr::width(s)
}

/// The width counted for a character while clipping: its width, 0 for a control character.
pub open spec fn counted_width(w: Option<usize>) -> nat {
    match w {
        Some(n) => n as nat,
        None => 0,
    }
}

/// How many leading characters, of the given widths, fit in `budget` columns,
/// taken one by one while the running total stays within the budget.
pub open spec fn clip_count(ws: Seq<Option<usize>>, budget: nat) -> nat
    decreases ws.len(),
{
    if ws.len() == 0 {
        0
    } else if counted_width(ws[0]) <= budget {
        1 + clip_count(ws.drop_first(), (budget - counted_width(ws[0])) as nat)
    } else {
        0
    }
}

/// `n` spaces.
pub open spec fn spaces(n: nat) -> Seq<char> {
    Seq::new(n, |i: int| ' ')
}

/// A value fitted to `width` columns, given its display width `dw` and the
/// widths `ws` of its characters: clipped to the characters that fit when it
/// is at least as wide, padded with spaces otherwise.
pub open spec fn pad_spec(v: Seq<char>, width: nat, dw: nat, ws: Seq<Option<usize>>) -> Seq<char> {
    if dw >= width {
        v.take(clip_count(ws, width) as int)
    } else {
        v + spaces((width - dw) as nat)
    }
}

proof fn lemma_clip_count_bound(ws: Seq<Option<usize>>, budget: nat)
    ensures
        clip_count(ws, budget) <= ws.len(),
    decreases ws.len(),
{
    if ws.len() > 0 && counted_width(ws[0]) <= budget {
        lemma_clip_count_bound(ws.drop_first(), (budget - counted_width(ws[0])) as nat);
    }
}

/// Fits `value` to `width` columns (see `pad_spec`), given its display width
/// `display_w` and the widths `widths` of its characters, in order.
pub fn pad_with_widths(value: &str, width: usize, display_w: usize, widths: &Vec<Option<usize>>) -> (r: String)
    requires
        widths@.len() == value@.len(),
    ensures
        r@ == pad_spec(value@, width as nat, display_w as nat, widths@),
{
    let cs = chars_of(value);
    if display_w >= width {
        let mut w: usize = 0;
        let mut i: usize = 0;
        let mut out = String::new();
        proof {
            lemma_clip_count_bound(widths@, width as nat);
            assert(widths@.skip(0) =~= widths@);
        }
        while i < cs.len()
            invariant_except_break
                i <= cs@.len() == widths@.len(),
                w <= width,
                out@ == value@.take(i as int),
                clip_count(widths@, width as nat) == i + clip_count(widths@.skip(i as int), (width - w) as nat),
                cs@ == value@,
            ensures
                out@ == value@.take(clip_count(widths@, width as nat) as int),
            decreases cs.len() - i,
        {
            let cw: usize = match widths[i] {
                Some(n) => n,
                None => 0,
            };
            proof {
                assert(widths@.skip(i as int)[0] == widths@[i as int]);
                assert(widths@.skip(i as int).drop_first() =~= widths@.skip(i + 1));
            }
            if cw <= width - w {
                w = w + cw;
                push_char(&mut out, cs[i]);
                assert(value@.take(i + 1) =~= value@.take(i as int).push(cs@[i as int]));
                i = i + 1;
            } else {
                break;
            }
        }
        proof {
            if i == cs@.len() {
                assert(widths@.skip(i as int).len() == 0);
            }
        }
        out
    } else {
        let mut out = string_of(value);
        let pad = width - display_w;
        let mut k: usize = 0;
        while k < pad
            invariant
                k <= pad == width - display_w,
                out@ == value@ + spaces(k as nat),
            decreases pad - k,
        {
            push_char(&mut out, ' ');
            assert(value@ + spaces((k + 1) as nat) =~= (value@ + spaces(k as nat)).push(' '));
            k = k + 1;
        }
        out
    }
}

/// The characters' widths, in order.
pub open spec fn char_widths(s: Seq<char>) -> Seq<Option<usize>> {
    Seq::new(s.len(), |i: int| unicode_char_width(s[i]))
}

/// Fits a value to `width` display columns: clipped to the leading characters
/// that fit when it is at least that wide, padded with spaces otherwise.
pub fn pad_value(value: &str, width: usize) -> (r: String)
    ensures
        r@ == pad_spec(value@, width as nat, unicode_str_width(value@) as nat, char_widths(value@)),
{
    let display_w = str_width(value);
    let cs = chars_of(value);
    let mut widths: Vec<Option<usize>> = Vec::new();
    for i in 0..cs.len()
        invariant
            cs@ == value@,
            widths@ == char_widths(value@).take(i as int),
    {
        let w = char_width(cs[i]);
        widths.push(w);
        assert(widths@ =~= char_widths(value@).take(i + 1));
    }
    assert(widths@ =~= char_widths(value@));
    pad_with_widths(value, width, display_w, &widths)
}

/// A model whose line in the models text reads back unchanged: a non-empty
/// id with no white space at either end, a tier that is its own trim, and
/// neither holding `:` or a newline.
pub open spec fn line_safe(m: ModelView) -> bool {
    &&& m.id.len() > 0
    &&& !is_white_space(m.id[0])
    &&& !is_white_space(m.id.last())
    &&& trim_spec(m.tier) == m.tier
    &&& free_of(m.id, ':') && free_of(m.id, '\n')
    &&& free_of(m.tier, ':') && free_of(m.tier, '\n')
}

/// What a model's line reads back as, given the list it is merged into.
pub open spec fn read_back(m: ModelView, existing: Seq<ModelView>) -> ModelView {
    ModelView {
        id: m.id,
        name: Seq::empty(),
        context_window: m.context_window,
        reasoning: m.tier != seq!['T', '1'],
        tier: m.tier,
        enabled: existing_enabled(existing, m.id),
        thinking_level_map: None,
    }
}

proof fn lemma_line_reads_back(m: ModelView, existing: Seq<ModelView>)
    requires
        line_safe(m),
    ensures
        entry_model(model_line(m), existing) == Some(read_back(m, existing)),
        free_of(model_line(m), '\n'),
{
    let d = dec_spec(m.context_window as nat);
    lemma_dec_props(m.context_window as nat);
    let head = m.id + seq![':'] + m.tier;
    let line = model_line(m);
    assert(line =~= head + seq![':'] + d);
    assert(line[0] == m.id[0]);
    assert(line.last() == d.last());
    lemma_trim_unchanged(line);
    assert(free_of(m.tier, ':'));
    lemma_split_join(head, d, ':');
    lemma_split_join(m.id, m.tier, ':');
    lemma_split_free(m.id, ':');
    let parts = split_spec(line, ':');
    assert(parts =~= seq![m.id, m.tier, d]);
    lemma_trim_unchanged(m.id);
    lemma_trim_unchanged(d);
    lemma_parse_dec(m.context_window as nat, 0xffff_ffff);
    assert(entry_context(parts) == m.context_window);
    assert forall|i: int| 0 <= i < line.len() implies line[i] != '\n' by {
        if i < m.id.len() {
            assert(line[i] == m.id[i]);
        } else if i == m.id.len() {
        } else if i < m.id.len() + 1 + m.tier.len() {
            assert(line[i] == m.tier[i - m.id.len() - 1]);
        } else if i == m.id.len() + 1 + m.tier.len() {
        } else {
            assert(line[i] == d[i - m.id.len() - 2 - m.tier.len()]);
        }
    }
}

/// The lines of the models text, one per model.
pub open spec fn model_lines(ms: Seq<ModelView>) -> Seq<Seq<char>> {
    Seq::new(ms.len(), |i: int| model_line(ms[i]))
}

proof fn lemma_split_models_text(ms: Seq<ModelView>)
    requires
        ms.len() > 0,
        forall|i: int| 0 <= i < ms.len() ==> line_safe(#[trigger] ms[i]),
    ensures
        split_spec(models_text_spec(ms), '\n') == model_lines(ms),
    decreases ms.len(),
{
    lemma_line_reads_back(ms.last(), ms);
    if ms.len() == 1 {
        lemma_split_free(model_line(ms[0]), '\n');
        assert(model_lines(ms) =~= seq![model_line(ms[0])]);
    } else {
        let p = ms.drop_last();
        assert forall|i: int| 0 <= i < p.len() implies line_safe(#[trigger] p[i]) by {
            assert(p[i] == ms[i]);
        }
        lemma_split_models_text(p);
        lemma_split_join(models_text_spec(p), model_line(ms.last()), '\n');
        assert(model_lines(ms) =~= model_lines(p).push(model_line(ms.last())));
    }
}

proof fn lemma_entries_read_back(ms: Seq<ModelView>, existing: Seq<ModelView>)
    requires
        forall|i: int| 0 <= i < ms.len() ==> line_safe(#[trigger] ms[i]),
    ensures
        entries_models(model_lines(ms), existing) == Seq::new(ms.len(), |i: int| read_back(ms[i], existing)),
    decreases ms.len(),
{
    if ms.len() > 0 {
        let p = ms.drop_last();
        assert forall|i: int| 0 <= i < p.len() implies line_safe(#[trigger] p[i]) by {
            assert(p[i] == ms[i]);
        }
        lemma_entries_read_back(p, existing);
        lemma_line_reads_back(ms.last(), existing);
        assert(model_lines(ms).drop_last() =~= model_lines(p));
        assert(Seq::new(ms.len(), |i: int| read_back(ms[i], existing)) =~= Seq::new(p.len(), |i: int| read_back(p[i], existing)).push(read_back(ms.last(), existing)));
    } else {
        assert(model_lines(ms) =~= Seq::<Seq<char>>::empty());
        assert(Seq::new(ms.len(), |i: int| read_back(ms[i], existing)) =~= Seq::<ModelView>::empty());
    }
}

/// Rendering a model list as text and reading the text back into the same
/// list keeps each model's id, tier, context window and enabled flag, and
/// marks a model as reasoning exactly when its tier is not `T1` (for models
/// whose lines read back unchanged and whose ids differ).
pub proof fn lemma_models_text_roundtrip(ms: Seq<ModelView>)
    requires
        forall|i: int| 0 <= i < ms.len() ==> line_safe(#[trigger] ms[i]),
        forall|i: int, j: int| 0 <= i < j < ms.len() ==> ms[i].id != ms[j].id,
    ensures
        merge_models_spec(models_text_spec(ms), ms).len() == ms.len(),
        forall|i: int| 0 <= i < ms.len() ==> {
            let r = #[trigger] merge_models_spec(models_text_spec(ms), ms)[i];
            &&& r.id == ms[i].id
            &&& r.tier == ms[i].tier
            &&& r.context_window == ms[i].context_window
            &&& r.enabled == ms[i].enabled
            &&& r.reasoning == (ms[i].tier != seq!['T', '1'])
        },
{
    if ms.len() == 0 {
        let e = Seq::<char>::empty();
        assert(models_text_spec(ms) == e);
        assert(crate::strs::split_scan(e, '\n') == (Seq::<Seq<char>>::empty(), e));
        assert(split_spec(e, '\n') =~= seq![e]);
        assert(trim_spec(e) == e);
        assert(crate::strs::split_scan(e, ':') == (Seq::<Seq<char>>::empty(), e));
        assert(split_spec(e, ':') =~= seq![e]);
        assert(entry_model(e, ms) is None);
        assert(seq![e].drop_last() =~= Seq::<Seq<char>>::empty());
        assert(seq![e].last() == e);
        assert(entries_models(Seq::<Seq<char>>::empty(), ms).len() == 0);
        assert(entries_models(seq![e], ms).len() == 0);
        return;
    }
    lemma_split_models_text(ms);
    lemma_entries_read_back(ms, ms);
    let merged = merge_models_spec(models_text_spec(ms), ms);
    assert(merged == Seq::new(ms.len(), |i: int| read_back(ms[i], ms)));
    assert forall|i: int| 0 <= i < ms.len() implies existing_enabled(ms, ms[i].id) == ms[i].enabled by {
        assert forall|j: int| 0 <= j < i implies !id_is(ms[i].id)(#[trigger] ms[j]) by {
            assert(ms[j].id != ms[i].id);
        }
        lemma_first_index_is(ms, id_is(ms[i].id), i);
    }
}

} // verus!
