//! The workbench state and its keyboard handling for the provider and model
//! sections of the sidebar.

use vstd::prelude::*;
use crate::provider::{
    ModelInfo, ModelView, ProviderInfo, ProviderView, ProviderConfig, ConfigView,
    enabled_with_model, is_enabled, duplicate_providers,
};
use crate::seqs::{first_index, lemma_first_index_is, lemma_first_index_none};
use crate::state::{
    ModelManager, ModelFieldEditor, rebuild_models_text, merge_models_text, next_field, prev_field,
    FieldEditorView, ModelManagerView, models_text_spec, merge_models_spec, next_field_spec,
    prev_field_spec, WorkspaceNode, FocusPanel, SidebarSubsection, MainViewSubsection, AgentPanelSubsection,
    ScrollMode, SelectionState, SelectionPanel, SubAgentInfo, SkillInfo, McpInfo, RenameState,
    ConfirmDelete, ProviderEditor, EditorView,
};
use crate::strs::{
    push_char, pop_char, trim, str_eq, chars_of, parse_unsigned, decimal_string, to_uppercase,
    contains, contains_spec, lowercase, to_lowercase, uppercase, string_of, trim_spec,
    parse_unsigned_spec, dec_spec,
};

verus! {

/// A key of the keyboard, as the key handlers see it.
#[derive(Debug, Clone, Copy, PartialEq, Eq, Structural)]
pub enum KeyCode {
    Backspace,
    Enter,
    Left,
    Right,
    Up,
    Down,
    Home,
    End,
    PageUp,
    PageDown,
    Tab,
    BackTab,
    Delete,
    Insert,
    F(u8),
    Char(char),
    Null,
    Esc,
    /// Any other key.
    Other,
}

/// The state of the terminal workbench.
#[derive(Debug, Clone)]
pub struct TuiState {
    pub active_session: String,
    pub current_time: String,
    /// The workspace tree.
    pub workspaces: Vec<WorkspaceNode>,
    pub focus_panel: FocusPanel,
    /// Cursor in the workspace section (0 = section title).
    pub sidebar_cursor: usize,
    /// Cursor in the active session section (0 = section title).
    pub active_session_cursor: usize,
    /// The last Enter on a session: its id and the time in milliseconds (double-press detection).
    pub last_enter_session: Option<(String, u64)>,
    pub sidebar_subsection: SidebarSubsection,
    pub main_view_subsection: MainViewSubsection,
    pub agent_panel_subsection: AgentPanelSubsection,
    pub agent_cursor: usize,
    pub message_cursor: usize,
    pub scroll_mode: ScrollMode,
    pub selection: SelectionState,
    pub subagents: Vec<SubAgentInfo>,
    pub router_running: bool,
    pub router_port: u16,
    pub providers: Vec<ProviderInfo>,
    pub current_model: String,
    /// Cursor in the provider section (0 = title, 1..=N = providers, N+1 = "add provider").
    pub provider_cursor: usize,
    /// The provider whose detail popup is open.
    pub provider_popup: Option<usize>,
    /// Cursor in the model section (0 = title, 1..=N = filtered models).
    pub model_cursor: usize,
    pub model_search: String,
    /// Set when a model was just chosen, so that the agent is told.
    pub model_just_switched: bool,
    /// The provider chosen with Space.
    pub active_provider_idx: Option<usize>,
    pub provider_editor: Option<ProviderEditor>,
    pub skills: Vec<SkillInfo>,
    pub skill_cursor: usize,
    pub mcps: Vec<McpInfo>,
    pub mcp_cursor: usize,
    /// When set, the provider configuration is never written out.
    pub persistence_disabled: bool,
    /// A prompt waiting to be sent to the agent (AI rename).
    pub pending_ai_prompt: Option<String>,
    pub workspace_rename: Option<RenameState>,
    pub rename_input: String,
    pub confirm_delete: Option<ConfirmDelete>,
    /// Names of sessions created by hand: (session id, name).
    pub session_names: Vec<(String, String)>,
    pub snapshot_pending: bool,
    /// Set when the provider configuration must be written out and shared
    /// with the router.
    pub config_save_pending: bool,
}

/// The part of the state that the provider and model keys act on.
pub ghost struct PanelView {
    pub providers: Seq<ProviderView>,
    pub current_model: Seq<char>,
    pub provider_cursor: usize,
    pub provider_popup: Option<usize>,
    pub model_cursor: usize,
    pub model_search: Seq<char>,
    pub model_just_switched: bool,
    pub active_provider_idx: Option<usize>,
    pub editor: Option<EditorView>,
    pub config_save_pending: bool,
}

impl TuiState {
    /// The provider and model part of the state.
    pub open spec fn panel(&self) -> PanelView {
        PanelView {
            providers: self.providers.deep_view(),
            current_model: self.current_model@,
            provider_cursor: self.provider_cursor,
            provider_popup: self.provider_popup,
            model_cursor: self.model_cursor,
            model_search: self.model_search@,
            model_just_switched: self.model_just_switched,
            active_provider_idx: self.active_provider_idx,
            editor: self.provider_editor.deep_view(),
            config_save_pending: self.config_save_pending,
        }
    }

    /// Every field outside the provider and model part is the same in both states.
    pub open spec fn others_unchanged(&self, other: &TuiState) -> bool {
        &&& self.active_session == other.active_session
        &&& self.current_time == other.current_time
        &&& self.workspaces == other.workspaces
        &&& self.focus_panel == other.focus_panel
        &&& self.sidebar_cursor == other.sidebar_cursor
        &&& self.active_session_cursor == other.active_session_cursor
        &&& self.last_enter_session == other.last_enter_session
        &&& self.sidebar_subsection == other.sidebar_subsection
        &&& self.main_view_subsection == other.main_view_subsection
        &&& self.agent_panel_subsection == other.agent_panel_subsection
        &&& self.agent_cursor == other.agent_cursor
        &&& self.message_cursor == other.message_cursor
        &&& self.scroll_mode == other.scroll_mode
        &&& self.selection == other.selection
        &&& self.subagents == other.subagents
        &&& self.router_running == other.router_running
        &&& self.router_port == other.router_port
        &&& self.skills == other.skills
        &&& self.skill_cursor == other.skill_cursor
        &&& self.mcps == other.mcps
        &&& self.mcp_cursor == other.mcp_cursor
        &&& self.persistence_disabled == other.persistence_disabled
        &&& self.pending_ai_prompt == other.pending_ai_prompt
        &&& self.workspace_rename == other.workspace_rename
        &&& self.rename_input == other.rename_input
        &&& self.confirm_delete == other.confirm_delete
        &&& self.session_names == other.session_names
        &&& self.snapshot_pending == other.snapshot_pending
    }
}

/// The number of selectable rows of a workspace: its header and, when
/// expanded, its sessions.
pub open spec fn workspace_rows(w: WorkspaceNode) -> nat {
    if w.expanded {
        1 + w.sessions@.len()
    } else {
        1
    }
}

/// The number of tree rows of the workspaces, in order.
pub open spec fn tree_rows(ws: Seq<WorkspaceNode>) -> nat
    decreases ws.len(),
{
    if ws.len() == 0 {
        0
    } else {
        tree_rows(ws.drop_last()) + workspace_rows(ws.last())
    }
}

/// The tree row `k` (0-based, after the section title) of the workspaces:
/// (is a workspace header, workspace index, session index).
pub open spec fn tree_row(ws: Seq<WorkspaceNode>, k: int) -> Option<(bool, int, Option<int>)>
    decreases ws.len(),
{
    if ws.len() == 0 || k < 0 {
        None
    } else {
        let before = tree_rows(ws.drop_last());
        if k < before {
            tree_row(ws.drop_last(), k)
        } else if k == before {
            Some((true, ws.len() - 1, None))
        } else if k < before + workspace_rows(ws.last()) {
            Some((false, ws.len() - 1, Some(k - before - 1)))
        } else {
            None
        }
    }
}

/// The item under cursor `c` of the workspace section: none on the title
/// (`c == 0`), else tree row `c - 1`.
pub open spec fn sidebar_item_spec(ws: Seq<WorkspaceNode>, c: int) -> Option<(bool, usize, Option<usize>)> {
    if c == 0 {
        None
    } else {
        match tree_row(ws, c - 1) {
            Some((h, wi, si)) => Some(
                (
                    h,
                    wi as usize,
                    match si {
                        Some(x) => Some(x as usize),
                        None => None,
                    },
                ),
            ),
            None => None,
        }
    }
}

proof fn lemma_tree_rows_take(ws: Seq<WorkspaceNode>, i: int)
    requires
        0 <= i < ws.len(),
    ensures
        tree_rows(ws.take(i + 1)) == tree_rows(ws.take(i)) + workspace_rows(ws[i]),
{
    assert(ws.take(i + 1).drop_last() =~= ws.take(i));
}

proof fn lemma_tree_rows_mono(ws: Seq<WorkspaceNode>, i: int, j: int)
    requires
        0 <= i <= j <= ws.len(),
    ensures
        tree_rows(ws.take(i)) <= tree_rows(ws.take(j)),
    decreases j - i,
{
    if i < j {
        lemma_tree_rows_mono(ws, i, j - 1);
        lemma_tree_rows_take(ws, j - 1);
    }
}

/// Adding a workspace adds its rows.
pub proof fn lemma_tree_rows_take_pub(ws: Seq<WorkspaceNode>, i: int)
    requires
        0 <= i < ws.len(),
    ensures
        tree_rows(ws.take(i + 1)) == tree_rows(ws.take(i)) + workspace_rows(ws[i]),
{
    lemma_tree_rows_take(ws, i);
}

/// A longer prefix has at least as many rows.
pub proof fn lemma_tree_rows_mono_pub(ws: Seq<WorkspaceNode>, i: int, j: int)
    requires
        0 <= i <= j <= ws.len(),
    ensures
        tree_rows(ws.take(i)) <= tree_rows(ws.take(j)),
{
    lemma_tree_rows_mono(ws, i, j);
}

/// The empty prefix has no rows.
pub proof fn lemma_tree_rows_nonneg_take(ws: Seq<WorkspaceNode>, i: int)
    requires
        i == 0,
    ensures
        tree_rows(ws.take(i)) == 0,
{
    assert(ws.take(i).len() == 0);
}

/// Rows of a prefix keep their place in the whole tree.
proof fn lemma_tree_row_prefix(ws: Seq<WorkspaceNode>, i: int, k: int)
    requires
        0 <= i <= ws.len(),
        0 <= k < tree_rows(ws.take(i)),
    ensures
        tree_row(ws, k) == tree_row(ws.take(i), k),
    decreases ws.len() - i,
{
    if i < ws.len() {
        lemma_tree_rows_take(ws, i);
        lemma_tree_row_prefix(ws, i + 1, k);
        assert(ws.take(i + 1).drop_last() =~= ws.take(i));
    } else {
        assert(ws.take(i) =~= ws);
    }
}

/// The tree has rows `0 .. tree_rows(ws)` and no others.
pub proof fn lemma_tree_row_some(ws: Seq<WorkspaceNode>, k: int)
    ensures
        tree_row(ws, k) is Some <==> 0 <= k < tree_rows(ws),
    decreases ws.len(),
{
    if ws.len() > 0 && k >= 0 {
        lemma_tree_row_some(ws.drop_last(), k);
    }
}

/// The cursor rows of the workspace section are the title and one row per
/// tree node: `sidebar_item_at(c)` names an item exactly when
/// `1 <= c < sidebar_visible_count()`.
pub proof fn lemma_sidebar_item_in_range(ws: Seq<WorkspaceNode>, c: int)
    requires
        c >= 0,
    ensures
        sidebar_item_spec(ws, c) is Some <==> 1 <= c < 1 + tree_rows(ws),
{
    if c > 0 {
        lemma_tree_row_some(ws, c - 1);
    }
}

/// The provider whose models the model section shows: the provider chosen
/// with Space if it is enabled, else the first enabled provider listing the
/// current model, else the first enabled provider.
#[verifier::opaque]
pub open spec fn tui_active_index(p: PanelView) -> Option<int> {
    let ps = p.providers;
    if p.active_provider_idx is Some && (p.active_provider_idx->0 as int) < ps.len()
        && ps[p.active_provider_idx->0 as int].enabled {
        Some(p.active_provider_idx->0 as int)
    } else {
        match first_index(ps, enabled_with_model(p.current_model)) {
            Some(j) => Some(j),
            None => first_index(ps, is_enabled()),
        }
    }
}

/// Whether a model is shown in the model section for a search text: it is
/// enabled and, if the search is not empty, its id contains the search,
/// both lowercased.
pub open spec fn model_shown(m: ModelView, search: Seq<char>) -> bool {
    m.enabled && (search.len() == 0 || contains_spec(lowercase(m.id), lowercase(search)))
}

/// The models of a list that are shown, in order.
pub open spec fn shown_models(ms: Seq<ModelView>, search: Seq<char>) -> Seq<ModelView>
    decreases ms.len(),
{
    if ms.len() == 0 {
        Seq::empty()
    } else {
        let rest = shown_models(ms.drop_last(), search);
        if model_shown(ms.last(), search) {
            rest.push(ms.last())
        } else {
            rest
        }
    }
}

/// The models listed in the model section.
pub open spec fn filtered_spec(p: PanelView) -> Seq<ModelView> {
    match tui_active_index(p) {
        Some(i) => shown_models(p.providers[i].models, p.model_search),
        None => Seq::empty(),
    }
}

/// An index as a `usize` option.
pub open spec fn to_usize_opt(o: Option<int>) -> Option<usize> {
    match o {
        Some(i) => Some(i as usize),
        None => None,
    }
}

/// The state after the configuration is to be saved (nothing changes when
/// persistence is disabled).
pub open spec fn sync_spec(p: PanelView, disabled: bool) -> PanelView {
    if disabled {
        p
    } else {
        PanelView { config_save_pending: true, ..p }
    }
}

/// The effect of a key in the model section, and whether it was handled.
pub open spec fn model_key_spec(p: PanelView, key: KeyCode) -> (PanelView, bool) {
    let shown = filtered_spec(p);
    if p.editor is Some {
        (p, false)
    } else {
        match key {
            KeyCode::Up => (
                PanelView {
                    model_cursor: if p.model_cursor > 0 {
                        (p.model_cursor - 1) as usize
                    } else {
                        p.model_cursor
                    },
                    ..p
                },
                true,
            ),
            KeyCode::Down => (
                PanelView {
                    model_cursor: if p.model_cursor < shown.len() {
                        (p.model_cursor + 1) as usize
                    } else {
                        p.model_cursor
                    },
                    ..p
                },
                true,
            ),
            KeyCode::Enter => {
                if p.model_cursor == 0 || p.model_cursor - 1 >= shown.len() {
                    (p, true)
                } else {
                    (
                        PanelView {
                            active_provider_idx: to_usize_opt(tui_active_index(p)),
                            current_model: shown[p.model_cursor - 1].id,
                            model_just_switched: true,
                            ..p
                        },
                        true,
                    )
                }
            },
            KeyCode::Backspace => (
                PanelView {
                    model_search: if p.model_search.len() > 0 {
                        p.model_search.drop_last()
                    } else {
                        p.model_search
                    },
                    model_cursor: 0,
                    ..p
                },
                true,
            ),
            KeyCode::Esc => (PanelView { model_search: Seq::empty(), model_cursor: 0, ..p }, true),
            KeyCode::Char(c) => {
                if c == ' ' {
                    if p.model_cursor == 0 || p.model_cursor - 1 >= shown.len() {
                        (p, true)
                    } else if p.current_model == shown[p.model_cursor - 1].id {
                        (
                            PanelView {
                                current_model: Seq::empty(),
                                model_just_switched: true,
                                ..p
                            },
                            true,
                        )
                    } else {
                        (
                            PanelView {
                                active_provider_idx: to_usize_opt(tui_active_index(p)),
                                current_model: shown[p.model_cursor - 1].id,
                                model_just_switched: true,
                                ..p
                            },
                            true,
                        )
                    }
                } else {
                    (PanelView { model_search: p.model_search.push(c), model_cursor: 0, ..p }, true)
                }
            },
            _ => (p, false),
        }
    }
}

/// The index of the first enabled provider.
fn first_enabled(ps: &Vec<ProviderInfo>) -> (r: Option<usize>)
    ensures
        r == to_usize_opt(first_index(ps.deep_view(), is_enabled())),
        r is None <==> first_index(ps.deep_view(), is_enabled()) is None,
        r matches Some(i) ==> i < ps@.len() && first_index(ps.deep_view(), is_enabled()) == Some(i as int),
{
    let ghost dv = ps.deep_view();
    let mut i: usize = 0;
    while i < ps.len()
        invariant
            i <= ps@.len(),
            dv == ps.deep_view(),
            forall|j: int| 0 <= j < i ==> !is_enabled()(#[trigger] dv[j]),
        decreases ps.len() - i,
    {
        assert(dv[i as int] == ps@[i as int]@);
        if ps[i].enabled {
            proof {
                lemma_first_index_is(dv, is_enabled(), i as int);
            }
            return Some(i);
        }
        i = i + 1;
    }
    proof {
        lemma_first_index_none(dv, is_enabled());
    }
    None
}

/// A blank provider draft: empty fields, enabled, endpoint "openai_compat".
pub open spec fn blank_draft() -> ProviderView {
    ProviderView {
        id: Seq::empty(),
        name: Seq::empty(),
        enabled: true,
        base_url: Seq::empty(),
        api_key: Seq::empty(),
        models: Seq::empty(),
        endpoint_type: "openai_compat"@,
    }
}

/// The form for a new provider, to be added at index `len`.
pub open spec fn new_editor(len: usize) -> EditorView {
    EditorView {
        is_new: true,
        index: len,
        draft: blank_draft(),
        field_focus: 6,
        models_text: Seq::empty(),
        models_fetching: false,
        model_mgr: None,
    }
}

/// The form for editing provider `p` at index `idx`, prefilled with its data.
pub open spec fn edit_editor(p: ProviderView, idx: usize) -> EditorView {
    EditorView {
        is_new: false,
        index: idx,
        draft: p,
        field_focus: 6,
        models_text: models_text_spec(p.models),
        models_fetching: false,
        model_mgr: None,
    }
}

/// Opening the form of provider `idx`, closing the popup (nothing when out of range).
pub open spec fn open_edit_spec(s: PanelView, idx: int) -> PanelView {
    if 0 <= idx < s.providers.len() {
        PanelView { provider_popup: None, editor: Some(edit_editor(s.providers[idx], idx as usize)), ..s }
    } else {
        s
    }
}

/// The model of the provider template added with `+`.
pub open spec fn template_model() -> ModelView {
    ModelView {
        id: "gpt-4o"@,
        name: "GPT-4o"@,
        context_window: 128000,
        reasoning: true,
        tier: "T3"@,
        enabled: true,
        thinking_level_map: None,
    }
}

/// The provider template added with `+`.
pub open spec fn template_provider() -> ProviderView {
    ProviderView {
        id: "new-provider"@,
        name: "New Provider"@,
        enabled: true,
        base_url: "https://api.openai.com/v1"@,
        api_key: Seq::empty(),
        models: seq![template_model()],
        endpoint_type: "openai_compat"@,
    }
}

/// The state with the given provider form open.
pub open spec fn set_editor(s: PanelView, e: EditorView) -> PanelView {
    PanelView { editor: Some(e), ..s }
}

/// Saving a provider form: the draft is appended (new provider) or replaces
/// the provider at its index (when in range), the form closes and the
/// configuration is to be saved.
pub open spec fn commit_spec(s: PanelView, disabled: bool, e: EditorView) -> PanelView {
    let ps = if e.is_new {
        s.providers.push(e.draft)
    } else if e.index < s.providers.len() {
        s.providers.update(e.index as int, e.draft)
    } else {
        s.providers
    };
    sync_spec(PanelView { providers: ps, editor: None, ..s }, disabled)
}

/// Moving the form focus to `new`; leaving the API key field with a base URL
/// and an API key filled in starts fetching the model list.
pub open spec fn move_focus(e: EditorView, new: usize) -> EditorView {
    EditorView {
        field_focus: new,
        models_fetching: e.models_fetching || (e.field_focus == 3 && new != 3
            && trim_spec(e.draft.base_url).len() > 0 && trim_spec(e.draft.api_key).len() > 0),
        ..e
    }
}

/// Typing a character into the focused text field (id, name, base URL or API key).
pub open spec fn field_push(e: EditorView, c: char) -> EditorView {
    let d = e.draft;
    if e.field_focus == 0 {
        EditorView { draft: ProviderView { id: d.id.push(c), ..d }, ..e }
    } else if e.field_focus == 1 {
        EditorView { draft: ProviderView { name: d.name.push(c), ..d }, ..e }
    } else if e.field_focus == 2 {
        EditorView { draft: ProviderView { base_url: d.base_url.push(c), ..d }, ..e }
    } else if e.field_focus == 3 {
        EditorView { draft: ProviderView { api_key: d.api_key.push(c), ..d }, ..e }
    } else {
        e
    }
}

/// The text without its last character (unchanged when empty).
pub open spec fn pop_spec(t: Seq<char>) -> Seq<char> {
    if t.len() > 0 {
        t.drop_last()
    } else {
        t
    }
}

/// Deleting the last character of the focused text field.
pub open spec fn field_pop(e: EditorView) -> EditorView {
    let d = e.draft;
    if e.field_focus == 0 {
        EditorView { draft: ProviderView { id: pop_spec(d.id), ..d }, ..e }
    } else if e.field_focus == 1 {
        EditorView { draft: ProviderView { name: pop_spec(d.name), ..d }, ..e }
    } else if e.field_focus == 2 {
        EditorView { draft: ProviderView { base_url: pop_spec(d.base_url), ..d }, ..e }
    } else if e.field_focus == 3 {
        EditorView { draft: ProviderView { api_key: pop_spec(d.api_key), ..d }, ..e }
    } else {
        e
    }
}

/// The endpoint type after `t` in the cycle openai_responses, anthropic_messages,
/// gemini, openai_compat (anything else goes to openai_responses).
pub open spec fn next_endpoint_type(t: Seq<char>) -> Seq<char> {
    if t == "openai_responses"@ {
        "anthropic_messages"@
    } else if t == "anthropic_messages"@ {
        "gemini"@
    } else if t == "gemini"@ {
        "openai_compat"@
    } else {
        "openai_responses"@
    }
}

/// The effect of a key on the open provider form (without the model manager).
pub open spec fn form_key_spec(s: PanelView, disabled: bool, e: EditorView, key: KeyCode) -> (PanelView, bool) {
    match key {
        KeyCode::Esc => (PanelView { editor: None, ..s }, true),
        KeyCode::Tab => (set_editor(s, move_focus(e, next_field_spec(e.field_focus))), true),
        KeyCode::Down => (set_editor(s, move_focus(e, next_field_spec(e.field_focus))), true),
        KeyCode::Up => (set_editor(s, move_focus(e, prev_field_spec(e.field_focus))), true),
        KeyCode::Enter => {
            if e.field_focus == 5 {
                (
                    set_editor(
                        s,
                        EditorView {
                            draft: ProviderView {
                                models: merge_models_spec(e.models_text, e.draft.models),
                                ..e.draft
                            },
                            model_mgr: Some(ModelManagerView { cursor: 0, editor: None }),
                            ..e
                        },
                    ),
                    true,
                )
            } else {
                (commit_spec(s, disabled, e), true)
            }
        },
        KeyCode::Backspace => (set_editor(s, field_pop(e)), true),
        KeyCode::Char(c) => {
            if c == ' ' && e.field_focus == 6 {
                (
                    set_editor(
                        s,
                        EditorView {
                            draft: ProviderView {
                                endpoint_type: next_endpoint_type(e.draft.endpoint_type),
                                ..e.draft
                            },
                            ..e
                        },
                    ),
                    true,
                )
            } else {
                (set_editor(s, field_push(e, c)), true)
            }
        },
        _ => (s, false),
    }
}

/// The model added from the model manager's "add" row.
pub open spec fn new_model_view() -> ModelView {
    ModelView {
        id: "new-model"@,
        name: Seq::empty(),
        context_window: 128000,
        reasoning: true,
        tier: "T2"@,
        enabled: true,
        thinking_level_map: None,
    }
}

/// The state with the form's model manager set to `m`.
pub open spec fn set_mgr(s: PanelView, e: EditorView, m: ModelManagerView) -> PanelView {
    set_editor(s, EditorView { model_mgr: Some(m), ..e })
}

/// The state with the form's model list and model manager replaced.
pub open spec fn set_models_mgr(s: PanelView, e: EditorView, ms: Seq<ModelView>, m: ModelManagerView) -> PanelView {
    set_editor(s, EditorView { draft: ProviderView { models: ms, ..e.draft }, model_mgr: Some(m), ..e })
}

/// The model manager's cursor moved up one row.
pub open spec fn mgr_up_spec(s: PanelView, e: EditorView, m: ModelManagerView) -> PanelView {
    set_mgr(s, e, ModelManagerView { cursor: if m.cursor > 0 { (m.cursor - 1) as usize } else { m.cursor }, ..m })
}

/// The model manager's cursor moved down one row (up to the "done" row).
pub open spec fn mgr_down_spec(s: PanelView, e: EditorView, m: ModelManagerView) -> PanelView {
    let mc = e.draft.models.len();
    set_mgr(s, e, ModelManagerView { cursor: if m.cursor <= mc { (m.cursor + 1) as usize } else { m.cursor }, ..m })
}

/// Enter in the model manager: edit the model under the cursor, add a model
/// (on the "add" row), or save the form (on the "done" row).
pub open spec fn mgr_enter_spec(s: PanelView, disabled: bool, e: EditorView, m: ModelManagerView) -> PanelView {
    let ms = e.draft.models;
    let mc = ms.len();
    if m.cursor < mc {
        let md = ms[m.cursor as int];
        set_mgr(
            s,
            e,
            ModelManagerView {
                editor: Some(
                    FieldEditorView {
                        field_focus: 0,
                        draft_id: md.id,
                        draft_tier: md.tier,
                        draft_ctx: dec_spec(md.context_window as nat),
                        model_index: m.cursor,
                    },
                ),
                ..m
            },
        )
    } else if m.cursor == mc {
        set_models_mgr(
            s,
            e,
            ms.push(new_model_view()),
            ModelManagerView {
                cursor: mc as usize,
                editor: Some(
                    FieldEditorView {
                        field_focus: 0,
                        draft_id: "new-model"@,
                        draft_tier: "T2"@,
                        draft_ctx: "128000"@,
                        model_index: mc as usize,
                    },
                ),
            },
        )
    } else {
        commit_spec(s, disabled, EditorView { models_text: models_text_spec(ms), model_mgr: None, ..e })
    }
}

/// Delete or Backspace in the model manager: remove the model under the cursor.
pub open spec fn mgr_delete_spec(s: PanelView, e: EditorView, m: ModelManagerView) -> PanelView {
    let ms = e.draft.models;
    if m.cursor < ms.len() {
        let nm = ms.remove(m.cursor as int);
        set_models_mgr(
            s,
            e,
            nm,
            ModelManagerView {
                cursor: if m.cursor > 0 && m.cursor >= nm.len() { nm.len() as usize } else { m.cursor },
                ..m
            },
        )
    } else {
        s
    }
}

/// Space in the model manager: enable or disable the model under the cursor.
pub open spec fn mgr_toggle_spec(s: PanelView, e: EditorView, m: ModelManagerView) -> PanelView {
    let ms = e.draft.models;
    if m.cursor < ms.len() {
        let md = ms[m.cursor as int];
        set_models_mgr(s, e, ms.update(m.cursor as int, ModelView { enabled: !md.enabled, ..md }), m)
    } else {
        s
    }
}

/// Esc in the model manager: back to the form, with the models text rebuilt.
pub open spec fn mgr_esc_spec(s: PanelView, e: EditorView) -> PanelView {
    set_editor(s, EditorView { models_text: models_text_spec(e.draft.models), model_mgr: None, ..e })
}

/// The effect of a key on the model manager of the open form (no model field
/// editor open). Rows: the models, then "add model", then "done".
pub open spec fn manager_key_spec(s: PanelView, disabled: bool, e: EditorView, m: ModelManagerView, key: KeyCode) -> (PanelView, bool) {
    match key {
        KeyCode::Up => (mgr_up_spec(s, e, m), true),
        KeyCode::Down => (mgr_down_spec(s, e, m), true),
        KeyCode::Enter => (mgr_enter_spec(s, disabled, e, m), true),
        KeyCode::Delete => (mgr_delete_spec(s, e, m), true),
        KeyCode::Backspace => (mgr_delete_spec(s, e, m), true),
        KeyCode::Char(c) => {
            if c == 'k' {
                (mgr_up_spec(s, e, m), true)
            } else if c == 'j' {
                (mgr_down_spec(s, e, m), true)
            } else if c == ' ' {
                (mgr_toggle_spec(s, e, m), true)
            } else {
                (s, false)
            }
        },
        KeyCode::Tab => (s, true),
        KeyCode::Esc => (mgr_esc_spec(s, e), true),
        _ => (s, false),
    }
}

/// The model field focused after Up: id, tier and context cycle backwards.
pub open spec fn fe_up(f: usize) -> usize {
    if f < 3 { ((f + 2) % 3) as usize } else { 2 }
}

/// The model field focused after Down or Tab: id, tier and context cycle forwards.
pub open spec fn fe_down(f: usize) -> usize {
    if f < 3 { ((f + 1) % 3) as usize } else { 1 }
}

/// The model field editor with its focus moved.
pub open spec fn fe_focus(fe: FieldEditorView, f: usize) -> FieldEditorView {
    FieldEditorView { field_focus: f, ..fe }
}

/// Typing into the focused model field.
pub open spec fn fe_push(fe: FieldEditorView, c: char) -> FieldEditorView {
    if fe.field_focus == 0 {
        FieldEditorView { draft_id: fe.draft_id.push(c), ..fe }
    } else if fe.field_focus == 1 {
        FieldEditorView { draft_tier: fe.draft_tier.push(c), ..fe }
    } else if fe.field_focus == 2 {
        FieldEditorView { draft_ctx: fe.draft_ctx.push(c), ..fe }
    } else {
        fe
    }
}

/// Deleting the last character of the focused model field.
pub open spec fn fe_pop(fe: FieldEditorView) -> FieldEditorView {
    if fe.field_focus == 0 {
        FieldEditorView { draft_id: pop_spec(fe.draft_id), ..fe }
    } else if fe.field_focus == 1 {
        FieldEditorView { draft_tier: pop_spec(fe.draft_tier), ..fe }
    } else if fe.field_focus == 2 {
        FieldEditorView { draft_ctx: pop_spec(fe.draft_ctx), ..fe }
    } else {
        fe
    }
}

/// A tier accepted by the model field editor (after uppercasing).
pub open spec fn valid_tier(t: Seq<char>) -> bool {
    t == "T1"@ || t == "T2"@ || t == "T3"@
}

/// The context window written in the model field editor, when it is a
/// positive `u32`.
pub open spec fn valid_ctx(t: Seq<char>) -> Option<nat> {
    match parse_unsigned_spec(t, 0xffff_ffff) {
        Some(v) => if v > 0 { Some(v) } else { None },
        None => None,
    }
}

/// The effect of a key on the open model field editor.
pub open spec fn field_editor_key_spec(s: PanelView, e: EditorView, m: ModelManagerView, fe: FieldEditorView, key: KeyCode) -> (PanelView, bool) {
    let with_fe = |f: FieldEditorView| set_mgr(s, e, ModelManagerView { editor: Some(f), ..m });
    match key {
        KeyCode::Up => (with_fe(fe_focus(fe, fe_up(fe.field_focus))), true),
        KeyCode::Down => (with_fe(fe_focus(fe, fe_down(fe.field_focus))), true),
        KeyCode::Tab => (with_fe(fe_focus(fe, fe_down(fe.field_focus))), true),
        KeyCode::Enter => {
            let tu = uppercase(fe.draft_tier);
            if trim_spec(fe.draft_id).len() == 0 {
                (with_fe(fe_focus(fe, 0)), true)
            } else if !valid_tier(tu) {
                (with_fe(fe_focus(fe, 1)), true)
            } else if valid_ctx(fe.draft_ctx) is None {
                (with_fe(fe_focus(fe, 2)), true)
            } else {
                let ms = e.draft.models;
                let nm = if fe.model_index < ms.len() {
                    ms.update(
                        fe.model_index as int,
                        ModelView {
                            id: trim_spec(fe.draft_id),
                            name: Seq::empty(),
                            context_window: valid_ctx(fe.draft_ctx)->0 as u32,
                            reasoning: tu != "T1"@,
                            tier: tu,
                            enabled: true,
                            thinking_level_map: None,
                        },
                    )
                } else {
                    ms
                };
                (set_models_mgr(s, e, nm, ModelManagerView { editor: None, ..m }), true)
            }
        },
        KeyCode::Esc => (set_mgr(s, e, ModelManagerView { editor: None, ..m }), true),
        KeyCode::Backspace => (with_fe(fe_pop(fe)), true),
        KeyCode::Char(c) => (with_fe(fe_push(fe, c)), true),
        _ => (s, false),
    }
}

/// The effect of a key while a provider form is open.
pub open spec fn editor_key_spec(s: PanelView, disabled: bool, key: KeyCode) -> (PanelView, bool) {
    let e = s.editor->0;
    match e.model_mgr {
        Some(m) => match m.editor {
            Some(fe) => field_editor_key_spec(s, e, m, fe, key),
            None => manager_key_spec(s, disabled, e, m, key),
        },
        None => form_key_spec(s, disabled, e, key),
    }
}

/// A key on the open provider popup.
pub open spec fn popup_key_spec(s: PanelView, key: KeyCode) -> (PanelView, bool) {
    let ps = s.providers;
    let pi = s.provider_popup->0;
    match key {
        KeyCode::Esc => (PanelView { provider_popup: None, ..s }, true),
        KeyCode::Enter => {
            if pi < ps.len() && ps[pi as int].models.len() > 0 {
                (
                    PanelView {
                        active_provider_idx: Some(pi),
                        current_model: ps[pi as int].models[0].id,
                        model_just_switched: true,
                        provider_popup: None,
                        ..s
                    },
                    true,
                )
            } else {
                (PanelView { provider_popup: None, ..s }, true)
            }
        },
        _ => (s, false),
    }
}

/// Enter on the provider list: nothing on the title; the form of a new
/// provider on the "add" row (or when the list is empty); else the form of
/// the provider under the cursor.
pub open spec fn list_enter_spec(s: PanelView) -> PanelView {
    let n = s.providers.len();
    let c = s.provider_cursor;
    if c == 0 {
        s
    } else if c == n + 1 || n == 0 {
        PanelView { provider_popup: None, editor: Some(new_editor(n as usize)), ..s }
    } else {
        open_edit_spec(s, c - 1)
    }
}

/// Space on provider row `pi`: clear the choice if it is the chosen
/// provider, else choose it with its first model (when it has one); either
/// way the agent is to be told.
pub open spec fn choose_provider_spec(s: PanelView, pi: usize) -> PanelView {
    let ps = s.providers;
    let s1 = if s.active_provider_idx == Some(pi) {
        PanelView { active_provider_idx: None, current_model: Seq::empty(), ..s }
    } else if ps[pi as int].models.len() > 0 {
        PanelView { active_provider_idx: Some(pi), current_model: ps[pi as int].models[0].id, ..s }
    } else {
        s
    };
    PanelView { model_just_switched: true, ..s1 }
}

/// `d` on the provider list: toggle provider `c` (the cursor value) between
/// enabled and disabled; disabling the chosen provider clears the choice and
/// the current model; the configuration is to be saved.
pub open spec fn toggle_enabled_spec(s: PanelView, disabled: bool, c: usize) -> PanelView {
    let ps = s.providers;
    let was = ps[c as int];
    let s1 = PanelView { providers: ps.update(c as int, ProviderView { enabled: !was.enabled, ..was }), ..s };
    let s2 = if was.enabled && s.active_provider_idx == Some(c) {
        PanelView { active_provider_idx: None, current_model: Seq::empty(), ..s1 }
    } else {
        s1
    };
    sync_spec(s2, disabled)
}

/// `+` on the provider list: append the template provider and save.
pub open spec fn add_template_spec(s: PanelView, disabled: bool) -> PanelView {
    sync_spec(PanelView { providers: s.providers.push(template_provider()), ..s }, disabled)
}

/// A key on the provider list (no popup, no form).
pub open spec fn list_key_spec(s: PanelView, disabled: bool, key: KeyCode) -> (PanelView, bool) {
    let n = s.providers.len();
    let c = s.provider_cursor;
    let on_provider = n > 0 && 0 < c <= n;
    match key {
        KeyCode::Up => (PanelView { provider_cursor: if c > 0 { (c - 1) as usize } else { c }, ..s }, true),
        KeyCode::Down => (PanelView { provider_cursor: if c <= n { (c + 1) as usize } else { c }, ..s }, true),
        KeyCode::Enter => (list_enter_spec(s), true),
        KeyCode::Left => (s, true),
        KeyCode::Esc => (s, true),
        KeyCode::Char(ch) => {
            if ch == ' ' && on_provider {
                (choose_provider_spec(s, (c - 1) as usize), true)
            } else if ch == 'e' && on_provider {
                (open_edit_spec(s, c - 1), true)
            } else if ch == 'd' && n > 0 && c < n {
                (toggle_enabled_spec(s, disabled, c), true)
            } else if ch == '+' {
                (add_template_spec(s, disabled), true)
            } else {
                (s, false)
            }
        },
        _ => (s, false),
    }
}

/// The effect of a key in the provider section, and whether it was handled.
/// Rows: 0 = title, 1..=N = providers, N+1 = "add provider".
pub open spec fn provider_key_spec(s: PanelView, disabled: bool, key: KeyCode) -> (PanelView, bool) {
    if s.editor is Some {
        editor_key_spec(s, disabled, key)
    } else if s.provider_popup is Some {
        popup_key_spec(s, key)
    } else {
        list_key_spec(s, disabled, key)
    }
}

/// In the provider list (no form, no popup open), Down moves the cursor one
/// row down, stopping at the "add provider" row, and Up one row up,
/// stopping at the title; both keys are handled, the cursor stays within
/// the rows, and nothing else changes.
pub proof fn lemma_provider_nav(s: PanelView, disabled: bool, key: KeyCode)
    requires
        s.editor is None,
        s.provider_popup is None,
        s.provider_cursor <= s.providers.len() + 1,
        s.providers.len() < usize::MAX,
        key == KeyCode::Up || key == KeyCode::Down,
    ensures
        ({
            let (t, handled) = provider_key_spec(s, disabled, key);
            let n = s.providers.len();
            let c = s.provider_cursor as int;
            &&& handled
            &&& t.provider_cursor == if key == KeyCode::Down {
                if c + 1 <= n + 1 { c + 1 } else { c }
            } else {
                if c > 0 { c - 1 } else { 0 }
            }
            &&& t.provider_cursor <= n + 1
            &&& t == PanelView { provider_cursor: t.provider_cursor, ..s }
        }),
{
}

/// Saving a provider form never shortens the provider list.
proof fn lemma_commit_keeps_providers(s: PanelView, disabled: bool, e: EditorView)
    ensures
        commit_spec(s, disabled, e).providers.len() >= s.providers.len(),
        commit_spec(s, disabled, e).provider_cursor == s.provider_cursor,
{
}

/// The keys of an open provider form keep the provider cursor, and never
/// shorten the provider list.
proof fn lemma_editor_keeps_cursor(s: PanelView, disabled: bool, key: KeyCode)
    requires
        s.editor is Some,
    ensures
        editor_key_spec(s, disabled, key).0.provider_cursor == s.provider_cursor,
        editor_key_spec(s, disabled, key).0.providers.len() >= s.providers.len(),
{
    let e = s.editor->0;
    lemma_commit_keeps_providers(s, disabled, e);
    lemma_commit_keeps_providers(s, disabled, EditorView { models_text: models_text_spec(e.draft.models), model_mgr: None, ..e });
}

/// Every key in the provider section keeps the cursor on one of its rows,
/// from the title (0) to the "add provider" row (N + 1).
pub proof fn lemma_provider_cursor_on_rows(s: PanelView, disabled: bool, key: KeyCode)
    requires
        s.provider_cursor <= s.providers.len() + 1,
    ensures
        provider_key_spec(s, disabled, key).0.provider_cursor <= provider_key_spec(s, disabled, key).0.providers.len() + 1,
{
    if s.editor is Some {
        lemma_editor_keeps_cursor(s, disabled, key);
    }
}

/// Machine limits the provider keys rely on: the provider list, and the model
/// list of an open form, are shorter than `usize::MAX` (so the "add" rows
/// after them have an index).
pub open spec fn panel_fits(p: PanelView) -> bool {
    &&& p.providers.len() < usize::MAX
    &&& p.editor matches Some(e) ==> e.draft.models.len() < usize::MAX
}

/// Moves the form focus (see `move_focus`).
fn editor_move_focus(e: &mut ProviderEditor, new: usize)
    ensures
        final(e)@ == move_focus(old(e)@, new),
{
    let old_f = e.field_focus;
    e.field_focus = new;
    if old_f == 3 && new != 3 && !e.models_fetching {
        let bu = trim(e.draft.base_url.as_str());
        let ak = trim(e.draft.api_key.as_str());
        if !bu.as_str().is_empty() && !ak.as_str().is_empty() {
            e.models_fetching = true;
        }
    }
}

/// Types a character into the focused text field of the form (see `field_push`).
fn editor_field_push(e: &mut ProviderEditor, c: char)
    ensures
        final(e)@ == field_push(old(e)@, c),
{
    if e.field_focus == 0 {
        push_char(&mut e.draft.id, c);
    } else if e.field_focus == 1 {
        push_char(&mut e.draft.name, c);
    } else if e.field_focus == 2 {
        push_char(&mut e.draft.base_url, c);
    } else if e.field_focus == 3 {
        push_char(&mut e.draft.api_key, c);
    }
}

/// Deletes the last character of the focused text field of the form (see `field_pop`).
fn editor_field_pop(e: &mut ProviderEditor)
    ensures
        final(e)@ == field_pop(old(e)@),
{
    if e.field_focus == 0 {
        pop_char(&mut e.draft.id);
    } else if e.field_focus == 1 {
        pop_char(&mut e.draft.name);
    } else if e.field_focus == 2 {
        pop_char(&mut e.draft.base_url);
    } else if e.field_focus == 3 {
        pop_char(&mut e.draft.api_key);
    }
}

/// The endpoint type after `t` in the cycle (see `next_endpoint_type`).
fn next_endpoint(t: &str) -> (r: String)
    ensures
        r@ == next_endpoint_type(t@),
{
    if str_eq(t, "openai_responses") {
        string_of("anthropic_messages")
    } else if str_eq(t, "anthropic_messages") {
        string_of("gemini")
    } else if str_eq(t, "gemini") {
        string_of("openai_compat")
    } else {
        string_of("openai_responses")
    }
}

/// Types into the focused model field (see `fe_push`).
fn fe_push_exec(fe: &mut ModelFieldEditor, c: char)
    ensures
        final(fe)@ == fe_push(old(fe)@, c),
{
    if fe.field_focus == 0 {
        push_char(&mut fe.draft_id, c);
    } else if fe.field_focus == 1 {
        push_char(&mut fe.draft_tier, c);
    } else if fe.field_focus == 2 {
        push_char(&mut fe.draft_ctx, c);
    }
}

/// Deletes the last character of the focused model field (see `fe_pop`).
fn fe_pop_exec(fe: &mut ModelFieldEditor)
    ensures
        final(fe)@ == fe_pop(old(fe)@),
{
    if fe.field_focus == 0 {
        pop_char(&mut fe.draft_id);
    } else if fe.field_focus == 1 {
        pop_char(&mut fe.draft_tier);
    } else if fe.field_focus == 2 {
        pop_char(&mut fe.draft_ctx);
    }
}

/// The provider template added with `+`.
fn template_provider_exec() -> (r: ProviderInfo)
    ensures
        r@ == template_provider(),
{
    let m = ModelInfo {
        id: string_of("gpt-4o"),
        name: string_of("GPT-4o"),
        context_window: 128000,
        reasoning: true,
        tier: string_of("T3"),
        enabled: true,
        thinking_level_map: None,
    };
    let mut models: Vec<ModelInfo> = Vec::new();
    models.push(m);
    assert(models.deep_view() =~= seq![template_model()]);
    ProviderInfo {
        id: string_of("new-provider"),
        name: string_of("New Provider"),
        enabled: true,
        base_url: string_of("https://api.openai.com/v1"),
        api_key: String::new(),
        models,
        endpoint_type: string_of("openai_compat"),
    }
}

/// The model added from the model manager's "add" row.
fn new_model_exec() -> (r: ModelInfo)
    ensures
        r@ == new_model_view(),
{
    ModelInfo {
        id: string_of("new-model"),
        name: String::new(),
        context_window: 128000,
        reasoning: true,
        tier: string_of("T2"),
        enabled: true,
        thinking_level_map: None,
    }
}

impl TuiState {
    /// A fresh state: nothing loaded, focus on the input line, router port 8001.
    pub fn new() -> (r: TuiState)
        ensures
            r.workspaces@.len() == 0,
            r.providers@.len() == 0,
            r.subagents@.len() == 0,
            r.skills@.len() == 0,
            r.mcps@.len() == 0,
            r.session_names@.len() == 0,
            r.active_session@.len() == 0,
            r.current_model@.len() == 0,
            r.model_search@.len() == 0,
            r.rename_input@.len() == 0,
            r.focus_panel == FocusPanel::MainView,
            r.sidebar_subsection == SidebarSubsection::Workspace,
            r.main_view_subsection == MainViewSubsection::Input,
            r.agent_panel_subsection == AgentPanelSubsection::Agents,
            r.scroll_mode == ScrollMode::TailFollow,
            r.sidebar_cursor == 0 && r.active_session_cursor == 0 && r.agent_cursor == 0,
            r.message_cursor == 0 && r.skill_cursor == 0 && r.mcp_cursor == 0,
            r.provider_cursor == 0 && r.model_cursor == 0,
            r.router_port == 8001 && !r.router_running,
            r.provider_popup is None && r.provider_editor is None,
            r.active_provider_idx is None && r.last_enter_session is None,
            r.pending_ai_prompt is None && r.workspace_rename is None && r.confirm_delete is None,
            !r.model_just_switched && !r.persistence_disabled && !r.snapshot_pending,
            !r.config_save_pending,
            r.selection.panel == SelectionPanel::NoPanel && !r.selection.active,
            r.selection.anchor is None && r.selection.focus is None,
            r.selection.selected_text@.len() == 0,
    {
        TuiState {
            active_session: String::new(),
            current_time: String::new(),
            workspaces: Vec::new(),
            focus_panel: FocusPanel::MainView,
            sidebar_cursor: 0,
            active_session_cursor: 0,
            last_enter_session: None,
            sidebar_subsection: SidebarSubsection::Workspace,
            main_view_subsection: MainViewSubsection::Input,
            agent_panel_subsection: AgentPanelSubsection::Agents,
            agent_cursor: 0,
            message_cursor: 0,
            scroll_mode: ScrollMode::TailFollow,
            selection: SelectionState {
                panel: SelectionPanel::NoPanel,
                active: false,
                anchor: None,
                focus: None,
                selected_text: String::new(),
            },
            subagents: Vec::new(),
            router_running: false,
            router_port: 8001,
            providers: Vec::new(),
            current_model: String::new(),
            provider_cursor: 0,
            provider_popup: None,
            model_cursor: 0,
            model_search: String::new(),
            model_just_switched: false,
            active_provider_idx: None,
            provider_editor: None,
            skills: Vec::new(),
            skill_cursor: 0,
            mcps: Vec::new(),
            mcp_cursor: 0,
            persistence_disabled: false,
            pending_ai_prompt: None,
            workspace_rename: None,
            rename_input: String::new(),
            confirm_delete: None,
            session_names: Vec::new(),
            snapshot_pending: false,
            config_save_pending: false,
        }
    }

    /// The number of cursor rows of the workspace section: the title, each
    /// workspace header, and the sessions of expanded workspaces.
    pub fn sidebar_visible_count(&self) -> (r: usize)
        requires
            1 + tree_rows(self.workspaces@) <= usize::MAX,
        ensures
            r == 1 + tree_rows(self.workspaces@),
    {
        let ghost ws = self.workspaces@;
        let mut count: usize = 1;
        for i in 0..self.workspaces.len()
            invariant
                ws == self.workspaces@,
                1 + tree_rows(ws) <= usize::MAX,
                count == 1 + tree_rows(ws.take(i as int)),
        {
            proof {
                lemma_tree_rows_take(ws, i as int);
                lemma_tree_rows_mono(ws, i + 1, ws.len() as int);
                assert(ws.take(ws.len() as int) =~= ws);
            }
            let w = &self.workspaces[i];
            if w.expanded {
                count = count + 1 + w.sessions.len();
            } else {
                count = count + 1;
            }
        }
        assert(ws.take(ws.len() as int) =~= ws);
        count
    }

    /// The item under `cursor` in the workspace section: `None` on the title
    /// or past the end, else (is a workspace header, workspace index, session
    /// index within the workspace).
    pub fn sidebar_item_at(&self, cursor: usize) -> (r: Option<(bool, usize, Option<usize>)>)
        ensures
            r == sidebar_item_spec(self.workspaces@, cursor as int),
    {
        if cursor == 0 {
            return None;
        }
        let ghost ws = self.workspaces@;
        let mut idx: usize = 1;
        let mut wi: usize = 0;
        while wi < self.workspaces.len()
            invariant
                ws == self.workspaces@,
                wi <= ws.len(),
                cursor >= 1,
                idx == 1 + tree_rows(ws.take(wi as int)),
                idx <= cursor,
            decreases ws.len() - wi,
        {
            let w = &self.workspaces[wi];
            proof {
                lemma_tree_rows_take(ws, wi as int);
            }
            if idx == cursor {
                proof {
                    lemma_tree_row_prefix(ws, wi + 1, cursor - 1);
                    assert(ws.take(wi + 1).drop_last() =~= ws.take(wi as int));
                }
                return Some((true, wi, None));
            }
            idx = idx + 1;
            if w.expanded {
                let n = w.sessions.len();
                if cursor - idx < n {
                    let si = cursor - idx;
                    proof {
                        lemma_tree_row_prefix(ws, wi + 1, cursor - 1);
                        assert(ws.take(wi + 1).drop_last() =~= ws.take(wi as int));
                    }
                    return Some((false, wi, Some(si)));
                }
                idx = idx + n;
            }
            wi = wi + 1;
        }
        proof {
            assert(ws.take(ws.len() as int) =~= ws);
            lemma_tree_row_some(ws, cursor - 1);
        }
        None
    }

    /// The index of the provider whose models the model section shows (see
    /// `tui_active_index`).
    pub fn active_provider_index(&self) -> (r: Option<usize>)
        ensures
            r == to_usize_opt(tui_active_index(self.panel())),
            r is None <==> tui_active_index(self.panel()) is None,
            r matches Some(i) ==> i < self.providers@.len() && tui_active_index(self.panel())
                == Some(i as int),
    {
        let ghost p = self.panel();
        let ghost dv = self.providers.deep_view();
        proof {
            reveal(tui_active_index);
        }
        if let Some(idx) = self.active_provider_idx {
            if idx < self.providers.len() {
                assert(dv[idx as int] == self.providers@[idx as int]@);
                if self.providers[idx].enabled {
                    return Some(idx);
                }
            }
        }
        match crate::provider::first_provider_with_model(&self.providers, self.current_model.as_str(), true) {
            Some(i) => Some(i),
            None => first_enabled(&self.providers),
        }
    }

    /// The provider whose models the model section shows.
    pub fn active_provider_for_models(&self) -> (r: Option<&ProviderInfo>)
        ensures
            tui_active_index(self.panel()) is None ==> r is None,
            tui_active_index(self.panel()) matches Some(i) ==> 0 <= i < self.providers@.len(),
            tui_active_index(self.panel()) matches Some(i) ==> r matches Some(p) && *p
                == self.providers@[i],
    {
        match self.active_provider_index() {
            Some(i) => Some(&self.providers[i]),
            None => None,
        }
    }

    /// The enabled models of the shown provider whose lowercased id contains
    /// the lowercased search text (all of them when the search is empty).
    pub fn filtered_models(&self) -> (r: Vec<&ModelInfo>)
        ensures
            r.deep_view() == filtered_spec(self.panel()),
    {
        let ap = match self.active_provider_for_models() {
            Some(p) => p,
            None => {
                let r: Vec<&ModelInfo> = Vec::new();
                assert(r.deep_view() =~= Seq::<ModelView>::empty());
                return r;
            },
        };
        let ghost i = tui_active_index(self.panel())->0;
        assert(self.providers.deep_view()[i] == self.providers@[i]@);
        assert(self.panel().providers[i] == ap@);
        let q = to_lowercase(self.model_search.as_str());
        let empty_search = self.model_search.as_str().is_empty();
        let ghost ms = ap.models.deep_view();
        let mut out: Vec<&ModelInfo> = Vec::new();
        for k in 0..ap.models.len()
            invariant
                ms == ap.models.deep_view(),
                ms.len() == ap.models@.len(),
                q@ == lowercase(self.model_search@),
                empty_search == (self.model_search@.len() == 0),
                out.deep_view() == shown_models(ms.take(k as int), self.model_search@),
        {
            let m = &ap.models[k];
            assert(ms[k as int] == m@);
            assert(ms.take(k + 1).drop_last() =~= ms.take(k as int));
            let shown = if m.enabled {
                if empty_search {
                    true
                } else {
                    let lid = to_lowercase(m.id.as_str());
                    contains(lid.as_str(), q.as_str())
                }
            } else {
                false
            };
            if shown {
                let ghost old_out = out;
                out.push(m);
                proof {
                    assert(out.deep_view() =~= old_out.deep_view().push(m@));
                }
            }
        }
        assert(ms.take(ms.len() as int) =~= ms);
        out
    }

    /// The provider configuration this state describes: the router port, the
    /// current model, the chosen provider and the providers.
    pub fn provider_config(&self) -> (r: ProviderConfig)
        ensures
            r@ == (ConfigView {
                port: self.router_port,
                current_model: Some(self.current_model@),
                current_provider: self.active_provider_idx,
                providers: self.providers.deep_view(),
            }),
    {
        ProviderConfig {
            port: self.router_port,
            current_model: Some(self.current_model.clone()),
            current_provider: self.active_provider_idx,
            providers: duplicate_providers(&self.providers),
        }
    }

    /// Asks for the provider configuration to be saved and shared with the
    /// router, unless persistence is disabled.
    pub fn sync_provider_config(&mut self)
        ensures
            final(self).panel() == sync_spec(old(self).panel(), old(self).persistence_disabled),
            final(self).others_unchanged(&*old(self)),
    {
        if self.persistence_disabled {
            return;
        }
        self.config_save_pending = true;
    }

    /// Handles a key in the model section (see `model_key_spec`): moves the
    /// cursor, edits the search text, or chooses / clears the model under the
    /// cursor. Returns whether the key was handled.
    #[verifier::rlimit(40)]
    pub fn handle_model_key(&mut self, key: KeyCode) -> (r: bool)
        ensures
            (final(self).panel(), r) == model_key_spec(old(self).panel(), key),
            final(self).others_unchanged(&*old(self)),
    {
        if self.provider_editor.is_some() {
            return false;
        }
        match key {
            KeyCode::Up => {
                if self.model_cursor > 0 {
                    self.model_cursor = self.model_cursor - 1;
                }
                true
            },
            KeyCode::Down => {
                let n = self.filtered_models().len();
                if self.model_cursor < n {
                    self.model_cursor = self.model_cursor + 1;
                }
                true
            },
            KeyCode::Enter => {
                if self.model_cursor == 0 {
                    return true;
                }
                let mid: Option<String> = {
                    let f = self.filtered_models();
                    if self.model_cursor - 1 < f.len() {
                        Some(f[self.model_cursor - 1].id.clone())
                    } else {
                        None
                    }
                };
                if let Some(m) = mid {
                    self.active_provider_idx = self.active_provider_index();
                    self.current_model = m;
                    self.model_just_switched = true;
                }
                true
            },
            KeyCode::Char(' ') => {
                if self.model_cursor == 0 {
                    return true;
                }
                let mid: Option<String> = {
                    let f = self.filtered_models();
                    if self.model_cursor - 1 < f.len() {
                        Some(f[self.model_cursor - 1].id.clone())
                    } else {
                        None
                    }
                };
                if let Some(m) = mid {
                    if self.current_model == m {
                        self.current_model = String::new();
                    } else {
                        self.active_provider_idx = self.active_provider_index();
                        self.current_model = m;
                    }
                    self.model_just_switched = true;
                }
                true
            },
            KeyCode::Backspace => {
                crate::strs::pop_char(&mut self.model_search);
                self.model_cursor = 0;
                true
            },
            KeyCode::Esc => {
                self.model_search = String::new();
                self.model_cursor = 0;
                true
            },
            KeyCode::Char(c) => {
                crate::strs::push_char(&mut self.model_search, c);
                self.model_cursor = 0;
                true
            },
            _ => false,
        }
    }
}

impl TuiState {
    /// Saves a provider form (see `commit_spec`): appends or replaces the
    /// provider, closes the form and asks for the configuration to be saved.
    fn commit_editor(&mut self, e: ProviderEditor)
        ensures
            final(self).panel() == commit_spec(old(self).panel(), old(self).persistence_disabled, e@),
            final(self).others_unchanged(&*old(self)),
    {
        let ghost ev = e@;
        let ghost old_ps = self.providers.deep_view();
        let idx = e.index;
        let draft = e.draft;
        if e.is_new {
            let ghost before = self.providers;
            self.providers.push(draft);
            proof {
                crate::seqs::lemma_deep_view_push(before, self.providers, draft);
            }
        } else if idx < self.providers.len() {
            self.providers[idx] = draft;
            assert(self.providers.deep_view() =~= old_ps.update(idx as int, ev.draft));
        }
        self.provider_editor = None;
        self.sync_provider_config();
    }

    /// Opens the form of provider `idx`, prefilled with its data (nothing when out of range).
    fn open_edit_provider_editor(&mut self, idx: usize)
        ensures
            final(self).panel() == open_edit_spec(old(self).panel(), idx as int),
            final(self).others_unchanged(&*old(self)),
    {
        if idx < self.providers.len() {
            let p = &self.providers[idx];
            assert(self.providers.deep_view()[idx as int] == p@);
            let sl = p.models.as_slice();
            let text = rebuild_models_text(sl);
            assert(sl.deep_view() =~= p.models.deep_view());
            let draft = p.duplicate();
            self.provider_popup = None;
            self.provider_editor = Some(ProviderEditor {
                is_new: false,
                index: idx,
                draft,
                field_focus: 6,
                models_text: text,
                models_fetching: false,
                model_mgr: None,
            });
        }
    }

    /// Keys on the open provider form without its model manager (see `form_key_spec`).
    #[verifier::rlimit(40)]
    fn handle_form_key(&mut self, key: KeyCode) -> (r: bool)
        requires
            old(self).provider_editor is Some,
            old(self).provider_editor->0.model_mgr is None,
        ensures
            (final(self).panel(), r) == form_key_spec(
                old(self).panel(),
                old(self).persistence_disabled,
                old(self).panel().editor->0,
                key,
            ),
            final(self).others_unchanged(&*old(self)),
    {
        let mut e = self.provider_editor.take().unwrap();
        match key {
            KeyCode::Esc => true,
            KeyCode::Tab | KeyCode::Down => {
                let nf = next_field(e.field_focus);
                editor_move_focus(&mut e, nf);
                self.provider_editor = Some(e);
                true
            },
            KeyCode::Up => {
                let pf = prev_field(e.field_focus);
                editor_move_focus(&mut e, pf);
                self.provider_editor = Some(e);
                true
            },
            KeyCode::Enter => {
                if e.field_focus == 5 {
                    let sl = e.draft.models.as_slice();
                    let merged = merge_models_text(e.models_text.as_str(), sl);
                    assert(sl.deep_view() =~= e.draft.models.deep_view());
                    e.draft.models = merged;
                    e.model_mgr = Some(ModelManager { cursor: 0, editor: None });
                    self.provider_editor = Some(e);
                } else {
                    self.commit_editor(e);
                }
                true
            },
            KeyCode::Backspace => {
                editor_field_pop(&mut e);
                self.provider_editor = Some(e);
                true
            },
            KeyCode::Char(c) => {
                if c == ' ' && e.field_focus == 6 {
                    let t = next_endpoint(e.draft.endpoint_type.as_str());
                    e.draft.endpoint_type = t;
                } else {
                    editor_field_push(&mut e, c);
                }
                self.provider_editor = Some(e);
                true
            },
            _ => {
                self.provider_editor = Some(e);
                false
            },
        }
    }

    /// Enter in the model manager (see `mgr_enter_spec`).
    #[verifier::rlimit(40)]
    fn manager_enter(&mut self)
        requires
            old(self).provider_editor is Some,
            old(self).provider_editor->0.model_mgr is Some,
        ensures
            final(self).panel() == mgr_enter_spec(
                old(self).panel(),
                old(self).persistence_disabled,
                old(self).panel().editor->0,
                old(self).panel().editor->0.model_mgr->0,
            ),
            final(self).others_unchanged(&*old(self)),
    {
        let mut e = self.provider_editor.take().unwrap();
        let mut m = e.model_mgr.take().unwrap();
        let ghost ms = e.draft.models.deep_view();
        let mc = e.draft.models.len();
        if m.cursor < mc {
            let md = &e.draft.models[m.cursor];
            assert(ms[m.cursor as int] == md@);
            m.editor = Some(ModelFieldEditor {
                field_focus: 0,
                draft_id: md.id.clone(),
                draft_tier: md.tier.clone(),
                draft_ctx: decimal_string(md.context_window as u64),
                model_index: m.cursor,
            });
            e.model_mgr = Some(m);
            self.provider_editor = Some(e);
        } else if m.cursor == mc {
            let nm = new_model_exec();
            let ghost before = e.draft.models;
            e.draft.models.push(nm);
            proof {
                crate::seqs::lemma_deep_view_push(before, e.draft.models, nm);
            }
            m.cursor = mc;
            m.editor = Some(ModelFieldEditor {
                field_focus: 0,
                draft_id: string_of("new-model"),
                draft_tier: string_of("T2"),
                draft_ctx: string_of("128000"),
                model_index: mc,
            });
            e.model_mgr = Some(m);
            self.provider_editor = Some(e);
        } else {
            let sl = e.draft.models.as_slice();
            let text = rebuild_models_text(sl);
            assert(sl.deep_view() =~= e.draft.models.deep_view());
            e.models_text = text;
            self.commit_editor(e);
        }
    }

    /// Delete or Backspace in the model manager (see `mgr_delete_spec`).
    fn manager_delete(&mut self)
        requires
            old(self).provider_editor is Some,
            old(self).provider_editor->0.model_mgr is Some,
        ensures
            final(self).panel() == mgr_delete_spec(
                old(self).panel(),
                old(self).panel().editor->0,
                old(self).panel().editor->0.model_mgr->0,
            ),
            final(self).others_unchanged(&*old(self)),
    {
        let mut e = self.provider_editor.take().unwrap();
        let mut m = e.model_mgr.take().unwrap();
        let ghost ms = e.draft.models.deep_view();
        if m.cursor < e.draft.models.len() {
            e.draft.models.remove(m.cursor);
            assert(e.draft.models.deep_view() =~= ms.remove(m.cursor as int));
            if m.cursor > 0 && m.cursor >= e.draft.models.len() {
                m.cursor = e.draft.models.len();
            }
        }
        e.model_mgr = Some(m);
        self.provider_editor = Some(e);
    }

    /// Space in the model manager (see `mgr_toggle_spec`).
    fn manager_toggle(&mut self)
        requires
            old(self).provider_editor is Some,
            old(self).provider_editor->0.model_mgr is Some,
        ensures
            final(self).panel() == mgr_toggle_spec(
                old(self).panel(),
                old(self).panel().editor->0,
                old(self).panel().editor->0.model_mgr->0,
            ),
            final(self).others_unchanged(&*old(self)),
    {
        let mut e = self.provider_editor.take().unwrap();
        let m = e.model_mgr.take().unwrap();
        let ghost ms = e.draft.models.deep_view();
        if m.cursor < e.draft.models.len() {
            let was = e.draft.models[m.cursor].enabled;
            e.draft.models[m.cursor].enabled = !was;
            assert(e.draft.models.deep_view() =~= ms.update(
                m.cursor as int,
                ModelView { enabled: !was, ..ms[m.cursor as int] },
            ));
        }
        e.model_mgr = Some(m);
        self.provider_editor = Some(e);
    }

    /// Moves the model manager's cursor up or down (see `mgr_up_spec`, `mgr_down_spec`).
    fn manager_move(&mut self, down: bool)
        requires
            old(self).provider_editor is Some,
            old(self).provider_editor->0.model_mgr is Some,
            old(self).provider_editor->0.draft.models@.len() < usize::MAX,
        ensures
            down ==> final(self).panel() == mgr_down_spec(
                old(self).panel(),
                old(self).panel().editor->0,
                old(self).panel().editor->0.model_mgr->0,
            ),
            !down ==> final(self).panel() == mgr_up_spec(
                old(self).panel(),
                old(self).panel().editor->0,
                old(self).panel().editor->0.model_mgr->0,
            ),
            final(self).others_unchanged(&*old(self)),
    {
        let mut e = self.provider_editor.take().unwrap();
        let mut m = e.model_mgr.take().unwrap();
        let mc = e.draft.models.len();
        if down {
            if m.cursor <= mc {
                m.cursor = m.cursor + 1;
            }
        } else if m.cursor > 0 {
            m.cursor = m.cursor - 1;
        }
        e.model_mgr = Some(m);
        self.provider_editor = Some(e);
    }

    /// Esc in the model manager (see `mgr_esc_spec`).
    fn manager_esc(&mut self)
        requires
            old(self).provider_editor is Some,
        ensures
            final(self).panel() == mgr_esc_spec(old(self).panel(), old(self).panel().editor->0),
            final(self).others_unchanged(&*old(self)),
    {
        let mut e = self.provider_editor.take().unwrap();
        let sl = e.draft.models.as_slice();
        let text = rebuild_models_text(sl);
        assert(sl.deep_view() =~= e.draft.models.deep_view());
        e.models_text = text;
        e.model_mgr = None;
        self.provider_editor = Some(e);
    }

    /// Keys on the model manager of the open form (see `manager_key_spec`).
    fn handle_model_manager_key(&mut self, key: KeyCode) -> (r: bool)
        requires
            old(self).provider_editor is Some,
            old(self).provider_editor->0.model_mgr is Some,
            old(self).provider_editor->0.model_mgr->0.editor is None,
            old(self).provider_editor->0.draft.models@.len() < usize::MAX,
        ensures
            (final(self).panel(), r) == manager_key_spec(
                old(self).panel(),
                old(self).persistence_disabled,
                old(self).panel().editor->0,
                old(self).panel().editor->0.model_mgr->0,
                key,
            ),
            final(self).others_unchanged(&*old(self)),
    {
        match key {
            KeyCode::Up => {
                self.manager_move(false);
                true
            },
            KeyCode::Down => {
                self.manager_move(true);
                true
            },
            KeyCode::Enter => {
                self.manager_enter();
                true
            },
            KeyCode::Delete | KeyCode::Backspace => {
                self.manager_delete();
                true
            },
            KeyCode::Char(c) => {
                if c == 'k' {
                    self.manager_move(false);
                    true
                } else if c == 'j' {
                    self.manager_move(true);
                    true
                } else if c == ' ' {
                    self.manager_toggle();
                    true
                } else {
                    false
                }
            },
            KeyCode::Tab => true,
            KeyCode::Esc => {
                self.manager_esc();
                true
            },
            _ => false,
        }
    }

    /// Keys on the model field editor (see `field_editor_key_spec`).
    #[verifier::rlimit(60)]
    fn handle_model_field_editor_key(&mut self, key: KeyCode) -> (r: bool)
        requires
            old(self).provider_editor is Some,
            old(self).provider_editor->0.model_mgr is Some,
            old(self).provider_editor->0.model_mgr->0.editor is Some,
        ensures
            (final(self).panel(), r) == field_editor_key_spec(
                old(self).panel(),
                old(self).panel().editor->0,
                old(self).panel().editor->0.model_mgr->0,
                old(self).panel().editor->0.model_mgr->0.editor->0,
                key,
            ),
            final(self).others_unchanged(&*old(self)),
    {
        let mut e = self.provider_editor.take().unwrap();
        let mut m = e.model_mgr.take().unwrap();
        let mut fe = m.editor.take().unwrap();
        let ghost ms = e.draft.models.deep_view();
        let mut keep = true;
        let handled = match key {
            KeyCode::Up => {
                fe.field_focus = if fe.field_focus < 3 {
                    (fe.field_focus + 2) % 3
                } else {
                    2
                };
                true
            },
            KeyCode::Down | KeyCode::Tab => {
                fe.field_focus = if fe.field_focus < 3 {
                    (fe.field_focus + 1) % 3
                } else {
                    1
                };
                true
            },
            KeyCode::Enter => {
                let tu = to_uppercase(fe.draft_tier.as_str());
                let tid = trim(fe.draft_id.as_str());
                let cv = chars_of(fe.draft_ctx.as_str());
                let ctx = parse_unsigned(&cv, 0xffff_ffff);
                if tid.as_str().is_empty() {
                    fe.field_focus = 0;
                } else if !(str_eq(tu.as_str(), "T1") || str_eq(tu.as_str(), "T2") || str_eq(tu.as_str(), "T3")) {
                    fe.field_focus = 1;
                } else {
                    match ctx {
                        Some(v) if v > 0 => {
                            if fe.model_index < e.draft.models.len() {
                                let is_t1 = str_eq(tu.as_str(), "T1");
                                let nm = ModelInfo {
                                    id: tid,
                                    name: String::new(),
                                    context_window: v as u32,
                                    reasoning: !is_t1,
                                    tier: tu,
                                    enabled: true,
                                    thinking_level_map: None,
                                };
                                let ghost nmv = nm@;
                                e.draft.models[fe.model_index] = nm;
                                assert(e.draft.models.deep_view() =~= ms.update(fe.model_index as int, nmv));
                            }
                            keep = false;
                        },
                        _ => {
                            fe.field_focus = 2;
                        },
                    }
                }
                true
            },
            KeyCode::Esc => {
                keep = false;
                true
            },
            KeyCode::Backspace => {
                fe_pop_exec(&mut fe);
                true
            },
            KeyCode::Char(c) => {
                fe_push_exec(&mut fe, c);
                true
            },
            _ => false,
        };
        if keep {
            m.editor = Some(fe);
        }
        e.model_mgr = Some(m);
        self.provider_editor = Some(e);
        handled
    }

    /// Keys while a provider form is open (see `editor_key_spec`).
    fn handle_provider_editor_key(&mut self, key: KeyCode) -> (r: bool)
        requires
            old(self).provider_editor is Some,
            panel_fits(old(self).panel()),
        ensures
            (final(self).panel(), r) == editor_key_spec(old(self).panel(), old(self).persistence_disabled, key),
            final(self).others_unchanged(&*old(self)),
    {
        let has_mgr = self.provider_editor.as_ref().unwrap().model_mgr.is_some();
        if has_mgr {
            let has_fe = self.provider_editor.as_ref().unwrap().model_mgr.as_ref().unwrap().editor.is_some();
            if has_fe {
                self.handle_model_field_editor_key(key)
            } else {
                self.handle_model_manager_key(key)
            }
        } else {
            self.handle_form_key(key)
        }
    }

    /// A key on the open provider popup (see `popup_key_spec`).
    fn handle_popup_key(&mut self, key: KeyCode) -> (r: bool)
        requires
            old(self).provider_popup is Some,
        ensures
            (final(self).panel(), r) == popup_key_spec(old(self).panel(), key),
            final(self).others_unchanged(&*old(self)),
    {
        let ghost ps = self.providers.deep_view();
        let pi = self.provider_popup.unwrap();
        match key {
            KeyCode::Esc => {
                self.provider_popup = None;
                true
            },
            KeyCode::Enter => {
                if pi < self.providers.len() && self.providers[pi].models.len() > 0 {
                    assert(ps[pi as int] == self.providers@[pi as int]@);
                    assert(ps[pi as int].models[0] == self.providers@[pi as int].models@[0]@);
                    let id = self.providers[pi].models[0].id.clone();
                    self.active_provider_idx = Some(pi);
                    self.current_model = id;
                    self.model_just_switched = true;
                } else {
                    assert(pi < ps.len() ==> ps[pi as int] == self.providers@[pi as int]@);
                }
                self.provider_popup = None;
                true
            },
            _ => false,
        }
    }

    /// Enter on the provider list (see `list_enter_spec`).
    fn list_enter(&mut self)
        requires
            old(self).provider_editor is None,
        ensures
            final(self).panel() == list_enter_spec(old(self).panel()),
            final(self).others_unchanged(&*old(self)),
    {
        let n = self.providers.len();
        let c = self.provider_cursor;
        if c == 0 {
            return;
        }
        if c - 1 == n || n == 0 {
            self.provider_popup = None;
            self.provider_editor = Some(ProviderEditor {
                is_new: true,
                index: n,
                draft: ProviderInfo::default(),
                field_focus: 6,
                models_text: String::new(),
                models_fetching: false,
                model_mgr: None,
            });
        } else {
            self.open_edit_provider_editor(c - 1);
        }
    }

    /// Space on provider row `pi` (see `choose_provider_spec`).
    fn choose_provider(&mut self, pi: usize)
        requires
            pi < old(self).providers@.len(),
        ensures
            final(self).panel() == choose_provider_spec(old(self).panel(), pi),
            final(self).others_unchanged(&*old(self)),
    {
        let ghost ps = self.providers.deep_view();
        assert(ps[pi as int] == self.providers@[pi as int]@);
        if self.active_provider_idx == Some(pi) {
            self.active_provider_idx = None;
            self.current_model = String::new();
        } else if self.providers[pi].models.len() > 0 {
            assert(ps[pi as int].models[0] == self.providers@[pi as int].models@[0]@);
            let id = self.providers[pi].models[0].id.clone();
            self.active_provider_idx = Some(pi);
            self.current_model = id;
        }
        self.model_just_switched = true;
    }

    /// `d` on provider row `c` (see `toggle_enabled_spec`).
    fn toggle_enabled(&mut self, c: usize)
        requires
            c < old(self).providers@.len(),
        ensures
            final(self).panel() == toggle_enabled_spec(old(self).panel(), old(self).persistence_disabled, c),
            final(self).others_unchanged(&*old(self)),
    {
        let ghost ps = self.providers.deep_view();
        assert(ps[c as int] == self.providers@[c as int]@);
        let was = self.providers[c].enabled;
        self.providers[c].enabled = !was;
        assert(self.providers.deep_view() =~= ps.update(
            c as int,
            ProviderView { enabled: !was, ..ps[c as int] },
        ));
        if was && self.active_provider_idx == Some(c) {
            self.active_provider_idx = None;
            self.current_model = String::new();
        }
        self.sync_provider_config();
    }

    /// `+` on the provider list (see `add_template_spec`).
    fn add_template(&mut self)
        ensures
            final(self).panel() == add_template_spec(old(self).panel(), old(self).persistence_disabled),
            final(self).others_unchanged(&*old(self)),
    {
        let t = template_provider_exec();
        let ghost before = self.providers;
        self.providers.push(t);
        proof {
            crate::seqs::lemma_deep_view_push(before, self.providers, t);
        }
        self.sync_provider_config();
    }

    /// A key on the provider list (see `list_key_spec`).
    fn handle_list_key(&mut self, key: KeyCode) -> (r: bool)
        requires
            old(self).provider_editor is None,
            old(self).providers@.len() < usize::MAX,
        ensures
            (final(self).panel(), r) == list_key_spec(old(self).panel(), old(self).persistence_disabled, key),
            final(self).others_unchanged(&*old(self)),
    {
        let n = self.providers.len();
        let c = self.provider_cursor;
        let on_provider = n > 0 && c > 0 && c <= n;
        match key {
            KeyCode::Up => {
                if c > 0 {
                    self.provider_cursor = c - 1;
                }
                true
            },
            KeyCode::Down => {
                if c <= n {
                    self.provider_cursor = c + 1;
                }
                true
            },
            KeyCode::Enter => {
                self.list_enter();
                true
            },
            KeyCode::Char(' ') if on_provider => {
                self.choose_provider(c - 1);
                true
            },
            KeyCode::Char('e') if on_provider => {
                self.open_edit_provider_editor(c - 1);
                true
            },
            KeyCode::Char('d') if n > 0 && c < n => {
                self.toggle_enabled(c);
                true
            },
            KeyCode::Left | KeyCode::Esc => true,
            KeyCode::Char('+') => {
                self.add_template();
                true
            },
            _ => false,
        }
    }

    /// Handles a key in the provider section (see `provider_key_spec`):
    /// moves the cursor, opens the form of a provider or of a new one,
    /// chooses a provider with Space, toggles it with `d`, adds a template
    /// provider with `+`, and drives the open form, its model manager and its
    /// model field editor. Returns whether the key was handled.
    pub fn handle_provider_key(&mut self, key: KeyCode) -> (r: bool)
        requires
            panel_fits(old(self).panel()),
        ensures
            (final(self).panel(), r) == provider_key_spec(old(self).panel(), old(self).persistence_disabled, key),
            final(self).others_unchanged(&*old(self)),
    {
        if self.provider_editor.is_some() {
            self.handle_provider_editor_key(key)
        } else if self.provider_popup.is_some() {
            self.handle_popup_key(key)
        } else {
            self.handle_list_key(key)
        }
    }
}

/// `v` modulo `n` as a value in `0..n` (Euclidean remainder).
fn euclid_mod(v: i64, n: u64) -> (r: usize)
    requires
        0 < n <= 4,
        v > i64::MIN,
    ensures
        r as int == v as int % n as int,
        r < n,
{
    if v >= 0 {
        let m = (v as u64) % n;
        m as usize
    } else {
        let w: u64 = (-v) as u64;
        let k = w % n;
        let q = w / n;
        proof {
            let vi = v as int;
            let ni = n as int;
            vstd::arithmetic::div_mod::lemma_fundamental_div_mod(w as int, ni);
            assert(w as int == ni * (q as int) + (k as int));
            if k == 0 {
                assert(vi == (-(q as int)) * ni + 0) by (nonlinear_arith)
                    requires
                        vi == -(w as int),
                        w as int == ni * (q as int) + (k as int),
                        k == 0,
                ;
                vstd::arithmetic::div_mod::lemma_fundamental_div_mod_converse(vi, ni, -(q as int), 0);
            } else {
                assert(vi == (-(q as int) - 1) * ni + (ni - k)) by (nonlinear_arith)
                    requires
                        vi == -(w as int),
                        w as int == ni * (q as int) + (k as int),
                ;
                vstd::arithmetic::div_mod::lemma_fundamental_div_mod_converse(
                    vi,
                    ni,
                    -(q as int) - 1,
                    ni - k,
                );
            }
        }
        if k == 0 {
            0
        } else {
            (n - k) as usize
        }
    }
}

/// The panels in focus order.
pub open spec fn panel_order() -> Seq<FocusPanel> {
    seq![FocusPanel::Sidebar, FocusPanel::MainView, FocusPanel::AgentPanel]
}

/// The position of a panel in focus order.
pub open spec fn panel_pos(p: FocusPanel) -> int {
    match p {
        FocusPanel::Sidebar => 0,
        FocusPanel::MainView => 1,
        FocusPanel::AgentPanel => 2,
    }
}

/// The sidebar sections in focus order.
pub open spec fn sidebar_order() -> Seq<SidebarSubsection> {
    seq![SidebarSubsection::ActiveSession, SidebarSubsection::Workspace, SidebarSubsection::Provider, SidebarSubsection::Model]
}

/// The position of a sidebar section in focus order.
pub open spec fn sidebar_pos(s: SidebarSubsection) -> int {
    match s {
        SidebarSubsection::ActiveSession => 0,
        SidebarSubsection::Workspace => 1,
        SidebarSubsection::Provider => 2,
        SidebarSubsection::Model => 3,
    }
}

/// The agent panel sections in focus order.
pub open spec fn agent_order() -> Seq<AgentPanelSubsection> {
    seq![AgentPanelSubsection::Agents, AgentPanelSubsection::Skills, AgentPanelSubsection::Mcps, AgentPanelSubsection::Tasks]
}

/// The position of an agent panel section in focus order.
pub open spec fn agent_pos(s: AgentPanelSubsection) -> int {
    match s {
        AgentPanelSubsection::Agents => 0,
        AgentPanelSubsection::Skills => 1,
        AgentPanelSubsection::Mcps => 2,
        AgentPanelSubsection::Tasks => 3,
    }
}

/// The main view sections in focus order: messages, then input.
pub open spec fn main_pos(s: MainViewSubsection) -> int {
    match s {
        MainViewSubsection::Messages => 0,
        MainViewSubsection::Input => 1,
    }
}

impl TuiState {
    /// Moves the workspace cursor by `delta` rows, staying on the rows of
    /// the section (title and tree).
    pub fn sidebar_move(&mut self, delta: i32)
        requires
            1 + tree_rows(old(self).workspaces@) <= i32::MAX,
            old(self).sidebar_cursor <= i32::MAX,
            i32::MIN <= old(self).sidebar_cursor + delta <= i32::MAX,
        ensures
            ({
                let total = 1 + tree_rows(old(self).workspaces@);
                let v = old(self).sidebar_cursor + delta;
                final(self).sidebar_cursor == (if v < 0 { 0 } else if v > total - 1 { total - 1 } else { v })
            }),
            final(self).workspaces == old(self).workspaces,
            final(self).panel() == old(self).panel(),
            final(self).focus_panel == old(self).focus_panel,
    {
        let total = self.sidebar_visible_count();
        let v: i64 = self.sidebar_cursor as i64 + delta as i64;
        let last: i64 = total as i64 - 1;
        let n = if v < 0 {
            0
        } else if v > last {
            last
        } else {
            v
        };
        self.sidebar_cursor = n as usize;
    }

    /// Moves the focus to the next panel (`dir` = 1) or the previous one
    /// (`dir` = -1), cycling through sidebar, main view and agent panel.
    pub fn cycle_focus_panel(&mut self, dir: i32)
        requires
            dir < i32::MAX - 2,
        ensures
            final(self).focus_panel == panel_order()[(panel_pos(old(self).focus_panel) + dir) % 3],
            final(self).panel() == old(self).panel(),
            final(self).sidebar_subsection == old(self).sidebar_subsection,
    {
        let idx: i64 = match self.focus_panel {
            FocusPanel::Sidebar => 0,
            FocusPanel::MainView => 1,
            FocusPanel::AgentPanel => 2,
        };
        let m = euclid_mod(idx + dir as i64, 3);
        self.focus_panel = if m == 0 {
            FocusPanel::Sidebar
        } else if m == 1 {
            FocusPanel::MainView
        } else {
            FocusPanel::AgentPanel
        };
    }

    /// Moves the focus between the sections of the focused panel (`dir` = 1
    /// down, -1 up), cycling.
    pub fn cycle_focus_subsection(&mut self, dir: i32)
        requires
            dir < i32::MAX - 3,
        ensures
            old(self).focus_panel == FocusPanel::Sidebar ==> final(self).sidebar_subsection
                == sidebar_order()[(sidebar_pos(old(self).sidebar_subsection) + dir) % 4],
            old(self).focus_panel == FocusPanel::MainView ==> main_pos(final(self).main_view_subsection)
                == (main_pos(old(self).main_view_subsection) + dir) % 2,
            old(self).focus_panel == FocusPanel::AgentPanel ==> final(self).agent_panel_subsection
                == agent_order()[(agent_pos(old(self).agent_panel_subsection) + dir) % 4],
            old(self).focus_panel != FocusPanel::Sidebar ==> final(self).sidebar_subsection == old(self).sidebar_subsection,
            old(self).focus_panel != FocusPanel::MainView ==> final(self).main_view_subsection == old(self).main_view_subsection,
            old(self).focus_panel != FocusPanel::AgentPanel ==> final(self).agent_panel_subsection == old(self).agent_panel_subsection,
            final(self).focus_panel == old(self).focus_panel,
            final(self).panel() == old(self).panel(),
    {
        match self.focus_panel {
            FocusPanel::Sidebar => {
                let idx: i64 = match self.sidebar_subsection {
                    SidebarSubsection::ActiveSession => 0,
                    SidebarSubsection::Workspace => 1,
                    SidebarSubsection::Provider => 2,
                    SidebarSubsection::Model => 3,
                };
                let m = euclid_mod(idx + dir as i64, 4);
                self.sidebar_subsection = if m == 0 {
                    SidebarSubsection::ActiveSession
                } else if m == 1 {
                    SidebarSubsection::Workspace
                } else if m == 2 {
                    SidebarSubsection::Provider
                } else {
                    SidebarSubsection::Model
                };
            },
            FocusPanel::MainView => {
                let idx: i64 = match self.main_view_subsection {
                    MainViewSubsection::Messages => 0,
                    MainViewSubsection::Input => 1,
                };
                let m = euclid_mod(idx + dir as i64, 2);
                self.main_view_subsection = if m == 0 {
                    MainViewSubsection::Messages
                } else {
                    MainViewSubsection::Input
                };
            },
            FocusPanel::AgentPanel => {
                let idx: i64 = match self.agent_panel_subsection {
                    AgentPanelSubsection::Agents => 0,
                    AgentPanelSubsection::Skills => 1,
                    AgentPanelSubsection::Mcps => 2,
                    AgentPanelSubsection::Tasks => 3,
                };
                let m = euclid_mod(idx + dir as i64, 4);
                self.agent_panel_subsection = if m == 0 {
                    AgentPanelSubsection::Agents
                } else if m == 1 {
                    AgentPanelSubsection::Skills
                } else if m == 2 {
                    AgentPanelSubsection::Mcps
                } else {
                    AgentPanelSubsection::Tasks
                };
            },
        }
    }

    /// Expands or folds workspace `index`; returns whether it exists (and
    /// so whether the interface state is to be saved).
    pub fn toggle_workspace(&mut self, index: usize) -> (r: bool)
        ensures
            r == (index < old(self).workspaces@.len()),
            r ==> final(self).workspaces@ == old(self).workspaces@.update(
                index as int,
                WorkspaceNode { expanded: !old(self).workspaces@[index as int].expanded, ..old(self).workspaces@[index as int] },
            ),
            !r ==> final(self).workspaces@ == old(self).workspaces@,
            final(self).panel() == old(self).panel(),
    {
        if index < self.workspaces.len() {
            let was = self.workspaces[index].expanded;
            self.workspaces[index].expanded = !was;
            true
        } else {
            false
        }
    }
}

} // verus!
