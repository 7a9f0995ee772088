//! The keyboard decisions of the workbench's main loop: what a key press
//! does to the interface state, and which action or request it asks the
//! application to carry out.

use vstd::prelude::*;
use crate::action::Action;
use crate::components::Popup;
use crate::main_view::MainView;
use crate::message::{BlockRef, ChatRole, CompletionItem, CompletionPopup, EnteredView, RefView, block_refs_spec, build_block_refs};
use crate::state::{AgentPanelSubsection, FocusPanel, MainViewSubsection, ScrollMode, SelectionPanel, SelectionState, SidebarSubsection};
use crate::strs::{pop_char, push_char, string_of, text_is_empty, trim, trim_spec};
use crate::tui_state::{KeyCode, TuiState, panel_fits, sidebar_item_spec};

verus! {

/// A key press: the key and whether Alt or Control was held.
#[derive(Debug, Clone, Copy)]
pub struct KeyPress {
    pub code: KeyCode,
    pub alt: bool,
    pub ctrl: bool,
}

/// What the application is to do after a key press.
#[derive(Debug, Clone)]
pub enum KeyOutcome {
    /// Nothing more.
    Done,
    /// Leave the interface.
    Quit,
    /// Ask the agent to abort its turn; the agent is then idle.
    Abort,
    /// Carry out an action.
    Act(Action),
    /// Submit a prompt: add it as a user message and send it to the agent.
    Submit(String),
    /// The provider section handled the key: start fetching a model list if
    /// the open form asks for one.
    Provider,
    /// The model section handled the key: tell the agent about a newly
    /// chosen model.
    Model,
}

/// The title of the popup that shows a message, by its role.
pub open spec fn role_title(r: ChatRole) -> Seq<char> {
    match r {
        ChatRole::User => "你"@,
        ChatRole::Assistant => "pi"@,
        ChatRole::Tool => "工具"@,
        ChatRole::System => "系统"@,
        ChatRole::Error => "错误"@,
    }
}

/// The title of the popup that shows a message (see `role_title`).
fn role_title_of(r: ChatRole) -> (s: String)
    ensures
        s@ == role_title(r),
{
    match r {
        ChatRole::User => string_of("你"),
        ChatRole::Assistant => string_of("pi"),
        ChatRole::Tool => string_of("工具"),
        ChatRole::System => string_of("系统"),
        ChatRole::Error => string_of("错误"),
    }
}

/// One step up or down a list of `total` entries from `cur`: up stops at the
/// first entry, down at the last (or at `limit` entries); nothing moves on an
/// empty list.
pub open spec fn step_cursor(cur: usize, total: nat, up: bool, limit: nat) -> usize {
    if total == 0 {
        cur
    } else if up {
        if cur > 0 { (cur - 1) as usize } else { cur }
    } else if cur + 1 < total && cur + 1 < limit {
        (cur + 1) as usize
    } else {
        cur
    }
}

/// Moving down a list goes to the next entry whenever there is one within
/// the limit, so every entry up to the limit, the last included, can be
/// reached; moving up goes to the previous entry, and undoes a move down; a
/// cursor inside the list stays inside it.
pub proof fn lemma_step_cursor_moves(cur: usize, total: nat, limit: nat)
    ensures
        cur + 1 < total && cur + 1 < limit && cur < usize::MAX ==> step_cursor(cur, total, false, limit) == cur + 1,
        cur + 1 < total && cur + 1 < limit && cur < usize::MAX ==> step_cursor(
            step_cursor(cur, total, false, limit),
            total,
            true,
            limit,
        ) == cur,
        total > 0 && cur > 0 ==> step_cursor(cur, total, true, limit) == cur - 1,
        cur < total ==> step_cursor(cur, total, false, limit) < total && step_cursor(cur, total, true, limit) < total,
        cur < usize::MAX ==> step_cursor(cur, total, false, limit) >= cur,
        step_cursor(cur, total, true, limit) <= cur,
{
}

/// From the first entry, `k` moves down reach entry `k` of a list of
/// `total` entries shown up to `limit`, whenever `k` is below both.
pub proof fn lemma_step_cursor_reaches(total: nat, limit: nat, k: nat)
    requires
        k < total,
        k < limit,
        k <= usize::MAX,
    ensures
        steps_down(0, total, limit, k) == k,
    decreases k,
{
    if k > 0 {
        lemma_step_cursor_reaches(total, limit, (k - 1) as nat);
    }
}

/// The cursor after `k` moves down from `cur`.
pub open spec fn steps_down(cur: usize, total: nat, limit: nat, k: nat) -> usize
    decreases k,
{
    if k == 0 {
        cur
    } else {
        step_cursor(steps_down(cur, total, limit, (k - 1) as nat), total, false, limit)
    }
}

/// Moves a list cursor one step (see `step_cursor`).
fn step(cur: usize, total: usize, up: bool, limit: usize) -> (r: usize)
    ensures
        r == step_cursor(cur, total as nat, up, limit as nat),
        total == 0 ==> r == cur,
        total > 0 && up ==> r as int == (if cur > 0 { cur - 1 } else { 0 }),
        total > 0 && !up && cur + 1 < total && cur + 1 < limit ==> r == cur + 1,
        !up && !(cur + 1 < total && cur + 1 < limit) ==> r == cur,
{
    if total == 0 {
        cur
    } else if up {
        if cur > 0 { cur - 1 } else { cur }
    } else if cur < total - 1 && limit > 0 && cur < limit - 1 {
        cur + 1
    } else {
        cur
    }
}

/// The cursor of the agent panel section in focus moved by `code`
/// (up / down; other keys change nothing): subagents, skills (only the six
/// shown) or MCP servers.
pub fn agent_panel_key(tui: &mut TuiState, code: KeyCode)
    ensures
        agent_panel_effect(*old(tui), *final(tui), code),

{
    let up = code == KeyCode::Up;
    if code != KeyCode::Up && code != KeyCode::Down {
        return;
    }
    match tui.agent_panel_subsection {
        AgentPanelSubsection::Agents => {
            let n = tui.subagents.len();
            tui.agent_cursor = step(tui.agent_cursor, n, up, n);
        },
        AgentPanelSubsection::Skills => {
            let n = tui.skills.len();
            tui.skill_cursor = step(tui.skill_cursor, n, up, 6);
        },
        AgentPanelSubsection::Mcps => {
            let n = tui.mcps.len();
            tui.mcp_cursor = step(tui.mcp_cursor, n, up, n);
        },
        AgentPanelSubsection::Tasks => {},
    }
}


/// The main views agree on the message list and its display settings.
pub open spec fn mv_rest_same(a: &MainView, b: &MainView) -> bool {
    &&& a.messages@ == b.messages@
    &&& a.scroll_offset == b.scroll_offset
    &&& a.show_thinking == b.show_thinking
    &&& a.has_focus == b.has_focus
    &&& a.subsection == b.subsection
    &&& a.message_cursor == b.message_cursor
    &&& a.scroll_mode == b.scroll_mode
    &&& a.selection == b.selection
}

/// The interface states agree on everything but the message cursor, the
/// scroll mode and the main view section.
pub open spec fn tui_rest_same(a: &TuiState, b: &TuiState) -> bool {
    &&& a.panel() == b.panel()
    &&& a.active_session == b.active_session
    &&& a.current_time == b.current_time
    &&& a.workspaces == b.workspaces
    &&& a.focus_panel == b.focus_panel
    &&& a.sidebar_cursor == b.sidebar_cursor
    &&& a.active_session_cursor == b.active_session_cursor
    &&& a.last_enter_session == b.last_enter_session
    &&& a.sidebar_subsection == b.sidebar_subsection
    &&& a.agent_panel_subsection == b.agent_panel_subsection
    &&& a.agent_cursor == b.agent_cursor
    &&& a.selection == b.selection
    &&& a.subagents == b.subagents
    &&& a.router_running == b.router_running
    &&& a.router_port == b.router_port
    &&& a.skills == b.skills
    &&& a.skill_cursor == b.skill_cursor
    &&& a.mcps == b.mcps
    &&& a.mcp_cursor == b.mcp_cursor
    &&& a.persistence_disabled == b.persistence_disabled
    &&& a.pending_ai_prompt == b.pending_ai_prompt
    &&& a.workspace_rename == b.workspace_rename
    &&& a.rename_input == b.rename_input
    &&& a.confirm_delete == b.confirm_delete
    &&& a.session_names == b.session_names
    &&& a.snapshot_pending == b.snapshot_pending
}

/// The interface states agree on everything but the agent panel cursors.
pub open spec fn same_but_agent_cursors(a: &TuiState, b: &TuiState) -> bool {
    &&& a.panel() == b.panel()
    &&& a.active_session == b.active_session
    &&& a.current_time == b.current_time
    &&& a.workspaces == b.workspaces
    &&& a.focus_panel == b.focus_panel
    &&& a.sidebar_cursor == b.sidebar_cursor
    &&& a.active_session_cursor == b.active_session_cursor
    &&& a.last_enter_session == b.last_enter_session
    &&& a.sidebar_subsection == b.sidebar_subsection
    &&& a.main_view_subsection == b.main_view_subsection
    &&& a.agent_panel_subsection == b.agent_panel_subsection
    &&& a.message_cursor == b.message_cursor
    &&& a.scroll_mode == b.scroll_mode
    &&& a.selection == b.selection
    &&& a.subagents == b.subagents
    &&& a.router_running == b.router_running
    &&& a.router_port == b.router_port
    &&& a.skills == b.skills
    &&& a.mcps == b.mcps
    &&& a.persistence_disabled == b.persistence_disabled
    &&& a.pending_ai_prompt == b.pending_ai_prompt
    &&& a.workspace_rename == b.workspace_rename
    &&& a.rename_input == b.rename_input
    &&& a.confirm_delete == b.confirm_delete
    &&& a.session_names == b.session_names
    &&& a.snapshot_pending == b.snapshot_pending
}

/// The interactive blocks of the message list.
pub open spec fn refs_of(mv: &MainView) -> Seq<RefView> {
    block_refs_spec(mv.messages.deep_view())
}

/// The interactive blocks of the message list (see `refs_of`).
fn blocks_of(mv: &MainView) -> (r: Vec<BlockRef>)
    ensures
        r.deep_view() == refs_of(mv),
        r@.len() == refs_of(mv).len(),
{
    let s = mv.messages.as_slice();
    assert(s.deep_view() =~= mv.messages.deep_view());
    build_block_refs(s)
}

/// Alt+Up / Alt+Down on the message list: the block cursor moves one block
/// up (not past the first block) or down (not past the last), and the
/// message cursor follows to the block's message, pinned.
pub fn block_nav(tui: &mut TuiState, mv: &mut MainView, up: bool)
    ensures
        block_nav_effect(*old(tui), *final(tui), &*old(mv), &*final(mv), up),

{
    let blocks = blocks_of(mv);
    let cur = mv.block_cursor;
    let target: Option<usize> = if up {
        if cur > 0 && blocks.len() > 0 { Some(cur - 1) } else { None }
    } else if cur < blocks.len() && cur + 1 < blocks.len() {
        Some(cur + 1)
    } else {
        None
    };
    match target {
        Some(t) => {
            mv.block_cursor = t;
            if t < blocks.len() {
                assert(blocks@[t as int].deep_view() == refs_of(&*old(mv))[t as int]);
                tui.message_cursor = blocks[t].msg_index;
                tui.scroll_mode = ScrollMode::Pinned;
            }
        },
        None => {},
    }
}


/// Esc: closes the innermost thing open — the completion popup; else the
/// entered block (by the `ExitBlock` action); else, in the provider form, its
/// model manager (as the provider keys do) or the form itself; else the
/// provider popup; else the message popup.
pub fn esc_key(tui: &mut TuiState, mv: &mut MainView, popup: &mut Popup) -> (r: KeyOutcome)
    requires
        panel_fits(old(tui).panel()),
    ensures
        esc_effect(*old(tui), *final(tui), &*old(mv), &*final(mv), *old(popup), *final(popup), r),

{
    if mv.completion_popup.is_some() {
        mv.completion_popup = None;
        return KeyOutcome::Done;
    }
    if mv.entered_view.is_some() {
        return KeyOutcome::Act(Action::ExitBlock);
    }
    let has_editor = tui.provider_editor.is_some();
    if has_editor {
        let has_mgr = match &tui.provider_editor {
            Some(e) => e.model_mgr.is_some(),
            None => false,
        };
        if has_mgr {
            let _ = tui.handle_provider_key(KeyCode::Esc);
        } else {
            tui.provider_editor = None;
        }
    } else if tui.provider_popup.is_some() {
        tui.provider_popup = None;
    } else if popup.visible {
        popup.visible = false;
    }
    KeyOutcome::Done
}

/// The interface states agree on everything but the provider and model part.
pub open spec fn tui_rest_same_but_panel(a: &TuiState, b: &TuiState) -> bool {
    &&& a.active_session == b.active_session
    &&& a.current_time == b.current_time
    &&& a.workspaces == b.workspaces
    &&& a.focus_panel == b.focus_panel
    &&& a.sidebar_cursor == b.sidebar_cursor
    &&& a.active_session_cursor == b.active_session_cursor
    &&& a.last_enter_session == b.last_enter_session
    &&& a.sidebar_subsection == b.sidebar_subsection
    &&& a.main_view_subsection == b.main_view_subsection
    &&& a.agent_panel_subsection == b.agent_panel_subsection
    &&& a.agent_cursor == b.agent_cursor
    &&& a.message_cursor == b.message_cursor
    &&& a.scroll_mode == b.scroll_mode
    &&& a.selection == b.selection
    &&& a.subagents == b.subagents
    &&& a.router_running == b.router_running
    &&& a.router_port == b.router_port
    &&& a.skills == b.skills
    &&& a.skill_cursor == b.skill_cursor
    &&& a.mcps == b.mcps
    &&& a.mcp_cursor == b.mcp_cursor
    &&& a.persistence_disabled == b.persistence_disabled
    &&& a.pending_ai_prompt == b.pending_ai_prompt
    &&& a.workspace_rename == b.workspace_rename
    &&& a.rename_input == b.rename_input
    &&& a.confirm_delete == b.confirm_delete
    &&& a.session_names == b.session_names
    &&& a.snapshot_pending == b.snapshot_pending
}

/// A key on the workspace section: up and down move the cursor; Enter or
/// Space toggles the workspace under the cursor, or selects the session under
/// it.
pub fn workspace_key(tui: &TuiState, code: KeyCode) -> (r: KeyOutcome)
    ensures
        code == KeyCode::Up ==> (r matches KeyOutcome::Act(Action::SidebarMove(d)) && d == -1),
        code == KeyCode::Down ==> (r matches KeyOutcome::Act(Action::SidebarMove(d)) && d == 1),
        (code == KeyCode::Enter || code == KeyCode::Char(' ')) ==> match sidebar_item_spec(
            tui.workspaces@,
            tui.sidebar_cursor as int,
        ) {
            Some((true, wi, _)) => (r matches KeyOutcome::Act(Action::ToggleWorkspace(w)) && w == wi),
            Some((false, wi, Some(si))) => if wi < tui.workspaces@.len() && si < tui.workspaces@[wi as int].sessions@.len() {
                (r matches KeyOutcome::Act(Action::SelectSession(id)) && id@
                    == tui.workspaces@[wi as int].sessions@[si as int].id@)
            } else {
                r is Done
            },
            _ => r is Done,
        },
        !(code == KeyCode::Up || code == KeyCode::Down || code == KeyCode::Enter || code == KeyCode::Char(' '))
            ==> r is Done,
{
    match code {
        KeyCode::Up => KeyOutcome::Act(Action::SidebarMove(-1)),
        KeyCode::Down => KeyOutcome::Act(Action::SidebarMove(1)),
        KeyCode::Enter | KeyCode::Char(' ') => {
            match tui.sidebar_item_at(tui.sidebar_cursor) {
                Some((true, wi, _)) => KeyOutcome::Act(Action::ToggleWorkspace(wi)),
                Some((false, wi, Some(si))) => {
                    if wi < tui.workspaces.len() && si < tui.workspaces[wi].sessions.len() {
                        KeyOutcome::Act(Action::SelectSession(string_of(tui.workspaces[wi].sessions[si].id.as_str())))
                    } else {
                        KeyOutcome::Done
                    }
                },
                _ => KeyOutcome::Done,
            }
        },
        _ => KeyOutcome::Done,
    }
}


/// The entered view scrolled to `f(scroll)` when it is a full output view.
pub open spec fn scrolled(v: Option<crate::main_view::EnteredViewV>, up: bool) -> Option<crate::main_view::EnteredViewV> {
    match v {
        Some(crate::main_view::EnteredViewV::FullOutput { title, content, scroll }) => Some(
            crate::main_view::EnteredViewV::FullOutput {
                title,
                content,
                scroll: if up {
                    if scroll > 0 { (scroll - 1) as usize } else { 0 }
                } else {
                    (scroll + 1) as usize
                },
            },
        ),
        other => other,
    }
}

/// A full output view can scroll down one more line.
pub open spec fn scroll_fits(v: Option<EnteredView>) -> bool {
    v matches Some(EnteredView::FullOutput { scroll, .. }) ==> scroll < usize::MAX
}

/// Scrolls an entered full output view one line (see `scrolled`).
fn scroll_entered(mv: &mut MainView, up: bool)
    requires
        scroll_fits(old(mv).entered_view),
    ensures
        final(mv).entered_view.deep_view() == scrolled(old(mv).entered_view.deep_view(), up),
        mv_rest_same(&*final(mv), &*old(mv)),
        final(mv).input_buffer@ == old(mv).input_buffer@,
        final(mv).block_cursor == old(mv).block_cursor,
        final(mv).block_states@ == old(mv).block_states@,
        final(mv).completion_popup == old(mv).completion_popup,
{
    let v = mv.entered_view.take();
    mv.entered_view = match v {
        Some(EnteredView::FullOutput { title, content, scroll }) => {
            let s = if up {
                if scroll > 0 { scroll - 1 } else { 0 }
            } else {
                scroll + 1
            };
            Some(EnteredView::FullOutput { title, content, scroll: s })
        },
        other => other,
    };
}

/// A key on the message list: up and down scroll an entered view, or move
/// the message cursor (pinned going up; following the tail again from the
/// last message going down); Enter enters the block under the block cursor,
/// or shows the message under the message cursor in the popup; Space folds
/// or unfolds the block under the block cursor.
pub fn messages_key(tui: &mut TuiState, mv: &mut MainView, popup: &mut Popup, code: KeyCode, agent_id: &str) -> (r: KeyOutcome)
    requires
        scroll_fits(old(mv).entered_view),
    ensures
        messages_effect(*old(tui), *final(tui), &*old(mv), &*final(mv), *old(popup), *final(popup), code, agent_id@, r),

{
    let entered = mv.entered_view.is_some();
    if (code == KeyCode::Up || code == KeyCode::Down) && entered {
        scroll_entered(mv, code == KeyCode::Up);
        return KeyOutcome::Done;
    }
    match code {
        KeyCode::Up => {
            let cur = tui.message_cursor;
            if cur > 0 {
                tui.message_cursor = cur - 1;
                tui.scroll_mode = ScrollMode::Pinned;
            }
            KeyOutcome::Done
        },
        KeyCode::Down => {
            let total = mv.messages.len();
            let cur = tui.message_cursor;
            if total > 0 && cur < total - 1 {
                tui.message_cursor = cur + 1;
            }
            if total <= 1 || cur >= total - 2 {
                tui.scroll_mode = ScrollMode::TailFollow;
            }
            KeyOutcome::Done
        },
        KeyCode::Enter => {
            let blocks = blocks_of(mv);
            let bc = mv.block_cursor;
            if blocks.len() > 0 && bc < blocks.len() && !entered {
                assert(blocks@[bc as int].deep_view() == refs_of(&*old(mv))[bc as int]);
                KeyOutcome::Act(
                    Action::EnterBlock {
                        agent_id: string_of(agent_id),
                        msg_id: string_of(blocks[bc].msg_id.as_str()),
                        block_index: blocks[bc].block_index,
                    },
                )
            } else {
                if !entered && tui.message_cursor < mv.messages.len() {
                    let m = &mv.messages[tui.message_cursor];
                    popup.title = role_title_of(m.role);
                    popup.description = string_of(m.text.as_str());
                    popup.visible = true;
                }
                KeyOutcome::Done
            }
        },
        KeyCode::Char(' ') => {
            let blocks = blocks_of(mv);
            let bc = mv.block_cursor;
            if bc < blocks.len() {
                assert(blocks@[bc as int].deep_view() == refs_of(&*old(mv))[bc as int]);
                KeyOutcome::Act(
                    Action::ToggleBlock {
                        agent_id: string_of(agent_id),
                        msg_id: string_of(blocks[bc].msg_id.as_str()),
                        block_index: blocks[bc].block_index,
                    },
                )
            } else {
                KeyOutcome::Done
            }
        },
        _ => KeyOutcome::Done,
    }
}


/// The command completion popup that `/` opens on an empty input line: the
/// two skills, with the cursor on the first.
pub open spec fn is_slash_popup(p: CompletionPopup) -> bool {
    &&& p.cursor == 0 && p.trigger == '/' && p.filter@ == Seq::<char>::empty()
    &&& p.items@.len() == 2
    &&& p.items@[0].label@ == "skill-creator"@ && p.items@[0].value@ == "/skill:skill-creator "@
    &&& p.items@[0].prefix@ == "⚡"@
    &&& p.items@[1].label@ == "skill-finder"@ && p.items@[1].value@ == "/skill:skill-finder "@
    &&& p.items@[1].prefix@ == "⚡"@
}

/// The file completion popup that `@` opens.
pub open spec fn is_at_popup(p: CompletionPopup) -> bool {
    &&& p.cursor == 0 && p.trigger == '@' && p.filter@ == Seq::<char>::empty()
    &&& p.items@.len() == 1
    &&& p.items@[0].label@ == "src/main.rs"@ && p.items@[0].value@ == "@src/main.rs "@
    &&& p.items@[0].prefix@ == "📁"@
}

fn slash_popup() -> (p: CompletionPopup)
    ensures
        is_slash_popup(p),
{
    let mut items: Vec<CompletionItem> = Vec::new();
    items.push(
        CompletionItem {
            label: string_of("skill-creator"),
            value: string_of("/skill:skill-creator "),
            prefix: string_of("⚡"),
        },
    );
    items.push(
        CompletionItem {
            label: string_of("skill-finder"),
            value: string_of("/skill:skill-finder "),
            prefix: string_of("⚡"),
        },
    );
    CompletionPopup { items, cursor: 0, trigger: '/', filter: String::new() }
}

fn at_popup() -> (p: CompletionPopup)
    ensures
        is_at_popup(p),
{
    let mut items: Vec<CompletionItem> = Vec::new();
    items.push(
        CompletionItem { label: string_of("src/main.rs"), value: string_of("@src/main.rs "), prefix: string_of("📁") },
    );
    CompletionPopup { items, cursor: 0, trigger: '@', filter: String::new() }
}

/// The popup with its cursor one entry further down, when there is one.
pub open spec fn popup_down(p: CompletionPopup) -> CompletionPopup {
    if p.cursor + 1 < p.items@.len() {
        CompletionPopup { cursor: (p.cursor + 1) as usize, ..p }
    } else {
        p
    }
}

/// A key on the input line: up goes to the message list; `/` on an empty
/// line and `@` open a completion popup (and are typed); Tab moves down the
/// popup; Enter takes the popup's entry, or submits the trimmed line when it
/// is not blank (and empties it); Backspace deletes the last character (and
/// closes the popup when the line is left empty); another character is typed.
pub fn input_key(tui: &mut TuiState, mv: &mut MainView, code: KeyCode) -> (r: KeyOutcome)
    ensures
        input_effect(*old(tui), *final(tui), &*old(mv), &*final(mv), code, r),

{
    let empty = text_is_empty(mv.input_buffer.as_str());
    if code == KeyCode::Up {
        tui.main_view_subsection = MainViewSubsection::Messages;
        KeyOutcome::Done
    } else if code == KeyCode::Char('/') && empty {
        push_char(&mut mv.input_buffer, '/');
        mv.completion_popup = Some(slash_popup());
        KeyOutcome::Done
    } else if code == KeyCode::Char('@') {
        push_char(&mut mv.input_buffer, '@');
        mv.completion_popup = Some(at_popup());
        KeyOutcome::Done
    } else if code == KeyCode::Tab && mv.completion_popup.is_some() {
        let p = mv.completion_popup.take();
        mv.completion_popup = match p {
            Some(q) => {
                let n = q.items.len();
                if n > 0 && q.cursor < n - 1 {
                    Some(CompletionPopup { cursor: q.cursor + 1, ..q })
                } else {
                    Some(q)
                }
            },
            None => None,
        };
        KeyOutcome::Done
    } else if code == KeyCode::Enter {
        let p = mv.completion_popup.take();
        match p {
            Some(q) => {
                if q.cursor < q.items.len() {
                    mv.input_buffer = string_of(q.items[q.cursor].value.as_str());
                }
                KeyOutcome::Done
            },
            None => {
                let t = trim(mv.input_buffer.as_str());
                if !text_is_empty(t.as_str()) {
                    mv.input_buffer = String::new();
                    KeyOutcome::Submit(t)
                } else {
                    KeyOutcome::Done
                }
            },
        }
    } else if code == KeyCode::Backspace {
        let _ = pop_char(&mut mv.input_buffer);
        if text_is_empty(mv.input_buffer.as_str()) {
            mv.completion_popup = None;
        }
        KeyOutcome::Done
    } else {
        match code {
            KeyCode::Char(c) => {
                push_char(&mut mv.input_buffer, c);
            },
            _ => {},
        }
        KeyOutcome::Done
    }
}


/// What `agent_panel_key` does (see its documentation).
pub open spec fn agent_panel_effect(t0: TuiState, t1: TuiState, code: KeyCode) -> bool {
    &&& (({
                let o = t0;
                let f = t1;
                let up = code == KeyCode::Up;
                let moves = code == KeyCode::Up || code == KeyCode::Down;
                &&& f.agent_cursor == (if moves && o.agent_panel_subsection == AgentPanelSubsection::Agents {
                    step_cursor(o.agent_cursor, o.subagents@.len(), up, o.subagents@.len())
                } else {
                    o.agent_cursor
                })
                &&& f.skill_cursor == (if moves && o.agent_panel_subsection == AgentPanelSubsection::Skills {
                    step_cursor(o.skill_cursor, o.skills@.len(), up, 6)
                } else {
                    o.skill_cursor
                })
                &&& f.mcp_cursor == (if moves && o.agent_panel_subsection == AgentPanelSubsection::Mcps {
                    step_cursor(o.mcp_cursor, o.mcps@.len(), up, o.mcps@.len())
                } else {
                    o.mcp_cursor
                })
                &&& same_but_agent_cursors(&f, &o)
            }))
}

/// What `block_nav` does (see its documentation).
pub open spec fn block_nav_effect(t0: TuiState, t1: TuiState, m0: &MainView, m1: &MainView, up: bool) -> bool {
    &&& (({
                let blocks = refs_of(m0);
                let cur = m0.block_cursor;
                let moved = if up { cur > 0 && blocks.len() > 0 } else { cur + 1 < blocks.len() };
                let to: int = if up { cur - 1 } else { cur + 1 };
                &&& m1.block_cursor == (if moved { to as usize } else { cur })
                &&& (moved && to < blocks.len()) ==> t1.message_cursor == blocks[to].msg_index
                    && t1.scroll_mode == ScrollMode::Pinned
                &&& !(moved && to < blocks.len()) ==> t1.message_cursor == t0.message_cursor
                    && t1.scroll_mode == t0.scroll_mode
            }))
    &&& (mv_rest_same(m1, m0))
    &&& (m1.input_buffer@ == m0.input_buffer@)
    &&& (m1.block_states@ == m0.block_states@)
    &&& (m1.entered_view.deep_view() == m0.entered_view.deep_view())
    &&& (m1.completion_popup == m0.completion_popup)
    &&& (tui_rest_same(&t1, &t0))
    &&& (t1.main_view_subsection == t0.main_view_subsection)
}

/// What `esc_key` does (see its documentation).
pub open spec fn esc_effect(t0: TuiState, t1: TuiState, m0: &MainView, m1: &MainView, p0: Popup, p1: Popup, r: KeyOutcome) -> bool {
    &&& (mv_rest_same(m1, m0))
    &&& (m1.input_buffer@ == m0.input_buffer@)
    &&& (m1.block_cursor == m0.block_cursor)
    &&& (m1.block_states@ == m0.block_states@)
    &&& (m1.entered_view.deep_view() == m0.entered_view.deep_view())
    &&& (tui_rest_same_but_panel(&t1, &t0))
    &&& (m0.completion_popup is Some ==> m1.completion_popup is None && r is Done
                && t1.panel() == t0.panel() && p1 == p0)
    &&& (m0.completion_popup is None ==> m1.completion_popup is None)
    &&& (m0.completion_popup is None && m0.entered_view is Some ==> (r matches KeyOutcome::Act(Action::ExitBlock))
        && t1.panel() == t0.panel() && p1 == p0)
    &&& (m0.completion_popup is None && m0.entered_view is None ==> r is Done && ({
                let o = t0;
                let f = t1;
                if o.provider_editor is Some {
                    &&& p1 == p0
                    &&& if o.provider_editor->0.model_mgr is Some {
                        f.panel() == crate::tui_state::provider_key_spec(o.panel(), o.persistence_disabled, KeyCode::Esc).0
                    } else {
                        f.panel() == crate::tui_state::PanelView { editor: None, ..o.panel() }
                    }
                } else if o.provider_popup is Some {
                    &&& f.panel() == crate::tui_state::PanelView { provider_popup: None, ..o.panel() }
                    &&& p1 == p0
                } else {
                    &&& f.panel() == o.panel()
                    &&& p1.visible == false
                    &&& p1.title == p0.title
                    &&& p1.description == p0.description
                }
            }))
}

/// What `messages_key` does (see its documentation).
pub open spec fn messages_effect(t0: TuiState, t1: TuiState, m0: &MainView, m1: &MainView, p0: Popup, p1: Popup, code: KeyCode, agent_id: Seq<char>, r: KeyOutcome) -> bool {
    &&& (mv_rest_same(m1, m0))
    &&& (m1.input_buffer@ == m0.input_buffer@)
    &&& (m1.block_cursor == m0.block_cursor)
    &&& (m1.block_states@ == m0.block_states@)
    &&& (m1.completion_popup == m0.completion_popup)
    &&& (tui_rest_same(&t1, &t0))
    &&& (t1.main_view_subsection == t0.main_view_subsection)
    &&& (({
                let entered = m0.entered_view is Some;
                let blocks = refs_of(m0);
                let bc = m0.block_cursor;
                let cur = t0.message_cursor;
                let total = m0.messages@.len();
                if (code == KeyCode::Up || code == KeyCode::Down) && entered {
                    &&& m1.entered_view.deep_view() == scrolled(m0.entered_view.deep_view(), code == KeyCode::Up)
                    &&& t1.message_cursor == cur && t1.scroll_mode == t0.scroll_mode
                    &&& p1 == p0 && r is Done
                } else {
                    &&& m1.entered_view.deep_view() == m0.entered_view.deep_view()
                    &&& if code == KeyCode::Up {
                        &&& t1.message_cursor == (if cur > 0 { (cur - 1) as usize } else { cur })
                        &&& t1.scroll_mode == (if cur > 0 { ScrollMode::Pinned } else { t0.scroll_mode })
                        &&& p1 == p0 && r is Done
                    } else if code == KeyCode::Down {
                        &&& t1.message_cursor == (if cur + 1 < total { (cur + 1) as usize } else { cur })
                        &&& t1.scroll_mode == (if cur + 1 >= total - 1 { ScrollMode::TailFollow } else { t0.scroll_mode })
                        &&& p1 == p0 && r is Done
                    } else if code == KeyCode::Enter {
                        &&& t1.message_cursor == cur && t1.scroll_mode == t0.scroll_mode
                        &&& if blocks.len() > 0 && bc < blocks.len() && !entered {
                            &&& p1 == p0
                            &&& r matches KeyOutcome::Act(Action::EnterBlock { agent_id: a, msg_id: m, block_index: i })
                            &&& r->Act_0->EnterBlock_agent_id@ == agent_id
                            &&& r->Act_0->EnterBlock_msg_id@ == blocks[bc as int].msg_id
                            &&& r->Act_0->EnterBlock_block_index == blocks[bc as int].block_index
                        } else if !entered && cur < total {
                            &&& p1.visible
                            &&& p1.title@ == role_title(m0.messages@[cur as int].role)
                            &&& p1.description@ == m0.messages@[cur as int].text@
                            &&& r is Done
                        } else {
                            p1 == p0 && r is Done
                        }
                    } else if code == KeyCode::Char(' ') {
                        &&& t1.message_cursor == cur && t1.scroll_mode == t0.scroll_mode
                        &&& p1 == p0
                        &&& if bc < blocks.len() {
                            &&& r matches KeyOutcome::Act(Action::ToggleBlock { agent_id: a, msg_id: m, block_index: i })
                            &&& r->Act_0->ToggleBlock_agent_id@ == agent_id
                            &&& r->Act_0->ToggleBlock_msg_id@ == blocks[bc as int].msg_id
                            &&& r->Act_0->ToggleBlock_block_index == blocks[bc as int].block_index
                        } else {
                            r is Done
                        }
                    } else {
                        &&& t1.message_cursor == cur && t1.scroll_mode == t0.scroll_mode
                        &&& p1 == p0 && r is Done
                    }
                }
            }))
}

/// What `input_key` does (see its documentation).
pub open spec fn input_effect(t0: TuiState, t1: TuiState, m0: &MainView, m1: &MainView, code: KeyCode, r: KeyOutcome) -> bool {
    &&& (mv_rest_same(m1, m0))
    &&& (m1.block_cursor == m0.block_cursor)
    &&& (m1.block_states@ == m0.block_states@)
    &&& (m1.entered_view.deep_view() == m0.entered_view.deep_view())
    &&& (tui_rest_same(&t1, &t0))
    &&& (t1.message_cursor == t0.message_cursor)
    &&& (t1.scroll_mode == t0.scroll_mode)
    &&& (t1.main_view_subsection == (if code == KeyCode::Up {
                MainViewSubsection::Messages
            } else {
                t0.main_view_subsection
            }))
    &&& (({
                let inp = m0.input_buffer@;
                let pop = m0.completion_popup;
                if code == KeyCode::Up {
                    m1.input_buffer@ == inp && m1.completion_popup == pop && r is Done
                } else if code == KeyCode::Char('/') && inp.len() == 0 {
                    &&& m1.input_buffer@ == inp.push('/')
                    &&& m1.completion_popup matches Some(p) && is_slash_popup(p)
                    &&& r is Done
                } else if code == KeyCode::Char('@') {
                    &&& m1.input_buffer@ == inp.push('@')
                    &&& m1.completion_popup matches Some(p) && is_at_popup(p)
                    &&& r is Done
                } else if code == KeyCode::Tab && pop is Some {
                    &&& m1.input_buffer@ == inp
                    &&& m1.completion_popup == Some(popup_down(pop->0))
                    &&& r is Done
                } else if code == KeyCode::Enter {
                    match pop {
                        Some(p) => {
                            &&& m1.completion_popup is None
                            &&& m1.input_buffer@ == (if p.cursor < p.items@.len() {
                                p.items@[p.cursor as int].value@
                            } else {
                                inp
                            })
                            &&& r is Done
                        },
                        None => {
                            &&& m1.completion_popup is None
                            &&& if trim_spec(inp).len() > 0 {
                                &&& m1.input_buffer@ == Seq::<char>::empty()
                                &&& r matches KeyOutcome::Submit(t) && t@ == trim_spec(inp)
                            } else {
                                m1.input_buffer@ == inp && r is Done
                            }
                        },
                    }
                } else if code == KeyCode::Backspace {
                    &&& m1.input_buffer@ == (if inp.len() > 0 { inp.drop_last() } else { inp })
                    &&& m1.completion_popup == (if m1.input_buffer@.len() == 0 { None } else { pop })
                    &&& r is Done
                } else if code matches KeyCode::Char(c) {
                    &&& m1.input_buffer@ == inp.push(code->Char_0)
                    &&& m1.completion_popup == pop
                    &&& r is Done
                } else {
                    m1.input_buffer@ == inp && m1.completion_popup == pop && r is Done
                }
            }))
}


/// Where a key press goes, in order: Alt with an arrow moves the focus
/// between panels (left, right) or, up and down, between blocks of the
/// message list when it has the focus and between sections otherwise;
/// Control+C quits; Control+Z aborts the agent's turn; Esc closes things;
/// any other key goes to the focused section.
pub enum KeyRoute {
    FocusPanel(i32),
    BlockNav(bool),
    Subsection(i32),
    Quit,
    Abort,
    Esc,
    Workspace,
    Provider,
    Model,
    Messages,
    Input,
    AgentPanel,
    Ignored,
}

/// The route of a key press (see `KeyRoute`).
pub open spec fn key_route(t: TuiState, k: KeyPress) -> KeyRoute {
    let on_messages = t.focus_panel == FocusPanel::MainView && t.main_view_subsection == MainViewSubsection::Messages;
    if k.code == KeyCode::Left && k.alt {
        KeyRoute::FocusPanel(-1i32)
    } else if k.code == KeyCode::Right && k.alt {
        KeyRoute::FocusPanel(1i32)
    } else if (k.code == KeyCode::Up || k.code == KeyCode::Down) && k.alt {
        if on_messages {
            KeyRoute::BlockNav(k.code == KeyCode::Up)
        } else {
            KeyRoute::Subsection(if k.code == KeyCode::Up { -1i32 } else { 1i32 })
        }
    } else if k.code == KeyCode::Char('c') && k.ctrl {
        KeyRoute::Quit
    } else if k.code == KeyCode::Char('z') && k.ctrl {
        KeyRoute::Abort
    } else if k.code == KeyCode::Esc {
        KeyRoute::Esc
    } else if t.focus_panel == FocusPanel::Sidebar {
        match t.sidebar_subsection {
            SidebarSubsection::Workspace => KeyRoute::Workspace,
            SidebarSubsection::Provider => KeyRoute::Provider,
            SidebarSubsection::Model => KeyRoute::Model,
            SidebarSubsection::ActiveSession => KeyRoute::Ignored,
        }
    } else if t.focus_panel == FocusPanel::MainView {
        if t.main_view_subsection == MainViewSubsection::Messages {
            KeyRoute::Messages
        } else {
            KeyRoute::Input
        }
    } else if t.agent_panel_subsection != AgentPanelSubsection::Tasks {
        KeyRoute::AgentPanel
    } else {
        KeyRoute::Ignored
    }
}

/// Nothing of the interface state changes.
pub open spec fn unchanged(t0: TuiState, t1: TuiState, m0: &MainView, m1: &MainView, p0: Popup, p1: Popup) -> bool {
    &&& tui_rest_same(&t1, &t0)
    &&& t1.message_cursor == t0.message_cursor
    &&& t1.scroll_mode == t0.scroll_mode
    &&& t1.main_view_subsection == t0.main_view_subsection
    &&& mv_rest_same(m1, m0)
    &&& m1.input_buffer@ == m0.input_buffer@
    &&& m1.block_cursor == m0.block_cursor
    &&& m1.block_states@ == m0.block_states@
    &&& m1.entered_view.deep_view() == m0.entered_view.deep_view()
    &&& m1.completion_popup == m0.completion_popup
    &&& p1 == p0
}

/// Handles a key press of the main loop (see `key_route` for where it goes
/// and the `*_effect` functions for what each section does); `agent_id` is
/// the agent of the message list.
pub fn tui_key(tui: &mut TuiState, mv: &mut MainView, popup: &mut Popup, key: KeyPress, agent_id: &str) -> (r: KeyOutcome)
    requires
        panel_fits(old(tui).panel()),
        scroll_fits(old(mv).entered_view),
    ensures
        ({
            let t0 = *old(tui);
            let t1 = *final(tui);
            let m0 = &*old(mv);
            let m1 = &*final(mv);
            let p0 = *old(popup);
            let p1 = *final(popup);
            match key_route(t0, key) {
                KeyRoute::FocusPanel(d) => (r matches KeyOutcome::Act(Action::CycleFocusPanel(x)) && x == d)
                    && unchanged(t0, t1, m0, m1, p0, p1),
                KeyRoute::Subsection(d) => (r matches KeyOutcome::Act(Action::CycleFocusSubsection(x)) && x == d)
                    && unchanged(t0, t1, m0, m1, p0, p1),
                KeyRoute::BlockNav(up) => r is Done && block_nav_effect(t0, t1, m0, m1, up) && p1 == p0,
                KeyRoute::Quit => r is Quit && unchanged(t0, t1, m0, m1, p0, p1),
                KeyRoute::Abort => r is Abort && unchanged(t0, t1, m0, m1, p0, p1),
                KeyRoute::Esc => esc_effect(t0, t1, m0, m1, p0, p1, r),
                KeyRoute::Workspace => unchanged(t0, t1, m0, m1, p0, p1) && (
                    match key.code {
                        KeyCode::Up => r matches KeyOutcome::Act(Action::SidebarMove(d)) && d == -1,
                        KeyCode::Down => r matches KeyOutcome::Act(Action::SidebarMove(d)) && d == 1,
                        KeyCode::Enter => workspace_choice(t0, r),
                        KeyCode::Char(' ') => workspace_choice(t0, r),
                        _ => r is Done,
                    }
                ),
                KeyRoute::Provider => {
                    &&& r is Provider
                    &&& t1.panel() == crate::tui_state::provider_key_spec(t0.panel(), t0.persistence_disabled, key.code).0
                    &&& t1.others_unchanged(&t0)
                    &&& mv_rest_same(m1, m0) && m1.input_buffer@ == m0.input_buffer@ && m1.block_cursor == m0.block_cursor
                    &&& m1.block_states@ == m0.block_states@ && m1.entered_view.deep_view() == m0.entered_view.deep_view()
                    &&& m1.completion_popup == m0.completion_popup && p1 == p0
                },
                KeyRoute::Model => {
                    &&& r is Model
                    &&& t1.panel() == crate::tui_state::model_key_spec(t0.panel(), key.code).0
                    &&& t1.others_unchanged(&t0)
                    &&& mv_rest_same(m1, m0) && m1.input_buffer@ == m0.input_buffer@ && m1.block_cursor == m0.block_cursor
                    &&& m1.block_states@ == m0.block_states@ && m1.entered_view.deep_view() == m0.entered_view.deep_view()
                    &&& m1.completion_popup == m0.completion_popup && p1 == p0
                },
                KeyRoute::Messages => messages_effect(t0, t1, m0, m1, p0, p1, key.code, agent_id@, r),
                KeyRoute::Input => input_effect(t0, t1, m0, m1, key.code, r) && p1 == p0,
                KeyRoute::AgentPanel => {
                    &&& r is Done && agent_panel_effect(t0, t1, key.code)
                    &&& mv_rest_same(m1, m0) && m1.input_buffer@ == m0.input_buffer@ && m1.block_cursor == m0.block_cursor
                    &&& m1.block_states@ == m0.block_states@ && m1.entered_view.deep_view() == m0.entered_view.deep_view()
                    &&& m1.completion_popup == m0.completion_popup && p1 == p0
                },
                KeyRoute::Ignored => r is Done && unchanged(t0, t1, m0, m1, p0, p1),
            }
        }),
{
    let code = key.code;
    let on_messages = tui.focus_panel == FocusPanel::MainView && tui.main_view_subsection == MainViewSubsection::Messages;
    if code == KeyCode::Left && key.alt {
        KeyOutcome::Act(Action::CycleFocusPanel(-1))
    } else if code == KeyCode::Right && key.alt {
        KeyOutcome::Act(Action::CycleFocusPanel(1))
    } else if (code == KeyCode::Up || code == KeyCode::Down) && key.alt {
        if on_messages {
            block_nav(tui, mv, code == KeyCode::Up);
            KeyOutcome::Done
        } else if code == KeyCode::Up {
            KeyOutcome::Act(Action::CycleFocusSubsection(-1))
        } else {
            KeyOutcome::Act(Action::CycleFocusSubsection(1))
        }
    } else if code == KeyCode::Char('c') && key.ctrl {
        KeyOutcome::Quit
    } else if code == KeyCode::Char('z') && key.ctrl {
        KeyOutcome::Abort
    } else if code == KeyCode::Esc {
        esc_key(tui, mv, popup)
    } else if tui.focus_panel == FocusPanel::Sidebar {
        match tui.sidebar_subsection {
            SidebarSubsection::Workspace => workspace_key(tui, code),
            SidebarSubsection::Provider => {
                let _ = tui.handle_provider_key(code);
                KeyOutcome::Provider
            },
            SidebarSubsection::Model => {
                let _ = tui.handle_model_key(code);
                KeyOutcome::Model
            },
            SidebarSubsection::ActiveSession => KeyOutcome::Done,
        }
    } else if tui.focus_panel == FocusPanel::MainView {
        if tui.main_view_subsection == MainViewSubsection::Messages {
            messages_key(tui, mv, popup, code, agent_id)
        } else {
            input_key(tui, mv, code)
        }
    } else if tui.agent_panel_subsection != AgentPanelSubsection::Tasks {
        agent_panel_key(tui, code);
        KeyOutcome::Done
    } else {
        KeyOutcome::Done
    }
}

/// Enter or Space on the workspace section (see `workspace_key`).
pub open spec fn workspace_choice(t: TuiState, r: KeyOutcome) -> bool {
    match sidebar_item_spec(t.workspaces@, t.sidebar_cursor as int) {
        Some((true, wi, _)) => (r matches KeyOutcome::Act(Action::ToggleWorkspace(w)) && w == wi),
        Some((false, wi, Some(si))) => if wi < t.workspaces@.len() && si < t.workspaces@[wi as int].sessions@.len() {
            (r matches KeyOutcome::Act(Action::SelectSession(id)) && id@ == t.workspaces@[wi as int].sessions@[si as int].id@)
        } else {
            r is Done
        },
        _ => r is Done,
    }
}


/// The sidebar occupies the columns up to this one.
pub const SIDEBAR_LAST_COLUMN: u16 = 39;

/// The agent panel occupies the last columns, this many.
pub const AGENT_PANEL_WIDTH: u16 = 40;

/// The panel under column `col` of a terminal `width` columns wide: the
/// sidebar up to column 39, the agent panel from 40 columns before the right
/// edge, the content in between.
pub open spec fn panel_at(col: u16, width: u16) -> SelectionPanel {
    if col <= 39 {
        SelectionPanel::Sidebar
    } else if col >= (if width >= 40 { width - 40 } else { 0 }) {
        SelectionPanel::AgentPanel
    } else {
        SelectionPanel::Content
    }
}

/// The column a drag reaches, kept within the panel it started in.
pub open spec fn drag_column(panel: SelectionPanel, col: u16, width: u16) -> u16 {
    let agent_left: int = if width >= 40 { width - 40 } else { 0 };
    match panel {
        SelectionPanel::Sidebar => if col <= 39 { col } else { 39 },
        SelectionPanel::Content => {
            let lo: int = if col >= 40 { col as int } else { 40 };
            let hi: int = if agent_left >= 1 { agent_left - 1 } else { 0 };
            (if lo <= hi { lo } else { hi }) as u16
        },
        SelectionPanel::AgentPanel => (if col as int >= agent_left { col as int } else { agent_left }) as u16,
        SelectionPanel::NoPanel => col,
    }
}

/// The left button goes down at (`col`, `row`): a selection starts there, in
/// the panel under the pointer, with no text yet.
pub fn mouse_down(sel: &mut SelectionState, col: u16, row: u16, width: u16)
    ensures
        final(sel).panel == panel_at(col, width),
        final(sel).active,
        final(sel).anchor == Some((col, row)),
        final(sel).focus == Some((col, row)),
        final(sel).selected_text@.len() == 0,
{
    let agent_left = width.saturating_sub(AGENT_PANEL_WIDTH);
    let panel = if col <= SIDEBAR_LAST_COLUMN {
        SelectionPanel::Sidebar
    } else if col >= agent_left {
        SelectionPanel::AgentPanel
    } else {
        SelectionPanel::Content
    };
    *sel = SelectionState { panel, active: true, anchor: Some((col, row)), focus: Some((col, row)), selected_text: String::new() };
}

/// The pointer is dragged to (`col`, `row`): an active selection extends
/// there, kept within its panel (see `drag_column`).
pub fn mouse_drag(sel: &mut SelectionState, col: u16, row: u16, width: u16)
    ensures
        final(sel).focus == (if old(sel).active { Some((drag_column(old(sel).panel, col, width), row)) } else { old(sel).focus }),
        final(sel).panel == old(sel).panel,
        final(sel).active == old(sel).active,
        final(sel).anchor == old(sel).anchor,
        final(sel).selected_text == old(sel).selected_text,
{
    if sel.active {
        let agent_left = width.saturating_sub(AGENT_PANEL_WIDTH);
        let c = match sel.panel {
            SelectionPanel::Sidebar => if col <= SIDEBAR_LAST_COLUMN { col } else { SIDEBAR_LAST_COLUMN },
            SelectionPanel::Content => {
                let lo = if col >= SIDEBAR_LAST_COLUMN + 1 { col } else { SIDEBAR_LAST_COLUMN + 1 };
                let hi = agent_left.saturating_sub(1);
                if lo <= hi { lo } else { hi }
            },
            SelectionPanel::AgentPanel => if col >= agent_left { col } else { agent_left },
            SelectionPanel::NoPanel => col,
        };
        sel.focus = Some((c, row));
    }
}

} // verus!
