//! The provider configuration screen of the standalone router: a provider
//! list and an add / edit form, driven by the keyboard.

use vstd::prelude::*;
use crate::provider::{ModelInfo, ModelView, ProviderInfo, ProviderView};
use crate::strs::{
    chars_of, dec_spec, parse_unsigned, parse_unsigned_spec, pop_char, push_char, push_decimal,
    push_str, split_chars, split_spec, str_eq, string_from_chars, string_of, to_uppercase, trim,
    trim_chars, trim_spec, uppercase, vec_chars_eq,
};
use crate::tui_state::{KeyCode, pop_spec};
use crate::ansi::Color;
use vstd::string::StringSliceAdditionalSpecFns;

verus! {

/// The endpoint types the form offers, in order.
pub open spec fn endpoint_options() -> Seq<Seq<char>> {
    seq!["openai_compat"@, "openai_responses"@, "anthropic_messages"@, "gemini"@]
}

/// The endpoint type at position `i` of the options.
fn endpoint_option(i: usize) -> (r: String)
    requires
        i < 4,
    ensures
        r@ == endpoint_options()[i as int],
{
    if i == 0 {
        string_of("openai_compat")
    } else if i == 1 {
        string_of("openai_responses")
    } else if i == 2 {
        string_of("anthropic_messages")
    } else {
        string_of("gemini")
    }
}

/// What the screen shows.
#[derive(Debug, Clone, Copy, PartialEq, Eq)]
pub enum RouterView {
    /// The provider list.
    List,
    /// The add / edit form.
    Form,
}

/// Whether the form adds a provider or edits the one at an index.
#[derive(Debug, Clone, Copy, PartialEq, Eq)]
pub enum FormMode {
    Add,
    Edit(usize),
}

/// The state of the configuration screen.
#[derive(Debug, Clone)]
pub struct RouterTuiState {
    pub providers: Vec<ProviderInfo>,
    /// The provider under the cursor.
    pub selected: usize,
    /// The provider shown with its details.
    pub expanded: Option<usize>,
    pub view: RouterView,
    pub form_id: String,
    pub form_name: String,
    pub form_url: String,
    pub form_key: String,
    /// Index into the endpoint options.
    pub form_ep_idx: usize,
    /// The endpoint chooser is open.
    pub form_ep_open: bool,
    pub form_enabled: bool,
    /// The models, one `id:tier:context[:reasoning]` line each.
    pub form_models: String,
    /// Focused field: id 0, name 1, URL 2, key 3, endpoint 4, enabled 5, models 6, buttons 7.
    pub form_focus: usize,
    pub form_mode: FormMode,
    pub router_running: bool,
    pub router_port: u16,
    pub request_count: u64,
    /// Set when the providers must be written out and shared with the router.
    pub save_pending: bool,
}

/// The mathematical value of the configuration screen.
pub ghost struct RouterScreen {
    pub providers: Seq<ProviderView>,
    pub selected: usize,
    pub expanded: Option<usize>,
    pub view: RouterView,
    pub form_id: Seq<char>,
    pub form_name: Seq<char>,
    pub form_url: Seq<char>,
    pub form_key: Seq<char>,
    pub form_ep_idx: usize,
    pub form_ep_open: bool,
    pub form_enabled: bool,
    pub form_models: Seq<char>,
    pub form_focus: usize,
    pub form_mode: FormMode,
    pub router_running: bool,
    pub router_port: u16,
    pub request_count: u64,
    pub save_pending: bool,
}

impl View for RouterTuiState {
    type V = RouterScreen;

    open spec fn view(&self) -> RouterScreen {
        RouterScreen {
            providers: self.providers.deep_view(),
            selected: self.selected,
            expanded: self.expanded,
            view: self.view,
            form_id: self.form_id@,
            form_name: self.form_name@,
            form_url: self.form_url@,
            form_key: self.form_key@,
            form_ep_idx: self.form_ep_idx,
            form_ep_open: self.form_ep_open,
            form_enabled: self.form_enabled,
            form_models: self.form_models@,
            form_focus: self.form_focus,
            form_mode: self.form_mode,
            router_running: self.router_running,
            router_port: self.router_port,
            request_count: self.request_count,
            save_pending: self.save_pending,
        }
    }
}

/// The screen's invariant: the cursor is on a provider when there is one,
/// and the endpoint index is one of the options.
pub open spec fn screen_wf(s: RouterScreen) -> bool {
    &&& (s.providers.len() > 0 ==> s.selected < s.providers.len())
    &&& s.form_ep_idx < 4
}

/// The form opened for a new provider: empty fields, URL `https://`, first
/// endpoint, enabled, focus on the id.
pub open spec fn open_add_spec(s: RouterScreen) -> RouterScreen {
    RouterScreen {
        view: RouterView::Form,
        form_mode: FormMode::Add,
        form_id: Seq::empty(),
        form_name: Seq::empty(),
        form_url: "https://"@,
        form_key: Seq::empty(),
        form_ep_idx: 0,
        form_ep_open: false,
        form_enabled: true,
        form_models: Seq::empty(),
        form_focus: 0,
        ..s
    }
}

/// The position of an endpoint type among the options (0 when absent).
pub open spec fn endpoint_index(t: Seq<char>) -> usize {
    if t == endpoint_options()[0] {
        0
    } else if t == endpoint_options()[1] {
        1
    } else if t == endpoint_options()[2] {
        2
    } else if t == endpoint_options()[3] {
        3
    } else {
        0
    }
}

/// The form line of a model: `id:tier:context`, then `:reasoning` for a reasoning model.
pub open spec fn form_model_line(m: ModelView) -> Seq<char> {
    m.id + seq![':'] + m.tier + seq![':'] + dec_spec(m.context_window as nat) + if m.reasoning {
        ":reasoning"@
    } else {
        Seq::empty()
    }
}

/// The form lines of the models, joined by newlines.
pub open spec fn form_models_text(ms: Seq<ModelView>) -> Seq<char>
    decreases ms.len(),
{
    if ms.len() == 0 {
        Seq::empty()
    } else if ms.len() == 1 {
        form_model_line(ms[0])
    } else {
        form_models_text(ms.drop_last()) + seq!['\n'] + form_model_line(ms.last())
    }
}

/// The form opened on provider `idx`, filled with its data (the API key is
/// left empty: an empty key keeps the old one on save).
pub open spec fn open_edit_spec(s: RouterScreen, idx: usize) -> RouterScreen {
    let p = s.providers[idx as int];
    RouterScreen {
        view: RouterView::Form,
        form_mode: FormMode::Edit(idx),
        form_id: p.id,
        form_name: p.name,
        form_url: p.base_url,
        form_key: Seq::empty(),
        form_ep_idx: endpoint_index(p.endpoint_type),
        form_ep_open: false,
        form_enabled: p.enabled,
        form_models: form_models_text(p.models),
        form_focus: 0,
        ..s
    }
}

/// Deleting the provider under the cursor; the cursor stays in range, the
/// details close and the providers are to be saved.
pub open spec fn delete_spec(s: RouterScreen) -> RouterScreen {
    if s.providers.len() == 0 {
        s
    } else {
        let ps = s.providers.remove(s.selected as int);
        RouterScreen {
            providers: ps,
            selected: if s.selected >= ps.len() {
                if ps.len() > 0 { (ps.len() - 1) as usize } else { 0 }
            } else {
                s.selected
            },
            expanded: None,
            save_pending: true,
            ..s
        }
    }
}

/// A key on the provider list: the new screen and whether to quit.
pub open spec fn list_key_spec(s: RouterScreen, key: KeyCode) -> (RouterScreen, bool) {
    let n = s.providers.len();
    let sel = s.selected;
    if n == 0 {
        (if key == KeyCode::Char('a') { open_add_spec(s) } else { s }, false)
    } else {
        let down = RouterScreen { selected: if sel + 1 < n { (sel + 1) as usize } else { (n - 1) as usize }, ..s };
        let up = RouterScreen { selected: if sel > 0 { (sel - 1) as usize } else { 0 }, ..s };
        match key {
            KeyCode::Down => (down, false),
            KeyCode::Up => (up, false),
            KeyCode::Right => (RouterScreen { expanded: if s.expanded == Some(sel) { None } else { Some(sel) }, ..s }, false),
            KeyCode::Enter => (RouterScreen { expanded: if s.expanded == Some(sel) { None } else { Some(sel) }, ..s }, false),
            KeyCode::Left => (RouterScreen { expanded: if s.expanded == Some(sel) { None } else { s.expanded }, ..s }, false),
            KeyCode::Esc => (s, true),
            KeyCode::Char(c) => {
                if c == 'j' {
                    (down, false)
                } else if c == 'k' {
                    (up, false)
                } else if c == 'a' {
                    (open_add_spec(s), false)
                } else if c == 'e' {
                    (open_edit_spec(s, sel), false)
                } else if c == 'd' {
                    (delete_spec(s), false)
                } else if c == ' ' {
                    let p = s.providers[sel as int];
                    (
                        RouterScreen {
                            providers: s.providers.update(sel as int, ProviderView { enabled: !p.enabled, ..p }),
                            save_pending: true,
                            ..s
                        },
                        false,
                    )
                } else if c == 'q' {
                    (s, true)
                } else {
                    (s, false)
                }
            },
            _ => (s, false),
        }
    }
}

/// An ASCII control character.
pub open spec fn is_ascii_control(c: char) -> bool {
    (c as u32) < 0x20 || c as u32 == 0x7f
}

/// Typing into the focused text field of the form (id, name, URL or key).
pub open spec fn form_push(s: RouterScreen, c: char) -> RouterScreen {
    if s.form_focus == 0 {
        RouterScreen { form_id: s.form_id.push(c), ..s }
    } else if s.form_focus == 1 {
        RouterScreen { form_name: s.form_name.push(c), ..s }
    } else if s.form_focus == 2 {
        RouterScreen { form_url: s.form_url.push(c), ..s }
    } else if s.form_focus == 3 {
        RouterScreen { form_key: s.form_key.push(c), ..s }
    } else {
        s
    }
}

/// Deleting the last character of the focused text field of the form.
pub open spec fn form_pop(s: RouterScreen) -> RouterScreen {
    if s.form_focus == 0 {
        RouterScreen { form_id: pop_spec(s.form_id), ..s }
    } else if s.form_focus == 1 {
        RouterScreen { form_name: pop_spec(s.form_name), ..s }
    } else if s.form_focus == 2 {
        RouterScreen { form_url: pop_spec(s.form_url), ..s }
    } else if s.form_focus == 3 {
        RouterScreen { form_key: pop_spec(s.form_key), ..s }
    } else {
        s
    }
}

/// The model of one form line `id:tier:context:reasoning` (trimmed): the id
/// as written, the tier uppercased ("T2" when absent), the context when it
/// parses as a `u32` (128000 otherwise), reasoning when the fourth part is
/// `reasoning`; enabled.
pub open spec fn form_line_model(line: Seq<char>) -> ModelView {
    let parts = split_spec(trim_spec(line), ':');
    ModelView {
        id: parts[0],
        name: Seq::empty(),
        context_window: if parts.len() > 2 {
            match parse_unsigned_spec(parts[2], 0xffff_ffff) {
                Some(n) => n as u32,
                None => 128000,
            }
        } else {
            128000
        },
        reasoning: parts.len() > 3 && parts[3] == "reasoning"@,
        tier: uppercase(if parts.len() > 1 { parts[1] } else { "T2"@ }),
        enabled: true,
        thinking_level_map: None,
    }
}

/// The models of the form lines that are not blank, in order.
pub open spec fn form_lines_models(ls: Seq<Seq<char>>) -> Seq<ModelView>
    decreases ls.len(),
{
    if ls.len() == 0 {
        Seq::empty()
    } else {
        let rest = form_lines_models(ls.drop_last());
        if trim_spec(ls.last()).len() == 0 {
            rest
        } else {
            rest.push(form_line_model(ls.last()))
        }
    }
}

/// Saving the form: nothing unless id, name and URL (trimmed) are all
/// given; then a new provider is appended and selected (Add), or the
/// provider being edited gets the form's values, keeping its API key when
/// the form's key is empty (Edit); the providers are to be saved.
pub open spec fn save_form_spec(s: RouterScreen) -> RouterScreen {
    let id = trim_spec(s.form_id);
    let name = trim_spec(s.form_name);
    let url = trim_spec(s.form_url);
    let ep = endpoint_options()[s.form_ep_idx as int];
    let models = form_lines_models(split_spec(s.form_models, '\n'));
    if id.len() == 0 || name.len() == 0 || url.len() == 0 {
        s
    } else {
        match s.form_mode {
            FormMode::Add => {
                let p = ProviderView {
                    id: id,
                    name: name,
                    enabled: s.form_enabled,
                    base_url: url,
                    api_key: s.form_key,
                    models: models,
                    endpoint_type: ep,
                };
                RouterScreen {
                    providers: s.providers.push(p),
                    selected: s.providers.len() as usize,
                    save_pending: true,
                    ..s
                }
            },
            FormMode::Edit(idx) => {
                if idx < s.providers.len() {
                    let old = s.providers[idx as int];
                    let p = ProviderView {
                        id: id,
                        name: name,
                        enabled: s.form_enabled,
                        base_url: url,
                        api_key: if s.form_key.len() == 0 { old.api_key } else { s.form_key },
                        models: models,
                        endpoint_type: ep,
                    };
                    RouterScreen { providers: s.providers.update(idx as int, p), save_pending: true, ..s }
                } else {
                    RouterScreen { save_pending: true, ..s }
                }
            },
        }
    }
}

/// A key on the form (`shift` tells Shift+Tab from Tab): the new screen;
/// the form never asks to quit.
pub open spec fn form_key_spec(s: RouterScreen, key: KeyCode, shift: bool) -> RouterScreen {
    if s.form_ep_open {
        match key {
            KeyCode::Esc => RouterScreen { form_ep_open: false, ..s },
            KeyCode::Enter => RouterScreen { form_ep_open: false, ..s },
            KeyCode::Up => RouterScreen { form_ep_idx: if s.form_ep_idx > 0 { (s.form_ep_idx - 1) as usize } else { 0 }, ..s },
            KeyCode::Down => RouterScreen { form_ep_idx: if s.form_ep_idx + 1 < 4 { (s.form_ep_idx + 1) as usize } else { 3 }, ..s },
            _ => s,
        }
    } else {
        match key {
            KeyCode::Tab => if shift {
                RouterScreen { form_focus: if s.form_focus > 0 { (s.form_focus - 1) as usize } else { 0 }, ..s }
            } else {
                RouterScreen { form_focus: if s.form_focus + 1 < 7 { (s.form_focus + 1) as usize } else { 7 }, ..s }
            },
            KeyCode::Char(c) => if !is_ascii_control(c) {
                form_push(s, c)
            } else {
                s
            },
            KeyCode::Backspace => form_pop(s),
            KeyCode::Enter => if s.form_focus == 4 {
                RouterScreen { form_ep_open: true, ..s }
            } else if s.form_focus == 7 {
                RouterScreen { view: RouterView::List, ..save_form_spec(s) }
            } else {
                s
            },
            KeyCode::Esc => RouterScreen { view: RouterView::List, ..s },
            KeyCode::F(n) => if n == 2 {
                RouterScreen { view: RouterView::List, ..save_form_spec(s) }
            } else {
                s
            },
            _ => s,
        }
    }
}

/// The form line of a model (see `form_model_line`), appended.
fn push_form_model_line(s: &mut String, m: &ModelInfo)
    ensures
        final(s)@ == old(s)@ + form_model_line(m@),
{
    push_str(s, m.id.as_str());
    push_char(s, ':');
    push_str(s, m.tier.as_str());
    push_char(s, ':');
    push_decimal(s, m.context_window as u64);
    if m.reasoning {
        push_str(s, ":reasoning");
    }
    assert(final(s)@ =~= old(s)@ + form_model_line(m@));
}

/// The form lines of the models (see `form_models_text`).
fn form_models_string(models: &Vec<ModelInfo>) -> (r: String)
    ensures
        r@ == form_models_text(models.deep_view()),
{
    let ghost dv = models.deep_view();
    let mut s = String::new();
    for i in 0..models.len()
        invariant
            dv == models.deep_view(),
            dv.len() == models@.len(),
            s@ == form_models_text(dv.take(i as int)),
    {
        assert(dv[i as int] == models@[i as int]@);
        assert(dv.take(i + 1).drop_last() =~= dv.take(i as int));
        if i > 0 {
            push_char(&mut s, '\n');
        }
        push_form_model_line(&mut s, &models[i]);
        assert(s@ =~= form_models_text(dv.take(i + 1)));
    }
    assert(dv.take(dv.len() as int) =~= dv);
    s
}

/// The position of an endpoint type among the options (see `endpoint_index`).
fn endpoint_index_of(t: &str) -> (r: usize)
    ensures
        r == endpoint_index(t@),
        r < 4,
{
    if str_eq(t, "openai_compat") {
        0
    } else if str_eq(t, "openai_responses") {
        1
    } else if str_eq(t, "anthropic_messages") {
        2
    } else if str_eq(t, "gemini") {
        3
    } else {
        0
    }
}

/// The model of one non-blank, trimmed form line (see `form_line_model`).
fn parse_form_line(t: &Vec<char>, line: Ghost<Seq<char>>) -> (r: ModelInfo)
    requires
        t@ == trim_spec(line@),
    ensures
        r@ == form_line_model(line@),
{
    let parts = split_chars(t, ':');
    proof {
        assert forall|k: int| 0 <= k < parts@.len() implies #[trigger] parts@[k]@ == parts.deep_view()[k] by {
            assert(parts@[k].deep_view() =~= parts@[k]@);
        }
    }
    let id = string_from_chars(&parts[0]);
    let ctx: u32 = if parts.len() > 2 {
        match parse_unsigned(&parts[2], 0xffff_ffff) {
            Some(n) => n as u32,
            None => 128000,
        }
    } else {
        128000
    };
    let reasoning = if parts.len() > 3 {
        let r = chars_of("reasoning");
        vec_chars_eq(&parts[3], &r)
    } else {
        false
    };
    let tier_raw = if parts.len() > 1 {
        string_from_chars(&parts[1])
    } else {
        string_of("T2")
    };
    let tier = to_uppercase(tier_raw.as_str());
    ModelInfo { id, name: String::new(), context_window: ctx, reasoning, tier, enabled: true, thinking_level_map: None }
}

/// The models of the form text (see `form_lines_models`).
fn form_models_of(text: &str) -> (r: Vec<ModelInfo>)
    ensures
        r.deep_view() == form_lines_models(split_spec(text@, '\n')),
{
    let v = chars_of(text);
    let lines = split_chars(&v, '\n');
    let ghost ls = lines.deep_view();
    let mut out: Vec<ModelInfo> = Vec::new();
    for i in 0..lines.len()
        invariant
            ls == lines.deep_view(),
            ls.len() == lines@.len(),
            ls == split_spec(text@, '\n'),
            out.deep_view() == form_lines_models(ls.take(i as int)),
    {
        assert(ls.take(i + 1).drop_last() =~= ls.take(i as int));
        assert(lines@[i as int].deep_view() =~= lines@[i as int]@);
        let t = trim_chars(&lines[i]);
        if t.len() > 0 {
            let m = parse_form_line(&t, Ghost(ls[i as int]));
            let ghost before = out;
            out.push(m);
            proof {
                crate::seqs::lemma_deep_view_push(before, out, m);
            }
        }
    }
    assert(ls.take(ls.len() as int) =~= ls);
    out
}

impl RouterTuiState {
    /// The screen for a loaded configuration: its providers and router port,
    /// the list shown, the cursor on the first provider.
    pub fn new(providers: Vec<ProviderInfo>, router_port: u16) -> (r: RouterTuiState)
        ensures
            r@.providers == providers.deep_view(),
            r@.router_port == router_port,
            r@.selected == 0 && r@.expanded is None && r@.view == RouterView::List,
            r@.form_id.len() == 0 && r@.form_name.len() == 0 && r@.form_url.len() == 0,
            r@.form_key.len() == 0 && r@.form_models.len() == 0,
            r@.form_ep_idx == 0 && !r@.form_ep_open && r@.form_enabled && r@.form_focus == 0,
            r@.form_mode == FormMode::Add,
            !r@.router_running && r@.request_count == 0 && !r@.save_pending,
            screen_wf(r@),
    {
        RouterTuiState {
            providers,
            selected: 0,
            expanded: None,
            view: RouterView::List,
            form_id: String::new(),
            form_name: String::new(),
            form_url: String::new(),
            form_key: String::new(),
            form_ep_idx: 0,
            form_ep_open: false,
            form_enabled: true,
            form_models: String::new(),
            form_focus: 0,
            form_mode: FormMode::Add,
            router_running: false,
            router_port,
            request_count: 0,
            save_pending: false,
        }
    }
}

/// Opens the form for a new provider (see `open_add_spec`).
fn open_form_add(state: &mut RouterTuiState)
    ensures
        final(state)@ == open_add_spec(old(state)@),
{
    state.view = RouterView::Form;
    state.form_mode = FormMode::Add;
    state.form_id = String::new();
    state.form_name = String::new();
    state.form_url = string_of("https://");
    state.form_key = String::new();
    state.form_ep_idx = 0;
    state.form_ep_open = false;
    state.form_enabled = true;
    state.form_models = String::new();
    state.form_focus = 0;
}

/// Opens the form on provider `idx` (see `open_edit_spec`).
fn open_form_edit(state: &mut RouterTuiState, idx: usize)
    requires
        idx < old(state).providers@.len(),
    ensures
        final(state)@ == open_edit_spec(old(state)@, idx),
{
    let p = &state.providers[idx];
    assert(state.providers.deep_view()[idx as int] == p@);
    let id = p.id.clone();
    let name = p.name.clone();
    let url = p.base_url.clone();
    let ep = endpoint_index_of(p.endpoint_type.as_str());
    let enabled = p.enabled;
    let models = form_models_string(&p.models);
    state.view = RouterView::Form;
    state.form_mode = FormMode::Edit(idx);
    state.form_id = id;
    state.form_name = name;
    state.form_url = url;
    state.form_key = String::new();
    state.form_ep_idx = ep;
    state.form_ep_open = false;
    state.form_enabled = enabled;
    state.form_models = models;
    state.form_focus = 0;
}

/// Deletes the provider under the cursor (see `delete_spec`).
fn delete_provider(state: &mut RouterTuiState)
    requires
        screen_wf(old(state)@),
    ensures
        final(state)@ == delete_spec(old(state)@),
{
    if state.providers.len() == 0 {
        return;
    }
    let ghost ps = state.providers.deep_view();
    state.providers.remove(state.selected);
    assert(state.providers.deep_view() =~= ps.remove(state.selected as int));
    if state.selected >= state.providers.len() {
        state.selected = if state.providers.len() > 0 {
            state.providers.len() - 1
        } else {
            0
        };
    }
    state.expanded = None;
    state.save_pending = true;
}

/// Handles a key on the provider list (see `list_key_spec`); returns whether
/// to quit.
pub fn handle_list_key(key: KeyCode, state: &mut RouterTuiState) -> (r: bool)
    requires
        screen_wf(old(state)@),
    ensures
        (final(state)@, r) == list_key_spec(old(state)@, key),
        screen_wf(final(state)@),
{
    let n = state.providers.len();
    if n == 0 {
        if key == KeyCode::Char('a') {
            open_form_add(state);
        }
        return false;
    }
    let sel = state.selected;
    match key {
        KeyCode::Down | KeyCode::Char('j') => {
            state.selected = if sel + 1 < n {
                sel + 1
            } else {
                n - 1
            };
            false
        },
        KeyCode::Up | KeyCode::Char('k') => {
            state.selected = if sel > 0 {
                sel - 1
            } else {
                0
            };
            false
        },
        KeyCode::Right | KeyCode::Enter => {
            if state.expanded == Some(sel) {
                state.expanded = None;
            } else {
                state.expanded = Some(sel);
            }
            false
        },
        KeyCode::Left => {
            if state.expanded == Some(sel) {
                state.expanded = None;
            }
            false
        },
        KeyCode::Char('a') => {
            open_form_add(state);
            false
        },
        KeyCode::Char('e') => {
            open_form_edit(state, sel);
            false
        },
        KeyCode::Char('d') => {
            delete_provider(state);
            false
        },
        KeyCode::Char(' ') => {
            let ghost ps = state.providers.deep_view();
            assert(ps[sel as int] == state.providers@[sel as int]@);
            let was = state.providers[sel].enabled;
            state.providers[sel].enabled = !was;
            assert(state.providers.deep_view() =~= ps.update(sel as int, ProviderView { enabled: !was, ..ps[sel as int] }));
            state.save_pending = true;
            false
        },
        KeyCode::Char('q') | KeyCode::Esc => true,
        _ => false,
    }
}

/// Saves the form into the providers (see `save_form_spec`).
fn save_form(state: &mut RouterTuiState)
    requires
        screen_wf(old(state)@),
    ensures
        final(state)@ == save_form_spec(old(state)@),
        screen_wf(final(state)@),
{
    let id = trim(state.form_id.as_str());
    let name = trim(state.form_name.as_str());
    let url = trim(state.form_url.as_str());
    let ep = endpoint_option(state.form_ep_idx);
    let key = state.form_key.clone();
    let enabled = state.form_enabled;
    if id.as_str().is_empty() || name.as_str().is_empty() || url.as_str().is_empty() {
        return;
    }
    let models = form_models_of(state.form_models.as_str());
    let ghost ps = state.providers.deep_view();
    match state.form_mode {
        FormMode::Add => {
            let p = ProviderInfo { id, name, base_url: url, api_key: key, endpoint_type: ep, enabled, models };
            let ghost before = state.providers;
            state.providers.push(p);
            proof {
                crate::seqs::lemma_deep_view_push(before, state.providers, p);
            }
            state.selected = state.providers.len() - 1;
        },
        FormMode::Edit(idx) => {
            if idx < state.providers.len() {
                assert(ps[idx as int] == state.providers@[idx as int]@);
                let old_key = state.providers[idx].api_key.clone();
                let k = if key.as_str().is_empty() {
                    old_key
                } else {
                    key
                };
                let p = ProviderInfo { id, name, base_url: url, api_key: k, endpoint_type: ep, enabled, models };
                let ghost pv = p@;
                state.providers[idx] = p;
                assert(state.providers.deep_view() =~= ps.update(idx as int, pv));
            }
        },
    }
    state.save_pending = true;
}

/// An ASCII control character.
fn ascii_control(c: char) -> (r: bool)
    ensures
        r == is_ascii_control(c),
{
    (c as u32) < 0x20 || c as u32 == 0x7f
}

/// Handles a key on the form (see `form_key_spec`); `shift` tells Shift+Tab
/// from Tab. Never asks to quit.
pub fn handle_form_key(key: KeyCode, shift: bool, state: &mut RouterTuiState) -> (r: bool)
    requires
        screen_wf(old(state)@),
    ensures
        final(state)@ == form_key_spec(old(state)@, key, shift),
        !r,
        screen_wf(final(state)@),
{
    if state.form_ep_open {
        match key {
            KeyCode::Esc | KeyCode::Enter => {
                state.form_ep_open = false;
            },
            KeyCode::Up => {
                state.form_ep_idx = if state.form_ep_idx > 0 {
                    state.form_ep_idx - 1
                } else {
                    0
                };
            },
            KeyCode::Down => {
                state.form_ep_idx = if state.form_ep_idx + 1 < 4 {
                    state.form_ep_idx + 1
                } else {
                    3
                };
            },
            _ => {},
        }
        return false;
    }
    match key {
        KeyCode::Tab => {
            if shift {
                state.form_focus = if state.form_focus > 0 {
                    state.form_focus - 1
                } else {
                    0
                };
            } else {
                state.form_focus = if state.form_focus < 6 {
                    state.form_focus + 1
                } else {
                    7
                };
            }
        },
        KeyCode::Char(c) => {
            if !ascii_control(c) {
                if state.form_focus == 0 {
                    push_char(&mut state.form_id, c);
                } else if state.form_focus == 1 {
                    push_char(&mut state.form_name, c);
                } else if state.form_focus == 2 {
                    push_char(&mut state.form_url, c);
                } else if state.form_focus == 3 {
                    push_char(&mut state.form_key, c);
                }
            }
        },
        KeyCode::Backspace => {
            if state.form_focus == 0 {
                pop_char(&mut state.form_id);
            } else if state.form_focus == 1 {
                pop_char(&mut state.form_name);
            } else if state.form_focus == 2 {
                pop_char(&mut state.form_url);
            } else if state.form_focus == 3 {
                pop_char(&mut state.form_key);
            }
        },
        KeyCode::Enter => {
            if state.form_focus == 4 {
                state.form_ep_open = true;
            } else if state.form_focus == 7 {
                save_form(state);
                state.view = RouterView::List;
            }
        },
        KeyCode::Esc => {
            state.view = RouterView::List;
        },
        KeyCode::F(n) => {
            if n == 2 {
                save_form(state);
                state.view = RouterView::List;
            }
        },
        _ => {},
    }
    false
}

/// Handles a key on the screen: the list or the form, as shown; returns
/// whether to quit.
pub fn handle_key(key: KeyCode, shift: bool, state: &mut RouterTuiState) -> (r: bool)
    requires
        screen_wf(old(state)@),
    ensures
        old(state)@.view == RouterView::List ==> (final(state)@, r) == list_key_spec(old(state)@, key),
        old(state)@.view == RouterView::Form ==> final(state)@ == form_key_spec(old(state)@, key, shift) && !r,
        screen_wf(final(state)@),
{
    match state.view {
        RouterView::List => handle_list_key(key, state),
        RouterView::Form => handle_form_key(key, shift, state),
    }
}


/// An ASCII lower-case letter made upper-case; any other character unchanged.
pub open spec fn ascii_upper(c: char) -> char {
    if 'a' <= c && c <= 'z' {
        ((c as u32) - 32) as char
    } else {
        c
    }
}

/// The hash that picks a provider's icon colour: over the bytes of its id,
/// `h = h * 31 + b` in wrapping 32-bit arithmetic, from 0.
pub open spec fn icon_hash(b: Seq<u8>) -> u32
    decreases b.len(),
{
    if b.len() == 0 {
        0
    } else {
        vstd::wrapping::u32_specs::wrapping_add(
            vstd::wrapping::u32_specs::wrapping_mul(icon_hash(b.drop_last()), 31),
            b.last() as u32,
        )
    }
}

/// The background colours of provider icons.
pub open spec fn icon_colors() -> Seq<Color> {
    seq![
        Color::Rgb(26, 47, 74),
        Color::Rgb(13, 40, 24),
        Color::Rgb(30, 16, 46),
        Color::Rgb(14, 31, 46),
        Color::Rgb(46, 26, 26),
    ]
}

/// The icon of a provider: the first two characters of its id in ASCII
/// upper case, on a colour picked by the hash of the id's bytes.
pub fn provider_icon(id: &str) -> (r: (String, Color))
    ensures
        r.0@ == id@.take(if id@.len() < 2 { id@.len() as int } else { 2 }).map_values(|c: char| ascii_upper(c)),
        r.1 == icon_colors()[(icon_hash(id.spec_bytes()) % 5) as int],
{
    let v = chars_of(id);
    let n: usize = if v.len() < 2 { v.len() } else { 2 };
    let mut label: Vec<char> = Vec::new();
    for i in 0..n
        invariant
            n <= v@.len(),
            v@ == id@,
            label@ == v@.take(i as int).map_values(|c: char| ascii_upper(c)),
    {
        let c = v[i];
        let u = if 'a' <= c && c <= 'z' {
            ((c as u8) - 32) as char
        } else {
            c
        };
        assert(u == ascii_upper(c)) by {
            if 'a' <= c && c <= 'z' {
                assert((c as u8) as u32 == c as u32);
            }
        }
        label.push(u);
        assert(v@.take(i + 1).map_values(|c: char| ascii_upper(c)) =~= v@.take(i as int).map_values(
            |c: char| ascii_upper(c),
        ).push(ascii_upper(c)));
    }
    let b = id.as_bytes();
    let mut h: u32 = 0;
    for i in 0..b.len()
        invariant
            b@ == id.spec_bytes(),
            h == icon_hash(b@.take(i as int)),
    {
        assert(b@.take(i + 1).drop_last() =~= b@.take(i as int));
        h = h.wrapping_mul(31).wrapping_add(b[i] as u32);
    }
    assert(b@.take(b@.len() as int) =~= b@);
    let k = h % 5;
    let bg = if k == 0 {
        Color::Rgb(26, 47, 74)
    } else if k == 1 {
        Color::Rgb(13, 40, 24)
    } else if k == 2 {
        Color::Rgb(30, 16, 46)
    } else if k == 3 {
        Color::Rgb(14, 31, 46)
    } else {
        Color::Rgb(46, 26, 26)
    };
    (string_from_chars(&label), bg)
}

/// The key help of the provider list.
pub const LIST_KEYS: &'static str = "  ↑↓ Navigate  Enter Expand  Space Toggle  a Add  e Edit  d Delete  q Quit";

/// The line shown when no provider is configured.
pub const NO_PROVIDERS: &'static str = "  No providers configured. Press 'a' to add one.";

/// The status bar of the provider list.
pub open spec fn list_top_text(running: bool, port: u16, count: u64) -> Seq<char> {
    " Provider Router "@ + (if running { "● Running"@ } else { "● Stopped"@ }) + " 127.0.0.1:"@
        + dec_spec(port as nat) + "  "@ + "LIST"@ + " mode  proxied: "@ + dec_spec(count as nat)
}

/// The columns a provider's row of the list takes: marker, icon, name,
/// endpoint, state and model count with their gaps (truncated to 16 bits).
pub open spec fn provider_row_width(p: ProviderView) -> u16 {
    let n = p.models.len();
    let model_text_len = 1 + dec_spec(n) .len() + 6 + if n == 1 { 0int } else { 1int };
    (3 + 4 + p.name.len() + 2 + p.endpoint_type.len() + 2 + 9 + 2 + model_text_len + 2) as u16
}

/// The widest provider row, or `w` when wider.
pub open spec fn widest_row(ps: Seq<ProviderView>, w: u16) -> u16
    decreases ps.len(),
{
    if ps.len() == 0 {
        w
    } else {
        let m = widest_row(ps.drop_last(), w);
        let r = provider_row_width(ps.last());
        if r > m {
            r
        } else {
            m
        }
    }
}

/// The larger of two widths.
pub open spec fn wider(a: u16, b: u16) -> u16 {
    if a > b {
        a
    } else {
        b
    }
}

/// The widest line of the provider list: its status bar, its rows, its key
/// help and, with no provider, the notice saying so.
pub open spec fn list_width(s: RouterScreen) -> u16 {
    let top = list_top_text(s.router_running, s.router_port, s.request_count).len() as u16;
    let rows = widest_row(s.providers, top);
    let keys = wider(rows, LIST_KEYS@.len() as u16);
    if s.providers.len() == 0 {
        wider(keys, NO_PROVIDERS@.len() as u16)
    } else {
        keys
    }
}

/// The rows the providers take: one each, and the expanded one's models
/// (their count truncated to 16 bits).
pub open spec fn provider_rows(ps: Seq<ProviderView>, expanded: Option<usize>) -> int
    decreases ps.len(),
{
    if ps.len() == 0 {
        0
    } else {
        let i = ps.len() - 1;
        provider_rows(ps.drop_last(), expanded) + 1 + if expanded == Some(i as usize) {
            ps.last().models.len() as u16 as int
        } else {
            0
        }
    }
}

/// The rows of the provider list: borders, status bar, title, the
/// providers (or the notice that there are none) and the key help.
pub open spec fn list_height(s: RouterScreen) -> int {
    2 + 1 + 1 + (if s.providers.len() == 0 { 1 } else { provider_rows(s.providers, s.expanded) }) + 1
}

/// The size the configuration screen's content asks for: none for the form,
/// which takes the whole screen; for the list, its widest line and four
/// columns, by its rows.
pub open spec fn content_size_spec(s: RouterScreen) -> Option<(u16, u16)> {
    match s.view {
        RouterView::Form => None,
        RouterView::List => Some(((list_width(s) + 4) as u16, list_height(s) as u16)),
    }
}

/// The list's size fits in 16 bits (what `content_size` computes with).
pub open spec fn size_fits(s: RouterScreen) -> bool {
    s.view == RouterView::List ==> list_width(s) + 4 <= u16::MAX && list_height(s) <= u16::MAX
}

/// The number of characters of a text, truncated to 16 bits.
fn char_count16(s: &str) -> (r: u16)
    ensures
        r == s@.len() as u16,
{
    chars_of(s).len() as u16
}

/// The widest line of the provider list and its rows (see `list_width`,
/// `list_height`).
fn list_measure(state: &RouterTuiState) -> (r: (u16, u128))
    ensures
        r.0 == list_width(state@),
        r.1 == list_height(state@),
{
    let ghost ps = state.providers.deep_view();
    let mut top = string_of(" Provider Router ");
    push_str(&mut top, if state.router_running { "● Running" } else { "● Stopped" });
    push_str(&mut top, " 127.0.0.1:");
    push_decimal(&mut top, state.router_port as u64);
    push_str(&mut top, "  ");
    push_str(&mut top, "LIST");
    push_str(&mut top, " mode  proxied: ");
    push_decimal(&mut top, state.request_count);
    assert(top@ =~= list_top_text(state.router_running, state.router_port, state.request_count));
    let mut max_w: u16 = char_count16(top.as_str());
    let ghost top_w = max_w;
    let mut rows: u128 = 0;
    let mut i: usize = 0;
    while i < state.providers.len()
        invariant
            ps == state.providers.deep_view(),
            i <= ps.len(),
            max_w == widest_row(ps.take(i as int), top_w),
            rows as int == provider_rows(ps.take(i as int), state.expanded),
            rows <= i * 0x10000,
        decreases ps.len() - i,
    {
        assert(ps.take(i + 1).drop_last() =~= ps.take(i as int));
        let p = &state.providers[i];
        assert(ps[i as int] == p@);
        let n = p.models.len();
        let mut model_text = string_of(" ");
        push_decimal(&mut model_text, n as u64);
        push_str(&mut model_text, " model");
        if n != 1 {
            push_str(&mut model_text, "s");
        }
        let nm = chars_of(p.name.as_str()).len();
        let ep = chars_of(p.endpoint_type.as_str()).len();
        let mt = chars_of(model_text.as_str()).len();
        assert(mt == 1 + dec_spec(n as nat).len() + 6 + if n == 1 { 0int } else { 1int }) by {
            reveal_strlit(" ");
            reveal_strlit(" model");
            reveal_strlit("s");
        }
        let line_len = (3 + 4 + nm as u128 + 2 + ep as u128 + 2 + 9 + 2 + mt as u128 + 2) as u16;
        if line_len > max_w {
            max_w = line_len;
        }
        rows = rows + 1;
        if state.expanded == Some(i) {
            rows = rows + (n as u16) as u128;
        }
        assert(rows <= (i + 1) * 0x10000) by (nonlinear_arith)
            requires
                rows <= i * 0x10000 + 0x10000,
        ;
        i += 1;
    }
    assert(ps.take(ps.len() as int) =~= ps);
    let kw = char_count16(LIST_KEYS);
    if kw > max_w {
        max_w = kw;
    }
    let mut h: u128 = 4 + 1;
    if state.providers.len() == 0 {
        h = h + 1;
        let ew = char_count16(NO_PROVIDERS);
        if ew > max_w {
            max_w = ew;
        }
    } else {
        h = h + rows;
    }
    (max_w, h)
}

/// Whether the list's size fits in 16 bits (see `size_fits`).
pub fn content_size_fits(state: &RouterTuiState) -> (r: bool)
    ensures
        r == size_fits(state@),
{
    match state.view {
        RouterView::Form => true,
        RouterView::List => {
            let (w, h) = list_measure(state);
            w <= u16::MAX - 4 && h <= u16::MAX as u128
        },
    }
}

/// The size the configuration screen's content asks for (see
/// `content_size_spec`).
pub fn compute_content_size(state: &RouterTuiState) -> (r: Option<(u16, u16)>)
    requires
        size_fits(state@),
    ensures
        r == content_size_spec(state@),
{
    match state.view {
        RouterView::Form => None,
        RouterView::List => {
            let (w, h) = list_measure(state);
            Some((w + 4, h as u16))
        },
    }
}


} // verus!
