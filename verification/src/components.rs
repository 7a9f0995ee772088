//! The data of the interface components (panels, bars, popup, theme) and the
//! pure decisions behind their rendering.

use vstd::prelude::*;
use crate::ansi::Color;
use crate::state::{AgentStatus, AgentPanelSubsection, McpInfo, SelectionState, SkillInfo, SubAgentInfo, WorkspaceNode};
use crate::strs::string_of;
use vstd::string::StringSliceAdditionalSpecFns;
use crate::tui_state::tree_rows;

verus! {

/// The colour theme.
#[derive(Debug, Clone, Copy, PartialEq, Eq)]
pub struct Theme {
    pub bg: Color,
    pub text: Color,
    pub text_dim: Color,
    pub border: Color,
    pub border_dim: Color,
    pub highlight_bg: Color,
    pub accent: Color,
    pub heading: Color,
    pub success: Color,
    pub selection_fg: Color,
    /// Background of removed diff lines.
    pub diff_red_bg: Color,
    /// Background of added diff lines.
    pub diff_green_bg: Color,
    /// Markdown headings.
    pub heading_color: Color,
    /// Markdown block quote text.
    pub blockquote_text: Color,
    /// Markdown inline code background.
    pub inline_code_bg: Color,
    /// Markdown code block border.
    pub code_border: Color,
    /// Markdown code block background.
    pub code_bg: Color,
    /// Markdown links.
    pub link_color: Color,
    /// Border of warnings and confirmations.
    pub warning: Color,
    /// Background of the user's messages.
    pub user_bg: Color,
}

/// The cyan theme.
pub open spec fn cyan_spec() -> Theme {
    Theme {
        bg: Color::Rgb(0, 7, 14),
        text: Color::Rgb(223, 232, 232),
        text_dim: Color::Rgb(132, 155, 156),
        border: Color::Rgb(151, 255, 245),
        border_dim: Color::Rgb(76, 133, 135),
        highlight_bg: Color::Rgb(90, 90, 90),
        accent: Color::Rgb(255, 191, 92),
        heading: Color::Rgb(255, 191, 92),
        success: Color::Rgb(173, 255, 47),
        selection_fg: Color::Rgb(255, 255, 255),
        diff_red_bg: Color::Rgb(42, 26, 26),
        diff_green_bg: Color::Rgb(26, 42, 26),
        heading_color: Color::Rgb(255, 191, 92),
        blockquote_text: Color::Rgb(132, 155, 156),
        inline_code_bg: Color::Rgb(30, 40, 45),
        code_border: Color::Rgb(76, 133, 135),
        code_bg: Color::Rgb(10, 22, 28),
        link_color: Color::Rgb(151, 255, 245),
        warning: Color::Rgb(255, 159, 67),
        user_bg: Color::Rgb(45, 60, 72),
    }
}

impl Theme {
    /// The cyan industrial theme (the default).
    pub fn cyan() -> (r: Theme)
        ensures
            r == cyan_spec(),
    {
        Theme {
            bg: Color::Rgb(0, 7, 14),
            text: Color::Rgb(223, 232, 232),
            text_dim: Color::Rgb(132, 155, 156),
            border: Color::Rgb(151, 255, 245),
            border_dim: Color::Rgb(76, 133, 135),
            highlight_bg: Color::Rgb(90, 90, 90),
            accent: Color::Rgb(255, 191, 92),
            heading: Color::Rgb(255, 191, 92),
            success: Color::Rgb(173, 255, 47),
            selection_fg: Color::Rgb(255, 255, 255),
            diff_red_bg: Color::Rgb(42, 26, 26),
            diff_green_bg: Color::Rgb(26, 42, 26),
            heading_color: Color::Rgb(255, 191, 92),
            blockquote_text: Color::Rgb(132, 155, 156),
            inline_code_bg: Color::Rgb(30, 40, 45),
            code_border: Color::Rgb(76, 133, 135),
            code_bg: Color::Rgb(10, 22, 28),
            link_color: Color::Rgb(151, 255, 245),
            warning: Color::Rgb(255, 159, 67),
            user_bg: Color::Rgb(45, 60, 72),
        }
    }
}

impl Default for Theme {
    /// The cyan theme.
    fn default() -> (r: Theme)
        ensures
            r == cyan_spec(),
    {
        Theme::cyan()
    }
}

/// The right panel: the subagents, skills and MCP servers the agent can use.
#[derive(Debug, Clone, Default)]
pub struct AgentPanel {
    pub active_agent: String,
    pub agent_status: Option<AgentStatus>,
    pub subagents: Vec<SubAgentInfo>,
    pub has_focus: bool,
    pub subsection: AgentPanelSubsection,
    /// Subagent cursor (0 = title, 1..=N = subagents).
    pub cursor: usize,
    pub skills: Vec<SkillInfo>,
    /// Skill cursor (0 = title, 1..=N = skills).
    pub skill_cursor: usize,
    pub mcps: Vec<McpInfo>,
    /// MCP cursor (0 = title, 1..=N = servers).
    pub mcp_cursor: usize,
    pub selection: SelectionState,
}

/// The status word and colour of the agent panel.
pub open spec fn panel_status_spec(s: Option<AgentStatus>) -> (Seq<char>, Color) {
    match s {
        Some(AgentStatus::Running) => ("running"@, Color::Rgb(173, 255, 47)),
        Some(AgentStatus::Idle) => ("idle"@, Color::Rgb(173, 255, 47)),
        Some(AgentStatus::Starting) => ("starting"@, Color::Rgb(255, 191, 92)),
        Some(AgentStatus::Error) => ("error"@, Color::Red),
        _ => ("closed"@, Color::Rgb(132, 155, 156)),
    }
}

impl AgentPanel {
    /// The status word and colour shown for the agent (see `panel_status_spec`).
    pub fn status_text(&self) -> (r: (String, Color))
        ensures
            (r.0@, r.1) == panel_status_spec(self.agent_status),
    {
        match self.agent_status {
            Some(AgentStatus::Running) => (string_of("running"), Color::Rgb(173, 255, 47)),
            Some(AgentStatus::Idle) => (string_of("idle"), Color::Rgb(173, 255, 47)),
            Some(AgentStatus::Starting) => (string_of("starting"), Color::Rgb(255, 191, 92)),
            Some(AgentStatus::Error) => (string_of("error"), Color::Red),
            _ => (string_of("closed"), Color::Rgb(132, 155, 156)),
        }
    }
}

/// The top bar: agent state, model and session.
#[derive(Debug, Clone, Default)]
pub struct TopBar {
    pub current_time: String,
    pub session_id: String,
    pub agent_status: Option<AgentStatus>,
    pub model_name: Option<String>,
    pub provider: Option<String>,
}

/// The status indicator and colour of the top bar.
pub open spec fn indicator_spec(s: Option<AgentStatus>, theme: Theme) -> (Seq<char>, Color) {
    match s {
        Some(AgentStatus::Running) => ("● running"@, theme.success),
        Some(AgentStatus::Idle) => ("● idle"@, theme.success),
        Some(AgentStatus::Starting) => ("◌ starting"@, theme.heading),
        Some(AgentStatus::Error) => ("● error"@, Color::Red),
        _ => ("○ closed"@, theme.text_dim),
    }
}

impl TopBar {
    /// The status indicator and colour (see `indicator_spec`).
    pub fn status_indicator(&self, theme: &Theme) -> (r: (String, Color))
        ensures
            (r.0@, r.1) == indicator_spec(self.agent_status, *theme),
    {
        match self.agent_status {
            Some(AgentStatus::Running) => (string_of("● running"), theme.success),
            Some(AgentStatus::Idle) => (string_of("● idle"), theme.success),
            Some(AgentStatus::Starting) => (string_of("◌ starting"), theme.heading),
            Some(AgentStatus::Error) => (string_of("● error"), Color::Red),
            _ => (string_of("○ closed"), theme.text_dim),
        }
    }
}

/// The floating popup.
#[derive(Debug, Clone, Default)]
pub struct Popup {
    pub visible: bool,
    pub title: String,
    pub description: String,
}

/// The scroll offset of the workspace section that keeps the cursor row in
/// view: 0 without focus, when everything fits, or on the title; otherwise,
/// once the cursor's line (title included) reaches the visible height, the
/// line a third of the height above it, at most `ws_total - ws_avail`.
pub open spec fn ws_scroll_spec(ws: Seq<WorkspaceNode>, cursor: nat, has_focus: bool, ws_total: nat, ws_avail: nat) -> nat {
    if !has_focus || ws_total <= ws_avail || cursor == 0 {
        0
    } else {
        let line: int = (if cursor - 1 < tree_rows(ws) { cursor - 1 } else { tree_rows(ws) as int }) + 1;
        if line >= ws_avail {
            let up: nat = if line >= ws_avail / 3 { (line - ws_avail / 3) as nat } else { 0 };
            let cap = (ws_total - ws_avail) as nat;
            if up < cap { up } else { cap }
        } else {
            0
        }
    }
}

/// The scroll offset of the workspace section (see `ws_scroll_spec`).
pub fn compute_ws_scroll(workspaces: &[WorkspaceNode], cursor: usize, has_focus: bool, ws_total: usize, ws_avail: usize) -> (r: usize)
    ensures
        r == ws_scroll_spec(workspaces@, cursor as nat, has_focus, ws_total as nat, ws_avail as nat),
{
    if !has_focus || ws_total <= ws_avail {
        return 0;
    }
    if cursor == 0 {
        return 0;
    }
    let target = cursor - 1;
    let ghost ws = workspaces@;
    let mut line: usize = 0;
    let mut wi: usize = 0;
    proof {
        crate::tui_state::lemma_tree_rows_nonneg_take(ws, 0);
    }
    while wi < workspaces.len() && line < target
        invariant
            ws == workspaces@,
            wi <= ws.len(),
            line <= target,
            line == (if target < crate::tui_state::tree_rows(ws.take(wi as int)) { target as nat } else { crate::tui_state::tree_rows(ws.take(wi as int)) }),
            line < target ==> line == crate::tui_state::tree_rows(ws.take(wi as int)),
        decreases ws.len() - wi,
    {
        let w = &workspaces[wi];
        proof {
            crate::tui_state::lemma_tree_rows_take_pub(ws, wi as int);
        }
        line = line + 1;
        if w.expanded {
            let n = w.sessions.len();
            let room = target - line;
            if n < room {
                line = line + n;
            } else {
                line = target;
            }
        }
        wi = wi + 1;
    }
    proof {
        if wi == ws.len() {
            assert(ws.take(wi as int) =~= ws);
        } else {
            crate::tui_state::lemma_tree_rows_mono_pub(ws, wi as int, ws.len() as int);
            assert(ws.take(ws.len() as int) =~= ws);
        }
    }
    assert(line == (if target < tree_rows(ws) { target as nat } else { tree_rows(ws) }));
    let l = line + 1;
    if l >= ws_avail {
        let third = ws_avail / 3;
        let up = if l >= third {
            l - third
        } else {
            0
        };
        let cap = ws_total - ws_avail;
        if up < cap {
            up
        } else {
            cap
        }
    } else {
        0
    }
}

/// The longest prefix, in bytes, that is scanned for markdown syntax.
pub const MARKDOWN_SCAN_BYTES: usize = 8192;

/// `b` holds byte `x` somewhere.
pub open spec fn has_byte(b: Seq<u8>, x: u8) -> bool {
    exists|i: int| 0 <= i < b.len() && b[i] == x
}

/// `b` holds the two bytes `x`, `y` next to each other somewhere.
pub open spec fn has_pair(b: Seq<u8>, x: u8, y: u8) -> bool {
    exists|i: int| 0 <= i < b.len() - 1 && #[trigger] b[i] == x && b[i + 1] == y
}

/// The part of a text scanned for markdown: its longest prefix of at most
/// 8192 bytes that ends a character.
pub open spec fn markdown_scan(bytes: Seq<u8>) -> Seq<u8> {
    if bytes.len() > 8192 {
        bytes.take(crate::strs::boundary_at_most(bytes, 8192) as int)
    } else {
        bytes
    }
}

/// Whether text (its first 8 KB) may hold markdown: one of `*`, `` ` ``,
/// `#`, `>`, `[`, `~`, or `1.`, or `- `.
pub open spec fn needs_markdown_spec(bytes: Seq<u8>) -> bool {
    let scan = markdown_scan(bytes);
    has_byte(scan, 42) || has_byte(scan, 96) || has_byte(scan, 35) || has_byte(scan, 62)
        || has_byte(scan, 91) || has_byte(scan, 126) || has_pair(scan, 49, 46) || has_pair(scan, 45, 32)
}

/// A quick test for markdown syntax, so that plain messages skip the parser
/// (see `needs_markdown_spec`).
pub fn needs_markdown(text: &str) -> (r: bool)
    ensures
        r == needs_markdown_spec(text.spec_bytes()),
{
    let b = text.as_bytes();
    let n = if b.len() > MARKDOWN_SCAN_BYTES {
        crate::strs::floor_boundary(text, MARKDOWN_SCAN_BYTES)
    } else {
        b.len()
    };
    let ghost scan = markdown_scan(b@);
    assert(scan.len() == n);
    let mut i: usize = 0;
    while i < n
        invariant
            b@ == text.spec_bytes(),
            scan == markdown_scan(b@),
            n == scan.len() <= b@.len(),
            i <= n,
            forall|j: int| 0 <= j < n ==> scan[j] == b@[j],
            forall|j: int| 0 <= j < i ==> scan[j] != 42 && scan[j] != 96 && scan[j] != 35 && scan[j] != 62 && scan[j] != 91 && scan[j] != 126,
            forall|j: int| 0 <= j < i && j + 1 < n ==> !(#[trigger] scan[j] == 49 && scan[j + 1] == 46) && !(scan[j] == 45 && scan[j + 1] == 32),
        decreases n - i,
    {
        let c = b[i];
        if c == 42 || c == 96 || c == 35 || c == 62 || c == 91 || c == 126 {
            assert(scan[i as int] == c);
            return true;
        }
        if i + 1 < n {
            let d = b[i + 1];
            if (c == 49 && d == 46) || (c == 45 && d == 32) {
                assert(scan[i as int] == c && scan[i + 1] == d);
                return true;
            }
        }
        i = i + 1;
    }
    false
}

} // verus!
