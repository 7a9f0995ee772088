//! The lines of the right panel: the agent and its subagents, the skills,
//! the MCP servers and the tasks, each section under a title that shows the
//! focus and the cursor.

use vstd::prelude::*;
use crate::ansi::{Style, StyledSpan, MOD_BOLD, with_modifier, with_fg, with_bg, spans_view, add_modifier};
use crate::components::{AgentPanel, Theme, panel_status_spec};
use crate::markdown::{MdLine, lines_view, plain_style, copy_spans};
use crate::sidebar_footer::{on_line, fg_bg, on_line_exec, one_line, fg_style, plain, fg_bg_style};
use crate::state::{AgentPanelSubsection, SubAgentInfo, SkillInfo, McpInfo};
use crate::strs::{dec_spec, push_str, push_decimal, string_of, str_eq, text_is_empty};

verus! {

/// A section's title: with the section focused, a bar and the title in the
/// accent colour (on the highlight when its cursor is on the title);
/// otherwise the title in the heading colour.
pub open spec fn section_title(label: Seq<char>, here: bool, on_title: bool, th: Theme) -> MdLine {
    if here {
        let spans = seq![
            ("▎"@, with_fg(plain_style(), th.accent)),
            (label, with_modifier(with_fg(plain_style(), th.accent), MOD_BOLD)),
        ];
        if on_title {
            on_line(spans, with_bg(plain_style(), th.highlight_bg))
        } else {
            spans
        }
    } else {
        seq![(" "@, plain_style()), (label, with_modifier(with_fg(plain_style(), th.heading), MOD_BOLD))]
    }
}

/// A list row's colours: highlighted under the cursor, dim otherwise.
pub open spec fn row_style(selected: bool, th: Theme) -> Style {
    if selected {
        fg_bg(th.selection_fg, th.highlight_bg)
    } else {
        fg_bg(th.text_dim, th.bg)
    }
}

/// The name the agent is shown under: its name, or `pi` without one.
pub open spec fn agent_name(a: Seq<char>) -> Seq<char> {
    if a.len() == 0 {
        "pi"@
    } else {
        a
    }
}

/// The rows of the first `n` subagents, but the one named like the agent.
pub open spec fn subagent_rows(sas: Seq<SubAgentInfo>, agent: Seq<char>, here: bool, cursor: usize, th: Theme, n: int) -> Seq<MdLine>
    decreases n,
{
    if n <= 0 {
        Seq::empty()
    } else {
        let prev = subagent_rows(sas, agent, here, cursor, th, n - 1);
        let sa = sas[n - 1];
        if sa.name@ == agent {
            prev
        } else {
            prev.push(on_line(
                seq![("○ "@, plain_style()), (sa.name@, plain_style()), ("  "@ + sa.description@, plain_style())],
                row_style(here && n == cursor, th),
            ))
        }
    }
}

/// How many skills are listed before the rest are counted.
pub const SKILLS_SHOWN: usize = 6;

/// The skills section's rows: the first six skills, then how many more there are.
pub open spec fn skill_rows(sks: Seq<SkillInfo>, here: bool, cursor: usize, th: Theme) -> Seq<MdLine> {
    let n = sks.len();
    if n == 0 {
        seq![seq![("○ 暂无"@, with_fg(plain_style(), th.text_dim))]]
    } else {
        let k = if n > 6 { 6 } else { n };
        Seq::new(k, |i: int| on_line(seq![("○ "@, plain_style()), (sks[i].name@, plain_style())], row_style(here && i + 1 == cursor, th)))
            + if n > 6 {
            seq![seq![("… 还有 "@ + dec_spec((n - 6) as nat) + " 个"@, with_fg(plain_style(), th.text_dim))]]
        } else {
            Seq::empty()
        }
    }
}

/// What an MCP server's row says after its name: its command, or without
/// one its number of tools.
pub open spec fn mcp_detail(m: McpInfo) -> Seq<char> {
    if m.command@.len() == 0 {
        "  ("@ + dec_spec(m.tool_count as nat) + " tools)"@
    } else {
        "  "@ + m.command@
    }
}

/// The MCP section's rows.
pub open spec fn mcp_rows(ms: Seq<McpInfo>, here: bool, cursor: usize, th: Theme) -> Seq<MdLine> {
    if ms.len() == 0 {
        seq![seq![("○ 暂无"@, with_fg(plain_style(), th.text_dim))]]
    } else {
        Seq::new(
            ms.len(),
            |i: int| on_line(
                seq![("◈ "@, plain_style()), (ms[i].name@, plain_style()), (mcp_detail(ms[i]), with_fg(plain_style(), th.text_dim))],
                row_style(here && i + 1 == cursor, th),
            ),
        )
    }
}

/// The agents section: its title, the agent with its state on the
/// highlight, then the other subagents.
pub open spec fn agents_section(p: AgentPanel, th: Theme) -> Seq<MdLine> {
    let agent = agent_name(p.active_agent@);
    let (status, sc) = panel_status_spec(p.agent_status);
    let here = p.has_focus && p.subsection == AgentPanelSubsection::Agents;
    seq![
        section_title("AGENTS"@ + " ("@ + dec_spec(p.subagents.len() as nat) + ")"@, here, p.cursor == 0, th),
        on_line(
            seq![("● "@, with_fg(plain_style(), sc)), (agent, with_fg(plain_style(), th.selection_fg)), ("  "@ + status, with_fg(plain_style(), sc))],
            with_bg(plain_style(), th.highlight_bg),
        ),
    ] + subagent_rows(p.subagents@, agent, here, p.cursor, th, p.subagents.len() as int)
}

/// The skills section: its title and rows.
pub open spec fn skills_section(p: AgentPanel, th: Theme) -> Seq<MdLine> {
    let here = p.has_focus && p.subsection == AgentPanelSubsection::Skills;
    seq![section_title("SKILLS"@ + " ("@ + dec_spec(p.skills.len() as nat) + ")"@, here, p.skill_cursor == 0, th)]
        + skill_rows(p.skills@, here, p.skill_cursor, th)
}

/// The MCP section: its title and rows.
pub open spec fn mcps_section(p: AgentPanel, th: Theme) -> Seq<MdLine> {
    let here = p.has_focus && p.subsection == AgentPanelSubsection::Mcps;
    seq![section_title("MCPS"@ + " ("@ + dec_spec(p.mcps.len() as nat) + ")"@, here, p.mcp_cursor == 0, th)]
        + mcp_rows(p.mcps@, here, p.mcp_cursor, th)
}

/// The tasks section: its title and the note that there are none.
pub open spec fn tasks_section(p: AgentPanel, th: Theme) -> Seq<MdLine> {
    let here = p.has_focus && p.subsection == AgentPanelSubsection::Tasks;
    seq![section_title("TASKS"@, here, true, th), seq![("○ 暂无任务"@, with_fg(plain_style(), th.text_dim))]]
}

/// The lines of the right panel: its four sections, an empty line between
/// two.
pub open spec fn panel_lines_spec(p: AgentPanel, th: Theme) -> Seq<MdLine> {
    agents_section(p, th) + seq![Seq::empty()] + skills_section(p, th) + seq![Seq::empty()] + mcps_section(p, th)
        + seq![Seq::empty()] + tasks_section(p, th)
}

/// A section's title (see `section_title`).
fn section_title_line(label: String, here: bool, on_title: bool, th: &Theme) -> (r: Vec<StyledSpan>)
    ensures
        spans_view(r@) == section_title(label@, here, on_title, *th),
{
    if here {
        let spans = vec![(string_of("▎"), fg_style(th.accent)), (label, add_modifier(fg_style(th.accent), MOD_BOLD))];
        let ghost sv = spans_view(spans@);
        assert(sv =~= seq![sv[0], sv[1]]);
        if on_title {
            on_line_exec(spans, Style { bg: Some(th.highlight_bg), ..plain() })
        } else {
            spans
        }
    } else {
        let spans = vec![(string_of(" "), plain()), (label, add_modifier(fg_style(th.heading), MOD_BOLD))];
        assert(spans_view(spans@) =~= section_title(label@, here, on_title, *th));
        spans
    }
}

/// A list row's colours (see `row_style`).
fn row_style_of(selected: bool, th: &Theme) -> (r: Style)
    ensures
        r == row_style(selected, *th),
{
    if selected {
        fg_bg_style(th.selection_fg, th.highlight_bg)
    } else {
        fg_bg_style(th.text_dim, th.bg)
    }
}

/// A title with a count: `label (n)`.
fn counted(label: &str, n: usize) -> (r: String)
    ensures
        r@ == label@ + " ("@ + dec_spec(n as nat) + ")"@,
{
    let mut t = string_of(label);
    push_str(&mut t, " (");
    push_decimal(&mut t, n as u64);
    push_str(&mut t, ")");
    t
}

/// Appends one line.
fn push_line(out: &mut Vec<Vec<StyledSpan>>, l: Vec<StyledSpan>)
    ensures
        lines_view(final(out)@) == lines_view(old(out)@).push(spans_view(l@)),
{
    let ghost b = lines_view(out@);
    out.push(l);
    assert(lines_view(out@) =~= b.push(spans_view(l@)));
}

/// Appends lines.
fn append(out: &mut Vec<Vec<StyledSpan>>, more: &Vec<Vec<StyledSpan>>)
    ensures
        lines_view(final(out)@) == lines_view(old(out)@) + lines_view(more@),
{
    let ghost start = lines_view(out@);
    let ghost mv = lines_view(more@);
    let mut i: usize = 0;
    while i < more.len()
        invariant
            mv == lines_view(more@),
            i <= more@.len(),
            lines_view(out@) =~= start + mv.take(i as int),
        decreases more@.len() - i,
    {
        push_line(out, copy_spans(&more[i]));
        assert(mv.take(i + 1) =~= mv.take(i as int).push(mv[i as int]));
        i += 1;
    }
    assert(mv.take(more@.len() as int) =~= mv);
}

/// An empty line.
fn blank() -> (r: Vec<StyledSpan>)
    ensures
        spans_view(r@) == Seq::<(Seq<char>, Style)>::empty(),
{
    let r: Vec<StyledSpan> = Vec::new();
    assert(spans_view(r@) =~= Seq::<(Seq<char>, Style)>::empty());
    r
}

impl AgentPanel {
    /// The agents section (see `agents_section`).
    fn agents_lines(&self, th: &Theme) -> (r: Vec<Vec<StyledSpan>>)
        ensures
            lines_view(r@) == agents_section(*self, *th),
    {
        let agent = if text_is_empty(self.active_agent.as_str()) { string_of("pi") } else { string_of(self.active_agent.as_str()) };
        let (status, sc) = self.status_text();
        let on_agents = self.has_focus && self.subsection == AgentPanelSubsection::Agents;
        let mut out: Vec<Vec<StyledSpan>> = Vec::new();
        push_line(&mut out, section_title_line(counted("AGENTS", self.subagents.len()), on_agents, self.cursor == 0, th));
        let mut st = string_of("  ");
        push_str(&mut st, status.as_str());
        let al = vec![(string_of("● "), fg_style(sc)), (string_of(agent.as_str()), fg_style(th.selection_fg)), (st, fg_style(sc))];
        let ghost av = spans_view(al@);
        assert(av =~= seq![av[0], av[1], av[2]]);
        push_line(&mut out, on_line_exec(al, Style { bg: Some(th.highlight_bg), ..plain() }));
        let ghost head = lines_view(out@);
        let ghost sas = self.subagents@;
        let mut i: usize = 0;
        while i < self.subagents.len()
            invariant
                sas == self.subagents@,
                i <= sas.len(),
                on_agents == (self.has_focus && self.subsection == AgentPanelSubsection::Agents),
                agent@ == agent_name(self.active_agent@),
                lines_view(out@) =~= head + subagent_rows(sas, agent@, on_agents, self.cursor, *th, i as int),
            decreases sas.len() - i,
        {
            let sa = &self.subagents[i];
            if !str_eq(sa.name.as_str(), agent.as_str()) {
                let mut d = string_of("  ");
                push_str(&mut d, sa.description.as_str());
                let row = vec![(string_of("○ "), plain()), (string_of(sa.name.as_str()), plain()), (d, plain())];
                let ghost rv = spans_view(row@);
                assert(rv =~= seq![("○ "@, plain_style()), (sa.name@, plain_style()), ("  "@ + sa.description@, plain_style())]);
                push_line(&mut out, on_line_exec(row, row_style_of(on_agents && i + 1 == self.cursor, th)));
            }
            i += 1;
        }
        assert(lines_view(out@) =~= agents_section(*self, *th));
        out
    }

    /// The skills section (see `skills_section`).
    fn skills_lines(&self, th: &Theme) -> (r: Vec<Vec<StyledSpan>>)
        ensures
            lines_view(r@) == skills_section(*self, *th),
    {
        let on_skills = self.has_focus && self.subsection == AgentPanelSubsection::Skills;
        let mut out: Vec<Vec<StyledSpan>> = Vec::new();
        push_line(&mut out, section_title_line(counted("SKILLS", self.skills.len()), on_skills, self.skill_cursor == 0, th));
        let ghost h2 = lines_view(out@);
        let n = self.skills.len();
        if n == 0 {
            push_line(&mut out, one_line(string_of("○ 暂无"), fg_style(th.text_dim)));
        } else {
            let k = if n > SKILLS_SHOWN { SKILLS_SHOWN } else { n };
            let mut j: usize = 0;
            while j < k
                invariant
                    k <= n == self.skills@.len(),
                    k == (if n > 6 { 6 } else { n }),
                    j <= k,
                    on_skills == (self.has_focus && self.subsection == AgentPanelSubsection::Skills),
                    lines_view(out@) =~= h2 + Seq::new(
                        j as nat,
                        |i: int| on_line(seq![("○ "@, plain_style()), (self.skills@[i].name@, plain_style())], row_style(on_skills && i + 1 == self.skill_cursor, *th)),
                    ),
                decreases k - j,
            {
                let row = vec![(string_of("○ "), plain()), (string_of(self.skills[j].name.as_str()), plain())];
                let ghost rv = spans_view(row@);
                assert(rv =~= seq![("○ "@, plain_style()), (self.skills@[j as int].name@, plain_style())]);
                push_line(&mut out, on_line_exec(row, row_style_of(on_skills && j + 1 == self.skill_cursor, th)));
                j += 1;
            }
            if n > SKILLS_SHOWN {
                let mut t = string_of("… 还有 ");
                push_decimal(&mut t, (n - SKILLS_SHOWN) as u64);
                push_str(&mut t, " 个");
                push_line(&mut out, one_line(t, fg_style(th.text_dim)));
            }
        }
        assert(lines_view(out@) =~= skills_section(*self, *th));
        out
    }

    /// The MCP section (see `mcps_section`).
    fn mcps_lines(&self, th: &Theme) -> (r: Vec<Vec<StyledSpan>>)
        ensures
            lines_view(r@) == mcps_section(*self, *th),
    {
        let on_mcps = self.has_focus && self.subsection == AgentPanelSubsection::Mcps;
        let mut out: Vec<Vec<StyledSpan>> = Vec::new();
        push_line(&mut out, section_title_line(counted("MCPS", self.mcps.len()), on_mcps, self.mcp_cursor == 0, th));
        let ghost h3 = lines_view(out@);
        let m = self.mcps.len();
        if m == 0 {
            push_line(&mut out, one_line(string_of("○ 暂无"), fg_style(th.text_dim)));
        } else {
            let mut j: usize = 0;
            while j < m
                invariant
                    m == self.mcps@.len(),
                    j <= m,
                    on_mcps == (self.has_focus && self.subsection == AgentPanelSubsection::Mcps),
                    lines_view(out@) =~= h3 + Seq::new(
                        j as nat,
                        |i: int| on_line(
                            seq![("◈ "@, plain_style()), (self.mcps@[i].name@, plain_style()), (mcp_detail(self.mcps@[i]), with_fg(plain_style(), th.text_dim))],
                            row_style(on_mcps && i + 1 == self.mcp_cursor, *th),
                        ),
                    ),
                decreases m - j,
            {
                let mc = &self.mcps[j];
                let detail = if text_is_empty(mc.command.as_str()) {
                    let mut d = string_of("  (");
                    push_decimal(&mut d, mc.tool_count as u64);
                    push_str(&mut d, " tools)");
                    d
                } else {
                    let mut d = string_of("  ");
                    push_str(&mut d, mc.command.as_str());
                    d
                };
                let row = vec![(string_of("◈ "), plain()), (string_of(mc.name.as_str()), plain()), (detail, fg_style(th.text_dim))];
                let ghost rv = spans_view(row@);
                assert(rv =~= seq![("◈ "@, plain_style()), (mc.name@, plain_style()), (mcp_detail(*mc), with_fg(plain_style(), th.text_dim))]);
                push_line(&mut out, on_line_exec(row, row_style_of(on_mcps && j + 1 == self.mcp_cursor, th)));
                j += 1;
            }
        }
        assert(lines_view(out@) =~= mcps_section(*self, *th));
        out
    }

    /// The lines of the panel (see `panel_lines_spec`).
    pub fn panel_lines(&self, th: &Theme) -> (r: Vec<Vec<StyledSpan>>)
        ensures
            lines_view(r@) == panel_lines_spec(*self, *th),
    {
        let mut out = self.agents_lines(th);
        push_line(&mut out, blank());
        append(&mut out, &self.skills_lines(th));
        push_line(&mut out, blank());
        append(&mut out, &self.mcps_lines(th));
        push_line(&mut out, blank());
        let on_tasks = self.has_focus && self.subsection == AgentPanelSubsection::Tasks;
        push_line(&mut out, section_title_line(string_of("TASKS"), on_tasks, true, th));
        push_line(&mut out, one_line(string_of("○ 暂无任务"), fg_style(th.text_dim)));
        assert(lines_view(out@) =~= panel_lines_spec(*self, *th));
        out
    }
}

} // verus!
