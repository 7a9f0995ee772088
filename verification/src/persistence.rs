//! The interface state kept across runs: the active session, the running
//! agent sessions, the expanded workspaces and hand-given session names.

use vstd::prelude::*;
use crate::provider::config_dir_spec;
use crate::state::WorkspaceNode;
use crate::strs::{path_join, path_join_spec, str_eq};

verus! {

/// The interface state kept across runs (`state.json`).
#[derive(Debug, Clone)]
pub struct UiPersistState {
    /// The session that was active (file name without `.jsonl`).
    pub active_session_id: Option<String>,
    /// The agent sessions that were running (started again at launch).
    pub active_agent_sessions: Vec<String>,
    /// The names of the expanded workspaces.
    pub expanded_workspaces: Vec<String>,
    /// Names of sessions created by hand: (session id, name).
    pub session_names: Vec<(String, String)>,
}

impl Default for UiPersistState {
    /// The empty state: no session, nothing running, nothing expanded, no names.
    fn default() -> (r: UiPersistState)
        ensures
            r.active_session_id is None,
            r.active_agent_sessions@.len() == 0,
            r.expanded_workspaces@.len() == 0,
            r.session_names@.len() == 0,
    {
        UiPersistState {
            active_session_id: None,
            active_agent_sessions: Vec::new(),
            expanded_workspaces: Vec::new(),
            session_names: Vec::new(),
        }
    }
}

/// The path of `state.json` for the given `XDG_CONFIG_HOME` and `HOME`
/// values: in the configuration directory (see `config_dir_spec`).
pub fn state_path(xdg: Option<&str>, home: Option<&str>) -> (r: String)
    ensures
        r@ == path_join_spec(config_dir_spec(xdg.deep_view(), home.deep_view()), "state.json"@),
{
    let d = crate::provider::config_dir(xdg, home);
    proof {
        reveal_strlit("state.json");
    }
    path_join(d.as_str(), "state.json")
}

/// The display names of the expanded workspaces, in order.
pub open spec fn expanded_names(ws: Seq<WorkspaceNode>) -> Seq<Seq<char>>
    decreases ws.len(),
{
    if ws.len() == 0 {
        Seq::empty()
    } else {
        let rest = expanded_names(ws.drop_last());
        if ws.last().expanded {
            rest.push(ws.last().display_name@)
        } else {
            rest
        }
    }
}

/// The text of each string.
pub open spec fn texts(v: Seq<String>) -> Seq<Seq<char>> {
    Seq::new(v.len(), |i: int| v[i]@)
}

/// The state to keep from the running interface: the active session, the
/// running agent sessions, the display names of the expanded workspaces and
/// the hand-given session names.
pub fn build_persist_state(
    active_agent: &Option<String>,
    active_sessions: &Vec<String>,
    workspaces: &Vec<WorkspaceNode>,
    session_names: &Vec<(String, String)>,
) -> (r: UiPersistState)
    ensures
        r.active_session_id.deep_view() == active_agent.deep_view(),
        texts(r.active_agent_sessions@) == texts(active_sessions@),
        texts(r.expanded_workspaces@) == expanded_names(workspaces@),
        r.session_names.deep_view() == session_names.deep_view(),
{
    let active_session_id = match active_agent {
        Some(a) => Some(a.clone()),
        None => None,
    };
    let mut sessions: Vec<String> = Vec::new();
    for i in 0..active_sessions.len()
        invariant
            sessions@ == active_sessions@.take(i as int),
    {
        let c = active_sessions[i].clone();
        sessions.push(c);
        assert(sessions@ =~= active_sessions@.take(i + 1));
    }
    assert(sessions@ =~= active_sessions@);
    let ghost ws = workspaces@;
    let mut expanded: Vec<String> = Vec::new();
    for i in 0..workspaces.len()
        invariant
            ws == workspaces@,
            texts(expanded@) == expanded_names(ws.take(i as int)),
    {
        assert(ws.take(i + 1).drop_last() =~= ws.take(i as int));
        if workspaces[i].expanded {
            expanded.push(workspaces[i].display_name.clone());
            assert(texts(expanded@) =~= expanded_names(ws.take(i + 1)));
        }
    }
    assert(ws.take(ws.len() as int) =~= ws);
    let mut names: Vec<(String, String)> = Vec::new();
    for i in 0..session_names.len()
        invariant
            names.deep_view() == session_names.deep_view().take(i as int),
            session_names.deep_view().len() == session_names@.len(),
    {
        let pair = (session_names[i].0.clone(), session_names[i].1.clone());
        let ghost before = names;
        names.push(pair);
        proof {
            crate::seqs::lemma_deep_view_push(before, names, pair);
            assert(session_names.deep_view().take(i + 1) =~= session_names.deep_view().take(i as int).push(
                session_names.deep_view()[i as int],
            ));
        }
    }
    assert(names.deep_view() =~= session_names.deep_view());
    UiPersistState {
        active_session_id,
        active_agent_sessions: sessions,
        expanded_workspaces: expanded,
        session_names: names,
    }
}

/// Whether the text list holds `t`.
fn contains_text(v: &Vec<String>, t: &str) -> (r: bool)
    ensures
        r == texts(v@).contains(t@),
{
    let mut i: usize = 0;
    while i < v.len()
        invariant
            i <= v@.len(),
            forall|j: int| 0 <= j < i ==> texts(v@)[j] != t@,
        decreases v.len() - i,
    {
        if str_eq(v[i].as_str(), t) {
            assert(texts(v@)[i as int] == t@);
            return true;
        }
        i = i + 1;
    }
    false
}

/// Restores the expanded workspaces: a workspace is expanded exactly when
/// its display name is in the kept list; nothing else changes.
pub fn restore_expanded(workspaces: &mut Vec<WorkspaceNode>, expanded: &Vec<String>)
    ensures
        final(workspaces)@.len() == old(workspaces)@.len(),
        forall|i: int| 0 <= i < old(workspaces)@.len() ==> (#[trigger] final(workspaces)@[i]) == (
        WorkspaceNode { expanded: texts(expanded@).contains(old(workspaces)@[i].display_name@), ..old(workspaces)@[i] }),
{
    let ghost ws0 = workspaces@;
    let n = workspaces.len();
    for i in 0..n
        invariant
            n == ws0.len(),
            workspaces@.len() == n,
            forall|j: int| 0 <= j < i ==> (#[trigger] workspaces@[j]) == (WorkspaceNode {
                expanded: texts(expanded@).contains(ws0[j].display_name@),
                ..ws0[j]
            }),
            forall|j: int| i <= j < n ==> (#[trigger] workspaces@[j]) == ws0[j],
    {
        let e = contains_text(expanded, workspaces[i].display_name.as_str());
        workspaces[i].expanded = e;
    }
}

/// The first (workspace, session) position holding session `id`.
pub open spec fn session_at(ws: Seq<WorkspaceNode>, id: Seq<char>, wi: int, si: int) -> bool {
    0 <= wi < ws.len() && 0 <= si < ws[wi].sessions@.len() && ws[wi].sessions@[si].id@ == id
}

/// Finds session `id` in the workspace tree: the first workspace holding it,
/// and its first position there.
pub fn find_session(workspaces: &Vec<WorkspaceNode>, id: &str) -> (r: Option<(usize, usize)>)
    ensures
        r is None ==> forall|wi: int, si: int| !session_at(workspaces@, id@, wi, si),
        r matches Some((wi, si)) ==> session_at(workspaces@, id@, wi as int, si as int)
            && (forall|w: int, t: int| w < wi && #[trigger] session_at(workspaces@, id@, w, t) ==> false)
            && (forall|t: int| t < si ==> !#[trigger] session_at(workspaces@, id@, wi as int, t)),
{
    let mut wi: usize = 0;
    while wi < workspaces.len()
        invariant
            wi <= workspaces@.len(),
            forall|w: int, t: int| w < wi ==> !#[trigger] session_at(workspaces@, id@, w, t),
        decreases workspaces.len() - wi,
    {
        let ss = &workspaces[wi].sessions;
        let mut si: usize = 0;
        while si < ss.len()
            invariant
                wi < workspaces@.len(),
                *ss == workspaces@[wi as int].sessions,
                forall|w: int, t: int| w < wi ==> !#[trigger] session_at(workspaces@, id@, w, t),
                si <= ss@.len(),
                forall|t: int| t < si ==> !#[trigger] session_at(workspaces@, id@, wi as int, t),
            decreases ss.len() - si,
        {
            if str_eq(ss[si].id.as_str(), id) {
                assert(session_at(workspaces@, id@, wi as int, si as int));
                return Some((wi, si));
            }
            si = si + 1;
        }
        wi = wi + 1;
    }
    None
}

/// Saving the interface state and restoring it gives every workspace its
/// expanded flag back, when no two workspaces share a display name.
pub proof fn lemma_expanded_roundtrip(ws: Seq<WorkspaceNode>, i: int)
    requires
        0 <= i < ws.len(),
        forall|a: int, b: int| 0 <= a < b < ws.len() ==> ws[a].display_name@ != ws[b].display_name@,
    ensures
        expanded_names(ws).contains(ws[i].display_name@) == ws[i].expanded,
    decreases ws.len(),
{
    let last = ws.len() - 1;
    let rest = expanded_names(ws.drop_last());
    let d = ws[i].display_name@;
    if i == last {
        assert forall|a: int| 0 <= a < ws.drop_last().len() implies ws.drop_last()[a].display_name@ != d by {
            assert(ws.drop_last()[a] == ws[a]);
        }
        lemma_expanded_names_absent(ws.drop_last(), d);
        if ws[i].expanded {
            assert(rest.push(d)[rest.len() as int] == d);
        }
    } else {
        assert(ws.drop_last()[i] == ws[i]);
        assert forall|a: int, b: int| 0 <= a < b < ws.drop_last().len() implies ws.drop_last()[a].display_name@ != ws.drop_last()[b].display_name@ by {
            assert(ws.drop_last()[a] == ws[a]);
            assert(ws.drop_last()[b] == ws[b]);
        }
        lemma_expanded_roundtrip(ws.drop_last(), i);
        if ws.last().expanded {
            let x = ws.last().display_name@;
            assert(x != d);
            if rest.contains(d) {
                let k = choose|k: int| 0 <= k < rest.len() && rest[k] == d;
                assert(rest.push(x)[k] == d);
            }
            if rest.push(x).contains(d) {
                let k = choose|k: int| 0 <= k < rest.push(x).len() && rest.push(x)[k] == d;
                assert(k < rest.len());
                assert(rest[k] == d);
            }
        }
    }
}

/// A name no workspace has is not among the expanded ones.
proof fn lemma_expanded_names_absent(ws: Seq<WorkspaceNode>, d: Seq<char>)
    requires
        forall|a: int| 0 <= a < ws.len() ==> ws[a].display_name@ != d,
    ensures
        !expanded_names(ws).contains(d),
    decreases ws.len(),
{
    if ws.len() > 0 {
        assert forall|a: int| 0 <= a < ws.drop_last().len() implies ws.drop_last()[a].display_name@ != d by {
            assert(ws.drop_last()[a] == ws[a]);
        }
        lemma_expanded_names_absent(ws.drop_last(), d);
    }
}

} // verus!
