//! Operations on the sessions of the workspace tree: looking a session up,
//! naming and renaming it, and adding a freshly created one.

use vstd::prelude::*;
use crate::persistence::{find_session, session_at};
use crate::seqs::{first_index, lemma_first_index_is, lemma_first_index_none};
use crate::state::{SessionNode, WorkspaceNode};
use crate::strs::{str_eq, string_of};
use crate::tui_state::TuiState;

verus! {

/// The name pairs as (session id, name) character sequences.
pub open spec fn names_view(n: Seq<(String, String)>) -> Seq<(Seq<char>, Seq<char>)> {
    n.map_values(|p: (String, String)| (p.0@, p.1@))
}

/// The pair of session `id`.
pub open spec fn name_of_id(id: Seq<char>) -> spec_fn((Seq<char>, Seq<char>)) -> bool {
    |p: (Seq<char>, Seq<char>)| p.0 == id
}

/// Records `name` for session `id` in the name pairs: replaces the name of
/// the first pair of `id`, or appends a pair.
pub open spec fn with_name(n: Seq<(Seq<char>, Seq<char>)>, id: Seq<char>, name: Seq<char>) -> Seq<(Seq<char>, Seq<char>)> {
    match first_index(n, name_of_id(id)) {
        Some(j) => n.update(j, (id, name)),
        None => n.push((id, name)),
    }
}

/// The first session of a workspace with id `id`.
pub open spec fn session_of(id: Seq<char>) -> spec_fn(SessionNode) -> bool {
    |s: SessionNode| s.id@ == id
}

/// The file of the first session `id` of a workspace, if it has one.
pub open spec fn file_in(w: WorkspaceNode, id: Seq<char>) -> Option<Seq<char>> {
    match first_index(w.sessions@, session_of(id)) {
        Some(t) => w.sessions@[t].file_path.deep_view(),
        None => None,
    }
}

/// A workspace in which the first session `id` has a file.
pub open spec fn has_file_of(id: Seq<char>) -> spec_fn(WorkspaceNode) -> bool {
    |w: WorkspaceNode| file_in(w, id) is Some
}

/// The position of the first session `id` of a workspace.
fn find_in(w: &WorkspaceNode, id: &str) -> (r: Option<usize>)
    ensures
        match r {
            Some(t) => t < w.sessions@.len() && first_index(w.sessions@, session_of(id@)) == Some(t as int),
            None => first_index(w.sessions@, session_of(id@)) is None,
        },
{
    let mut t: usize = 0;
    while t < w.sessions.len()
        invariant
            t <= w.sessions@.len(),
            forall|j: int| 0 <= j < t ==> !session_of(id@)(#[trigger] w.sessions@[j]),
        decreases w.sessions@.len() - t,
    {
        if str_eq(w.sessions[t].id.as_str(), id) {
            proof {
                lemma_first_index_is(w.sessions@, session_of(id@), t as int);
            }
            return Some(t);
        }
        t += 1;
    }
    proof {
        lemma_first_index_none(w.sessions@, session_of(id@));
    }
    None
}

impl TuiState {
    /// The file of session `id`: the first workspace whose first session
    /// `id` has a file gives it.
    pub fn session_file_path(&self, id: &str) -> (r: Option<String>)
        ensures
            r.deep_view() == (match first_index(self.workspaces@, has_file_of(id@)) {
                Some(k) => file_in(self.workspaces@[k], id@),
                None => None,
            }),
    {
        let mut k: usize = 0;
        while k < self.workspaces.len()
            invariant
                k <= self.workspaces@.len(),
                forall|j: int| 0 <= j < k ==> !has_file_of(id@)(#[trigger] self.workspaces@[j]),
            decreases self.workspaces@.len() - k,
        {
            let w = &self.workspaces[k];
            match find_in(w, id) {
                Some(t) => {
                    match &w.sessions[t].file_path {
                        Some(p) => {
                            proof {
                                lemma_first_index_is(self.workspaces@, has_file_of(id@), k as int);
                            }
                            return Some(string_of(p.as_str()));
                        },
                        None => {},
                    }
                },
                None => {},
            }
            k += 1;
        }
        proof {
            lemma_first_index_none(self.workspaces@, has_file_of(id@));
        }
        None
    }

    /// The name of session `id`: that of its first position in the tree.
    pub fn session_name(&self, id: &str) -> (r: Option<String>)
        ensures
            r is None <==> forall|wi: int, si: int| !session_at(self.workspaces@, id@, wi, si),
            r matches Some(n) ==> exists|wi: int, si: int|
                #[trigger] session_at(self.workspaces@, id@, wi, si)
                && (forall|w: int, t: int| w < wi && #[trigger] session_at(self.workspaces@, id@, w, t) ==> false)
                && (forall|t: int| t < si ==> !#[trigger] session_at(self.workspaces@, id@, wi, t))
                && n@ == self.workspaces@[wi].sessions@[si].name@,
    {
        match find_session(&self.workspaces, id) {
            Some((wi, si)) => {
                let n = string_of(self.workspaces[wi].sessions[si].name.as_str());
                assert(session_at(self.workspaces@, id@, wi as int, si as int));
                Some(n)
            },
            None => None,
        }
    }

    /// Records `name` for session `id` (see `with_name`).
    pub fn set_session_name(&mut self, id: &str, name: &str)
        ensures
            names_view(final(self).session_names@) == with_name(names_view(old(self).session_names@), id@, name@),
            final(self).workspaces == old(self).workspaces,
            final(self).panel() == old(self).panel(),
    {
        let ghost n0 = names_view(self.session_names@);
        let mut j: usize = 0;
        while j < self.session_names.len()
            invariant
                n0 == names_view(self.session_names@),
                self.session_names == old(self).session_names,
                self.workspaces == old(self).workspaces,
                self.panel() == old(self).panel(),
                j <= self.session_names@.len(),
                forall|k: int| 0 <= k < j ==> !name_of_id(id@)(#[trigger] n0[k]),
            decreases self.session_names@.len() - j,
        {
            if str_eq(self.session_names[j].0.as_str(), id) {
                proof {
                    lemma_first_index_is(n0, name_of_id(id@), j as int);
                }
                self.session_names.set(j, (string_of(id), string_of(name)));
                assert(names_view(self.session_names@) =~= n0.update(j as int, (id@, name@)));
                return;
            }
            j += 1;
        }
        proof {
            lemma_first_index_none(n0, name_of_id(id@));
        }
        self.session_names.push((string_of(id), string_of(name)));
        assert(names_view(self.session_names@) =~= n0.push((id@, name@)));
    }

    /// Renames session `si` of workspace `wi` and records the name; returns
    /// the old name, or `None` (and changes nothing) when there is no such
    /// session.
    pub fn rename_session(&mut self, wi: usize, si: usize, new_name: &str) -> (r: Option<String>)
        ensures
            (wi < old(self).workspaces@.len() && si < old(self).workspaces@[wi as int].sessions@.len()) == (r is Some),
            r is None ==> final(self).workspaces == old(self).workspaces
                && final(self).session_names == old(self).session_names,
            r matches Some(o) ==> {
                let s0 = old(self).workspaces@[wi as int].sessions@[si as int];
                &&& o@ == s0.name@
                &&& final(self).workspaces@.len() == old(self).workspaces@.len()
                &&& forall|k: int| 0 <= k < old(self).workspaces@.len() && k != wi ==> #[trigger] final(self).workspaces@[k]
                    == old(self).workspaces@[k]
                &&& final(self).workspaces@[wi as int].sessions@ == old(self).workspaces@[wi as int].sessions@.update(
                    si as int,
                    SessionNode { name: final(self).workspaces@[wi as int].sessions@[si as int].name, ..s0 },
                )
                &&& final(self).workspaces@[wi as int].sessions@[si as int].name@ == new_name@
                &&& final(self).workspaces@[wi as int].cwd == old(self).workspaces@[wi as int].cwd
                &&& final(self).workspaces@[wi as int].display_name == old(self).workspaces@[wi as int].display_name
                &&& final(self).workspaces@[wi as int].expanded == old(self).workspaces@[wi as int].expanded
                &&& names_view(final(self).session_names@) == with_name(
                    names_view(old(self).session_names@),
                    s0.id@,
                    new_name@,
                )
            },
            final(self).panel() == old(self).panel(),
    {
        if wi >= self.workspaces.len() || si >= self.workspaces[wi].sessions.len() {
            return None;
        }
        let old_name = string_of(self.workspaces[wi].sessions[si].name.as_str());
        let id = string_of(self.workspaces[wi].sessions[si].id.as_str());
        self.workspaces[wi].sessions[si].name = string_of(new_name);
        self.set_session_name(id.as_str(), new_name);
        Some(old_name)
    }

    /// Records a session just created in workspace `wi`: its name, and a
    /// session node (online, no messages yet) at the end of the workspace, if
    /// the workspace exists.
    pub fn add_created_session(&mut self, wi: usize, id: &str, name: &str, file_path: &str)
        ensures
            names_view(final(self).session_names@) == with_name(names_view(old(self).session_names@), id@, name@),
            wi < old(self).workspaces@.len() ==> {
                let w0 = old(self).workspaces@[wi as int];
                let w1 = final(self).workspaces@[wi as int];
                &&& final(self).workspaces@.len() == old(self).workspaces@.len()
                &&& forall|k: int| 0 <= k < old(self).workspaces@.len() && k != wi ==> #[trigger] final(self).workspaces@[k]
                    == old(self).workspaces@[k]
                &&& w1.cwd == w0.cwd && w1.display_name == w0.display_name && w1.expanded == w0.expanded
                &&& w1.sessions@.drop_last() == w0.sessions@
                &&& w1.sessions@.len() == w0.sessions@.len() + 1
                &&& w1.sessions@.last().id@ == id@
                &&& w1.sessions@.last().name@ == name@
                &&& w1.sessions@.last().file_path.deep_view() == Some(file_path@)
                &&& w1.sessions@.last().message_count == 0
                &&& w1.sessions@.last().is_online
            },
            wi >= old(self).workspaces@.len() ==> final(self).workspaces == old(self).workspaces,
            final(self).panel() == old(self).panel(),
    {
        self.set_session_name(id, name);
        if wi < self.workspaces.len() {
            let node = SessionNode {
                id: string_of(id),
                name: string_of(name),
                file_path: Some(string_of(file_path)),
                message_count: 0,
                is_online: true,
            };
            self.workspaces[wi].sessions.push(node);
            assert(self.workspaces@[wi as int].sessions@.drop_last() =~= old(self).workspaces@[wi as int].sessions@);
        }
    }
}

} // verus!
