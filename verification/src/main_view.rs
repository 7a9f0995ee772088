//! The state of the central panel: the message list with its foldable
//! blocks, the detail views that blocks open into, and the input line.

use vstd::prelude::*;
use crate::message::{
    BlockExpanded, BlockKind, BlockRef, BlockView, ChatMessage, CompletionPopup, ContentBlock, DiffLine,
    EnteredView, MessageView, RefView, block_refs_spec, build_block_refs, msg_block_refs, plain_message,
};
use crate::seqs::{first_index, lemma_first_index_is, lemma_first_index_none};
use crate::history::{Json, JsonV, jview, vstr_at, json_vstr_at, json_value};
use crate::message::opt_jview;
use crate::state::{MainViewSubsection, ScrollMode, SelectionPanel, SelectionState};
use crate::strs::{chars_of, dec_spec, push_char, push_decimal, push_str, str_eq, string_of};

verus! {

/// Fold states as a sequence of (key, state) pairs.
pub open spec fn pairs_view(e: Seq<(String, BlockExpanded)>) -> Seq<(Seq<char>, BlockExpanded)> {
    e.map_values(|p: (String, BlockExpanded)| (p.0@, p.1))
}

/// No key occurs twice.
pub open spec fn distinct_keys(s: Seq<(Seq<char>, BlockExpanded)>) -> bool {
    forall|i: int, j: int|
        0 <= i < s.len() && 0 <= j < s.len() && i != j ==> #[trigger] s[i].0 != #[trigger] s[j].0
}

/// Some pair has key `k`.
pub open spec fn key_at(s: Seq<(Seq<char>, BlockExpanded)>, k: Seq<char>) -> bool {
    exists|i: int| 0 <= i < s.len() && s[i].0 == k
}

/// The map from keys to states that the pairs describe.
pub open spec fn states_map(s: Seq<(Seq<char>, BlockExpanded)>) -> Map<Seq<char>, BlockExpanded> {
    Map::new(
        |k: Seq<char>| key_at(s, k),
        |k: Seq<char>| s[choose|i: int| 0 <= i < s.len() && s[i].0 == k].1,
    )
}

/// With distinct keys, the map gives each pair's state for its key.
proof fn lemma_states_at(s: Seq<(Seq<char>, BlockExpanded)>, i: int)
    requires
        distinct_keys(s),
        0 <= i < s.len(),
    ensures
        states_map(s).contains_key(s[i].0),
        states_map(s)[s[i].0] == s[i].1,
{
    let k = s[i].0;
    assert(key_at(s, k));
    let j = choose|j: int| 0 <= j < s.len() && s[j].0 == k;
    if j != i {
        assert(s[i].0 != s[j].0);
    }
}

/// Replacing the state of pair `i` inserts it into the map.
proof fn lemma_states_update(s: Seq<(Seq<char>, BlockExpanded)>, i: int, v: BlockExpanded)
    requires
        distinct_keys(s),
        0 <= i < s.len(),
    ensures
        distinct_keys(s.update(i, (s[i].0, v))),
        states_map(s.update(i, (s[i].0, v))) == states_map(s).insert(s[i].0, v),
{
    let t = s.update(i, (s[i].0, v));
    let k0 = s[i].0;
    assert forall|a: int, b: int| 0 <= a < t.len() && 0 <= b < t.len() && a != b implies #[trigger] t[a].0
        != #[trigger] t[b].0 by {
        assert(s[a].0 != s[b].0);
    }
    assert forall|k: Seq<char>| key_at(t, k) == (key_at(s, k) || k == k0) by {
        if key_at(s, k) {
            let j = choose|j: int| 0 <= j < s.len() && s[j].0 == k;
            assert(t[j].0 == k);
        }
        if key_at(t, k) {
            let j = choose|j: int| 0 <= j < t.len() && t[j].0 == k;
            assert(s[j].0 == k);
        }
        if k == k0 {
            assert(t[i].0 == k);
        }
    }
    assert forall|k: Seq<char>| #[trigger] states_map(t).contains_key(k) implies states_map(t)[k]
        == states_map(s).insert(k0, v)[k] by {
        let j = choose|j: int| 0 <= j < t.len() && t[j].0 == k;
        lemma_states_at(t, j);
        if k == k0 {
            assert(j == i) by {
                if j != i {
                    assert(t[j].0 != t[i].0);
                }
            }
        } else {
            lemma_states_at(s, j);
        }
    }
    assert(states_map(t) =~= states_map(s).insert(k0, v));
}

/// Appending a pair with a new key inserts it into the map.
proof fn lemma_states_push(s: Seq<(Seq<char>, BlockExpanded)>, k0: Seq<char>, v: BlockExpanded)
    requires
        distinct_keys(s),
        !key_at(s, k0),
    ensures
        distinct_keys(s.push((k0, v))),
        states_map(s.push((k0, v))) == states_map(s).insert(k0, v),
{
    let t = s.push((k0, v));
    let n = s.len() as int;
    assert forall|a: int, b: int| 0 <= a < t.len() && 0 <= b < t.len() && a != b implies #[trigger] t[a].0
        != #[trigger] t[b].0 by {
        if a < n && b < n {
            assert(s[a].0 != s[b].0);
        } else if a < n {
            assert(s[a].0 != k0);
        } else {
            assert(s[b].0 != k0);
        }
    }
    assert forall|k: Seq<char>| key_at(t, k) == (key_at(s, k) || k == k0) by {
        if key_at(s, k) {
            let j = choose|j: int| 0 <= j < s.len() && s[j].0 == k;
            assert(t[j].0 == k);
        }
        if key_at(t, k) {
            let j = choose|j: int| 0 <= j < t.len() && t[j].0 == k;
            if j < n {
                assert(s[j].0 == k);
            }
        }
        if k == k0 {
            assert(t[n].0 == k);
        }
    }
    assert forall|k: Seq<char>| #[trigger] states_map(t).contains_key(k) implies states_map(t)[k]
        == states_map(s).insert(k0, v)[k] by {
        let j = choose|j: int| 0 <= j < t.len() && t[j].0 == k;
        lemma_states_at(t, j);
        if k != k0 {
            assert(j < n);
            assert(s[j] == t[j]);
            lemma_states_at(s, j);
        }
    }
    assert(states_map(t) =~= states_map(s).insert(k0, v));
}

/// The fold state of the blocks of the message list, by key
/// `"{message id}:{block index}"`; no key occurs twice.
#[derive(Debug)]
pub struct BlockStates {
    entries: Vec<(String, BlockExpanded)>,
}

impl View for BlockStates {
    type V = Map<Seq<char>, BlockExpanded>;

    closed spec fn view(&self) -> Map<Seq<char>, BlockExpanded> {
        states_map(pairs_view(self.entries@))
    }
}

impl BlockStates {
    /// No key occurs twice.
    #[verifier::type_invariant]
    spec fn wf(self) -> bool {
        distinct_keys(pairs_view(self.entries@))
    }

    /// No block has a state yet.
    pub fn new() -> (r: BlockStates)
        ensures
            r@ == Map::<Seq<char>, BlockExpanded>::empty(),
    {
        let r = BlockStates { entries: Vec::new() };
        assert(r@ =~= Map::<Seq<char>, BlockExpanded>::empty());
        r
    }

    /// The position of `key`, if it has a state.
    fn find(&self, key: &str) -> (r: Option<usize>)
        ensures
            match r {
                Some(i) => i < self.entries@.len() && pairs_view(self.entries@)[i as int].0 == key@,
                None => !key_at(pairs_view(self.entries@), key@),
            },
    {
        let ghost s = pairs_view(self.entries@);
        let mut i: usize = 0;
        while i < self.entries.len()
            invariant
                s == pairs_view(self.entries@),
                i <= self.entries@.len(),
                forall|j: int| 0 <= j < i ==> s[j].0 != key@,
            decreases self.entries@.len() - i,
        {
            if str_eq(self.entries[i].0.as_str(), key) {
                return Some(i);
            }
            i += 1;
        }
        None
    }

    /// The state of `key`, if it has one.
    pub fn get(&self, key: &str) -> (r: Option<BlockExpanded>)
        ensures
            r == (if self@.contains_key(key@) { Some(self@[key@]) } else { None::<BlockExpanded> }),
    {
        proof {
            use_type_invariant(self);
        }
        match self.find(key) {
            Some(i) => {
                proof {
                    lemma_states_at(pairs_view(self.entries@), i as int);
                }
                Some(self.entries[i].1)
            },
            None => None,
        }
    }

    /// Gives `key` the state `v`.
    pub fn set(&mut self, key: &str, v: BlockExpanded)
        ensures
            final(self)@ == old(self)@.insert(key@, v),
    {
        proof {
            use_type_invariant(&*self);
        }
        let ghost s = pairs_view(self.entries@);
        let found = self.find(key);
        let mut e: Vec<(String, BlockExpanded)> = Vec::new();
        std::mem::swap(&mut e, &mut self.entries);
        match found {
            Some(i) => {
                e.set(i, (string_of(key), v));
                proof {
                    lemma_states_update(s, i as int, v);
                    assert(pairs_view(e@) =~= s.update(i as int, (s[i as int].0, v)));
                }
            },
            None => {
                e.push((string_of(key), v));
                proof {
                    lemma_states_push(s, key@, v);
                    assert(pairs_view(e@) =~= s.push((key@, v)));
                }
            },
        }
        self.entries = e;
    }
}


/// The mathematical value of a `DiffLine`.
pub ghost struct DiffLineView {
    pub kind: char,
    pub old_line: Option<usize>,
    pub new_line: Option<usize>,
    pub text: Seq<char>,
}

impl DeepView for DiffLine {
    type V = DiffLineView;

    open spec fn deep_view(&self) -> DiffLineView {
        DiffLineView { kind: self.kind, old_line: self.old_line, new_line: self.new_line, text: self.text@ }
    }
}

/// The mathematical value of an `EnteredView`.
pub ghost enum EnteredViewV {
    Diff { path: Seq<char>, diff_lines: Seq<DiffLineView>, scroll: usize },
    FullOutput { title: Seq<char>, content: Seq<char>, scroll: usize },
    Subagent { agent_id: Seq<char>, messages: Seq<MessageView> },
}

impl DeepView for EnteredView {
    type V = EnteredViewV;

    open spec fn deep_view(&self) -> EnteredViewV {
        match self {
            EnteredView::Diff { path, diff_lines, scroll } => EnteredViewV::Diff {
                path: path@,
                diff_lines: diff_lines.deep_view(),
                scroll: *scroll,
            },
            EnteredView::FullOutput { title, content, scroll } => EnteredViewV::FullOutput {
                title: title@,
                content: content@,
                scroll: *scroll,
            },
            EnteredView::Subagent { agent_id, messages } => EnteredViewV::Subagent {
                agent_id: agent_id@,
                messages: messages.deep_view(),
            },
        }
    }
}

/// The line diff of two texts as the `similar` crate computes it
/// (`TextDiff::from_lines`, every line with its terminator): the changes in
/// order, each as (tag, index among the old lines, index among the new lines,
/// line), with tag 0 for an unchanged line, 1 for a deleted one and 2 for an
/// inserted one.
pub uninterp spec fn line_diff(old: Seq<char>, new: Seq<char>) -> Seq<(u8, Option<usize>, Option<usize>, Seq<char>)>;

/// The changes of a diff with their lines as character sequences.
pub open spec fn changes_view(c: Seq<(u8, Option<usize>, Option<usize>, String)>) -> Seq<
    (u8, Option<usize>, Option<usize>, Seq<char>),
> {
    c.map_values(|x: (u8, Option<usize>, Option<usize>, String)| (x.0, x.1, x.2, x.3@))
}

/// The shape of a change: an unchanged line has both indices, a deleted one
/// only the old, an inserted one only the new; an index is below `usize::MAX`.
pub open spec fn change_shape(c: (u8, Option<usize>, Option<usize>, Seq<char>)) -> bool {
    &&& c.0 <= 2
    &&& (c.0 == 0 ==> c.1 is Some && c.2 is Some)
    &&& (c.0 == 1 ==> c.1 is Some && c.2 is None)
    &&& (c.0 == 2 ==> c.1 is None && c.2 is Some)
    &&& indices_bounded(c)
}

/// Both indices of a change, where present, are below `usize::MAX`.
pub open spec fn indices_bounded(c: (u8, Option<usize>, Option<usize>, Seq<char>)) -> bool {
    &&& (c.1 matches Some(x) ==> x < usize::MAX)
    &&& (c.2 matches Some(x) ==> x < usize::MAX)
}

/// The changes of `similar::TextDiff::from_lines(old, new)`, from
/// `iter_all_changes`: each change's tag (`Equal`, `Delete`, `Insert` as 0, 1,
/// 2), `old_index()`, `new_index()` and `value()`. Claimed: the result is
/// `line_diff` of the two texts, and each change has the shape that
/// `similar`'s change iterator gives it (see `change_shape`).
#[verifier::external_body]
fn line_changes(old: &str, new: &str) -> (r: Vec<(u8, Option<usize>, Option<usize>, String)>)
    ensures
        changes_view(r@) == line_diff(old@, new@),
        forall|i: int| 0 <= i < r@.len() ==> change_shape(#[trigger] changes_view(r@)[i]),
{
    let diff = similar::TextDiff::from_lines(old, new);
    let mut out = Vec::new();
    for c in diff.iter_all_changes() {
        let tag: u8 = match c.tag() {
            similar::ChangeTag::Equal => 0,
            similar::ChangeTag::Delete => 1,
            similar::ChangeTag::Insert => 2,
        };
        out.push((tag, c.old_index(), c.new_index(), c.value().to_string()));
    }
    out
}

/// An index of a change, or 0 when it has none.
pub open spec fn index_or_zero(i: Option<usize>) -> int {
    match i {
        Some(x) => x as int,
        None => 0,
    }
}

/// The diff line shown for a change: `-` with the old line number for a
/// deleted line, `+` with the new line number for an inserted one, a space
/// with both for an unchanged one (line numbers count from 1).
pub open spec fn diff_line_of(c: (u8, Option<usize>, Option<usize>, Seq<char>)) -> DiffLineView {
    if c.0 == 0 {
        DiffLineView {
            kind: ' ',
            old_line: Some((index_or_zero(c.1) + 1) as usize),
            new_line: Some((index_or_zero(c.2) + 1) as usize),
            text: c.3,
        }
    } else if c.0 == 1 {
        DiffLineView { kind: '-', old_line: Some((index_or_zero(c.1) + 1) as usize), new_line: None, text: c.3 }
    } else {
        DiffLineView { kind: '+', old_line: None, new_line: Some((index_or_zero(c.2) + 1) as usize), text: c.3 }
    }
}

/// The diff lines of a list of changes, one per change (see `diff_line_of`).
pub fn diff_lines_of(changes: &Vec<(u8, Option<usize>, Option<usize>, String)>) -> (r: Vec<DiffLine>)
    requires
        forall|i: int| 0 <= i < changes@.len() ==> indices_bounded(#[trigger] changes_view(changes@)[i]),
    ensures
        r.deep_view() == changes_view(changes@).map_values(|c: (u8, Option<usize>, Option<usize>, Seq<char>)| diff_line_of(c)),
{
    let ghost cs = changes_view(changes@);
    let mut out: Vec<DiffLine> = Vec::new();
    for i in 0..changes.len()
        invariant
            cs == changes_view(changes@),
            forall|k: int| 0 <= k < changes@.len() ==> indices_bounded(#[trigger] cs[k]),
            out.deep_view() == cs.take(i as int).map_values(|c: (u8, Option<usize>, Option<usize>, Seq<char>)| diff_line_of(c)),
    {
        let c = &changes[i];
        assert(cs[i as int] == (c.0, c.1, c.2, c.3@));
        assert(indices_bounded(cs[i as int]));
        let old_line: usize = match c.1 {
            Some(x) => x + 1,
            None => 1,
        };
        let new_line: usize = match c.2 {
            Some(x) => x + 1,
            None => 1,
        };
        let line = if c.0 == 0 {
            DiffLine { kind: ' ', old_line: Some(old_line), new_line: Some(new_line), text: string_of(c.3.as_str()) }
        } else if c.0 == 1 {
            DiffLine { kind: '-', old_line: Some(old_line), new_line: None, text: string_of(c.3.as_str()) }
        } else {
            DiffLine { kind: '+', old_line: None, new_line: Some(new_line), text: string_of(c.3.as_str()) }
        };
        let ghost before = out.deep_view();
        out.push(line);
        proof {
            assert(out.deep_view() =~= before.push(line.deep_view()));
            assert(cs.take(i + 1) =~= cs.take(i as int).push(cs[i as int]));
            assert(line.deep_view() == diff_line_of(cs[i as int]));
            assert(cs.take(i + 1).map_values(|c: (u8, Option<usize>, Option<usize>, Seq<char>)| diff_line_of(c))
                =~= cs.take(i as int).map_values(|c: (u8, Option<usize>, Option<usize>, Seq<char>)| diff_line_of(c)).push(
                diff_line_of(cs[i as int]),
            ));
        }
    }
    assert(cs.take(changes@.len() as int) =~= cs);
    out
}

/// The unified line diff of two texts, as shown when an edit is entered:
/// the diff lines of `line_diff` of the texts (see `diff_line_of`).
pub fn compute_diff_lines(old_text: &str, new_text: &str) -> (r: Vec<DiffLine>)
    ensures
        r.deep_view() == line_diff(old_text@, new_text@).map_values(
            |c: (u8, Option<usize>, Option<usize>, Seq<char>)| diff_line_of(c),
        ),
{
    let changes = line_changes(old_text, new_text);
    diff_lines_of(&changes)
}


/// The key of block `i` of the message with id `id`: `"{id}:{i}"`.
pub open spec fn block_key_spec(id: Seq<char>, i: usize) -> Seq<char> {
    id + seq![':'] + dec_spec(i as nat)
}

/// The key of block `i` of the message with id `msg_id` (see `block_key_spec`).
pub fn block_key(msg_id: &str, i: usize) -> (r: String)
    ensures
        r@ == block_key_spec(msg_id@, i),
{
    let mut s = string_of(msg_id);
    push_char(&mut s, ':');
    push_decimal(&mut s, i as u64);
    s
}

/// The number of times `c` occurs in `s`.
pub open spec fn count_char(s: Seq<char>, c: char) -> nat
    decreases s.len(),
{
    if s.len() == 0 {
        0
    } else {
        count_char(s.drop_last(), c) + if s.last() == c { 1nat } else { 0nat }
    }
}

/// The number of lines `str::lines` yields: one per line terminator, plus a
/// last line without one when the text does not end with `\n`.
pub open spec fn line_count(s: Seq<char>) -> nat {
    if s.len() == 0 {
        0
    } else if s.last() == '\n' {
        count_char(s, '\n')
    } else {
        count_char(s, '\n') + 1
    }
}

/// The number of lines of a text (see `line_count`).
pub fn count_lines(s: &str) -> (r: usize)
    ensures
        r == line_count(s@),
{
    let v = chars_of(s);
    let mut n: usize = 0;
    for i in 0..v.len()
        invariant
            v@ == s@,
            n == count_char(v@.take(i as int), '\n'),
            n <= i,
    {
        assert(v@.take(i + 1).drop_last() =~= v@.take(i as int));
        if v[i] == '\n' {
            n = n + 1;
        }
    }
    assert(v@.take(v@.len() as int) =~= v@);
    if v.len() == 0 {
        0
    } else if v[v.len() - 1] == '\n' {
        n
    } else {
        proof {
            lemma_count_char_le(v@.drop_last(), '\n');
        }
        n + 1
    }
}

/// A character occurs at most as often as the text is long.
proof fn lemma_count_char_le(s: Seq<char>, c: char)
    ensures
        count_char(s, c) <= s.len(),
    decreases s.len(),
{
    if s.len() > 0 {
        lemma_count_char_le(s.drop_last(), c);
    }
}


/// The text `format!("{:?}", v)` gives for the `serde_json::Value` that a
/// JSON value stands for (serde_json's `Debug`), named: the library does
/// not spell it out.
pub uninterp spec fn json_debug_text(v: JsonV) -> Seq<char>;

/// The `Debug` rendering of a JSON value: the value turned into a
/// `serde_json::Value`, then `format!("{:?}", ..)`. Its text is
/// `json_debug_text` of the value's view.
#[verifier::external_body]
fn json_debug(v: &Json) -> (r: String)
    ensures
        r@ == json_debug_text(jview(*v)),
{
    format!("{:?}", json_value(v))
}

/// The `Debug` rendering of an optional JSON value (`Option`'s derived
/// `Debug`): `None`, or `Some(` and the value's rendering and `)`.
pub open spec fn opt_debug_text(o: Option<JsonV>) -> Seq<char> {
    match o {
        Some(v) => "Some("@ + json_debug_text(v) + ")"@,
        None => "None"@,
    }
}

/// The `Debug` rendering of an optional JSON value (see `opt_debug_text`).
fn json_option_debug(o: &Option<Json>) -> (r: String)
    ensures
        r@ == opt_debug_text(opt_jview(*o)),
{
    proof {
        reveal_strlit("Some(");
        reveal_strlit(")");
        reveal_strlit("None");
    }
    match o {
        Some(v) => {
            let mut r = string_of("Some(");
            let d = json_debug(v);
            push_str(&mut r, d.as_str());
            push_str(&mut r, ")");
            r
        },
        None => string_of("None"),
    }
}

/// What the detail view of a tool call shows, read out of the call's JSON
/// arguments and result.
#[derive(Debug, Clone)]
pub struct ToolDetail {
    /// The `oldText` argument, when it is a string.
    pub old_text: Option<String>,
    /// The `newText` argument, when it is a string.
    pub new_text: Option<String>,
    /// The `path` argument, when it is a string.
    pub path: Option<String>,
    /// The `content` member of the result, when it is a string.
    pub output: Option<String>,
    /// The debug rendering of the optional result.
    pub result_debug: String,
    /// The debug rendering of the result, when there is one.
    pub value_debug: Option<String>,
}

/// The mathematical value of a `ToolDetail`.
pub ghost struct ToolDetailView {
    pub old_text: Option<Seq<char>>,
    pub new_text: Option<Seq<char>>,
    pub path: Option<Seq<char>>,
    pub output: Option<Seq<char>>,
    pub result_debug: Seq<char>,
    pub value_debug: Option<Seq<char>>,
}

impl DeepView for ToolDetail {
    type V = ToolDetailView;

    open spec fn deep_view(&self) -> ToolDetailView {
        ToolDetailView {
            old_text: self.old_text.deep_view(),
            new_text: self.new_text.deep_view(),
            path: self.path.deep_view(),
            output: self.output.deep_view(),
            result_debug: self.result_debug@,
            value_debug: self.value_debug.deep_view(),
        }
    }
}

/// The strings a tool call's detail view shows: the `oldText`, `newText`
/// and `path` arguments, the result's `content`, each when it is a string,
/// and the debug renderings of the optional result and of the result.
pub open spec fn tool_detail_spec(args: JsonV, result: Option<JsonV>) -> ToolDetailView {
    ToolDetailView {
        old_text: vstr_at(args, "oldText"@),
        new_text: vstr_at(args, "newText"@),
        path: vstr_at(args, "path"@),
        output: match result {
            Some(r) => vstr_at(r, "content"@),
            None => None,
        },
        result_debug: opt_debug_text(result),
        value_debug: match result {
            Some(r) => Some(json_debug_text(r)),
            None => None,
        },
    }
}

/// Reads the strings a tool call's detail view shows out of its arguments
/// and result (see `tool_detail_spec`).
pub fn tool_detail(arguments: &Json, result: &Option<Json>) -> (r: ToolDetail)
    ensures
        r.deep_view() == tool_detail_spec(jview(*arguments), opt_jview(*result)),
{
    let old_text = json_vstr_at(arguments, "oldText");
    let new_text = json_vstr_at(arguments, "newText");
    let path = json_vstr_at(arguments, "path");
    let output = match result {
        Some(r) => json_vstr_at(r, "content"),
        None => None,
    };
    let result_debug = json_option_debug(result);
    let value_debug = match result {
        Some(r) => Some(json_debug(r)),
        None => None,
    };
    ToolDetail { old_text, new_text, path, output, result_debug, value_debug }
}

/// A text, or the empty text.
pub open spec fn or_empty(o: Option<Seq<char>>) -> Seq<char> {
    match o {
        Some(t) => t,
        None => Seq::empty(),
    }
}

/// The detail view a tool call opens into, by tool: the diff of `oldText`
/// and `newText` for `edit` and `write` (path `unknown` when missing), the
/// result's `content` for `read` and `bash`, the debug rendering of the
/// optional result for `subagent`, and of the result (or nothing) for any
/// other tool; always scrolled to the top.
pub open spec fn tool_view_spec(name: Seq<char>, d: ToolDetailView) -> EnteredViewV {
    if name == "edit"@ || name == "write"@ {
        EnteredViewV::Diff {
            path: match d.path {
                Some(p) => p,
                None => "unknown"@,
            },
            diff_lines: line_diff(or_empty(d.old_text), or_empty(d.new_text)).map_values(
                |c: (u8, Option<usize>, Option<usize>, Seq<char>)| diff_line_of(c),
            ),
            scroll: 0,
        }
    } else if name == "read"@ || name == "bash"@ {
        EnteredViewV::FullOutput { title: name, content: or_empty(d.output), scroll: 0 }
    } else if name == "subagent"@ {
        EnteredViewV::FullOutput { title: "subagent: "@ + name, content: d.result_debug, scroll: 0 }
    } else {
        EnteredViewV::FullOutput { title: name, content: or_empty(d.value_debug), scroll: 0 }
    }
}

/// A copy of an optional text, or the empty text.
fn text_or_empty(o: &Option<String>) -> (r: String)
    ensures
        r@ == or_empty(o.deep_view()),
{
    match o {
        Some(t) => string_of(t.as_str()),
        None => String::new(),
    }
}

/// The detail view of tool `name` with the strings `d` (see `tool_view_spec`).
pub fn tool_entered_view(name: &str, d: &ToolDetail) -> (r: EnteredView)
    ensures
        r.deep_view() == tool_view_spec(name@, d.deep_view()),
{
    if str_eq(name, "edit") || str_eq(name, "write") {
        let old_t = text_or_empty(&d.old_text);
        let new_t = text_or_empty(&d.new_text);
        let path = match &d.path {
            Some(p) => string_of(p.as_str()),
            None => string_of("unknown"),
        };
        let diff_lines = compute_diff_lines(old_t.as_str(), new_t.as_str());
        EnteredView::Diff { path, diff_lines, scroll: 0 }
    } else if str_eq(name, "read") || str_eq(name, "bash") {
        EnteredView::FullOutput { title: string_of(name), content: text_or_empty(&d.output), scroll: 0 }
    } else if str_eq(name, "subagent") {
        let mut title = string_of("subagent: ");
        push_str(&mut title, name);
        EnteredView::FullOutput { title, content: string_of(d.result_debug.as_str()), scroll: 0 }
    } else {
        EnteredView::FullOutput { title: string_of(name), content: text_or_empty(&d.value_debug), scroll: 0 }
    }
}


/// Every interactive block of a message is one of its thinking or tool call
/// blocks.
proof fn lemma_msg_block_refs_shape(i: int, id: Seq<char>, bs: Seq<BlockView>)
    requires
        0 <= i <= usize::MAX,
        bs.len() <= usize::MAX,
    ensures
        forall|k: int|
            0 <= k < msg_block_refs(i, id, bs).len() ==> {
                let r = #[trigger] msg_block_refs(i, id, bs)[k];
                &&& r.msg_index == i
                &&& r.msg_id == id
                &&& r.block_index < bs.len()
                &&& (r.kind == BlockKind::Thinking ==> bs[r.block_index as int] is Thinking)
                &&& (r.kind == BlockKind::ToolCall ==> bs[r.block_index as int] is ToolCall)
            },
    decreases bs.len(),
{
    if bs.len() > 0 {
        lemma_msg_block_refs_shape(i, id, bs.drop_last());
        let rest = msg_block_refs(i, id, bs.drop_last());
        assert forall|k: int| 0 <= k < rest.len() implies (#[trigger] rest[k]).block_index < bs.drop_last().len()
            && bs.drop_last()[rest[k].block_index as int] == bs[rest[k].block_index as int] by {}
    }
}

/// Every interactive block of a message list is a thinking or tool call
/// block of one of the messages.
proof fn lemma_block_refs_shape(ms: Seq<MessageView>)
    requires
        ms.len() <= usize::MAX,
        forall|m: int| 0 <= m < ms.len() ==> (#[trigger] ms[m]).content.len() <= usize::MAX,
    ensures
        forall|k: int|
            0 <= k < block_refs_spec(ms).len() ==> {
                let r = #[trigger] block_refs_spec(ms)[k];
                &&& r.msg_index < ms.len()
                &&& r.msg_id == ms[r.msg_index as int].id
                &&& r.block_index < ms[r.msg_index as int].content.len()
                &&& (r.kind == BlockKind::Thinking ==> ms[r.msg_index as int].content[r.block_index as int] is Thinking)
                &&& (r.kind == BlockKind::ToolCall ==> ms[r.msg_index as int].content[r.block_index as int] is ToolCall)
            },
    decreases ms.len(),
{
    if ms.len() > 0 {
        let front = ms.drop_last();
        assert forall|m: int| 0 <= m < front.len() implies (#[trigger] front[m]).content.len() <= usize::MAX by {
            assert(front[m] == ms[m]);
        }
        lemma_block_refs_shape(front);
        let last = ms.len() - 1;
        lemma_msg_block_refs_shape(last, ms.last().id, ms.last().content);
        let a = block_refs_spec(front);
        let b = msg_block_refs(last, ms.last().id, ms.last().content);
        assert forall|k: int| 0 <= k < block_refs_spec(ms).len() implies {
            let r = #[trigger] block_refs_spec(ms)[k];
            &&& r.msg_index < ms.len()
            &&& r.msg_id == ms[r.msg_index as int].id
            &&& r.block_index < ms[r.msg_index as int].content.len()
            &&& (r.kind == BlockKind::Thinking ==> ms[r.msg_index as int].content[r.block_index as int] is Thinking)
            &&& (r.kind == BlockKind::ToolCall ==> ms[r.msg_index as int].content[r.block_index as int] is ToolCall)
        } by {
            if k < a.len() {
                assert(block_refs_spec(ms)[k] == a[k]);
                assert(front[a[k].msg_index as int] == ms[a[k].msg_index as int]);
            } else {
                assert(block_refs_spec(ms)[k] == b[k - a.len()]);
            }
        }
    }
}

/// The interactive block whose key is `key`.
pub open spec fn key_is(key: Seq<char>) -> spec_fn(RefView) -> bool {
    |r: RefView| block_key_spec(r.msg_id, r.block_index) == key
}

/// The first interactive block whose key is `key`.
fn find_block(blocks: &Vec<BlockRef>, key: &str) -> (r: Option<usize>)
    ensures
        match r {
            Some(i) => i < blocks@.len() && first_index(blocks.deep_view(), key_is(key@)) == Some(i as int),
            None => first_index(blocks.deep_view(), key_is(key@)) is None,
        },
{
    let ghost bs = blocks.deep_view();
    let mut i: usize = 0;
    while i < blocks.len()
        invariant
            bs == blocks.deep_view(),
            bs.len() == blocks@.len(),
            i <= blocks@.len(),
            forall|j: int| 0 <= j < i ==> !key_is(key@)(#[trigger] bs[j]),
        decreases blocks@.len() - i,
    {
        let k = block_key(blocks[i].msg_id.as_str(), blocks[i].block_index);
        assert(bs[i as int] == blocks@[i as int].deep_view());
        if str_eq(k.as_str(), key) {
            proof {
                lemma_first_index_is(bs, key_is(key@), i as int);
            }
            return Some(i);
        }
        i += 1;
    }
    proof {
        lemma_first_index_none(bs, key_is(key@));
    }
    None
}

/// The text of thinking block `j` (empty for any other block or a missing one).
pub open spec fn thinking_text_at(bs: Seq<BlockView>, j: int) -> Seq<char> {
    if 0 <= j < bs.len() {
        match bs[j] {
            BlockView::Thinking(t) => t,
            _ => Seq::empty(),
        }
    } else {
        Seq::empty()
    }
}

/// Folds or unfolds a block.
pub open spec fn flip(e: BlockExpanded) -> BlockExpanded {
    match e {
        BlockExpanded::Collapsed => BlockExpanded::Expanded,
        BlockExpanded::Expanded => BlockExpanded::Collapsed,
    }
}

/// The central panel: the message list with its cursors, the fold states of
/// its blocks and the view a block was entered into, and the input line.
#[derive(Debug)]
pub struct MainView {
    pub messages: Vec<ChatMessage>,
    pub scroll_offset: usize,
    pub input_buffer: String,
    /// Whether the reasoning of the agent is shown.
    pub show_thinking: bool,
    /// Whether the input line has the focus.
    pub has_focus: bool,
    pub subsection: MainViewSubsection,
    /// The message under the cursor.
    pub message_cursor: usize,
    pub scroll_mode: ScrollMode,
    pub selection: SelectionState,
    /// The interactive block under the cursor (index into `build_block_refs`).
    pub block_cursor: usize,
    pub block_states: BlockStates,
    /// The detail view a block was entered into.
    pub entered_view: Option<EnteredView>,
    /// The completion popup of the input line.
    pub completion_popup: Option<CompletionPopup>,
}

impl MainView {
    /// Everything but the fold states and the entered view is the same.
    pub open spec fn same_list(&self, o: &MainView) -> bool {
        &&& self.messages@ == o.messages@
        &&& self.scroll_offset == o.scroll_offset
        &&& self.input_buffer@ == o.input_buffer@
        &&& self.show_thinking == o.show_thinking
        &&& self.has_focus == o.has_focus
        &&& self.subsection == o.subsection
        &&& self.message_cursor == o.message_cursor
        &&& self.scroll_mode == o.scroll_mode
        &&& self.selection == o.selection
        &&& self.block_cursor == o.block_cursor
        &&& self.completion_popup == o.completion_popup
    }
}

impl Default for MainView {
    /// An empty message list with the cursor on the messages, following the
    /// tail, nothing folded or entered and an empty input line.
    fn default() -> (r: MainView)
        ensures
            r.messages@.len() == 0,
            r.scroll_offset == 0,
            r.input_buffer@.len() == 0,
            !r.show_thinking && !r.has_focus,
            r.subsection == MainViewSubsection::Messages,
            r.message_cursor == 0 && r.block_cursor == 0,
            r.scroll_mode == ScrollMode::TailFollow,
            r.selection.panel == SelectionPanel::NoPanel && !r.selection.active,
            r.selection.anchor is None && r.selection.focus is None,
            r.selection.selected_text@.len() == 0,
            r.block_states@ == Map::<Seq<char>, BlockExpanded>::empty(),
            r.entered_view is None && r.completion_popup is None,
    {
        MainView {
            messages: Vec::new(),
            scroll_offset: 0,
            input_buffer: String::new(),
            show_thinking: false,
            has_focus: false,
            subsection: MainViewSubsection::Messages,
            message_cursor: 0,
            scroll_mode: ScrollMode::TailFollow,
            selection: SelectionState {
                panel: SelectionPanel::NoPanel,
                active: false,
                anchor: None,
                focus: None,
                selected_text: String::new(),
            },
            block_cursor: 0,
            block_states: BlockStates::new(),
            entered_view: None,
            completion_popup: None,
        }
    }
}

impl MainView {
    /// Appends a user message with the given text.
    pub fn add_user_message(&mut self, agent_id: &str, text: &str)
        ensures
            final(self).messages@.len() == old(self).messages@.len() + 1,
            final(self).messages@.drop_last() == old(self).messages@,
            plain_message(final(self).messages@.last().deep_view(), crate::message::ChatRole::User, agent_id@, text@),
            final(self).block_states@ == old(self).block_states@,
            final(self).entered_view.deep_view() == old(self).entered_view.deep_view(),
            final(self).scroll_offset == old(self).scroll_offset,
            final(self).input_buffer@ == old(self).input_buffer@,
            final(self).message_cursor == old(self).message_cursor,
            final(self).block_cursor == old(self).block_cursor,
            final(self).scroll_mode == old(self).scroll_mode,
    {
        let m = ChatMessage::user(agent_id, text);
        self.messages.push(m);
        assert(self.messages@.drop_last() =~= old(self).messages@);
    }

    /// Folds block `block_index` of message `msg_id` if it is unfolded, and
    /// unfolds it otherwise (a block without a state counts as folded).
    pub fn toggle_block(&mut self, msg_id: &str, block_index: usize)
        ensures
            final(self).same_list(&*old(self)),
            final(self).entered_view.deep_view() == old(self).entered_view.deep_view(),
            ({
                let key = block_key_spec(msg_id@, block_index);
                let cur = if old(self).block_states@.contains_key(key) {
                    old(self).block_states@[key]
                } else {
                    BlockExpanded::Collapsed
                };
                final(self).block_states@ == old(self).block_states@.insert(key, flip(cur))
            }),
    {
        let key = block_key(msg_id, block_index);
        let cur = match self.block_states.get(key.as_str()) {
            Some(e) => e,
            None => BlockExpanded::Collapsed,
        };
        let next = match cur {
            BlockExpanded::Collapsed => BlockExpanded::Expanded,
            BlockExpanded::Expanded => BlockExpanded::Collapsed,
        };
        self.block_states.set(key.as_str(), next);
    }

    /// The effect of entering block `bi` (of kind `kind`) of a message with
    /// blocks `bs`, whose key is `key`: a thinking block of more than five
    /// lines opens in a full view titled 思考过程, a shorter one is unfolded;
    /// a tool call opens its detail view (see `tool_view_spec`).
    #[verifier::opaque]
    pub open spec fn entered(&self, o: &MainView, bs: Seq<BlockView>, kind: BlockKind, bi: int, key: Seq<char>) -> bool {
        if kind == BlockKind::Thinking {
            let t = thinking_text_at(bs, bi);
            if line_count(t) > 5 {
                &&& self.block_states@ == o.block_states@
                &&& self.entered_view.deep_view() == Some(
                    EnteredViewV::FullOutput { title: "思考过程"@, content: t, scroll: 0 },
                )
            } else {
                &&& self.block_states@ == o.block_states@.insert(key, BlockExpanded::Expanded)
                &&& self.entered_view.deep_view() == o.entered_view.deep_view()
            }
        } else {
            &&& self.block_states@ == o.block_states@
            &&& bs[bi] is ToolCall
            &&& self.entered_view.deep_view() == Some(
                tool_view_spec(
                    bs[bi]->ToolCall_name,
                    tool_detail_spec(bs[bi]->ToolCall_arguments, bs[bi]->ToolCall_result),
                ),
            )
        }
    }

    /// Enters block `bi` of message `m` (see `entered`).
    fn enter_ref(&mut self, m: &ChatMessage, kind: BlockKind, bi: usize, key: &str)
        requires
            bi < m.content@.len(),
            kind == BlockKind::Thinking ==> m.content.deep_view()[bi as int] is Thinking,
            kind == BlockKind::ToolCall ==> m.content.deep_view()[bi as int] is ToolCall,
        ensures
            final(self).same_list(&*old(self)),
            final(self).entered(&*old(self), m.content.deep_view(), kind, bi as int, key@),
    {
        assert(m.content.deep_view()[bi as int] == m.content@[bi as int].deep_view());
        reveal(MainView::entered);
        match kind {
            BlockKind::Thinking => {
                let text = match &m.content[bi] {
                    ContentBlock::Thinking { thinking } => string_of(thinking.as_str()),
                    _ => String::new(),
                };
                if count_lines(text.as_str()) > 5 {
                    self.entered_view = Some(
                        EnteredView::FullOutput { title: string_of("思考过程"), content: text, scroll: 0 },
                    );
                } else {
                    self.block_states.set(key, BlockExpanded::Expanded);
                }
            },
            BlockKind::ToolCall => {
                match &m.content[bi] {
                    ContentBlock::ToolCall { name, arguments, result, .. } => {
                        let d = tool_detail(arguments, result);
                        let v = tool_entered_view(name.as_str(), &d);
                        self.entered_view = Some(v);
                        assert(self.entered_view.deep_view() == Some(tool_view_spec(name@, d.deep_view())));
                    },
                    _ => {},
                }
            },
        }
    }

    /// Enters block `block_index` of message `msg_id` of the message list
    /// `msgs` (see `entered`); nothing happens for a block that is not one of
    /// the interactive blocks of the list.
    pub fn enter_block(&mut self, msgs: &[ChatMessage], msg_id: &str, block_index: usize)
        ensures
            final(self).same_list(&*old(self)),
            ({
                let ms = msgs.deep_view();
                let refs = block_refs_spec(ms);
                let key = block_key_spec(msg_id@, block_index);
                match first_index(refs, key_is(key)) {
                    None => {
                        &&& final(self).block_states@ == old(self).block_states@
                        &&& final(self).entered_view.deep_view() == old(self).entered_view.deep_view()
                    },
                    Some(i) => final(self).entered(
                        &*old(self),
                        ms[refs[i].msg_index as int].content,
                        refs[i].kind,
                        refs[i].block_index as int,
                        key,
                    ),
                }
            }),
    {
        let blocks = build_block_refs(msgs);
        let key = block_key(msg_id, block_index);
        let found = find_block(&blocks, key.as_str());
        assert(blocks.deep_view() == block_refs_spec(msgs.deep_view()));
        assert(key@ == block_key_spec(msg_id@, block_index));
        match found {
            None => {
                assert(first_index(block_refs_spec(msgs.deep_view()), key_is(key@)) is None);
            },
            Some(i) => {
                proof {
                    lemma_ref_in_msgs(msgs, i as int);
                }
                let mi = blocks[i].msg_index;
                let bi = blocks[i].block_index;
                let kind = blocks[i].kind;
                let ghost r = block_refs_spec(msgs.deep_view())[i as int];
                assert(blocks@[i as int].deep_view() == r);
                assert(r.msg_index == mi && r.block_index == bi && r.kind == kind);
                assert(first_index(block_refs_spec(msgs.deep_view()), key_is(key@)) == Some(i as int));
                let ghost old_self = *self;
                self.enter_ref(&msgs[mi], kind, bi, key.as_str());
                assert(msgs.deep_view()[mi as int].content == msgs@[mi as int].content.deep_view());
                assert(self.entered(&old_self, msgs.deep_view()[r.msg_index as int].content, r.kind, r.block_index as int, key@));
            },
        }
    }
}

/// Interactive block `i` of a message list is a thinking or tool call block
/// of one of its messages.
proof fn lemma_ref_in_msgs(msgs: &[ChatMessage], i: int)
    requires
        0 <= i < block_refs_spec(msgs.deep_view()).len(),
    ensures
        ({
            let ms = msgs.deep_view();
            let r = block_refs_spec(ms)[i];
            &&& r.msg_index < msgs@.len()
            &&& ms[r.msg_index as int] == msgs@[r.msg_index as int].deep_view()
            &&& r.block_index < msgs@[r.msg_index as int].content@.len()
            &&& (r.kind == BlockKind::Thinking ==> msgs@[r.msg_index as int].content.deep_view()[r.block_index as int] is Thinking)
            &&& (r.kind == BlockKind::ToolCall ==> msgs@[r.msg_index as int].content.deep_view()[r.block_index as int] is ToolCall)
        }),
{
    let ms = msgs.deep_view();
    assert(ms.len() == msgs@.len());
    assert(msgs@.len() == msgs.len());
    assert forall|m: int| 0 <= m < ms.len() implies (#[trigger] ms[m]).content.len() <= usize::MAX by {
        assert(ms[m] == msgs@[m].deep_view());
        assert(msgs@[m].content@.len() == msgs@[m].content.len());
    }
    lemma_block_refs_shape(ms);
    let r = block_refs_spec(ms)[i];
    assert(ms[r.msg_index as int] == msgs@[r.msg_index as int].deep_view());
}

} // verus!
