//! JSON values as the library reads them, and reading a saved session: the
//! JSON lines of a session file become the messages of the conversation,
//! the file's first lines give the session its title and working directory,
//! and its last lines the prompt that asks for new names.

use vstd::prelude::*;
use crate::seqs::{first_index, lemma_first_index_is, lemma_first_index_none, lemma_first_index_props};
use crate::strs::{
    str_eq, string_of, text_is_empty, push_decimal, dec_spec, chars_of, split_chars, split_spec,
    trim_chars, trim_spec, string_from_chars, trim, std_lines, text_lines, boundary_at_most, floor_boundary,
};
use crate::utils::{session_title, session_title_spec};
use crate::strs::{join_spec, push_char, push_str};
use vstd::string::StringSliceAdditionalSpecFns;
use vstd::utf8::{encode_utf8, decode_utf8, is_char_boundary};
use crate::message::{BlockView, ChatMessage, ChatRole, ContentBlock, MessageView, ToolCallInfo, ToolCallView, ToolStatus};

verus! {

/// A JSON value, as the library reads it.
#[derive(Debug)]
pub enum Json {
    Null,
    Bool(bool),
    /// A number: its value when it is a non-negative integer that fits in
    /// 64 bits, and its text as `serde_json` writes it.
    Number(Option<u64>, String),
    Str(String),
    Array(Vec<Json>),
    /// An object: its members in order.
    Object(Vec<JsonMember>),
}

/// A member of a JSON object: its key and its value.
#[derive(Debug)]
pub struct JsonMember {
    pub key: String,
    pub value: Json,
}

/// The mathematical value of a JSON value.
pub ghost enum JsonV {
    Null,
    Bool(bool),
    Number(Option<u64>, Seq<char>),
    Str(Seq<char>),
    Array(Seq<JsonV>),
    Object(Seq<(Seq<char>, JsonV)>),
}

/// The mathematical value of a JSON value.
pub open spec fn jview(j: Json) -> JsonV
    decreases j, 0nat,
{
    match j {
        Json::Null => JsonV::Null,
        Json::Bool(b) => JsonV::Bool(b),
        Json::Number(n, t) => JsonV::Number(n, t@),
        Json::Str(s) => JsonV::Str(s@),
        Json::Array(a) => JsonV::Array(jviews(a@)),
        Json::Object(ms) => JsonV::Object(mviews(ms@)),
    }
}

/// The mathematical values of JSON values, in order.
pub open spec fn jviews(s: Seq<Json>) -> Seq<JsonV>
    decreases s, 1nat,
{
    if s.len() == 0 {
        Seq::empty()
    } else {
        jviews(s.subrange(0, s.len() - 1)).push(jview(s[s.len() - 1]))
    }
}

/// The keys and mathematical values of object members, in order.
pub open spec fn mviews(s: Seq<JsonMember>) -> Seq<(Seq<char>, JsonV)>
    decreases s, 1nat,
{
    if s.len() == 0 {
        Seq::empty()
    } else {
        mviews(s.subrange(0, s.len() - 1)).push((s[s.len() - 1].key@, jview(s[s.len() - 1].value)))
    }
}

/// The member of an object's view whose key is `key`.
pub open spec fn vkey_named(key: Seq<char>) -> spec_fn((Seq<char>, JsonV)) -> bool {
    |m: (Seq<char>, JsonV)| m.0 == key
}

/// The value of member `key` of an object (the first one with that key);
/// nothing for any other value.
pub open spec fn vget(v: JsonV, key: Seq<char>) -> Option<JsonV> {
    match v {
        JsonV::Object(ms) => match first_index(ms, vkey_named(key)) {
            Some(i) => Some(ms[i].1),
            None => None,
        },
        _ => None,
    }
}

/// The text of string member `key`.
pub open spec fn vstr_at(v: JsonV, key: Seq<char>) -> Option<Seq<char>> {
    match vget(v, key) {
        Some(JsonV::Str(t)) => Some(t),
        _ => None,
    }
}

/// The keys of an object, in order; nothing for any other value.
pub open spec fn vkeys(v: JsonV) -> Option<Seq<Seq<char>>> {
    match v {
        JsonV::Object(ms) => Some(Seq::new(ms.len(), |i: int| ms[i].0)),
        _ => None,
    }
}

/// The view of object members has one entry per member: its key and the
/// view of its value.
pub proof fn lemma_mviews_index(s: Seq<JsonMember>)
    ensures
        mviews(s).len() == s.len(),
        forall|i: int| 0 <= i < s.len() ==> #[trigger] mviews(s)[i] == (s[i].key@, jview(s[i].value)),
    decreases s.len(),
{
    if s.len() > 0 {
        let t = s.subrange(0, s.len() - 1);
        lemma_mviews_index(t);
        assert forall|i: int| 0 <= i < s.len() implies #[trigger] mviews(s)[i] == (s[i].key@, jview(s[i].value)) by {
            if i < s.len() - 1 {
                assert(t[i] == s[i]);
            }
        }
    }
}

/// A string member read through the view is the one read from the value.
pub proof fn lemma_str_at_view(j: Json, key: Seq<char>)
    ensures
        vstr_at(jview(j), key) == str_at(j, key),
{
    if let Json::Object(ms) = j {
        let s = ms@;
        let vs = mviews(s);
        lemma_mviews_index(s);
        lemma_first_index_props(s, key_named(key));
        lemma_first_index_props(vs, vkey_named(key));
        match first_index(s, key_named(key)) {
            Some(i) => {
                assert(vkey_named(key)(vs[i]));
                assert forall|k: int| 0 <= k < i implies !vkey_named(key)(#[trigger] vs[k]) by {
                    assert(!key_named(key)(s[k]));
                }
                lemma_first_index_is(vs, vkey_named(key), i);
            },
            None => {
                assert forall|k: int| 0 <= k < vs.len() implies !vkey_named(key)(#[trigger] vs[k]) by {
                    assert(!key_named(key)(s[k]));
                }
                lemma_first_index_none(vs, vkey_named(key));
            },
        }
    }
}

/// The text of string member `key`, read through the value's view.
pub fn json_vstr_at(j: &Json, key: &str) -> (r: Option<String>)
    ensures
        match r {
            Some(t) => vstr_at(jview(*j), key@) == Some(t@),
            None => vstr_at(jview(*j), key@) is None,
        },
{
    proof {
        lemma_str_at_view(*j, key@);
    }
    json_str_at(j, key)
}

/// The keys of an object (see `vkeys`).
pub fn json_keys(j: &Json) -> (r: Option<Vec<String>>)
    ensures
        match r {
            Some(ks) => vkeys(jview(*j)) == Some(ks.deep_view()),
            None => vkeys(jview(*j)) is None,
        },
{
    match j {
        Json::Object(ms) => {
            proof {
                lemma_mviews_index(ms@);
            }
            let mut out: Vec<String> = Vec::new();
            let mut i: usize = 0;
            while i < ms.len()
                invariant
                    *j == Json::Object(*ms),
                    i <= ms@.len(),
                    mviews(ms@).len() == ms@.len(),
                    forall|k: int| 0 <= k < ms@.len() ==> #[trigger] mviews(ms@)[k] == (ms@[k].key@, jview(ms@[k].value)),
                    out.deep_view() =~= Seq::new(i as nat, |k: int| mviews(ms@)[k].0),
                decreases ms@.len() - i,
            {
                let ghost before = out.deep_view();
                let k = string_of(ms[i].key.as_str());
                out.push(k);
                assert(out.deep_view() =~= before.push(mviews(ms@)[i as int].0));
                i += 1;
            }
            Some(out)
        },
        _ => None,
    }
}

/// A JSON value of `serde_json`, met only where values are converted.
#[verifier::external_type_specification]
#[verifier::external_body]
pub struct ExJsonValue(serde_json::Value);

/// The `serde_json::Value` a JSON value stands for: the same value, member
/// for member, a number from its text (the JSON null when the text is no
/// number). Converts only; nothing is claimed of it.
#[verifier::external_body]
pub(crate) fn json_value(j: &Json) -> serde_json::Value {
    match j {
        Json::Null => serde_json::Value::Null,
        Json::Bool(b) => serde_json::Value::Bool(*b),
        Json::Number(_, t) => t.parse::<serde_json::Number>().map(serde_json::Value::Number).unwrap_or(serde_json::Value::Null),
        Json::Str(s) => serde_json::Value::String(s.clone()),
        Json::Array(a) => serde_json::Value::Array(a.iter().map(json_value).collect()),
        Json::Object(ms) => serde_json::Value::Object(ms.iter().map(|m| (m.key.clone(), json_value(&m.value))).collect()),
    }
}

/// The JSON value a `serde_json::Value` stands for: the same value, member
/// for member, a number with its `as_u64` and its text. Converts only;
/// nothing is claimed of it.
#[verifier::external_body]
fn json_of_value(v: &serde_json::Value) -> Json {
    match v {
        serde_json::Value::Null => Json::Null,
        serde_json::Value::Bool(b) => Json::Bool(*b),
        serde_json::Value::Number(n) => Json::Number(n.as_u64(), n.to_string()),
        serde_json::Value::String(s) => Json::Str(s.clone()),
        serde_json::Value::Array(a) => Json::Array(a.iter().map(json_of_value).collect()),
        serde_json::Value::Object(o) => Json::Object(o.iter().map(|(k, x)| JsonMember { key: k.clone(), value: json_of_value(x) }).collect()),
    }
}

/// What `serde_json::from_str::<serde_json::Value>` makes of a text, as the
/// library's JSON value, or the text of its error: named, the JSON grammar
/// is not spelled out here.
pub uninterp spec fn json_parse(s: Seq<char>) -> Result<JsonV, Seq<char>>;

/// Whether a text is one JSON value.
pub open spec fn json_parses(s: Seq<char>) -> bool {
    json_parse(s) is Ok
}

/// Parses one JSON value (`serde_json::from_str::<serde_json::Value>`), as
/// the library's JSON value; on failure, the text of serde_json's error.
#[verifier::external_body]
pub fn parse_json_line(line: &str) -> (r: Result<Json, String>)
    ensures
        match r {
            Ok(j) => json_parse(line@) == Ok::<JsonV, Seq<char>>(jview(j)),
            Err(e) => json_parse(line@) == Err::<JsonV, Seq<char>>(e@),
        },
{
    match serde_json::from_str::<serde_json::Value>(line) {
        Ok(v) => Ok(json_of_value(&v)),
        Err(e) => Err(e.to_string()),
    }
}

/// The member whose key is `key`.
pub open spec fn key_named(key: Seq<char>) -> spec_fn(JsonMember) -> bool {
    |m: JsonMember| m.key@ == key
}

/// The member `key` of an object (the first one with that key); nothing for
/// any other value.
pub open spec fn jmember(j: Json, key: Seq<char>) -> Option<JsonMember> {
    match j {
        Json::Object(ms) => match first_index(ms@, key_named(key)) {
            Some(i) => Some(ms@[i]),
            None => None,
        },
        _ => None,
    }
}

/// The value of member `key` (`serde_json::Value::get`).
pub open spec fn jget(j: Json, key: Seq<char>) -> Option<Json> {
    match jmember(j, key) {
        Some(m) => Some(m.value),
        None => None,
    }
}

/// The text of a JSON string (`as_str`).
pub open spec fn jstr(o: Option<Json>) -> Option<Seq<char>> {
    match o {
        Some(Json::Str(s)) => Some(s@),
        _ => None,
    }
}

/// The text of string member `key`.
pub open spec fn str_at(j: Json, key: Seq<char>) -> Option<Seq<char>> {
    jstr(jget(j, key))
}

/// The text, or the empty text.
pub open spec fn or_empty(o: Option<Seq<char>>) -> Seq<char> {
    match o {
        Some(s) => s,
        None => Seq::empty(),
    }
}

/// Member `k1`, or else member `k2`.
pub open spec fn member_or(j: Json, k1: Seq<char>, k2: Seq<char>) -> Option<JsonMember> {
    match jmember(j, k1) {
        Some(m) => Some(m),
        None => jmember(j, k2),
    }
}

/// The value of an optional member.
pub open spec fn value_of(o: Option<JsonMember>) -> Option<Json> {
    match o {
        Some(m) => Some(m.value),
        None => None,
    }
}

/// Member `key` of a JSON value (`serde_json::Value::get`).
pub fn json_member<'a>(j: &'a Json, key: &str) -> (r: Option<&'a JsonMember>)
    ensures
        match r {
            Some(m) => jmember(*j, key@) == Some(*m),
            None => jmember(*j, key@) is None,
        },
{
    match j {
        Json::Object(ms) => {
            let mut i: usize = 0;
            while i < ms.len()
                invariant
                    *j == Json::Object(*ms),
                    i <= ms@.len(),
                    forall|k: int| 0 <= k < i ==> !key_named(key@)(#[trigger] ms@[k]),
                decreases ms@.len() - i,
            {
                if str_eq(ms[i].key.as_str(), key) {
                    proof {
                        lemma_first_index_is(ms@, key_named(key@), i as int);
                    }
                    return Some(&ms[i]);
                }
                i += 1;
            }
            proof {
                lemma_first_index_none(ms@, key_named(key@));
            }
            None
        },
        _ => None,
    }
}

/// The value of member `key`.
pub fn json_get<'a>(j: &'a Json, key: &str) -> (r: Option<&'a Json>)
    ensures
        match r {
            Some(v) => jget(*j, key@) == Some(*v),
            None => jget(*j, key@) is None,
        },
{
    match json_member(j, key) {
        Some(m) => Some(&m.value),
        None => None,
    }
}

/// The text of string member `key`.
pub fn json_str_at(j: &Json, key: &str) -> (r: Option<String>)
    ensures
        match r {
            Some(s) => str_at(*j, key@) == Some(s@),
            None => str_at(*j, key@) is None,
        },
{
    match json_get(j, key) {
        Some(Json::Str(s)) => Some(string_of(s.as_str())),
        _ => None,
    }
}

/// The text of string member `key`, or the empty text.
fn json_text_at(j: &Json, key: &str) -> (r: String)
    ensures
        r@ == or_empty(str_at(*j, key@)),
{
    match json_str_at(j, key) {
        Some(s) => s,
        None => String::new(),
    }
}

/// Member `k1`, or else member `k2`.
fn json_member_or<'a>(j: &'a Json, k1: &str, k2: &str) -> (r: Option<&'a JsonMember>)
    ensures
        match r {
            Some(m) => member_or(*j, k1@, k2@) == Some(*m),
            None => member_or(*j, k1@, k2@) is None,
        },
{
    match json_member(j, k1) {
        Some(m) => Some(m),
        None => json_member(j, k2),
    }
}

/// The value of an optional member, or the JSON null.
pub open spec fn carried_of(o: Option<JsonMember>) -> JsonV {
    match o {
        Some(m) => jview(m.value),
        None => JsonV::Null,
    }
}

/// The object `{"content": t}`.
pub open spec fn content_view(t: Seq<char>) -> JsonV {
    JsonV::Object(seq![("content"@, JsonV::Str(t))])
}

/// A content block of a saved message.
pub ghost enum SavedBlock {
    Text(Seq<char>),
    Thinking(Seq<char>),
    ToolCall { id: Seq<char>, name: Seq<char>, args: JsonV, result: Option<JsonV>, is_error: bool },
}

/// The tool call of a saved message.
pub ghost struct SavedTool {
    pub id: Seq<char>,
    pub name: Seq<char>,
    pub args: JsonV,
}

/// What the content blocks of a saved message give: its blocks, its last
/// reasoning text and its last tool call.
pub ghost struct BlocksScan {
    pub blocks: Seq<SavedBlock>,
    pub thinking: Option<Seq<char>>,
    pub tool: Option<SavedTool>,
}

/// The id of a tool block: its `id`, or else its `tool_call_id`, when that
/// member is a string; the empty text otherwise.
pub open spec fn block_id(b: Json) -> Seq<char> {
    or_empty(jstr(value_of(member_or(b, "id"@, "tool_call_id"@))))
}

/// The index of the last tool call block with id `id`.
pub open spec fn last_call_with(bs: Seq<SavedBlock>, id: Seq<char>) -> Option<int>
    decreases bs.len(),
{
    if bs.len() == 0 {
        None
    } else if bs.last() matches SavedBlock::ToolCall { id: i, .. } && i == id {
        Some(bs.len() - 1)
    } else {
        last_call_with(bs.drop_last(), id)
    }
}

/// The member holding a tool's result: `result`, else `content`, else `output`.
pub open spec fn result_member(b: Json) -> Option<JsonMember> {
    match jmember(b, "result"@) {
        Some(m) => Some(m),
        None => member_or(b, "content"@, "output"@),
    }
}

/// The result a tool result block records: a textual result becomes the
/// object `{"content": text}`, any other value is kept.
pub open spec fn result_carried(b: Json) -> Option<JsonV> {
    match result_member(b) {
        Some(m) => match m.value {
            Json::Str(t) => Some(content_view(t@)),
            _ => Some(jview(m.value)),
        },
        None => None,
    }
}

/// Whether a tool result block is marked as an error (`"is_error": true`).
pub open spec fn marked_error(b: Json) -> bool {
    jget(b, "is_error"@) == Some(Json::Bool(true))
}

/// One content block read into the scan: text and reasoning blocks are
/// kept, a tool use becomes a tool call block and the message's tool call,
/// and a tool result fills in the result of the last tool call block with
/// its id. Other blocks are passed over.
pub open spec fn scan_block(st: BlocksScan, b: Json) -> BlocksScan {
    let ty = or_empty(str_at(b, "type"@));
    if ty == "text"@ {
        match str_at(b, "text"@) {
            Some(t) => BlocksScan { blocks: st.blocks.push(SavedBlock::Text(t)), ..st },
            None => st,
        }
    } else if ty == "thinking"@ {
        match str_at(b, "thinking"@) {
            Some(t) => BlocksScan {
                blocks: st.blocks.push(SavedBlock::Thinking(t)),
                thinking: Some(t),
                ..st
            },
            None => st,
        }
    } else if ty == "tool_use"@ || ty == "toolCall"@ {
        let id = block_id(b);
        let name = or_empty(str_at(b, "name"@));
        let args = carried_of(member_or(b, "input"@, "arguments"@));
        BlocksScan {
            blocks: st.blocks.push(
                SavedBlock::ToolCall { id, name, args, result: None, is_error: false },
            ),
            tool: Some(SavedTool { id, name, args }),
            ..st
        }
    } else if ty == "tool_result"@ || ty == "toolCallResult"@ || ty == "toolExecutionEnd"@ {
        match last_call_with(st.blocks, block_id(b)) {
            Some(k) => match st.blocks[k] {
                SavedBlock::ToolCall { id, name, args, .. } => BlocksScan {
                    blocks: st.blocks.update(
                        k,
                        SavedBlock::ToolCall {
                            id,
                            name,
                            args,
                            result: result_carried(b),
                            is_error: marked_error(b),
                        },
                    ),
                    ..st
                },
                _ => st,
            },
            None => st,
        }
    } else {
        st
    }
}

/// The content blocks `bs` read in order.
pub open spec fn scan_blocks(bs: Seq<Json>) -> BlocksScan
    decreases bs.len(),
{
    if bs.len() == 0 {
        BlocksScan { blocks: Seq::empty(), thinking: None, tool: None }
    } else {
        scan_block(scan_blocks(bs.drop_last()), bs.last())
    }
}

/// A message's content block is the saved block `s`.
pub open spec fn block_is(b: BlockView, s: SavedBlock) -> bool {
    match (b, s) {
        (BlockView::Text(t), SavedBlock::Text(u)) => t == u,
        (BlockView::Thinking(t), SavedBlock::Thinking(u)) => t == u,
        (
            BlockView::ToolCall { id, name, arguments, result, is_error },
            SavedBlock::ToolCall { id: i2, name: n2, args, result: r2, is_error: e2 },
        ) => {
            &&& id == i2
            &&& name == n2
            &&& arguments == args
            &&& is_error == e2
            &&& result == r2
        },
        _ => false,
    }
}

/// The content blocks are the saved blocks, one for one.
pub open spec fn blocks_are(bs: Seq<BlockView>, ss: Seq<SavedBlock>) -> bool {
    &&& bs.len() == ss.len()
    &&& forall|k: int| 0 <= k < ss.len() ==> block_is(#[trigger] bs[k], ss[k])
}

/// A message's tool call is the saved one: a running call with that id, name
/// and arguments, no result and no description yet.
pub open spec fn tool_is(t: Option<ToolCallView>, s: Option<SavedTool>) -> bool {
    match (t, s) {
        (None, None) => true,
        (Some(t), Some(s)) => {
            &&& t.tool_call_id == s.id
            &&& t.tool_name == s.name
            &&& t.status == ToolStatus::Running
            &&& t.args == s.args
            &&& t.result is None
            &&& t.detail_text.len() == 0
        },
        _ => false,
    }
}

/// The object `{"content": text}`.
fn content_object(text: &str) -> (r: Json)
    ensures
        jview(r) == content_view(text@),
{
    let mut ms: Vec<JsonMember> = Vec::new();
    ms.push(JsonMember { key: string_of("content"), value: Json::Str(string_of(text)) });
    proof {
        reveal_strlit("content");
    }
    let r = Json::Object(ms);
    proof {
        lemma_mviews_index(ms@);
    }
    assert(mviews(ms@) =~= seq![("content"@, JsonV::Str(text@))]);
    r
}

/// A copy of a JSON value.
pub fn json_copy(j: &Json) -> (r: Json)
    ensures
        jview(r) == jview(*j),
    decreases j,
{
    match j {
        Json::Null => Json::Null,
        Json::Bool(b) => Json::Bool(*b),
        Json::Number(n, t) => Json::Number(*n, string_of(t.as_str())),
        Json::Str(t) => Json::Str(string_of(t.as_str())),
        Json::Array(a) => {
            let mut out: Vec<Json> = Vec::new();
            let mut i: usize = 0;
            assert(a@.take(0) =~= Seq::<Json>::empty());
            while i < a.len()
                invariant
                    *j == Json::Array(*a),
                    i <= a@.len(),
                    jviews(out@) == jviews(a@.take(i as int)),
                decreases a@.len() - i,
            {
                proof {
                    assert(decreases_to!(*j => (*j)->Array_0));
                    vstd::std_specs::vec::axiom_vec_index_decreases(*a, i as int);
                    assert(decreases_to!(*j => a@[i as int]));
                }
                let x = json_copy(&a[i]);
                let ghost o = out@;
                out.push(x);
                assert(out@.subrange(0, out@.len() - 1) =~= o);
                assert(a@.take(i + 1).subrange(0, i as int) =~= a@.take(i as int));
                i += 1;
            }
            assert(a@.take(a@.len() as int) =~= a@);
            Json::Array(out)
        },
        Json::Object(ms) => {
            let mut out: Vec<JsonMember> = Vec::new();
            let mut i: usize = 0;
            assert(ms@.take(0) =~= Seq::<JsonMember>::empty());
            while i < ms.len()
                invariant
                    *j == Json::Object(*ms),
                    i <= ms@.len(),
                    mviews(out@) == mviews(ms@.take(i as int)),
                decreases ms@.len() - i,
            {
                proof {
                    assert(decreases_to!(*j => (*j)->Object_0));
                    vstd::std_specs::vec::axiom_vec_index_decreases(*ms, i as int);
                    assert(decreases_to!(*j => ms@[i as int]));
                    assert(decreases_to!(*j => ms@[i as int].value));
                }
                let x = json_copy(&ms[i].value);
                let ghost o = out@;
                out.push(JsonMember { key: string_of(ms[i].key.as_str()), value: x });
                assert(out@.subrange(0, out@.len() - 1) =~= o);
                assert(ms@.take(i + 1).subrange(0, i as int) =~= ms@.take(i as int));
                i += 1;
            }
            assert(ms@.take(ms@.len() as int) =~= ms@);
            Json::Object(out)
        },
    }
}

impl Clone for Json {
    /// A copy of the value (see `json_copy`).
    fn clone(&self) -> (r: Json)
        ensures
            jview(r) == jview(*self),
    {
        json_copy(self)
    }
}

impl Clone for JsonMember {
    /// A copy of the member.
    fn clone(&self) -> (r: JsonMember)
        ensures
            r.key@ == self.key@,
            jview(r.value) == jview(self.value),
    {
        JsonMember { key: string_of(self.key.as_str()), value: json_copy(&self.value) }
    }
}

/// The value of an optional member, or the JSON null.
fn carried_value(o: Option<&JsonMember>) -> (r: Json)
    ensures
        match o {
            Some(m) => jview(r) == jview(m.value),
            None => jview(r) == JsonV::Null,
        },
{
    match o {
        Some(m) => json_copy(&m.value),
        None => Json::Null,
    }
}

/// The result recorded from a tool result block.
fn tool_result_value(b: &Json) -> (r: Option<Json>)
    ensures
        match (r, result_carried(*b)) {
            (None, None) => true,
            (Some(v), Some(c)) => jview(v) == c,
            _ => false,
        },
{
    let m = match json_member(b, "result") {
        Some(m) => Some(m),
        None => json_member_or(b, "content", "output"),
    };
    match m {
        Some(m) => match &m.value {
            Json::Str(t) => Some(content_object(t.as_str())),
            _ => Some(json_copy(&m.value)),
        },
        None => None,
    }
}

/// The id of a tool block (see `block_id`).
fn tool_block_id(b: &Json) -> (r: String)
    ensures
        r@ == block_id(*b),
{
    match json_member_or(b, "id", "tool_call_id") {
        Some(m) => match &m.value {
            Json::Str(t) => string_of(t.as_str()),
            _ => String::new(),
        },
        None => String::new(),
    }
}

/// The index of the last tool call block with id `id` among `blocks`.
fn last_call_index(blocks: &Vec<ContentBlock>, id: &str, Ghost(ss): Ghost<Seq<SavedBlock>>) -> (r: Option<usize>)
    requires
        blocks_are(blocks.deep_view(), ss),
    ensures
        match r {
            Some(k) => last_call_with(ss, id@) == Some(k as int) && k < ss.len(),
            None => last_call_with(ss, id@) is None,
        },
{
    let ghost bs = blocks.deep_view();
    let mut j: usize = blocks.len();
    assert(ss.take(j as int) =~= ss);
    while j > 0
        invariant
            bs == blocks.deep_view(),
            blocks_are(bs, ss),
            j <= ss.len(),
            last_call_with(ss, id@) == last_call_with(ss.take(j as int), id@),
        decreases j,
    {
        let ghost t = ss.take(j as int);
        assert(t.drop_last() =~= ss.take(j - 1));
        assert(block_is(bs[j - 1], ss[j - 1]));
        assert(bs[j - 1] == blocks@[j - 1].deep_view());
        match &blocks[j - 1] {
            ContentBlock::ToolCall { id: bid, .. } => {
                if str_eq(bid.as_str(), id) {
                    return Some(j - 1);
                }
            },
            _ => {},
        }
        j = j - 1;
    }
    None
}

/// The content blocks, reasoning and tool call read so far are those of the scan.
pub open spec fn scanned(
    blocks: Seq<BlockView>,
    thinking: Option<String>,
    tool: Option<ToolCallInfo>,
    st: BlocksScan,
) -> bool {
    &&& blocks_are(blocks, st.blocks)
    &&& thinking.deep_view() == st.thinking
    &&& tool_is(tool.deep_view(), st.tool)
}

/// Reads one content block into the scan (see `scan_block`).
#[verifier::spinoff_prover]
#[verifier::rlimit(60)]
fn scan_step(
    blocks: &mut Vec<ContentBlock>,
    thinking: &mut Option<String>,
    tool: &mut Option<ToolCallInfo>,
    b: &Json,
    Ghost(st): Ghost<BlocksScan>,
)
    requires
        scanned(old(blocks).deep_view(), *old(thinking), *old(tool), st),
    ensures
        scanned(final(blocks).deep_view(), *final(thinking), *final(tool), scan_block(st, *b)),
{
    let ghost bs0 = blocks.deep_view();
    let ty = json_text_at(b, "type");
    if str_eq(ty.as_str(), "text") {
        match json_str_at(b, "text") {
            Some(t) => {
                blocks.push(ContentBlock::Text { text: t });
                assert(blocks.deep_view() =~= bs0.push(BlockView::Text(t@)));
            },
            None => {},
        }
    } else if str_eq(ty.as_str(), "thinking") {
        match json_str_at(b, "thinking") {
            Some(t) => {
                let t2 = string_of(t.as_str());
                blocks.push(ContentBlock::Thinking { thinking: t });
                assert(blocks.deep_view() =~= bs0.push(BlockView::Thinking(t2@)));
                *thinking = Some(t2);
            },
            None => {},
        }
    } else if str_eq(ty.as_str(), "tool_use") || str_eq(ty.as_str(), "toolCall") {
        let id = tool_block_id(b);
        let name = json_text_at(b, "name");
        let args = carried_value(json_member_or(b, "input", "arguments"));
        *tool = Some(
            ToolCallInfo {
                tool_call_id: string_of(id.as_str()),
                tool_name: string_of(name.as_str()),
                status: ToolStatus::Running,
                args: json_copy(&args),
                result: None,
                detail_text: String::new(),
            },
        );
        let ghost nb = BlockView::ToolCall { id: id@, name: name@, arguments: jview(args), result: None, is_error: false };
        blocks.push(ContentBlock::ToolCall { id, name, arguments: args, result: None, is_error: false });
        assert(blocks.deep_view() =~= bs0.push(nb));
    } else if str_eq(ty.as_str(), "tool_result") || str_eq(ty.as_str(), "toolCallResult") || str_eq(
        ty.as_str(),
        "toolExecutionEnd",
    ) {
        let id = tool_block_id(b);
        match last_call_index(blocks, id.as_str(), Ghost(st.blocks)) {
            Some(k) => {
                assert(block_is(bs0[k as int], st.blocks[k as int]));
                assert(bs0[k as int] == blocks@[k as int].deep_view());
                let nb = match &blocks[k] {
                    ContentBlock::ToolCall { id: cid, name, arguments, .. } => {
                        let is_error = match json_get(b, "is_error") {
                            Some(Json::Bool(e)) => *e,
                            _ => false,
                        };
                        Some(
                            ContentBlock::ToolCall {
                                id: string_of(cid.as_str()),
                                name: string_of(name.as_str()),
                                arguments: json_copy(arguments),
                                result: tool_result_value(b),
                                is_error,
                            },
                        )
                    },
                    _ => None,
                };
                match nb {
                    Some(nb) => {
                        let ghost v = nb.deep_view();
                        blocks[k] = nb;
                        assert(blocks.deep_view() =~= bs0.update(k as int, v));
                    },
                    None => {},
                }
            },
            None => {},
        }
    }
}

/// Reads the content blocks `items` in order (see `scan_blocks`).
#[verifier::spinoff_prover]
#[verifier::rlimit(40)]
fn scan_content(items: &Vec<Json>) -> (r: (Vec<ContentBlock>, Option<String>, Option<ToolCallInfo>))
    ensures
        scanned(r.0.deep_view(), r.1, r.2, scan_blocks(items@)),
{
    let mut blocks: Vec<ContentBlock> = Vec::new();
    let mut thinking: Option<String> = None;
    let mut tool: Option<ToolCallInfo> = None;
    assert(blocks.deep_view() =~= Seq::<BlockView>::empty());
    let mut i: usize = 0;
    while i < items.len()
        invariant
            i <= items@.len(),
            scanned(blocks.deep_view(), thinking, tool, scan_blocks(items@.take(i as int))),
        decreases items@.len() - i,
    {
        assert(items@.take(i + 1).drop_last() =~= items@.take(i as int));
        scan_step(&mut blocks, &mut thinking, &mut tool, &items[i], Ghost(scan_blocks(items@.take(i as int))));
        i += 1;
    }
    assert(items@.take(items@.len() as int) =~= items@);
    (blocks, thinking, tool)
}

/// A message of a session file.
pub ghost struct SavedMessage {
    pub id: Seq<char>,
    pub role: ChatRole,
    pub text: Seq<char>,
    pub thinking: Option<Seq<char>>,
    pub tool: Option<SavedTool>,
    pub timestamp: u64,
    pub blocks: Seq<SavedBlock>,
}

/// The member of a line that holds the message: `message`, else
/// `turn_context`, else `context`.
pub open spec fn message_member(line: Json) -> Option<JsonMember> {
    match jmember(line, "message"@) {
        Some(m) => Some(m),
        None => member_or(line, "turn_context"@, "context"@),
    }
}

/// A line that only holds session metadata, and no message.
pub open spec fn skipped(line: Json) -> bool {
    jmember(line, "session_meta"@) is Some && message_member(line) is None
}

/// The message a line holds: its message member, or the line itself.
pub open spec fn message_data(line: Json) -> Json {
    match message_member(line) {
        Some(m) => m.value,
        None => line,
    }
}

/// The role named by a message: `assistant`, `system` and `tool` name
/// theirs; anything else, or no role, is the user's.
pub open spec fn saved_role(d: Json) -> ChatRole {
    match str_at(d, "role"@) {
        Some(r) => if r == "assistant"@ {
            ChatRole::Assistant
        } else if r == "system"@ {
            ChatRole::System
        } else if r == "tool"@ {
            ChatRole::Tool
        } else {
            ChatRole::User
        },
        None => ChatRole::User,
    }
}

/// The content blocks of a message whose content is an array.
pub open spec fn content_items(d: Json) -> Seq<Json> {
    match jget(d, "content"@) {
        Some(Json::Array(a)) => a@,
        _ => Seq::empty(),
    }
}

/// A tool call in the `tool_calls` form: `function.name`, the call's `id`,
/// and `function.arguments`, else the call's `input`.
pub open spec fn call_tool(tc: Json) -> SavedTool {
    let func = jget(tc, "function"@);
    SavedTool {
        id: or_empty(str_at(tc, "id"@)),
        name: match func {
            Some(f) => or_empty(str_at(f, "name"@)),
            None => Seq::empty(),
        },
        args: match func {
            Some(f) => match jmember(f, "arguments"@) {
                Some(m) => jview(m.value),
                None => carried_of(jmember(tc, "input"@)),
            },
            None => carried_of(jmember(tc, "input"@)),
        },
    }
}

/// The tool call of a message: the last of its `tool_calls`, else the last
/// tool use among its content blocks.
pub open spec fn saved_tool(d: Json) -> Option<SavedTool> {
    match jget(d, "tool_calls"@) {
        Some(Json::Array(a)) => if a@.len() > 0 {
            Some(call_tool(a@.last()))
        } else {
            scan_blocks(content_items(d)).tool
        },
        _ => scan_blocks(content_items(d)).tool,
    }
}

/// The content blocks of a message: those read from its content array; with
/// none, a non-empty textual content becomes a single text block.
pub open spec fn saved_blocks(d: Json) -> Seq<SavedBlock> {
    let bs = scan_blocks(content_items(d)).blocks;
    let text = or_empty(str_at(d, "content"@));
    if bs.len() == 0 && text.len() > 0 {
        seq![SavedBlock::Text(text)]
    } else {
        bs
    }
}

/// The message of line `line`, the `n`-th message read: its `id` (or
/// `msg_n` without one), role, textual content, reasoning, tool call,
/// `timestamp` (0 without a whole one) and content blocks (none for a tool
/// message).
#[verifier::opaque]
pub open spec fn saved_message(line: Json, n: nat) -> SavedMessage {
    let d = message_data(line);
    let id = or_empty(str_at(d, "id"@));
    let role = saved_role(d);
    SavedMessage {
        id: if id.len() == 0 {
            "msg_"@ + dec_spec(n)
        } else {
            id
        },
        role,
        text: or_empty(str_at(d, "content"@)),
        thinking: scan_blocks(content_items(d)).thinking,
        tool: saved_tool(d),
        timestamp: match jget(d, "timestamp"@) {
            Some(Json::Number(Some(t), _)) => t,
            _ => 0,
        },
        blocks: if role == ChatRole::Tool {
            Seq::empty()
        } else {
            saved_blocks(d)
        },
    }
}

/// The messages of the lines of a session file, in order; metadata lines
/// give none.
pub open spec fn saved_messages(lines: Seq<Json>) -> Seq<SavedMessage>
    decreases lines.len(),
{
    if lines.len() == 0 {
        Seq::empty()
    } else {
        let prev = saved_messages(lines.drop_last());
        if skipped(lines.last()) {
            prev
        } else {
            prev.push(saved_message(lines.last(), prev.len()))
        }
    }
}

/// A chat message is the saved message `s` (of no agent, without metadata).
#[verifier::opaque]
pub open spec fn message_is(m: MessageView, s: SavedMessage) -> bool {
    &&& m.id == s.id
    &&& m.agent_id.len() == 0
    &&& m.role == s.role
    &&& m.text == s.text
    &&& m.thinking == s.thinking
    &&& tool_is(m.tool_call, s.tool)
    &&& m.timestamp == s.timestamp
    &&& m.meta is None
    &&& blocks_are(m.content, s.blocks)
}

/// The role named by a message (see `saved_role`).
fn role_of(d: &Json) -> (r: ChatRole)
    ensures
        r == saved_role(*d),
{
    match json_str_at(d, "role") {
        Some(r) => if str_eq(r.as_str(), "assistant") {
            ChatRole::Assistant
        } else if str_eq(r.as_str(), "system") {
            ChatRole::System
        } else if str_eq(r.as_str(), "tool") {
            ChatRole::Tool
        } else {
            ChatRole::User
        },
        None => ChatRole::User,
    }
}

/// A tool call in the `tool_calls` form (see `call_tool`).
fn call_tool_info(tc: &Json) -> (r: ToolCallInfo)
    ensures
        tool_is(Some(r.deep_view()), Some(call_tool(*tc))),
{
    let func = json_get(tc, "function");
    let name = match func {
        Some(f) => json_text_at(f, "name"),
        None => String::new(),
    };
    let args = match func {
        Some(f) => match json_member(f, "arguments") {
            Some(m) => json_copy(&m.value),
            None => carried_value(json_member(tc, "input")),
        },
        None => carried_value(json_member(tc, "input")),
    };
    ToolCallInfo {
        tool_call_id: json_text_at(tc, "id"),
        tool_name: name,
        status: ToolStatus::Running,
        args,
        result: None,
        detail_text: String::new(),
    }
}

/// The message of a line, the `n`-th one read (see `saved_message`).
fn message_of(line: &Json, n: usize) -> (r: ChatMessage)
    ensures
        message_is(r.deep_view(), saved_message(*line, n as nat)),
{
    let d = match json_member(line, "message") {
        Some(m) => &m.value,
        None => match json_member_or(line, "turn_context", "context") {
            Some(m) => &m.value,
            None => line,
        },
    };
    assert(*d == message_data(*line));
    let role = role_of(d);
    let text = json_text_at(d, "content");
    let (mut blocks, thinking, mut tool) = match json_get(d, "content") {
        Some(Json::Array(items)) => scan_content(items),
        _ => {
            let r: (Vec<ContentBlock>, Option<String>, Option<ToolCallInfo>) = (Vec::new(), None, None);
            assert(r.0.deep_view() =~= Seq::<BlockView>::empty());
            r
        },
    };
    match json_get(d, "tool_calls") {
        Some(Json::Array(tcs)) => {
            if tcs.len() > 0 {
                tool = Some(call_tool_info(&tcs[tcs.len() - 1]));
            }
        },
        _ => {},
    }
    if blocks.len() == 0 && !text_is_empty(text.as_str()) {
        blocks.push(ContentBlock::Text { text: string_of(text.as_str()) });
        assert(blocks.deep_view() =~= seq![BlockView::Text(text@)]);
    }
    let mut id = json_text_at(d, "id");
    if text_is_empty(id.as_str()) {
        id = string_of("msg_");
        push_decimal(&mut id, n as u64);
    }
    let timestamp = match json_get(d, "timestamp") {
        Some(Json::Number(Some(t), _)) => *t,
        _ => 0,
    };
    let is_tool = match role {
        ChatRole::Tool => true,
        _ => false,
    };
    let content = if is_tool {
        let e: Vec<ContentBlock> = Vec::new();
        assert(e.deep_view() =~= Seq::<BlockView>::empty());
        e
    } else {
        blocks
    };
    let r = ChatMessage {
        id,
        agent_id: String::new(),
        role,
        text,
        thinking,
        tool_call: tool,
        timestamp,
        meta: None,
        content,
    };
    proof {
        reveal(message_is);
        reveal(saved_message);
    }
    r
}

/// The messages of the JSON lines of a session file, in order: each line
/// gives one (see `saved_message`), but a line holding only session
/// metadata. Messages without an id are numbered in the order read
/// (`msg_0`, `msg_1`, ...).
pub fn session_messages(lines: &Vec<Json>) -> (r: Vec<ChatMessage>)
    ensures
        r.len() == saved_messages(lines@).len(),
        forall|k: int|
            0 <= k < r.len() ==> message_is(#[trigger] r@[k].deep_view(), saved_messages(lines@)[k]),
{
    let mut out: Vec<ChatMessage> = Vec::new();
    let mut i: usize = 0;
    while i < lines.len()
        invariant
            i <= lines@.len(),
            out.len() == saved_messages(lines@.take(i as int)).len(),
            forall|k: int|
                0 <= k < out.len() ==> message_is(
                    #[trigger] out@[k].deep_view(),
                    saved_messages(lines@.take(i as int))[k],
                ),
        decreases lines@.len() - i,
    {
        assert(lines@.take(i + 1).drop_last() =~= lines@.take(i as int));
        let line = &lines[i];
        let meta = json_member(line, "session_meta");
        let holder = match json_member(line, "message") {
            Some(m) => Some(m),
            None => json_member_or(line, "turn_context", "context"),
        };
        let ghost prev = saved_messages(lines@.take(i as int));
        assert(lines@.take(i + 1).last() == *line);
        if !(meta.is_some() && holder.is_none()) {
            assert(!skipped(*line));
            let m = message_of(line, out.len());
            out.push(m);
            assert(saved_messages(lines@.take(i + 1)) == prev.push(saved_message(*line, prev.len())));
        } else {
            assert(skipped(*line));
            assert(saved_messages(lines@.take(i + 1)) == prev);
        }
        i += 1;
    }
    assert(lines@.take(lines@.len() as int) =~= lines@);
    out
}

/// The pieces, trimmed, that are not blank.
pub open spec fn nonblank(ps: Seq<Seq<char>>) -> Seq<Seq<char>>
    decreases ps.len(),
{
    if ps.len() == 0 {
        Seq::empty()
    } else {
        let prev = nonblank(ps.drop_last());
        let t = trim_spec(ps.last());
        if t.len() == 0 {
            prev
        } else {
            prev.push(t)
        }
    }
}

/// The lines of a session file that hold something: every line, trimmed,
/// that is not blank, in order.
pub open spec fn session_lines_spec(content: Seq<char>) -> Seq<Seq<char>> {
    nonblank(split_spec(content, '\n'))
}

/// The lines of a session file that hold something, trimmed, in order
/// (each is one JSON value).
pub fn session_lines(content: &str) -> (r: Vec<String>)
    ensures
        r.deep_view() == session_lines_spec(content@),
{
    let v = chars_of(content);
    let ps = split_chars(&v, '\n');
    let ghost pv = ps.deep_view();
    let mut out: Vec<String> = Vec::new();
    let mut i: usize = 0;
    while i < ps.len()
        invariant
            pv == ps.deep_view(),
            pv == split_spec(content@, '\n'),
            i <= ps@.len(),
            out.deep_view() == nonblank(pv.take(i as int)),
        decreases ps@.len() - i,
    {
        assert(pv.take(i + 1).drop_last() =~= pv.take(i as int));
        assert(pv[i as int] == ps@[i as int]@);
        let t = trim_chars(&ps[i]);
        if t.len() > 0 {
            let ghost o = out.deep_view();
            let st = string_from_chars(&t);
            out.push(st);
            assert(out.deep_view() =~= o.push(t@));
        }
        i += 1;
    }
    assert(pv.take(pv.len() as int) =~= pv);
    out
}

/// How many first lines of a session file its title is looked for in.
pub const TITLE_LINES: usize = 20;

/// The first lines of a session file, trimmed: where its title is looked for.
pub open spec fn session_head_spec(content: Seq<char>) -> Seq<Seq<char>> {
    let ls = std_lines(content);
    let n = if ls.len() > 20 { 20 } else { ls.len() as int };
    Seq::new(n as nat, |i: int| trim_spec(ls[i]))
}

/// The first 20 lines of a session file, trimmed (see `session_head_spec`).
pub fn session_head(content: &str) -> (r: Vec<String>)
    ensures
        r.deep_view() == session_head_spec(content@),
{
    let ls = text_lines(content);
    let ghost lv = ls.deep_view();
    let n: usize = if ls.len() > TITLE_LINES { TITLE_LINES } else { ls.len() };
    let mut out: Vec<String> = Vec::new();
    let mut i: usize = 0;
    while i < n
        invariant
            lv == ls.deep_view(),
            lv == std_lines(content@),
            n == (if lv.len() > 20 { 20 } else { lv.len() as int }),
            n <= ls@.len(),
            i <= n,
            out.deep_view() =~= Seq::new(i as nat, |k: int| trim_spec(lv[k])),
        decreases n - i,
    {
        assert(lv[i as int] == ls@[i as int]@);
        let t = trim(ls[i].as_str());
        let ghost o = out.deep_view();
        out.push(t);
        assert(out.deep_view() =~= o.push(trim_spec(lv[i as int])));
        i += 1;
    }
    out
}

/// The first message text of a message: the `text` of its first content block.
pub open spec fn first_text(msg: Json) -> Option<Seq<char>> {
    match jget(msg, "content"@) {
        Some(Json::Array(a)) => if a@.len() > 0 {
            str_at(a@[0], "text"@)
        } else {
            None
        },
        _ => None,
    }
}

/// The `session_name` line among a session's first lines, each with the
/// JSON value it holds: the first non-blank line holding a JSON value of
/// type `session_name`, giving its `name` shortened with
/// `session_title_spec` (or no title without a textual name). The search
/// ends, finding none, at a non-blank line without valid JSON.
pub open spec fn name_line_scan(ls: Seq<(Seq<char>, Option<Json>)>) -> Option<Option<Seq<char>>>
    decreases ls.len(),
{
    if ls.len() == 0 {
        None
    } else {
        let (l, pj) = ls[0];
        match pj {
            Some(v) => if l.len() != 0 && or_empty(str_at(v, "type"@)) == "session_name"@ {
                Some(
                    match str_at(v, "name"@) {
                        Some(n) => Some(session_title_spec(n)),
                        None => None,
                    },
                )
            } else {
                name_line_scan(ls.drop_first())
            },
            None => if l.len() != 0 {
                None
            } else {
                name_line_scan(ls.drop_first())
            },
        }
    }
}

/// Looks for the first user message among a session's first lines, each
/// with the JSON value it holds (none where it holds no valid JSON): blank
/// lines are passed over and a line without valid JSON ends the search with
/// no title. A `message` line gives the text of a user message's first
/// content block unless that text is blank; a `message` line without a
/// message, or whose first block has no text, ends the search with no
/// title. Titles are shortened with `session_title_spec`.
pub open spec fn message_scan(ls: Seq<(Seq<char>, Option<Json>)>) -> Option<Seq<char>>
    decreases ls.len(),
{
    if ls.len() == 0 {
        None
    } else {
        let rest = ls.drop_first();
        let (l, pj) = ls[0];
        if l.len() == 0 {
            message_scan(rest)
        } else {
            match pj {
                None => None,
                Some(v) => {
                    let ty = or_empty(str_at(v, "type"@));
                    if ty == "message"@ {
                        match jget(v, "message"@) {
                            None => None,
                            Some(msg) => if str_at(msg, "role"@) != Some("user"@) {
                                message_scan(rest)
                            } else {
                                match first_text(msg) {
                                    None => None,
                                    Some(t) => if trim_spec(t).len() == 0 {
                                        message_scan(rest)
                                    } else {
                                        Some(session_title_spec(t))
                                    },
                                }
                            },
                        }
                    } else {
                        message_scan(rest)
                    }
                },
            }
        }
    }
}

/// A session's title from its first lines: a `session_name` line takes
/// precedence (see `name_line_scan`); without one, the first user message
/// gives it (see `message_scan`).
pub open spec fn name_scan(ls: Seq<(Seq<char>, Option<Json>)>) -> Option<Seq<char>> {
    match name_line_scan(ls) {
        Some(r) => r,
        None => message_scan(ls),
    }
}

/// The view of a line with its JSON value.
pub open spec fn parsed_view(ls: Seq<(String, Option<Json>)>) -> Seq<(Seq<char>, Option<Json>)> {
    Seq::new(ls.len(), |i: int| (ls[i].0@, ls[i].1))
}

/// The text of the first content block of a message (see `first_text`).
fn first_text_of(msg: &Json) -> (r: Option<String>)
    ensures
        match r {
            Some(t) => first_text(*msg) == Some(t@),
            None => first_text(*msg) is None,
        },
{
    match json_get(msg, "content") {
        Some(Json::Array(a)) => if a.len() > 0 {
            json_str_at(&a[0], "text")
        } else {
            None
        },
        _ => None,
    }
}

/// The `session_name` line among the lines (see `name_line_scan`).
fn name_line(lines: &Vec<(String, Option<Json>)>) -> (r: Option<Option<String>>)
    ensures
        match r {
            Some(Some(t)) => name_line_scan(parsed_view(lines@)) == Some(Some(t@)),
            Some(None) => name_line_scan(parsed_view(lines@)) == Some(None::<Seq<char>>),
            None => name_line_scan(parsed_view(lines@)) is None,
        },
{
    let ghost pv = parsed_view(lines@);
    let mut i: usize = 0;
    assert(pv.skip(0) =~= pv);
    while i < lines.len()
        invariant
            pv == parsed_view(lines@),
            i <= lines@.len(),
            name_line_scan(pv) == name_line_scan(pv.skip(i as int)),
        decreases lines@.len() - i,
    {
        let ghost cur = pv.skip(i as int);
        assert(cur[0] == pv[i as int]);
        assert(cur.drop_first() =~= pv.skip(i + 1));
        let l = &lines[i].0;
        match &lines[i].1 {
            Some(v) => {
                let ty = json_text_at(v, "type");
                if !text_is_empty(l.as_str()) && str_eq(ty.as_str(), "session_name") {
                    return match json_str_at(v, "name") {
                        Some(n) => Some(Some(session_title(n.as_str()))),
                        None => Some(None),
                    };
                }
            },
            None => {
                if !text_is_empty(l.as_str()) {
                    return None;
                }
            },
        }
        i += 1;
    }
    None
}

/// The first user message's title among the lines (see `message_scan`).
fn message_title(lines: &Vec<(String, Option<Json>)>) -> (r: Option<String>)
    ensures
        match r {
            Some(t) => message_scan(parsed_view(lines@)) == Some(t@),
            None => message_scan(parsed_view(lines@)) is None,
        },
{
    let ghost pv = parsed_view(lines@);
    let mut i: usize = 0;
    assert(pv.skip(0) =~= pv);
    while i < lines.len()
        invariant
            pv == parsed_view(lines@),
            i <= lines@.len(),
            message_scan(pv) == message_scan(pv.skip(i as int)),
        decreases lines@.len() - i,
    {
        let ghost cur = pv.skip(i as int);
        assert(cur[0] == pv[i as int]);
        assert(cur.drop_first() =~= pv.skip(i + 1));
        let l = &lines[i].0;
        let pj = &lines[i].1;
        if !text_is_empty(l.as_str()) {
            match pj {
                None => {
                    return None;
                },
                Some(v) => {
                    let ty = json_text_at(v, "type");
                    if str_eq(ty.as_str(), "message") {
                        match json_get(v, "message") {
                            None => {
                                return None;
                            },
                            Some(msg) => {
                                let is_user = match json_str_at(msg, "role") {
                                    Some(r) => str_eq(r.as_str(), "user"),
                                    None => false,
                                };
                                if is_user {
                                    match first_text_of(msg) {
                                        None => {
                                            return None;
                                        },
                                        Some(t) => {
                                            let tt = trim(t.as_str());
                                            if !text_is_empty(tt.as_str()) {
                                                return Some(session_title(t.as_str()));
                                            }
                                        },
                                    }
                                }
                            },
                        }
                    }
                },
            }
        }
        i += 1;
    }
    None
}

/// The title of a session from its first lines, each with the JSON value it
/// holds (see `name_scan`): a `session_name` line wins over a user message.
pub fn session_name_from(lines: &Vec<(String, Option<Json>)>) -> (r: Option<String>)
    ensures
        match r {
            Some(t) => name_scan(parsed_view(lines@)) == Some(t@),
            None => name_scan(parsed_view(lines@)) is None,
        },
{
    match name_line(lines) {
        Some(r) => r,
        None => message_title(lines),
    }
}

/// A line that is not one JSON value.
pub open spec fn unparsed() -> spec_fn(Seq<char>) -> bool {
    |l: Seq<char>| !json_parses(l)
}

/// The error of reading lines: the first line that is no JSON value gives
/// `JSON 解析失败: ` followed by serde_json's message.
pub open spec fn load_error(ls: Seq<Seq<char>>, e: Seq<char>) -> bool {
    match first_index(ls, unparsed()) {
        Some(k) => match json_parse(ls[k]) {
            Err(m) => e == "JSON 解析失败: "@ + m,
            Ok(_) => false,
        },
        None => false,
    }
}

/// The messages of lines that all parse: those of the parsed values (the
/// messages depend on the values only through their views, see
/// `lemma_saved_messages_same`).
pub open spec fn load_ok(ls: Seq<Seq<char>>, ms: Seq<MessageView>) -> bool {
    &&& first_index(ls, unparsed()) is None
    &&& exists|vs: Seq<Json>| #[trigger] parsed_as(ls, vs)
    &&& forall|vs: Seq<Json>| #[trigger] parsed_as(ls, vs) ==> messages_of(ms, vs)
}

/// Each line parses into the value at its place.
pub open spec fn parsed_as(ls: Seq<Seq<char>>, vs: Seq<Json>) -> bool {
    &&& vs.len() == ls.len()
    &&& forall|k: int| 0 <= k < ls.len() ==> json_parse(#[trigger] ls[k]) == Ok::<JsonV, Seq<char>>(jview(vs[k]))
}

/// The messages are those of the values (see `session_messages`).
pub open spec fn messages_of(ms: Seq<MessageView>, vs: Seq<Json>) -> bool {
    &&& ms.len() == saved_messages(vs).len()
    &&& forall|k: int| 0 <= k < ms.len() ==> message_is(#[trigger] ms[k], saved_messages(vs)[k])
}

/// The messages of a session file's text: every non-blank line (trimmed) is
/// parsed as JSON. The first line that is no JSON value gives the error
/// `JSON 解析失败: ` and serde_json's message; when all parse, the messages
/// are those of the parsed values (see `session_messages`).
pub fn load_session(content: &str) -> (r: Result<Vec<ChatMessage>, String>)
    ensures
        match r {
            Err(e) => load_error(session_lines_spec(content@), e@),
            Ok(ms) => load_ok(session_lines_spec(content@), ms.deep_view()),
        },
{
    let lines = session_lines(content);
    let ghost ls = session_lines_spec(content@);
    let mut vals: Vec<Json> = Vec::new();
    let mut i: usize = 0;
    while i < lines.len()
        invariant
            ls == session_lines_spec(content@),
            lines.deep_view() == ls,
            i <= ls.len(),
            vals@.len() == i,
            forall|k: int| 0 <= k < i ==> json_parse(#[trigger] ls[k]) == Ok::<JsonV, Seq<char>>(jview(vals@[k])),
        decreases ls.len() - i,
    {
        assert(lines@[i as int]@ == ls[i as int]);
        match parse_json_line(lines[i].as_str()) {
            Ok(v) => {
                vals.push(v);
            },
            Err(e) => {
                proof {
                    assert forall|k: int| 0 <= k < i implies !unparsed()(#[trigger] ls[k]) by {
                        assert(json_parse(ls[k]) is Ok);
                    }
                    lemma_first_index_is(ls, unparsed(), i as int);
                    reveal_strlit("JSON 解析失败: ");
                }
                let mut msg = string_of("JSON 解析失败: ");
                push_str(&mut msg, e.as_str());
                assert(json_parse(ls[i as int]) == Err::<JsonV, Seq<char>>(e@));
                return Err(msg);
            },
        }
        i += 1;
    }
    proof {
        assert forall|k: int| 0 <= k < ls.len() implies !unparsed()(#[trigger] ls[k]) by {
            assert(json_parse(ls[k]) is Ok);
        }
        lemma_first_index_none(ls, unparsed());
    }
    let ms = session_messages(&vals);
    assert(parsed_as(ls, vals@));
    assert(messages_of(ms.deep_view(), vals@)) by {
        assert forall|k: int| 0 <= k < ms.len() implies message_is(#[trigger] ms.deep_view()[k], saved_messages(vals@)[k]) by {
            assert(ms.deep_view()[k] == ms@[k].deep_view());
        }
    }
    assert forall|vs: Seq<Json>| #[trigger] parsed_as(ls, vs) implies messages_of(ms.deep_view(), vs) by {
        lemma_jviews_index(vs);
        lemma_jviews_index(vals@);
        assert(jviews(vs) =~= jviews(vals@)) by {
            assert forall|k: int| 0 <= k < vs.len() implies jviews(vs)[k] == jviews(vals@)[k] by {
                assert(json_parse(ls[k]) == Ok::<JsonV, Seq<char>>(jview(vs[k])));
                assert(json_parse(ls[k]) == Ok::<JsonV, Seq<char>>(jview(vals@[k])));
            }
        }
        lemma_saved_messages_same(vals@, vs);
    }
    Ok(ms)
}

/// The working directory a session file records in its first line.
pub open spec fn cwd_spec(first: Json) -> Option<Seq<char>> {
    str_at(first, "cwd"@)
}

/// The working directory recorded by the first line of a session file.
pub fn session_cwd(first: &Json) -> (r: Option<String>)
    ensures
        match r {
            Some(c) => cwd_spec(*first) == Some(c@),
            None => cwd_spec(*first) is None,
        },
{
    json_str_at(first, "cwd")
}

/// How many last lines of a session file a rename prompt looks at.
pub const RENAME_LINES: usize = 30;

/// The last 30 lines of a session file (all of them when fewer).
pub open spec fn recent_lines_spec(content: Seq<char>) -> Seq<Seq<char>> {
    let ls = std_lines(content);
    if ls.len() > 30 {
        ls.subrange(ls.len() - 30, ls.len() as int)
    } else {
        ls
    }
}

/// The last 30 lines of a session file (see `recent_lines_spec`).
pub fn recent_lines(content: &str) -> (r: Vec<String>)
    ensures
        r.deep_view() == recent_lines_spec(content@),
{
    let ls = text_lines(content);
    let ghost lv = ls.deep_view();
    let n = ls.len();
    let start: usize = if n > RENAME_LINES { n - RENAME_LINES } else { 0 };
    let mut out: Vec<String> = Vec::new();
    let mut i: usize = start;
    while i < n
        invariant
            lv == ls.deep_view(),
            lv == std_lines(content@),
            n == ls@.len(),
            start <= i <= n,
            start == (if n > 30 { n - 30 } else { 0 }),
            out.deep_view() =~= lv.subrange(start as int, i as int),
        decreases n - i,
    {
        assert(lv[i as int] == ls@[i as int]@);
        let ghost o = out.deep_view();
        out.push(string_of(ls[i].as_str()));
        assert(out.deep_view() =~= o.push(lv[i as int]));
        i += 1;
    }
    assert(lv.subrange(0, n as int) =~= lv);
    out
}

/// The text of a user message held by a line: the `text` of the first
/// content block of its `message`, when the message's role is `user`.
#[verifier::opaque]
pub open spec fn user_text_of(v: Json) -> Option<Seq<char>> {
    match jget(v, "message"@) {
        Some(msg) => if str_at(msg, "role"@) == Some("user"@) {
            first_text(msg)
        } else {
            None
        },
        None => None,
    }
}

/// The longest a user text is kept in a rename prompt, in bytes.
pub const RENAME_TEXT_BYTES: usize = 80;

/// A user text for a rename prompt: trimmed; beyond 80 bytes, its longest
/// prefix of at most 80 bytes that ends a character, followed by `…`.
pub open spec fn clip_text(t: Seq<char>) -> Seq<char> {
    let u = trim_spec(t);
    let b = encode_utf8(u);
    if b.len() > 80 {
        decode_utf8(b.subrange(0, boundary_at_most(b, 80) as int)) + seq!['…']
    } else {
        u
    }
}

/// The user texts of the lines holding JSON, clipped, in order.
pub open spec fn user_summaries(lines: Seq<Option<Json>>) -> Seq<Seq<char>>
    decreases lines.len(),
{
    if lines.len() == 0 {
        Seq::empty()
    } else {
        let prev = user_summaries(lines.drop_last());
        match lines.last() {
            Some(v) => match user_text_of(v) {
                Some(t) => prev.push(clip_text(t)),
                None => prev,
            },
            None => prev,
        }
    }
}

/// The prompt asking the agent for three names for a session, given its
/// current name and the user texts of its last lines.
pub open spec fn rename_prompt_spec(lines: Seq<Option<Json>>, current_name: Seq<char>) -> Seq<char> {
    "请为以下对话生成 3 个候选会话名称（简短、描述性的英文名，用连字符连接）。当前名称为「"@ + current_name
        + "」。\n\n对话概要:\n  "@ + join_spec(user_summaries(lines), "\n  "@)
        + "\n\n请只输出 3 个候选名称，每行一个，不要编号或其他文字。"@
}

/// The user text of a line (see `user_text_of`).
fn user_text(v: &Json) -> (r: Option<String>)
    ensures
        match r {
            Some(t) => user_text_of(*v) == Some(t@),
            None => user_text_of(*v) is None,
        },
{
    proof {
        reveal(user_text_of);
    }
    match json_get(v, "message") {
        Some(msg) => {
            let is_user = match json_str_at(msg, "role") {
                Some(r) => str_eq(r.as_str(), "user"),
                None => false,
            };
            if is_user {
                first_text_of(msg)
            } else {
                None
            }
        },
        None => None,
    }
}

/// Clips a user text (see `clip_text`).
fn clip(t: &str) -> (r: String)
    ensures
        r@ == clip_text(t@),
{
    let u = trim(t);
    let us = u.as_str();
    if us.as_bytes().len() > RENAME_TEXT_BYTES {
        let cut = floor_boundary(us, RENAME_TEXT_BYTES);
        let (a, _) = us.split_at(cut);
        proof {
            vstd::utf8::encode_utf8_decode_utf8(a@);
        }
        assert(us@ == u@);
        let mut s = string_of(a);
        push_char(&mut s, '…');
        assert(s@ =~= a@ + seq!['…']);
        s
    } else {
        u
    }
}

/// The prompt asking the agent for three names for a session (see
/// `rename_prompt_spec`), from the JSON values of its last lines (none
/// where a line holds no valid JSON).
pub fn rename_prompt(lines: &Vec<Option<Json>>, current_name: &str) -> (r: String)
    ensures
        r@ == rename_prompt_spec(lines@, current_name@),
{
    let mut summary = String::new();
    let mut count: usize = 0;
    let mut i: usize = 0;
    while i < lines.len()
        invariant
            i <= lines@.len(),
            count == user_summaries(lines@.take(i as int)).len(),
            summary@ == join_spec(user_summaries(lines@.take(i as int)), "\n  "@),
            count <= i,
        decreases lines@.len() - i,
    {
        let ghost prev = user_summaries(lines@.take(i as int));
        assert(lines@.take(i + 1).drop_last() =~= lines@.take(i as int));
        assert(lines@.take(i + 1).last() == lines@[i as int]);
        match &lines[i] {
            Some(v) => match user_text(v) {
                Some(t) => {
                    assert(lines@[i as int] == Some(*v));
                    let c = clip(t.as_str());
                    if count > 0 {
                        push_str(&mut summary, "\n  ");
                    }
                    push_str(&mut summary, c.as_str());
                    proof {
                        if prev.len() == 0 {
                            assert(prev.push(c@) =~= seq![c@]);
                            assert(summary@ =~= Seq::<char>::empty() + c@);
                        } else {
                            assert(prev.push(c@).drop_last() =~= prev);
                        }
                    }
                    count += 1;
                },
                None => {},
            },
            None => {},
        }
        i += 1;
    }
    assert(lines@.take(lines@.len() as int) =~= lines@);
    let mut r = string_of("请为以下对话生成 3 个候选会话名称（简短、描述性的英文名，用连字符连接）。当前名称为「");
    push_str(&mut r, current_name);
    push_str(&mut r, "」。\n\n对话概要:\n  ");
    push_str(&mut r, summary.as_str());
    push_str(&mut r, "\n\n请只输出 3 个候选名称，每行一个，不要编号或其他文字。");
    r
}


/// Each optional value is the parse of the line at its place: a value
/// where the line is one JSON value, none where it is not.
pub open spec fn parsed_opts(ls: Seq<Seq<char>>, ps: Seq<Option<Json>>) -> bool {
    &&& ps.len() == ls.len()
    &&& forall|k: int|
        0 <= k < ls.len() ==> match #[trigger] ps[k] {
            Some(j) => json_parse(ls[k]) == Ok::<JsonV, Seq<char>>(jview(j)),
            None => json_parse(ls[k]) is Err,
        }
}

/// Each line is paired with the parse of it (see `parsed_opts`).
pub open spec fn parsed_pairs(ls: Seq<Seq<char>>, ps: Seq<(Seq<char>, Option<Json>)>) -> bool {
    &&& ps.len() == ls.len()
    &&& forall|k: int| 0 <= k < ls.len() ==> (#[trigger] ps[k]).0 == ls[k]
    &&& parsed_opts(ls, Seq::new(ps.len(), |k: int| ps[k].1))
}

/// The lines parsed one by one (see `parsed_opts`).
fn parse_lines(ls: &Vec<String>) -> (r: Vec<Option<Json>>)
    ensures
        parsed_opts(ls.deep_view(), r@),
{
    let ghost lv = ls.deep_view();
    let mut out: Vec<Option<Json>> = Vec::new();
    let mut i: usize = 0;
    while i < ls.len()
        invariant
            lv == ls.deep_view(),
            i <= lv.len(),
            out@.len() == i,
            forall|k: int|
                0 <= k < i ==> match #[trigger] out@[k] {
                    Some(j) => json_parse(lv[k]) == Ok::<JsonV, Seq<char>>(jview(j)),
                    None => json_parse(lv[k]) is Err,
                },
        decreases lv.len() - i,
    {
        assert(lv[i as int] == ls@[i as int]@);
        let p = match parse_json_line(ls[i].as_str()) {
            Ok(j) => Some(j),
            Err(_) => None,
        };
        out.push(p);
        i += 1;
    }
    out
}

/// The working directory a session file's first line records, when that
/// line is one JSON value with a textual `cwd`.
pub open spec fn content_cwd(content: Seq<char>) -> Option<Seq<char>> {
    let ls = std_lines(content);
    if ls.len() == 0 {
        None
    } else {
        match json_parse(ls[0]) {
            Ok(v) => vstr_at(v, "cwd"@),
            Err(_) => None,
        }
    }
}

/// The working directory recorded by a session file's first line (see
/// `content_cwd`).
pub fn extract_workspace_cwd(content: &str) -> (r: Option<String>)
    ensures
        r.deep_view() == content_cwd(content@),
{
    let ls = text_lines(content);
    if ls.len() == 0 {
        return None;
    }
    assert(ls.deep_view()[0] == ls@[0]@);
    match parse_json_line(ls[0].as_str()) {
        Ok(j) => json_vstr_at(&j, "cwd"),
        Err(_) => None,
    }
}

/// The title of a session from its file's text: its first 20 lines,
/// trimmed, each with the JSON value it holds (see `name_scan`).
pub fn extract_session_name(content: &str) -> (r: Option<String>)
    ensures
        exists|ps: Seq<(Seq<char>, Option<Json>)>| #[trigger] parsed_pairs(session_head_spec(content@), ps),
        forall|ps: Seq<(Seq<char>, Option<Json>)>|
            #[trigger] parsed_pairs(session_head_spec(content@), ps) ==> r.deep_view() == name_scan(ps),
{
    let hs = session_head(content);
    let ghost hv = hs.deep_view();
    let ps = parse_lines(&hs);
    let mut pairs: Vec<(String, Option<Json>)> = Vec::new();
    let mut i: usize = 0;
    let mut rest = ps;
    let ghost pv = rest@;
    while i < hs.len()
        invariant
            hv == hs.deep_view(),
            parsed_opts(hv, pv),
            i <= hv.len(),
            rest@ == pv.skip(i as int),
            parsed_view(pairs@) =~= Seq::new(i as nat, |k: int| (hv[k], pv[k])),
        decreases hv.len() - i,
    {
        assert(hv[i as int] == hs@[i as int]@);
        let p = rest.remove(0);
        assert(rest@ =~= pv.skip(i + 1));
        let ghost before = parsed_view(pairs@);
        pairs.push((string_of(hs[i].as_str()), p));
        assert(parsed_view(pairs@) =~= before.push((hv[i as int], pv[i as int])));
        i += 1;
    }
    let r = session_name_from(&pairs);
    proof {
        let ps2 = parsed_view(pairs@);
        assert(Seq::new(ps2.len(), |k: int| ps2[k].1) =~= pv);
        assert(parsed_pairs(hv, ps2));
        assert forall|ps: Seq<(Seq<char>, Option<Json>)>| #[trigger] parsed_pairs(hv, ps) implies r.deep_view() == name_scan(ps) by {
            let o1 = Seq::new(ps2.len(), |k: int| ps2[k].1);
            let o2 = Seq::new(ps.len(), |k: int| ps[k].1);
            lemma_parsed_opts_same(hv, o1, o2);
            assert(pairs_same(ps2, ps)) by {
                assert forall|k: int| 0 <= k < ps2.len() implies (#[trigger] ps2[k]).0 == ps[k].0 && opt_same(ps2[k].1, ps[k].1) by {
                    assert(opt_same(o1[k], o2[k]));
                }
            }
            lemma_name_scan_same(ps2, ps);
        }
    }
    r
}

/// The prompt asking the agent for three names for a session, from its
/// file's text: its last 30 lines, each with the JSON value it holds (see
/// `rename_prompt_spec`).
pub fn build_ai_rename_prompt(content: &str, current_name: &str) -> (r: String)
    ensures
        exists|ps: Seq<Option<Json>>| #[trigger] parsed_opts(recent_lines_spec(content@), ps),
        forall|ps: Seq<Option<Json>>|
            #[trigger] parsed_opts(recent_lines_spec(content@), ps) ==> r@ == rename_prompt_spec(ps, current_name@),
{
    let ls = recent_lines(content);
    let ps = parse_lines(&ls);
    let r = rename_prompt(&ps, current_name);
    let ghost lv = recent_lines_spec(content@);
    assert(parsed_opts(lv, ps@));
    assert forall|qs: Seq<Option<Json>>| #[trigger] parsed_opts(lv, qs) implies r@ == rename_prompt_spec(qs, current_name@) by {
        lemma_parsed_opts_same(lv, ps@, qs);
        lemma_user_summaries_same(ps@, qs);
    }
    r
}


/// Two optional JSON values with the same view.
pub open spec fn opt_same(a: Option<Json>, b: Option<Json>) -> bool {
    match (a, b) {
        (None, None) => true,
        (Some(x), Some(y)) => jview(x) == jview(y),
        _ => false,
    }
}

/// Two optional members with the same key and the same view of their value.
pub open spec fn mem_same(a: Option<JsonMember>, b: Option<JsonMember>) -> bool {
    match (a, b) {
        (None, None) => true,
        (Some(x), Some(y)) => x.key@ == y.key@ && jview(x.value) == jview(y.value),
        _ => false,
    }
}

/// The view of a list of values has one entry per value.
proof fn lemma_jviews_index(s: Seq<Json>)
    ensures
        jviews(s).len() == s.len(),
        forall|i: int| 0 <= i < s.len() ==> #[trigger] jviews(s)[i] == jview(s[i]),
    decreases s.len(),
{
    if s.len() > 0 {
        let t = s.subrange(0, s.len() - 1);
        lemma_jviews_index(t);
        assert forall|i: int| 0 <= i < s.len() implies #[trigger] jviews(s)[i] == jview(s[i]) by {
            if i < s.len() - 1 {
                assert(t[i] == s[i]);
            }
        }
    }
}

/// Lists with the same views have the same length and, place by place,
/// values with the same view.
proof fn lemma_jviews_same(a: Seq<Json>, b: Seq<Json>)
    requires
        jviews(a) == jviews(b),
    ensures
        a.len() == b.len(),
        forall|i: int| 0 <= i < a.len() ==> jview(#[trigger] a[i]) == jview(b[i]),
{
    lemma_jviews_index(a);
    lemma_jviews_index(b);
    assert forall|i: int| 0 <= i < a.len() implies jview(#[trigger] a[i]) == jview(b[i]) by {
        assert(jviews(a)[i] == jview(a[i]));
        assert(jviews(b)[i] == jview(b[i]));
    }
}

/// A value whose view is a string, a boolean or a number with an integer is
/// that string, boolean or number.
proof fn lemma_jview_scalar(x: Json, y: Json)
    requires
        jview(x) == jview(y),
    ensures
        x is Str ==> y is Str && x->Str_0@ == y->Str_0@,
        x is Bool ==> y == x,
        x is Number ==> y is Number && x->Number_0 == y->Number_0,
        x is Null ==> y is Null,
        x is Array ==> y is Array && jviews(x->Array_0@) == jviews(y->Array_0@),
        x is Object ==> y is Object && mviews(x->Object_0@) == mviews(y->Object_0@),
{
}

/// The first index of pointwise equivalent predicates on equally long
/// sequences is the same.
proof fn lemma_first_index_same<A, B>(s: Seq<A>, p: spec_fn(A) -> bool, t: Seq<B>, q: spec_fn(B) -> bool)
    requires
        s.len() == t.len(),
        forall|i: int| 0 <= i < s.len() ==> p(#[trigger] s[i]) == q(t[i]),
    ensures
        first_index(s, p) == first_index(t, q),
{
    lemma_first_index_props(s, p);
    lemma_first_index_props(t, q);
    match first_index(s, p) {
        Some(i) => {
            assert(q(t[i]));
            assert forall|j: int| 0 <= j < i implies !q(#[trigger] t[j]) by {
                assert(!p(s[j]));
            }
            lemma_first_index_is(t, q, i);
        },
        None => {
            assert forall|j: int| 0 <= j < t.len() implies !q(#[trigger] t[j]) by {
                assert(!p(s[j]));
            }
            lemma_first_index_none(t, q);
        },
    }
}

/// Values with the same view have the same member `k`.
proof fn lemma_jmember_same(a: Json, b: Json, k: Seq<char>)
    requires
        jview(a) == jview(b),
    ensures
        mem_same(jmember(a, k), jmember(b, k)),
{
    lemma_jview_scalar(a, b);
    if let Json::Object(ms) = a {
        let ns = b->Object_0;
        lemma_mviews_index(ms@);
        lemma_mviews_index(ns@);
        assert forall|i: int| 0 <= i < ms@.len() implies key_named(k)(#[trigger] ms@[i]) == key_named(k)(ns@[i]) by {
            assert(mviews(ms@)[i] == mviews(ns@)[i]);
        }
        lemma_first_index_same(ms@, key_named(k), ns@, key_named(k));
        if let Some(i) = first_index(ms@, key_named(k)) {
            lemma_first_index_props(ms@, key_named(k));
            assert(mviews(ms@)[i] == mviews(ns@)[i]);
        }
    }
}

/// Values with the same view give values with the same view under member `k`.
proof fn lemma_jget_same(a: Json, b: Json, k: Seq<char>)
    requires
        jview(a) == jview(b),
    ensures
        opt_same(jget(a, k), jget(b, k)),
        str_at(a, k) == str_at(b, k),
{
    lemma_jmember_same(a, b, k);
    if let Some(x) = jget(a, k) {
        lemma_jview_scalar(x, jget(b, k)->0);
    }
}

/// The same, for a member picked among two keys.
proof fn lemma_member_or_same(a: Json, b: Json, k1: Seq<char>, k2: Seq<char>)
    requires
        jview(a) == jview(b),
    ensures
        mem_same(member_or(a, k1, k2), member_or(b, k1, k2)),
{
    lemma_jmember_same(a, b, k1);
    lemma_jmember_same(a, b, k2);
}

/// Blocks with the same view have the same id.
proof fn lemma_block_id_same(a: Json, b: Json)
    requires
        jview(a) == jview(b),
    ensures
        block_id(a) == block_id(b),
{
    lemma_member_or_same(a, b, "id"@, "tool_call_id"@);
    if let Some(m) = member_or(a, "id"@, "tool_call_id"@) {
        lemma_jview_scalar(m.value, member_or(b, "id"@, "tool_call_id"@)->0.value);
    }
}

/// Blocks with the same view record the same result and error mark.
proof fn lemma_result_same(a: Json, b: Json)
    requires
        jview(a) == jview(b),
    ensures
        result_carried(a) == result_carried(b),
        marked_error(a) == marked_error(b),
{
    lemma_jmember_same(a, b, "result"@);
    lemma_member_or_same(a, b, "content"@, "output"@);
    assert(mem_same(result_member(a), result_member(b)));
    if let Some(m) = result_member(a) {
        lemma_jview_scalar(m.value, result_member(b)->0.value);
    }
    lemma_jget_same(a, b, "is_error"@);
    if let Some(x) = jget(a, "is_error"@) {
        lemma_jview_scalar(x, jget(b, "is_error"@)->0);
        lemma_jview_scalar(jget(b, "is_error"@)->0, x);
    }
}

/// Content blocks with the same view are read alike.
proof fn lemma_scan_block_same(st: BlocksScan, a: Json, b: Json)
    requires
        jview(a) == jview(b),
    ensures
        scan_block(st, a) == scan_block(st, b),
{
    lemma_jget_same(a, b, "type"@);
    lemma_jget_same(a, b, "text"@);
    lemma_jget_same(a, b, "thinking"@);
    lemma_jget_same(a, b, "name"@);
    lemma_member_or_same(a, b, "input"@, "arguments"@);
    lemma_block_id_same(a, b);
    lemma_result_same(a, b);
}

/// Lists of content blocks with the same views are read alike.
proof fn lemma_scan_blocks_same(a: Seq<Json>, b: Seq<Json>)
    requires
        jviews(a) == jviews(b),
    ensures
        scan_blocks(a) == scan_blocks(b),
    decreases a.len(),
{
    lemma_jviews_same(a, b);
    if a.len() > 0 {
        let a2 = a.drop_last();
        let b2 = b.drop_last();
        lemma_jviews_index(a2);
        lemma_jviews_index(b2);
        assert(jviews(a2) =~= jviews(b2)) by {
            assert forall|i: int| 0 <= i < a2.len() implies jviews(a2)[i] == jviews(b2)[i] by {
                assert(jview(a[i]) == jview(b[i]));
            }
        }
        lemma_scan_blocks_same(a2, b2);
        lemma_scan_block_same(scan_blocks(a2), a.last(), b.last());
    }
}

/// Messages with the same view have content blocks with the same views.
proof fn lemma_content_items_same(a: Json, b: Json)
    requires
        jview(a) == jview(b),
    ensures
        jviews(content_items(a)) == jviews(content_items(b)),
{
    lemma_jget_same(a, b, "content"@);
    if let Some(x) = jget(a, "content"@) {
        lemma_jview_scalar(x, jget(b, "content"@)->0);
        lemma_jview_scalar(jget(b, "content"@)->0, x);
    }
}

/// Tool calls with the same view are read alike.
proof fn lemma_call_tool_same(a: Json, b: Json)
    requires
        jview(a) == jview(b),
    ensures
        call_tool(a) == call_tool(b),
{
    lemma_jget_same(a, b, "id"@);
    lemma_jget_same(a, b, "function"@);
    lemma_jmember_same(a, b, "input"@);
    if let Some(f) = jget(a, "function"@) {
        let g = jget(b, "function"@)->0;
        lemma_jget_same(f, g, "name"@);
        lemma_jmember_same(f, g, "arguments"@);
    }
}

/// Messages with the same view are read alike.
proof fn lemma_saved_message_same(a: Json, b: Json, n: nat)
    requires
        jview(a) == jview(b),
    ensures
        saved_message(a, n) == saved_message(b, n),
        skipped(a) == skipped(b),
{
    reveal(saved_message);
    lemma_jmember_same(a, b, "session_meta"@);
    lemma_jmember_same(a, b, "message"@);
    lemma_member_or_same(a, b, "turn_context"@, "context"@);
    assert(mem_same(message_member(a), message_member(b)));
    let da = message_data(a);
    let db = message_data(b);
    assert(jview(da) == jview(db));
    lemma_jget_same(da, db, "id"@);
    lemma_jget_same(da, db, "role"@);
    lemma_jget_same(da, db, "content"@);
    lemma_jget_same(da, db, "timestamp"@);
    if let Some(x) = jget(da, "timestamp"@) {
        lemma_jview_scalar(x, jget(db, "timestamp"@)->0);
        lemma_jview_scalar(jget(db, "timestamp"@)->0, x);
    }
    lemma_content_items_same(da, db);
    lemma_scan_blocks_same(content_items(da), content_items(db));
    lemma_jget_same(da, db, "tool_calls"@);
    if let Some(x) = jget(da, "tool_calls"@) {
        let y = jget(db, "tool_calls"@)->0;
        lemma_jview_scalar(x, y);
        lemma_jview_scalar(y, x);
        if let Json::Array(xa) = x {
            let ya = y->Array_0;
            lemma_jviews_same(xa@, ya@);
            if xa@.len() > 0 {
                lemma_call_tool_same(xa@.last(), ya@.last());
            }
        }
    }
    assert(saved_tool(da) == saved_tool(db));
    assert(saved_blocks(da) == saved_blocks(db));
}

/// Lines with the same views give the same messages: the messages depend on
/// the JSON values only through their views.
pub proof fn lemma_saved_messages_same(a: Seq<Json>, b: Seq<Json>)
    requires
        jviews(a) == jviews(b),
    ensures
        saved_messages(a) == saved_messages(b),
    decreases a.len(),
{
    lemma_jviews_same(a, b);
    if a.len() > 0 {
        let a2 = a.drop_last();
        let b2 = b.drop_last();
        lemma_jviews_index(a2);
        lemma_jviews_index(b2);
        assert(jviews(a2) =~= jviews(b2)) by {
            assert forall|i: int| 0 <= i < a2.len() implies jviews(a2)[i] == jviews(b2)[i] by {
                assert(jview(a[i]) == jview(b[i]));
            }
        }
        lemma_saved_messages_same(a2, b2);
        lemma_saved_message_same(a.last(), b.last(), saved_messages(a2).len());
    }
}

/// Messages with the same view have the same first text.
proof fn lemma_first_text_same(a: Json, b: Json)
    requires
        jview(a) == jview(b),
    ensures
        first_text(a) == first_text(b),
{
    lemma_jget_same(a, b, "content"@);
    if let Some(x) = jget(a, "content"@) {
        let y = jget(b, "content"@)->0;
        lemma_jview_scalar(x, y);
        lemma_jview_scalar(y, x);
        if let Json::Array(xa) = x {
            let ya = y->Array_0;
            lemma_jviews_same(xa@, ya@);
            if xa@.len() > 0 {
                lemma_jget_same(xa@[0], ya@[0], "text"@);
            }
        }
    }
}

/// Lines with the same view hold the same user text.
proof fn lemma_user_text_same(a: Json, b: Json)
    requires
        jview(a) == jview(b),
    ensures
        user_text_of(a) == user_text_of(b),
{
    reveal(user_text_of);
    lemma_jget_same(a, b, "message"@);
    if let Some(m) = jget(a, "message"@) {
        let n = jget(b, "message"@)->0;
        lemma_jget_same(m, n, "role"@);
        lemma_first_text_same(m, n);
    }
}

/// Lines paired with values of the same views, place by place.
pub open spec fn pairs_same(p: Seq<(Seq<char>, Option<Json>)>, q: Seq<(Seq<char>, Option<Json>)>) -> bool {
    &&& p.len() == q.len()
    &&& forall|k: int| 0 <= k < p.len() ==> (#[trigger] p[k]).0 == q[k].0 && opt_same(p[k].1, q[k].1)
}

/// Lines with values of the same views give the same title.
proof fn lemma_name_scan_same(p: Seq<(Seq<char>, Option<Json>)>, q: Seq<(Seq<char>, Option<Json>)>)
    requires
        pairs_same(p, q),
    ensures
        name_line_scan(p) == name_line_scan(q),
        message_scan(p) == message_scan(q),
    decreases p.len(),
{
    if p.len() > 0 {
        assert(p[0].0 == q[0].0 && opt_same(p[0].1, q[0].1));
        assert(pairs_same(p.drop_first(), q.drop_first())) by {
            assert forall|k: int| 0 <= k < p.drop_first().len() implies (#[trigger] p.drop_first()[k]).0 == q.drop_first()[k].0
                && opt_same(p.drop_first()[k].1, q.drop_first()[k].1) by {
                assert(p.drop_first()[k] == p[k + 1]);
                assert(q.drop_first()[k] == q[k + 1]);
            }
        }
        lemma_name_scan_same(p.drop_first(), q.drop_first());
        if let Some(v) = p[0].1 {
            let w = q[0].1->0;
            lemma_jget_same(v, w, "type"@);
            lemma_jget_same(v, w, "name"@);
            lemma_jget_same(v, w, "message"@);
            if let Some(m) = jget(v, "message"@) {
                let n = jget(w, "message"@)->0;
                lemma_jget_same(m, n, "role"@);
                lemma_first_text_same(m, n);
            }
        }
    }
}

/// Lines with values of the same views give the same user summaries.
proof fn lemma_user_summaries_same(p: Seq<Option<Json>>, q: Seq<Option<Json>>)
    requires
        p.len() == q.len(),
        forall|k: int| 0 <= k < p.len() ==> opt_same(#[trigger] p[k], q[k]),
    ensures
        user_summaries(p) == user_summaries(q),
    decreases p.len(),
{
    if p.len() > 0 {
        assert forall|k: int| 0 <= k < p.drop_last().len() implies opt_same(#[trigger] p.drop_last()[k], q.drop_last()[k]) by {
            assert(opt_same(p[k], q[k]));
        }
        lemma_user_summaries_same(p.drop_last(), q.drop_last());
        assert(opt_same(p[p.len() - 1], q[q.len() - 1]));
        if let Some(v) = p.last() {
            lemma_user_text_same(v, q.last()->0);
        }
    }
}

/// Two parses of the same lines hold values of the same views.
proof fn lemma_parsed_opts_same(ls: Seq<Seq<char>>, p: Seq<Option<Json>>, q: Seq<Option<Json>>)
    requires
        parsed_opts(ls, p),
        parsed_opts(ls, q),
    ensures
        forall|k: int| 0 <= k < p.len() ==> opt_same(#[trigger] p[k], q[k]),
{
    assert forall|k: int| 0 <= k < p.len() implies opt_same(#[trigger] p[k], q[k]) by {
        assert(match p[k] {
            Some(j) => json_parse(ls[k]) == Ok::<JsonV, Seq<char>>(jview(j)),
            None => json_parse(ls[k]) is Err,
        });
        assert(match q[k] {
            Some(j) => json_parse(ls[k]) == Ok::<JsonV, Seq<char>>(jview(j)),
            None => json_parse(ls[k]) is Err,
        });
    }
}
} // verus!
