//! The structured message model of a conversation with an agent, and the
//! streaming updates that build assistant messages block by block.

use vstd::prelude::*;
use crate::strs::{push_str, push_char, string_of, chars_of};
use crate::history::{Json, JsonV, jview};

verus! {

/// The role of a chat message.
#[derive(Debug, Clone, Copy, PartialEq, Eq)]
pub enum ChatRole {
    /// Sent by the user.
    User,
    /// A reply of the agent.
    Assistant,
    /// A tool execution.
    Tool,
    /// A status message.
    System,
    /// An error message.
    Error,
}

/// The state of a tool execution.
#[derive(Debug, Clone, Copy, PartialEq, Eq)]
pub enum ToolStatus {
    Running,
    Done,
    Error,
}

/// A tool call.
#[derive(Debug, Clone)]
pub struct ToolCallInfo {
    /// The tool (read, bash, edit, write, ...).
    pub tool_name: String,
    pub tool_call_id: String,
    pub status: ToolStatus,
    /// The call's arguments.
    pub args: Json,
    /// The result, once done or failed.
    pub result: Option<Json>,
    /// A formatted description for display.
    pub detail_text: String,
}

/// A block of the content of an assistant message.
#[derive(Debug, Clone)]
pub enum ContentBlock {
    Text { text: String },
    Thinking { thinking: String },
    ToolCall {
        id: String,
        name: String,
        arguments: Json,
        result: Option<Json>,
        is_error: bool,
    },
    /// An image (kept, not displayed in the terminal).
    Image { data: String, mime_type: String },
}

/// A message of a conversation: the unit the message list shows.
#[derive(Debug, Clone)]
pub struct ChatMessage {
    pub id: String,
    /// The agent the message belongs to.
    pub agent_id: String,
    pub role: ChatRole,
    pub text: String,
    /// The model's reasoning (assistant messages).
    pub thinking: Option<String>,
    /// The tool call (tool messages).
    pub tool_call: Option<ToolCallInfo>,
    /// Milliseconds since the Unix epoch.
    pub timestamp: u64,
    /// Extra metadata: (key, value) pairs.
    pub meta: Option<Vec<(String, Json)>>,
    /// The content blocks (assistant messages).
    pub content: Vec<ContentBlock>,
}

/// The common fields of a message carried by an agent event.
#[derive(Debug, Clone)]
pub struct MessageData {
    /// user / assistant / toolResult
    pub role: String,
    pub content: Vec<ContentBlock>,
    pub stop_reason: Option<String>,
    pub error_message: Option<String>,
}

/// The kind of an interactive block of the message list.
#[derive(Debug, Clone, Copy, PartialEq, Eq)]
pub enum BlockKind {
    Thinking,
    ToolCall,
}

/// An interactive block of the message list: content block `block_index` of
/// message `msg_index`.
#[derive(Debug, Clone)]
pub struct BlockRef {
    pub msg_index: usize,
    pub msg_id: String,
    pub block_index: usize,
    pub kind: BlockKind,
}

/// Whether a block is folded.
#[derive(Debug, Clone, Copy, PartialEq, Eq)]
pub enum BlockExpanded {
    Collapsed,
    Expanded,
}

/// A line of a unified diff.
#[derive(Debug, Clone)]
pub struct DiffLine {
    /// '-', '+' or ' '.
    pub kind: char,
    pub old_line: Option<usize>,
    pub new_line: Option<usize>,
    pub text: String,
}

/// The detail view a block was entered into.
#[derive(Debug, Clone)]
pub enum EnteredView {
    Diff { path: String, diff_lines: Vec<DiffLine>, scroll: usize },
    FullOutput { title: String, content: String, scroll: usize },
    Subagent { agent_id: String, messages: Vec<ChatMessage> },
}

/// An entry of the input completion popup.
#[derive(Debug, Clone)]
pub struct CompletionItem {
    /// The text shown.
    pub label: String,
    /// The text that replaces the input when the entry is chosen.
    pub value: String,
    /// The icon shown before the label.
    pub prefix: String,
}

/// The input completion popup.
#[derive(Debug, Clone)]
pub struct CompletionPopup {
    pub items: Vec<CompletionItem>,
    /// The entry under the cursor.
    pub cursor: usize,
    /// The character that opened the popup (`/` or `@`).
    pub trigger: char,
    /// The text typed since.
    pub filter: String,
}

/// The mathematical value of a `ContentBlock`.
pub ghost enum BlockView {
    Text(Seq<char>),
    Thinking(Seq<char>),
    ToolCall {
        id: Seq<char>,
        name: Seq<char>,
        arguments: JsonV,
        result: Option<JsonV>,
        is_error: bool,
    },
    Image { data: Seq<char>, mime_type: Seq<char> },
}

impl DeepView for ContentBlock {
    type V = BlockView;

    open spec fn deep_view(&self) -> BlockView {
        match self {
            ContentBlock::Text { text } => BlockView::Text(text@),
            ContentBlock::Thinking { thinking } => BlockView::Thinking(thinking@),
            ContentBlock::ToolCall { id, name, arguments, result, is_error } => BlockView::ToolCall {
                id: id@,
                name: name@,
                arguments: jview(*arguments),
                result: opt_jview(*result),
                is_error: *is_error,
            },
            ContentBlock::Image { data, mime_type } => BlockView::Image {
                data: data@,
                mime_type: mime_type@,
            },
        }
    }
}

/// The mathematical value of a `ToolCallInfo`.
pub ghost struct ToolCallView {
    pub tool_name: Seq<char>,
    pub tool_call_id: Seq<char>,
    pub status: ToolStatus,
    pub args: JsonV,
    pub result: Option<JsonV>,
    pub detail_text: Seq<char>,
}

impl DeepView for ToolCallInfo {
    type V = ToolCallView;

    open spec fn deep_view(&self) -> ToolCallView {
        ToolCallView {
            tool_name: self.tool_name@,
            tool_call_id: self.tool_call_id@,
            status: self.status,
            args: jview(self.args),
            result: opt_jview(self.result),
            detail_text: self.detail_text@,
        }
    }
}

/// The mathematical value of a `ChatMessage`.
pub ghost struct MessageView {
    pub id: Seq<char>,
    pub agent_id: Seq<char>,
    pub role: ChatRole,
    pub text: Seq<char>,
    pub thinking: Option<Seq<char>>,
    pub tool_call: Option<ToolCallView>,
    pub timestamp: u64,
    pub meta: Option<Seq<(Seq<char>, JsonV)>>,
    pub content: Seq<BlockView>,
}

impl DeepView for ChatMessage {
    type V = MessageView;

    open spec fn deep_view(&self) -> MessageView {
        MessageView {
            id: self.id@,
            agent_id: self.agent_id@,
            role: self.role,
            text: self.text@,
            thinking: self.thinking.deep_view(),
            tool_call: self.tool_call.deep_view(),
            timestamp: self.timestamp,
            meta: meta_view(self.meta),
            content: self.content.deep_view(),
        }
    }
}

/// The current time in milliseconds since the Unix epoch (0 when the clock
/// is before the epoch), from the nanosecond clock reading.
fn now_millis() -> (r: u64)
    ensures
        exists|t: u128| r == #[trigger] millis_of(t),
{
    let t = crate::utils::unix_nanos();
    let r = (t / 1_000_000) as u64;
    assert(r == millis_of(t));
    r
}

/// Whole milliseconds of a nanosecond reading, truncated to 64 bits.
pub open spec fn millis_of(nanos: u128) -> u64 {
    (nanos / 1_000_000) as u64
}

/// A fresh message id: `uuid::Uuid::new_v4()` rendered as text. Random; only
/// its length is claimed (the hyphenated form has 36 characters).
#[verifier::external_body]
fn new_message_id() -> (r: String)
    ensures
        r@.len() == 36,
{
    uuid::Uuid::new_v4().to_string()
}

/// The mathematical value of an optional JSON value.
pub open spec fn opt_jview(o: Option<Json>) -> Option<JsonV> {
    match o {
        Some(j) => Some(jview(j)),
        None => None,
    }
}

/// The mathematical value of a message's metadata.
pub open spec fn meta_view(o: Option<Vec<(String, Json)>>) -> Option<Seq<(Seq<char>, JsonV)>> {
    match o {
        Some(v) => Some(Seq::new(v@.len(), |i: int| (v@[i].0@, jview(v@[i].1)))),
        None => None,
    }
}

/// A message of the given role and text has these fields: no thinking, no
/// tool call, no metadata, no content blocks (its id and time are fresh).
pub open spec fn plain_message(m: MessageView, role: ChatRole, agent_id: Seq<char>, text: Seq<char>) -> bool {
    &&& m.agent_id == agent_id
    &&& m.role == role
    &&& m.text == text
    &&& m.thinking is None
    &&& m.tool_call is None
    &&& m.meta is None
    &&& m.content.len() == 0
    &&& m.id.len() == 36
}

/// The icon shown before a tool's name for its status.
pub open spec fn tool_icon(s: ToolStatus) -> Seq<char> {
    match s {
        ToolStatus::Error => seq!['✗'],
        ToolStatus::Running => seq!['▶'],
        ToolStatus::Done => seq!['✓'],
    }
}

/// The text of a tool message: the status icon, a space and the tool's name.
pub open spec fn tool_text(s: ToolStatus, name: Seq<char>) -> Seq<char> {
    tool_icon(s) + seq![' '] + name
}

fn plain(role: ChatRole, agent_id: &str, text: &str) -> (r: ChatMessage)
    ensures
        plain_message(r.deep_view(), role, agent_id@, text@),
{
    let r = ChatMessage {
        id: new_message_id(),
        agent_id: string_of(agent_id),
        role,
        text: string_of(text),
        thinking: None,
        tool_call: None,
        timestamp: now_millis(),
        meta: None,
        content: Vec::new(),
    };
    assert(r.content.deep_view() =~= Seq::<BlockView>::empty());
    r
}

/// Appends the tool status icon.
fn push_tool_icon(s: &mut String, status: ToolStatus)
    ensures
        final(s)@ == old(s)@ + tool_icon(status),
{
    match status {
        ToolStatus::Error => push_char(s, '✗'),
        ToolStatus::Running => push_char(s, '▶'),
        ToolStatus::Done => push_char(s, '✓'),
    }
    assert(final(s)@ =~= old(s)@ + tool_icon(status));
}

/// The text of a tool message for a status and tool name.
pub fn tool_message_text(status: ToolStatus, name: &str) -> (r: String)
    ensures
        r@ == tool_text(status, name@),
{
    let mut s = String::new();
    push_tool_icon(&mut s, status);
    push_char(&mut s, ' ');
    push_str(&mut s, name);
    assert(s@ =~= tool_text(status, name@));
    s
}

impl ChatMessage {
    /// A user message.
    pub fn user(agent_id: &str, text: &str) -> (r: ChatMessage)
        ensures
            plain_message(r.deep_view(), ChatRole::User, agent_id@, text@),
    {
        plain(ChatRole::User, agent_id, text)
    }

    /// An assistant message.
    pub fn assistant(agent_id: &str, text: &str) -> (r: ChatMessage)
        ensures
            plain_message(r.deep_view(), ChatRole::Assistant, agent_id@, text@),
    {
        plain(ChatRole::Assistant, agent_id, text)
    }

    /// A system (status) message.
    pub fn system(agent_id: &str, text: &str) -> (r: ChatMessage)
        ensures
            plain_message(r.deep_view(), ChatRole::System, agent_id@, text@),
    {
        plain(ChatRole::System, agent_id, text)
    }

    /// An error message.
    pub fn error(agent_id: &str, text: &str) -> (r: ChatMessage)
        ensures
            plain_message(r.deep_view(), ChatRole::Error, agent_id@, text@),
    {
        plain(ChatRole::Error, agent_id, text)
    }

    /// A tool message for a tool call: its text is the status icon (✗ failed,
    /// ▶ running, ✓ done), a space and the tool's name.
    pub fn tool(agent_id: &str, tool_call: ToolCallInfo) -> (r: ChatMessage)
        ensures
            r.deep_view().agent_id == agent_id@,
            r.deep_view().role == ChatRole::Tool,
            r.deep_view().text == tool_text(tool_call.status, tool_call.tool_name@),
            r.deep_view().thinking is None,
            r.deep_view().tool_call == Some(tool_call.deep_view()),
            r.deep_view().meta is None,
            r.deep_view().content.len() == 0,
            r.deep_view().id.len() == 36,
    {
        let text = tool_message_text(tool_call.status, tool_call.tool_name.as_str());
        let r = ChatMessage {
            id: new_message_id(),
            agent_id: string_of(agent_id),
            role: ChatRole::Tool,
            text,
            thinking: None,
            tool_call: Some(tool_call),
            timestamp: now_millis(),
            meta: None,
            content: Vec::new(),
        };
        assert(r.content.deep_view() =~= Seq::<BlockView>::empty());
        r
    }
}

/// `t` is a suffix of `s`.
pub open spec fn ends_with(s: Seq<char>, t: Seq<char>) -> bool {
    t.len() <= s.len() && s.subrange(s.len() - t.len(), s.len() as int) == t
}

/// Whether `s` ends with `t`.
pub fn chars_end_with(s: &Vec<char>, t: &Vec<char>) -> (r: bool)
    ensures
        r == ends_with(s@, t@),
{
    if t.len() > s.len() {
        return false;
    }
    let off = s.len() - t.len();
    let mut i: usize = 0;
    while i < t.len()
        invariant
            off + t@.len() == s@.len(),
            s@.len() == s.len(),
            t@.len() == t.len(),
            i <= t@.len(),
            forall|j: int| 0 <= j < i ==> s@[off + j] == t@[j],
        decreases t.len() - i,
    {
        if s[off + i] != t[i] {
            assert(s@.subrange(off as int, s@.len() as int)[i as int] != t@[i as int]);
            return false;
        }
        i = i + 1;
    }
    assert(s@.subrange(off as int, s@.len() as int) =~= t@);
    true
}

/// The text of the text blocks, concatenated in order.
pub open spec fn text_concat(bs: Seq<BlockView>) -> Seq<char>
    decreases bs.len(),
{
    if bs.len() == 0 {
        Seq::empty()
    } else {
        let rest = text_concat(bs.drop_last());
        match bs.last() {
            BlockView::Text(t) => rest + t,
            _ => rest,
        }
    }
}

/// The text blocks already end with `t` (always, for an empty `t`).
pub open spec fn text_ends_with_spec(bs: Seq<BlockView>, t: Seq<char>) -> bool {
    t.len() == 0 || ends_with(text_concat(bs), t)
}

/// Streaming text into the blocks: extends a trailing text block, or starts
/// one (nothing for empty text).
pub open spec fn append_text_spec(bs: Seq<BlockView>, t: Seq<char>) -> Seq<BlockView> {
    if t.len() == 0 {
        bs
    } else if bs.len() > 0 && bs.last() is Text {
        bs.update(bs.len() - 1, BlockView::Text(bs.last()->Text_0 + t))
    } else {
        bs.push(BlockView::Text(t))
    }
}

/// Streaming reasoning into the blocks: extends a trailing thinking block, or
/// starts one (nothing for empty text).
pub open spec fn append_thinking_spec(bs: Seq<BlockView>, t: Seq<char>) -> Seq<BlockView> {
    if t.len() == 0 {
        bs
    } else if bs.len() > 0 && bs.last() is Thinking {
        bs.update(bs.len() - 1, BlockView::Thinking(bs.last()->Thinking_0 + t))
    } else {
        bs.push(BlockView::Thinking(t))
    }
}

/// Starting a reasoning block: an empty thinking block is appended unless the
/// last block already is one.
pub open spec fn push_empty_thinking_spec(bs: Seq<BlockView>) -> Seq<BlockView> {
    if bs.len() > 0 && bs.last() is Thinking && bs.last()->Thinking_0.len() == 0 {
        bs
    } else {
        bs.push(BlockView::Thinking(Seq::empty()))
    }
}

/// The index of the last thinking block.
pub open spec fn last_thinking(bs: Seq<BlockView>) -> Option<int>
    decreases bs.len(),
{
    if bs.len() == 0 {
        None
    } else if bs.last() is Thinking {
        Some(bs.len() - 1)
    } else {
        last_thinking(bs.drop_last())
    }
}

/// The last thinking block ends with `t` (always for an empty `t`; never when
/// there is no thinking block).
pub open spec fn thinking_ends_with_spec(bs: Seq<BlockView>, t: Seq<char>) -> bool {
    t.len() == 0 || match last_thinking(bs) {
        Some(i) => ends_with(bs[i]->Thinking_0, t),
        None => false,
    }
}

/// Finalizing reasoning: the last thinking block gets the final text (or one
/// is appended when there is none); nothing for empty text.
pub open spec fn replace_last_thinking_spec(bs: Seq<BlockView>, t: Seq<char>) -> Seq<BlockView> {
    if t.len() == 0 {
        bs
    } else {
        match last_thinking(bs) {
            Some(i) => bs.update(i, BlockView::Thinking(t)),
            None => append_thinking_spec(bs, t),
        }
    }
}

proof fn lemma_last_thinking_range(bs: Seq<BlockView>)
    ensures
        last_thinking(bs) matches Some(i) ==> 0 <= i < bs.len() && bs[i] is Thinking,
        last_thinking(bs) is None ==> forall|j: int| 0 <= j < bs.len() ==> !(#[trigger] bs[j] is Thinking),
    decreases bs.len(),
{
    if bs.len() > 0 && !(bs.last() is Thinking) {
        lemma_last_thinking_range(bs.drop_last());
        if last_thinking(bs) is None {
            assert forall|j: int| 0 <= j < bs.len() implies !(#[trigger] bs[j] is Thinking) by {
                if j < bs.len() - 1 {
                    assert(bs.drop_last()[j] == bs[j]);
                }
            }
        }
    }
}

/// Streams `text` into the content blocks (see `append_text_spec`).
pub fn append_text_content_block(content: &mut Vec<ContentBlock>, text: &str)
    ensures
        final(content).deep_view() == append_text_spec(old(content).deep_view(), text@),
{
    if text.is_empty() {
        return;
    }
    let ghost bs = content.deep_view();
    if content.len() > 0 {
        let last = content.pop().unwrap();
        assert(content.deep_view() =~= bs.drop_last());
        match last {
            ContentBlock::Text { text: cur } => {
                let mut cur = cur;
                push_str(&mut cur, text);
                content.push(ContentBlock::Text { text: cur });
                assert(content.deep_view() =~= bs.update(bs.len() - 1, BlockView::Text(bs.last()->Text_0 + text@)));
            },
            other => {
                content.push(other);
                content.push(ContentBlock::Text { text: string_of(text) });
                assert(content.deep_view() =~= bs.push(BlockView::Text(text@)));
            },
        }
    } else {
        content.push(ContentBlock::Text { text: string_of(text) });
        assert(content.deep_view() =~= bs.push(BlockView::Text(text@)));
    }
}

/// Streams reasoning `text` into the content blocks (see `append_thinking_spec`).
pub fn append_thinking_content_block(content: &mut Vec<ContentBlock>, text: &str)
    ensures
        final(content).deep_view() == append_thinking_spec(old(content).deep_view(), text@),
{
    if text.is_empty() {
        return;
    }
    let ghost bs = content.deep_view();
    if content.len() > 0 {
        let last = content.pop().unwrap();
        assert(content.deep_view() =~= bs.drop_last());
        match last {
            ContentBlock::Thinking { thinking: cur } => {
                let mut cur = cur;
                push_str(&mut cur, text);
                content.push(ContentBlock::Thinking { thinking: cur });
                assert(content.deep_view() =~= bs.update(bs.len() - 1, BlockView::Thinking(bs.last()->Thinking_0 + text@)));
            },
            other => {
                content.push(other);
                content.push(ContentBlock::Thinking { thinking: string_of(text) });
                assert(content.deep_view() =~= bs.push(BlockView::Thinking(text@)));
            },
        }
    } else {
        content.push(ContentBlock::Thinking { thinking: string_of(text) });
        assert(content.deep_view() =~= bs.push(BlockView::Thinking(text@)));
    }
}

/// Starts a reasoning block (see `push_empty_thinking_spec`).
pub fn push_empty_thinking_content_block(content: &mut Vec<ContentBlock>)
    ensures
        final(content).deep_view() == push_empty_thinking_spec(old(content).deep_view()),
{
    let ghost bs = content.deep_view();
    let n = content.len();
    if n > 0 {
        assert(bs.last() == content@[n - 1].deep_view());
        match &content[n - 1] {
            ContentBlock::Thinking { thinking } => {
                if thinking.as_str().is_empty() {
                    return;
                }
            },
            _ => {},
        }
    }
    content.push(ContentBlock::Thinking { thinking: String::new() });
    assert(content.deep_view() =~= bs.push(BlockView::Thinking(Seq::empty())));
}

/// Whether the text blocks, concatenated, already end with `text` (see
/// `text_ends_with_spec`).
pub fn text_content_ends_with(content: &[ContentBlock], text: &str) -> (r: bool)
    ensures
        r == text_ends_with_spec(content.deep_view(), text@),
{
    if text.is_empty() {
        return true;
    }
    let ghost bs = content.deep_view();
    let mut all = String::new();
    for i in 0..content.len()
        invariant
            bs == content.deep_view(),
            bs.len() == content@.len(),
            all@ == text_concat(bs.take(i as int)),
    {
        assert(bs.take(i + 1).drop_last() =~= bs.take(i as int));
        assert(bs[i as int] == content@[i as int].deep_view());
        match &content[i] {
            ContentBlock::Text { text: t } => {
                push_str(&mut all, t.as_str());
            },
            _ => {},
        }
    }
    assert(bs.take(bs.len() as int) =~= bs);
    let a = chars_of(all.as_str());
    let t = chars_of(text);
    chars_end_with(&a, &t)
}

/// The index of the last thinking block.
fn last_thinking_index(content: &[ContentBlock]) -> (r: Option<usize>)
    ensures
        r matches Some(i) ==> last_thinking(content.deep_view()) == Some(i as int),
        r is None ==> last_thinking(content.deep_view()) is None,
{
    let ghost bs = content.deep_view();
    let mut i = content.len();
    assert(bs.take(i as int) =~= bs);
    while i > 0
        invariant
            bs == content.deep_view(),
            bs.len() == content@.len(),
            i <= bs.len(),
            last_thinking(bs) == last_thinking(bs.take(i as int)),
        decreases i,
    {
        assert(bs.take(i as int).drop_last() =~= bs.take(i - 1));
        assert(bs[i - 1] == content@[i - 1].deep_view());
        match &content[i - 1] {
            ContentBlock::Thinking { .. } => {
                return Some(i - 1);
            },
            _ => {},
        }
        i = i - 1;
    }
    None
}

/// Whether the last thinking block already ends with `text` (see
/// `thinking_ends_with_spec`).
pub fn thinking_content_ends_with(content: &[ContentBlock], text: &str) -> (r: bool)
    ensures
        r == thinking_ends_with_spec(content.deep_view(), text@),
{
    if text.is_empty() {
        return true;
    }
    proof {
        lemma_last_thinking_range(content.deep_view());
    }
    match last_thinking_index(content) {
        Some(i) => {
            assert(content.deep_view()[i as int] == content@[i as int].deep_view());
            match &content[i] {
                ContentBlock::Thinking { thinking } => {
                    let a = chars_of(thinking.as_str());
                    let t = chars_of(text);
                    chars_end_with(&a, &t)
                },
                _ => false,
            }
        },
        None => false,
    }
}

/// Puts the final reasoning text into the last thinking block (see
/// `replace_last_thinking_spec`).
pub fn replace_last_thinking_content_block(content: &mut Vec<ContentBlock>, text: &str)
    ensures
        final(content).deep_view() == replace_last_thinking_spec(old(content).deep_view(), text@),
{
    if text.is_empty() {
        return;
    }
    let ghost bs = content.deep_view();
    proof {
        lemma_last_thinking_range(bs);
    }
    let sl = content.as_slice();
    let found = last_thinking_index(sl);
    assert(sl.deep_view() =~= bs);
    match found {
        Some(i) => {
            content[i] = ContentBlock::Thinking { thinking: string_of(text) };
            assert(content.deep_view() =~= bs.update(i as int, BlockView::Thinking(text@)));
        },
        None => {
            append_thinking_content_block(content, text);
        },
    }
}

/// The mathematical value of a `BlockRef`.
pub ghost struct RefView {
    pub msg_index: usize,
    pub msg_id: Seq<char>,
    pub block_index: usize,
    pub kind: BlockKind,
}

impl DeepView for BlockRef {
    type V = RefView;

    open spec fn deep_view(&self) -> RefView {
        RefView { msg_index: self.msg_index, msg_id: self.msg_id@, block_index: self.block_index, kind: self.kind }
    }
}

/// The interactive blocks among blocks `bs` of message `i` with id `id`:
/// its thinking and tool call blocks, in order.
pub open spec fn msg_block_refs(i: int, id: Seq<char>, bs: Seq<BlockView>) -> Seq<RefView>
    decreases bs.len(),
{
    if bs.len() == 0 {
        Seq::empty()
    } else {
        let rest = msg_block_refs(i, id, bs.drop_last());
        let j = bs.len() - 1;
        match bs.last() {
            BlockView::Thinking(_) => rest.push(
                RefView { msg_index: i as usize, msg_id: id, block_index: j as usize, kind: BlockKind::Thinking },
            ),
            BlockView::ToolCall { .. } => rest.push(
                RefView { msg_index: i as usize, msg_id: id, block_index: j as usize, kind: BlockKind::ToolCall },
            ),
            _ => rest,
        }
    }
}

/// The interactive blocks of a message list, message by message.
pub open spec fn block_refs_spec(ms: Seq<MessageView>) -> Seq<RefView>
    decreases ms.len(),
{
    if ms.len() == 0 {
        Seq::empty()
    } else {
        block_refs_spec(ms.drop_last()) + msg_block_refs(ms.len() - 1, ms.last().id, ms.last().content)
    }
}

/// Lists the interactive blocks (thinking and tool call blocks) of the
/// messages, in order (see `block_refs_spec`).
pub fn build_block_refs(messages: &[ChatMessage]) -> (r: Vec<BlockRef>)
    ensures
        r.deep_view() == block_refs_spec(messages.deep_view()),
{
    let ghost ms = messages.deep_view();
    let mut out: Vec<BlockRef> = Vec::new();
    for i in 0..messages.len()
        invariant
            ms == messages.deep_view(),
            ms.len() == messages@.len(),
            out.deep_view() == block_refs_spec(ms.take(i as int)),
    {
        let m = &messages[i];
        assert(ms[i as int] == m.deep_view());
        let ghost bs = m.content.deep_view();
        let ghost base = out.deep_view();
        for j in 0..m.content.len()
            invariant
                bs == m.content.deep_view(),
                bs.len() == m.content@.len(),
                out.deep_view() == base + msg_block_refs(i as int, m.id@, bs.take(j as int)),
        {
            assert(bs.take(j + 1).drop_last() =~= bs.take(j as int));
            assert(bs[j as int] == m.content@[j as int].deep_view());
            let kind: Option<BlockKind> = match &m.content[j] {
                ContentBlock::Thinking { .. } => Some(BlockKind::Thinking),
                ContentBlock::ToolCall { .. } => Some(BlockKind::ToolCall),
                _ => None,
            };
            if let Some(k) = kind {
                let r = BlockRef { msg_index: i, msg_id: m.id.clone(), block_index: j, kind: k };
                let ghost before = out;
                out.push(r);
                proof {
                    crate::seqs::lemma_deep_view_push(before, out, r);
                    assert(out.deep_view() =~= base + msg_block_refs(i as int, m.id@, bs.take(j + 1)));
                }
            } else {
                assert(out.deep_view() =~= base + msg_block_refs(i as int, m.id@, bs.take(j + 1)));
            }
        }
        proof {
            assert(bs.take(bs.len() as int) =~= bs);
            assert(ms.take(i + 1).drop_last() =~= ms.take(i as int));
        }
    }
    assert(ms.take(ms.len() as int) =~= ms);
    out
}

/// The last message is an assistant message.
pub open spec fn tail_is_assistant(ms: Seq<MessageView>) -> bool {
    ms.len() > 0 && ms.last().role == ChatRole::Assistant
}

/// A fresh assistant message with these fields.
pub open spec fn fresh_assistant(m: MessageView, agent_id: Seq<char>, text: Seq<char>, thinking: Option<Seq<char>>, content: Seq<BlockView>) -> bool {
    &&& m.agent_id == agent_id
    &&& m.role == ChatRole::Assistant
    &&& m.text == text
    &&& m.thinking == thinking
    &&& m.tool_call is None
    &&& m.meta is None
    &&& m.content == content
    &&& m.id.len() == 36
}

/// The message list grew by one message `m` at the end.
pub open spec fn pushed(old_ms: Seq<MessageView>, new_ms: Seq<MessageView>) -> bool {
    new_ms.len() == old_ms.len() + 1 && new_ms.drop_last() == old_ms
}

/// Streaming reply text into an assistant message: the text grows, and so
/// does the content unless its text blocks already end with the delta while
/// the message text is still empty (the delta arrived with a content snapshot).
pub open spec fn add_text(m: MessageView, t: Seq<char>) -> MessageView {
    let has_delta = m.text.len() == 0 && text_ends_with_spec(m.content, t);
    MessageView { text: m.text + t, content: if has_delta { m.content } else { append_text_spec(m.content, t) }, ..m }
}

/// The reasoning text of a message so far (empty when none).
pub open spec fn thinking_or_empty(m: MessageView) -> Seq<char> {
    match m.thinking {
        Some(t) => t,
        None => Seq::empty(),
    }
}

/// Streaming reasoning into an assistant message, in the same way as `add_text`.
pub open spec fn add_thinking(m: MessageView, t: Seq<char>) -> MessageView {
    let has_delta = thinking_or_empty(m).len() == 0 && thinking_ends_with_spec(m.content, t);
    MessageView {
        thinking: Some(thinking_or_empty(m) + t),
        content: if has_delta { m.content } else { append_thinking_spec(m.content, t) },
        ..m
    }
}

/// Pops the last message of a list (the caller knows there is one).
fn take_last(msgs: &mut Vec<ChatMessage>) -> (r: ChatMessage)
    requires
        old(msgs)@.len() > 0,
    ensures
        final(msgs).deep_view() == old(msgs).deep_view().drop_last(),
        r.deep_view() == old(msgs).deep_view().last(),
{
    let ghost ms = msgs.deep_view();
    let r = msgs.pop().unwrap();
    assert(msgs.deep_view() =~= ms.drop_last());
    r
}

/// Whether the last message is an assistant message.
fn tail_assistant(msgs: &Vec<ChatMessage>) -> (r: bool)
    ensures
        r == tail_is_assistant(msgs.deep_view()),
{
    let n = msgs.len();
    if n == 0 {
        false
    } else {
        assert(msgs.deep_view().last() == msgs@[n - 1].deep_view());
        match msgs[n - 1].role {
            ChatRole::Assistant => true,
            _ => false,
        }
    }
}

/// Pushes a message, stating the new list.
fn push_msg(msgs: &mut Vec<ChatMessage>, m: ChatMessage)
    ensures
        final(msgs).deep_view() == old(msgs).deep_view().push(m.deep_view()),
{
    let ghost before = *msgs;
    msgs.push(m);
    proof {
        crate::seqs::lemma_deep_view_push(before, *msgs, m);
    }
}

/// Streams reply text into the conversation: into the trailing assistant
/// message (see `add_text`), or into a new assistant message.
pub fn append_assistant_text(msgs: &mut Vec<ChatMessage>, agent_id: &str, text: &str)
    ensures
        tail_is_assistant(old(msgs).deep_view()) ==> final(msgs).deep_view() == old(msgs).deep_view().update(
            old(msgs).deep_view().len() - 1,
            add_text(old(msgs).deep_view().last(), text@),
        ),
        !tail_is_assistant(old(msgs).deep_view()) ==> pushed(old(msgs).deep_view(), final(msgs).deep_view())
            && fresh_assistant(final(msgs).deep_view().last(), agent_id@, text@, None, append_text_spec(Seq::empty(), text@)),
{
    let ghost ms = msgs.deep_view();
    if tail_assistant(msgs) {
        let mut m = take_last(msgs);
        let sl = m.content.as_slice();
        let has_delta = m.text.as_str().is_empty() && text_content_ends_with(sl, text);
        assert(sl.deep_view() =~= m.content.deep_view());
        push_str(&mut m.text, text);
        if !has_delta {
            append_text_content_block(&mut m.content, text);
        }
        push_msg(msgs, m);
        assert(msgs.deep_view() =~= ms.update(ms.len() - 1, add_text(ms.last(), text@)));
    } else {
        let mut m = ChatMessage::assistant(agent_id, text);
        assert(m.content.deep_view() =~= Seq::<BlockView>::empty());
        append_text_content_block(&mut m.content, text);
        push_msg(msgs, m);
        assert(msgs.deep_view().drop_last() =~= ms);
    }
}

/// Streams reasoning into the conversation: into the trailing assistant
/// message (see `add_thinking`), or into a new assistant message.
pub fn append_assistant_thinking(msgs: &mut Vec<ChatMessage>, agent_id: &str, text: &str)
    ensures
        tail_is_assistant(old(msgs).deep_view()) ==> final(msgs).deep_view() == old(msgs).deep_view().update(
            old(msgs).deep_view().len() - 1,
            add_thinking(old(msgs).deep_view().last(), text@),
        ),
        !tail_is_assistant(old(msgs).deep_view()) ==> pushed(old(msgs).deep_view(), final(msgs).deep_view())
            && fresh_assistant(final(msgs).deep_view().last(), agent_id@, Seq::empty(), Some(text@), append_thinking_spec(Seq::empty(), text@)),
{
    let ghost ms = msgs.deep_view();
    if tail_assistant(msgs) {
        let mut m = take_last(msgs);
        let prev: String = match &m.thinking {
            Some(t) => t.clone(),
            None => String::new(),
        };
        let sl = m.content.as_slice();
        let has_delta = prev.as_str().is_empty() && thinking_content_ends_with(sl, text);
        assert(sl.deep_view() =~= m.content.deep_view());
        let mut t = prev;
        push_str(&mut t, text);
        m.thinking = Some(t);
        if !has_delta {
            append_thinking_content_block(&mut m.content, text);
        }
        push_msg(msgs, m);
        assert(msgs.deep_view() =~= ms.update(ms.len() - 1, add_thinking(ms.last(), text@)));
    } else {
        proof {
            reveal_strlit("");
        }
        let mut m = ChatMessage::assistant(agent_id, "");
        assert(m.text@ =~= Seq::<char>::empty());
        assert(m.content.deep_view() =~= Seq::<BlockView>::empty());
        m.thinking = Some(string_of(text));
        append_thinking_content_block(&mut m.content, text);
        push_msg(msgs, m);
        assert(msgs.deep_view().drop_last() =~= ms);
    }
}

/// Starts a new reasoning block: in the trailing assistant message (its
/// reasoning text is kept, or started empty), or in a new assistant message.
pub fn start_assistant_thinking(msgs: &mut Vec<ChatMessage>, agent_id: &str)
    ensures
        tail_is_assistant(old(msgs).deep_view()) ==> final(msgs).deep_view() == old(msgs).deep_view().update(
            old(msgs).deep_view().len() - 1,
            MessageView {
                thinking: Some(thinking_or_empty(old(msgs).deep_view().last())),
                content: push_empty_thinking_spec(old(msgs).deep_view().last().content),
                ..old(msgs).deep_view().last()
            },
        ),
        !tail_is_assistant(old(msgs).deep_view()) ==> pushed(old(msgs).deep_view(), final(msgs).deep_view())
            && fresh_assistant(final(msgs).deep_view().last(), agent_id@, Seq::empty(), Some(Seq::empty()), push_empty_thinking_spec(Seq::empty())),
{
    let ghost ms = msgs.deep_view();
    if tail_assistant(msgs) {
        let mut m = take_last(msgs);
        if m.thinking.is_none() {
            m.thinking = Some(String::new());
        }
        push_empty_thinking_content_block(&mut m.content);
        push_msg(msgs, m);
        assert(msgs.deep_view() =~= ms.update(
            ms.len() - 1,
            MessageView {
                thinking: Some(thinking_or_empty(ms.last())),
                content: push_empty_thinking_spec(ms.last().content),
                ..ms.last()
            },
        ));
    } else {
        proof {
            reveal_strlit("");
        }
        let mut m = ChatMessage::assistant(agent_id, "");
        assert(m.text@ =~= Seq::<char>::empty());
        assert(m.content.deep_view() =~= Seq::<BlockView>::empty());
        m.thinking = Some(String::new());
        push_empty_thinking_content_block(&mut m.content);
        push_msg(msgs, m);
        assert(msgs.deep_view().drop_last() =~= ms);
    }
}

/// Finalizes reasoning with its complete text: the trailing assistant
/// message takes it as its reasoning and in its last thinking block; without
/// one, a new assistant message holds it. Empty text changes nothing.
pub fn finalize_assistant_thinking(msgs: &mut Vec<ChatMessage>, agent_id: &str, text: &str)
    ensures
        text@.len() == 0 ==> final(msgs).deep_view() == old(msgs).deep_view(),
        text@.len() > 0 && tail_is_assistant(old(msgs).deep_view()) ==> final(msgs).deep_view() == old(msgs).deep_view().update(
            old(msgs).deep_view().len() - 1,
            MessageView {
                thinking: Some(text@),
                content: replace_last_thinking_spec(old(msgs).deep_view().last().content, text@),
                ..old(msgs).deep_view().last()
            },
        ),
        text@.len() > 0 && !tail_is_assistant(old(msgs).deep_view()) ==> pushed(old(msgs).deep_view(), final(msgs).deep_view())
            && fresh_assistant(final(msgs).deep_view().last(), agent_id@, Seq::empty(), Some(text@), append_thinking_spec(Seq::empty(), text@)),
{
    if text.is_empty() {
        return;
    }
    let ghost ms = msgs.deep_view();
    if tail_assistant(msgs) {
        let mut m = take_last(msgs);
        m.thinking = Some(string_of(text));
        replace_last_thinking_content_block(&mut m.content, text);
        push_msg(msgs, m);
        assert(msgs.deep_view() =~= ms.update(
            ms.len() - 1,
            MessageView {
                thinking: Some(text@),
                content: replace_last_thinking_spec(ms.last().content, text@),
                ..ms.last()
            },
        ));
    } else {
        proof {
            reveal_strlit("");
        }
        let mut m = ChatMessage::assistant(agent_id, "");
        assert(m.text@ =~= Seq::<char>::empty());
        assert(m.content.deep_view() =~= Seq::<BlockView>::empty());
        m.thinking = Some(string_of(text));
        append_thinking_content_block(&mut m.content, text);
        push_msg(msgs, m);
        assert(msgs.deep_view().drop_last() =~= ms);
    }
}

/// Replaces the content blocks of the trailing assistant message with a
/// snapshot, or adds an assistant message holding it.
pub fn update_assistant_content(msgs: &mut Vec<ChatMessage>, agent_id: &str, content: Vec<ContentBlock>)
    ensures
        tail_is_assistant(old(msgs).deep_view()) ==> final(msgs).deep_view() == old(msgs).deep_view().update(
            old(msgs).deep_view().len() - 1,
            MessageView { content: content.deep_view(), ..old(msgs).deep_view().last() },
        ),
        !tail_is_assistant(old(msgs).deep_view()) ==> pushed(old(msgs).deep_view(), final(msgs).deep_view())
            && fresh_assistant(final(msgs).deep_view().last(), agent_id@, Seq::empty(), None, content.deep_view()),
{
    let ghost ms = msgs.deep_view();
    let ghost cv = content.deep_view();
    if tail_assistant(msgs) {
        let mut m = take_last(msgs);
        m.content = content;
        push_msg(msgs, m);
        assert(msgs.deep_view() =~= ms.update(ms.len() - 1, MessageView { content: cv, ..ms.last() }));
    } else {
        proof {
            reveal_strlit("");
        }
        let mut m = ChatMessage::assistant(agent_id, "");
        assert(m.text@ =~= Seq::<char>::empty());
        assert(m.content.deep_view() =~= Seq::<BlockView>::empty());
        m.content = content;
        push_msg(msgs, m);
        assert(msgs.deep_view().drop_last() =~= ms);
    }
}

/// The index of the last tool message for the tool call `id`.
pub open spec fn last_tool_message(ms: Seq<MessageView>, id: Seq<char>) -> Option<int>
    decreases ms.len(),
{
    if ms.len() == 0 {
        None
    } else if ms.last().role == ChatRole::Tool && ms.last().tool_call is Some
        && ms.last().tool_call->0.tool_call_id == id {
        Some(ms.len() - 1)
    } else {
        last_tool_message(ms.drop_last(), id)
    }
}

proof fn lemma_last_tool_message_range(ms: Seq<MessageView>, id: Seq<char>)
    ensures
        last_tool_message(ms, id) matches Some(i) ==> 0 <= i < ms.len() && ms[i].tool_call is Some,
    decreases ms.len(),
{
    if ms.len() > 0 {
        lemma_last_tool_message_range(ms.drop_last(), id);
    }
}

/// A finished tool call: the message takes the new status and result, and
/// its text shows the new status icon.
pub open spec fn finish_tool(m: MessageView, status: ToolStatus, result: Option<JsonV>) -> MessageView {
    let tc = m.tool_call->0;
    MessageView {
        tool_call: Some(ToolCallView { status: status, result: result, ..tc }),
        text: tool_text(status, tc.tool_name),
        ..m
    }
}

/// Finishing a tool call records the event's status and result in it,
/// whatever it held before, and keeps its tool, id and arguments.
pub proof fn lemma_finish_tool_records(m: MessageView, status: ToolStatus, result: Option<JsonV>)
    requires
        m.tool_call is Some,
    ensures
        finish_tool(m, status, result).tool_call is Some,
        finish_tool(m, status, result).tool_call->0.result == result,
        finish_tool(m, status, result).tool_call->0.status == status,
        finish_tool(m, status, result).tool_call->0.tool_name == m.tool_call->0.tool_name,
        finish_tool(m, status, result).tool_call->0.tool_call_id == m.tool_call->0.tool_call_id,
        finish_tool(m, status, result).tool_call->0.args == m.tool_call->0.args,
        finish_tool(m, status, result).role == m.role,
        finish_tool(m, status, result).id == m.id,
{
}

/// Records a tool event in the conversation: a running tool adds a tool
/// message; a finished or failed one updates the last tool message of the
/// same call (nothing when there is none).
pub fn apply_tool_event(
    msgs: &mut Vec<ChatMessage>,
    agent_id: &str,
    tool_name: &str,
    tool_call_id: &str,
    status: ToolStatus,
    args: Option<Json>,
    result: Option<Json>,
)
    ensures
        status == ToolStatus::Running ==> pushed(old(msgs).deep_view(), final(msgs).deep_view()) && {
            let m = final(msgs).deep_view().last();
            &&& m.agent_id == agent_id@
            &&& m.role == ChatRole::Tool
            &&& m.text == tool_text(status, tool_name@)
            &&& m.thinking is None
            &&& m.content.len() == 0
            &&& m.tool_call is Some
            &&& m.tool_call->0.tool_name == tool_name@
            &&& m.tool_call->0.tool_call_id == tool_call_id@
            &&& m.tool_call->0.status == status
            &&& m.tool_call->0.result is None
            &&& m.tool_call->0.detail_text.len() == 0
            &&& m.tool_call->0.args == match args {
                Some(a) => jview(a),
                None => JsonV::Null,
            }
        },
        status != ToolStatus::Running ==> match last_tool_message(old(msgs).deep_view(), tool_call_id@) {
            Some(i) => final(msgs).deep_view() == old(msgs).deep_view().update(
                i,
                finish_tool(old(msgs).deep_view()[i], status, opt_jview(result)),
            ),
            None => final(msgs).deep_view() == old(msgs).deep_view(),
        },
        status != ToolStatus::Running ==> match last_tool_message(old(msgs).deep_view(), tool_call_id@) {
            Some(i) => {
                let m = final(msgs).deep_view()[i];
                let o = old(msgs).deep_view()[i];
                &&& final(msgs)@.len() == old(msgs)@.len()
                &&& m.tool_call is Some
                &&& m.tool_call->0.result == opt_jview(result)
                &&& m.tool_call->0.status == status
                &&& m.tool_call->0.tool_call_id == tool_call_id@
                &&& m.tool_call->0.tool_name == o.tool_call->0.tool_name
                &&& m.tool_call->0.args == o.tool_call->0.args
                &&& m.text == tool_text(status, o.tool_call->0.tool_name)
            },
            None => true,
        },
{
    let ghost ms = msgs.deep_view();
    match status {
        ToolStatus::Running => {
            let a = match args {
                Some(a) => a,
                None => Json::Null,
            };
            let info = ToolCallInfo {
                tool_name: string_of(tool_name),
                tool_call_id: string_of(tool_call_id),
                status,
                args: a,
                result: None,
                detail_text: String::new(),
            };
            let m = ChatMessage::tool(agent_id, info);
            push_msg(msgs, m);
            assert(msgs.deep_view().drop_last() =~= ms);
        },
        _ => {
            let mut i = msgs.len();
            assert(ms.take(i as int) =~= ms);
            while i > 0
                invariant
                    ms == old(msgs).deep_view(),
                    msgs.deep_view() == ms,
                    status != ToolStatus::Running,
                    i <= ms.len(),
                    last_tool_message(ms, tool_call_id@) == last_tool_message(ms.take(i as int), tool_call_id@),
                decreases i,
            {
                assert(ms.take(i as int).drop_last() =~= ms.take(i - 1));
                assert(ms[i - 1] == msgs@[i - 1].deep_view());
                let hit = match &msgs[i - 1].tool_call {
                    Some(tc) => {
                        let a = chars_of(tc.tool_call_id.as_str());
                        let b = chars_of(tool_call_id);
                        let same = crate::strs::vec_chars_eq(&a, &b);
                        match msgs[i - 1].role {
                            ChatRole::Tool => same,
                            _ => false,
                        }
                    },
                    None => false,
                };
                if hit {
                    let k = i - 1;
                    let mut m = msgs.remove(k);
                    assert(msgs.deep_view() =~= ms.remove(k as int));
                    let tc = m.tool_call.take().unwrap();
                    let ToolCallInfo { tool_name: tn, tool_call_id: tid, status: _, args: ta, result: _, detail_text: dt } = tc;
                    let text = tool_message_text(status, tn.as_str());
                    m.tool_call = Some(ToolCallInfo { tool_name: tn, tool_call_id: tid, status, args: ta, result, detail_text: dt });
                    m.text = text;
                    let ghost mv = m.deep_view();
                    msgs.insert(k, m);
                    assert(msgs.deep_view() =~= ms.update(k as int, mv));
                    return;
                }
                i = i - 1;
            }
        },
    }
}

/// Streaming text adds exactly the delta to the text of the blocks.
pub proof fn lemma_append_text_concat(bs: Seq<BlockView>, t: Seq<char>)
    ensures
        text_concat(append_text_spec(bs, t)) == text_concat(bs) + t,
{
    if t.len() == 0 {
        assert(text_concat(bs) + t =~= text_concat(bs));
    } else if bs.len() > 0 && bs.last() is Text {
        let nb = append_text_spec(bs, t);
        assert(nb.drop_last() =~= bs.drop_last());
        assert(text_concat(nb) =~= text_concat(bs) + t);
    } else {
        let nb = bs.push(BlockView::Text(t));
        assert(nb.drop_last() =~= bs);
    }
}

/// Streaming text in two pieces builds the same blocks as streaming it at once.
pub proof fn lemma_append_text_split(bs: Seq<BlockView>, a: Seq<char>, b: Seq<char>)
    ensures
        append_text_spec(append_text_spec(bs, a), b) == append_text_spec(bs, a + b),
{
    if a.len() == 0 {
        assert(a + b =~= b);
    } else if b.len() == 0 {
        assert(a + b =~= a);
    } else if bs.len() > 0 && bs.last() is Text {
        assert(bs.last()->Text_0 + a + b =~= bs.last()->Text_0 + (a + b));
        assert(append_text_spec(append_text_spec(bs, a), b) =~= append_text_spec(bs, a + b));
    } else {
        assert(append_text_spec(append_text_spec(bs, a), b) =~= append_text_spec(bs, a + b));
    }
}

/// Streaming reasoning in two pieces builds the same blocks as streaming it at once.
pub proof fn lemma_append_thinking_split(bs: Seq<BlockView>, a: Seq<char>, b: Seq<char>)
    ensures
        append_thinking_spec(append_thinking_spec(bs, a), b) == append_thinking_spec(bs, a + b),
{
    if a.len() == 0 {
        assert(a + b =~= b);
    } else if b.len() == 0 {
        assert(a + b =~= a);
    } else if bs.len() > 0 && bs.last() is Thinking {
        assert(bs.last()->Thinking_0 + a + b =~= bs.last()->Thinking_0 + (a + b));
        assert(append_thinking_spec(append_thinking_spec(bs, a), b) =~= append_thinking_spec(bs, a + b));
    } else {
        assert(append_thinking_spec(append_thinking_spec(bs, a), b) =~= append_thinking_spec(bs, a + b));
    }
}

/// After streaming reasoning, the last thinking block ends with the delta,
/// so the same delta arriving again with a snapshot is recognised.
pub proof fn lemma_append_thinking_ends_with(bs: Seq<BlockView>, t: Seq<char>)
    ensures
        thinking_ends_with_spec(append_thinking_spec(bs, t), t),
{
    if t.len() > 0 {
        let nb = append_thinking_spec(bs, t);
        assert(nb.last() is Thinking);
        let body = nb.last()->Thinking_0;
        assert(body.subrange(body.len() - t.len(), body.len() as int) =~= t);
    }
}

} // verus!
