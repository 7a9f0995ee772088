//! The actions passed between the parts of the workbench.

use vstd::prelude::*;
use crate::message::{ChatMessage, ContentBlock, ToolStatus, BlockView, MessageView};
use crate::state::AgentStatus;

verus! {

/// An action: what happened (agent events, user input) or what to do.
/// The agent's model, token and cost report travels separately (it holds
/// floating point numbers).
#[derive(Debug, Clone)]
pub enum Action {
    /// Plain output of the child process (legacy terminal mode).
    PtyStdout(String),
    /// The child process exited (legacy terminal mode).
    PtyExit,
    /// The user submitted the input line.
    UserSubmitInput(String),
    /// A task stage seen in the output (legacy).
    InterceptedTask(String),
    /// A structured note seen in the output (legacy).
    InterceptedPopup { title: String, content: String },
    /// Token counts seen in the output (legacy).
    UpdateTokenUsage { input: u32, output: u32 },
    /// Reply text streamed in.
    MessageAppend { agent_id: String, text: String },
    /// The reply is complete.
    MessageFinalize { agent_id: String },
    /// Reasoning text streamed in.
    ThinkingAppend { agent_id: String, text: String },
    /// A new reasoning block starts.
    ThinkingStart { agent_id: String },
    /// The reasoning is complete, with its full text.
    ThinkingFinalize { agent_id: String, text: String },
    /// A tool started, progressed or ended.
    ToolEvent {
        agent_id: String,
        tool_name: String,
        tool_call_id: String,
        status: ToolStatus,
        args: Option<crate::history::Json>,
        result: Option<crate::history::Json>,
        is_error: bool,
    },
    /// The agent's run state changed.
    AgentStatusChange { agent_id: String, status: AgentStatus },
    /// The history of a session was loaded.
    AgentMessagesLoaded { agent_id: String, messages: Vec<ChatMessage> },
    /// A status line to show in the conversation.
    AutoRetryStatus { agent_id: String, text: String },
    /// A snapshot of the content blocks of the reply.
    ContentUpdate { agent_id: String, content: Vec<ContentBlock> },
    /// Fold or unfold a block.
    ToggleBlock { agent_id: String, msg_id: String, block_index: usize },
    /// Open the detail view of a block.
    EnterBlock { agent_id: String, msg_id: String, block_index: usize },
    /// Close the detail view.
    ExitBlock,
    /// Show or hide the popup.
    TogglePopup,
    /// Switch the session shown.
    SwitchSession(String),
    /// Expand or fold workspace `i`.
    ToggleWorkspace(usize),
    /// Show the messages of a session (browsing only).
    SelectSession(String),
    /// Start or switch to the agent of a session.
    ConnectSession { session_id: String, file_path: Option<String> },
    /// Stop the agent of a session.
    DisconnectSession(String),
    /// Move the sidebar cursor (positive = down).
    SidebarMove(i32),
    /// Move the focus across panels (1 = right, -1 = left).
    CycleFocusPanel(i32),
    /// Move the focus across sections (1 = down, -1 = up).
    CycleFocusSubsection(i32),
    /// Create a workspace directory.
    CreateWorkspace(String),
    /// Create a session in a workspace.
    CreateSession { workspace_index: usize, name: String },
    /// Delete a workspace with its sessions.
    DeleteWorkspace(usize),
    /// Delete a session of a workspace.
    DeleteSession { workspace_index: usize, session_index: usize },
    /// Rename a workspace.
    RenameWorkspace { index: usize, new_name: String },
    /// Rename a session of a workspace.
    RenameSession { workspace_index: usize, session_index: usize, new_name: String },
    /// Ask the agent to name a session.
    AiRenameSession { workspace_index: usize, session_index: usize },
}

/// The mathematical value of an action.
pub ghost enum ActionView {
    PtyStdout(Seq<char>),
    PtyExit,
    UserSubmitInput(Seq<char>),
    InterceptedTask(Seq<char>),
    InterceptedPopup { title: Seq<char>, content: Seq<char> },
    UpdateTokenUsage { input: u32, output: u32 },
    MessageAppend { agent_id: Seq<char>, text: Seq<char> },
    MessageFinalize { agent_id: Seq<char> },
    ThinkingAppend { agent_id: Seq<char>, text: Seq<char> },
    ThinkingStart { agent_id: Seq<char> },
    ThinkingFinalize { agent_id: Seq<char>, text: Seq<char> },
    ToolEvent {
        agent_id: Seq<char>,
        tool_name: Seq<char>,
        tool_call_id: Seq<char>,
        status: ToolStatus,
        args: Option<crate::history::Json>,
        result: Option<crate::history::Json>,
        is_error: bool,
    },
    AgentStatusChange { agent_id: Seq<char>, status: AgentStatus },
    AgentMessagesLoaded { agent_id: Seq<char>, messages: Seq<MessageView> },
    AutoRetryStatus { agent_id: Seq<char>, text: Seq<char> },
    ContentUpdate { agent_id: Seq<char>, content: Seq<BlockView> },
    ToggleBlock { agent_id: Seq<char>, msg_id: Seq<char>, block_index: usize },
    EnterBlock { agent_id: Seq<char>, msg_id: Seq<char>, block_index: usize },
    ExitBlock,
    TogglePopup,
    SwitchSession(Seq<char>),
    ToggleWorkspace(usize),
    SelectSession(Seq<char>),
    ConnectSession { session_id: Seq<char>, file_path: Option<Seq<char>> },
    DisconnectSession(Seq<char>),
    SidebarMove(i32),
    CycleFocusPanel(i32),
    CycleFocusSubsection(i32),
    CreateWorkspace(Seq<char>),
    CreateSession { workspace_index: usize, name: Seq<char> },
    DeleteWorkspace(usize),
    DeleteSession { workspace_index: usize, session_index: usize },
    RenameWorkspace { index: usize, new_name: Seq<char> },
    RenameSession { workspace_index: usize, session_index: usize, new_name: Seq<char> },
    AiRenameSession { workspace_index: usize, session_index: usize },
}

impl DeepView for Action {
    type V = ActionView;

    open spec fn deep_view(&self) -> ActionView {
        match self {
            Action::PtyStdout(t) => ActionView::PtyStdout(t@),
            Action::PtyExit => ActionView::PtyExit,
            Action::UserSubmitInput(t) => ActionView::UserSubmitInput(t@),
            Action::InterceptedTask(t) => ActionView::InterceptedTask(t@),
            Action::InterceptedPopup { title, content } => ActionView::InterceptedPopup { title: title@, content: content@ },
            Action::UpdateTokenUsage { input, output } => ActionView::UpdateTokenUsage { input: *input, output: *output },
            Action::MessageAppend { agent_id, text } => ActionView::MessageAppend { agent_id: agent_id@, text: text@ },
            Action::MessageFinalize { agent_id } => ActionView::MessageFinalize { agent_id: agent_id@ },
            Action::ThinkingAppend { agent_id, text } => ActionView::ThinkingAppend { agent_id: agent_id@, text: text@ },
            Action::ThinkingStart { agent_id } => ActionView::ThinkingStart { agent_id: agent_id@ },
            Action::ThinkingFinalize { agent_id, text } => ActionView::ThinkingFinalize { agent_id: agent_id@, text: text@ },
            Action::ToolEvent { agent_id, tool_name, tool_call_id, status, args, result, is_error } => ActionView::ToolEvent {
                agent_id: agent_id@,
                tool_name: tool_name@,
                tool_call_id: tool_call_id@,
                status: *status,
                args: *args,
                result: *result,
                is_error: *is_error,
            },
            Action::AgentStatusChange { agent_id, status } => ActionView::AgentStatusChange { agent_id: agent_id@, status: *status },
            Action::AgentMessagesLoaded { agent_id, messages } => ActionView::AgentMessagesLoaded {
                agent_id: agent_id@,
                messages: messages.deep_view(),
            },
            Action::AutoRetryStatus { agent_id, text } => ActionView::AutoRetryStatus { agent_id: agent_id@, text: text@ },
            Action::ContentUpdate { agent_id, content } => ActionView::ContentUpdate { agent_id: agent_id@, content: content.deep_view() },
            Action::ToggleBlock { agent_id, msg_id, block_index } => ActionView::ToggleBlock {
                agent_id: agent_id@,
                msg_id: msg_id@,
                block_index: *block_index,
            },
            Action::EnterBlock { agent_id, msg_id, block_index } => ActionView::EnterBlock {
                agent_id: agent_id@,
                msg_id: msg_id@,
                block_index: *block_index,
            },
            Action::ExitBlock => ActionView::ExitBlock,
            Action::TogglePopup => ActionView::TogglePopup,
            Action::SwitchSession(t) => ActionView::SwitchSession(t@),
            Action::ToggleWorkspace(i) => ActionView::ToggleWorkspace(*i),
            Action::SelectSession(t) => ActionView::SelectSession(t@),
            Action::ConnectSession { session_id, file_path } => ActionView::ConnectSession {
                session_id: session_id@,
                file_path: file_path.deep_view(),
            },
            Action::DisconnectSession(t) => ActionView::DisconnectSession(t@),
            Action::SidebarMove(d) => ActionView::SidebarMove(*d),
            Action::CycleFocusPanel(d) => ActionView::CycleFocusPanel(*d),
            Action::CycleFocusSubsection(d) => ActionView::CycleFocusSubsection(*d),
            Action::CreateWorkspace(t) => ActionView::CreateWorkspace(t@),
            Action::CreateSession { workspace_index, name } => ActionView::CreateSession {
                workspace_index: *workspace_index,
                name: name@,
            },
            Action::DeleteWorkspace(i) => ActionView::DeleteWorkspace(*i),
            Action::DeleteSession { workspace_index, session_index } => ActionView::DeleteSession {
                workspace_index: *workspace_index,
                session_index: *session_index,
            },
            Action::RenameWorkspace { index, new_name } => ActionView::RenameWorkspace { index: *index, new_name: new_name@ },
            Action::RenameSession { workspace_index, session_index, new_name } => ActionView::RenameSession {
                workspace_index: *workspace_index,
                session_index: *session_index,
                new_name: new_name@,
            },
            Action::AiRenameSession { workspace_index, session_index } => ActionView::AiRenameSession {
                workspace_index: *workspace_index,
                session_index: *session_index,
            },
        }
    }
}

} // verus!
