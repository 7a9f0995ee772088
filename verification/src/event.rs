//! The events a pi agent streams in RPC mode, and their translation into actions.

use vstd::prelude::*;
use crate::action::{Action, ActionView};
use crate::errors::Error;
use crate::message::{MessageData, ToolStatus};
use crate::state::AgentStatus;
use crate::strs::{push_str, push_decimal, dec_spec, string_of, str_eq};

verus! {

/// An event of a pi agent.
#[derive(Debug, Clone)]
pub enum PiEvent {
    /// A new turn starts.
    AgentStart,
    /// The turn ended.
    AgentEnd { stop_reason: String, error: Option<String>, will_retry: Option<bool> },
    /// A message starts.
    MessageStart { role: String },
    /// A message is streaming.
    MessageUpdate {
        assistant_event: AssistantMessageEvent,
        delta: Option<String>,
        message: Option<MessageData>,
    },
    /// A message is complete.
    MessageEnd { message: Option<MessageData> },
    /// A tool call starts.
    ToolExecutionStart { tool_name: String, tool_call_id: String, args: crate::history::Json },
    /// A tool call progresses.
    ToolExecutionUpdate {
        tool_name: String,
        tool_call_id: String,
        partial_result: Option<crate::history::Json>,
    },
    /// A tool call ended.
    ToolExecutionEnd {
        tool_name: String,
        tool_call_id: String,
        result: crate::history::Json,
        is_error: bool,
    },
    /// An extension failed.
    ExtensionError { error: String },
    /// An automatic retry starts.
    AutoRetryStart { attempt: u32, max_attempts: u32, delay_ms: u64, error_message: Option<String> },
    /// The automatic retries ended.
    AutoRetryEnd { success: bool, final_error: Option<String> },
    /// The agent asks the interface for something (status line, notification).
    ExtensionUiRequest { id: String, method: String, params: crate::history::Json },
}

/// The nested `assistantMessageEvent` of a message update.
#[derive(Debug, Clone)]
pub struct AssistantMessageEvent {
    pub event_type: AssistantEventType,
    /// The streamed text, when the event carries some.
    pub delta: Option<String>,
}

/// The kind of a message update.
#[derive(Debug, Clone, Copy, PartialEq, Eq)]
pub enum AssistantEventType {
    TextDelta,
    TextStart,
    TextEnd,
    ThinkingDelta,
    ThinkingEnd,
    ThinkingStart,
    MessageStart,
    MessageEnd,
    ToolCallStart,
    ToolCallDelta,
    ToolCallEnd,
    Done,
    Error,
}

/// The text of an optional string, or `default` when absent.
pub open spec fn or_text(o: Option<String>, default: Seq<char>) -> Seq<char> {
    match o {
        Some(s) => s@,
        None => default,
    }
}

/// The action for an event other than a message update, if any.
pub open spec fn single_action_spec(e: PiEvent, a: Seq<char>) -> Option<ActionView> {
    match e {
        PiEvent::AgentStart => Some(ActionView::AgentStatusChange { agent_id: a, status: AgentStatus::Running }),
        PiEvent::AgentEnd { .. } => Some(ActionView::AgentStatusChange { agent_id: a, status: AgentStatus::Idle }),
        PiEvent::ToolExecutionStart { tool_name, tool_call_id, args } => Some(
            ActionView::ToolEvent {
                agent_id: a,
                tool_name: tool_name@,
                tool_call_id: tool_call_id@,
                status: ToolStatus::Running,
                args: Some(args),
                result: None,
                is_error: false,
            },
        ),
        PiEvent::ToolExecutionEnd { tool_name, tool_call_id, result, is_error } => Some(
            ActionView::ToolEvent {
                agent_id: a,
                tool_name: tool_name@,
                tool_call_id: tool_call_id@,
                status: if is_error { ToolStatus::Error } else { ToolStatus::Done },
                args: None,
                result: Some(result),
                is_error: is_error,
            },
        ),
        PiEvent::ExtensionError { error } => Some(
            ActionView::AutoRetryStatus { agent_id: a, text: "Extension error: "@ + error@ },
        ),
        PiEvent::MessageEnd { message } => Some(
            ActionView::AutoRetryStatus {
                agent_id: a,
                text: "Message end: "@ + match message {
                    Some(m) => or_text(m.error_message, "(message end)"@),
                    None => "(message end)"@,
                },
            },
        ),
        PiEvent::AutoRetryStart { attempt, max_attempts, delay_ms, error_message } => Some(
            ActionView::AutoRetryStatus {
                agent_id: a,
                text: "自动重试 "@ + dec_spec(attempt as nat) + "/"@ + dec_spec(max_attempts as nat)
                    + " ("@ + dec_spec(delay_ms as nat) + "ms 后): "@ + or_text(error_message, "unknown error"@),
            },
        ),
        PiEvent::AutoRetryEnd { success, final_error } => Some(
            ActionView::AutoRetryStatus {
                agent_id: a,
                text: if success {
                    "重试成功"@
                } else {
                    "全部重试失败: "@ + or_text(final_error, "unknown"@)
                },
            },
        ),
        PiEvent::MessageStart { role } => Some(
            ActionView::AutoRetryStatus { agent_id: a, text: "消息开始: role="@ + role@ },
        ),
        _ => None,
    }
}

/// The actions of a message update: the streamed delta as an action (reply
/// text, reasoning, reasoning end, message end), then the content snapshot
/// and, when the snapshot carries an error, a status line with it.
pub open spec fn update_actions_spec(ev: AssistantMessageEvent, message: Option<MessageData>, a: Seq<char>) -> Seq<ActionView> {
    let d = or_text(ev.delta, Seq::empty());
    let first = match ev.event_type {
        AssistantEventType::TextDelta => seq![ActionView::MessageAppend { agent_id: a, text: d }],
        AssistantEventType::ThinkingDelta => seq![ActionView::ThinkingAppend { agent_id: a, text: d }],
        AssistantEventType::ThinkingEnd => seq![ActionView::ThinkingFinalize { agent_id: a, text: d }],
        AssistantEventType::MessageEnd => seq![ActionView::MessageFinalize { agent_id: a }],
        AssistantEventType::Done => seq![ActionView::MessageFinalize { agent_id: a }],
        _ => Seq::empty(),
    };
    let second = match message {
        Some(m) => seq![ActionView::ContentUpdate { agent_id: a, content: m.content.deep_view() }]
            + match m.error_message {
            Some(err) => seq![ActionView::AutoRetryStatus { agent_id: a, text: "错误: "@ + err@ }],
            None => Seq::empty(),
        },
        None => Seq::empty(),
    };
    first + second
}

/// The actions an event becomes.
pub open spec fn translate_spec(e: PiEvent, a: Seq<char>) -> Seq<ActionView> {
    match e {
        PiEvent::MessageUpdate { assistant_event, message, .. } => update_actions_spec(assistant_event, message, a),
        _ => match single_action_spec(e, a) {
            Some(x) => seq![x],
            None => Seq::empty(),
        },
    }
}

/// The text of an optional string, or `default`.
fn or_string(o: Option<String>, default: &str) -> (r: String)
    ensures
        r@ == or_text(o, default@),
{
    match o {
        Some(s) => s,
        None => string_of(default),
    }
}

/// Translates an event other than a message update (see `single_action_spec`).
fn translate_single_action(event: PiEvent, agent_id: &str) -> (r: Option<Action>)
    ensures
        r is None <==> single_action_spec(event, agent_id@) is None,
        r matches Some(x) ==> single_action_spec(event, agent_id@) == Some(x.deep_view()),
{
    let ghost e = event;
    let a = string_of(agent_id);
    match event {
        PiEvent::AgentStart => Some(Action::AgentStatusChange { agent_id: a, status: AgentStatus::Running }),
        PiEvent::AgentEnd { .. } => Some(Action::AgentStatusChange { agent_id: a, status: AgentStatus::Idle }),
        PiEvent::ToolExecutionStart { tool_name, tool_call_id, args } => Some(Action::ToolEvent {
            agent_id: a,
            tool_name,
            tool_call_id,
            status: ToolStatus::Running,
            args: Some(args),
            result: None,
            is_error: false,
        }),
        PiEvent::ToolExecutionEnd { tool_name, tool_call_id, result, is_error } => Some(Action::ToolEvent {
            agent_id: a,
            tool_name,
            tool_call_id,
            status: if is_error {
                ToolStatus::Error
            } else {
                ToolStatus::Done
            },
            args: None,
            result: Some(result),
            is_error,
        }),
        PiEvent::ExtensionError { error } => {
            let mut t = string_of("Extension error: ");
            push_str(&mut t, error.as_str());
            Some(Action::AutoRetryStatus { agent_id: a, text: t })
        },
        PiEvent::MessageEnd { message } => {
            let detail = match message {
                Some(m) => or_string(m.error_message, "(message end)"),
                None => string_of("(message end)"),
            };
            let mut t = string_of("Message end: ");
            push_str(&mut t, detail.as_str());
            Some(Action::AutoRetryStatus { agent_id: a, text: t })
        },
        PiEvent::AutoRetryStart { attempt, max_attempts, delay_ms, error_message } => {
            let err = or_string(error_message, "unknown error");
            let mut t = string_of("自动重试 ");
            push_decimal(&mut t, attempt as u64);
            push_str(&mut t, "/");
            push_decimal(&mut t, max_attempts as u64);
            push_str(&mut t, " (");
            push_decimal(&mut t, delay_ms);
            push_str(&mut t, "ms 后): ");
            push_str(&mut t, err.as_str());
            Some(Action::AutoRetryStatus { agent_id: a, text: t })
        },
        PiEvent::AutoRetryEnd { success, final_error } => {
            if success {
                Some(Action::AutoRetryStatus { agent_id: a, text: string_of("重试成功") })
            } else {
                let err = or_string(final_error, "unknown");
                let mut t = string_of("全部重试失败: ");
                push_str(&mut t, err.as_str());
                Some(Action::AutoRetryStatus { agent_id: a, text: t })
            }
        },
        PiEvent::MessageStart { role } => {
            let mut t = string_of("消息开始: role=");
            push_str(&mut t, role.as_str());
            Some(Action::AutoRetryStatus { agent_id: a, text: t })
        },
        _ => None,
    }
}

/// Appends an action, stating the new list.
fn push_action(v: &mut Vec<Action>, x: Action)
    ensures
        final(v).deep_view() == old(v).deep_view().push(x.deep_view()),
{
    let ghost before = *v;
    v.push(x);
    proof {
        crate::seqs::lemma_deep_view_push(before, *v, x);
    }
}

/// Translates an agent event into actions (see `translate_spec`): a message
/// update gives its delta action and its content snapshot (with a status
/// line for an error); other events give at most one action.
pub fn translate_pi_events(event: PiEvent, agent_id: &str) -> (r: Vec<Action>)
    ensures
        r.deep_view() == translate_spec(event, agent_id@),
{
    let ghost e = event;
    let mut actions: Vec<Action> = Vec::new();
    match event {
        PiEvent::MessageUpdate { assistant_event, delta: _, message } => {
            let ghost ev = assistant_event;
            let ghost msg = message;
            let kind = assistant_event.event_type;
            let d = or_string(assistant_event.delta, "");
            proof {
                reveal_strlit("");
            }
            assert(d@ == or_text(ev.delta, Seq::empty()));
            match kind {
                AssistantEventType::TextDelta => {
                    push_action(&mut actions, Action::MessageAppend { agent_id: string_of(agent_id), text: d });
                },
                AssistantEventType::ThinkingDelta => {
                    push_action(&mut actions, Action::ThinkingAppend { agent_id: string_of(agent_id), text: d });
                },
                AssistantEventType::ThinkingEnd => {
                    push_action(&mut actions, Action::ThinkingFinalize { agent_id: string_of(agent_id), text: d });
                },
                AssistantEventType::MessageEnd | AssistantEventType::Done => {
                    push_action(&mut actions, Action::MessageFinalize { agent_id: string_of(agent_id) });
                },
                _ => {},
            }
            let ghost first = actions.deep_view();
            match message {
                Some(m) => {
                    let MessageData { role: _, content, stop_reason: _, error_message } = m;
                    push_action(&mut actions, Action::ContentUpdate { agent_id: string_of(agent_id), content });
                    match error_message {
                        Some(err) => {
                            let mut t = string_of("错误: ");
                            push_str(&mut t, err.as_str());
                            push_action(&mut actions, Action::AutoRetryStatus { agent_id: string_of(agent_id), text: t });
                        },
                        None => {},
                    }
                },
                None => {},
            }
            assert(actions.deep_view() =~= update_actions_spec(ev, msg, agent_id@));
        },
        other => {
            match translate_single_action(other, agent_id) {
                Some(x) => {
                    push_action(&mut actions, x);
                    assert(actions.deep_view() =~= seq![x.deep_view()]);
                },
                None => {
                    assert(actions.deep_view() =~= Seq::<ActionView>::empty());
                },
            }
        },
    }
    actions
}

/// What to do with a line of agent output, from its `type` field and
/// whether it has a string `id`: `Ok(true)` to read it as an event,
/// `Ok(false)` for a response (answered through the pending requests), and
/// an error text without a type or for a response without an id.
pub open spec fn classify_spec(type_field: Option<Seq<char>>, has_id: bool) -> Result<bool, Seq<char>> {
    match type_field {
        None => Err("PiEvent missing 'type' field"@),
        Some(t) => if t == "response"@ {
            if has_id {
                Ok(false)
            } else {
                Err("response without id field"@)
            }
        } else {
            Ok(true)
        },
    }
}

/// Decides what to do with a line of agent output (see `classify_spec`);
/// errors are channel errors.
pub fn classify_pi_json(type_field: Option<&str>, has_id: bool) -> (r: Result<bool, Error>)
    ensures
        r matches Ok(b) ==> classify_spec(type_field.deep_view(), has_id) == Ok::<bool, Seq<char>>(b),
        r matches Err(e) ==> e is Channel && classify_spec(type_field.deep_view(), has_id)
            == Err::<bool, Seq<char>>(e->Channel_0@),
{
    match type_field {
        None => Err(Error::Channel(string_of("PiEvent missing 'type' field"))),
        Some(t) => {
            if str_eq(t, "response") {
                if has_id {
                    Ok(false)
                } else {
                    Err(Error::Channel(string_of("response without id field")))
                }
            } else {
                Ok(true)
            }
        },
    }
}

/// The error for an event whose fields do not fit its type:
/// `failed to parse PiEvent '<type>': <reason>`.
pub fn event_parse_error(type_field: &str, reason: &str) -> (r: Error)
    ensures
        r is Channel,
        r->Channel_0@ == "failed to parse PiEvent '"@ + type_field@ + "': "@ + reason@,
{
    let mut t = string_of("failed to parse PiEvent '");
    push_str(&mut t, type_field);
    push_str(&mut t, "': ");
    push_str(&mut t, reason);
    Error::Channel(t)
}

} // verus!
