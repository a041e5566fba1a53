//! Domain events for the user interface: connection status and the
//! normalized stream of agent output.

use vstd::prelude::*;
use crate::json::{Json, JsonValue, opt_owned_view};

verus! {

/// Connection lifecycle for the status bar.
#[derive(Clone, Copy, Debug, PartialEq, Eq, Structural)]
pub enum ConnectionStatus {
    Disconnected,
    Connecting,
    Connected,
    Restarting,
    Error,
}

/// What the status bar shows.
#[derive(Debug)]
pub struct ConnectionStatusPayload {
    pub status: ConnectionStatus,
    pub message: Option<String>,
    pub session_id: Option<String>,
    pub cli_path: Option<String>,
}

/// Model of a connection status payload.
pub struct StatusView {
    pub status: ConnectionStatus,
    pub message: Option<Seq<char>>,
    pub session_id: Option<Seq<char>>,
    pub cli_path: Option<Seq<char>>,
}

/// The text of an optional string.
pub open spec fn opt_text(o: Option<String>) -> Option<Seq<char>> {
    match o {
        Some(s) => Some(s@),
        None => None,
    }
}

impl View for ConnectionStatusPayload {
    type V = StatusView;

    open spec fn view(&self) -> StatusView {
        StatusView {
            status: self.status,
            message: opt_text(self.message),
            session_id: opt_text(self.session_id),
            cli_path: opt_text(self.cli_path),
        }
    }
}

/// Normalized domain events for the user interface.
#[derive(Debug)]
pub enum AgentStreamEvent {
    MessageDelta { text: String },
    ThoughtDelta { text: String },
    ToolCall { id: String, kind: String, title: String, input: Option<JsonValue> },
    ToolUpdate { id: String, status: String, output: Option<JsonValue> },
    Plan { entries: JsonValue },
    /// `request_id` is the `id` of the agent's request, as JSON text.
    PermissionRequest { request_id: String, tool_call_id: String, summary: String },
    TurnComplete,
    Error { message: String },
}

/// Model of a stream event.
pub enum StreamEvent {
    MessageDelta { text: Seq<char> },
    ThoughtDelta { text: Seq<char> },
    ToolCall { id: Seq<char>, kind: Seq<char>, title: Seq<char>, input: Option<Json> },
    ToolUpdate { id: Seq<char>, status: Seq<char>, output: Option<Json> },
    Plan { entries: Json },
    PermissionRequest { request_id: Seq<char>, tool_call_id: Seq<char>, summary: Seq<char> },
    TurnComplete,
    Error { message: Seq<char> },
}

impl View for AgentStreamEvent {
    type V = StreamEvent;

    open spec fn view(&self) -> StreamEvent {
        match self {
            AgentStreamEvent::MessageDelta { text } => StreamEvent::MessageDelta { text: text@ },
            AgentStreamEvent::ThoughtDelta { text } => StreamEvent::ThoughtDelta { text: text@ },
            AgentStreamEvent::ToolCall { id, kind, title, input } => StreamEvent::ToolCall {
                id: id@,
                kind: kind@,
                title: title@,
                input: opt_owned_view(*input),
            },
            AgentStreamEvent::ToolUpdate { id, status, output } => StreamEvent::ToolUpdate {
                id: id@,
                status: status@,
                output: opt_owned_view(*output),
            },
            AgentStreamEvent::Plan { entries } => StreamEvent::Plan { entries: entries@ },
            AgentStreamEvent::PermissionRequest { request_id, tool_call_id, summary } =>
                StreamEvent::PermissionRequest {
                request_id: request_id@,
                tool_call_id: tool_call_id@,
                summary: summary@,
            },
            AgentStreamEvent::TurnComplete => StreamEvent::TurnComplete,
            AgentStreamEvent::Error { message } => StreamEvent::Error { message: message@ },
        }
    }
}

/// The models of a sequence of events.
pub open spec fn events_view(evs: Seq<AgentStreamEvent>) -> Seq<StreamEvent> {
    Seq::new(evs.len(), |i: int| evs[i]@)
}

/// Name of the user-interface event that carries connection status.
pub const EVENT_STATUS: &'static str = "acp://status";

/// Name of the user-interface event that carries stream events.
pub const EVENT_STREAM: &'static str = "acp://stream";

} // verus!
