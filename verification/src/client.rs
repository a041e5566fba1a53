//! The client side of the agent connection: the handshake that connects,
//! the requests the client sends, the end of a prompt turn, and the status
//! the user interface shows.

use vstd::prelude::*;
use crate::events::{AgentStreamEvent, ConnectionStatus, ConnectionStatusPayload, StatusView, StreamEvent, events_view};
use crate::json::{Json, JsonValue, get_either, json_rendered, render_json, str_of};
use crate::pending::{PendingRequests, successor};
use crate::rpc::{AcpError, AcpErrorView, error_text, initialize_json, initialize_params, join_text, prompt_json, prompt_params, request_json, request_message, session_new_json, session_new_params};
use crate::text::{ascii_lower, ascii_lowercase_chars, chars_of, contains_chars, has_infix, trim, trimmed};

verus! {

/// The status shown while the agent starts.
pub open spec fn connecting_view() -> StatusView {
    StatusView {
        status: ConnectionStatus::Connecting,
        message: Some("正在启动 Grok Agent…"@),
        session_id: None,
        cli_path: None,
    }
}

/// The status of a connected session.
pub open spec fn connected_view(session_id: Seq<char>, cli_path: Seq<char>) -> StatusView {
    StatusView {
        status: ConnectionStatus::Connected,
        message: Some("已连接"@),
        session_id: Some(session_id),
        cli_path: Some(cli_path),
    }
}

/// A disconnected status with `message`.
pub open spec fn disconnected_view(message: Seq<char>) -> StatusView {
    StatusView {
        status: ConnectionStatus::Disconnected,
        message: Some(message),
        session_id: None,
        cli_path: None,
    }
}

/// A disconnected status with `message`.
pub fn disconnected_status(message: &str) -> (r: ConnectionStatusPayload)
    ensures
        r@ == disconnected_view(message@),
{
    ConnectionStatusPayload {
        status: ConnectionStatus::Disconnected,
        message: Some(message.to_owned()),
        session_id: None,
        cli_path: None,
    }
}

/// The status shown while the agent starts.
pub fn connecting_status() -> (r: ConnectionStatusPayload)
    ensures
        r@ == connecting_view(),
{
    ConnectionStatusPayload {
        status: ConnectionStatus::Connecting,
        message: Some("正在启动 Grok Agent…".to_owned()),
        session_id: None,
        cli_path: None,
    }
}

/// The status of the connected session `session_id` with the CLI at `cli_path`.
pub fn connected_status(session_id: &str, cli_path: &str) -> (r: ConnectionStatusPayload)
    ensures
        r@ == connected_view(session_id@, cli_path@),
{
    ConnectionStatusPayload {
        status: ConnectionStatus::Connected,
        message: Some("已连接".to_owned()),
        session_id: Some(session_id.to_owned()),
        cli_path: Some(cli_path.to_owned()),
    }
}

/// The status when the agent process has exited.
pub fn agent_exited_status() -> (r: ConnectionStatusPayload)
    ensures
        r@ == disconnected_view("Agent 进程已退出"@),
{
    disconnected_status("Agent 进程已退出")
}

/// The status after the client has shut the agent down.
pub fn shutdown_status() -> (r: ConnectionStatusPayload)
    ensures
        r@ == disconnected_view("已断开"@),
{
    disconnected_status("已断开")
}

/// The status to report for the current connection, given the session id
/// and CLI path of the connected client, if there is one.
pub fn connection_status(current: Option<(&str, &str)>) -> (r: ConnectionStatusPayload)
    ensures
        r@ == match current {
            Some((session_id, cli_path)) => connected_view(session_id@, cli_path@),
            None => disconnected_view("未连接"@),
        },
{
    match current {
        Some((session_id, cli_path)) => connected_status(session_id, cli_path),
        None => disconnected_status("未连接"),
    }
}

/// The event for a failure to read the agent's output.
pub fn read_failure_event(detail: &str) -> (r: AgentStreamEvent)
    ensures
        r@ == (StreamEvent::Error { message: "读取 ACP stdout 失败："@ + detail@ }),
{
    AgentStreamEvent::Error { message: join_text("读取 ACP stdout 失败：", detail) }
}

/// A line of the agent's output to handle: the line trimmed, or `None` for a
/// blank line, which is skipped.
pub fn stdout_line(line: &str) -> (r: Option<String>)
    ensures
        match r {
            Some(t) => t@ == trimmed(line@) && t@.len() > 0,
            None => trimmed(line@).len() == 0,
        },
{
    let t = trim(line);
    if t.as_str().is_empty() {
        None
    } else {
        Some(t)
    }
}

/// Sends a request: hands out its id, keeps `waiter` under it, and returns
/// the id and the message to write.
pub fn begin_request<W>(pending: &mut PendingRequests<W>, method: &str, params: JsonValue, waiter: W) -> (r: (u64, JsonValue))
    ensures
        r.0 == old(pending)@.next_id,
        final(pending)@.next_id == successor(old(pending)@.next_id),
        final(pending)@.waiting == old(pending)@.waiting.insert(r.0, waiter),
        r.1@ == request_json(r.0, method@, params@),
{
    let id = pending.register(waiter);
    (id, request_message(id, method, params))
}

/// Gives up waiting for request `id` of `method`: it is no longer waiting,
/// and the caller gets the timeout error.
pub fn request_timed_out<W>(pending: &mut PendingRequests<W>, id: u64, method: &str) -> (r: AcpError)
    ensures
        final(pending)@.next_id == old(pending)@.next_id,
        final(pending)@.waiting == old(pending)@.waiting.remove(id),
        r@ == AcpErrorView::Timeout(method@),
{
    let _ = pending.take(id);
    AcpError::Timeout(method.to_owned())
}

/// Sends `text` as a prompt in session `session_id`: fails when there is no
/// session yet (and registers nothing); otherwise registers `waiter` for the
/// turn's reply and returns the message to write.
pub fn begin_prompt<W>(pending: &mut PendingRequests<W>, session_id: &str, text: &str, waiter: W) -> (r: Result<JsonValue, AcpError>)
    ensures
        session_id@.len() == 0 ==> {
            &&& final(pending)@ == old(pending)@
            &&& r matches Err(e) && e@ == AcpErrorView::Message("尚未创建会话"@)
        },
        session_id@.len() > 0 ==> {
            &&& final(pending)@.next_id == successor(old(pending)@.next_id)
            &&& final(pending)@.waiting == old(pending)@.waiting.insert(old(pending)@.next_id, waiter)
            &&& r matches Ok(m) && m@ == request_json(
                old(pending)@.next_id,
                "session/prompt"@,
                prompt_json(session_id@, text@),
            )
        },
{
    if session_id.is_empty() {
        return Err(AcpError::Message("尚未创建会话".to_owned()));
    }
    let (_, msg) = begin_request(pending, "session/prompt", prompt_params(session_id, text), waiter);
    Ok(msg)
}

/// How a prompt turn ended: with the reply (or the error it carried), or with
/// no reply in time.
pub enum TurnOutcome {
    Replied(Result<JsonValue, AcpError>),
    NoReply,
}

/// The events that close a prompt turn: an error first when there is one,
/// then `TurnComplete`.
pub open spec fn turn_end_events(outcome: Option<Result<Json, AcpErrorView>>) -> Seq<StreamEvent> {
    match outcome {
        Some(Ok(_)) => seq![StreamEvent::TurnComplete],
        Some(Err(e)) => seq![StreamEvent::Error { message: error_text(e) }, StreamEvent::TurnComplete],
        None => seq![StreamEvent::Error { message: "等待模型回复超时"@ }, StreamEvent::TurnComplete],
    }
}

/// Model of how a turn ended.
pub open spec fn turn_view(t: TurnOutcome) -> Option<Result<Json, AcpErrorView>> {
    match t {
        TurnOutcome::Replied(Ok(v)) => Some(Ok(v@)),
        TurnOutcome::Replied(Err(e)) => Some(Err(e@)),
        TurnOutcome::NoReply => None,
    }
}

/// The events that close a prompt turn.
pub fn turn_events(outcome: TurnOutcome) -> (r: Vec<AgentStreamEvent>)
    ensures
        events_view(r@) == turn_end_events(turn_view(outcome)),
{
    let mut out: Vec<AgentStreamEvent> = Vec::new();
    match outcome {
        TurnOutcome::Replied(Ok(_)) => {},
        TurnOutcome::Replied(Err(e)) => {
            out.push(AgentStreamEvent::Error { message: e.to_text() });
        },
        TurnOutcome::NoReply => {
            out.push(AgentStreamEvent::Error { message: "等待模型回复超时".to_owned() });
        },
    }
    out.push(AgentStreamEvent::TurnComplete);
    assert(events_view(out@) =~= turn_end_events(turn_view(outcome)));
    out
}

/// Where the connection handshake stands.
pub enum ConnectPhase {
    /// Looking for the CLI.
    Resolving,
    /// Starting `<cli_path> agent stdio`.
    Spawning { cli_path: String },
    /// Waiting for the reply to `initialize`.
    Initializing { cli_path: String },
    /// Waiting for the reply to `session/new`.
    OpeningSession { cli_path: String },
    /// Connected to session `session_id`.
    Connected { cli_path: String, session_id: String },
    /// The handshake failed.
    Failed,
}

/// What happened since the last step of the handshake.
pub enum ConnectEvent {
    /// The CLI was found at this path, or not found.
    PathResolved(Option<String>),
    /// The agent process started, or could not start (with the reason).
    Spawned(Result<(), String>),
    /// The reply to the request in flight (or the error that ended it).
    Replied(Result<JsonValue, AcpError>),
}

/// Why the handshake failed.
pub enum ConnectFailure {
    Error(AcpError),
    /// `session/new` answered without a session id; this is its reply.
    NoSessionId(JsonValue),
}

/// What the driver of the handshake does next.
pub enum ConnectAction {
    /// Start `<program> agent stdio` in the working directory.
    Spawn { program: String },
    /// Send this request and wait for its reply.
    Request { method: String, params: JsonValue },
    /// The client is connected; report this status.
    Finish(ConnectionStatusPayload),
    /// The handshake failed.
    Fail(ConnectFailure),
}

/// Model of the handshake phase.
pub enum PhaseView {
    Resolving,
    Spawning { cli_path: Seq<char> },
    Initializing { cli_path: Seq<char> },
    OpeningSession { cli_path: Seq<char> },
    Connected { cli_path: Seq<char>, session_id: Seq<char> },
    Failed,
}

impl View for ConnectPhase {
    type V = PhaseView;

    open spec fn view(&self) -> PhaseView {
        match self {
            ConnectPhase::Resolving => PhaseView::Resolving,
            ConnectPhase::Spawning { cli_path } => PhaseView::Spawning { cli_path: cli_path@ },
            ConnectPhase::Initializing { cli_path } => PhaseView::Initializing { cli_path: cli_path@ },
            ConnectPhase::OpeningSession { cli_path } => PhaseView::OpeningSession {
                cli_path: cli_path@,
            },
            ConnectPhase::Connected { cli_path, session_id } => PhaseView::Connected {
                cli_path: cli_path@,
                session_id: session_id@,
            },
            ConnectPhase::Failed => PhaseView::Failed,
        }
    }
}

/// Model of a handshake event.
pub enum EventView {
    PathResolved(Option<Seq<char>>),
    Spawned(Result<(), Seq<char>>),
    Replied(Result<Json, AcpErrorView>),
}

impl View for ConnectEvent {
    type V = EventView;

    open spec fn view(&self) -> EventView {
        match self {
            ConnectEvent::PathResolved(Some(p)) => EventView::PathResolved(Some(p@)),
            ConnectEvent::PathResolved(None) => EventView::PathResolved(None),
            ConnectEvent::Spawned(Ok(())) => EventView::Spawned(Ok(())),
            ConnectEvent::Spawned(Err(d)) => EventView::Spawned(Err(d@)),
            ConnectEvent::Replied(Ok(v)) => EventView::Replied(Ok(v@)),
            ConnectEvent::Replied(Err(e)) => EventView::Replied(Err(e@)),
        }
    }
}

/// Model of a failure.
pub enum FailureView {
    Error(AcpErrorView),
    NoSessionId(Json),
}

/// Model of an action.
pub enum ActionView {
    Spawn { program: Seq<char> },
    Request { method: Seq<char>, params: Json },
    Finish(StatusView),
    Fail(FailureView),
}

impl View for ConnectAction {
    type V = ActionView;

    open spec fn view(&self) -> ActionView {
        match self {
            ConnectAction::Spawn { program } => ActionView::Spawn { program: program@ },
            ConnectAction::Request { method, params } => ActionView::Request {
                method: method@,
                params: params@,
            },
            ConnectAction::Finish(status) => ActionView::Finish(status@),
            ConnectAction::Fail(ConnectFailure::Error(e)) => ActionView::Fail(FailureView::Error(e@)),
            ConnectAction::Fail(ConnectFailure::NoSessionId(v)) => ActionView::Fail(
                FailureView::NoSessionId(v@),
            ),
        }
    }
}

/// Whether `event` is the kind of event that `phase` waits for.
pub open spec fn phase_accepts(phase: PhaseView, event: EventView) -> bool {
    match (phase, event) {
        (PhaseView::Resolving, EventView::PathResolved(_)) => true,
        (PhaseView::Spawning { .. }, EventView::Spawned(_)) => true,
        (PhaseView::Initializing { .. }, EventView::Replied(_)) => true,
        (PhaseView::OpeningSession { .. }, EventView::Replied(_)) => true,
        _ => false,
    }
}

/// Whether `event` is the kind of event that `phase` waits for.
pub fn accepts(phase: &ConnectPhase, event: &ConnectEvent) -> (r: bool)
    ensures
        r == phase_accepts(phase@, event@),
{
    match (phase, event) {
        (ConnectPhase::Resolving, ConnectEvent::PathResolved(_)) => true,
        (ConnectPhase::Spawning { .. }, ConnectEvent::Spawned(_)) => true,
        (ConnectPhase::Initializing { .. }, ConnectEvent::Replied(_)) => true,
        (ConnectPhase::OpeningSession { .. }, ConnectEvent::Replied(_)) => true,
        _ => false,
    }
}

/// The session id in the reply to `session/new`: `sessionId`, or
/// `session_id` when that member is missing, when it is text.
pub open spec fn session_id_of(reply: Json) -> Option<Seq<char>> {
    str_of(get_either(reply, "sessionId"@, "session_id"@))
}

/// One step of the handshake: from `phase`, after `event`, the next phase and
/// what to do. The handshake finds the CLI, starts it, sends `initialize`,
/// then `session/new`, and is connected to the session that the latter names.
pub open spec fn connect_transition(phase: PhaseView, event: EventView, cwd: Seq<char>, client_version: Seq<char>) -> (PhaseView, ActionView) {
    match (phase, event) {
        (PhaseView::Resolving, EventView::PathResolved(None)) => (
            PhaseView::Failed,
            ActionView::Fail(FailureView::Error(AcpErrorView::Cli("未找到 grok 可执行文件"@))),
        ),
        (PhaseView::Resolving, EventView::PathResolved(Some(p))) => (
            PhaseView::Spawning { cli_path: p },
            ActionView::Spawn { program: p },
        ),
        (PhaseView::Spawning { cli_path }, EventView::Spawned(Err(d))) => (
            PhaseView::Failed,
            ActionView::Fail(
                FailureView::Error(
                    AcpErrorView::Cli("无法启动 `"@ + cli_path + " agent stdio`："@ + d),
                ),
            ),
        ),
        (PhaseView::Spawning { cli_path }, EventView::Spawned(Ok(()))) => (
            PhaseView::Initializing { cli_path },
            ActionView::Request { method: "initialize"@, params: initialize_json(client_version) },
        ),
        (PhaseView::Initializing { cli_path }, EventView::Replied(Ok(_))) => (
            PhaseView::OpeningSession { cli_path },
            ActionView::Request { method: "session/new"@, params: session_new_json(cwd) },
        ),
        (PhaseView::OpeningSession { cli_path }, EventView::Replied(Ok(reply))) => match session_id_of(
            reply,
        ) {
            Some(session_id) => (
                PhaseView::Connected { cli_path, session_id },
                ActionView::Finish(connected_view(session_id, cli_path)),
            ),
            None => (PhaseView::Failed, ActionView::Fail(FailureView::NoSessionId(reply))),
        },
        (_, EventView::Replied(Err(e))) => (PhaseView::Failed, ActionView::Fail(FailureView::Error(e))),
        _ => (phase, ActionView::Fail(FailureView::Error(AcpErrorView::Message(Seq::empty())))),
    }
}

/// The start of the handshake: the phase, and the status to report.
pub fn connect_begin() -> (r: (ConnectPhase, ConnectionStatusPayload))
    ensures
        r.0@ == PhaseView::Resolving,
        r.1@ == connecting_view(),
{
    (ConnectPhase::Resolving, connecting_status())
}

/// The error when the reply `reply` to `session/new` names no session; the
/// reply is shown as its JSON text.
pub fn missing_session_id_error(reply: &JsonValue) -> (r: AcpError)
    ensures
        r@ == AcpErrorView::Rpc("session/new 未返回 sessionId："@ + json_rendered(reply@)),
{
    AcpError::Rpc(join_text("session/new 未返回 sessionId：", render_json(reply).as_str()))
}

/// One step of the handshake (see `connect_transition`); `cwd` is the working
/// directory of the session and `client_version` the version the client
/// announces.
pub fn connect_step(phase: ConnectPhase, event: ConnectEvent, cwd: &str, client_version: &str) -> (r: (ConnectPhase, ConnectAction))
    requires
        phase_accepts(phase@, event@),
    ensures
        (r.0@, r.1@) == connect_transition(phase@, event@, cwd@, client_version@),
{
    match (phase, event) {
        (ConnectPhase::Resolving, ConnectEvent::PathResolved(None)) => (
            ConnectPhase::Failed,
            ConnectAction::Fail(
                ConnectFailure::Error(AcpError::Cli("未找到 grok 可执行文件".to_owned())),
            ),
        ),
        (ConnectPhase::Resolving, ConnectEvent::PathResolved(Some(p))) => {
            let program = p.clone();
            (ConnectPhase::Spawning { cli_path: p }, ConnectAction::Spawn { program })
        },
        (ConnectPhase::Spawning { cli_path }, ConnectEvent::Spawned(Err(d))) => {
            let head = join_text("无法启动 `", cli_path.as_str());
            let mid = head.concat(" agent stdio`：");
            let message = mid.concat(d.as_str());
            (
                ConnectPhase::Failed,
                ConnectAction::Fail(ConnectFailure::Error(AcpError::Cli(message))),
            )
        },
        (ConnectPhase::Spawning { cli_path }, ConnectEvent::Spawned(Ok(()))) => (
            ConnectPhase::Initializing { cli_path },
            ConnectAction::Request {
                method: "initialize".to_owned(),
                params: initialize_params(client_version),
            },
        ),
        (ConnectPhase::Initializing { cli_path }, ConnectEvent::Replied(Ok(_))) => (
            ConnectPhase::OpeningSession { cli_path },
            ConnectAction::Request {
                method: "session/new".to_owned(),
                params: session_new_params(cwd),
            },
        ),
        (ConnectPhase::OpeningSession { cli_path }, ConnectEvent::Replied(Ok(reply))) => {
            let found = match reply.get_either("sessionId", "session_id") {
                Some(v) => v.as_str(),
                None => None,
            };
            match found {
                Some(sid) => {
                    let session_id = sid.to_owned();
                    let status = connected_status(session_id.as_str(), cli_path.as_str());
                    (
                        ConnectPhase::Connected { cli_path, session_id },
                        ConnectAction::Finish(status),
                    )
                },
                None => (ConnectPhase::Failed, ConnectAction::Fail(ConnectFailure::NoSessionId(reply))),
            }
        },
        (_, ConnectEvent::Replied(Err(e))) => (
            ConnectPhase::Failed,
            ConnectAction::Fail(ConnectFailure::Error(e)),
        ),
        (p, _) => (p, ConnectAction::Fail(ConnectFailure::Error(AcpError::Message(String::new())))),
    }
}

/// Whether a line that the CLI wrote to its standard error (in lower case)
/// looks like a failure the user should see.
pub open spec fn stderr_is_notable(lower: Seq<char>) -> bool {
    ||| has_infix(lower, "error"@)
    ||| has_infix(lower, "auth"@)
    ||| has_infix(lower, "unauthor"@)
    ||| has_infix(lower, "login"@)
    ||| has_infix(lower, "failed"@)
}

/// The event for a line that the CLI wrote to its standard error: blank lines
/// and routine logs give none; a line that mentions an error, authentication,
/// login or a failure (in any ASCII case) is shown, trimmed, behind `CLI: `.
pub fn stderr_notice(line: &str) -> (r: Option<AgentStreamEvent>)
    ensures
        ({
            let t = trimmed(line@);
            match r {
                Some(e) => t.len() > 0 && stderr_is_notable(ascii_lower(t)) && e@ == (
                StreamEvent::Error { message: "CLI: "@ + t }),
                None => t.len() == 0 || !stderr_is_notable(ascii_lower(t)),
            }
        }),
        ({
            let t = trimmed(line@);
            let lower = ascii_lower(t);
            (has_infix(lower, "error"@) || has_infix(lower, "auth"@) || has_infix(lower, "unauthor"@)
                || has_infix(lower, "login"@) || has_infix(lower, "failed"@)) ==> (r matches Some(e)
                && e@ == (StreamEvent::Error { message: "CLI: "@ + t }))
        }),
{
    let t = trim(line);
    if t.as_str().is_empty() {
        proof {
            reveal_strlit("error");
            reveal_strlit("auth");
            reveal_strlit("unauthor");
            reveal_strlit("login");
            reveal_strlit("failed");
        }
        return None;
    }
    let lower = ascii_lowercase_chars(t.as_str());
    let notable = contains_chars(&lower, &chars_of("error")) || contains_chars(&lower, &chars_of("auth"))
        || contains_chars(&lower, &chars_of("unauthor")) || contains_chars(&lower, &chars_of("login"))
        || contains_chars(&lower, &chars_of("failed"));
    if notable {
        Some(AgentStreamEvent::Error { message: join_text("CLI: ", t.as_str()) })
    } else {
        None
    }
}

} // verus!
