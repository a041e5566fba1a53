//! The JSON-RPC side of the agent connection: errors, the messages the
//! client writes, the routing of the lines the agent writes, and the
//! handling of the agent's own requests.

use vstd::prelude::*;
use crate::events::{AgentStreamEvent, StreamEvent, events_view};
use crate::json::{str_of, opt_owned_view, opt_view, Json, JsonNumber, JsonValue, Num, entries_view, items_view, lemma_array_view, lemma_object_view, json_id_as_u64, id_of, parsed_view, json_parse, json_rendered, parse_json_line, render_json};
use crate::pending::PendingRequests;
use crate::session_update::{map_session_update, session_update_events};
use crate::text::{same_text, contains_text, ends_with_text, has_infix, has_suffix};

verus! {

/// Errors of the agent connection.
#[derive(Debug)]
pub enum AcpError {
    Message(String),
    Cli(String),
    Timeout(String),
    Rpc(String),
    /// An I/O failure, with the text of the underlying error.
    Io(String),
}

/// Model of an error.
pub enum AcpErrorView {
    Message(Seq<char>),
    Cli(Seq<char>),
    Timeout(Seq<char>),
    Rpc(Seq<char>),
    Io(Seq<char>),
}

impl View for AcpError {
    type V = AcpErrorView;

    open spec fn view(&self) -> AcpErrorView {
        match self {
            AcpError::Message(m) => AcpErrorView::Message(m@),
            AcpError::Cli(m) => AcpErrorView::Cli(m@),
            AcpError::Timeout(m) => AcpErrorView::Timeout(m@),
            AcpError::Rpc(m) => AcpErrorView::Rpc(m@),
            AcpError::Io(m) => AcpErrorView::Io(m@),
        }
    }
}

/// The text shown for an error.
pub open spec fn error_text(e: AcpErrorView) -> Seq<char> {
    match e {
        AcpErrorView::Message(m) => m,
        AcpErrorView::Cli(m) => "CLI 未安装或无法启动："@ + m,
        AcpErrorView::Timeout(m) => "ACP 请求超时："@ + m,
        AcpErrorView::Rpc(m) => "JSON-RPC 错误："@ + m,
        AcpErrorView::Io(m) => "IO："@ + m,
    }
}

/// `a` followed by `b`.
pub fn join_text(a: &str, b: &str) -> (r: String)
    ensures
        r@ == a@ + b@,
{
    a.to_owned().concat(b)
}

impl AcpError {
    /// The text shown for the error.
    pub fn to_text(&self) -> (r: String)
        ensures
            r@ == error_text(self@),
    {
        match self {
            AcpError::Message(m) => m.clone(),
            AcpError::Cli(m) => join_text("CLI 未安装或无法启动：", m.as_str()),
            AcpError::Timeout(m) => join_text("ACP 请求超时：", m.as_str()),
            AcpError::Rpc(m) => join_text("JSON-RPC 错误：", m.as_str()),
            AcpError::Io(m) => join_text("IO：", m.as_str()),
        }
    }
}

/// The model of an object whose members are `members`, in order.
pub open spec fn object_of(members: Seq<(Seq<char>, Json)>) -> Json {
    Json::Object(members)
}

/// A JSON string.
pub fn json_text(s: &str) -> (r: JsonValue)
    ensures
        r@ == Json::Str(s@),
{
    JsonValue::String(s.to_owned())
}

/// Appends the member `key: value` to `members`.
fn add_member(members: &mut Vec<(String, JsonValue)>, key: &str, value: JsonValue)
    ensures
        entries_view(final(members)@) == entries_view(old(members)@).push((key@, value@)),
{
    let ghost before = members@;
    members.push((key.to_owned(), value));
    assert(entries_view(members@) =~= entries_view(before).push((key@, value@)));
}

/// A request: `{ jsonrpc: "2.0", id, method, params }`.
pub open spec fn request_json(id: u64, method: Seq<char>, params: Json) -> Json {
    object_of(
        seq![
            ("jsonrpc"@, Json::Str("2.0"@)),
            ("id"@, Json::Number(Num::PosInt(id))),
            ("method"@, Json::Str(method)),
            ("params"@, params),
        ],
    )
}

/// A reply to the agent: `{ jsonrpc: "2.0", id, result }`.
pub open spec fn response_json(id: Json, result: Json) -> Json {
    object_of(seq![("jsonrpc"@, Json::Str("2.0"@)), ("id"@, id), ("result"@, result)])
}

/// The result that answers a permission request: the option `allow-once`
/// when allowed, the cancelled outcome otherwise.
pub open spec fn permission_result(allow: bool) -> Json {
    if allow {
        object_of(
            seq![
                ("outcome"@, object_of(
                    seq![
                        ("outcome"@, Json::Str("selected"@)),
                        ("optionId"@, Json::Str("allow-once"@)),
                    ],
                )),
            ],
        )
    } else {
        object_of(
            seq![("outcome"@, object_of(seq![("outcome"@, Json::Str("cancelled"@))]))],
        )
    }
}

/// The parameters of `initialize`.
pub open spec fn initialize_json(client_version: Seq<char>) -> Json {
    object_of(
        seq![
            ("protocolVersion"@, Json::Number(Num::PosInt(1))),
            ("clientInfo"@, object_of(
                seq![
                    ("name"@, Json::Str("grok-build-desktop"@)),
                    ("version"@, Json::Str(client_version)),
                ],
            )),
            ("clientCapabilities"@, object_of(
                seq![
                    ("fs"@, object_of(
                        seq![
                            ("readTextFile"@, Json::Bool(true)),
                            ("writeTextFile"@, Json::Bool(false)),
                        ],
                    )),
                    ("terminal"@, Json::Bool(false)),
                ],
            )),
        ],
    )
}

/// The parameters of `session/new`.
pub open spec fn session_new_json(cwd: Seq<char>) -> Json {
    object_of(seq![("cwd"@, Json::Str(cwd)), ("mcpServers"@, Json::Array(Seq::empty()))])
}

/// The parameters of `session/prompt`: one text block.
pub open spec fn prompt_json(session_id: Seq<char>, text: Seq<char>) -> Json {
    object_of(
        seq![
            ("sessionId"@, Json::Str(session_id)),
            ("prompt"@, Json::Array(
                seq![
                    object_of(seq![("type"@, Json::Str("text"@)), ("text"@, Json::Str(text))]),
                ],
            )),
        ],
    )
}

/// The request message `{ jsonrpc: "2.0", id, method, params }`.
pub fn request_message(id: u64, method: &str, params: JsonValue) -> (r: JsonValue)
    ensures
        r@ == request_json(id, method@, params@),
{
    let mut m: Vec<(String, JsonValue)> = Vec::new();
    proof {
        assert(entries_view(m@) =~= Seq::<(Seq<char>, Json)>::empty());
    }
    add_member(&mut m, "jsonrpc", json_text("2.0"));
    add_member(&mut m, "id", JsonValue::Number(JsonNumber::PosInt(id)));
    add_member(&mut m, "method", json_text(method));
    add_member(&mut m, "params", params);
    proof {
        lemma_object_view(m);
        assert(entries_view(m@) =~= request_json(id, method@, params@)->Object_0);
    }
    JsonValue::Object(m)
}

/// The reply message `{ jsonrpc: "2.0", id, result }`.
pub fn response_message(id: JsonValue, result: JsonValue) -> (r: JsonValue)
    ensures
        r@ == response_json(id@, result@),
{
    let mut m: Vec<(String, JsonValue)> = Vec::new();
    proof {
        assert(entries_view(m@) =~= Seq::<(Seq<char>, Json)>::empty());
    }
    add_member(&mut m, "jsonrpc", json_text("2.0"));
    add_member(&mut m, "id", id);
    add_member(&mut m, "result", result);
    proof {
        lemma_object_view(m);
        assert(entries_view(m@) =~= response_json(id@, result@)->Object_0);
    }
    JsonValue::Object(m)
}

/// The answer to a permission request.
pub fn permission_result_value(allow: bool) -> (r: JsonValue)
    ensures
        r@ == permission_result(allow),
{
    let mut inner: Vec<(String, JsonValue)> = Vec::new();
    proof {
        assert(entries_view(inner@) =~= Seq::<(Seq<char>, Json)>::empty());
    }
    if allow {
        add_member(&mut inner, "outcome", json_text("selected"));
        add_member(&mut inner, "optionId", json_text("allow-once"));
        assert(entries_view(inner@) =~= seq![
            ("outcome"@, Json::Str("selected"@)),
            ("optionId"@, Json::Str("allow-once"@)),
        ]);
    } else {
        add_member(&mut inner, "outcome", json_text("cancelled"));
        assert(entries_view(inner@) =~= seq![("outcome"@, Json::Str("cancelled"@))]);
    }
    let ghost inner_view = entries_view(inner@);
    proof {
        lemma_object_view(inner);
    }
    let mut outer: Vec<(String, JsonValue)> = Vec::new();
    proof {
        assert(entries_view(outer@) =~= Seq::<(Seq<char>, Json)>::empty());
    }
    add_member(&mut outer, "outcome", JsonValue::Object(inner));
    proof {
        lemma_object_view(outer);
        assert(entries_view(outer@) =~= permission_result(allow)->Object_0);
    }
    JsonValue::Object(outer)
}

/// The message that answers the agent's permission request `request_id`
/// (allowing once, or cancelling).
pub fn respond_permission(request_id: JsonValue, allow: bool) -> (r: JsonValue)
    ensures
        r@ == response_json(request_id@, permission_result(allow)),
{
    response_message(request_id, permission_result_value(allow))
}

/// The parameters of `initialize`, for a client of version `client_version`.
pub fn initialize_params(client_version: &str) -> (r: JsonValue)
    ensures
        r@ == initialize_json(client_version@),
{
    let mut info: Vec<(String, JsonValue)> = Vec::new();
    proof {
        assert(entries_view(info@) =~= Seq::<(Seq<char>, Json)>::empty());
    }
    add_member(&mut info, "name", json_text("grok-build-desktop"));
    add_member(&mut info, "version", json_text(client_version));
    proof {
        lemma_object_view(info);
        assert(entries_view(info@) =~= seq![
            ("name"@, Json::Str("grok-build-desktop"@)),
            ("version"@, Json::Str(client_version@)),
        ]);
    }
    let mut fs: Vec<(String, JsonValue)> = Vec::new();
    proof {
        assert(entries_view(fs@) =~= Seq::<(Seq<char>, Json)>::empty());
    }
    add_member(&mut fs, "readTextFile", JsonValue::Bool(true));
    add_member(&mut fs, "writeTextFile", JsonValue::Bool(false));
    proof {
        lemma_object_view(fs);
        assert(entries_view(fs@) =~= seq![
            ("readTextFile"@, Json::Bool(true)),
            ("writeTextFile"@, Json::Bool(false)),
        ]);
    }
    let ghost fs_view = JsonValue::Object(fs)@;
    let mut caps: Vec<(String, JsonValue)> = Vec::new();
    proof {
        assert(entries_view(caps@) =~= Seq::<(Seq<char>, Json)>::empty());
    }
    add_member(&mut caps, "fs", JsonValue::Object(fs));
    add_member(&mut caps, "terminal", JsonValue::Bool(false));
    proof {
        lemma_object_view(caps);
        assert(entries_view(caps@) =~= seq![("fs"@, fs_view), ("terminal"@, Json::Bool(false))]);
    }
    let mut m: Vec<(String, JsonValue)> = Vec::new();
    proof {
        assert(entries_view(m@) =~= Seq::<(Seq<char>, Json)>::empty());
    }
    add_member(&mut m, "protocolVersion", JsonValue::Number(JsonNumber::PosInt(1)));
    add_member(&mut m, "clientInfo", JsonValue::Object(info));
    add_member(&mut m, "clientCapabilities", JsonValue::Object(caps));
    proof {
        lemma_object_view(m);
        assert(entries_view(m@) =~= initialize_json(client_version@)->Object_0);
    }
    JsonValue::Object(m)
}

/// The parameters of `session/new` for the working directory `cwd`.
pub fn session_new_params(cwd: &str) -> (r: JsonValue)
    ensures
        r@ == session_new_json(cwd@),
{
    let servers: Vec<JsonValue> = Vec::new();
    proof {
        lemma_array_view(servers);
        assert(items_view(servers@) =~= Seq::<Json>::empty());
    }
    let mut m: Vec<(String, JsonValue)> = Vec::new();
    proof {
        assert(entries_view(m@) =~= Seq::<(Seq<char>, Json)>::empty());
    }
    add_member(&mut m, "cwd", json_text(cwd));
    add_member(&mut m, "mcpServers", JsonValue::Array(servers));
    proof {
        lemma_object_view(m);
        assert(entries_view(m@) =~= session_new_json(cwd@)->Object_0);
    }
    JsonValue::Object(m)
}

/// The parameters of `session/prompt` that send `text` in session `session_id`.
pub fn prompt_params(session_id: &str, text: &str) -> (r: JsonValue)
    ensures
        r@ == prompt_json(session_id@, text@),
{
    let mut block: Vec<(String, JsonValue)> = Vec::new();
    proof {
        assert(entries_view(block@) =~= Seq::<(Seq<char>, Json)>::empty());
    }
    add_member(&mut block, "type", json_text("text"));
    add_member(&mut block, "text", json_text(text));
    proof {
        lemma_object_view(block);
        assert(entries_view(block@) =~= seq![
            ("type"@, Json::Str("text"@)),
            ("text"@, Json::Str(text@)),
        ]);
    }
    let mut blocks: Vec<JsonValue> = Vec::new();
    blocks.push(JsonValue::Object(block));
    proof {
        lemma_array_view(blocks);
        assert(items_view(blocks@) =~= prompt_json(session_id@, text@)->Object_0[1].1->Array_0);
    }
    let mut m: Vec<(String, JsonValue)> = Vec::new();
    proof {
        assert(entries_view(m@) =~= Seq::<(Seq<char>, Json)>::empty());
    }
    add_member(&mut m, "sessionId", json_text(session_id));
    add_member(&mut m, "prompt", JsonValue::Array(blocks));
    proof {
        lemma_object_view(m);
        assert(entries_view(m@) =~= prompt_json(session_id@, text@)->Object_0);
    }
    JsonValue::Object(m)
}

/// What a reply to one of the client's requests carries: its `result` (null
/// when missing), or its `error` member when it has one.
#[derive(Debug)]
pub enum RpcReply {
    Success(JsonValue),
    Failure(JsonValue),
}

/// Model of a reply.
pub enum ReplyView {
    Success(Json),
    Failure(Json),
}

impl View for RpcReply {
    type V = ReplyView;

    open spec fn view(&self) -> ReplyView {
        match self {
            RpcReply::Success(v) => ReplyView::Success(v@),
            RpcReply::Failure(e) => ReplyView::Failure(e@),
        }
    }
}

/// The reply that the message `msg` carries.
pub open spec fn reply_of(msg: Json) -> ReplyView {
    match msg.get("error"@) {
        Some(e) => ReplyView::Failure(e),
        None => ReplyView::Success(
            match msg.get("result"@) {
                Some(r) => r,
                None => Json::Null,
            },
        ),
    }
}

/// Whether a notification method is a session update (`session/update`,
/// possibly behind a prefix).
pub open spec fn is_session_update(method: Seq<char>) -> bool {
    method == "session/update"@ || has_suffix(method, "session/update"@)
}

/// Whether a request of the agent asks for a permission.
pub open spec fn is_permission_method(method: Seq<char>) -> bool {
    has_infix(method, "permission"@) || has_suffix(method, "request_permission"@)
}

/// Model of where a message from the agent goes.
pub enum RouteView {
    /// A reply to the client's request number `id` (none when the id is not
    /// one the client could have sent).
    Reply { id: Option<u64>, reply: ReplyView },
    /// A request of the agent (it has an `id` and a string `method`).
    AgentRequest { id: Json, method: Seq<char>, params: Json },
    /// A `session/update` notification and its parameters, if any.
    SessionUpdate { params: Option<Json> },
    /// Anything else.
    Ignore,
}

/// Where a message from the agent goes: a message with an `id` and no
/// `method` is a reply; with an `id` and a string `method`, a request of the
/// agent; with a string `method` only, a notification, of which only session
/// updates are read.
pub open spec fn route_of(msg: Json) -> RouteView {
    let method = str_of(msg.get("method"@));
    let notification = match method {
        Some(m) => if is_session_update(m) {
            RouteView::SessionUpdate { params: msg.get("params"@) }
        } else {
            RouteView::Ignore
        },
        None => RouteView::Ignore,
    };
    match msg.get("id"@) {
        Some(id) => if msg.get("method"@) is None {
            RouteView::Reply { id: id_of(id), reply: reply_of(msg) }
        } else {
            match method {
                Some(m) => RouteView::AgentRequest {
                    id,
                    method: m,
                    params: match msg.get("params"@) {
                        Some(p) => p,
                        None => Json::Null,
                    },
                },
                None => notification,
            }
        },
        None => notification,
    }
}

/// Where a message from the agent goes.
pub enum Route {
    Reply { id: Option<u64>, reply: RpcReply },
    AgentRequest { id: JsonValue, method: String, params: JsonValue },
    SessionUpdate { params: Option<JsonValue> },
    Ignore,
}

impl View for Route {
    type V = RouteView;

    open spec fn view(&self) -> RouteView {
        match self {
            Route::Reply { id, reply } => RouteView::Reply { id: *id, reply: reply@ },
            Route::AgentRequest { id, method, params } => RouteView::AgentRequest {
                id: id@,
                method: method@,
                params: params@,
            },
            Route::SessionUpdate { params } => RouteView::SessionUpdate {
                params: opt_owned_view(*params),
            },
            Route::Ignore => RouteView::Ignore,
        }
    }
}

/// The reply that `msg` carries.
fn reply_in(msg: &JsonValue) -> (r: RpcReply)
    ensures
        r@ == reply_of(msg@),
{
    match msg.get("error") {
        Some(e) => RpcReply::Failure(e.duplicate()),
        None => RpcReply::Success(
            match msg.get("result") {
                Some(v) => v.duplicate(),
                None => JsonValue::Null,
            },
        ),
    }
}

/// Where the message `msg` from the agent goes.
pub fn route_message(msg: &JsonValue) -> (r: Route)
    ensures
        r@ == route_of(msg@),
{
    let method = msg.get_str("method");
    let update = match method {
        Some(m) => same_text(m, "session/update") || ends_with_text(m, "session/update"),
        None => false,
    };
    match msg.get("id") {
        Some(id) => {
            if msg.get("method").is_none() {
                return Route::Reply { id: json_id_as_u64(id), reply: reply_in(msg) };
            }
            if let Some(m) = method {
                let params = match msg.get("params") {
                    Some(p) => p.duplicate(),
                    None => JsonValue::Null,
                };
                return Route::AgentRequest { id: id.duplicate(), method: m.to_owned(), params };
            }
        },
        None => {},
    }
    if update {
        Route::SessionUpdate {
            params: match msg.get("params") {
                Some(p) => Some(p.duplicate()),
                None => None,
            },
        }
    } else {
        Route::Ignore
    }
}

/// `v.a.b` (the JSON pointer `/a/b` with two plain member names).
pub open spec fn member_path(v: Json, a: Seq<char>, b: Seq<char>) -> Option<Json> {
    match v.get(a) {
        Some(x) => x.get(b),
        None => None,
    }
}

/// `o`, or `other` when `o` is `None`.
pub open spec fn or_else(o: Option<Json>, other: Option<Json>) -> Option<Json> {
    match o {
        Some(x) => Some(x),
        None => other,
    }
}

/// The tool call a permission request is about: `toolCall.toolCallId`, or
/// `toolCallId` when the former is missing; empty when it is not text.
pub open spec fn permission_tool_call_id(params: Json) -> Seq<char> {
    match str_of(
        or_else(member_path(params, "toolCall"@, "toolCallId"@), params.get("toolCallId"@)),
    ) {
        Some(t) => t,
        None => Seq::empty(),
    }
}

/// The summary of a permission request: `toolCall.title`, or `title` when the
/// former is missing; a default text when it is not text.
pub open spec fn permission_summary(params: Json) -> Seq<char> {
    match str_of(or_else(member_path(params, "toolCall"@, "title"@), params.get("title"@))) {
        Some(t) => t,
        None => "请求执行工具"@,
    }
}

/// Model of what to do with one line from the agent.
pub enum OutcomeView<W> {
    /// Emit these events (possibly none).
    Emit(Seq<StreamEvent>),
    /// Hand the reply to the waiter of its request.
    Deliver { waiter: W, reply: ReplyView },
    /// Announce the agent's permission request, write the refusal, and then
    /// report on the refusal.
    RefusePermission { notice: StreamEvent, reply: Json, summary: Seq<char> },
}

/// What to do with one line from the agent.
pub enum LineOutcome<W> {
    Emit(Vec<AgentStreamEvent>),
    Deliver { waiter: W, reply: RpcReply },
    RefusePermission { notice: AgentStreamEvent, reply: JsonValue, summary: String },
}

impl<W> View for LineOutcome<W> {
    type V = OutcomeView<W>;

    open spec fn view(&self) -> OutcomeView<W> {
        match self {
            LineOutcome::Emit(evs) => OutcomeView::Emit(events_view(evs@)),
            LineOutcome::Deliver { waiter, reply } => OutcomeView::Deliver {
                waiter: *waiter,
                reply: reply@,
            },
            LineOutcome::RefusePermission { notice, reply, summary } =>
                OutcomeView::RefusePermission {
                notice: notice@,
                reply: reply@,
                summary: summary@,
            },
        }
    }
}

/// The handling of a request from the agent: a permission request is
/// announced and refused (cancelled); any other is reported as unhandled.
pub open spec fn agent_request_outcome<W>(id: Json, method: Seq<char>, params: Json) -> OutcomeView<W> {
    if is_permission_method(method) {
        OutcomeView::RefusePermission {
            notice: StreamEvent::PermissionRequest {
                request_id: json_rendered(id),
                tool_call_id: permission_tool_call_id(params),
                summary: permission_summary(params),
            },
            reply: response_json(id, permission_result(false)),
            summary: permission_summary(params),
        }
    } else {
        OutcomeView::Emit(seq![StreamEvent::Error { message: "未处理的服务端请求："@ + method }])
    }
}

/// The handling of one line from the agent, given whether it parsed (and
/// the parser's complaint when it did not): the waiting requests afterwards,
/// and what to do.
pub open spec fn line_outcome<W>(
    waiting: Map<u64, W>,
    parsed: Result<Json, Seq<char>>,
) -> (Map<u64, W>, OutcomeView<W>) {
    match parsed {
        Err(detail) => (
            waiting,
            OutcomeView::Emit(seq![StreamEvent::Error { message: "无法解析 ACP 消息："@ + detail }]),
        ),
        Ok(msg) => match route_of(msg) {
            RouteView::Reply { id: Some(id), reply } => (
                waiting.remove(id),
                if waiting.contains_key(id) {
                    OutcomeView::Deliver { waiter: waiting[id], reply }
                } else {
                    OutcomeView::Emit(Seq::empty())
                },
            ),
            RouteView::Reply { id: None, reply } => (waiting, OutcomeView::Emit(Seq::empty())),
            RouteView::AgentRequest { id, method, params } => (
                waiting,
                agent_request_outcome(id, method, params),
            ),
            RouteView::SessionUpdate { params: Some(p) } => (
                waiting,
                OutcomeView::Emit(session_update_events(p)),
            ),
            _ => (waiting, OutcomeView::Emit(Seq::empty())),
        },
    }
}

/// One error event.
fn error_event(prefix: &str, detail: &str) -> (r: AgentStreamEvent)
    ensures
        r@ == (StreamEvent::Error { message: prefix@ + detail@ }),
{
    AgentStreamEvent::Error { message: join_text(prefix, detail) }
}

/// A list of one event.
fn one_event(e: AgentStreamEvent) -> (r: Vec<AgentStreamEvent>)
    ensures
        events_view(r@) == seq![e@],
{
    let mut v: Vec<AgentStreamEvent> = Vec::new();
    v.push(e);
    assert(events_view(v@) =~= seq![e@]);
    v
}

/// No events.
fn no_events() -> (r: Vec<AgentStreamEvent>)
    ensures
        events_view(r@) == Seq::<StreamEvent>::empty(),
{
    let v: Vec<AgentStreamEvent> = Vec::new();
    assert(events_view(v@) =~= Seq::<StreamEvent>::empty());
    v
}

/// `v.a.b`.
fn member_path_in<'a>(v: &'a JsonValue, a: &str, b: &str) -> (r: Option<&'a JsonValue>)
    ensures
        opt_view(r) == member_path(v@, a@, b@),
{
    match v.get(a) {
        Some(x) => x.get(b),
        None => None,
    }
}

/// `v.a.b` if present, else `v.c`, as text.
fn path_or_member_text<'a>(v: &'a JsonValue, a: &str, b: &str, c: &str) -> (r: Option<&'a str>)
    ensures
        match r {
            Some(t) => str_of(or_else(member_path(v@, a@, b@), v@.get(c@))) == Some(t@),
            None => str_of(or_else(member_path(v@, a@, b@), v@.get(c@))) is None,
        },
{
    let found = match member_path_in(v, a, b) {
        Some(x) => Some(x),
        None => v.get(c),
    };
    match found {
        Some(x) => x.as_str(),
        None => None,
    }
}

/// The handling of the agent's request `id` with `method` and `params`.
pub fn handle_server_request<W>(id: JsonValue, method: &str, params: &JsonValue) -> (r: LineOutcome<W>)
    ensures
        r@ == agent_request_outcome::<W>(id@, method@, params@),
{
    if contains_text(method, "permission") || ends_with_text(method, "request_permission") {
        let tool_call_id = match path_or_member_text(params, "toolCall", "toolCallId", "toolCallId") {
            Some(t) => t.to_owned(),
            None => String::new(),
        };
        let summary = match path_or_member_text(params, "toolCall", "title", "title") {
            Some(t) => t.to_owned(),
            None => "请求执行工具".to_owned(),
        };
        let reply = respond_permission(id.duplicate(), false);
        let notice = AgentStreamEvent::PermissionRequest {
            request_id: render_json(&id),
            tool_call_id,
            summary: summary.clone(),
        };
        LineOutcome::RefusePermission { notice, reply, summary }
    } else {
        LineOutcome::Emit(one_event(error_event("未处理的服务端请求：", method)))
    }
}

/// What to do with one line from the agent, given whether it parsed (and the
/// parser's complaint when it did not). A reply is taken out of the waiting
/// requests and handed to its waiter.
pub fn handle_parsed_line<W>(pending: &mut PendingRequests<W>, parsed: Result<JsonValue, String>) -> (r: LineOutcome<W>)
    ensures
        final(pending)@.next_id == old(pending)@.next_id,
        (final(pending)@.waiting, r@) == line_outcome(old(pending)@.waiting, parsed_view(parsed)),
{
    match parsed {
        Err(detail) => LineOutcome::Emit(one_event(error_event("无法解析 ACP 消息：", detail.as_str()))),
        Ok(msg) => match route_message(&msg) {
            Route::Reply { id: Some(id), reply } => match pending.take(id) {
                Some(waiter) => LineOutcome::Deliver { waiter, reply },
                None => LineOutcome::Emit(no_events()),
            },
            Route::Reply { id: None, reply: _ } => LineOutcome::Emit(no_events()),
            Route::AgentRequest { id, method, params } => handle_server_request(id, method.as_str(), &params),
            Route::SessionUpdate { params: Some(p) } => LineOutcome::Emit(map_session_update(&p)),
            _ => LineOutcome::Emit(no_events()),
        },
    }
}

/// What to do with the line `line` from the agent: it is decoded as JSON,
/// then handled as in `handle_parsed_line`.
pub fn handle_stdout_line<W>(pending: &mut PendingRequests<W>, line: &str) -> (r: LineOutcome<W>)
    ensures
        final(pending)@.next_id == old(pending)@.next_id,
        (final(pending)@.waiting, r@) == line_outcome(old(pending)@.waiting, json_parse(line@)),
{
    let parsed = parse_json_line(line);
    handle_parsed_line(pending, parsed)
}

/// What the waiter of a request receives: the result, or the reply's error,
/// as its JSON text, in a JSON-RPC error.
pub open spec fn reply_result_view(reply: ReplyView) -> Result<Json, AcpErrorView> {
    match reply {
        ReplyView::Success(v) => Ok(v),
        ReplyView::Failure(e) => Err(AcpErrorView::Rpc(json_rendered(e))),
    }
}

/// The model of a result or an error.
pub open spec fn result_view(r: Result<JsonValue, AcpError>) -> Result<Json, AcpErrorView> {
    match r {
        Ok(v) => Ok(v@),
        Err(e) => Err(e@),
    }
}

/// What the waiter of a request receives for `reply` (see
/// `reply_result_view`).
pub fn reply_result(reply: RpcReply) -> (r: Result<JsonValue, AcpError>)
    ensures
        result_view(r) == reply_result_view(reply@),
{
    match reply {
        RpcReply::Success(v) => Ok(v),
        RpcReply::Failure(e) => Err(AcpError::Rpc(render_json(&e))),
    }
}

/// The line to write for the message `msg`: its JSON text and a line break.
pub fn message_line(msg: &JsonValue) -> (r: String)
    ensures
        r@ == json_rendered(msg@) + seq!['\n'],
{
    let line = render_json(msg).concat("\n");
    proof {
        reveal_strlit("\n");
    }
    line
}

/// The report after refusing a permission request: the refusal could not be
/// written, or it was.
pub fn permission_followup(summary: &str, written: Result<(), AcpError>) -> (r: AgentStreamEvent)
    ensures
        r@ == match written {
            Err(e) => StreamEvent::Error { message: "自动拒绝权限失败："@ + error_text(e@) },
            Ok(_) => StreamEvent::Error {
                message: "已自动拒绝权限请求（M0 无审批 UI）："@ + summary@ + "。完整审批将在 M1 提供。"@,
            },
        },
{
    match written {
        Err(e) => error_event("自动拒绝权限失败：", e.to_text().as_str()),
        Ok(_) => {
            let head = join_text("已自动拒绝权限请求（M0 无审批 UI）：", summary);
            let message = head.concat("。完整审批将在 M1 提供。");
            proof {
                assert(message@ =~= "已自动拒绝权限请求（M0 无审批 UI）："@ + summary@ + "。完整审批将在 M1 提供。"@);
            }
            AgentStreamEvent::Error { message }
        },
    }
}

} // verus!
