//! Properties of the protocol handling that hold across functions and calls.

use vstd::prelude::*;
use crate::client::{FailureView, stderr_is_notable, phase_accepts, PhaseView, ActionView, EventView, connect_transition, connected_view, session_id_of, turn_end_events};
use crate::events::StreamEvent;
use crate::json::{Json, Num, decimal_text, id_of, json_rendered, lemma_decimal_text_value, lookup, unsigned_digits};
use crate::pending::{PendingView, successor};
use crate::rpc::{prompt_json, AcpErrorView, OutcomeView, ReplyView, RouteView, is_permission_method, line_outcome, object_of, permission_result, response_json, request_json, route_of};
use crate::session_update::session_update_events;
use crate::cli::{lossy_utf8, version_in};
use crate::text::{first_nonempty_line_of, line_end, lemma_line_end_at, lemma_line_end_bounds, ascii_lower, has_infix, trim_end, trim_start, trimmed, is_ws};

verus! {

/// The member names of JSON-RPC messages are distinct texts.
proof fn lemma_member_names_differ()
    ensures
        "jsonrpc"@ != "id"@,
        "jsonrpc"@ != "result"@,
        "jsonrpc"@ != "method"@,
        "jsonrpc"@ != "error"@,
        "id"@ != "result"@,
        "id"@ != "method"@,
        "id"@ != "error"@,
        "result"@ != "method"@,
        "result"@ != "error"@,
{
    reveal_strlit("jsonrpc");
    reveal_strlit("id");
    reveal_strlit("result");
    reveal_strlit("method");
    reveal_strlit("error");
    assert("jsonrpc"@.len() == 7);
    assert("id"@.len() == 2);
    assert("result"@.len() == 6);
    assert("method"@.len() == 6);
    assert("error"@.len() == 5);
    assert("result"@[0] != "method"@[0]);
}

/// A permission request of the agent is never granted on its own: whatever
/// it asks, the line is answered with the cancelled outcome (the same answer
/// as refusing it by hand) under the request's id, and the request is
/// announced with that id as JSON text.
pub proof fn law_permission_requests_are_cancelled<W>(waiting: Map<u64, W>, msg: Json)
    requires
        route_of(msg) matches RouteView::AgentRequest { method, .. } && is_permission_method(method),
    ensures
        ({
            let (after, outcome) = line_outcome(waiting, Ok(msg));
            &&& after == waiting
            &&& outcome matches OutcomeView::RefusePermission { notice, reply, .. }
            &&& notice matches StreamEvent::PermissionRequest { request_id, .. }
            &&& request_id == json_rendered(route_of(msg)->AgentRequest_id)
            &&& reply == response_json(route_of(msg)->AgentRequest_id, permission_result(false))
            &&& reply.get("result"@) == Some(permission_result(false))
            &&& permission_result(false).get("outcome"@).unwrap().get("outcome"@) == Some(
                Json::Str("cancelled"@),
            )
        }),
{
    lemma_member_names_differ();
    reveal_with_fuel(lookup, 4);
    let (after, outcome) = line_outcome(waiting, Ok(msg));
    if let OutcomeView::RefusePermission { notice, reply, .. } = outcome {
        if let StreamEvent::PermissionRequest { request_id, .. } = notice {
            let entries = reply->Object_0;
            assert(entries[0].0 != "result"@);
            assert(entries[1].0 != "result"@);
            assert(entries.drop_first().drop_first()[0] == entries[2]);
        }
    }
}

/// The reply to a request reaches the waiter that sent it: a reply that
/// carries the id of a waiting request hands its `result` to that request's
/// waiter, and the request stops waiting.
pub proof fn law_reply_reaches_its_request<W>(waiting: Map<u64, W>, id: u64, waiter: W, result: Json)
    ensures
        ({
            let reply = object_of(
                seq![
                    ("jsonrpc"@, Json::Str("2.0"@)),
                    ("id"@, Json::Number(Num::PosInt(id))),
                    ("result"@, result),
                ],
            );
            line_outcome(waiting.insert(id, waiter), Ok(reply)) == (
                waiting.remove(id),
                OutcomeView::Deliver { waiter, reply: ReplyView::Success(result) },
            )
        }),
{
    lemma_member_names_differ();
    reveal_with_fuel(lookup, 4);
    let reply = object_of(
        seq![
            ("jsonrpc"@, Json::Str("2.0"@)),
            ("id"@, Json::Number(Num::PosInt(id))),
            ("result"@, result),
        ],
    );
    let e = reply->Object_0;
    assert(e.drop_first()[0] == e[1]);
    assert(e.drop_first().drop_first()[0] == e[2]);
    assert(e.drop_first().drop_first().drop_first().len() == 0);
    assert(reply.get("id"@) == Some(Json::Number(Num::PosInt(id))));
    assert(reply.get("method"@) is None);
    assert(reply.get("error"@) is None);
    assert(reply.get("result"@) == Some(result));
    assert(waiting.insert(id, waiter).remove(id) =~= waiting.remove(id));
}

/// A reply whose id matches no waiting request is dropped: nothing changes
/// and nothing is emitted.
pub proof fn law_unknown_reply_is_dropped<W>(waiting: Map<u64, W>, msg: Json, id: u64)
    requires
        route_of(msg) matches RouteView::Reply { id: Some(i), .. } && i == id,
        !waiting.contains_key(id),
    ensures
        line_outcome(waiting, Ok(msg)) == (waiting, OutcomeView::<W>::Emit(Seq::empty())),
{
    assert(waiting.remove(id) =~= waiting);
}

/// Once the client gives up waiting for a request, a late reply to it is
/// dropped: the waiting requests stay as they are and nothing is emitted.
pub proof fn law_late_reply_is_dropped<W>(waiting: Map<u64, W>, id: u64, msg: Json)
    requires
        route_of(msg) matches RouteView::Reply { id: Some(i), .. } && i == id,
    ensures
        line_outcome(waiting.remove(id), Ok(msg)) == (
            waiting.remove(id),
            OutcomeView::<W>::Emit(Seq::empty()),
        ),
{
    law_unknown_reply_is_dropped(waiting.remove(id), msg, id);
}

/// The id that a request carries is the id under which its reply is routed.
pub proof fn law_request_id_round_trip(id: u64, method: Seq<char>, params: Json)
    ensures
        request_json(id, method, params).get("id"@) == Some(Json::Number(Num::PosInt(id))),
        id_of(Json::Number(Num::PosInt(id))) == Some(id),
{
    lemma_member_names_differ();
    reveal_with_fuel(lookup, 3);
    let e = request_json(id, method, params)->Object_0;
    assert(e.drop_first()[0] == e[1]);
}

/// An id sent as a number, or as its decimal text, is read back as that id.
pub proof fn law_ids_read_back(id: u64)
    ensures
        id_of(Json::Number(Num::PosInt(id))) == Some(id),
        id_of(Json::Str(decimal_text(id as nat))) == Some(id),
{
    lemma_decimal_text_value(id as nat);
    let t = decimal_text(id as nat);
    assert(unsigned_digits(t) == t);
}

/// Both shapes of a session update mean the same: parameters that wrap the
/// update in an `update` member give the events of the update itself.
pub proof fn law_update_shapes_agree(update: Json)
    requires
        update.get("update"@) is None,
    ensures
        session_update_events(object_of(seq![("update"@, update)])) == session_update_events(
            update,
        ),
{
    let wrapped = object_of(seq![("update"@, update)]);
    assert(wrapped.get("update"@) == Some(update));
}

/// A session update yields at most one event, and a text chunk never yields
/// an event with empty text.
pub proof fn law_update_events_are_small(params: Json)
    ensures
        session_update_events(params).len() <= 1,
        forall|i: int|
            0 <= i < session_update_events(params).len() ==> match #[trigger] session_update_events(
                params,
            )[i] {
                StreamEvent::MessageDelta { text } => text.len() > 0,
                StreamEvent::ThoughtDelta { text } => text.len() > 0,
                _ => true,
            },
{
}

/// Every prompt turn ends with exactly one `TurnComplete`, as its last event,
/// whether the agent replied, replied with an error, or did not reply.
pub proof fn law_turn_ends_once(outcome: Option<Result<Json, AcpErrorView>>)
    ensures
        turn_end_events(outcome).len() >= 1,
        turn_end_events(outcome).last() == StreamEvent::TurnComplete,
        forall|i: int|
            0 <= i < turn_end_events(outcome).len() - 1 ==> !(#[trigger] turn_end_events(
                outcome,
            )[i] is TurnComplete),
{
}

/// The handshake runs in order: it starts the CLI only once found, sends
/// `initialize` only once started, `session/new` only after `initialize`
/// succeeded, and is connected only by a successful `session/new`, to the
/// session that its reply names.
pub proof fn law_handshake_order(phase: PhaseView, event: EventView, cwd: Seq<char>, version: Seq<char>)
    requires
        phase_accepts(phase, event),
    ensures
        ({
            let (next, action) = connect_transition(phase, event, cwd, version);
            &&& (action matches ActionView::Spawn { .. }) ==> phase is Resolving
            &&& (action matches ActionView::Request { method, .. } && method == "initialize"@)
                ==> (phase is Spawning && event matches EventView::Spawned(Ok(())))
            &&& (action matches ActionView::Request { method, .. } && method == "session/new"@)
                ==> (phase is Initializing && event matches EventView::Replied(Ok(_)))
            &&& next is Connected ==> {
                &&& phase is OpeningSession
                &&& phase->OpeningSession_cli_path == next->Connected_cli_path
                &&& event matches EventView::Replied(Ok(reply))
                &&& session_id_of(event->Replied_0->Ok_0) == Some(next->Connected_session_id)
                &&& action == ActionView::Finish(
                    connected_view(next->Connected_session_id, next->Connected_cli_path),
                )
            }
        }),
{
    reveal_strlit("initialize");
    reveal_strlit("session/new");
    assert("initialize"@.len() == 10);
    assert("session/new"@.len() == 11);
}

/// Registering keeps every waiting id below the next one (until the counter
/// reaches the top of `u64`), so the id handed out is never one that waits.
pub proof fn law_register_hands_out_fresh_ids<W>(before: PendingView<W>, waiter: W)
    requires
        before.ids_below_next(),
        before.next_id < u64::MAX,
    ensures
        ({
            let id = before.next_id;
            let after = PendingView { next_id: successor(id), waiting: before.waiting.insert(id, waiter) };
            &&& !before.waiting.contains_key(id)
            &&& after.ids_below_next()
            &&& after.waiting[id] == waiter
        }),
{
}

/// Taking a request out of the registry keeps every waiting id below the
/// next one.
pub proof fn law_take_keeps_ids_below_next<W>(before: PendingView<W>, id: u64)
    requires
        before.ids_below_next(),
    ensures
        (PendingView { next_id: before.next_id, waiting: before.waiting.remove(id) }).ids_below_next(),
{
}

/// Taking back the request just registered undoes the registration: the
/// waiter comes back and the waiting requests are as before.
pub proof fn law_take_undoes_register<W>(before: PendingView<W>, waiter: W)
    requires
        before.ids_below_next(),
        before.next_id < u64::MAX,
    ensures
        ({
            let id = before.next_id;
            let waiting = before.waiting.insert(id, waiter);
            &&& waiting.contains_key(id)
            &&& waiting[id] == waiter
            &&& waiting.remove(id) == before.waiting
        }),
{
    let id = before.next_id;
    assert(!before.waiting.contains_key(id));
    assert(before.waiting.insert(id, waiter).remove(id) =~= before.waiting);
}

proof fn lemma_trim_start_idem(s: Seq<char>)
    ensures
        trim_start(trim_start(s)) == trim_start(s),
        trim_start(s).len() > 0 ==> !is_ws(trim_start(s)[0]),
    decreases s.len(),
{
    if s.len() > 0 && is_ws(s[0]) {
        lemma_trim_start_idem(s.drop_first());
    }
}

proof fn lemma_trim_end_keeps_start(s: Seq<char>)
    requires
        s.len() > 0 ==> !is_ws(s[0]),
    ensures
        trim_end(s).len() > 0 ==> !is_ws(trim_end(s)[0]),
        trim_end(s).len() > 0 ==> !is_ws(trim_end(s).last()),
        trim_end(s).len() > 0 ==> trim_end(s)[0] == s[0],
    decreases s.len(),
{
    if s.len() > 0 && is_ws(s.last()) {
        lemma_trim_end_keeps_start(s.drop_last());
    }
}

/// Trimming twice is trimming once: a trimmed prompt or line is left as it is.
pub proof fn law_trim_is_idempotent(s: Seq<char>)
    ensures
        trimmed(trimmed(s)) == trimmed(s),
{
    let t = trimmed(s);
    lemma_trim_start_idem(s);
    lemma_trim_end_keeps_start(trim_start(s));
    if t.len() > 0 {
        assert(!is_ws(t[0]));
        assert(trim_start(t) == t);
        assert(!is_ws(t.last()));
        assert(trim_end(t) == t);
    } else {
        assert(trim_start(t) == t);
    }
}


/// The handshake is connected to the session that the reply to `session/new`
/// names in `sessionId`; `session_id` is read only when `sessionId` is
/// missing.
pub proof fn law_session_new_reply_names_the_session(
    cli_path: Seq<char>,
    reply: Json,
    cwd: Seq<char>,
    version: Seq<char>,
    sid: Seq<char>,
)
    requires
        reply.get("sessionId"@) == Some(Json::Str(sid)) || (reply.get("sessionId"@) is None
            && reply.get("session_id"@) == Some(Json::Str(sid))),
    ensures
        connect_transition(
            PhaseView::OpeningSession { cli_path },
            EventView::Replied(Ok(reply)),
            cwd,
            version,
        ) == (
            PhaseView::Connected { cli_path, session_id: sid },
            ActionView::Finish(connected_view(sid, cli_path)),
        ),
{
}

/// The prompt request carries the prompt text exactly as given, as the text
/// of its single `text` block, in the session it names.
pub proof fn law_prompt_carries_the_text(id: u64, session_id: Seq<char>, text: Seq<char>)
    ensures
        ({
            let params = request_json(id, "session/prompt"@, prompt_json(session_id, text));
            &&& params.get("method"@) == Some(Json::Str("session/prompt"@))
            &&& params.get("params"@) matches Some(p) && {
                &&& p.get("sessionId"@) == Some(Json::Str(session_id))
                &&& p.get("prompt"@) matches Some(Json::Array(blocks)) && {
                    &&& blocks.len() == 1
                    &&& blocks[0].get("type"@) == Some(Json::Str("text"@))
                    &&& blocks[0].get("text"@) == Some(Json::Str(text))
                }
            }
        }),
{
    lemma_member_names_differ();
    reveal_strlit("params");
    reveal_strlit("sessionId");
    reveal_strlit("prompt");
    reveal_strlit("type");
    reveal_strlit("text");
    reveal_strlit("jsonrpc");
    reveal_strlit("id");
    reveal_strlit("method");
    assert("params"@[0] != "jsonrpc"@[0]);
    assert("params"@[0] != "id"@[0]);
    assert("params"@[0] != "method"@[0]);
    assert("method"@[0] != "jsonrpc"@[0]);
    assert("method"@[0] != "id"@[0]);
    assert("prompt"@.len() != "sessionId"@.len());
    assert("text"@[1] != "type"@[1]);
    reveal_with_fuel(lookup, 5);
    let e = request_json(id, "session/prompt"@, prompt_json(session_id, text))->Object_0;
    assert(e.drop_first()[0] == e[1]);
    assert(e.drop_first().drop_first()[0] == e[2]);
    assert(e.drop_first().drop_first().drop_first()[0] == e[3]);
    let pe = prompt_json(session_id, text)->Object_0;
    assert(pe.drop_first()[0] == pe[1]);
    let be = pe[1].1->Array_0[0]->Object_0;
    assert(be.drop_first()[0] == be[1]);
}

/// A line of the CLI's standard error that, trimmed, is not blank and
/// mentions an error, authentication, login or a failure, in any ASCII case,
/// is one to show the user.
pub proof fn law_stderr_failures_are_notable(line: Seq<char>)
    requires
        ({
            let lower = ascii_lower(trimmed(line));
            ||| has_infix(lower, "error"@)
            ||| has_infix(lower, "auth"@)
            ||| has_infix(lower, "unauthor"@)
            ||| has_infix(lower, "login"@)
            ||| has_infix(lower, "failed"@)
        }),
    ensures
        stderr_is_notable(ascii_lower(trimmed(line))),
{
}


/// A `tool_call` update gives one `ToolCall` event whose input is the
/// update's `rawInput` (its `input` only when `rawInput` is missing), whose
/// id, kind and title are the update's `toolCallId`, `kind` and `title` when
/// they are text; with the update wrapped in `update` or given flat.
pub proof fn law_tool_call_keeps_its_input(params: Json, body: Json)
    requires
        (params.get("update"@) == Some(body) && body.get("update"@) is None) || (params.get(
            "update"@,
        ) is None && params == body),
        body.get("sessionUpdate"@) == Some(Json::Str("tool_call"@)),
    ensures
        session_update_events(params).len() == 1,
        session_update_events(params)[0] matches StreamEvent::ToolCall { id, kind, title, input } && {
            &&& body.get("rawInput"@) is Some ==> input == body.get("rawInput"@)
            &&& body.get("rawInput"@) is None ==> input == body.get("input"@)
            &&& body.get("toolCallId"@) matches Some(Json::Str(i)) ==> id == i
            &&& body.get("kind"@) matches Some(Json::Str(k)) ==> kind == k
            &&& body.get("title"@) matches Some(Json::Str(t)) ==> title == t
        },
{
    reveal_strlit("tool_call");
    reveal_strlit("agent_message_chunk");
    reveal_strlit("agent_thought_chunk");
    assert("tool_call"@.len() != "agent_message_chunk"@.len());
    assert("tool_call"@.len() != "agent_thought_chunk"@.len());
}


/// A text of whitespace only trims to nothing.
proof fn lemma_blank_trims_to_empty(s: Seq<char>)
    requires
        forall|k: int| 0 <= k < s.len() ==> is_ws(s[k]),
    ensures
        trim_start(s).len() == 0,
        trimmed(s).len() == 0,
    decreases s.len(),
{
    if s.len() > 0 {
        lemma_blank_trims_to_empty(s.drop_first());
    }
}

/// A text of whitespace only has no line that is not blank.
proof fn lemma_blank_has_no_line(s: Seq<char>)
    requires
        forall|k: int| 0 <= k < s.len() ==> is_ws(s[k]),
    ensures
        first_nonempty_line_of(s) is None,
    decreases s.len(),
{
    lemma_line_end_bounds(s);
    let e = line_end(s);
    lemma_blank_trims_to_empty(s.take(e));
    if e < s.len() {
        lemma_blank_has_no_line(s.skip(e + 1));
    }
}

/// Blank lines before `t` do not change its first line that is not blank.
proof fn lemma_skip_blank_lines(blank: Seq<char>, t: Seq<char>)
    requires
        forall|k: int| 0 <= k < blank.len() ==> is_ws(blank[k]),
        blank.len() == 0 || blank.last() == '\n',
    ensures
        first_nonempty_line_of(blank + t) == first_nonempty_line_of(t),
    decreases blank.len(),
{
    if blank.len() > 0 {
        let s = blank + t;
        lemma_line_end_bounds(s);
        let e = line_end(s);
        assert(s[blank.len() - 1] == '\n');
        assert(e <= blank.len() - 1);
        assert(s.take(e) =~= blank.take(e));
        lemma_blank_trims_to_empty(blank.take(e));
        let b2 = blank.skip(e + 1);
        assert(s.skip(e + 1) =~= b2 + t);
        if b2.len() > 0 {
            assert(b2.last() == blank.last());
        }
        lemma_skip_blank_lines(b2, t);
    } else {
        assert(blank + t =~= t);
    }
}

/// The first line of `line + rest` is `line` when `line` holds no line break
/// and `rest` is empty or starts a new line.
proof fn lemma_first_line_is(line: Seq<char>, rest: Seq<char>)
    requires
        forall|k: int| 0 <= k < line.len() ==> line[k] != '\n',
        rest.len() == 0 || rest[0] == '\n',
        trimmed(line).len() > 0,
    ensures
        first_nonempty_line_of(line + rest) == Some(trimmed(line)),
{
    let s = line + rest;
    lemma_line_end_at(s, line.len() as int);
    assert(s.take(line.len() as int) =~= line);
}

/// The version is read from standard output first: when it holds a line that
/// is not blank (after any blank lines), the version is that line, trimmed,
/// whatever standard error holds.
pub proof fn law_version_reads_stdout_first(
    stdout: Seq<u8>,
    stderr: Seq<u8>,
    blank: Seq<char>,
    line: Seq<char>,
    rest: Seq<char>,
)
    requires
        lossy_utf8(stdout) == blank + line + rest,
        forall|k: int| 0 <= k < blank.len() ==> is_ws(blank[k]),
        blank.len() == 0 || blank.last() == '\n',
        forall|k: int| 0 <= k < line.len() ==> line[k] != '\n',
        rest.len() == 0 || rest[0] == '\n',
        trimmed(line).len() > 0,
    ensures
        version_in(stdout, stderr) == Some(trimmed(line)),
{
    assert(blank + line + rest =~= blank + (line + rest));
    lemma_skip_blank_lines(blank, line + rest);
    lemma_first_line_is(line, rest);
}

/// Standard error is read only when standard output is blank: then the
/// version is the first line of standard error that is not blank.
pub proof fn law_version_falls_back_to_stderr(
    stdout: Seq<u8>,
    stderr: Seq<u8>,
    blank: Seq<char>,
    line: Seq<char>,
    rest: Seq<char>,
)
    requires
        forall|k: int| 0 <= k < lossy_utf8(stdout).len() ==> is_ws(lossy_utf8(stdout)[k]),
        lossy_utf8(stderr) == blank + line + rest,
        forall|k: int| 0 <= k < blank.len() ==> is_ws(blank[k]),
        blank.len() == 0 || blank.last() == '\n',
        forall|k: int| 0 <= k < line.len() ==> line[k] != '\n',
        rest.len() == 0 || rest[0] == '\n',
        trimmed(line).len() > 0,
    ensures
        version_in(stdout, stderr) == Some(trimmed(line)),
{
    lemma_blank_has_no_line(lossy_utf8(stdout));
    assert(blank + line + rest =~= blank + (line + rest));
    lemma_skip_blank_lines(blank, line + rest);
    lemma_first_line_is(line, rest);
}

/// Without a line that is not blank in either output, there is no version.
pub proof fn law_blank_output_has_no_version(stdout: Seq<u8>, stderr: Seq<u8>)
    requires
        forall|k: int| 0 <= k < lossy_utf8(stdout).len() ==> is_ws(lossy_utf8(stdout)[k]),
        forall|k: int| 0 <= k < lossy_utf8(stderr).len() ==> is_ws(lossy_utf8(stderr)[k]),
    ensures
        version_in(stdout, stderr) is None,
{
    lemma_blank_has_no_line(lossy_utf8(stdout));
    lemma_blank_has_no_line(lossy_utf8(stderr));
}


/// A `sessionId` member that is not text is not passed over for
/// `session_id`: the handshake fails, reporting the reply.
pub proof fn law_session_id_must_be_text(cli_path: Seq<char>, reply: Json, cwd: Seq<char>, version: Seq<char>)
    requires
        reply.get("sessionId"@) matches Some(v) && v.as_str() is None,
    ensures
        connect_transition(
            PhaseView::OpeningSession { cli_path },
            EventView::Replied(Ok(reply)),
            cwd,
            version,
        ) == (PhaseView::Failed, ActionView::Fail(FailureView::NoSessionId(reply))),
{
}

/// The other kinds of update: a message or thought chunk gives its text
/// (`content.text` when that is text), a `tool_call_update` gives its status
/// and its `rawOutput` (its `content` only when `rawOutput` is missing), and
/// a plan gives its entries.
pub proof fn law_update_kinds(body: Json, kind: Seq<char>)
    requires
        body.get("update"@) is None,
        body.get("sessionUpdate"@) == Some(Json::Str(kind)),
    ensures
        kind == "agent_message_chunk"@ ==> (body.get("content"@) matches Some(c) ==> (c.get("text"@) matches Some(
            Json::Str(t),
        ) ==> (t.len() > 0 ==> session_update_events(body) == seq![StreamEvent::MessageDelta { text: t }]))),
        kind == "agent_thought_chunk"@ ==> (body.get("content"@) matches Some(c) ==> (c.get("text"@) matches Some(
            Json::Str(t),
        ) ==> (t.len() > 0 ==> session_update_events(body) == seq![StreamEvent::ThoughtDelta { text: t }]))),
        kind == "tool_call_update"@ ==> {
            &&& session_update_events(body).len() == 1
            &&& session_update_events(body)[0] matches StreamEvent::ToolUpdate { id, status, output } && {
                &&& body.get("rawOutput"@) is Some ==> output == body.get("rawOutput"@)
                &&& body.get("rawOutput"@) is None ==> output == body.get("content"@)
                &&& body.get("status"@) matches Some(Json::Str(st)) ==> status == st
                &&& body.get("toolCallId"@) matches Some(Json::Str(i)) ==> id == i
            }
        },
        kind == "plan"@ ==> (body.get("entries"@) matches Some(e) ==> session_update_events(body)
            == seq![StreamEvent::Plan { entries: e }]),
{
    reveal_strlit("tool_call");
    reveal_strlit("tool_call_update");
    reveal_strlit("plan");
    reveal_strlit("agent_message_chunk");
    reveal_strlit("agent_thought_chunk");
    assert("agent_message_chunk"@[6] != "agent_thought_chunk"@[6]);
    assert("tool_call_update"@.len() != "tool_call"@.len());
    assert("tool_call_update"@.len() != "agent_message_chunk"@.len());
    assert("plan"@.len() != "agent_message_chunk"@.len());
    assert("plan"@.len() != "tool_call"@.len());
    assert("plan"@.len() != "tool_call_update"@.len());
}

} // verus!
