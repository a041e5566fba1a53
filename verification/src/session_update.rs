//! Normalization of `session/update` notifications into stream events.

use vstd::prelude::*;
use crate::events::{AgentStreamEvent, StreamEvent, events_view};
use crate::json::{Json, JsonValue, get_either, str_of, opt_view, opt_owned_view, lemma_array_view, items_view};
use crate::text::same_text;

verus! {

/// The body of an update: the notification parameters accept both
/// `{ update: { sessionUpdate, .. } }` and `{ sessionUpdate, .. }`, and one
/// more level of `update` nesting inside either.
pub open spec fn update_body(params: Json) -> Json {
    let update = match params.get("update"@) {
        Some(u) => u,
        None => params,
    };
    match update.get("update"@) {
        Some(b) => b,
        None => update,
    }
}

/// The update kind: `sessionUpdate` (or `session_update` when that member is
/// missing) as text; the empty text when it is not a string.
pub open spec fn update_kind(body: Json) -> Seq<char> {
    match str_of(get_either(body, "sessionUpdate"@, "session_update"@)) {
        Some(k) => k,
        None => Seq::empty(),
    }
}

/// The text of a chunk: `content.text`, else `content` itself when it is a
/// string, else `text`.
pub open spec fn text_content(body: Json) -> Option<Seq<char>> {
    let from_body = str_of(body.get("text"@));
    match body.get("content"@) {
        Some(c) => match str_of(c.get("text"@)) {
            Some(t) => Some(t),
            None => match c.as_str() {
                Some(t) => Some(t),
                None => from_body,
            },
        },
        None => from_body,
    }
}

/// `o`'s text, or `default` when there is none.
pub open spec fn text_or(o: Option<Seq<char>>, default: Seq<char>) -> Seq<char> {
    match o {
        Some(t) => t,
        None => default,
    }
}

/// The tool call id of an update: `toolCallId`, or `tool_call_id` when that
/// member is missing; `"unknown"` when it is not a string.
pub open spec fn tool_call_id(body: Json) -> Seq<char> {
    text_or(str_of(get_either(body, "toolCallId"@, "tool_call_id"@)), "unknown"@)
}

/// The events that one `session/update` notification stands for.
pub open spec fn session_update_events(params: Json) -> Seq<StreamEvent> {
    let body = update_body(params);
    let kind = update_kind(body);
    let text = text_or(text_content(body), Seq::empty());
    if kind == "agent_message_chunk"@ {
        if text.len() == 0 {
            Seq::empty()
        } else {
            seq![StreamEvent::MessageDelta { text }]
        }
    } else if kind == "agent_thought_chunk"@ {
        if text.len() == 0 {
            Seq::empty()
        } else {
            seq![StreamEvent::ThoughtDelta { text }]
        }
    } else if kind == "tool_call"@ {
        seq![
            StreamEvent::ToolCall {
                id: tool_call_id(body),
                kind: text_or(str_of(body.get("kind"@)), "other"@),
                title: text_or(str_of(body.get("title"@)), "工具调用"@),
                input: get_either(body, "rawInput"@, "input"@),
            },
        ]
    } else if kind == "tool_call_update"@ {
        seq![
            StreamEvent::ToolUpdate {
                id: tool_call_id(body),
                status: text_or(str_of(body.get("status"@)), "unknown"@),
                output: get_either(body, "rawOutput"@, "content"@),
            },
        ]
    } else if kind == "plan"@ {
        seq![
            StreamEvent::Plan {
                entries: match body.get("entries"@) {
                    Some(e) => e,
                    None => Json::Array(Seq::empty()),
                },
            },
        ]
    } else {
        Seq::empty()
    }
}

/// The body of an update, as in `update_body`.
fn find_update_body(params: &JsonValue) -> (r: &JsonValue)
    ensures
        r@ == update_body(params@),
{
    let update = match params.get("update") {
        Some(u) => u,
        None => params,
    };
    match update.get("update") {
        Some(b) => b,
        None => update,
    }
}

/// The text of a chunk update, as in `text_content`.
pub fn extract_text_content(body: &JsonValue) -> (r: Option<String>)
    ensures
        match r {
            Some(t) => text_content(body@) == Some(t@),
            None => text_content(body@) is None,
        },
{
    if let Some(c) = body.get("content") {
        if let Some(t) = c.get_str("text") {
            return Some(t.to_owned());
        }
        if let Some(t) = c.as_str() {
            return Some(t.to_owned());
        }
    }
    match body.get_str("text") {
        Some(t) => Some(t.to_owned()),
        None => None,
    }
}

/// `o` as an owned string, or `default`.
fn owned_or(o: Option<&str>, default: &str) -> (r: String)
    ensures
        r@ == match o {
            Some(t) => t@,
            None => default@,
        },
{
    match o {
        Some(t) => t.to_owned(),
        None => default.to_owned(),
    }
}

/// A copy of an optional borrowed value.
fn copy_opt(o: Option<&JsonValue>) -> (r: Option<JsonValue>)
    ensures
        opt_owned_view(r) == opt_view(o),
{
    match o {
        Some(v) => Some(v.duplicate()),
        None => None,
    }
}

/// The text of the optional value, when it is a string.
fn opt_as_str(o: Option<&JsonValue>) -> (r: Option<&str>)
    ensures
        match r {
            Some(t) => str_of(opt_view(o)) == Some(t@),
            None => str_of(opt_view(o)) is None,
        },
{
    match o {
        Some(v) => v.as_str(),
        None => None,
    }
}

/// The tool call id of an update body.
fn find_tool_call_id(body: &JsonValue) -> (r: String)
    ensures
        r@ == tool_call_id(body@),
{
    owned_or(opt_as_str(body.get_either("toolCallId", "tool_call_id")), "unknown")
}

/// The stream events that a `session/update` notification's parameters
/// stand for.
pub fn map_session_update(params: &JsonValue) -> (r: Vec<AgentStreamEvent>)
    ensures
        events_view(r@) == session_update_events(params@),
{
    let body = find_update_body(params);
    let kind_opt = opt_as_str(body.get_either("sessionUpdate", "session_update"));
    let kind: &str = match kind_opt {
        Some(k) => k,
        None => "",
    };
    proof {
        reveal_strlit("");
        assert(kind@ == update_kind(update_body(params@)));
    }
    let ghost body_m = update_body(params@);
    let ghost expected = session_update_events(params@);
    let mut out: Vec<AgentStreamEvent> = Vec::new();
    if same_text(kind, "agent_message_chunk") || same_text(kind, "agent_thought_chunk") {
        let text = match extract_text_content(body) {
            Some(t) => t,
            None => String::new(),
        };
        if text.as_str().is_empty() {
            proof {
                assert(text@.len() == 0);
            }
        } else if same_text(kind, "agent_message_chunk") {
            out.push(AgentStreamEvent::MessageDelta { text });
        } else {
            out.push(AgentStreamEvent::ThoughtDelta { text });
        }
    } else if same_text(kind, "tool_call") {
        let id = find_tool_call_id(body);
        let title = owned_or(body.get_str("title"), "工具调用");
        let tool_kind = owned_or(body.get_str("kind"), "other");
        let input = copy_opt(body.get_either("rawInput", "input"));
        out.push(AgentStreamEvent::ToolCall { id, kind: tool_kind, title, input });
    } else if same_text(kind, "tool_call_update") {
        let id = find_tool_call_id(body);
        let status = owned_or(body.get_str("status"), "unknown");
        let output = copy_opt(body.get_either("rawOutput", "content"));
        out.push(AgentStreamEvent::ToolUpdate { id, status, output });
    } else if same_text(kind, "plan") {
        let entries = match body.get("entries") {
            Some(e) => e.duplicate(),
            None => {
                let empty: Vec<JsonValue> = Vec::new();
                proof {
                    lemma_array_view(empty);
                    assert(items_view(empty@) =~= Seq::<Json>::empty());
                }
                JsonValue::Array(empty)
            },
        };
        out.push(AgentStreamEvent::Plan { entries });
    }
    assert(events_view(out@) =~= expected);
    out
}

} // verus!
