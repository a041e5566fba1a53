use grok_desktop::events::AgentStreamEvent;
use grok_desktop::json::{JsonNumber, JsonValue};
use grok_desktop::session_update::{extract_text_content, map_session_update};

fn s(t: &str) -> JsonValue {
    JsonValue::String(t.to_string())
}

fn obj(members: Vec<(&str, JsonValue)>) -> JsonValue {
    JsonValue::Object(members.into_iter().map(|(k, v)| (k.to_string(), v)).collect())
}

fn is_string(v: &Option<JsonValue>, text: &str) -> bool {
    match v {
        Some(JsonValue::String(t)) => t == text,
        _ => false,
    }
}

#[test]
fn maps_message_chunk() {
    let params = obj(vec![(
        "update",
        obj(vec![
            ("sessionUpdate", s("agent_message_chunk")),
            ("content", obj(vec![("type", s("text")), ("text", s("你好"))])),
        ]),
    )]);
    let evs = map_session_update(&params);
    assert_eq!(evs.len(), 1);
    match &evs[0] {
        AgentStreamEvent::MessageDelta { text } => assert_eq!(text, "你好"),
        _ => panic!("expected MessageDelta"),
    }
}

#[test]
fn flat_shape_maps_thought_chunk() {
    let params = obj(vec![
        ("sessionUpdate", s("agent_thought_chunk")),
        ("content", s("thinking")),
    ]);
    let evs = map_session_update(&params);
    assert_eq!(evs.len(), 1);
    match &evs[0] {
        AgentStreamEvent::ThoughtDelta { text } => assert_eq!(text, "thinking"),
        _ => panic!("expected ThoughtDelta"),
    }
}

#[test]
fn wrapped_and_flat_shapes_agree() {
    let body = || {
        obj(vec![
            ("sessionUpdate", s("tool_call")),
            ("toolCallId", s("t1")),
            ("title", s("Read file")),
            ("kind", s("read")),
        ])
    };
    let flat = map_session_update(&body());
    let wrapped = map_session_update(&obj(vec![("update", body())]));
    assert_eq!(flat.len(), 1);
    assert_eq!(wrapped.len(), 1);
    for evs in [flat, wrapped] {
        match &evs[0] {
            AgentStreamEvent::ToolCall { id, kind, title, input } => {
                assert_eq!(id, "t1");
                assert_eq!(kind, "read");
                assert_eq!(title, "Read file");
                assert!(input.is_none());
            }
            _ => panic!("expected ToolCall"),
        }
    }
}

#[test]
fn doubly_nested_update_is_read() {
    let params = obj(vec![(
        "update",
        obj(vec![(
            "update",
            obj(vec![("session_update", s("agent_message_chunk")), ("text", s("hi"))]),
        )]),
    )]);
    let evs = map_session_update(&params);
    assert_eq!(evs.len(), 1);
    match &evs[0] {
        AgentStreamEvent::MessageDelta { text } => assert_eq!(text, "hi"),
        _ => panic!("expected MessageDelta"),
    }
}

#[test]
fn empty_chunk_yields_nothing() {
    let params = obj(vec![("sessionUpdate", s("agent_message_chunk")), ("content", obj(vec![]))]);
    assert!(map_session_update(&params).is_empty());
    let params = obj(vec![("sessionUpdate", s("agent_message_chunk")), ("text", s(""))]);
    assert!(map_session_update(&params).is_empty());
}

#[test]
fn tool_call_defaults() {
    let params = obj(vec![
        ("sessionUpdate", s("tool_call")),
        ("input", obj(vec![("path", s("a.rs"))])),
    ]);
    let evs = map_session_update(&params);
    assert_eq!(evs.len(), 1);
    match &evs[0] {
        AgentStreamEvent::ToolCall { id, kind, title, input } => {
            assert_eq!(id, "unknown");
            assert_eq!(kind, "other");
            assert_eq!(title, "工具调用");
            match input {
                Some(v) => assert!(is_string(&v.get("path").map(|x| x.duplicate()), "a.rs")),
                None => panic!("expected input"),
            }
        }
        _ => panic!("expected ToolCall"),
    }
}

#[test]
fn tool_call_id_member_wins_even_when_not_text() {
    let params = obj(vec![
        ("sessionUpdate", s("tool_call_update")),
        ("toolCallId", JsonValue::Number(JsonNumber::PosInt(7))),
        ("tool_call_id", s("ignored")),
        ("status", s("completed")),
        ("rawOutput", s("done")),
        ("content", s("other")),
    ]);
    let evs = map_session_update(&params);
    assert_eq!(evs.len(), 1);
    match &evs[0] {
        AgentStreamEvent::ToolUpdate { id, status, output } => {
            assert_eq!(id, "unknown");
            assert_eq!(status, "completed");
            assert!(is_string(output, "done"));
        }
        _ => panic!("expected ToolUpdate"),
    }
}

#[test]
fn tool_update_falls_back_to_content() {
    let params = obj(vec![
        ("sessionUpdate", s("tool_call_update")),
        ("tool_call_id", s("t9")),
        ("content", s("partial")),
    ]);
    let evs = map_session_update(&params);
    match &evs[0] {
        AgentStreamEvent::ToolUpdate { id, status, output } => {
            assert_eq!(id, "t9");
            assert_eq!(status, "unknown");
            assert!(is_string(output, "partial"));
        }
        _ => panic!("expected ToolUpdate"),
    }
}

#[test]
fn plan_without_entries_is_empty_list() {
    let params = obj(vec![("sessionUpdate", s("plan"))]);
    let evs = map_session_update(&params);
    assert_eq!(evs.len(), 1);
    match &evs[0] {
        AgentStreamEvent::Plan { entries: JsonValue::Array(items) } => assert!(items.is_empty()),
        _ => panic!("expected Plan with an empty list"),
    }
}

#[test]
fn plan_keeps_entries() {
    let entries = JsonValue::Array(vec![obj(vec![("content", s("step 1"))])]);
    let params = obj(vec![("sessionUpdate", s("plan")), ("entries", entries)]);
    let evs = map_session_update(&params);
    match &evs[0] {
        AgentStreamEvent::Plan { entries: JsonValue::Array(items) } => assert_eq!(items.len(), 1),
        _ => panic!("expected Plan"),
    }
}

#[test]
fn unknown_or_missing_kind_yields_nothing() {
    assert!(map_session_update(&obj(vec![("sessionUpdate", s("available_commands"))])).is_empty());
    assert!(map_session_update(&obj(vec![])).is_empty());
    assert!(map_session_update(&JsonValue::Null).is_empty());
    let non_text_kind = obj(vec![
        ("sessionUpdate", JsonValue::Bool(true)),
        ("session_update", s("agent_message_chunk")),
        ("text", s("x")),
    ]);
    assert!(map_session_update(&non_text_kind).is_empty());
}

#[test]
fn text_content_order() {
    let body = obj(vec![("content", obj(vec![("text", s("a"))])), ("text", s("b"))]);
    assert_eq!(extract_text_content(&body), Some("a".to_string()));
    let body = obj(vec![("content", s("c")), ("text", s("b"))]);
    assert_eq!(extract_text_content(&body), Some("c".to_string()));
    let body = obj(vec![("content", JsonValue::Bool(false)), ("text", s("b"))]);
    assert_eq!(extract_text_content(&body), Some("b".to_string()));
    assert_eq!(extract_text_content(&obj(vec![])), None);
}
