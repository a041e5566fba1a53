use grok_desktop::events::AgentStreamEvent;
use grok_desktop::json::{json_id_as_u64, parse_u64, JsonNumber, JsonValue};
use grok_desktop::pending::PendingRequests;
use grok_desktop::rpc::{
    handle_parsed_line, handle_server_request, handle_stdout_line, message_line, permission_followup,
    reply_result, request_message,
    respond_permission, route_message, AcpError, LineOutcome, Route, RpcReply,
};

fn s(t: &str) -> JsonValue {
    JsonValue::String(t.to_string())
}

fn n(x: u64) -> JsonValue {
    JsonValue::Number(JsonNumber::PosInt(x))
}

fn obj(members: Vec<(&str, JsonValue)>) -> JsonValue {
    JsonValue::Object(members.into_iter().map(|(k, v)| (k.to_string(), v)).collect())
}

fn text_of(v: Option<&JsonValue>) -> Option<String> {
    match v {
        Some(JsonValue::String(t)) => Some(t.clone()),
        _ => None,
    }
}

fn is_cancel_reply(reply: &JsonValue, id: &JsonValue) -> bool {
    let outcome = reply.get("result").and_then(|r| r.get("outcome"));
    let same_id = match (reply.get("id"), id) {
        (Some(JsonValue::Number(JsonNumber::PosInt(a))), JsonValue::Number(JsonNumber::PosInt(b))) => a == b,
        (Some(JsonValue::String(a)), JsonValue::String(b)) => a == b,
        _ => false,
    };
    same_id
        && text_of(reply.get("jsonrpc")) == Some("2.0".to_string())
        && text_of(outcome.and_then(|o| o.get("outcome"))) == Some("cancelled".to_string())
        && outcome.and_then(|o| o.get("optionId")).is_none()
}

#[test]
fn reply_reaches_its_waiter() {
    let mut pending: PendingRequests<&str> = PendingRequests::new();
    let first = pending.register("init");
    let second = pending.register("session");
    assert_eq!(first, 1);
    assert_eq!(second, 2);
    let reply = obj(vec![("jsonrpc", s("2.0")), ("id", n(2)), ("result", obj(vec![("sessionId", s("abc"))]))]);
    match handle_parsed_line(&mut pending, Ok(reply)) {
        LineOutcome::Deliver { waiter, reply: RpcReply::Success(v) } => {
            assert_eq!(waiter, "session");
            assert_eq!(text_of(v.get("sessionId")), Some("abc".to_string()));
        }
        _ => panic!("expected the reply to reach its waiter"),
    }
    // The same reply a second time finds nobody waiting.
    let again = obj(vec![("id", n(2)), ("result", JsonValue::Null)]);
    match handle_parsed_line(&mut pending, Ok(again)) {
        LineOutcome::Emit(evs) => assert!(evs.is_empty()),
        _ => panic!("a reply without a waiter is dropped"),
    }
    assert_eq!(pending.take(1), Some("init"));
    assert_eq!(pending.take(1), None);
}

#[test]
fn error_reply_and_string_ids() {
    let mut pending: PendingRequests<u8> = PendingRequests::new();
    let id = pending.register(9);
    let reply = obj(vec![("id", s(&id.to_string())), ("error", obj(vec![("code", n(1))]))]);
    match handle_parsed_line(&mut pending, Ok(reply)) {
        LineOutcome::Deliver { waiter: 9, reply: RpcReply::Failure(e) } => assert!(e.get("code").is_some()),
        _ => panic!("expected an error reply"),
    }
}

#[test]
fn reply_without_result_is_null() {
    let mut pending: PendingRequests<u8> = PendingRequests::new();
    let id = pending.register(1);
    match handle_parsed_line(&mut pending, Ok(obj(vec![("id", n(id))]))) {
        LineOutcome::Deliver { reply: RpcReply::Success(JsonValue::Null), .. } => {}
        _ => panic!("expected a null result"),
    }
}

#[test]
fn unparsable_line_is_reported() {
    let mut pending: PendingRequests<u8> = PendingRequests::new();
    match handle_parsed_line(&mut pending, Err("expected value at line 1 column 1".to_string())) {
        LineOutcome::Emit(evs) => {
            assert_eq!(evs.len(), 1);
            match &evs[0] {
                AgentStreamEvent::Error { message } => {
                    assert_eq!(message, "无法解析 ACP 消息：expected value at line 1 column 1")
                }
                _ => panic!("expected an error event"),
            }
        }
        _ => panic!("expected events"),
    }
}

#[test]
fn permission_request_is_announced_and_cancelled() {
    let mut pending: PendingRequests<u8> = PendingRequests::new();
    let msg = obj(vec![
        ("jsonrpc", s("2.0")),
        ("id", n(41)),
        ("method", s("session/request_permission")),
        ("params", obj(vec![("toolCall", obj(vec![("toolCallId", s("tc-1")), ("title", s("rm -rf build"))]))])),
    ]);
    match handle_parsed_line(&mut pending, Ok(msg)) {
        LineOutcome::RefusePermission { notice, reply, summary } => {
            assert_eq!(summary, "rm -rf build");
            match notice {
                AgentStreamEvent::PermissionRequest { request_id, tool_call_id, summary } => {
                    assert_eq!(request_id, "41");
                    assert_eq!(tool_call_id, "tc-1");
                    assert_eq!(summary, "rm -rf build");
                }
                _ => panic!("expected a permission notice"),
            }
            assert!(is_cancel_reply(&reply, &n(41)));
        }
        _ => panic!("expected a refused permission"),
    }
}

#[test]
fn permission_request_defaults() {
    match handle_server_request::<u8>(s("req-7"), "x/permission/ask", &JsonValue::Null) {
        LineOutcome::RefusePermission { notice, reply, summary } => {
            assert_eq!(summary, "请求执行工具");
            match notice {
                AgentStreamEvent::PermissionRequest { tool_call_id, .. } => assert_eq!(tool_call_id, ""),
                _ => panic!("expected a permission notice"),
            }
            assert!(is_cancel_reply(&reply, &s("req-7")));
        }
        _ => panic!("expected a refused permission"),
    }
    let flat = obj(vec![("toolCallId", s("t2")), ("title", s("Edit"))]);
    match handle_server_request::<u8>(n(1), "session/request_permission", &flat) {
        LineOutcome::RefusePermission { notice, .. } => match notice {
            AgentStreamEvent::PermissionRequest { tool_call_id, summary, .. } => {
                assert_eq!(tool_call_id, "t2");
                assert_eq!(summary, "Edit");
            }
            _ => panic!("expected a permission notice"),
        },
        _ => panic!("expected a refused permission"),
    }
    // The test is case-sensitive: `requestPermission` is not a permission request.
    assert!(matches!(
        handle_server_request::<u8>(n(1), "requestPermission", &flat),
        LineOutcome::Emit(_)
    ));
}

#[test]
fn other_agent_requests_are_reported() {
    let mut pending: PendingRequests<u8> = PendingRequests::new();
    let msg = obj(vec![("id", n(3)), ("method", s("fs/read_text_file"))]);
    match handle_parsed_line(&mut pending, Ok(msg)) {
        LineOutcome::Emit(evs) => match &evs[0] {
            AgentStreamEvent::Error { message } => assert_eq!(message, "未处理的服务端请求：fs/read_text_file"),
            _ => panic!("expected an error event"),
        },
        _ => panic!("expected an error event"),
    }
}

#[test]
fn notifications_route() {
    let update = obj(vec![
        ("method", s("session/update")),
        ("params", obj(vec![("update", obj(vec![("sessionUpdate", s("agent_message_chunk")), ("content", s("hey"))]))])),
    ]);
    let mut pending: PendingRequests<u8> = PendingRequests::new();
    match handle_parsed_line(&mut pending, Ok(update)) {
        LineOutcome::Emit(evs) => match &evs[0] {
            AgentStreamEvent::MessageDelta { text } => assert_eq!(text, "hey"),
            _ => panic!("expected a message delta"),
        },
        _ => panic!("expected events"),
    }
    let prefixed = obj(vec![("method", s("x.ai/session/update")), ("params", obj(vec![]))]);
    assert!(matches!(route_message(&prefixed), Route::SessionUpdate { params: Some(_) }));
    let other = obj(vec![("method", s("x.ai/fs_notify"))]);
    assert!(matches!(route_message(&other), Route::Ignore));
    let no_params = obj(vec![("method", s("session/update"))]);
    assert!(matches!(route_message(&no_params), Route::SessionUpdate { params: None }));
    // An id with a method that is not text is neither a reply nor a request.
    let odd = obj(vec![("id", n(1)), ("method", n(5))]);
    assert!(matches!(route_message(&odd), Route::Ignore));
}

#[test]
fn id_forms() {
    assert_eq!(json_id_as_u64(&n(5)), Some(5));
    assert_eq!(json_id_as_u64(&JsonValue::Number(JsonNumber::NegInt(-1))), Some(u64::MAX));
    assert_eq!(json_id_as_u64(&s("17")), Some(17));
    assert_eq!(json_id_as_u64(&s("+17")), Some(17));
    assert_eq!(json_id_as_u64(&s(" 17")), None);
    assert_eq!(json_id_as_u64(&JsonValue::Number(JsonNumber::Float("1.5".to_string()))), None);
    assert_eq!(json_id_as_u64(&JsonValue::Null), None);
    assert_eq!(parse_u64("18446744073709551615"), Some(u64::MAX));
    assert_eq!(parse_u64("18446744073709551616"), None);
    assert_eq!(parse_u64(""), None);
    assert_eq!(parse_u64("+"), None);
    assert_eq!(parse_u64("-1"), None);
    assert_eq!(parse_u64("12a"), None);
}

#[test]
fn request_and_permission_messages() {
    let m = request_message(4, "session/new", obj(vec![("cwd", s("/p"))]));
    assert_eq!(text_of(m.get("jsonrpc")), Some("2.0".to_string()));
    assert_eq!(json_id_as_u64(m.get("id").unwrap()), Some(4));
    assert_eq!(text_of(m.get("method")), Some("session/new".to_string()));
    assert_eq!(text_of(m.get("params").unwrap().get("cwd")), Some("/p".to_string()));
    let allow = respond_permission(n(8), true);
    let outcome = allow.get("result").unwrap().get("outcome").unwrap();
    assert_eq!(text_of(outcome.get("outcome")), Some("selected".to_string()));
    assert_eq!(text_of(outcome.get("optionId")), Some("allow-once".to_string()));
    let deny = respond_permission(n(8), false);
    assert!(is_cancel_reply(&deny, &n(8)));
}

#[test]
fn followup_after_refusal() {
    match permission_followup("Edit", Ok(())) {
        AgentStreamEvent::Error { message } => {
            assert_eq!(message, "已自动拒绝权限请求（M0 无审批 UI）：Edit。完整审批将在 M1 提供。")
        }
        _ => panic!("expected an error event"),
    }
    match permission_followup("Edit", Err(AcpError::Io("broken pipe".to_string()))) {
        AgentStreamEvent::Error { message } => assert_eq!(message, "自动拒绝权限失败：IO：broken pipe"),
        _ => panic!("expected an error event"),
    }
}

#[test]
fn error_texts() {
    assert_eq!(AcpError::Message("m".to_string()).to_text(), "m");
    assert_eq!(AcpError::Cli("x".to_string()).to_text(), "CLI 未安装或无法启动：x");
    assert_eq!(AcpError::Timeout("initialize".to_string()).to_text(), "ACP 请求超时：initialize");
    assert_eq!(AcpError::Rpc("{}".to_string()).to_text(), "JSON-RPC 错误：{}");
    assert_eq!(AcpError::Io("e".to_string()).to_text(), "IO：e");
}

#[test]
fn ids_read_back() {
    for id in [0u64, 7, 42, 1_000_000, u64::MAX] {
        assert_eq!(json_id_as_u64(&n(id)), Some(id));
        assert_eq!(json_id_as_u64(&s(&id.to_string())), Some(id));
    }
}

#[test]
fn raw_lines_are_decoded_and_routed() {
    let mut pending: PendingRequests<&str> = PendingRequests::new();
    let _ = pending.register("init");
    let line = r#"{"jsonrpc":"2.0","id":1,"result":{"protocolVersion":1}}"#;
    match handle_stdout_line(&mut pending, line) {
        LineOutcome::Deliver { waiter, reply: RpcReply::Success(v) } => {
            assert_eq!(waiter, "init");
            assert_eq!(json_id_as_u64(v.get("protocolVersion").unwrap()), Some(1));
        }
        _ => panic!("expected the reply to reach its waiter"),
    }
    assert_eq!(pending.take(1), None);
    let update = r#"{"method":"session/update","params":{"update":{"sessionUpdate":"agent_message_chunk","content":{"type":"text","text":"hi"}}}}"#;
    match handle_stdout_line(&mut pending, update) {
        LineOutcome::Emit(evs) => match &evs[..] {
            [AgentStreamEvent::MessageDelta { text }] => assert_eq!(text, "hi"),
            _ => panic!("expected one message delta"),
        },
        _ => panic!("expected events"),
    }
}

#[test]
fn raw_line_that_is_not_json_is_reported() {
    let mut pending: PendingRequests<u8> = PendingRequests::new();
    match handle_stdout_line(&mut pending, "not json") {
        LineOutcome::Emit(evs) => match &evs[..] {
            [AgentStreamEvent::Error { message }] => {
                assert!(message.starts_with("无法解析 ACP 消息："));
                assert!(message.len() > "无法解析 ACP 消息：".len());
            }
            _ => panic!("expected one error event"),
        },
        _ => panic!("expected events"),
    }
}

#[test]
fn raw_permission_request_is_refused_with_its_id() {
    let mut pending: PendingRequests<u8> = PendingRequests::new();
    let line = r#"{"jsonrpc":"2.0","id":"p-1","method":"session/request_permission","params":{"toolCallId":"t","title":"Run"}}"#;
    match handle_stdout_line(&mut pending, line) {
        LineOutcome::RefusePermission { notice, reply, summary } => {
            assert_eq!(summary, "Run");
            match notice {
                AgentStreamEvent::PermissionRequest { request_id, .. } => assert_eq!(request_id, "\"p-1\""),
                _ => panic!("expected a permission notice"),
            }
            let line = message_line(&reply);
            assert!(line.ends_with("}\n"));
            assert!(line.contains("\"id\":\"p-1\""));
            assert!(line.contains("\"result\":{\"outcome\":{\"outcome\":\"cancelled\"}}"));
        }
        _ => panic!("expected a refused permission"),
    }
}

#[test]
fn replies_become_results_or_rpc_errors() {
    match reply_result(RpcReply::Failure(obj(vec![("code", n(7))]))) {
        Err(e) => assert_eq!(e.to_text(), "JSON-RPC 错误：{\"code\":7}"),
        Ok(_) => panic!("expected an error"),
    }
    match reply_result(RpcReply::Success(s("ok"))) {
        Ok(JsonValue::String(t)) => assert_eq!(t, "ok"),
        _ => panic!("expected the result"),
    }
}

#[test]
fn message_lines_end_with_a_line_break() {
    let msg = request_message(3, "initialize", JsonValue::Null);
    let line = message_line(&msg);
    assert!(line.ends_with('\n'));
    assert_eq!(line.matches('\n').count(), 1);
    assert!(line.contains("\"method\":\"initialize\""));
    assert!(line.contains("\"id\":3"));
}
