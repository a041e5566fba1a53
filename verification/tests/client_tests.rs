use grok_desktop::client::{
    agent_exited_status, begin_prompt, begin_request, connect_begin, connect_step, connection_status,
    missing_session_id_error, read_failure_event, stderr_notice, request_timed_out, shutdown_status, stdout_line,
    turn_events, ConnectAction, ConnectEvent, ConnectFailure, ConnectPhase, TurnOutcome,
};
use grok_desktop::commands::{chosen_cwd, not_connected_message, prompt_text};
use grok_desktop::events::{AgentStreamEvent, ConnectionStatus};
use grok_desktop::json::{json_id_as_u64, JsonNumber, JsonValue};
use grok_desktop::pending::PendingRequests;
use grok_desktop::rpc::{handle_parsed_line, AcpError, LineOutcome};

fn s(t: &str) -> JsonValue {
    JsonValue::String(t.to_string())
}

fn obj(members: Vec<(&str, JsonValue)>) -> JsonValue {
    JsonValue::Object(members.into_iter().map(|(k, v)| (k.to_string(), v)).collect())
}

fn text_of(v: Option<&JsonValue>) -> Option<String> {
    match v {
        Some(JsonValue::String(t)) => Some(t.clone()),
        _ => None,
    }
}

#[test]
fn handshake_connects_in_order() {
    let (phase, status) = connect_begin();
    assert_eq!(status.status, ConnectionStatus::Connecting);
    assert_eq!(status.message.as_deref(), Some("正在启动 Grok Agent…"));

    let (phase, action) = connect_step(phase, ConnectEvent::PathResolved(Some("/bin/grok".to_string())), "/work", "0.1.0");
    match &action {
        ConnectAction::Spawn { program } => assert_eq!(program, "/bin/grok"),
        _ => panic!("expected Spawn"),
    }
    let (phase, action) = connect_step(phase, ConnectEvent::Spawned(Ok(())), "/work", "0.1.0");
    match &action {
        ConnectAction::Request { method, params } => {
            assert_eq!(method, "initialize");
            assert!(matches!(params.get("protocolVersion"), Some(JsonValue::Number(JsonNumber::PosInt(1)))));
            let info = params.get("clientInfo").unwrap();
            assert_eq!(text_of(info.get("name")), Some("grok-build-desktop".to_string()));
            assert_eq!(text_of(info.get("version")), Some("0.1.0".to_string()));
            let fs = params.get("clientCapabilities").unwrap().get("fs").unwrap();
            assert!(matches!(fs.get("readTextFile"), Some(JsonValue::Bool(true))));
            assert!(matches!(fs.get("writeTextFile"), Some(JsonValue::Bool(false))));
        }
        _ => panic!("expected the initialize request"),
    }
    let (phase, action) = connect_step(phase, ConnectEvent::Replied(Ok(obj(vec![]))), "/work", "0.1.0");
    match &action {
        ConnectAction::Request { method, params } => {
            assert_eq!(method, "session/new");
            assert_eq!(text_of(params.get("cwd")), Some("/work".to_string()));
            assert!(matches!(params.get("mcpServers"), Some(JsonValue::Array(v)) if v.is_empty()));
        }
        _ => panic!("expected the session/new request"),
    }
    let reply = obj(vec![("session_id", s("sess-1"))]);
    let (phase, action) = connect_step(phase, ConnectEvent::Replied(Ok(reply)), "/work", "0.1.0");
    match (&phase, &action) {
        (ConnectPhase::Connected { cli_path, session_id }, ConnectAction::Finish(status)) => {
            assert_eq!(cli_path, "/bin/grok");
            assert_eq!(session_id, "sess-1");
            assert_eq!(status.status, ConnectionStatus::Connected);
            assert_eq!(status.message.as_deref(), Some("已连接"));
            assert_eq!(status.session_id.as_deref(), Some("sess-1"));
            assert_eq!(status.cli_path.as_deref(), Some("/bin/grok"));
        }
        _ => panic!("expected to be connected"),
    }
}

#[test]
fn handshake_failures() {
    let (phase, action) = connect_step(ConnectPhase::Resolving, ConnectEvent::PathResolved(None), "/w", "1");
    assert!(matches!(phase, ConnectPhase::Failed));
    match action {
        ConnectAction::Fail(ConnectFailure::Error(e)) => {
            assert_eq!(e.to_text(), "CLI 未安装或无法启动：未找到 grok 可执行文件")
        }
        _ => panic!("expected a failure"),
    }
    let spawning = ConnectPhase::Spawning { cli_path: "/x/grok".to_string() };
    match connect_step(spawning, ConnectEvent::Spawned(Err("No such file".to_string())), "/w", "1").1 {
        ConnectAction::Fail(ConnectFailure::Error(e)) => {
            assert_eq!(e.to_text(), "CLI 未安装或无法启动：无法启动 `/x/grok agent stdio`：No such file")
        }
        _ => panic!("expected a failure"),
    }
    let initializing = ConnectPhase::Initializing { cli_path: "/x/grok".to_string() };
    match connect_step(initializing, ConnectEvent::Replied(Err(AcpError::Timeout("initialize".to_string()))), "/w", "1").1 {
        ConnectAction::Fail(ConnectFailure::Error(e)) => assert_eq!(e.to_text(), "ACP 请求超时：initialize"),
        _ => panic!("expected a failure"),
    }
    // A `sessionId` member that is not text does not fall back to `session_id`.
    let opening = ConnectPhase::OpeningSession { cli_path: "/x/grok".to_string() };
    let reply = obj(vec![("sessionId", JsonValue::Null), ("session_id", s("s"))]);
    match connect_step(opening, ConnectEvent::Replied(Ok(reply)), "/w", "1").1 {
        ConnectAction::Fail(ConnectFailure::NoSessionId(v)) => assert!(v.get("session_id").is_some()),
        _ => panic!("expected a missing session id"),
    }
    assert_eq!(missing_session_id_error(&obj(vec![])).to_text(), "JSON-RPC 错误：session/new 未返回 sessionId：{}");
}

#[test]
fn requests_take_increasing_ids() {
    let mut pending: PendingRequests<u8> = PendingRequests::new();
    let (id1, m1) = begin_request(&mut pending, "initialize", JsonValue::Null, 1);
    let (id2, m2) = begin_request(&mut pending, "session/new", JsonValue::Null, 2);
    assert_eq!((id1, id2), (1, 2));
    assert_eq!(json_id_as_u64(m1.get("id").unwrap()), Some(1));
    assert_eq!(json_id_as_u64(m2.get("id").unwrap()), Some(2));
    match request_timed_out(&mut pending, id1, "initialize") {
        AcpError::Timeout(m) => assert_eq!(m, "initialize"),
        _ => panic!("expected a timeout"),
    }
    assert_eq!(pending.take(id1), None);
    assert_eq!(pending.take(id2), Some(2));
}

#[test]
fn prompt_needs_a_session() {
    let mut pending: PendingRequests<u8> = PendingRequests::new();
    match begin_prompt(&mut pending, "", "hi", 1) {
        Err(AcpError::Message(m)) => assert_eq!(m, "尚未创建会话"),
        _ => panic!("expected an error"),
    }
    assert_eq!(pending.take(1), None);
    let msg = begin_prompt(&mut pending, "s1", "hi", 1).ok().unwrap();
    assert_eq!(text_of(msg.get("method")), Some("session/prompt".to_string()));
    let params = msg.get("params").unwrap();
    assert_eq!(text_of(params.get("sessionId")), Some("s1".to_string()));
    match params.get("prompt") {
        Some(JsonValue::Array(blocks)) => {
            assert_eq!(blocks.len(), 1);
            assert_eq!(text_of(blocks[0].get("type")), Some("text".to_string()));
            assert_eq!(text_of(blocks[0].get("text")), Some("hi".to_string()));
        }
        _ => panic!("expected a prompt list"),
    }
    assert_eq!(pending.take(1), Some(1));
}

fn last_is_only_turn_complete(evs: &[AgentStreamEvent]) -> bool {
    matches!(evs.last(), Some(AgentStreamEvent::TurnComplete))
        && evs.iter().filter(|e| matches!(e, AgentStreamEvent::TurnComplete)).count() == 1
}

#[test]
fn every_turn_completes_once() {
    let ok = turn_events(TurnOutcome::Replied(Ok(JsonValue::Null)));
    assert_eq!(ok.len(), 1);
    assert!(last_is_only_turn_complete(&ok));
    let err = turn_events(TurnOutcome::Replied(Err(AcpError::Rpc("{\"code\":-1}".to_string()))));
    assert_eq!(err.len(), 2);
    match &err[0] {
        AgentStreamEvent::Error { message } => assert_eq!(message, "JSON-RPC 错误：{\"code\":-1}"),
        _ => panic!("expected an error first"),
    }
    assert!(last_is_only_turn_complete(&err));
    let late = turn_events(TurnOutcome::NoReply);
    match &late[0] {
        AgentStreamEvent::Error { message } => assert_eq!(message, "等待模型回复超时"),
        _ => panic!("expected an error first"),
    }
    assert!(last_is_only_turn_complete(&late));
}

#[test]
fn statuses() {
    let s1 = connection_status(None);
    assert_eq!(s1.status, ConnectionStatus::Disconnected);
    assert_eq!(s1.message.as_deref(), Some("未连接"));
    assert!(s1.session_id.is_none() && s1.cli_path.is_none());
    let s2 = connection_status(Some(("abc", "/bin/grok")));
    assert_eq!(s2.status, ConnectionStatus::Connected);
    assert_eq!(s2.session_id.as_deref(), Some("abc"));
    assert_eq!(agent_exited_status().message.as_deref(), Some("Agent 进程已退出"));
    assert_eq!(shutdown_status().message.as_deref(), Some("已断开"));
    match read_failure_event("bad fd") {
        AgentStreamEvent::Error { message } => assert_eq!(message, "读取 ACP stdout 失败：bad fd"),
        _ => panic!("expected an error event"),
    }
}

#[test]
fn stdout_lines_are_trimmed() {
    assert_eq!(stdout_line("  {\"id\":1}\r"), Some("{\"id\":1}".to_string()));
    assert_eq!(stdout_line(" \t\u{a0}"), None);
    assert_eq!(stdout_line(""), None);
}

#[test]
fn command_arguments() {
    assert_eq!(chosen_cwd(Some(" /p ".to_string())), Some(" /p ".to_string()));
    assert_eq!(chosen_cwd(Some("   ".to_string())), None);
    assert_eq!(chosen_cwd(None), None);
    assert_eq!(prompt_text("  hello \n"), Ok("hello".to_string()));
    assert_eq!(prompt_text(" \n "), Err("消息不能为空".to_string()));
    assert_eq!(not_connected_message(), "尚未连接 Agent，请先点击连接");
}

#[test]
fn stderr_lines_worth_showing() {
    match stderr_notice("  Error: Unauthorized  \r") {
        Some(AgentStreamEvent::Error { message }) => assert_eq!(message, "CLI: Error: Unauthorized"),
        _ => panic!("expected a notice"),
    }
    assert!(matches!(stderr_notice("Please LOGIN first"), Some(AgentStreamEvent::Error { .. })));
    assert!(matches!(stderr_notice("request FAILED"), Some(AgentStreamEvent::Error { .. })));
    assert!(stderr_notice("INFO starting agent").is_none());
    assert!(stderr_notice("   ").is_none());
}

#[test]
fn late_reply_after_timeout_is_dropped() {
    let mut pending: PendingRequests<u8> = PendingRequests::new();
    let (id, _) = begin_request(&mut pending, "initialize", JsonValue::Null, 7);
    let _ = request_timed_out(&mut pending, id, "initialize");
    let late = obj(vec![("id", JsonValue::Number(JsonNumber::PosInt(id))), ("result", JsonValue::Null)]);
    match handle_parsed_line(&mut pending, Ok(late)) {
        LineOutcome::Emit(evs) => assert!(evs.is_empty()),
        _ => panic!("a late reply is dropped"),
    }
}
