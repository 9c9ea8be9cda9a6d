use lapce_plugin::{
    decode, encode, handle_rpc, IdAllocator, Inbound, JsonValue, LapcePlugin, Message,
    PluginError, PluginEvent, PluginEventKind, PluginServerRpcHandler, VoltEnvironment,
};

fn text(x: &str) -> String {
    x.to_string()
}

fn obj(members: Vec<(&str, JsonValue)>) -> JsonValue {
    JsonValue::Object(members.into_iter().map(|(k, v)| (k.to_string(), v)).collect())
}

fn version() -> (&'static str, JsonValue) {
    ("jsonrpc", JsonValue::Str(text("2.0")))
}

#[derive(Default)]
struct Recorder {
    requests: Vec<(u64, String, JsonValue)>,
    notifications: Vec<(String, JsonValue)>,
}

impl LapcePlugin for Recorder {
    fn handle_request(&mut self, id: u64, method: String, params: JsonValue) {
        self.requests.push((id, method, params));
    }

    fn handle_notification(&mut self, method: String, params: JsonValue) {
        self.notifications.push((method, params));
    }
}

#[test]
fn allocator_counts_from_zero() {
    let mut ids = IdAllocator::new();
    let got: Vec<Option<u64>> = (0..5).map(|_| ids.next()).collect();
    assert_eq!(got, vec![Some(0), Some(1), Some(2), Some(3), Some(4)]);
}

#[test]
fn request_returns_result() {
    let mut handler = PluginServerRpcHandler::new();
    let sent = handler
        .host_request(text("foo"), obj(vec![("x", JsonValue::UInt(1))]))
        .unwrap();
    assert_eq!(
        sent,
        Message::Request {
            id: 0,
            method: text("foo"),
            params: Some(obj(vec![("x", JsonValue::UInt(1))])),
        }
    );
    let reply = obj(vec![version(), ("id", JsonValue::UInt(0)), ("result", obj(vec![("y", JsonValue::UInt(2))]))]);
    assert_eq!(
        handler.complete_request(decode(reply)),
        Ok(obj(vec![("y", JsonValue::UInt(2))]))
    );
}

#[test]
fn request_fails_with_remote_error() {
    let mut handler = PluginServerRpcHandler::new();
    handler.host_request(text("foo"), obj(vec![("x", JsonValue::UInt(1))])).unwrap();
    let reply = obj(vec![
        version(),
        ("id", JsonValue::UInt(0)),
        (
            "error",
            obj(vec![("code", JsonValue::NegInt(-32000)), ("message", JsonValue::Str(text("boom")))]),
        ),
    ]);
    assert_eq!(
        handler.complete_request(decode(reply)),
        Err(PluginError::RemoteError { code: -32000, message: text("boom") })
    );
}

#[test]
fn request_ids_increase() {
    let mut handler = PluginServerRpcHandler::new();
    for expected in 0..3u64 {
        let sent = handler.host_request(text("m"), JsonValue::Null).unwrap();
        assert_eq!(sent, Message::Request { id: expected, method: text("m"), params: Some(JsonValue::Null) });
        let reply = obj(vec![version(), ("id", JsonValue::UInt(expected)), ("result", JsonValue::Null)]);
        assert_eq!(handler.complete_request(decode(reply)), Ok(JsonValue::Null));
    }
}

#[test]
fn mismatched_reply_violates_protocol() {
    let mut handler = PluginServerRpcHandler::new();
    handler.host_request(text("foo"), JsonValue::Null).unwrap();
    let reply = obj(vec![version(), ("id", JsonValue::UInt(4)), ("result", JsonValue::Null)]);
    assert_eq!(handler.complete_request(decode(reply)), Err(PluginError::ProtocolViolation));
}

#[test]
fn undecodable_reply_violates_protocol() {
    let mut handler = PluginServerRpcHandler::new();
    handler.host_request(text("foo"), JsonValue::Null).unwrap();
    assert_eq!(handler.complete_request(decode(JsonValue::Null)), Err(PluginError::ProtocolViolation));
}

#[test]
fn reply_with_nothing_pending_violates_protocol() {
    let mut handler = PluginServerRpcHandler::new();
    let reply = obj(vec![version(), ("id", JsonValue::UInt(0)), ("result", JsonValue::Null)]);
    assert_eq!(handler.complete_request(decode(reply)), Err(PluginError::ProtocolViolation));
}

#[test]
fn second_request_while_one_is_open_is_refused() {
    let mut handler = PluginServerRpcHandler::new();
    handler.host_request(text("a"), JsonValue::Null).unwrap();
    assert_eq!(handler.host_request(text("b"), JsonValue::Null), Err(PluginError::ProtocolViolation));
}

#[test]
fn dispatch_of_unmatched_reply_leaves_open_call() {
    let mut handler = PluginServerRpcHandler::new();
    handler.host_request(text("foo"), JsonValue::Null).unwrap();
    let stray = obj(vec![version(), ("id", JsonValue::UInt(7)), ("result", JsonValue::Null)]);
    assert_eq!(handler.dispatch(decode(stray)), Inbound::Fault(PluginError::ProtocolViolation));
    let reply = obj(vec![version(), ("id", JsonValue::UInt(0)), ("result", JsonValue::Bool(true))]);
    assert_eq!(handler.complete_request(decode(reply)), Ok(JsonValue::Bool(true)));
}

#[test]
fn inbound_request_reaches_plugin_once() {
    let handler = PluginServerRpcHandler::new();
    let mut plugin = Recorder::default();
    let line = obj(vec![
        version(),
        ("id", JsonValue::UInt(5)),
        ("method", JsonValue::Str(text("bar"))),
        ("params", obj(vec![])),
    ]);
    assert_eq!(handle_rpc(&handler, &mut plugin, line), None);
    assert_eq!(plugin.requests, vec![(5, text("bar"), obj(vec![]))]);
    assert!(plugin.notifications.is_empty());
}

#[test]
fn inbound_notification_without_params_gets_empty_object() {
    let handler = PluginServerRpcHandler::new();
    let mut plugin = Recorder::default();
    let line = obj(vec![version(), ("method", JsonValue::Str(text("tick")))]);
    assert_eq!(handle_rpc(&handler, &mut plugin, line), None);
    assert_eq!(plugin.notifications, vec![(text("tick"), obj(vec![]))]);
    assert!(plugin.requests.is_empty());
}

#[test]
fn malformed_inbound_calls_nothing() {
    let handler = PluginServerRpcHandler::new();
    let mut plugin = Recorder::default();
    let line = obj(vec![version(), ("id", JsonValue::UInt(5))]);
    assert_eq!(handle_rpc(&handler, &mut plugin, line), Some(PluginError::MalformedMessage));
    assert!(plugin.requests.is_empty());
    assert!(plugin.notifications.is_empty());
}

#[test]
fn notify_writes_one_line_and_later_reply_is_a_fault() {
    let handler = PluginServerRpcHandler::new();
    let line = encode(handler.host_notification(text("ping"), obj(vec![])));
    assert_eq!(
        line,
        obj(vec![version(), ("method", JsonValue::Str(text("ping"))), ("params", obj(vec![]))])
    );
    let mut plugin = Recorder::default();
    let stray = obj(vec![version(), ("id", JsonValue::UInt(0)), ("result", JsonValue::Null)]);
    assert_eq!(handle_rpc(&handler, &mut plugin, stray), Some(PluginError::ProtocolViolation));
    assert!(plugin.requests.is_empty() && plugin.notifications.is_empty());
}

#[test]
fn host_error_uses_invalid_params_code() {
    let handler = PluginServerRpcHandler::new();
    assert_eq!(
        handler.host_error(3, text("nope")),
        Message::Error { id: 3, code: -32602, message: text("nope"), data: None }
    );
}

#[test]
fn host_success_answers_request() {
    let handler = PluginServerRpcHandler::new();
    assert_eq!(
        handler.host_success(3, JsonValue::UInt(1)),
        Message::Success { id: 3, result: JsonValue::UInt(1) }
    );
}

#[test]
fn environment_lookup() {
    assert_eq!(VoltEnvironment::require(text("VOLT_OS"), Some(text("linux"))), Ok(text("linux")));
    assert_eq!(
        VoltEnvironment::require(text("VOLT_OS"), None),
        Err(PluginError::EnvironmentMissing(text("VOLT_OS")))
    );
}

#[test]
fn event_kind() {
    let e = PluginEvent::FileEditorClosed { path: text("/tmp/a.rs") };
    assert_eq!(e.kind(), PluginEventKind::FileEditorClosed);
}
