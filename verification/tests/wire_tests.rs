use serde_json::Value;
use yx_client::json::{jstr, obj1, obj2, obj_empty, Json};
use yx_client::wire::{request_line, scan_response_lines, ScanOutcome};

/// Plays the peer side of the wire: deserializes the one line the client
/// would write, as a stub listener would.
fn wire(name: &str, args: &Json, ws: &str, arming: bool) -> Value {
    let line = request_line(name, args, ws, arming).expect("supported command");
    serde_json::from_str(&line).expect("request line is json")
}

fn sargs(pairs: &[(&str, &str)]) -> Json {
    let mut o = obj_empty();
    for (k, v) in pairs {
        o = yx_client::json::obj_push(o, k, jstr(v));
    }
    o
}

#[test]
fn wire_envelope_fields() {
    let v = wire("status", &obj_empty(), "dev", false);
    assert_eq!(v["v"], 1);
    assert_eq!(v["ws_id"], "dev");
    assert_eq!(v["arming"], false);
    assert!(v.get("role").is_none());
}

#[test]
fn wire_envelope_arming_adds_role() {
    let v = wire("status", &obj_empty(), "prod", true);
    assert_eq!(v["arming"], true);
    assert_eq!(v["role"], "operator");
    assert_eq!(v["ws_id"], "prod");
}

#[test]
fn wire_status() {
    let v = wire("status", &obj_empty(), "dev", false);
    assert!(v["request"]["Status"].as_object().unwrap().is_empty());
}

#[test]
fn wire_handshake() {
    let v = wire("protocol.handshake", &sargs(&[("client", "ui")]), "dev", false);
    assert_eq!(v["request"]["ProtocolHandshake"]["client"], "ui");
    let v2 = wire("protocol.handshake", &obj_empty(), "dev", false);
    assert!(v2["request"]["ProtocolHandshake"]["client"].is_null());
}

#[test]
fn wire_ping() {
    let v = wire("ping", &obj_empty(), "dev", false);
    assert!(v["request"]["Ping"].as_object().unwrap().is_empty());
}

#[test]
fn wire_providers_discover() {
    let v = wire(
        "providers.discover",
        &sargs(&[("endpoint", "http://e"), ("model", "m")]),
        "dev",
        false,
    );
    assert_eq!(v["request"]["ProvidersDiscover"]["endpoint"], "http://e");
    assert_eq!(v["request"]["ProvidersDiscover"]["model"], "m");
    let v2 = wire("providers.discover", &obj_empty(), "dev", false);
    assert!(v2["request"]["ProvidersDiscover"]["endpoint"].is_null());
    assert!(v2["request"]["ProvidersDiscover"]["model"].is_null());
}

#[test]
fn wire_providers_list_status_detach() {
    let v = wire("providers.list", &obj_empty(), "dev", false);
    assert!(v["request"]["ProvidersList"].as_object().unwrap().is_empty());
    let v = wire("providers.status", &obj_empty(), "dev", false);
    assert!(v["request"]["ProvidersStatus"].as_object().unwrap().is_empty());
    let v = wire("providers.detach", &obj_empty(), "dev", false);
    assert!(v["request"]["ProvidersDetach"].as_object().unwrap().is_empty());
}

#[test]
fn wire_providers_pair_defaults_to_empty_strings() {
    let v = wire("providers.pair", &sargs(&[("id", "p1")]), "dev", false);
    assert_eq!(v["request"]["ProvidersPair"]["id"], "p1");
    assert_eq!(v["request"]["ProvidersPair"]["endpoint"], "");
    assert_eq!(v["request"]["ProvidersPair"]["model"], "");
}

#[test]
fn wire_providers_attach() {
    let v = wire("providers.attach", &sargs(&[("id", "p1"), ("model", "m")]), "dev", false);
    assert_eq!(v["request"]["ProvidersAttach"]["id"], "p1");
    assert_eq!(v["request"]["ProvidersAttach"]["model"], "m");
    let v2 = wire("providers.attach", &obj_empty(), "dev", false);
    assert_eq!(v2["request"]["ProvidersAttach"]["id"], "");
    assert!(v2["request"]["ProvidersAttach"]["model"].is_null());
}

#[test]
fn wire_providers_revoke() {
    let v = wire("providers.revoke", &sargs(&[("id", "p9")]), "dev", false);
    assert_eq!(v["request"]["ProvidersRevoke"]["id"], "p9");
}

#[test]
fn wire_events_subscribe() {
    let v = wire("events.subscribe", &obj_empty(), "dev", false);
    assert!(v["request"]["EventsSubscribe"].as_object().unwrap().is_empty());
}

#[test]
fn wire_chat_sessions_list() {
    let v = wire("chat.sessions.list", &obj_empty(), "dev", false);
    assert!(v["request"]["ChatSessionsList"].as_object().unwrap().is_empty());
}

#[test]
fn wire_chat_session_new() {
    let v = wire("chat.session.new", &sargs(&[("title", "T")]), "dev", false);
    assert_eq!(v["request"]["ChatSessionNew"]["title"], "T");
}

#[test]
fn wire_chat_history() {
    let v = wire("chat.history", &sargs(&[("session_id", "s1")]), "dev", false);
    assert_eq!(v["request"]["ChatHistory"]["session_id"], "s1");
}

#[test]
fn wire_chat_send() {
    let v = wire("chat.send", &sargs(&[("session_id", "s1"), ("text", "hello")]), "dev", false);
    assert_eq!(v["request"]["ChatSend"]["session_id"], "s1");
    assert_eq!(v["request"]["ChatSend"]["text"], "hello");
    // stream defaults to true when absent
    assert_eq!(v["request"]["ChatSend"]["stream"], true);
}

#[test]
fn wire_chat_send_stream_false() {
    let mut args = sargs(&[("text", "x")]);
    args = yx_client::json::obj_push(args, "stream", Json::Bool(false));
    let v = wire("chat.send", &args, "dev", false);
    assert_eq!(v["request"]["ChatSend"]["stream"], false);
}

#[test]
fn wire_shell_exec() {
    let mut args = sargs(&[("cmd", "ls"), ("cwd", "/tmp")]);
    let mut arr = yx_client::json::arr_empty();
    arr = yx_client::json::arr_push(arr, jstr("-l"));
    arr = yx_client::json::arr_push(arr, Json::Int(3));
    arr = yx_client::json::arr_push(arr, jstr("-a"));
    args = yx_client::json::obj_push(args, "args", arr);
    let v = wire("shell.exec", &args, "dev", false);
    assert_eq!(v["request"]["ShellExec"]["cmd"], "ls");
    assert_eq!(v["request"]["ShellExec"]["cwd"], "/tmp");
    // non-string elements are dropped, order kept
    let items = v["request"]["ShellExec"]["args"].as_array().unwrap();
    assert_eq!(items.len(), 2);
    assert_eq!(items[0], "-l");
    assert_eq!(items[1], "-a");
}

#[test]
fn wire_down() {
    let mut args = obj_empty();
    args = yx_client::json::obj_push(args, "force", Json::Bool(true));
    let v = wire("down", &args, "dev", false);
    assert_eq!(v["request"]["Down"]["force"], true);
    assert_eq!(v["request"]["Down"]["shutdown"], false);
}

#[test]
fn wire_unknown_name_has_no_line() {
    assert!(request_line("bogus.command", &obj_empty(), "dev", false).is_none());
}

#[test]
fn scan_skips_noop_frames_to_terminal_payload() {
    let lines = vec!["{}".to_string(), "{}".to_string(), "{\"x\":1}".to_string()];
    match scan_response_lines(&lines, false, "t-1") {
        ScanOutcome::Done(p) => assert_eq!(p, obj1("x", Json::Int(1))),
        other => panic!("expected a payload, got {:?}", scan_debug(&other)),
    }
}

#[test]
fn scan_skips_null_and_ack_frames() {
    let lines = vec![
        "null".to_string(),
        "{\"type\":\"ack\",\"seq\":1}".to_string(),
        "{\"ok\":true}".to_string(),
    ];
    match scan_response_lines(&lines, false, "t-1") {
        ScanOutcome::Done(p) => assert_eq!(p, obj1("ok", Json::Bool(true))),
        other => panic!("expected a payload, got {:?}", scan_debug(&other)),
    }
}

#[test]
fn scan_error_frame_fails_with_its_message() {
    let lines = vec!["{\"type\":\"error\",\"message\":\"boom\"}".to_string()];
    match scan_response_lines(&lines, false, "t-1") {
        ScanOutcome::Fail(m) => assert_eq!(m, "boom"),
        other => panic!("expected a failure, got {:?}", scan_debug(&other)),
    }
}

#[test]
fn scan_error_frame_without_message_uses_fallback() {
    let lines = vec!["{\"type\":\"error\"}".to_string()];
    match scan_response_lines(&lines, false, "t-1") {
        ScanOutcome::Fail(m) => assert_eq!(m, "daemon error"),
        other => panic!("expected a failure, got {:?}", scan_debug(&other)),
    }
}

#[test]
fn scan_invalid_json_fails_with_trace_id() {
    let lines = vec!["not json".to_string()];
    match scan_response_lines(&lines, false, "t-42") {
        ScanOutcome::Fail(m) => assert_eq!(m, "invalid json response for trace_id=t-42"),
        other => panic!("expected a failure, got {:?}", scan_debug(&other)),
    }
}

#[test]
fn scan_exhausted_budget_is_empty_response() {
    let lines: Vec<String> = (0..8).map(|_| "{}".to_string()).collect();
    match scan_response_lines(&lines, false, "t-1") {
        ScanOutcome::Fail(m) => assert_eq!(m, "empty response from daemon"),
        other => panic!("expected a failure, got {:?}", scan_debug(&other)),
    }
}

#[test]
fn scan_needs_more_until_eof() {
    let lines = vec!["{}".to_string()];
    assert!(matches!(scan_response_lines(&lines, false, "t-1"), ScanOutcome::NeedMore));
    match scan_response_lines(&lines, true, "t-1") {
        ScanOutcome::Fail(m) => assert_eq!(m, "empty response from daemon"),
        other => panic!("expected a failure, got {:?}", scan_debug(&other)),
    }
}

#[test]
fn scan_float_payload_is_rejected_as_invalid() {
    let lines = vec!["{\"x\":1.5}".to_string()];
    match scan_response_lines(&lines, false, "t-7") {
        ScanOutcome::Fail(m) => assert_eq!(m, "invalid json response for trace_id=t-7"),
        other => panic!("expected a failure, got {:?}", scan_debug(&other)),
    }
}

fn scan_debug(o: &ScanOutcome) -> String {
    match o {
        ScanOutcome::NeedMore => "NeedMore".to_string(),
        ScanOutcome::Fail(m) => format!("Fail({})", m),
        ScanOutcome::Done(_) => "Done".to_string(),
    }
}
