use yx_client::events::{handle_stream_line, map_event, subscribe_request_line, StreamStep};
use yx_client::ids::{format_trace_id, next_trace_id, u64_string};
use yx_client::json::{jstr, obj1, obj2, obj5, obj_empty, obj_push, Json};
use yx_client::protocol::{mode_from_str, Mode, WorkspaceInfo};
use yx_client::transport::{
    connection_state, finish_command, mock_response, ping_selected, prepare_command, CommandPlan,
};
use yx_client::workspace::{
    list_known_workspaces, parse_workspace_from_toml, resolve_ws_preference, run_root,
    socket_path_for_ws, workspaces_list, ws_from_configs,
};

fn live_state(mode: Mode, connected: bool) -> yx_client::protocol::ConnectionState {
    let probe = if connected { Some(7u64) } else { None };
    connection_state(mode, "dev".to_string(), "/home/u", &probe, 1000)
}

#[test]
fn mode_from_str_vocabulary() {
    assert_eq!(mode_from_str(&Some("mock".to_string())), Mode::Mock);
    assert_eq!(mode_from_str(&Some("real".to_string())), Mode::Real);
    assert_eq!(mode_from_str(&Some("anything".to_string())), Mode::Auto);
    assert_eq!(mode_from_str(&None), Mode::Auto);
}

#[test]
fn paths_under_run_root() {
    assert_eq!(run_root("/home/u"), "/home/u/.yai/run");
    assert_eq!(socket_path_for_ws("/home/u", "dev"), "/home/u/.yai/run/dev/control.sock");
}

#[test]
fn toml_scan_quoted_value() {
    let c = "# a comment\n\nws = \"alpha\"\nother = 1\n";
    assert_eq!(parse_workspace_from_toml(c), Some("alpha".to_string()));
}

#[test]
fn toml_scan_bare_value_and_workspace_key() {
    assert_eq!(parse_workspace_from_toml("workspace = beta"), Some("beta".to_string()));
    assert_eq!(parse_workspace_from_toml("ws='gamma'"), Some("gamma".to_string()));
}

#[test]
fn toml_scan_key_without_equals_stops_the_scan() {
    assert_eq!(parse_workspace_from_toml("ws\nws = \"later\""), None);
}

#[test]
fn toml_scan_empty_value_keeps_scanning() {
    assert_eq!(parse_workspace_from_toml("ws = \"\"\nws = \"second\""), Some("second".to_string()));
}

#[test]
fn toml_scan_nothing_found() {
    assert_eq!(parse_workspace_from_toml("# only comments\n\nkey = 1\n"), None);
}

#[test]
fn config_candidates_first_hit_wins() {
    let contents = vec![
        None,
        Some("# nothing here".to_string()),
        Some("ws = \"from-config\"".to_string()),
    ];
    assert_eq!(ws_from_configs(&contents), Some("from-config".to_string()));
    assert_eq!(ws_from_configs(&vec![None, None]), None);
}

#[test]
fn config_candidate_that_stops_its_scan_does_not_stop_the_next() {
    let contents = vec![
        Some("ws".to_string()),
        Some("ws = \"second-file\"".to_string()),
    ];
    assert_eq!(ws_from_configs(&contents), Some("second-file".to_string()));
}

#[test]
fn catalog_baseline_without_run_root() {
    // the run directory yielded nothing: the baseline is still there
    let r = list_known_workspaces(&vec![]);
    assert_eq!(r, vec!["dev".to_string(), "stage".to_string(), "prod".to_string()]);
}

#[test]
fn catalog_merges_discovered_names_without_duplicates() {
    let discovered = vec!["prod".to_string(), "zeta".to_string(), "zeta".to_string()];
    let r = list_known_workspaces(&discovered);
    assert_eq!(
        r,
        vec!["dev".to_string(), "stage".to_string(), "prod".to_string(), "zeta".to_string()]
    );
}

fn row(ws: &str, exists: bool, alive: bool) -> WorkspaceInfo {
    WorkspaceInfo {
        ws: ws.to_string(),
        socket_path: socket_path_for_ws("/home/u", ws),
        exists,
        alive,
    }
}

#[test]
fn resolve_precedence_override_first() {
    let probed = vec![row("dev", true, true)];
    let r = resolve_ws_preference(&Some("forced".to_string()), &Some("cfg".to_string()), &probed);
    assert_eq!(r, "forced");
}

#[test]
fn resolve_blank_override_falls_through_to_config() {
    let r = resolve_ws_preference(&Some("   ".to_string()), &Some("cfg".to_string()), &vec![]);
    assert_eq!(r, "cfg");
}

#[test]
fn resolve_first_live_workspace_else_default() {
    let probed = vec![row("dev", true, false), row("stage", false, false), row("prod", true, true)];
    assert_eq!(resolve_ws_preference(&None, &None, &probed), "prod");
    assert_eq!(resolve_ws_preference(&None, &None, &vec![row("dev", false, false)]), "dev");
    assert_eq!(resolve_ws_preference(&None, &None, &vec![]), "dev");
}

#[test]
fn workspaces_list_rows() {
    let names = vec!["dev".to_string(), "stage".to_string()];
    let flags = vec![(true, true), (true, false)];
    let l = workspaces_list("/home/u", &names, &flags, "dev".to_string());
    assert_eq!(l.selected_ws, "dev");
    assert_eq!(l.items.len(), 2);
    assert_eq!(l.items[0].ws, "dev");
    assert_eq!(l.items[0].socket_path, "/home/u/.yai/run/dev/control.sock");
    assert!(l.items[0].exists && l.items[0].alive);
    assert!(l.items[1].exists && !l.items[1].alive);
}

#[test]
fn connection_state_auto_without_socket() {
    // no socket for `dev`, configured mode automatic
    let st = connection_state(Mode::Auto, "dev".to_string(), "/home/u", &None, 500);
    assert_eq!(st.resolved_mode, Mode::Real);
    assert!(!st.connected);
    assert_eq!(st.latency_ms, None);
    assert_eq!(st.last_ok_ts_ms, None);
    assert_eq!(st.socket_path, "/home/u/.yai/run/dev/control.sock");
}

#[test]
fn connection_state_mock_resolves_mock() {
    let st = connection_state(Mode::Mock, "dev".to_string(), "/home/u", &Some(3), 500);
    assert_eq!(st.resolved_mode, Mode::Mock);
    assert!(st.connected);
    assert_eq!(st.latency_ms, Some(3));
    assert_eq!(st.last_ok_ts_ms, Some(500));
}

#[test]
fn mock_chat_send_echoes_text() {
    // offline-simulated chat.send with {"text": "hi"}
    let st = live_state(Mode::Mock, false);
    let args = obj1("text", jstr("hi"));
    match prepare_command(&st, "chat.send", args, false, "t-1".to_string(), 9) {
        CommandPlan::Done(res) => {
            assert!(res.ok);
            let payload = res.result.expect("payload");
            let msg = payload.get("message").expect("message");
            assert_eq!(msg.get("content"), Some(&jstr("echo: hi")));
        },
        CommandPlan::Wire(_) => panic!("offline-simulated command reached the wire"),
    }
}

#[test]
fn mock_payload_is_deterministic() {
    let p1 = mock_response("status", obj1("k", Json::Int(1)));
    let p2 = mock_response("status", obj1("k", Json::Int(1)));
    assert_eq!(p1, p2);
    let q1 = mock_response("anything.else", obj_empty());
    let q2 = mock_response("anything.else", obj_empty());
    assert_eq!(q1, q2);
}

#[test]
fn mock_succeeds_even_for_unknown_names() {
    let st = live_state(Mode::Mock, false);
    match prepare_command(&st, "no.such.command", obj_empty(), false, "t-2".to_string(), 9) {
        CommandPlan::Done(res) => {
            assert!(res.ok);
            let payload = res.result.expect("payload");
            assert_eq!(payload.get("name"), Some(&jstr("no.such.command")));
        },
        CommandPlan::Wire(_) => panic!("offline-simulated command reached the wire"),
    }
}

#[test]
fn mock_shell_exec_payload() {
    let p = mock_response("shell.exec", obj_empty());
    assert_eq!(p.get("exit_code"), Some(&Json::Int(0)));
    assert_eq!(p.get("stdout"), Some(&jstr("mock shell ok\n")));
    assert_eq!(p.get("stderr"), Some(&jstr("")));
}

#[test]
fn unsupported_command_fails_without_any_wire_line() {
    let st = live_state(Mode::Auto, true);
    match prepare_command(&st, "bogus", obj_empty(), false, "t-3".to_string(), 9) {
        CommandPlan::Done(res) => {
            assert!(!res.ok);
            assert!(res.result.is_none());
            let e = res.error.expect("error");
            assert_eq!(e.code, "unsupported_command");
            assert_eq!(e.message, "unsupported command: bogus");
            assert_eq!(e.trace_id, Some("t-3".to_string()));
        },
        CommandPlan::Wire(_) => panic!("unsupported command produced a wire line"),
    }
}

#[test]
fn supported_command_in_live_mode_becomes_one_wire_line() {
    let st = live_state(Mode::Auto, true);
    match prepare_command(&st, "ping", obj_empty(), false, "t-4".to_string(), 9) {
        CommandPlan::Wire(line) => {
            let v: serde_json::Value = serde_json::from_str(&line).unwrap();
            assert_eq!(v["ws_id"], "dev");
            assert!(v["request"]["Ping"].as_object().unwrap().is_empty());
        },
        CommandPlan::Done(_) => panic!("supported live command did not reach the wire"),
    }
}

#[test]
fn failed_dispatch_without_connectivity_is_sock_unavailable() {
    let st = live_state(Mode::Auto, false);
    let r = finish_command(&st, "ping", "t-5".to_string(), 9, Err("connect refused".to_string()));
    assert!(!r.ok);
    let e = r.error.expect("error");
    assert_eq!(e.code, "sock_unavailable");
    assert_eq!(e.message, "control socket unavailable for workspace 'dev': connect refused");
    let details = e.details.expect("details");
    assert_eq!(details.get("workspace"), Some(&jstr("dev")));
    assert_eq!(details.get("socket_path"), Some(&jstr("/home/u/.yai/run/dev/control.sock")));
}

#[test]
fn failed_dispatch_with_connectivity_is_command_failed() {
    let st = live_state(Mode::Auto, true);
    let r = finish_command(&st, "ping", "t-6".to_string(), 9, Err("boom".to_string()));
    let e = r.error.expect("error");
    assert_eq!(e.code, "command_failed");
    assert_eq!(e.message, "boom");
}

#[test]
fn successful_dispatch_carries_the_payload() {
    let st = live_state(Mode::Auto, true);
    let r = finish_command(&st, "status", "t-7".to_string(), 9, Ok(obj1("up", Json::Bool(true))));
    assert!(r.ok);
    assert_eq!(r.id, "t-7");
    assert_eq!(r.ts_ms, 9);
    assert_eq!(r.name, "status");
    assert_eq!(r.result, Some(obj1("up", Json::Bool(true))));
    assert!(r.error.is_none());
}

#[test]
fn ping_failure_is_sock_unavailable() {
    let r = ping_selected(
        "dev".to_string(),
        "/home/u/.yai/run/dev/control.sock".to_string(),
        Err("timed out".to_string()),
        "t-8".to_string(),
    );
    assert!(!r.ok);
    assert_eq!(r.latency_ms, None);
    let e = r.error.expect("error");
    assert_eq!(e.code, "sock_unavailable");
    assert_eq!(e.message, "timed out");
    assert_eq!(e.trace_id, Some("t-8".to_string()));
}

#[test]
fn ping_success_measures_latency() {
    let r = ping_selected(
        "dev".to_string(),
        "/p".to_string(),
        Ok(12),
        "t-9".to_string(),
    );
    assert!(r.ok);
    assert_eq!(r.latency_ms, Some(12));
    assert!(r.error.is_none());
}

#[test]
fn decimal_rendering() {
    assert_eq!(u64_string(0), "0");
    assert_eq!(u64_string(1200), "1200");
    assert_eq!(u64_string(u64::MAX), "18446744073709551615");
}

#[test]
fn trace_id_format_and_counter() {
    assert_eq!(format_trace_id(5, 7), "yx-5-7");
    let mut counter: u64 = 41;
    let id = next_trace_id(&mut counter);
    assert_eq!(counter, 42);
    assert!(id.starts_with("yx-"));
    assert!(id.ends_with("-41"));
}

fn event_frame() -> Json {
    obj2(
        "type",
        jstr("event"),
        "event",
        obj5(
            "type",
            jstr("chat.message"),
            "level",
            jstr("warn"),
            "ts",
            Json::Int(5),
            "event_id",
            jstr("e-1"),
            "msg",
            jstr("hello"),
        ),
    )
}

#[test]
fn event_translation() {
    let ev = map_event(&event_frame(), 99).expect("event");
    assert_eq!(ev.topic, "chat.message");
    assert_eq!(ev.severity, "warn");
    assert_eq!(ev.ts_ms, 5);
    assert_eq!(ev.trace_id, Some("e-1".to_string()));
    assert_eq!(ev.payload.get("msg"), Some(&jstr("hello")));
    assert_eq!(ev.payload.get("event_id"), Some(&jstr("e-1")));
    assert_eq!(ev.payload.get("data"), Some(&Json::Null));
}

#[test]
fn event_translation_defaults() {
    let frame = obj2("type", jstr("event"), "event", obj1("type", jstr("t")));
    let ev = map_event(&frame, 77).expect("event");
    assert_eq!(ev.severity, "info");
    assert_eq!(ev.ts_ms, 77);
    assert_eq!(ev.trace_id, None);
}

#[test]
fn non_event_frames_translate_to_nothing() {
    assert!(map_event(&obj1("type", jstr("ack")), 1).is_none());
    assert!(map_event(&obj_empty(), 1).is_none());
    let no_inner = obj1("type", jstr("event"));
    assert!(map_event(&no_inner, 1).is_none());
}

#[test]
fn subscribe_line_shape() {
    let line = subscribe_request_line();
    let v: serde_json::Value = serde_json::from_str(&line).unwrap();
    assert_eq!(v["v"], 1);
    assert_eq!(v["arming"], false);
    assert!(v.get("ws_id").is_none());
    assert!(v["request"]["EventsSubscribe"].as_object().unwrap().is_empty());
}

#[test]
fn stream_step_stops_once_cancelled() {
    // cancellation flag set: the sink can receive nothing further
    let line = "{\"type\":\"event\",\"event\":{\"type\":\"t\"}}";
    assert!(matches!(handle_stream_line(true, "dev", "dev", line, 1), StreamStep::Stop));
}

#[test]
fn stream_step_reconnects_on_workspace_change() {
    assert!(matches!(handle_stream_line(false, "dev", "stage", "{}", 1), StreamStep::Reconnect));
}

#[test]
fn stream_step_emits_only_event_frames() {
    let line = "{\"type\":\"event\",\"event\":{\"type\":\"t\"}}";
    match handle_stream_line(false, "dev", "dev", line, 1) {
        StreamStep::Emit(ev) => assert_eq!(ev.topic, "t"),
        _ => panic!("event frame did not reach the sink"),
    }
    assert!(matches!(handle_stream_line(false, "dev", "dev", "not json", 1), StreamStep::Ignore));
    assert!(matches!(handle_stream_line(false, "dev", "dev", "{\"a\":1}", 1), StreamStep::Ignore));
}

#[test]
fn obj_builders_push_in_order() {
    let mut o = obj_empty();
    o = obj_push(o, "a", Json::Int(1));
    o = obj_push(o, "b", Json::Bool(true));
    assert_eq!(o, obj2("a", Json::Int(1), "b", Json::Bool(true)));
    assert_eq!(o.get("b"), Some(&Json::Bool(true)));
    assert_eq!(o.get("missing"), None);
}
