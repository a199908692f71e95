//! The command path: offline simulation, dispatch planning (simulate, fail
//! fast, or write one wire line), and assembly of results, probe outcomes and
//! connectivity snapshots.
use vstd::prelude::*;

use crate::json::{arr_empty, jstr, jv_get, obj2, obj4, obj5, str_eq, Json, JsonV};
use crate::protocol::{
    spec_resolved_mode, CommandError, CommandResult, ConnectionState, Mode, PingState,
};
use crate::wire::{request_line, spec_envelope, spec_map_request, spec_str_or_empty};
use crate::workspace::spec_socket_path;
use vstd::string::StringExecFns;

verus! {

// ----------------------------------------------------------- the simulator
/// The canned offline payload for each specially-shaped command, and the
/// generic acknowledgement for every other name. A pure function of the
/// name and arguments.
pub open spec fn spec_mock_response(name: Seq<char>, args: JsonV) -> JsonV {
    if name == "status"@ {
        JsonV::Obj(
            seq![
                ("mode"@, JsonV::Str("mock"@)),
                ("state"@, JsonV::Str("running"@)),
                ("runtime_id"@, JsonV::Str("yx-mock"@)),
                ("ws"@, JsonV::Str("dev"@)),
                ("args"@, args),
            ],
        )
    } else if name == "chat.send"@ {
        JsonV::Obj(
            seq![
                ("mode"@, JsonV::Str("mock"@)),
                (
                    "message"@,
                    JsonV::Obj(
                        seq![
                            ("role"@, JsonV::Str("assistant"@)),
                            (
                                "content"@,
                                JsonV::Str("echo: "@ + spec_str_or_empty(jv_get(args, "text"@))),
                            ),
                        ],
                    ),
                ),
            ],
        )
    } else if name == "providers.list"@ {
        JsonV::Obj(
            seq![("mode"@, JsonV::Str("mock"@)), ("items"@, JsonV::Arr(Seq::empty()))],
        )
    } else if name == "providers.status"@ {
        JsonV::Obj(seq![("mode"@, JsonV::Str("mock"@)), ("active"@, JsonV::Null)])
    } else if name == "shell.exec"@ {
        JsonV::Obj(
            seq![
                ("mode"@, JsonV::Str("mock"@)),
                ("exit_code"@, JsonV::Int(0)),
                ("stdout"@, JsonV::Str("mock shell ok\n"@)),
                ("stderr"@, JsonV::Str(""@)),
            ],
        )
    } else {
        JsonV::Obj(
            seq![
                ("mode"@, JsonV::Str("mock"@)),
                ("ok"@, JsonV::Bool(true)),
                ("name"@, JsonV::Str(name)),
                ("args"@, args),
            ],
        )
    }
}

/// Offline-simulated responses are deterministic: two payloads produced for
/// the same name and arguments are the same payload, because the payload is
/// a function of the inputs alone.
pub proof fn lemma_mock_deterministic(name: Seq<char>, args: JsonV, r1: JsonV, r2: JsonV)
    requires
        r1 == spec_mock_response(name, args),
        r2 == spec_mock_response(name, args),
    ensures
        r1 == r2,
{
}

fn echo_text(args: &Json) -> (r: String)
    ensures
        r@ == "echo: "@ + spec_str_or_empty(jv_get(args@, "text"@)),
{
    let mut s = String::from_str("echo: ");
    let t: String = match args.get("text") {
        Some(v) => match v.as_str() {
            Some(x) => x.clone(),
            None => String::new(),
        },
        None => String::new(),
    };
    s.append(t.as_str());
    s
}

/// Produces the offline-simulated payload for a command, without touching
/// the network, exactly as `spec_mock_response` says.
pub fn mock_response(name: &str, args: Json) -> (r: Json)
    ensures
        r@ == spec_mock_response(name@, args@),
{
    if str_eq(name, "status") {
        obj5(
            "mode",
            jstr("mock"),
            "state",
            jstr("running"),
            "runtime_id",
            jstr("yx-mock"),
            "ws",
            jstr("dev"),
            "args",
            args,
        )
    } else if str_eq(name, "chat.send") {
        let content = echo_text(&args);
        obj2(
            "mode",
            jstr("mock"),
            "message",
            obj2("role", jstr("assistant"), "content", Json::Str(content)),
        )
    } else if str_eq(name, "providers.list") {
        obj2("mode", jstr("mock"), "items", arr_empty())
    } else if str_eq(name, "providers.status") {
        obj2("mode", jstr("mock"), "active", Json::Null)
    } else if str_eq(name, "shell.exec") {
        obj4(
            "mode",
            jstr("mock"),
            "exit_code",
            Json::Int(0),
            "stdout",
            jstr("mock shell ok\n"),
            "stderr",
            jstr(""),
        )
    } else {
        obj4(
            "mode",
            jstr("mock"),
            "ok",
            Json::Bool(true),
            "name",
            jstr(name),
            "args",
            args,
        )
    }
}

// -------------------------------------------------------------- error texts
/// The message of the fail-fast error for a name outside the vocabulary.
pub open spec fn spec_unsupported_msg(name: Seq<char>) -> Seq<char> {
    "unsupported command: "@ + name
}

/// The message when the socket was unreachable before the call.
pub open spec fn spec_sock_unavailable_msg(ws: Seq<char>, detail: Seq<char>) -> Seq<char> {
    "control socket unavailable for workspace '"@ + ws + "': "@ + detail
}

/// The detail object every command failure carries.
pub open spec fn spec_error_details(ws: Seq<char>, socket_path: Seq<char>) -> JsonV {
    JsonV::Obj(
        seq![("workspace"@, JsonV::Str(ws)), ("socket_path"@, JsonV::Str(socket_path))],
    )
}

fn unsupported_msg(name: &str) -> (r: String)
    ensures
        r@ == spec_unsupported_msg(name@),
{
    let mut s = String::from_str("unsupported command: ");
    s.append(name);
    s
}

fn sock_unavailable_msg(ws: &str, detail: &str) -> (r: String)
    ensures
        r@ == spec_sock_unavailable_msg(ws@, detail@),
{
    let mut s = String::from_str("control socket unavailable for workspace '");
    s.append(ws);
    s.append("': ");
    s.append(detail);
    proof {
        assert(s@ =~= spec_sock_unavailable_msg(ws@, detail@));
    }
    s
}

fn error_details(ws: &str, socket_path: &str) -> (r: Json)
    ensures
        r@ == spec_error_details(ws@, socket_path@),
{
    obj2("workspace", jstr(ws), "socket_path", jstr(socket_path))
}

// ------------------------------------------------------------- the dispatch
/// What one command call does next: a finished result (offline simulation or
/// a fail-fast error), or one wire line to write to the peer.
pub enum CommandPlan {
    Done(CommandResult),
    Wire(String),
}

/// Plans one command against a resolved connection snapshot. In
/// offline-simulated mode every command succeeds at once with the simulated
/// payload. Otherwise a name outside the vocabulary fails at once — no wire
/// line is produced, so nothing touches the network — and a supported name
/// becomes exactly one wire line.
pub fn prepare_command(
    state: &ConnectionState,
    name: &str,
    args: Json,
    arming: bool,
    trace_id: String,
    ts_ms: u64,
) -> (r: CommandPlan)
    ensures
        state@.resolved_mode == Mode::Mock ==> (r matches CommandPlan::Done(res) && {
            &&& res@.ok
            &&& res@.wf()
            &&& res@.id == trace_id@
            &&& res@.ts_ms == ts_ms
            &&& res@.name == name@
            &&& res@.result == Some(spec_mock_response(name@, args@))
        }),
        state@.resolved_mode != Mode::Mock && spec_map_request(name@, args@) is None ==> (
        r matches CommandPlan::Done(res) && {
            &&& !res@.ok
            &&& res@.wf()
            &&& res@.id == trace_id@
            &&& res@.ts_ms == ts_ms
            &&& res@.name == name@
            &&& res@.error matches Some(e) && {
                &&& e.code == "unsupported_command"@
                &&& e.message == spec_unsupported_msg(name@)
                &&& e.details == Some(
                    spec_error_details(state@.selected_ws, state@.socket_path),
                )
                &&& e.trace_id == Some(trace_id@)
            }
        }),
        state@.resolved_mode != Mode::Mock ==> (spec_map_request(name@, args@) matches Some(req)
            ==> (r matches CommandPlan::Wire(line) && line@ == crate::codec::json_text(
            spec_envelope(req, Some(state@.selected_ws), arming),
        ))),
{
    if state.resolved_mode == Mode::Mock {
        let payload = mock_response(name, args);
        return CommandPlan::Done(
            CommandResult {
                id: trace_id,
                ts_ms,
                name: name.to_owned(),
                ok: true,
                result: Some(payload),
                error: None,
            },
        );
    }
    match request_line(name, &args, state.selected_ws.as_str(), arming) {
        Some(line) => CommandPlan::Wire(line),
        None => {
            let details = error_details(state.selected_ws.as_str(), state.socket_path.as_str());
            CommandPlan::Done(
                CommandResult {
                    id: trace_id.clone(),
                    ts_ms,
                    name: name.to_owned(),
                    ok: false,
                    result: None,
                    error: Some(
                        CommandError {
                            code: String::from_str("unsupported_command"),
                            message: unsupported_msg(name),
                            details: Some(details),
                            trace_id: Some(trace_id),
                        },
                    ),
                },
            )
        },
    }
}

/// Turns the wire outcome of a dispatched command into its result. A
/// transport failure is classified by the pre-flight connectivity flag:
/// `sock_unavailable` when the peer was already unreachable, otherwise
/// `command_failed` with the transport's own message.
pub fn finish_command(
    state: &ConnectionState,
    name: &str,
    trace_id: String,
    ts_ms: u64,
    outcome: Result<Json, String>,
) -> (r: CommandResult)
    ensures
        r@.id == trace_id@,
        r@.ts_ms == ts_ms,
        r@.name == name@,
        r@.wf(),
        outcome matches Ok(p) ==> r@.ok && r@.result == Some(p@),
        outcome matches Err(m) ==> (!r@.ok && (r@.error matches Some(e) && {
            &&& !state@.connected ==> e.code == "sock_unavailable"@ && e.message
                == spec_sock_unavailable_msg(state@.selected_ws, m@)
            &&& state@.connected ==> e.code == "command_failed"@ && e.message == m@
            &&& e.details == Some(spec_error_details(state@.selected_ws, state@.socket_path))
            &&& e.trace_id == Some(trace_id@)
        })),
{
    match outcome {
        Ok(payload) => CommandResult {
            id: trace_id,
            ts_ms,
            name: name.to_owned(),
            ok: true,
            result: Some(payload),
            error: None,
        },
        Err(detail) => {
            let (code, message) = if !state.connected {
                (
                    String::from_str("sock_unavailable"),
                    sock_unavailable_msg(state.selected_ws.as_str(), detail.as_str()),
                )
            } else {
                (String::from_str("command_failed"), detail)
            };
            let details = error_details(state.selected_ws.as_str(), state.socket_path.as_str());
            CommandResult {
                id: trace_id.clone(),
                ts_ms,
                name: name.to_owned(),
                ok: false,
                result: None,
                error: Some(
                    CommandError {
                        code,
                        message,
                        details: Some(details),
                        trace_id: Some(trace_id),
                    },
                ),
            }
        },
    }
}

// ------------------------------------------------------------ probe results
/// Builds the outcome record of one liveness probe. Every failed probe is
/// `sock_unavailable`: the peer never answered.
pub fn ping_selected(
    ws: String,
    socket_path: String,
    outcome: Result<u64, String>,
    trace_id: String,
) -> (r: PingState)
    ensures
        r@.ws == ws@,
        r@.socket_path == socket_path@,
        outcome matches Ok(latency) ==> r@.ok && r@.latency_ms == Some(latency) && r@.error
            is None,
        outcome matches Err(m) ==> (!r@.ok && r@.latency_ms is None && (r@.error matches Some(e)
            && {
            &&& e.code == "sock_unavailable"@
            &&& e.message == m@
            &&& e.details is None
            &&& e.trace_id == Some(trace_id@)
        })),
{
    match outcome {
        Ok(latency_ms) => PingState {
            ok: true,
            latency_ms: Some(latency_ms),
            socket_path,
            ws,
            error: None,
        },
        Err(message) => PingState {
            ok: false,
            latency_ms: None,
            socket_path,
            ws,
            error: Some(
                CommandError {
                    code: String::from_str("sock_unavailable"),
                    message,
                    details: None,
                    trace_id: Some(trace_id),
                },
            ),
        },
    }
}

// ------------------------------------------------------- connection snapshot
/// Assembles the connectivity snapshot for a configured mode, a selected
/// workspace and the short probe's outcome. The resolved mode follows the
/// resolution rule alone; the connectivity flag, latency and last-success
/// timestamp carry what the probe saw.
pub fn connection_state(
    configured_mode: Mode,
    selected_ws: String,
    home: &str,
    probe_latency_ms: &Option<u64>,
    now: u64,
) -> (r: ConnectionState)
    ensures
        r@.wf(),
        r@.configured_mode == configured_mode,
        r@.resolved_mode == spec_resolved_mode(configured_mode),
        r@.selected_ws == selected_ws@,
        r@.socket_path == spec_socket_path(home@, selected_ws@),
        r@.connected == (probe_latency_ms is Some),
        r@.latency_ms == *probe_latency_ms,
        r@.last_ok_ts_ms == (if probe_latency_ms is Some {
            Some(now)
        } else {
            None::<u64>
        }),
{
    let socket_path = crate::workspace::socket_path_for_ws(home, selected_ws.as_str());
    let connected = probe_latency_ms.is_some();
    let latency_ms = *probe_latency_ms;
    let resolved_mode = if configured_mode == Mode::Mock {
        Mode::Mock
    } else {
        Mode::Real
    };
    ConnectionState {
        configured_mode,
        resolved_mode,
        selected_ws,
        socket_path,
        connected,
        latency_ms,
        last_ok_ts_ms: if connected {
            Some(now)
        } else {
            None
        },
    }
}

} // verus!
