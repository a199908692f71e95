//! Data model of the control-plane client: operating modes, workspace
//! catalog entries, probe and connection snapshots, and the wire-facing
//! command/event records, each with a mathematical view.
use vstd::prelude::*;

use crate::json::{Json, JsonV};

verus! {

/// Operating mode: `Mock` answers every command locally, `Real` drives the
/// peer, `Auto` lets liveness decide nothing — it always resolves to `Real`.
#[derive(Debug, Clone, Copy, PartialEq, Eq, Structural)]
pub enum Mode {
    Auto,
    Mock,
    Real,
}

/// The mode a configured mode resolves to: offline-simulated if and only if
/// the configuration says so; otherwise live, whatever the connectivity.
pub open spec fn spec_resolved_mode(m: Mode) -> Mode {
    if m == Mode::Mock {
        Mode::Mock
    } else {
        Mode::Real
    }
}

pub open spec fn opt_str_view(o: Option<String>) -> Option<Seq<char>> {
    match o {
        Some(s) => Some(s@),
        None => None,
    }
}

pub open spec fn opt_json_view(o: Option<Json>) -> Option<JsonV> {
    match o {
        Some(j) => Some(j@),
        None => None,
    }
}

/// One catalog row: a workspace identifier, its socket path, and what the
/// last probe saw.
#[derive(Debug, Clone, PartialEq, Eq)]
pub struct WorkspaceInfo {
    pub ws: String,
    pub socket_path: String,
    pub exists: bool,
    pub alive: bool,
}

pub struct WorkspaceInfoV {
    pub ws: Seq<char>,
    pub socket_path: Seq<char>,
    pub exists: bool,
    pub alive: bool,
}

impl View for WorkspaceInfo {
    type V = WorkspaceInfoV;

    open spec fn view(&self) -> WorkspaceInfoV {
        WorkspaceInfoV {
            ws: self.ws@,
            socket_path: self.socket_path@,
            exists: self.exists,
            alive: self.alive,
        }
    }
}

impl DeepView for WorkspaceInfo {
    type V = WorkspaceInfoV;

    open spec fn deep_view(&self) -> WorkspaceInfoV {
        self.view()
    }
}

/// The catalog as handed outward: ordered rows plus the selected identifier.
#[derive(Debug, Clone, PartialEq, Eq)]
pub struct WorkspacesList {
    pub items: Vec<WorkspaceInfo>,
    pub selected_ws: String,
}

pub struct WorkspacesListV {
    pub items: Seq<WorkspaceInfoV>,
    pub selected_ws: Seq<char>,
}

impl View for WorkspacesList {
    type V = WorkspacesListV;

    open spec fn view(&self) -> WorkspacesListV {
        WorkspacesListV { items: self.items.deep_view(), selected_ws: self.selected_ws@ }
    }
}

/// Structured failure data: a stable machine-readable code, a message for
/// people, optional detail payload and correlation identifier.
#[derive(Debug, PartialEq, Eq)]
pub struct CommandError {
    pub code: String,
    pub message: String,
    pub details: Option<Json>,
    pub trace_id: Option<String>,
}

pub struct CommandErrorV {
    pub code: Seq<char>,
    pub message: Seq<char>,
    pub details: Option<JsonV>,
    pub trace_id: Option<Seq<char>>,
}

impl View for CommandError {
    type V = CommandErrorV;

    open spec fn view(&self) -> CommandErrorV {
        CommandErrorV {
            code: self.code@,
            message: self.message@,
            details: opt_json_view(self.details),
            trace_id: opt_str_view(self.trace_id),
        }
    }
}

pub open spec fn opt_error_view(o: Option<CommandError>) -> Option<CommandErrorV> {
    match o {
        Some(e) => Some(e@),
        None => None,
    }
}

/// Outcome of exactly one liveness probe.
#[derive(Debug, PartialEq, Eq)]
pub struct PingState {
    pub ok: bool,
    pub latency_ms: Option<u64>,
    pub socket_path: String,
    pub ws: String,
    pub error: Option<CommandError>,
}

pub struct PingStateV {
    pub ok: bool,
    pub latency_ms: Option<u64>,
    pub socket_path: Seq<char>,
    pub ws: Seq<char>,
    pub error: Option<CommandErrorV>,
}

impl View for PingState {
    type V = PingStateV;

    open spec fn view(&self) -> PingStateV {
        PingStateV {
            ok: self.ok,
            latency_ms: self.latency_ms,
            socket_path: self.socket_path@,
            ws: self.ws@,
            error: opt_error_view(self.error),
        }
    }
}

/// Connectivity snapshot: configured and resolved mode, the selected
/// workspace and socket, and what the short probe measured.
#[derive(Debug, Clone, PartialEq, Eq)]
pub struct ConnectionState {
    pub configured_mode: Mode,
    pub resolved_mode: Mode,
    pub selected_ws: String,
    pub socket_path: String,
    pub connected: bool,
    pub latency_ms: Option<u64>,
    pub last_ok_ts_ms: Option<u64>,
}

pub struct ConnectionStateV {
    pub configured_mode: Mode,
    pub resolved_mode: Mode,
    pub selected_ws: Seq<char>,
    pub socket_path: Seq<char>,
    pub connected: bool,
    pub latency_ms: Option<u64>,
    pub last_ok_ts_ms: Option<u64>,
}

impl View for ConnectionState {
    type V = ConnectionStateV;

    open spec fn view(&self) -> ConnectionStateV {
        ConnectionStateV {
            configured_mode: self.configured_mode,
            resolved_mode: self.resolved_mode,
            selected_ws: self.selected_ws@,
            socket_path: self.socket_path@,
            connected: self.connected,
            latency_ms: self.latency_ms,
            last_ok_ts_ms: self.last_ok_ts_ms,
        }
    }
}

impl ConnectionStateV {
    /// The snapshot invariant: the resolved mode is offline-simulated exactly
    /// when the configured mode is.
    pub open spec fn wf(self) -> bool {
        self.resolved_mode == spec_resolved_mode(self.configured_mode)
    }
}

/// Whatever the configured mode, the resolution rule is a two-way street:
/// the resolved mode is offline-simulated if and only if the configured mode
/// is; automatic never resolves to offline-simulated.
pub proof fn lemma_resolved_mode_iff_mock(m: Mode)
    ensures
        (spec_resolved_mode(m) == Mode::Mock) <==> (m == Mode::Mock),
        m == Mode::Auto ==> spec_resolved_mode(m) == Mode::Real,
{
}

/// A generic envelope for one protocol frame.
#[derive(Debug, PartialEq, Eq)]
pub struct Envelope {
    pub protocol_version: String,
    pub kind: String,
    pub ts_ms: u64,
    pub trace_id: Option<String>,
    pub payload: Json,
}

/// One logical command before translation to the peer's wire shape.
#[derive(Debug, PartialEq, Eq)]
pub struct CommandRequest {
    pub protocol_version: String,
    pub trace_id: String,
    pub ts_ms: u64,
    pub name: String,
    pub args: Json,
    pub arming: bool,
}

/// Outcome of one command: exactly one of `result`/`error` is present,
/// matching the success flag.
#[derive(Debug, PartialEq, Eq)]
pub struct CommandResult {
    pub id: String,
    pub ts_ms: u64,
    pub name: String,
    pub ok: bool,
    pub result: Option<Json>,
    pub error: Option<CommandError>,
}

pub struct CommandResultV {
    pub id: Seq<char>,
    pub ts_ms: u64,
    pub name: Seq<char>,
    pub ok: bool,
    pub result: Option<JsonV>,
    pub error: Option<CommandErrorV>,
}

impl View for CommandResult {
    type V = CommandResultV;

    open spec fn view(&self) -> CommandResultV {
        CommandResultV {
            id: self.id@,
            ts_ms: self.ts_ms,
            name: self.name@,
            ok: self.ok,
            result: opt_json_view(self.result),
            error: opt_error_view(self.error),
        }
    }
}

impl CommandResultV {
    /// Exactly one of payload/error is present, on the side the flag names.
    pub open spec fn wf(self) -> bool {
        if self.ok {
            self.result is Some && self.error is None
        } else {
            self.result is None && self.error is Some
        }
    }
}

/// One translated event frame as handed to the caller's sink.
#[derive(Debug, PartialEq, Eq)]
pub struct Event {
    pub topic: String,
    pub severity: String,
    pub ts_ms: u64,
    pub payload: Json,
    pub trace_id: Option<String>,
}

pub struct EventV {
    pub topic: Seq<char>,
    pub severity: Seq<char>,
    pub ts_ms: u64,
    pub payload: JsonV,
    pub trace_id: Option<Seq<char>>,
}

impl View for Event {
    type V = EventV;

    open spec fn view(&self) -> EventV {
        EventV {
            topic: self.topic@,
            severity: self.severity@,
            ts_ms: self.ts_ms,
            payload: self.payload@,
            trace_id: opt_str_view(self.trace_id),
        }
    }
}

/// The mode a mode-selection string names: `mock` and `real` are explicit,
/// anything else (or nothing) is automatic.
pub open spec fn spec_mode_from_str(s: Option<Seq<char>>) -> Mode {
    match s {
        Some(t) => {
            if t == "mock"@ {
                Mode::Mock
            } else if t == "real"@ {
                Mode::Real
            } else {
                Mode::Auto
            }
        },
        None => Mode::Auto,
    }
}

/// Maps the raw mode-selection value (from the environment) to a `Mode`.
pub fn mode_from_str(s: &Option<String>) -> (r: Mode)
    ensures
        r == spec_mode_from_str(opt_str_view(*s)),
{
    match s {
        Some(t) => {
            if crate::json::str_eq(t.as_str(), "mock") {
                Mode::Mock
            } else if crate::json::str_eq(t.as_str(), "real") {
                Mode::Real
            } else {
                Mode::Auto
            }
        },
        None => Mode::Auto,
    }
}

} // verus!
