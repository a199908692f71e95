//! The event-subscription side: the subscribe request line, translation of
//! inbound frames into the client's event schema, and the per-line decision
//! of the background stream loop.
use vstd::prelude::*;

use crate::codec::{json_parsed, json_text, parse_json_line};
use crate::json::{json_clone, jv_get, obj6, obj_empty, obj1, str_eq, Json, JsonV};
use crate::protocol::{Event, EventV};
use crate::wire::{build_envelope, spec_envelope, spec_tagged};

verus! {

/// The string a field carries, or a fallback.
pub open spec fn spec_str_or(v: Option<JsonV>, d: Seq<char>) -> Seq<char> {
    match v {
        Some(JsonV::Str(s)) => s,
        _ => d,
    }
}

/// The non-negative integer a field carries, or a fallback.
pub open spec fn spec_u64_or(v: Option<JsonV>, d: u64) -> u64 {
    match v {
        Some(JsonV::Int(i)) => if 0 <= i {
            i as u64
        } else {
            d
        },
        _ => d,
    }
}

/// The value a field carries, or JSON null.
pub open spec fn spec_field_or_null(ev: JsonV, k: Seq<char>) -> JsonV {
    match jv_get(ev, k) {
        Some(x) => x,
        None => JsonV::Null,
    }
}

/// What an inbound frame translates to: `None` unless the frame is an event
/// envelope (`type` equals `event` and an `event` member is present); else
/// the inner object's topic, severity, timestamp (falling back to `now`),
/// selected payload fields, and the event identifier as correlation id.
pub open spec fn spec_map_event(v: JsonV, now: u64) -> Option<EventV> {
    if !(jv_get(v, "type"@) matches Some(JsonV::Str(k)) && k == "event"@) {
        None
    } else {
        match jv_get(v, "event"@) {
            None => None,
            Some(ev) => Some(
                EventV {
                    topic: spec_str_or(jv_get(ev, "type"@), "unknown"@),
                    severity: spec_str_or(jv_get(ev, "level"@), "info"@),
                    ts_ms: spec_u64_or(jv_get(ev, "ts"@), now),
                    payload: JsonV::Obj(
                        seq![
                            ("event_id"@, spec_field_or_null(ev, "event_id"@)),
                            ("ws"@, spec_field_or_null(ev, "ws"@)),
                            ("seq"@, spec_field_or_null(ev, "seq"@)),
                            ("msg"@, spec_field_or_null(ev, "msg"@)),
                            ("data"@, spec_field_or_null(ev, "data"@)),
                            ("compliance"@, spec_field_or_null(ev, "compliance"@)),
                        ],
                    ),
                    trace_id: match jv_get(ev, "event_id"@) {
                        Some(JsonV::Str(s)) => Some(s),
                        _ => None,
                    },
                },
            ),
        }
    }
}

fn field_or_null(ev: &Json, k: &str) -> (r: Json)
    ensures
        r@ == spec_field_or_null(ev@, k@),
{
    match ev.get(k) {
        Some(x) => json_clone(x),
        None => Json::Null,
    }
}

fn str_or(ev: &Json, k: &str, d: &str) -> (r: String)
    ensures
        r@ == spec_str_or(jv_get(ev@, k@), d@),
{
    match ev.get(k) {
        Some(x) => match x.as_str() {
            Some(s) => s.clone(),
            None => d.to_owned(),
        },
        None => d.to_owned(),
    }
}

/// Translates one parsed inbound frame into an event, when it is one.
pub fn map_event(v: &Json, now: u64) -> (r: Option<Event>)
    ensures
        match r {
            Some(e) => spec_map_event(v@, now) == Some(e@),
            None => spec_map_event(v@, now) is None,
        },
{
    let kind_ok = match v.get("type") {
        Some(t) => match t.as_str() {
            Some(s) => str_eq(s.as_str(), "event"),
            None => false,
        },
        None => false,
    };
    if !kind_ok {
        return None;
    }
    match v.get("event") {
        None => None,
        Some(ev) => {
            let topic = str_or(ev, "type", "unknown");
            let severity = str_or(ev, "level", "info");
            let ts_ms: u64 = match ev.get("ts") {
                Some(x) => match x.as_u64() {
                    Some(u) => u,
                    None => now,
                },
                None => now,
            };
            let payload = obj6(
                "event_id",
                field_or_null(ev, "event_id"),
                "ws",
                field_or_null(ev, "ws"),
                "seq",
                field_or_null(ev, "seq"),
                "msg",
                field_or_null(ev, "msg"),
                "data",
                field_or_null(ev, "data"),
                "compliance",
                field_or_null(ev, "compliance"),
            );
            let trace_id: Option<String> = match ev.get("event_id") {
                Some(x) => match x.as_str() {
                    Some(s) => Some(s.clone()),
                    None => None,
                },
                None => None,
            };
            Some(Event { topic, severity, ts_ms, payload, trace_id })
        },
    }
}

/// The wire line that opens an event subscription: an unarmed envelope
/// around the subscribe request, addressed to no particular workspace.
pub fn subscribe_request_line() -> (r: String)
    ensures
        r@ == json_text(
            spec_envelope(spec_tagged("EventsSubscribe"@, JsonV::Obj(Seq::empty())), None, false),
        ),
{
    let req = obj1("EventsSubscribe", obj_empty());
    let envelope = build_envelope(req, None, false);
    crate::codec::json_to_line(&envelope)
}

/// What the stream loop does after one blocking read returns a line.
pub enum StreamStep {
    /// Cancellation was requested: stop the loop for good.
    Stop,
    /// The preferred workspace changed since connecting: reconnect.
    Reconnect,
    /// Not an event frame (or not JSON): read on, surfacing nothing.
    Ignore,
    /// A translated event for the caller's sink.
    Emit(Event),
}

/// Decides one iteration of the inner stream loop. Once the cancellation
/// flag is set the step is `Stop` — never `Emit` — so the sink sees nothing
/// further; a workspace change forces a reconnect; otherwise only a frame
/// that translates to an event reaches the sink.
pub fn handle_stream_line(
    cancelled: bool,
    connected_ws: &str,
    current_ws: &str,
    line: &str,
    now: u64,
) -> (r: StreamStep)
    ensures
        cancelled ==> r is Stop,
        !cancelled && current_ws@ != connected_ws@ ==> r is Reconnect,
        !cancelled && current_ws@ == connected_ws@ ==> match json_parsed(line@) {
            None => r is Ignore,
            Some(v) => match spec_map_event(v, now) {
                None => r is Ignore,
                Some(ev) => r matches StreamStep::Emit(e) && e@ == ev,
            },
        },
{
    if cancelled {
        return StreamStep::Stop;
    }
    if !str_eq(current_ws, connected_ws) {
        return StreamStep::Reconnect;
    }
    match parse_json_line(line) {
        None => StreamStep::Ignore,
        Some(v) => match map_event(&v, now) {
            Some(e) => StreamStep::Emit(e),
            None => StreamStep::Ignore,
        },
    }
}

} // verus!
