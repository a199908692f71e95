//! Translation between logical commands and the peer's tagged wire shapes:
//! the closed name-to-shape vocabulary, the request envelope, and the
//! classification of inbound response frames.
use vstd::prelude::*;

use crate::codec::{json_parsed, json_text, parse_json_line};
use crate::json::{arr_empty, arr_push, jstr, jv_get, obj1, obj2, obj3, obj4, obj5, obj_empty, str_eq, Json, JsonV};
use vstd::string::StringExecFns;

verus! {

// ---------------------------------------------------------------- arguments
/// The string an argument field carries, or JSON null when it is absent or
/// not a string.
pub open spec fn spec_str_or_null(v: Option<JsonV>) -> JsonV {
    match v {
        Some(JsonV::Str(s)) => JsonV::Str(s),
        _ => JsonV::Null,
    }
}

/// The string an argument field carries, or the empty string.
pub open spec fn spec_str_or_empty(v: Option<JsonV>) -> Seq<char> {
    match v {
        Some(JsonV::Str(s)) => s,
        _ => Seq::empty(),
    }
}

/// The boolean an argument field carries, or a default.
pub open spec fn spec_bool_or(v: Option<JsonV>, d: bool) -> bool {
    match v {
        Some(JsonV::Bool(b)) => b,
        _ => d,
    }
}

/// The elements of an array field, or nothing.
pub open spec fn spec_arr_or_empty(v: Option<JsonV>) -> Seq<JsonV> {
    match v {
        Some(JsonV::Arr(a)) => a,
        _ => Seq::empty(),
    }
}

/// The string elements of a sequence, in order, everything else dropped.
pub open spec fn spec_str_items(items: Seq<JsonV>, i: int) -> Seq<JsonV>
    decreases items.len() - i,
{
    if i < 0 || i >= items.len() {
        Seq::empty()
    } else {
        let rest = spec_str_items(items, i + 1);
        match items[i] {
            JsonV::Str(s) => seq![JsonV::Str(s)] + rest,
            _ => rest,
        }
    }
}

fn str_field_or_null(args: &Json, k: &str) -> (r: Json)
    ensures
        r@ == spec_str_or_null(jv_get(args@, k@)),
{
    match args.get(k) {
        Some(v) => match v.as_str() {
            Some(s) => Json::Str(s.clone()),
            None => Json::Null,
        },
        None => Json::Null,
    }
}

fn str_field_or_empty(args: &Json, k: &str) -> (r: String)
    ensures
        r@ == spec_str_or_empty(jv_get(args@, k@)),
{
    match args.get(k) {
        Some(v) => match v.as_str() {
            Some(s) => s.clone(),
            None => String::new(),
        },
        None => String::new(),
    }
}

fn bool_field_or(args: &Json, k: &str, d: bool) -> (r: bool)
    ensures
        r == spec_bool_or(jv_get(args@, k@), d),
{
    match args.get(k) {
        Some(v) => match v.as_bool() {
            Some(b) => b,
            None => d,
        },
        None => d,
    }
}

fn str_items_field(args: &Json, k: &str) -> (r: Json)
    ensures
        r@ == JsonV::Arr(spec_str_items(spec_arr_or_empty(jv_get(args@, k@)), 0)),
{
    let mut out = arr_empty();
    let ghost target = spec_str_items(spec_arr_or_empty(jv_get(args@, k@)), 0);
    match args.get(k) {
        Some(v) => match v.as_arr() {
            Some(items) => {
                let ghost itv = items.deep_view();
                let n = items.len();
                proof {
                    assert(itv.len() == n);
                }
                for idx in 0..n
                    invariant
                        out@ is Arr,
                        n == items.len(),
                        itv == items.deep_view(),
                        itv.len() == n,
                        target == spec_str_items(itv, 0),
                        spec_str_items(itv, 0) == out@->Arr_0 + spec_str_items(itv, idx as int),
                {
                    let ghost prefix = out@->Arr_0;
                    let item: &Json = &items[idx];
                    proof {
                        assert(itv[idx as int] == item@);
                    }
                    match item.as_str() {
                        Some(s) => {
                            out = arr_push(out, Json::Str(s.clone()));
                            proof {
                                assert(prefix + (seq![item@] + spec_str_items(itv, idx + 1))
                                    =~= out@->Arr_0 + spec_str_items(itv, idx + 1));
                            }
                        },
                        None => {},
                    }
                }
                proof {
                    assert(out@->Arr_0 + Seq::<JsonV>::empty() =~= out@->Arr_0);
                    assert(out@ =~~= JsonV::Arr(target));
                }
            },
            None => {
                proof {
                    assert(out@ =~~= JsonV::Arr(target));
                }
            },
        },
        None => {
            proof {
                assert(out@ =~~= JsonV::Arr(target));
            }
        },
    }
    out
}

// ----------------------------------------------------------- request shapes
/// A tagged wire variant: one object with the variant name as its only key.
pub open spec fn spec_tagged(tag: Seq<char>, inner: JsonV) -> JsonV {
    JsonV::Obj(seq![(tag, inner)])
}

/// The closed command vocabulary: what each supported name translates to on
/// the wire, as a function of the argument object; `None` for any other name.
pub open spec fn spec_map_request(name: Seq<char>, args: JsonV) -> Option<JsonV> {
    if name == "status"@ {
        Some(spec_tagged("Status"@, JsonV::Obj(Seq::empty())))
    } else if name == "protocol.handshake"@ {
        Some(
            spec_tagged(
                "ProtocolHandshake"@,
                JsonV::Obj(seq![("client"@, spec_str_or_null(jv_get(args, "client"@)))]),
            ),
        )
    } else if name == "ping"@ {
        Some(spec_tagged("Ping"@, JsonV::Obj(Seq::empty())))
    } else if name == "providers.discover"@ {
        Some(
            spec_tagged(
                "ProvidersDiscover"@,
                JsonV::Obj(
                    seq![
                        ("endpoint"@, spec_str_or_null(jv_get(args, "endpoint"@))),
                        ("model"@, spec_str_or_null(jv_get(args, "model"@))),
                    ],
                ),
            ),
        )
    } else if name == "providers.list"@ {
        Some(spec_tagged("ProvidersList"@, JsonV::Obj(Seq::empty())))
    } else if name == "providers.status"@ {
        Some(spec_tagged("ProvidersStatus"@, JsonV::Obj(Seq::empty())))
    } else if name == "providers.detach"@ {
        Some(spec_tagged("ProvidersDetach"@, JsonV::Obj(Seq::empty())))
    } else if name == "providers.pair"@ {
        Some(
            spec_tagged(
                "ProvidersPair"@,
                JsonV::Obj(
                    seq![
                        ("id"@, JsonV::Str(spec_str_or_empty(jv_get(args, "id"@)))),
                        ("endpoint"@, JsonV::Str(spec_str_or_empty(jv_get(args, "endpoint"@)))),
                        ("model"@, JsonV::Str(spec_str_or_empty(jv_get(args, "model"@)))),
                    ],
                ),
            ),
        )
    } else if name == "providers.attach"@ {
        Some(
            spec_tagged(
                "ProvidersAttach"@,
                JsonV::Obj(
                    seq![
                        ("id"@, JsonV::Str(spec_str_or_empty(jv_get(args, "id"@)))),
                        ("model"@, spec_str_or_null(jv_get(args, "model"@))),
                    ],
                ),
            ),
        )
    } else if name == "providers.revoke"@ {
        Some(
            spec_tagged(
                "ProvidersRevoke"@,
                JsonV::Obj(seq![("id"@, JsonV::Str(spec_str_or_empty(jv_get(args, "id"@))))]),
            ),
        )
    } else if name == "events.subscribe"@ {
        Some(spec_tagged("EventsSubscribe"@, JsonV::Obj(Seq::empty())))
    } else if name == "chat.sessions.list"@ {
        Some(spec_tagged("ChatSessionsList"@, JsonV::Obj(Seq::empty())))
    } else if name == "chat.session.new"@ {
        Some(
            spec_tagged(
                "ChatSessionNew"@,
                JsonV::Obj(seq![("title"@, spec_str_or_null(jv_get(args, "title"@)))]),
            ),
        )
    } else if name == "chat.history"@ {
        Some(
            spec_tagged(
                "ChatHistory"@,
                JsonV::Obj(seq![("session_id"@, spec_str_or_null(jv_get(args, "session_id"@)))]),
            ),
        )
    } else if name == "chat.send"@ {
        Some(
            spec_tagged(
                "ChatSend"@,
                JsonV::Obj(
                    seq![
                        ("session_id"@, spec_str_or_null(jv_get(args, "session_id"@))),
                        ("text"@, JsonV::Str(spec_str_or_empty(jv_get(args, "text"@)))),
                        ("stream"@, JsonV::Bool(spec_bool_or(jv_get(args, "stream"@), true))),
                    ],
                ),
            ),
        )
    } else if name == "shell.exec"@ {
        Some(
            spec_tagged(
                "ShellExec"@,
                JsonV::Obj(
                    seq![
                        ("cmd"@, JsonV::Str(spec_str_or_empty(jv_get(args, "cmd"@)))),
                        ("args"@, JsonV::Arr(spec_str_items(spec_arr_or_empty(jv_get(args, "args"@)), 0))),
                        ("cwd"@, spec_str_or_null(jv_get(args, "cwd"@))),
                    ],
                ),
            ),
        )
    } else if name == "down"@ {
        Some(
            spec_tagged(
                "Down"@,
                JsonV::Obj(
                    seq![
                        ("force"@, JsonV::Bool(spec_bool_or(jv_get(args, "force"@), false))),
                        ("shutdown"@, JsonV::Bool(spec_bool_or(jv_get(args, "shutdown"@), false))),
                    ],
                ),
            ),
        )
    } else {
        None
    }
}

/// Translates a command name and argument object into the peer's tagged wire
/// shape; `None` exactly on names outside the vocabulary.
pub fn map_request(name: &str, args: &Json) -> (r: Option<Json>)
    ensures
        match r {
            Some(j) => spec_map_request(name@, args@) == Some(j@),
            None => spec_map_request(name@, args@) is None,
        },
{
    if str_eq(name, "status") {
        Some(obj1("Status", obj_empty()))
    } else if str_eq(name, "protocol.handshake") {
        Some(obj1("ProtocolHandshake", obj1("client", str_field_or_null(args, "client"))))
    } else if str_eq(name, "ping") {
        Some(obj1("Ping", obj_empty()))
    } else if str_eq(name, "providers.discover") {
        Some(
            obj1(
                "ProvidersDiscover",
                obj2(
                    "endpoint",
                    str_field_or_null(args, "endpoint"),
                    "model",
                    str_field_or_null(args, "model"),
                ),
            ),
        )
    } else if str_eq(name, "providers.list") {
        Some(obj1("ProvidersList", obj_empty()))
    } else if str_eq(name, "providers.status") {
        Some(obj1("ProvidersStatus", obj_empty()))
    } else if str_eq(name, "providers.detach") {
        Some(obj1("ProvidersDetach", obj_empty()))
    } else if str_eq(name, "providers.pair") {
        Some(
            obj1(
                "ProvidersPair",
                obj3(
                    "id",
                    Json::Str(str_field_or_empty(args, "id")),
                    "endpoint",
                    Json::Str(str_field_or_empty(args, "endpoint")),
                    "model",
                    Json::Str(str_field_or_empty(args, "model")),
                ),
            ),
        )
    } else if str_eq(name, "providers.attach") {
        Some(
            obj1(
                "ProvidersAttach",
                obj2(
                    "id",
                    Json::Str(str_field_or_empty(args, "id")),
                    "model",
                    str_field_or_null(args, "model"),
                ),
            ),
        )
    } else if str_eq(name, "providers.revoke") {
        Some(obj1("ProvidersRevoke", obj1("id", Json::Str(str_field_or_empty(args, "id")))))
    } else if str_eq(name, "events.subscribe") {
        Some(obj1("EventsSubscribe", obj_empty()))
    } else if str_eq(name, "chat.sessions.list") {
        Some(obj1("ChatSessionsList", obj_empty()))
    } else if str_eq(name, "chat.session.new") {
        Some(obj1("ChatSessionNew", obj1("title", str_field_or_null(args, "title"))))
    } else if str_eq(name, "chat.history") {
        Some(obj1("ChatHistory", obj1("session_id", str_field_or_null(args, "session_id"))))
    } else if str_eq(name, "chat.send") {
        Some(
            obj1(
                "ChatSend",
                obj3(
                    "session_id",
                    str_field_or_null(args, "session_id"),
                    "text",
                    Json::Str(str_field_or_empty(args, "text")),
                    "stream",
                    Json::Bool(bool_field_or(args, "stream", true)),
                ),
            ),
        )
    } else if str_eq(name, "shell.exec") {
        Some(
            obj1(
                "ShellExec",
                obj3(
                    "cmd",
                    Json::Str(str_field_or_empty(args, "cmd")),
                    "args",
                    str_items_field(args, "args"),
                    "cwd",
                    str_field_or_null(args, "cwd"),
                ),
            ),
        )
    } else if str_eq(name, "down") {
        Some(
            obj1(
                "Down",
                obj2(
                    "force",
                    Json::Bool(bool_field_or(args, "force", false)),
                    "shutdown",
                    Json::Bool(bool_field_or(args, "shutdown", false)),
                ),
            ),
        )
    } else {
        None
    }
}

// -------------------------------------------------------------- the envelope
/// One wire request line as a value: protocol version, the tagged request,
/// the addressed workspace when one is named, the arming flag, and the
/// operator role exactly on armed requests.
pub open spec fn spec_envelope(req: JsonV, ws: Option<Seq<char>>, arming: bool) -> JsonV {
    match ws {
        Some(w) => {
            if arming {
                JsonV::Obj(
                    seq![
                        ("v"@, JsonV::Int(1)),
                        ("request"@, req),
                        ("ws_id"@, JsonV::Str(w)),
                        ("arming"@, JsonV::Bool(true)),
                        ("role"@, JsonV::Str("operator"@)),
                    ],
                )
            } else {
                JsonV::Obj(
                    seq![
                        ("v"@, JsonV::Int(1)),
                        ("request"@, req),
                        ("ws_id"@, JsonV::Str(w)),
                        ("arming"@, JsonV::Bool(false)),
                    ],
                )
            }
        },
        None => {
            if arming {
                JsonV::Obj(
                    seq![
                        ("v"@, JsonV::Int(1)),
                        ("request"@, req),
                        ("arming"@, JsonV::Bool(true)),
                        ("role"@, JsonV::Str("operator"@)),
                    ],
                )
            } else {
                JsonV::Obj(
                    seq![("v"@, JsonV::Int(1)), ("request"@, req), ("arming"@, JsonV::Bool(false))],
                )
            }
        },
    }
}

/// Builds the request envelope around a translated request.
pub fn build_envelope(req: Json, ws: Option<&str>, arming: bool) -> (r: Json)
    ensures
        r@ == spec_envelope(
            req@,
            match ws {
                Some(w) => Some(w@),
                None => None,
            },
            arming,
        ),
{
    match ws {
        Some(w) => {
            if arming {
                obj5(
                    "v",
                    Json::Int(1),
                    "request",
                    req,
                    "ws_id",
                    jstr(w),
                    "arming",
                    Json::Bool(true),
                    "role",
                    jstr("operator"),
                )
            } else {
                obj4(
                    "v",
                    Json::Int(1),
                    "request",
                    req,
                    "ws_id",
                    jstr(w),
                    "arming",
                    Json::Bool(false),
                )
            }
        },
        None => {
            if arming {
                obj4(
                    "v",
                    Json::Int(1),
                    "request",
                    req,
                    "arming",
                    Json::Bool(true),
                    "role",
                    jstr("operator"),
                )
            } else {
                obj3("v", Json::Int(1), "request", req, "arming", Json::Bool(false))
            }
        },
    }
}

/// The full wire line for a command, when the name is in the vocabulary.
pub fn request_line(name: &str, args: &Json, ws: &str, arming: bool) -> (r: Option<String>)
    ensures
        match r {
            Some(line) => spec_map_request(name@, args@) matches Some(req) && line@ == json_text(
                spec_envelope(req, Some(ws@), arming),
            ),
            None => spec_map_request(name@, args@) is None,
        },
{
    match map_request(name, args) {
        Some(req) => {
            let envelope = build_envelope(req, Some(ws), arming);
            Some(crate::codec::json_to_line(&envelope))
        },
        None => None,
    }
}

// ------------------------------------------------------------ inbound frames
/// What one parsed response frame means to the transport.
pub enum SpecFrame {
    /// An explicit-null, empty-object or acknowledgement frame: read on.
    Noop,
    /// An explicit error frame with its message.
    PeerError(Seq<char>),
    /// The terminal payload.
    Terminal(JsonV),
}

/// The frame discriminator: the `type` field when it is a string.
pub open spec fn spec_frame_kind(v: JsonV) -> Seq<char> {
    spec_str_or_empty(jv_get(v, "type"@))
}

/// The message of an error frame, with the fixed fallback text.
pub open spec fn spec_error_message(v: JsonV) -> Seq<char> {
    match jv_get(v, "message"@) {
        Some(JsonV::Str(s)) => s,
        _ => "daemon error"@,
    }
}

/// Frame classification: explicit error frames fail the call; null, empty
/// objects and acknowledgement frames are no-ops; anything else is terminal.
pub open spec fn spec_classify(v: JsonV) -> SpecFrame {
    if spec_frame_kind(v) == "error"@ {
        SpecFrame::PeerError(spec_error_message(v))
    } else if v is Null {
        SpecFrame::Noop
    } else if v matches JsonV::Obj(pairs) && pairs.len() == 0 {
        SpecFrame::Noop
    } else if spec_frame_kind(v) == "ack"@ {
        SpecFrame::Noop
    } else {
        SpecFrame::Terminal(v)
    }
}

/// Executable frame classification.
pub enum FrameClass {
    Noop,
    PeerError(String),
    Terminal(Json),
}

/// Classifies one parsed frame, as `spec_classify` says.
pub fn classify_frame(j: Json) -> (r: FrameClass)
    ensures
        match r {
            FrameClass::Noop => spec_classify(j@) is Noop,
            FrameClass::PeerError(m) => spec_classify(j@) == SpecFrame::PeerError(m@),
            FrameClass::Terminal(p) => spec_classify(j@) == SpecFrame::Terminal(p@),
        },
{
    proof {
        reveal_strlit("");
        reveal_strlit("error");
        reveal_strlit("ack");
        assert(""@.len() == 0);
        assert("error"@.len() == 5);
        assert("ack"@.len() == 3);
    }
    let mut kind_error = false;
    let mut kind_ack = false;
    match j.get("type") {
        Some(v) => match v.as_str() {
            Some(s) => {
                kind_error = str_eq(s.as_str(), "error");
                kind_ack = str_eq(s.as_str(), "ack");
            },
            None => {},
        },
        None => {},
    }
    if kind_error {
        let msg: String = match j.get("message") {
            Some(v) => match v.as_str() {
                Some(s) => s.clone(),
                None => String::from_str("daemon error"),
            },
            None => String::from_str("daemon error"),
        };
        FrameClass::PeerError(msg)
    } else if j.is_null() {
        FrameClass::Noop
    } else if j.is_empty_object() {
        FrameClass::Noop
    } else if kind_ack {
        FrameClass::Noop
    } else {
        FrameClass::Terminal(j)
    }
}

// ------------------------------------------------------------- response scan
/// What a scan over the response lines read so far concludes.
pub enum SpecScan {
    /// No terminal frame yet and budget remains: read another line.
    NeedMore,
    /// The call fails with this message.
    Fail(Seq<char>),
    /// The call succeeds with this payload.
    Done(JsonV),
}

/// The transport failure text for a line that is not JSON.
pub open spec fn spec_invalid_json_msg(trace_id: Seq<char>) -> Seq<char> {
    "invalid json response for trace_id="@ + trace_id
}

/// The transport failure text when no terminal frame arrives.
pub open spec fn spec_empty_response_msg() -> Seq<char> {
    "empty response from daemon"@
}

/// The bounded scan: up to `budget` lines, in arrival order; the first
/// non-JSON line or error frame fails the call, the first terminal frame
/// wins, and an exhausted budget is the empty-response failure.
pub open spec fn spec_scan(
    lines: Seq<Seq<char>>,
    i: int,
    budget: int,
    trace_id: Seq<char>,
) -> SpecScan
    decreases lines.len() - i,
{
    if budget <= 0 {
        SpecScan::Fail(spec_empty_response_msg())
    } else if i < 0 || i >= lines.len() {
        SpecScan::NeedMore
    } else {
        match json_parsed(lines[i]) {
            None => SpecScan::Fail(spec_invalid_json_msg(trace_id)),
            Some(v) => match spec_classify(v) {
                SpecFrame::PeerError(m) => SpecScan::Fail(m),
                SpecFrame::Terminal(p) => SpecScan::Done(p),
                SpecFrame::Noop => spec_scan(lines, i + 1, budget - 1, trace_id),
            },
        }
    }
}

/// The scan outcome once end-of-stream is taken into account: a stream that
/// ends before a terminal frame is the empty-response failure.
pub open spec fn spec_scan_eof(
    lines: Seq<Seq<char>>,
    eof: bool,
    trace_id: Seq<char>,
) -> SpecScan {
    match spec_scan(lines, 0, 8, trace_id) {
        SpecScan::NeedMore => {
            if eof {
                SpecScan::Fail(spec_empty_response_msg())
            } else {
                SpecScan::NeedMore
            }
        },
        o => o,
    }
}

/// Executable scan outcome.
pub enum ScanOutcome {
    NeedMore,
    Fail(String),
    Done(Json),
}

/// Scans the response lines read so far (oldest first). `eof` says the
/// stream ended after them. `NeedMore` asks the caller to read one more
/// line and scan again.
pub fn scan_response_lines(lines: &Vec<String>, eof: bool, trace_id: &str) -> (r: ScanOutcome)
    ensures
        match r {
            ScanOutcome::NeedMore => spec_scan_eof(lines.deep_view(), eof, trace_id@)
                is NeedMore,
            ScanOutcome::Fail(m) => spec_scan_eof(lines.deep_view(), eof, trace_id@)
                == SpecScan::Fail(m@),
            ScanOutcome::Done(p) => spec_scan_eof(lines.deep_view(), eof, trace_id@)
                == SpecScan::Done(p@),
        },
{
    let ghost dv = lines.deep_view();
    let n = lines.len();
    proof {
        assert(dv.len() == n);
    }
    let mut i: usize = 0;
    while i < n && i < 8
        invariant
            0 <= i <= n,
            i <= 8,
            n == lines.len(),
            dv == lines.deep_view(),
            dv.len() == n,
            spec_scan(dv, 0, 8, trace_id@) == spec_scan(dv, i as int, 8 - i as int, trace_id@),
        decreases n - i,
    {
        proof {
            assert(dv[i as int] == lines@[i as int]@);
        }
        match parse_json_line(lines[i].as_str()) {
            None => {
                let mut m = String::from_str("invalid json response for trace_id=");
                m.append(trace_id);
                return ScanOutcome::Fail(m);
            },
            Some(v) => {
                match classify_frame(v) {
                    FrameClass::PeerError(m) => {
                        return ScanOutcome::Fail(m);
                    },
                    FrameClass::Terminal(p) => {
                        return ScanOutcome::Done(p);
                    },
                    FrameClass::Noop => {},
                }
            },
        }
        i = i + 1;
    }
    if i == 8 {
        return ScanOutcome::Fail(String::from_str("empty response from daemon"));
    }
    if eof {
        return ScanOutcome::Fail(String::from_str("empty response from daemon"));
    }
    ScanOutcome::NeedMore
}

} // verus!
