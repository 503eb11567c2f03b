//! The incoming side of the wire protocol: request ids, the message
//! model, and the decoding of one framed JSON-RPC message into it.
//!
//! Decoding walks a parsed JSON value through the accessors of `jsonio`
//! and is specified against their model: [`decode_spec`] states, over
//! [`parse_model`], exactly which message every line decodes to, and
//! [`decode_frame`] is proved to return it. The behaviour of the server
//! on each decoded message is pinned down by `session::step_spec`.

use vstd::prelude::*;

use crate::jsonio::{
    json_as_i64, json_as_string, json_as_u64, json_get, json_model, parse_json, parse_model, JsonV,
};

verus! {

/// The id a request carries: a JSON number or a JSON string.
pub enum RequestId {
    Num(i64),
    Text(String),
}

/// Mathematical model of a request id.
#[verifier::ext_equal]
pub enum IdV {
    NumId(int),
    TextId(Seq<char>),
}

impl View for RequestId {
    type V = IdV;

    open spec fn view(&self) -> IdV {
        match self {
            RequestId::Num(n) => IdV::NumId(*n as int),
            RequestId::Text(s) => IdV::TextId(s@),
        }
    }
}

/// Model of an optional request id.
pub open spec fn opt_id_view(id: Option<RequestId>) -> Option<IdV> {
    match id {
        Option::Some(i) => Option::Some(i@),
        Option::None => Option::None,
    }
}

/// Model of an optional owned string.
pub open spec fn opt_str_view(s: Option<String>) -> Option<Seq<char>> {
    match s {
        Option::Some(t) => Option::Some(t@),
        Option::None => Option::None,
    }
}

/// The `timeout_seconds` argument as it appeared in a `tools/call`
/// request: absent, a number representable as `u64`, or present but not
/// such a number.
#[derive(Clone, Copy)]
pub enum TimeoutField {
    Absent,
    Given(u64),
    Invalid,
}

/// One decoded incoming frame.
pub enum Message {
    /// An `initialize` request.
    Initialize { id: RequestId },
    /// The `notifications/initialized` handshake-completion notification.
    InitializedNote,
    /// A `tools/list` request.
    ListTools { id: RequestId },
    /// A `tools/call` request, fields passed along exactly as present.
    CallTool { id: RequestId, tool: Option<String>, script: Option<String>, timeout: TimeoutField },
    /// A request whose method is none of the above.
    OtherRequest { id: RequestId, method: String },
    /// A notification (no id) whose method is not the handshake completion.
    OtherNote { method: String },
    /// Not valid JSON, or no usable `method`; `id` as far as recoverable.
    Malformed { id: Option<RequestId> },
}

/// Mathematical model of a decoded frame.
#[verifier::ext_equal]
pub enum MsgV {
    MInit { id: IdV },
    MInitedNote,
    MListTools { id: IdV },
    MCallTool { id: IdV, tool: Option<Seq<char>>, script: Option<Seq<char>>, timeout: TimeoutField },
    MOtherRequest { id: IdV, method: Seq<char> },
    MOtherNote { method: Seq<char> },
    MMalformed { id: Option<IdV> },
}

impl View for Message {
    type V = MsgV;

    open spec fn view(&self) -> MsgV {
        match self {
            Message::Initialize { id } => MsgV::MInit { id: id@ },
            Message::InitializedNote => MsgV::MInitedNote,
            Message::ListTools { id } => MsgV::MListTools { id: id@ },
            Message::CallTool { id, tool, script, timeout } => MsgV::MCallTool {
                id: id@,
                tool: opt_str_view(*tool),
                script: opt_str_view(*script),
                timeout: *timeout,
            },
            Message::OtherRequest { id, method } => MsgV::MOtherRequest { id: id@, method: method@ },
            Message::OtherNote { method } => MsgV::MOtherNote { method: method@ },
            Message::Malformed { id } => MsgV::MMalformed { id: opt_id_view(*id) },
        }
    }
}

/// `s` holds exactly the characters of the literal `lit`.
pub(crate) fn str_is(s: &String, lit: &str) -> (r: bool)
    ensures
        r == (s@ == lit@),
{
    let other: String = lit.to_owned();
    s.eq(&other)
}

/// The value under a key, when the model is an object holding it.
pub open spec fn obj_field(v: JsonV, key: Seq<char>) -> Option<JsonV> {
    match v {
        JsonV::JObj(fields) => if fields.contains_key(key) {
            Option::Some(fields[key])
        } else {
            Option::None
        },
        _ => Option::None,
    }
}

/// The id one JSON value yields: a number fitting `i64`, or a string.
pub open spec fn id_of_json(j: JsonV) -> Option<IdV> {
    match j {
        JsonV::JInt(n) => if i64::MIN as int <= n && n <= i64::MAX as int {
            Option::Some(IdV::NumId(n))
        } else {
            Option::None
        },
        JsonV::JText(t) => Option::Some(IdV::TextId(t)),
        _ => Option::None,
    }
}

/// The request id a frame carries, as far as recoverable.
pub open spec fn id_spec(v: JsonV) -> Option<IdV> {
    match obj_field(v, "id"@) {
        Option::Some(j) => id_of_json(j),
        Option::None => Option::None,
    }
}

/// The frame's method, when present as a string.
pub open spec fn method_spec(v: JsonV) -> Option<Seq<char>> {
    match obj_field(v, "method"@) {
        Option::Some(JsonV::JText(t)) => Option::Some(t),
        _ => Option::None,
    }
}

/// The tool name of a `tools/call` frame: `params.name`, when a string.
pub open spec fn tool_spec(v: JsonV) -> Option<Seq<char>> {
    match obj_field(v, "params"@) {
        Option::Some(p) => match obj_field(p, "name"@) {
            Option::Some(JsonV::JText(t)) => Option::Some(t),
            _ => Option::None,
        },
        Option::None => Option::None,
    }
}

/// The `params.arguments` object of a `tools/call` frame.
pub open spec fn args_spec(v: JsonV) -> Option<JsonV> {
    match obj_field(v, "params"@) {
        Option::Some(p) => obj_field(p, "arguments"@),
        Option::None => Option::None,
    }
}

/// The script argument, when present as a string.
pub open spec fn script_spec(v: JsonV) -> Option<Seq<char>> {
    match args_spec(v) {
        Option::Some(a) => match obj_field(a, "script"@) {
            Option::Some(JsonV::JText(t)) => Option::Some(t),
            _ => Option::None,
        },
        Option::None => Option::None,
    }
}

/// The `timeout_seconds` argument: absent, a number fitting `u64`, or
/// present in any other form.
pub open spec fn timeout_spec(v: JsonV) -> TimeoutField {
    match args_spec(v) {
        Option::Some(a) => match obj_field(a, "timeout_seconds"@) {
            Option::Some(JsonV::JInt(n)) => if 0 <= n && n <= u64::MAX as int {
                TimeoutField::Given(n as u64)
            } else {
                TimeoutField::Invalid
            },
            Option::Some(_) => TimeoutField::Invalid,
            Option::None => TimeoutField::Absent,
        },
        Option::None => TimeoutField::Absent,
    }
}

/// The message one parsed frame decodes to: no usable method makes it
/// malformed; a frame without an id is a notification; with an id it is
/// routed by method, a `tools/call` carrying its fields as present.
pub open spec fn decode_value_spec(v: JsonV) -> MsgV {
    match method_spec(v) {
        Option::None => MsgV::MMalformed { id: id_spec(v) },
        Option::Some(method) => match id_spec(v) {
            Option::None => if method == "notifications/initialized"@ {
                MsgV::MInitedNote
            } else {
                MsgV::MOtherNote { method }
            },
            Option::Some(i) => if method == "initialize"@ {
                MsgV::MInit { id: i }
            } else if method == "tools/list"@ {
                MsgV::MListTools { id: i }
            } else if method == "tools/call"@ {
                MsgV::MCallTool {
                    id: i,
                    tool: tool_spec(v),
                    script: script_spec(v),
                    timeout: timeout_spec(v),
                }
            } else {
                MsgV::MOtherRequest { id: i, method }
            },
        },
    }
}

/// The message one line of the transport decodes to: unparseable text is
/// malformed with no id, anything else is [`decode_value_spec`] of what
/// it parses to.
pub open spec fn decode_spec(m: Option<JsonV>) -> MsgV {
    match m {
        Option::None => MsgV::MMalformed { id: Option::None },
        Option::Some(v) => decode_value_spec(v),
    }
}

/// The request id of a frame, if one is present: a JSON number fitting
/// `i64`, or a JSON string.
fn read_id(v: &serde_json::Value) -> (r: Option<RequestId>)
    ensures
        opt_id_view(r) == id_spec(json_model(*v)),
{
    match json_get(v, "id") {
        Option::Some(idv) => match json_as_i64(idv) {
            Option::Some(n) => Option::Some(RequestId::Num(n)),
            Option::None => match json_as_string(idv) {
                Option::Some(s) => Option::Some(RequestId::Text(s)),
                Option::None => Option::None,
            },
        },
        Option::None => Option::None,
    }
}

/// The `tools/call` fields, passed along without judgement: validation is
/// the session's job, so that its outcome is stated in `step_spec`.
fn read_call(v: &serde_json::Value, id: RequestId) -> (m: Message)
    ensures
        m@ == (MsgV::MCallTool {
            id: id@,
            tool: tool_spec(json_model(*v)),
            script: script_spec(json_model(*v)),
            timeout: timeout_spec(json_model(*v)),
        }),
{
    let params = json_get(v, "params");
    let tool: Option<String> = match params {
        Option::Some(pv) => match json_get(pv, "name") {
            Option::Some(nv) => json_as_string(nv),
            Option::None => Option::None,
        },
        Option::None => Option::None,
    };
    let args = match params {
        Option::Some(pv) => json_get(pv, "arguments"),
        Option::None => Option::None,
    };
    let script: Option<String> = match args {
        Option::Some(av) => match json_get(av, "script") {
            Option::Some(sv) => json_as_string(sv),
            Option::None => Option::None,
        },
        Option::None => Option::None,
    };
    let timeout: TimeoutField = match args {
        Option::Some(av) => match json_get(av, "timeout_seconds") {
            Option::Some(tv) => match json_as_u64(tv) {
                Option::Some(n) => TimeoutField::Given(n),
                Option::None => TimeoutField::Invalid,
            },
            Option::None => TimeoutField::Absent,
        },
        Option::None => TimeoutField::Absent,
    };
    Message::CallTool { id, tool, script, timeout }
}

fn decode_value(v: &serde_json::Value) -> (m: Message)
    ensures
        m@ == decode_value_spec(json_model(*v)),
{
    let id_opt = read_id(v);
    let method: Option<String> = match json_get(v, "method") {
        Option::Some(mv) => json_as_string(mv),
        Option::None => Option::None,
    };
    match method {
        Option::None => Message::Malformed { id: id_opt },
        Option::Some(m) => match id_opt {
            Option::None => {
                if str_is(&m, "notifications/initialized") {
                    Message::InitializedNote
                } else {
                    Message::OtherNote { method: m }
                }
            },
            Option::Some(id) => {
                if str_is(&m, "initialize") {
                    Message::Initialize { id }
                } else if str_is(&m, "tools/list") {
                    Message::ListTools { id }
                } else if str_is(&m, "tools/call") {
                    read_call(v, id)
                } else {
                    Message::OtherRequest { id, method: m }
                }
            },
        },
    }
}

/// Decodes one line of the transport into a [`Message`], exactly
/// [`decode_spec`] of what the line parses to.
pub fn decode_frame(line: &str) -> (m: Message)
    ensures
        m@ == decode_spec(parse_model(line@)),
{
    match parse_json(line) {
        Option::Some(v) => decode_value(&v),
        Option::None => Message::Malformed { id: Option::None },
    }
}

} // verus!
