//! The outgoing side of the wire protocol: the response model and the
//! exact text of every emitted frame.
//!
//! A [`Response`] is rendered to a single JSON-RPC frame (without the
//! line delimiter); [`frame_text`] states the full character sequence of
//! that frame, so a caller knows the bytes on the wire, not merely their
//! shape.

use vstd::prelude::*;

use crate::protocol::{opt_id_view, IdV, RequestId};
use crate::text::{dec_int, escape_onto, json_escape, push_char, push_i64, seq_assoc};

verus! {

/// JSON-RPC error code for a request that the protocol state refuses.
pub const INVALID_REQUEST: i64 = -32600;

/// JSON-RPC error code for a request whose method is not served.
pub const METHOD_NOT_FOUND: i64 = -32601;

/// JSON-RPC error code for unusable tool parameters.
pub const INVALID_PARAMS: i64 = -32602;

/// JSON-RPC error code for an unparseable frame.
pub const PARSE_ERROR: i64 = -32700;

/// The captured result of a finished script run, as it appears in a
/// successful tool response.
pub struct ToolPayload {
    pub stdout: String,
    pub stderr: String,
    pub exit_code: i64,
}

/// The body of a response frame.
pub enum Body {
    /// The `initialize` result: protocol version, capabilities, server info.
    InitResult,
    /// The `tools/list` result: the single `exec` tool and its schema.
    ToolsListResult,
    /// A successful `tools/call` result carrying the run's payload.
    ToolOutput(ToolPayload),
    /// A failed `tools/call` result: still a result, never a protocol
    /// fault, with the message as its one text content item.
    ToolError { message: String },
    /// A JSON-RPC error object.
    Failure { code: i64, message: String },
}

/// One full response, still structured.
pub struct Response {
    pub id: Option<RequestId>,
    pub body: Body,
}

/// Mathematical model of a response body.
#[verifier::ext_equal]
pub enum BodyV {
    VInit,
    VTools,
    VToolOutput { stdout: Seq<char>, stderr: Seq<char>, exit_code: int },
    VToolError { message: Seq<char> },
    VFailure { code: int, message: Seq<char> },
}

/// Mathematical model of a response.
#[verifier::ext_equal]
pub struct RespV {
    pub id: Option<IdV>,
    pub body: BodyV,
}

impl View for Body {
    type V = BodyV;

    open spec fn view(&self) -> BodyV {
        match self {
            Body::InitResult => BodyV::VInit,
            Body::ToolsListResult => BodyV::VTools,
            Body::ToolOutput(p) => BodyV::VToolOutput {
                stdout: p.stdout@,
                stderr: p.stderr@,
                exit_code: p.exit_code as int,
            },
            Body::ToolError { message } => BodyV::VToolError { message: message@ },
            Body::Failure { code, message } => BodyV::VFailure {
                code: *code as int,
                message: message@,
            },
        }
    }
}

impl View for Response {
    type V = RespV;

    open spec fn view(&self) -> RespV {
        RespV { id: opt_id_view(self.id), body: self.body@ }
    }
}

/// The constant `initialize` result.
pub open spec fn init_result_text() -> Seq<char> {
    "{\"protocolVersion\":\"2024-11-05\",\"capabilities\":{\"tools\":{}},\"serverInfo\":{\"name\":\"mcp-server-nu\",\"version\":\"0.1.0\"},\"instructions\":\"This server executes Nushell scripts and returns their output. It provides structured data processing capabilities with proper error handling and timeouts.\"}"@
}

/// The constant `tools/list` result: one tool, `exec`, whose input schema
/// requires `script` and optionally accepts `timeout_seconds`.
pub open spec fn tools_list_text() -> Seq<char> {
    "{\"tools\":[{\"name\":\"exec\",\"description\":\"Executes a nushell script and returns stdout, stderr, and exit code. Prefer single commands with clear output; break complex tasks into sequential steps. Nushell differs from POSIX: use 'print' instead of 'echo', parentheses instead of trailing backslashes for multi-line pipelines, and structured data commands such as 'where', 'get', 'to csv'.\",\"inputSchema\":{\"type\":\"object\",\"properties\":{\"script\":{\"type\":\"string\",\"description\":\"The nushell script to execute.\"},\"timeout_seconds\":{\"type\":\"integer\",\"description\":\"Wall-clock bound in seconds for the script; defaults to 30.\"}},\"required\":[\"script\"]}}]}"@
}

/// The text content of a successful tool response, before it is embedded
/// as a JSON string: stdout, stderr and exit_code, always all three.
pub open spec fn payload_text(stdout: Seq<char>, stderr: Seq<char>, exit_code: int) -> Seq<char> {
    "{\"stdout\":\""@ + json_escape(stdout) + "\",\"stderr\":\""@ + json_escape(stderr)
        + "\",\"exit_code\":"@ + dec_int(exit_code) + "}"@
}

/// How a response id appears on the wire; an absent id renders as `null`.
pub open spec fn id_text(id: Option<IdV>) -> Seq<char> {
    match id {
        Option::None => "null"@,
        Option::Some(IdV::NumId(n)) => dec_int(n),
        Option::Some(IdV::TextId(s)) => seq!['"'] + json_escape(s) + seq!['"'],
    }
}

/// The full frame for a response: the five body kinds, flattened.
pub open spec fn frame_text(r: RespV) -> Seq<char> {
    match r.body {
        BodyV::VInit => "{\"jsonrpc\":\"2.0\",\"id\":"@ + id_text(r.id) + ",\"result\":"@
            + init_result_text() + "}"@,
        BodyV::VTools => "{\"jsonrpc\":\"2.0\",\"id\":"@ + id_text(r.id) + ",\"result\":"@
            + tools_list_text() + "}"@,
        BodyV::VToolOutput { stdout, stderr, exit_code } => "{\"jsonrpc\":\"2.0\",\"id\":"@
            + id_text(r.id) + ",\"result\":{\"content\":[{\"type\":\"text\",\"text\":\""@
            + json_escape(payload_text(stdout, stderr, exit_code)) + "\"}],\"isError\":false}}"@,
        BodyV::VToolError { message } => "{\"jsonrpc\":\"2.0\",\"id\":"@ + id_text(r.id)
            + ",\"result\":{\"content\":[{\"type\":\"text\",\"text\":\""@ + json_escape(message)
            + "\"}],\"isError\":true}}"@,
        BodyV::VFailure { code, message } => "{\"jsonrpc\":\"2.0\",\"id\":"@ + id_text(r.id)
            + ",\"error\":{\"code\":"@ + dec_int(code) + ",\"message\":\""@
            + json_escape(message) + "\"}}"@,
    }
}

/// Appends the wire form of the id onto `out`.
fn append_id(out: &mut String, id: &Option<RequestId>)
    ensures
        final(out)@ == old(out)@ + id_text(opt_id_view(*id)),
{
    match id {
        Option::None => {
            out.append("null");
        },
        Option::Some(RequestId::Num(n)) => {
            push_i64(out, *n);
        },
        Option::Some(RequestId::Text(s)) => {
            push_char(out, '"');
            escape_onto(out, s.as_str());
            push_char(out, '"');
            proof {
                seq_assoc(old(out)@, seq!['"'], json_escape(s@));
                seq_assoc(old(out)@, seq!['"'] + json_escape(s@), seq!['"']);
            }
        },
    }
}

/// The payload string of a successful run, exactly [`payload_text`].
pub fn payload_string(stdout: &String, stderr: &String, exit_code: i64) -> (p: String)
    ensures
        p@ == payload_text(stdout@, stderr@, exit_code as int),
{
    let mut p = String::from_str("{\"stdout\":\"");
    escape_onto(&mut p, stdout.as_str());
    p.append("\",\"stderr\":\"");
    escape_onto(&mut p, stderr.as_str());
    p.append("\",\"exit_code\":");
    push_i64(&mut p, exit_code);
    p.append("}");
    p
}

/// Renders a response to its one frame on the wire, exactly
/// [`frame_text`]; the transport's line delimiter is not included.
pub fn render_response(r: &Response) -> (s: String)
    ensures
        s@ == frame_text(r@),
{
    let mut out = String::from_str("{\"jsonrpc\":\"2.0\",\"id\":");
    append_id(&mut out, &r.id);
    match &r.body {
        Body::InitResult => {
            out.append(",\"result\":");
            out.append("{\"protocolVersion\":\"2024-11-05\",\"capabilities\":{\"tools\":{}},\"serverInfo\":{\"name\":\"mcp-server-nu\",\"version\":\"0.1.0\"},\"instructions\":\"This server executes Nushell scripts and returns their output. It provides structured data processing capabilities with proper error handling and timeouts.\"}");
            out.append("}");
        },
        Body::ToolsListResult => {
            out.append(",\"result\":");
            out.append("{\"tools\":[{\"name\":\"exec\",\"description\":\"Executes a nushell script and returns stdout, stderr, and exit code. Prefer single commands with clear output; break complex tasks into sequential steps. Nushell differs from POSIX: use 'print' instead of 'echo', parentheses instead of trailing backslashes for multi-line pipelines, and structured data commands such as 'where', 'get', 'to csv'.\",\"inputSchema\":{\"type\":\"object\",\"properties\":{\"script\":{\"type\":\"string\",\"description\":\"The nushell script to execute.\"},\"timeout_seconds\":{\"type\":\"integer\",\"description\":\"Wall-clock bound in seconds for the script; defaults to 30.\"}},\"required\":[\"script\"]}}]}");
            out.append("}");
        },
        Body::ToolOutput(p) => {
            let ptext = payload_string(&p.stdout, &p.stderr, p.exit_code);
            out.append(",\"result\":{\"content\":[{\"type\":\"text\",\"text\":\"");
            escape_onto(&mut out, ptext.as_str());
            out.append("\"}],\"isError\":false}}");
        },
        Body::ToolError { message } => {
            out.append(",\"result\":{\"content\":[{\"type\":\"text\",\"text\":\"");
            escape_onto(&mut out, message.as_str());
            out.append("\"}],\"isError\":true}}");
        },
        Body::Failure { code, message } => {
            out.append(",\"error\":{\"code\":");
            push_i64(&mut out, *code);
            out.append(",\"message\":\"");
            escape_onto(&mut out, message.as_str());
            out.append("\"}}");
        },
    }
    out
}

} // verus!
