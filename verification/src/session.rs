//! The protocol session: a two-state handshake machine over decoded
//! messages, the validation of `tools/call` parameters, and the server
//! loop's restart policy.
//!
//! [`step_spec`] is the single statement of what the server does with
//! every message in every state; [`NuServerHandler::handle_message`] is
//! proved to follow it exactly. The laws at the bottom spell out the
//! externally visible guarantees: premature requests are refused and
//! recovered, every in-order request gets exactly one correlated
//! response, an initialized session never reverts, and a missing or
//! empty script is rejected as a parameter error.

use vstd::prelude::*;

use crate::exec::{
    outcome_resp, timeout_text, ExecReqV, ExecRequest, OutcomeV, DEFAULT_TIMEOUT_SECONDS,
};
use crate::protocol::{
    opt_id_view, opt_str_view, str_is, IdV, Message, MsgV, RequestId, TimeoutField,
};
use crate::respond::{
    Body, BodyV, RespV, Response, INVALID_PARAMS, INVALID_REQUEST, METHOD_NOT_FOUND, PARSE_ERROR,
};
use crate::text::{contains_seq, dec_nat};

verus! {

/// The handshake state of one session. It starts `Uninitialized`, moves
/// to `Initialized` on the handshake-completion notification, and never
/// reverts.
#[derive(Clone, Copy, PartialEq, Eq, Structural)]
pub enum SessionState {
    Uninitialized,
    Initialized,
}

/// Why a session run ended, for the server loop to judge.
pub enum SessionEnd {
    /// The input stream closed; a graceful end.
    StreamClosed,
    /// A request other than `initialize` arrived before the handshake;
    /// the one recoverable fault.
    PrematureRequest(RequestId),
    /// The session's own read/write plumbing broke.
    Fault,
}

/// Mathematical model of a session end.
#[verifier::ext_equal]
pub enum EndV {
    VStreamClosed,
    VPremature(IdV),
    VFault,
}

impl View for SessionEnd {
    type V = EndV;

    open spec fn view(&self) -> EndV {
        match self {
            SessionEnd::StreamClosed => EndV::VStreamClosed,
            SessionEnd::PrematureRequest(id) => EndV::VPremature(id@),
            SessionEnd::Fault => EndV::VFault,
        }
    }
}

/// What the session asks of its surroundings for one message: emit a
/// reply, emit nothing, run the tool and report back, or end the session.
pub enum Action {
    Reply(Response),
    NoReply,
    Invoke { id: RequestId, req: ExecRequest },
    EndSession(SessionEnd),
}

/// Mathematical model of an action.
#[verifier::ext_equal]
pub enum ActV {
    AReply(RespV),
    ANoReply,
    AInvoke { id: IdV, req: ExecReqV },
    AEnd(EndV),
}

impl View for Action {
    type V = ActV;

    open spec fn view(&self) -> ActV {
        match self {
            Action::Reply(r) => ActV::AReply(r@),
            Action::NoReply => ActV::ANoReply,
            Action::Invoke { id, req } => ActV::AInvoke { id: id@, req: req@ },
            Action::EndSession(e) => ActV::AEnd(e@),
        }
    }
}

/// The message of the error a premature request is answered with.
pub open spec fn not_initialized_text() -> Seq<char> {
    "Server not initialized. Please send initialize request first."@
}

/// The message of a parse-error reply.
pub open spec fn parse_error_text() -> Seq<char> {
    "Parse error: the frame is not a usable JSON-RPC message."@
}

/// The message answered to a second `initialize`.
pub open spec fn already_initialized_text() -> Seq<char> {
    "Server already initialized."@
}

/// The message when `tools/call` carries no tool name.
pub open spec fn missing_tool_text() -> Seq<char> {
    "Invalid tool parameters: missing tool name."@
}

/// The message when `tools/call` names a tool this server does not have.
pub open spec fn unknown_tool_text(name: Seq<char>) -> Seq<char> {
    "Tool not found: "@ + name
}

/// The message when the `script` argument is absent.
pub open spec fn missing_script_text() -> Seq<char> {
    "Invalid tool parameters: missing required field 'script'."@
}

/// The message when the `script` argument is present but empty.
pub open spec fn empty_script_text() -> Seq<char> {
    "Invalid tool parameters: 'script' must be a non-empty string."@
}

/// The message when `timeout_seconds` is not a positive integer.
pub open spec fn bad_timeout_text() -> Seq<char> {
    "Invalid tool parameters: 'timeout_seconds' must be a positive integer."@
}

/// The message for a request whose method is not served.
pub open spec fn method_not_found_text(method: Seq<char>) -> Seq<char> {
    "Method not found: "@ + method
}

/// An immediate error reply carrying the request's id.
pub open spec fn failure_v(id: IdV, code: int, message: Seq<char>) -> ActV {
    ActV::AReply(RespV { id: Option::Some(id), body: BodyV::VFailure { code, message } })
}

/// What a malformed frame gets: a parse-error reply when an id was
/// recoverable, silence otherwise.
pub open spec fn parse_error_act(id: Option<IdV>) -> ActV {
    match id {
        Option::Some(i) => failure_v(i, PARSE_ERROR as int, parse_error_text()),
        Option::None => ActV::ANoReply,
    }
}

/// The wall-clock bound an invocation runs under: the given one, or the
/// default when none was named.
pub open spec fn effective_timeout(t: TimeoutField) -> u64 {
    match t {
        TimeoutField::Given(n) => n,
        _ => DEFAULT_TIMEOUT_SECONDS,
    }
}

/// Validation of a `tools/call`, in order: the tool must be named `exec`,
/// the script must be present and non-empty, and `timeout_seconds`, when
/// present, must be a positive integer. The first failure decides the
/// error; a fully valid call becomes one invocation.
pub open spec fn call_act(
    id: IdV,
    tool: Option<Seq<char>>,
    script: Option<Seq<char>>,
    t: TimeoutField,
) -> ActV {
    match tool {
        Option::None => failure_v(id, INVALID_PARAMS as int, missing_tool_text()),
        Option::Some(name) => if name != "exec"@ {
            failure_v(id, INVALID_PARAMS as int, unknown_tool_text(name))
        } else {
            match script {
                Option::None => failure_v(id, INVALID_PARAMS as int, missing_script_text()),
                Option::Some(s) => if s.len() == 0 {
                    failure_v(id, INVALID_PARAMS as int, empty_script_text())
                } else {
                    match t {
                        TimeoutField::Invalid => failure_v(
                            id,
                            INVALID_PARAMS as int,
                            bad_timeout_text(),
                        ),
                        TimeoutField::Given(n) => if n == 0 {
                            failure_v(id, INVALID_PARAMS as int, bad_timeout_text())
                        } else {
                            ActV::AInvoke { id, req: ExecReqV { script: s, timeout_seconds: n } }
                        },
                        TimeoutField::Absent => ActV::AInvoke {
                            id,
                            req: ExecReqV {
                                script: s,
                                timeout_seconds: DEFAULT_TIMEOUT_SECONDS,
                            },
                        },
                    }
                },
            }
        },
    }
}

/// The state machine: the next state and the action for every message in
/// every state.
pub open spec fn step_spec(s: SessionState, m: MsgV) -> (SessionState, ActV) {
    match s {
        SessionState::Uninitialized => match m {
            MsgV::MInit { id } => (
                SessionState::Uninitialized,
                ActV::AReply(RespV { id: Option::Some(id), body: BodyV::VInit }),
            ),
            MsgV::MInitedNote => (SessionState::Initialized, ActV::ANoReply),
            MsgV::MListTools { id } => (
                SessionState::Uninitialized,
                ActV::AEnd(EndV::VPremature(id)),
            ),
            MsgV::MCallTool { id, .. } => (
                SessionState::Uninitialized,
                ActV::AEnd(EndV::VPremature(id)),
            ),
            MsgV::MOtherRequest { id, .. } => (
                SessionState::Uninitialized,
                ActV::AEnd(EndV::VPremature(id)),
            ),
            MsgV::MOtherNote { .. } => (SessionState::Uninitialized, ActV::ANoReply),
            MsgV::MMalformed { id } => (SessionState::Uninitialized, parse_error_act(id)),
        },
        SessionState::Initialized => match m {
            MsgV::MInit { id } => (
                SessionState::Initialized,
                failure_v(id, INVALID_REQUEST as int, already_initialized_text()),
            ),
            MsgV::MInitedNote => (SessionState::Initialized, ActV::ANoReply),
            MsgV::MListTools { id } => (
                SessionState::Initialized,
                ActV::AReply(RespV { id: Option::Some(id), body: BodyV::VTools }),
            ),
            MsgV::MCallTool { id, tool, script, timeout } => (
                SessionState::Initialized,
                call_act(id, tool, script, timeout),
            ),
            MsgV::MOtherRequest { id, method } => (
                SessionState::Initialized,
                failure_v(id, METHOD_NOT_FOUND as int, method_not_found_text(method)),
            ),
            MsgV::MOtherNote { .. } => (SessionState::Initialized, ActV::ANoReply),
            MsgV::MMalformed { id } => (SessionState::Initialized, parse_error_act(id)),
        },
    }
}

fn failure_reply(id: RequestId, code: i64, message: String) -> (a: Action)
    ensures
        a@ == failure_v(id@, code as int, message@),
{
    Action::Reply(Response { id: Option::Some(id), body: Body::Failure { code, message } })
}

fn parse_error_reply(id: Option<RequestId>) -> (a: Action)
    ensures
        a@ == parse_error_act(opt_id_view(id)),
{
    match id {
        Option::Some(i) => failure_reply(
            i,
            PARSE_ERROR,
            String::from_str("Parse error: the frame is not a usable JSON-RPC message."),
        ),
        Option::None => Action::NoReply,
    }
}

/// One session's message handler, carrying its handshake state.
pub struct NuServerHandler {
    pub state: SessionState,
}

impl NuServerHandler {
    /// A fresh session, not yet initialized.
    pub fn new() -> (h: Self)
        ensures
            h.state == SessionState::Uninitialized,
    {
        NuServerHandler { state: SessionState::Uninitialized }
    }

    /// The `tools/list` reply: the constant tool list, under the
    /// request's id.
    pub fn handle_list_tools_request(&self, id: RequestId) -> (r: Response)
        ensures
            r@ == (RespV { id: Option::Some(id@), body: BodyV::VTools }),
    {
        Response { id: Option::Some(id), body: Body::ToolsListResult }
    }

    /// Validates a `tools/call` and turns it into an error reply or an
    /// invocation, exactly [`call_act`].
    pub fn handle_call_tool_request(
        &self,
        id: RequestId,
        tool: Option<String>,
        script: Option<String>,
        timeout: TimeoutField,
    ) -> (a: Action)
        ensures
            a@ == call_act(id@, opt_str_view(tool), opt_str_view(script), timeout),
    {
        match tool {
            Option::None => failure_reply(
                id,
                INVALID_PARAMS,
                String::from_str("Invalid tool parameters: missing tool name."),
            ),
            Option::Some(name) => {
                if !str_is(&name, "exec") {
                    let mut m = String::from_str("Tool not found: ");
                    m.append(name.as_str());
                    failure_reply(id, INVALID_PARAMS, m)
                } else {
                    match script {
                        Option::None => failure_reply(
                            id,
                            INVALID_PARAMS,
                            String::from_str(
                                "Invalid tool parameters: missing required field 'script'.",
                            ),
                        ),
                        Option::Some(s) => {
                            if s.as_str().is_empty() {
                                failure_reply(
                                    id,
                                    INVALID_PARAMS,
                                    String::from_str(
                                        "Invalid tool parameters: 'script' must be a non-empty string.",
                                    ),
                                )
                            } else {
                                match timeout {
                                    TimeoutField::Invalid => failure_reply(
                                        id,
                                        INVALID_PARAMS,
                                        String::from_str(
                                            "Invalid tool parameters: 'timeout_seconds' must be a positive integer.",
                                        ),
                                    ),
                                    TimeoutField::Given(n) => {
                                        if n == 0 {
                                            failure_reply(
                                                id,
                                                INVALID_PARAMS,
                                                String::from_str(
                                                    "Invalid tool parameters: 'timeout_seconds' must be a positive integer.",
                                                ),
                                            )
                                        } else {
                                            Action::Invoke {
                                                id,
                                                req: ExecRequest {
                                                    script: s,
                                                    timeout_seconds: n,
                                                },
                                            }
                                        }
                                    },
                                    TimeoutField::Absent => Action::Invoke {
                                        id,
                                        req: ExecRequest {
                                            script: s,
                                            timeout_seconds: DEFAULT_TIMEOUT_SECONDS,
                                        },
                                    },
                                }
                            }
                        },
                    }
                }
            },
        }
    }

    /// Handles one decoded message: the state moves and the action falls
    /// exactly as [`step_spec`] says.
    pub fn handle_message(&mut self, m: Message) -> (a: Action)
        ensures
            final(self).state == step_spec(old(self).state, m@).0,
            a@ == step_spec(old(self).state, m@).1,
    {
        let st = self.state;
        match st {
            SessionState::Uninitialized => match m {
                Message::Initialize { id } => Action::Reply(
                    Response { id: Option::Some(id), body: Body::InitResult },
                ),
                Message::InitializedNote => {
                    self.state = SessionState::Initialized;
                    Action::NoReply
                },
                Message::ListTools { id } => Action::EndSession(SessionEnd::PrematureRequest(id)),
                Message::CallTool { id, .. } => Action::EndSession(
                    SessionEnd::PrematureRequest(id),
                ),
                Message::OtherRequest { id, .. } => Action::EndSession(
                    SessionEnd::PrematureRequest(id),
                ),
                Message::OtherNote { .. } => Action::NoReply,
                Message::Malformed { id } => parse_error_reply(id),
            },
            SessionState::Initialized => match m {
                Message::Initialize { id } => failure_reply(
                    id,
                    INVALID_REQUEST,
                    String::from_str("Server already initialized."),
                ),
                Message::InitializedNote => Action::NoReply,
                Message::ListTools { id } => Action::Reply(self.handle_list_tools_request(id)),
                Message::CallTool { id, tool, script, timeout } => self.handle_call_tool_request(
                    id,
                    tool,
                    script,
                    timeout,
                ),
                Message::OtherRequest { id, method } => {
                    let mut msg = String::from_str("Method not found: ");
                    msg.append(method.as_str());
                    failure_reply(id, METHOD_NOT_FOUND, msg)
                },
                Message::OtherNote { .. } => Action::NoReply,
                Message::Malformed { id } => parse_error_reply(id),
            },
        }
    }
}

/// What the server loop does after a session run ends.
pub enum LoopAction {
    /// The stream closed normally: exit with success.
    ExitOk,
    /// The one whitelisted recoverable fault: emit this error for the
    /// failed request's id, then start a fresh session.
    RestartWithReply(Response),
    /// Anything else: exit with a failure code.
    ExitFault,
}

/// Mathematical model of a loop action.
#[verifier::ext_equal]
pub enum LoopV {
    LExitOk,
    LRestart(RespV),
    LExitFault,
}

impl View for LoopAction {
    type V = LoopV;

    open spec fn view(&self) -> LoopV {
        match self {
            LoopAction::ExitOk => LoopV::LExitOk,
            LoopAction::RestartWithReply(r) => LoopV::LRestart(r@),
            LoopAction::ExitFault => LoopV::LExitFault,
        }
    }
}

/// The restart policy: only a premature request is recovered, and the
/// client still observes a correlated "not initialized" error.
pub open spec fn loop_decision_spec(e: EndV) -> LoopV {
    match e {
        EndV::VStreamClosed => LoopV::LExitOk,
        EndV::VPremature(id) => LoopV::LRestart(
            RespV {
                id: Option::Some(id),
                body: BodyV::VFailure {
                    code: INVALID_REQUEST as int,
                    message: not_initialized_text(),
                },
            },
        ),
        EndV::VFault => LoopV::LExitFault,
    }
}

/// Judges a finished session run, exactly [`loop_decision_spec`].
pub fn loop_decision(e: SessionEnd) -> (a: LoopAction)
    ensures
        a@ == loop_decision_spec(e@),
{
    match e {
        SessionEnd::StreamClosed => LoopAction::ExitOk,
        SessionEnd::PrematureRequest(id) => LoopAction::RestartWithReply(
            Response {
                id: Option::Some(id),
                body: Body::Failure {
                    code: INVALID_REQUEST,
                    message: String::from_str(
                        "Server not initialized. Please send initialize request first.",
                    ),
                },
            },
        ),
        SessionEnd::Fault => LoopAction::ExitFault,
    }
}

/// A request proper: a message that carries an id and awaits a response,
/// the `initialize` request excluded.
pub open spec fn is_request(m: MsgV) -> bool {
    m matches MsgV::MListTools { .. } || m matches MsgV::MCallTool { .. } || m
        matches MsgV::MOtherRequest { .. }
}

/// The id a request carries.
pub open spec fn req_id(m: MsgV) -> IdV {
    match m {
        MsgV::MInit { id } => id,
        MsgV::MListTools { id } => id,
        MsgV::MCallTool { id, .. } => id,
        MsgV::MOtherRequest { id, .. } => id,
        _ => IdV::NumId(0),
    }
}

/// Law: any request other than `initialize` arriving before the
/// handshake ends the session without serving it; the loop then emits an
/// error under the request's own id whose message contains
/// "not initialized", and restarts, after which a correctly ordered
/// handshake still succeeds.
pub proof fn lemma_premature_request_recovered(m: MsgV, next_id: IdV)
    requires
        is_request(m),
    ensures
        step_spec(SessionState::Uninitialized, m).0 == SessionState::Uninitialized,
        step_spec(SessionState::Uninitialized, m).1 == ActV::AEnd(EndV::VPremature(req_id(m))),
        loop_decision_spec(EndV::VPremature(req_id(m))) == LoopV::LRestart(
            RespV {
                id: Option::Some(req_id(m)),
                body: BodyV::VFailure {
                    code: INVALID_REQUEST as int,
                    message: not_initialized_text(),
                },
            },
        ),
        contains_seq(not_initialized_text(), "not initialized"@),
        step_spec(SessionState::Uninitialized, MsgV::MInit { id: next_id }) == (
            SessionState::Uninitialized,
            ActV::AReply(RespV { id: Option::Some(next_id), body: BodyV::VInit }),
        ),
        step_spec(SessionState::Uninitialized, MsgV::MInitedNote) == (
            SessionState::Initialized,
            ActV::ANoReply,
        ),
{
    reveal_strlit("Server not initialized. Please send initialize request first.");
    reveal_strlit("not initialized");
    let h = not_initialized_text();
    let nd = "not initialized"@;
    assert(h.subrange(7, 7 + nd.len() as int) =~= nd);
    assert(contains_seq(h, nd));
}

/// Law: the handshake-completion notification, and nothing else, moves
/// an uninitialized session forward — in particular the `initialize`
/// exchange itself does not — so the flag is set exactly once, on the
/// notification that ends the handshake.
pub proof fn lemma_only_handshake_initializes(m: MsgV)
    ensures
        step_spec(SessionState::Uninitialized, m).0 == SessionState::Initialized <==> m
            matches MsgV::MInitedNote,
{
}

/// Law: notifications are unacknowledged — in either state, neither the
/// handshake completion nor any other notification is answered.
pub proof fn lemma_notifications_unacknowledged(s: SessionState, m: MsgV)
    requires
        m matches MsgV::MInitedNote || m matches MsgV::MOtherNote { .. },
    ensures
        step_spec(s, m).1 == ActV::ANoReply,
{
}

/// Law: every invocation the session dispatches is valid — its script is
/// non-empty and its wall-clock bound positive — so the runner is never
/// handed work the schema forbids.
pub proof fn lemma_dispatched_requests_valid(s: SessionState, m: MsgV)
    ensures
        step_spec(s, m).1 matches ActV::AInvoke { req, .. } ==> crate::exec::exec_req_valid(req),
{
}

/// Law: in an initialized session, every request gets exactly one
/// response action — an immediate reply or a single invocation — and
/// whatever it is, it carries the request's own id; an invocation's
/// eventual outcome response does too, and a finished run's response is
/// a success payload.
pub proof fn lemma_in_order_request_one_response(m: MsgV, o: OutcomeV)
    requires
        is_request(m),
    ensures
        step_spec(SessionState::Initialized, m).0 == SessionState::Initialized,
        match step_spec(SessionState::Initialized, m).1 {
            ActV::AReply(r) => r.id == Option::Some(req_id(m)),
            ActV::AInvoke { id, .. } => id == req_id(m),
            _ => false,
        },
        outcome_resp(req_id(m), o).id == Option::Some(req_id(m)),
        m matches MsgV::MListTools { .. } ==> step_spec(SessionState::Initialized, m).1
            == ActV::AReply(RespV { id: Option::Some(req_id(m)), body: BodyV::VTools }),
        o matches OutcomeV::VSuccess { .. } ==> outcome_resp(req_id(m), o).body
            matches BodyV::VToolOutput { .. },
{
}

/// Law: an initialized session stays initialized, whatever arrives; the
/// handshake flag never reverts.
pub proof fn lemma_initialized_never_reverts(m: MsgV)
    ensures
        step_spec(SessionState::Initialized, m).0 == SessionState::Initialized,
{
}

/// Law: the error for a timed-out run says the command "timed out" and
/// names the bound that elapsed.
pub proof fn lemma_timeout_message_names_bound(elapsed_seconds: u64)
    ensures
        contains_seq(timeout_text(elapsed_seconds), "timed out"@),
        contains_seq(timeout_text(elapsed_seconds), dec_nat(elapsed_seconds as nat)),
{
    reveal_strlit("Command timed out after ");
    reveal_strlit(" seconds. Consider breaking down complex scripts into smaller steps.");
    reveal_strlit("timed out");
    let h = timeout_text(elapsed_seconds);
    let nd = "timed out"@;
    assert(h.subrange(8, 8 + nd.len() as int) =~= nd);
    assert(contains_seq(h, nd));
    let d = dec_nat(elapsed_seconds as nat);
    assert(h.subrange(24, 24 + d.len() as int) =~= d);
    assert(contains_seq(h, d));
}

/// Law: after a timeout the session serves on: the timeout response is a
/// tool result under the invocation's id with a "timed out" message, the
/// state is still initialized, and any number of following `tools/list`
/// requests — three are spelled out — each get their tool-list reply.
pub proof fn lemma_liveness_after_timeout(
    call: MsgV,
    elapsed_seconds: u64,
    p1: IdV,
    p2: IdV,
    p3: IdV,
)
    requires
        call matches MsgV::MCallTool { .. },
    ensures
        step_spec(SessionState::Initialized, call).0 == SessionState::Initialized,
        outcome_resp(req_id(call), OutcomeV::VTimedOut { elapsed_seconds }) == (RespV {
            id: Option::Some(req_id(call)),
            body: BodyV::VToolError { message: timeout_text(elapsed_seconds) },
        }),
        contains_seq(timeout_text(elapsed_seconds), "timed out"@),
        step_spec(SessionState::Initialized, MsgV::MListTools { id: p1 }) == (
            SessionState::Initialized,
            ActV::AReply(RespV { id: Option::Some(p1), body: BodyV::VTools }),
        ),
        step_spec(SessionState::Initialized, MsgV::MListTools { id: p2 }) == (
            SessionState::Initialized,
            ActV::AReply(RespV { id: Option::Some(p2), body: BodyV::VTools }),
        ),
        step_spec(SessionState::Initialized, MsgV::MListTools { id: p3 }) == (
            SessionState::Initialized,
            ActV::AReply(RespV { id: Option::Some(p3), body: BodyV::VTools }),
        ),
{
    lemma_timeout_message_names_bound(elapsed_seconds);
}

/// Law: a call to the `exec` tool whose script is missing or empty is
/// answered with a parameter-validation error under the request's id,
/// and the session carries on initialized.
pub proof fn lemma_script_required(id: IdV, script: Option<Seq<char>>, t: TimeoutField)
    requires
        match script {
            Option::None => true,
            Option::Some(s) => s.len() == 0,
        },
    ensures
        step_spec(
            SessionState::Initialized,
            MsgV::MCallTool { id, tool: Option::Some("exec"@), script, timeout: t },
        ) == (
            SessionState::Initialized,
            failure_v(
                id,
                INVALID_PARAMS as int,
                match script {
                    Option::None => missing_script_text(),
                    Option::Some(_) => empty_script_text(),
                },
            ),
        ),
{
}

} // verus!
