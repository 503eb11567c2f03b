//! The tool-execution side: the validated invocation request, the server
//! configuration that shapes the interpreter command line, the outcome of
//! one subprocess run, and the response each outcome maps to.
//!
//! Spawning the interpreter, racing it against the timer and killing it
//! on timeout are the surrounding binary's work; it hands the captured
//! result back as an [`ExecOutcome`], and everything from there to the
//! bytes of the response frame is verified.

use vstd::prelude::*;

use crate::protocol::{IdV, RequestId};
use crate::respond::{Body, BodyV, RespV, Response, ToolPayload};
use crate::text::{dec_nat, push_u64};

verus! {

/// The timeout applied when a `tools/call` names none, in seconds.
pub const DEFAULT_TIMEOUT_SECONDS: u64 = 30;

/// A validated invocation of the `exec` tool: a non-empty script and a
/// positive wall-clock bound.
pub struct ExecRequest {
    pub script: String,
    pub timeout_seconds: u64,
}

/// Mathematical model of an invocation request.
#[verifier::ext_equal]
pub struct ExecReqV {
    pub script: Seq<char>,
    pub timeout_seconds: u64,
}

impl View for ExecRequest {
    type V = ExecReqV;

    open spec fn view(&self) -> ExecReqV {
        ExecReqV { script: self.script@, timeout_seconds: self.timeout_seconds }
    }
}

/// A request is valid when its script is non-empty and its bound positive.
pub open spec fn exec_req_valid(r: ExecReqV) -> bool {
    r.script.len() > 0 && r.timeout_seconds > 0
}

/// What one subprocess run came to.
pub enum ExecOutcome {
    /// The process exited before the timer; `code` is the OS-reported
    /// exit status, absent when the process was killed by a signal.
    Success { stdout: String, stderr: String, code: Option<i64> },
    /// The timer fired first and the process was terminated.
    TimedOut { elapsed_seconds: u64 },
    /// The interpreter could not be started at all.
    SpawnFailed { cause: String },
}

/// Mathematical model of an outcome.
#[verifier::ext_equal]
pub enum OutcomeV {
    VSuccess { stdout: Seq<char>, stderr: Seq<char>, code: Option<int> },
    VTimedOut { elapsed_seconds: u64 },
    VSpawnFailed { cause: Seq<char> },
}

/// Model of an optional exit status.
pub open spec fn opt_code_view(c: Option<i64>) -> Option<int> {
    match c {
        Option::Some(n) => Option::Some(n as int),
        Option::None => Option::None,
    }
}

impl View for ExecOutcome {
    type V = OutcomeV;

    open spec fn view(&self) -> OutcomeV {
        match self {
            ExecOutcome::Success { stdout, stderr, code } => OutcomeV::VSuccess {
                stdout: stdout@,
                stderr: stderr@,
                code: opt_code_view(*code),
            },
            ExecOutcome::TimedOut { elapsed_seconds } => OutcomeV::VTimedOut {
                elapsed_seconds: *elapsed_seconds,
            },
            ExecOutcome::SpawnFailed { cause } => OutcomeV::VSpawnFailed { cause: cause@ },
        }
    }
}

/// The message of a timeout error: it names the elapsed bound and
/// suggests decomposing the script.
pub open spec fn timeout_text(elapsed_seconds: u64) -> Seq<char> {
    "Command timed out after "@ + dec_nat(elapsed_seconds as nat)
        + " seconds. Consider breaking down complex scripts into smaller steps."@
}

/// The message of a spawn-failure error, with the OS-level cause.
pub open spec fn spawn_failed_text(cause: Seq<char>) -> Seq<char> {
    "Command execution failed: "@ + cause
}

/// An absent OS exit status is reported as the sentinel `-1`, so the
/// payload always carries an exit code.
pub open spec fn normalized_code(code: Option<int>) -> int {
    match code {
        Option::Some(c) => c,
        Option::None => -1,
    }
}

/// The one response an outcome maps to: a payload with stdout, stderr and
/// the normalized exit code on success; on timeout or spawn failure a
/// tool-result error — still a result, never a protocol fault — whose
/// text names the elapsed bound, or carries the OS-level cause. Every
/// outcome's response carries the invoking request's id.
pub open spec fn outcome_resp(id: IdV, o: OutcomeV) -> RespV {
    match o {
        OutcomeV::VSuccess { stdout, stderr, code } => RespV {
            id: Option::Some(id),
            body: BodyV::VToolOutput { stdout, stderr, exit_code: normalized_code(code) },
        },
        OutcomeV::VTimedOut { elapsed_seconds } => RespV {
            id: Option::Some(id),
            body: BodyV::VToolError { message: timeout_text(elapsed_seconds) },
        },
        OutcomeV::VSpawnFailed { cause } => RespV {
            id: Option::Some(id),
            body: BodyV::VToolError { message: spawn_failed_text(cause) },
        },
    }
}

/// Builds the response for a finished invocation, exactly
/// [`outcome_resp`]; the session state is untouched by this step, so a
/// timeout or a spawn failure never costs the connection anything.
pub fn exec_outcome_response(id: RequestId, outcome: ExecOutcome) -> (r: Response)
    ensures
        r@ == outcome_resp(id@, outcome@),
{
    match outcome {
        ExecOutcome::Success { stdout, stderr, code } => {
            let exit_code: i64 = match code {
                Option::Some(c) => c,
                Option::None => -1,
            };
            Response {
                id: Option::Some(id),
                body: Body::ToolOutput(ToolPayload { stdout, stderr, exit_code }),
            }
        },
        ExecOutcome::TimedOut { elapsed_seconds } => {
            let mut m = String::from_str("Command timed out after ");
            push_u64(&mut m, elapsed_seconds);
            m.append(" seconds. Consider breaking down complex scripts into smaller steps.");
            Response { id: Option::Some(id), body: Body::ToolError { message: m } }
        },
        ExecOutcome::SpawnFailed { cause } => {
            let mut m = String::from_str("Command execution failed: ");
            m.append(cause.as_str());
            Response { id: Option::Some(id), body: Body::ToolError { message: m } }
        },
    }
}

/// Law: an execution outcome is never surfaced as a protocol fault —
/// whatever the runner reports, the response is a result body, a timeout
/// or a spawn failure becoming a tool-result error.
pub proof fn lemma_outcome_never_protocol_fault(id: IdV, o: OutcomeV)
    ensures
        !(outcome_resp(id, o).body matches BodyV::VFailure { .. }),
        o matches OutcomeV::VTimedOut { .. } ==> outcome_resp(id, o).body
            matches BodyV::VToolError { .. },
        o matches OutcomeV::VSpawnFailed { .. } ==> outcome_resp(id, o).body
            matches BodyV::VToolError { .. },
{
}

/// Law: a finished run's response reproduces the run exactly — the
/// payload's stdout and stderr are the captured output, its exit code is
/// the reported status, with `-1` standing in when the OS reported none —
/// and the response is a function of the outcome alone, so an idempotent
/// script reads back identically on every invocation.
pub proof fn lemma_success_payload_roundtrip(
    id: IdV,
    stdout: Seq<char>,
    stderr: Seq<char>,
    code: Option<int>,
)
    ensures
        outcome_resp(id, OutcomeV::VSuccess { stdout, stderr, code }) == (RespV {
            id: Option::Some(id),
            body: BodyV::VToolOutput { stdout, stderr, exit_code: normalized_code(code) },
        }),
        code matches Option::Some(c) ==> normalized_code(code) == c,
        code matches Option::None ==> normalized_code(code) == -1,
{
}

/// What the server carries from the command line into every invocation:
/// optional paths to the interpreter's config and env-config files.
pub struct NuServer {
    pub nu_config: Option<String>,
    pub nu_env_config: Option<String>,
}

/// A described property of this server, as plain data.
pub struct ServerInfo {
    pub protocol_version: String,
    pub server_name: String,
    pub server_version: String,
    pub instructions: String,
}

/// The interpreter command line for a script under this configuration:
/// the interpreter, its config flags when configured, then `-c` and the
/// script as a single argument.
pub open spec fn argv_spec(
    cfg: Option<Seq<char>>,
    env_cfg: Option<Seq<char>>,
    script: Seq<char>,
) -> Seq<Seq<char>> {
    match (cfg, env_cfg) {
        (Option::None, Option::None) => seq!["nu"@, "-c"@, script],
        (Option::Some(c), Option::None) => seq!["nu"@, "--config"@, c, "-c"@, script],
        (Option::None, Option::Some(e)) => seq!["nu"@, "--env-config"@, e, "-c"@, script],
        (Option::Some(c), Option::Some(e)) => seq![
            "nu"@,
            "--config"@,
            c,
            "--env-config"@,
            e,
            "-c"@,
            script,
        ],
    }
}

impl NuServer {
    /// A server holding the given interpreter configuration paths.
    pub fn new(nu_config: Option<String>, nu_env_config: Option<String>) -> (s: Self)
        ensures
            crate::protocol::opt_str_view(s.nu_config) == crate::protocol::opt_str_view(nu_config),
            crate::protocol::opt_str_view(s.nu_env_config) == crate::protocol::opt_str_view(
                nu_env_config,
            ),
    {
        NuServer { nu_config, nu_env_config }
    }

    /// The server's self-description: the protocol version it speaks, its
    /// name and version, and its usage instructions.
    pub fn get_info(&self) -> (info: ServerInfo)
        ensures
            info.protocol_version@ == "2024-11-05"@,
            info.server_name@ == "mcp-server-nu"@,
            info.server_version@ == "0.1.0"@,
            info.instructions@
                == "This server executes Nushell scripts and returns their output. It provides structured data processing capabilities with proper error handling and timeouts."@,
            info.instructions@.len() > 0,
    {
        let instructions = String::from_str(
            "This server executes Nushell scripts and returns their output. It provides structured data processing capabilities with proper error handling and timeouts.",
        );
        proof {
            reveal_strlit(
                "This server executes Nushell scripts and returns their output. It provides structured data processing capabilities with proper error handling and timeouts.",
            );
        }
        ServerInfo {
            protocol_version: String::from_str("2024-11-05"),
            server_name: String::from_str("mcp-server-nu"),
            server_version: String::from_str("0.1.0"),
            instructions,
        }
    }

    /// The exact argument vector for one invocation, [`argv_spec`] of the
    /// configuration and the script.
    pub fn build_argv(&self, script: &str) -> (v: Vec<String>)
        ensures
            v@.len() == argv_spec(
                crate::protocol::opt_str_view(self.nu_config),
                crate::protocol::opt_str_view(self.nu_env_config),
                script@,
            ).len(),
            forall|i: int|
                0 <= i < v@.len() ==> v@[i]@ == argv_spec(
                    crate::protocol::opt_str_view(self.nu_config),
                    crate::protocol::opt_str_view(self.nu_env_config),
                    script@,
                )[i],
    {
        let mut v: Vec<String> = Vec::new();
        v.push(String::from_str("nu"));
        match &self.nu_config {
            Option::Some(c) => {
                v.push(String::from_str("--config"));
                v.push(c.clone());
            },
            Option::None => {},
        }
        match &self.nu_env_config {
            Option::Some(e) => {
                v.push(String::from_str("--env-config"));
                v.push(e.clone());
            },
            Option::None => {},
        }
        v.push(String::from_str("-c"));
        v.push(script.to_owned());
        v
    }
}

} // verus!
