use mcp_server_nu::exec::{exec_outcome_response, ExecOutcome};
use mcp_server_nu::protocol::decode_frame;
use mcp_server_nu::respond::render_response;
use mcp_server_nu::session::{Action, NuServerHandler};

fn initialized_handler() -> NuServerHandler {
    let mut h = NuServerHandler::new();
    h.handle_message(decode_frame(
        "{\"jsonrpc\":\"2.0\",\"id\":1,\"method\":\"initialize\",\"params\":{}}",
    ));
    h.handle_message(decode_frame(
        "{\"jsonrpc\":\"2.0\",\"method\":\"notifications/initialized\"}",
    ));
    h
}

fn reply_json(h: &mut NuServerHandler, line: &str) -> serde_json::Value {
    match h.handle_message(decode_frame(line)) {
        Action::Reply(r) => serde_json::from_str(&render_response(&r)).unwrap(),
        _ => panic!("expected an immediate reply"),
    }
}

/// The parsed text payload of a successful tool response frame.
fn payload_of(frame: &str) -> serde_json::Value {
    let v: serde_json::Value = serde_json::from_str(frame).unwrap();
    assert!(v["result"].is_object(), "Expected result object");
    assert_eq!(v["result"]["isError"].as_bool().unwrap(), false);
    let content = v["result"]["content"].as_array().unwrap();
    assert_eq!(content.len(), 1);
    assert_eq!(content[0]["type"].as_str().unwrap(), "text");
    serde_json::from_str(content[0]["text"].as_str().unwrap()).unwrap()
}

/// The text of a tool-result error frame: a result with `isError` set,
/// never a protocol-level error object.
fn error_text_of(frame: &str) -> String {
    let v: serde_json::Value = serde_json::from_str(frame).unwrap();
    assert!(v["error"].is_null(), "a tool failure must not be a protocol fault");
    assert!(v["result"].is_object(), "Expected result object");
    assert_eq!(v["result"]["isError"].as_bool().unwrap(), true);
    let content = v["result"]["content"].as_array().unwrap();
    assert_eq!(content.len(), 1);
    assert_eq!(content[0]["type"].as_str().unwrap(), "text");
    content[0]["text"].as_str().unwrap().to_string()
}

#[test]
fn successful_run_reports_output_exactly() {
    let mut h = initialized_handler();
    let call = "{\"jsonrpc\":\"2.0\",\"id\":2,\"method\":\"tools/call\",\"params\":{\"name\":\"exec\",\"arguments\":{\"script\":\"print hello\"}}}";
    let frame = match h.handle_message(decode_frame(call)) {
        Action::Invoke { id, req } => {
            assert_eq!(req.script, "print hello");
            assert_eq!(req.timeout_seconds, 30, "default timeout applies");
            let r = exec_outcome_response(
                id,
                ExecOutcome::Success {
                    stdout: String::from("hello\n"),
                    stderr: String::new(),
                    code: Some(0),
                },
            );
            render_response(&r)
        }
        _ => panic!("a valid tools/call must become an invocation"),
    };
    let v: serde_json::Value = serde_json::from_str(&frame).unwrap();
    assert_eq!(v["id"].as_i64().unwrap(), 2);
    let payload = payload_of(&frame);
    assert_eq!(payload["stdout"].as_str().unwrap(), "hello\n");
    assert_eq!(payload["stderr"].as_str().unwrap(), "");
    assert_eq!(payload["exit_code"].as_i64().unwrap(), 0);
}

#[test]
fn nonzero_exit_roundtrip_is_deterministic() {
    // The same outcome renders to the same frame, and the payload holds
    // exactly the reported code and output.
    let outcome = || ExecOutcome::Success {
        stdout: String::from("boom"),
        stderr: String::from("went wrong"),
        code: Some(3),
    };
    let id = mcp_server_nu::protocol::RequestId::Num(5);
    let id2 = mcp_server_nu::protocol::RequestId::Num(5);
    let a = render_response(&exec_outcome_response(id, outcome()));
    let b = render_response(&exec_outcome_response(id2, outcome()));
    assert_eq!(a, b);
    let payload = payload_of(&a);
    assert_eq!(payload["stdout"].as_str().unwrap(), "boom");
    assert_eq!(payload["stderr"].as_str().unwrap(), "went wrong");
    assert_eq!(payload["exit_code"].as_i64().unwrap(), 3);
}

#[test]
fn signal_killed_process_reports_sentinel_code() {
    let id = mcp_server_nu::protocol::RequestId::Num(6);
    let frame = render_response(&exec_outcome_response(
        id,
        ExecOutcome::Success {
            stdout: String::new(),
            stderr: String::new(),
            code: None,
        },
    ));
    let payload = payload_of(&frame);
    assert_eq!(payload["exit_code"].as_i64().unwrap(), -1);
}

#[test]
fn output_with_special_characters_survives_escaping() {
    let stdout = "a \"quoted\" line\nwith\\backslash\tand bell\u{7}";
    let stderr = "café £ → 🦀";
    let id = mcp_server_nu::protocol::RequestId::Num(8);
    let frame = render_response(&exec_outcome_response(
        id,
        ExecOutcome::Success {
            stdout: String::from(stdout),
            stderr: String::from(stderr),
            code: Some(0),
        },
    ));
    let payload = payload_of(&frame);
    assert_eq!(payload["stdout"].as_str().unwrap(), stdout);
    assert_eq!(payload["stderr"].as_str().unwrap(), stderr);
}

#[test]
fn spawn_failure_surfaces_cause() {
    let id = mcp_server_nu::protocol::RequestId::Num(9);
    let frame = render_response(&exec_outcome_response(
        id,
        ExecOutcome::SpawnFailed {
            cause: String::from("No such file or directory (os error 2)"),
        },
    ));
    let v: serde_json::Value = serde_json::from_str(&frame).unwrap();
    assert_eq!(v["id"].as_i64().unwrap(), 9);
    let message = error_text_of(&frame);
    assert!(message.contains("Command execution failed"));
    assert!(message.contains("No such file or directory (os error 2)"));
}

#[test]
fn timeout_error_names_the_bound() {
    let id = mcp_server_nu::protocol::RequestId::Num(10);
    let frame = render_response(&exec_outcome_response(
        id,
        ExecOutcome::TimedOut { elapsed_seconds: 45 },
    ));
    let v: serde_json::Value = serde_json::from_str(&frame).unwrap();
    assert_eq!(v["id"].as_i64().unwrap(), 10);
    let message = error_text_of(&frame);
    assert!(message.contains("Command timed out after 45 seconds"));
    assert!(message.contains("Consider breaking down complex scripts into smaller steps"));
}

#[test]
fn missing_script_is_invalid_params() {
    let mut h = initialized_handler();
    let v = reply_json(
        &mut h,
        "{\"jsonrpc\":\"2.0\",\"id\":2,\"method\":\"tools/call\",\"params\":{\"name\":\"exec\",\"arguments\":{}}}",
    );
    assert_eq!(v["id"].as_i64().unwrap(), 2);
    assert_eq!(v["error"]["code"].as_i64().unwrap(), -32602);
    let message = v["error"]["message"].as_str().unwrap();
    assert!(message.contains("Invalid tool parameters"));
    assert!(message.contains("'script'"));
}

#[test]
fn empty_script_is_invalid_params() {
    let mut h = initialized_handler();
    let v = reply_json(
        &mut h,
        "{\"jsonrpc\":\"2.0\",\"id\":3,\"method\":\"tools/call\",\"params\":{\"name\":\"exec\",\"arguments\":{\"script\":\"\"}}}",
    );
    assert_eq!(v["error"]["code"].as_i64().unwrap(), -32602);
    let message = v["error"]["message"].as_str().unwrap();
    assert!(message.contains("Invalid tool parameters"));
    assert!(message.contains("non-empty"));
}

#[test]
fn zero_timeout_is_invalid_params() {
    let mut h = initialized_handler();
    let v = reply_json(
        &mut h,
        "{\"jsonrpc\":\"2.0\",\"id\":4,\"method\":\"tools/call\",\"params\":{\"name\":\"exec\",\"arguments\":{\"script\":\"ls\",\"timeout_seconds\":0}}}",
    );
    assert_eq!(v["error"]["code"].as_i64().unwrap(), -32602);
    assert!(v["error"]["message"]
        .as_str()
        .unwrap()
        .contains("'timeout_seconds' must be a positive integer"));
}

#[test]
fn non_integer_timeout_is_invalid_params() {
    let mut h = initialized_handler();
    let v = reply_json(
        &mut h,
        "{\"jsonrpc\":\"2.0\",\"id\":5,\"method\":\"tools/call\",\"params\":{\"name\":\"exec\",\"arguments\":{\"script\":\"ls\",\"timeout_seconds\":\"soon\"}}}",
    );
    assert_eq!(v["error"]["code"].as_i64().unwrap(), -32602);
    assert!(v["error"]["message"]
        .as_str()
        .unwrap()
        .contains("'timeout_seconds' must be a positive integer"));
}

#[test]
fn unknown_tool_name_is_reported() {
    let mut h = initialized_handler();
    let v = reply_json(
        &mut h,
        "{\"jsonrpc\":\"2.0\",\"id\":6,\"method\":\"tools/call\",\"params\":{\"name\":\"shell\",\"arguments\":{\"script\":\"ls\"}}}",
    );
    assert_eq!(v["error"]["code"].as_i64().unwrap(), -32602);
    assert!(v["error"]["message"].as_str().unwrap().contains("Tool not found: shell"));
}

#[test]
fn missing_tool_name_is_reported() {
    let mut h = initialized_handler();
    let v = reply_json(
        &mut h,
        "{\"jsonrpc\":\"2.0\",\"id\":7,\"method\":\"tools/call\",\"params\":{\"arguments\":{\"script\":\"ls\"}}}",
    );
    assert_eq!(v["error"]["code"].as_i64().unwrap(), -32602);
    assert!(v["error"]["message"].as_str().unwrap().contains("missing tool name"));
}

#[test]
fn explicit_timeout_is_passed_through() {
    let mut h = initialized_handler();
    let call = "{\"jsonrpc\":\"2.0\",\"id\":8,\"method\":\"tools/call\",\"params\":{\"name\":\"exec\",\"arguments\":{\"script\":\"sleep 2sec\",\"timeout_seconds\":120}}}";
    match h.handle_message(decode_frame(call)) {
        Action::Invoke { id: _, req } => {
            assert_eq!(req.script, "sleep 2sec");
            assert_eq!(req.timeout_seconds, 120);
        }
        _ => panic!("a valid tools/call must become an invocation"),
    }
}
