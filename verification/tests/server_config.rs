use mcp_server_nu::exec::NuServer;
use mcp_server_nu::protocol::RequestId;
use mcp_server_nu::session::{loop_decision, LoopAction, SessionEnd};

#[test]
fn default_argv_runs_script_inline() {
    let server = NuServer::new(None, None);
    let argv = server.build_argv("ls | get name");
    assert_eq!(argv, vec!["nu", "-c", "ls | get name"]);
}

#[test]
fn config_paths_become_interpreter_flags() {
    let server = NuServer::new(
        Some(String::from("tests/fixtures/nushell/config.nu")),
        Some(String::from("tests/fixtures/nushell/env.nu")),
    );
    let argv = server.build_argv("print 'x'");
    assert_eq!(
        argv,
        vec![
            "nu",
            "--config",
            "tests/fixtures/nushell/config.nu",
            "--env-config",
            "tests/fixtures/nushell/env.nu",
            "-c",
            "print 'x'",
        ]
    );
}

#[test]
fn single_config_path_is_passed_alone() {
    let server = NuServer::new(Some(String::from("nushell/config.nu")), None);
    let argv = server.build_argv("print 'x'");
    assert_eq!(argv, vec!["nu", "--config", "nushell/config.nu", "-c", "print 'x'"]);
}

#[test]
fn server_info_names_protocol_and_package() {
    let server = NuServer::new(None, None);
    let info = server.get_info();
    assert_eq!(info.protocol_version, "2024-11-05");
    assert_eq!(info.server_name, "mcp-server-nu");
    assert_eq!(info.server_version, "0.1.0");
    assert_eq!(
        info.instructions,
        "This server executes Nushell scripts and returns their output. It provides structured data processing capabilities with proper error handling and timeouts."
    );
    // The description is fixed: every call reports the same one.
    let again = server.get_info();
    assert_eq!(again.instructions, info.instructions);
    assert_eq!(again.protocol_version, info.protocol_version);
}

#[test]
fn stream_closure_ends_the_loop_gracefully() {
    assert!(matches!(loop_decision(SessionEnd::StreamClosed), LoopAction::ExitOk));
}

#[test]
fn plumbing_fault_ends_the_loop_with_failure() {
    assert!(matches!(loop_decision(SessionEnd::Fault), LoopAction::ExitFault));
}

#[test]
fn premature_request_restarts_with_correlated_error() {
    match loop_decision(SessionEnd::PrematureRequest(RequestId::Num(41))) {
        LoopAction::RestartWithReply(r) => {
            let frame = mcp_server_nu::respond::render_response(&r);
            let v: serde_json::Value = serde_json::from_str(&frame).unwrap();
            assert_eq!(v["id"].as_i64().unwrap(), 41);
            assert_eq!(v["error"]["code"].as_i64().unwrap(), -32600);
            assert!(v["error"]["message"]
                .as_str()
                .unwrap()
                .contains("Server not initialized"));
        }
        _ => panic!("a premature request must restart the session"),
    }
}
