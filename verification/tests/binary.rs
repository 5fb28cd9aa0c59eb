use probe_rs_debugger::types::{
    DebugAdapterBinary, DebugTaskDefinition, StartDebuggingRequestArguments,
    StartDebuggingRequestArgumentsRequest, TcpArguments,
};
use probe_rs_debugger::debugger::{DEFAULT_COMMAND, DEFAULT_HOST, DEFAULT_PORT, DEFAULT_TIMEOUT};
use probe_rs_debugger::{assemble_binary, ConnectionSpec, DebuggerError, ProbeRsDebugger};

fn task(config: &str) -> DebugTaskDefinition {
    DebugTaskDefinition {
        label: "Debug firmware".to_string(),
        adapter: "probe-rs".to_string(),
        config: config.to_string(),
        tcp_connection: None,
    }
}

#[test]
fn the_usual_constants() {
    let debugger = ProbeRsDebugger::new();
    assert_eq!(debugger.default_command, "probe-rs");
    assert_eq!(debugger.default_port, 50000);
    assert_eq!(debugger.default_host, u32::from_be_bytes([127, 0, 0, 1]));
    assert_eq!(debugger.default_timeout, 5000);
    assert_eq!(DEFAULT_COMMAND, "probe-rs");
    assert_eq!(DEFAULT_PORT, 50000);
    assert_eq!(DEFAULT_HOST, 0x7F00_0001);
    assert_eq!(DEFAULT_TIMEOUT, 5000);
}

#[test]
fn a_server_is_reached() {
    let debugger = ProbeRsDebugger::new();
    let config = r#"{"server":"10.0.0.1:1234","chip":"nRF52840_xxAA"}"#;
    let binary = debugger
        .get_dap_binary("probe-rs", task(config), Some("/opt/probe-rs".to_string()))
        .unwrap();
    assert_eq!(
        binary,
        DebugAdapterBinary {
            command: None,
            arguments: vec![],
            envs: vec![],
            cwd: None,
            connection: Some(TcpArguments {
                port: 1234,
                host: u32::from_be_bytes([10, 0, 0, 1]),
                timeout: Some(5000),
            }),
            request_args: StartDebuggingRequestArguments {
                configuration: config.to_string(),
                request: StartDebuggingRequestArgumentsRequest::Launch,
            },
        }
    );
}

#[test]
fn without_a_server_the_adapter_is_started() {
    let debugger = ProbeRsDebugger::new();
    let config = r#"{ "chip": "STM32F429ZITx", "request": "attach" }"#;
    let binary = debugger.get_dap_binary("probe-rs", task(config), None).unwrap();
    assert_eq!(
        binary,
        DebugAdapterBinary {
            command: Some("probe-rs".to_string()),
            arguments: vec![
                "dap-server".to_string(),
                "--port".to_string(),
                "50000".to_string()
            ],
            envs: vec![],
            cwd: None,
            connection: Some(TcpArguments {
                port: 50000,
                host: u32::from_be_bytes([127, 0, 0, 1]),
                timeout: Some(5000),
            }),
            request_args: StartDebuggingRequestArguments {
                configuration: config.to_string(),
                request: StartDebuggingRequestArgumentsRequest::Launch,
            },
        }
    );
}

#[test]
fn the_users_program_is_preferred() {
    let debugger = ProbeRsDebugger::new();
    let binary = debugger
        .get_dap_binary("probe-rs", task("{}"), Some("/home/me/bin/probe-rs".to_string()))
        .unwrap();
    assert_eq!(binary.command, Some("/home/me/bin/probe-rs".to_string()));
    assert_eq!(binary.arguments, vec!["dap-server", "--port", "50000"]);
    assert_eq!(binary.connection.unwrap().port, 50000);
}

#[test]
fn a_server_that_is_no_string_counts_as_absent() {
    let debugger = ProbeRsDebugger::new();
    for config in [r#"{"server":1234}"#, r#"{"server":null}"#, r#"["server"]"#, "null", "17"] {
        let binary = debugger.get_dap_binary("probe-rs", task(config), None).unwrap();
        assert_eq!(binary.command, Some("probe-rs".to_string()));
        assert_eq!(binary.connection.unwrap().port, 50000);
        assert_eq!(binary.request_args.configuration, config);
    }
}

#[test]
fn a_configuration_that_is_not_json_is_refused() {
    let debugger = ProbeRsDebugger::new();
    let result = debugger.get_dap_binary("probe-rs", task("{"), None);
    assert_eq!(
        result,
        Err(DebuggerError::MalformedConfig(
            "EOF while parsing an object at line 1 column 1".to_string()
        ))
    );
    assert_eq!(
        result.unwrap_err().message(),
        "Failed to parse JSON config: EOF while parsing an object at line 1 column 1"
    );
    for config in ["", "server", "{'server':'1.1.1.1:1'}", "{} {}"] {
        let result = debugger.get_dap_binary("probe-rs", task(config), None);
        let expected = serde_json::from_str::<serde_json::Value>(config)
            .unwrap_err()
            .to_string();
        assert_eq!(result, Err(DebuggerError::MalformedConfig(expected)));
    }
}

#[test]
fn endpoint_errors_pass_through() {
    let debugger = ProbeRsDebugger::new();
    assert_eq!(
        debugger.get_dap_binary("probe-rs", task(r#"{"server":"localhost"}"#), None),
        Err(DebuggerError::MalformedEndpoint("localhost".to_string()))
    );
    assert_eq!(
        debugger.get_dap_binary("probe-rs", task(r#"{"server":"localhost:50000"}"#), None),
        Err(DebuggerError::InvalidAddress("localhost".to_string()))
    );
    assert_eq!(
        debugger.get_dap_binary("probe-rs", task(r#"{"server":"127.0.0.1:http"}"#), None),
        Err(DebuggerError::InvalidPort("http".to_string()))
    );
    assert_eq!(
        debugger.get_dap_binary("probe-rs", task(r#"{"server":""}"#), None),
        Err(DebuggerError::MalformedEndpoint(String::new()))
    );
}

#[test]
fn the_adapter_name_is_checked_first() {
    let debugger = ProbeRsDebugger::new();
    assert_eq!(
        debugger.get_dap_binary("codelldb", task("not json"), None),
        Err(DebuggerError::UnsupportedAdapter("codelldb".to_string()))
    );
    assert_eq!(
        debugger
            .get_dap_binary("codelldb", task("{}"), None)
            .unwrap_err()
            .message(),
        "Unsupported debug adapter name 'codelldb', expected 'probe-rs'"
    );
}

#[test]
fn the_constants_can_be_replaced() {
    let debugger = ProbeRsDebugger {
        default_command: "my-adapter".to_string(),
        default_port: 7,
        default_host: u32::from_be_bytes([192, 168, 0, 2]),
        default_timeout: 250,
    };
    assert_eq!(
        debugger.resolve_connection(None, None),
        Ok(ConnectionSpec::Spawn {
            command: "my-adapter".to_string(),
            arguments: vec!["dap-server".to_string(), "--port".to_string(), "7".to_string()],
            endpoint: TcpArguments {
                port: 7,
                host: u32::from_be_bytes([192, 168, 0, 2]),
                timeout: Some(250)
            },
        })
    );
    assert_eq!(
        debugger.resolve_connection(Some("1.2.3.4:5"), Some("ignored".to_string())),
        Ok(ConnectionSpec::Reach {
            endpoint: TcpArguments { port: 5, host: 0x0102_0304, timeout: Some(250) },
        })
    );
    assert_eq!(
        debugger.resolve_connection(Some("1.2.3.4"), None),
        Err(DebuggerError::MalformedEndpoint("1.2.3.4".to_string()))
    );
    let binary = debugger
        .get_dap_binary("probe-rs", task("{}"), None)
        .unwrap();
    assert_eq!(binary.command, Some("my-adapter".to_string()));
    assert_eq!(binary.arguments, vec!["dap-server", "--port", "7"]);
}

#[test]
fn a_server_string_decides_the_binary() {
    let debugger = ProbeRsDebugger::new();
    let reached = debugger
        .binary_for_server(Some("192.168.1.1:8080"), "{}".to_string(), None)
        .unwrap();
    assert_eq!(reached.command, None);
    assert!(reached.arguments.is_empty());
    assert_eq!(
        reached.connection,
        Some(TcpArguments {
            port: 8080,
            host: u32::from_be_bytes([192, 168, 1, 1]),
            timeout: Some(5000)
        })
    );
    let spawned = debugger
        .binary_for_server(None, "{}".to_string(), Some("dbg".to_string()))
        .unwrap();
    assert_eq!(spawned.command, Some("dbg".to_string()));
    assert_eq!(spawned.arguments, vec!["dap-server", "--port", "50000"]);
    assert_eq!(
        debugger.binary_for_server(Some("1.2.3.4:99999"), "{}".to_string(), None),
        Err(DebuggerError::InvalidPort("99999".to_string()))
    );
}

#[test]
fn a_binary_has_exactly_one_mode() {
    let endpoint = TcpArguments { port: 1, host: 2, timeout: Some(3) };
    let reached = assemble_binary(ConnectionSpec::Reach { endpoint }, "{}".to_string());
    assert_eq!(reached.command, None);
    assert!(reached.arguments.is_empty());
    assert_eq!(reached.connection, Some(endpoint));
    assert!(reached.envs.is_empty());
    assert_eq!(reached.cwd, None);
    assert_eq!(reached.request_args.configuration, "{}");
    assert_eq!(
        reached.request_args.request,
        StartDebuggingRequestArgumentsRequest::Launch
    );

    let spawned = assemble_binary(
        ConnectionSpec::Spawn {
            command: "adapter".to_string(),
            arguments: vec!["serve".to_string()],
            endpoint,
        },
        "[]".to_string(),
    );
    assert_eq!(spawned.command, Some("adapter".to_string()));
    assert_eq!(spawned.arguments, vec!["serve"]);
    assert_eq!(spawned.connection, Some(endpoint));
    assert!(spawned.envs.is_empty());
    assert_eq!(spawned.cwd, None);
    assert_eq!(spawned.request_args.configuration, "[]");
}

#[test]
fn resolving_twice_gives_the_same_binary() {
    let debugger = ProbeRsDebugger::new();
    for config in [r#"{"server":"10.0.0.1:1234"}"#, "{}", "{", r#"{"server":"x"}"#] {
        assert_eq!(
            debugger.get_dap_binary("probe-rs", task(config), None),
            debugger.get_dap_binary("probe-rs", task(config), None)
        );
    }
}
