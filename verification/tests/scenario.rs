use probe_rs_debugger::types::{
    AttachRequest, DebugConfig, DebugRequest, DebugScenario, LaunchRequest,
    StartDebuggingRequestArgumentsRequest,
};
use probe_rs_debugger::{launch_document, DebuggerError, Feature, ProbeRsDebugger};

fn launch(program: &str, cwd: Option<&str>, stop_on_entry: Option<bool>) -> DebugConfig {
    DebugConfig {
        label: "Debug firmware".to_string(),
        adapter: "probe-rs".to_string(),
        request: DebugRequest::Launch(LaunchRequest {
            program: program.to_string(),
            cwd: cwd.map(|cwd| cwd.to_string()),
            args: vec![],
            envs: vec![],
        }),
        stop_on_entry,
    }
}

#[test]
fn a_plain_launch_becomes_a_scenario() {
    let debugger = ProbeRsDebugger::new();
    let scenario = debugger
        .dap_config_to_scenario(launch("target/firmware.elf", Some("/work"), Some(true)))
        .unwrap();
    assert_eq!(
        scenario,
        DebugScenario {
            label: "Debug firmware".to_string(),
            adapter: "probe-rs".to_string(),
            build: None,
            config: r#"{"coreConfigs":[{"programBinary":"target/firmware.elf"}],"cwd":"/work","flashingConfig":{"flashingEnabled":true,"haltAfterReset":true},"request":"launch"}"#.to_string(),
            tcp_connection: None,
        }
    );
}

#[test]
fn absent_values_become_null() {
    let debugger = ProbeRsDebugger::new();
    let scenario = debugger
        .dap_config_to_scenario(launch("a.elf", None, None))
        .unwrap();
    assert_eq!(
        scenario.config,
        r#"{"coreConfigs":[{"programBinary":"a.elf"}],"cwd":null,"flashingConfig":{"flashingEnabled":true,"haltAfterReset":null},"request":"launch"}"#
    );
}

#[test]
fn flashing_is_always_on_and_halting_follows_stop_on_entry() {
    let debugger = ProbeRsDebugger::new();
    for (stop_on_entry, expected) in [
        (Some(true), serde_json::Value::Bool(true)),
        (Some(false), serde_json::Value::Bool(false)),
        (None, serde_json::Value::Null),
    ] {
        for cwd in [None, Some("/somewhere")] {
            let scenario = debugger
                .dap_config_to_scenario(launch("app", cwd, stop_on_entry))
                .unwrap();
            let config: serde_json::Value = serde_json::from_str(&scenario.config).unwrap();
            assert_eq!(
                config["flashingConfig"]["flashingEnabled"],
                serde_json::Value::Bool(true)
            );
            assert_eq!(config["flashingConfig"]["haltAfterReset"], expected);
            assert_eq!(config["request"], serde_json::Value::String("launch".to_string()));
            assert_eq!(
                config["coreConfigs"][0]["programBinary"],
                serde_json::Value::String("app".to_string())
            );
            assert_eq!(config["coreConfigs"].as_array().unwrap().len(), 1);
            assert_eq!(config.as_object().unwrap().len(), 4);
            assert_eq!(config["flashingConfig"].as_object().unwrap().len(), 2);
            assert_eq!(config["cwd"].as_str(), cwd);
        }
    }
}

#[test]
fn text_is_escaped_as_json() {
    let debugger = ProbeRsDebugger::new();
    let scenario = debugger
        .dap_config_to_scenario(launch("C:\\fw\\\"app\".elf", Some("line\nbreak"), Some(false)))
        .unwrap();
    assert_eq!(
        scenario.config,
        r#"{"coreConfigs":[{"programBinary":"C:\\fw\\\"app\".elf"}],"cwd":"line\nbreak","flashingConfig":{"flashingEnabled":true,"haltAfterReset":false},"request":"launch"}"#
    );
}

#[test]
fn launch_document_holds_the_four_members() {
    let document = launch_document(Some("/w".to_string()), "p".to_string(), Some(true));
    let expected: serde_json::Value = serde_json::from_str(
        r#"{"cwd":"/w","coreConfigs":[{"programBinary":"p"}],"flashingConfig":{"flashingEnabled":true,"haltAfterReset":true},"request":"launch"}"#,
    )
    .unwrap();
    assert_eq!(document, expected);
    let document = launch_document(None, String::new(), None);
    let expected: serde_json::Value = serde_json::from_str(
        r#"{"cwd":null,"coreConfigs":[{"programBinary":""}],"flashingConfig":{"flashingEnabled":true,"haltAfterReset":null},"request":"launch"}"#,
    )
    .unwrap();
    assert_eq!(document, expected);
}

#[test]
fn arguments_are_refused() {
    let debugger = ProbeRsDebugger::new();
    let mut config = launch("app", None, None);
    if let DebugRequest::Launch(request) = &mut config.request {
        request.args = vec!["--verbose".to_string()];
    }
    let result = debugger.dap_config_to_scenario(config);
    assert_eq!(result, Err(DebuggerError::UnsupportedFeature(Feature::Arguments)));
    assert_eq!(
        result.unwrap_err().message(),
        "Passing arguments is not supported by this debug adapter"
    );
}

#[test]
fn environment_variables_are_refused() {
    let debugger = ProbeRsDebugger::new();
    let mut config = launch("app", Some("/w"), Some(true));
    if let DebugRequest::Launch(request) = &mut config.request {
        request.envs = vec![("RUST_LOG".to_string(), "debug".to_string())];
    }
    let result = debugger.dap_config_to_scenario(config);
    assert_eq!(result, Err(DebuggerError::UnsupportedFeature(Feature::Environment)));
    assert_eq!(
        result.unwrap_err().message(),
        "Setting environment variables is not supported by this debug adapter"
    );
}

#[test]
fn arguments_are_looked_at_before_the_environment() {
    let debugger = ProbeRsDebugger::new();
    let mut config = launch("app", None, None);
    if let DebugRequest::Launch(request) = &mut config.request {
        request.args = vec![String::new()];
        request.envs = vec![(String::new(), String::new())];
    }
    assert_eq!(
        debugger.dap_config_to_scenario(config),
        Err(DebuggerError::UnsupportedFeature(Feature::Arguments))
    );
}

#[test]
fn attaching_is_refused() {
    let debugger = ProbeRsDebugger::new();
    for process_id in [None, Some(0), Some(4711)] {
        let config = DebugConfig {
            label: "Attach".to_string(),
            adapter: "probe-rs".to_string(),
            request: DebugRequest::Attach(AttachRequest { process_id }),
            stop_on_entry: Some(true),
        };
        let result = debugger.dap_config_to_scenario(config);
        assert_eq!(
            result,
            Err(DebuggerError::UnsupportedRequestKind(
                StartDebuggingRequestArgumentsRequest::Attach
            ))
        );
        assert_eq!(
            result.unwrap_err().message(),
            "Attaching to a process is not supported by this debug adapter"
        );
    }
}

#[test]
fn the_adapter_name_is_checked_before_the_request() {
    let debugger = ProbeRsDebugger::new();
    let mut config = launch("app", None, None);
    config.adapter = "gdb".to_string();
    if let DebugRequest::Launch(request) = &mut config.request {
        request.args = vec!["x".to_string()];
    }
    assert_eq!(
        debugger.dap_config_to_scenario(config),
        Err(DebuggerError::UnsupportedAdapter("gdb".to_string()))
    );
    let config = DebugConfig {
        label: String::new(),
        adapter: String::new(),
        request: DebugRequest::Attach(AttachRequest { process_id: None }),
        stop_on_entry: None,
    };
    assert_eq!(
        debugger.dap_config_to_scenario(config),
        Err(DebuggerError::UnsupportedAdapter(String::new()))
    );
}

#[test]
fn asking_twice_gives_the_same_scenario() {
    let debugger = ProbeRsDebugger::new();
    let first = debugger.dap_config_to_scenario(launch("app", Some("/w"), Some(false)));
    let second = debugger.dap_config_to_scenario(launch("app", Some("/w"), Some(false)));
    assert_eq!(first, second);
    assert_eq!(
        first.unwrap().config.as_bytes(),
        second.unwrap().config.as_bytes()
    );
}
