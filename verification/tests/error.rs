use probe_rs_debugger::types::StartDebuggingRequestArgumentsRequest;
use probe_rs_debugger::{verify_adapter_name, DebuggerError, Feature, ADAPTER_NAME};

#[test]
fn the_adapter_is_probe_rs() {
    assert_eq!(ADAPTER_NAME, "probe-rs");
    assert_eq!(verify_adapter_name("probe-rs"), Ok(()));
}

#[test]
fn other_adapters_are_refused() {
    for name in ["", "probe_rs", "Probe-rs", "probe-rs ", " probe-rs", "gdb", "probe-rs-debugger"] {
        assert_eq!(
            verify_adapter_name(name),
            Err(DebuggerError::UnsupportedAdapter(name.to_string()))
        );
    }
}

#[test]
fn messages_name_what_was_refused() {
    assert_eq!(
        verify_adapter_name("lldb").unwrap_err().message(),
        "Unsupported debug adapter name 'lldb', expected 'probe-rs'"
    );
    assert_eq!(
        DebuggerError::MalformedEndpoint("x".to_string()).message(),
        "Invalid server string format 'x'. Expected format: 'host:port'"
    );
    assert_eq!(
        DebuggerError::InvalidAddress("x".to_string()).message(),
        "Invalid IP address 'x'. Expected a valid IPv4 address"
    );
    assert_eq!(
        DebuggerError::InvalidPort("x".to_string()).message(),
        "Invalid port number 'x'. Expected a number between 0 and 65535"
    );
    assert_eq!(
        DebuggerError::MalformedConfig("expected value at line 1 column 1".to_string()).message(),
        "Failed to parse JSON config: expected value at line 1 column 1"
    );
    assert_eq!(
        DebuggerError::MissingField("request".to_string()).message(),
        "Missing 'request' field in configuration"
    );
    assert_eq!(
        DebuggerError::InvalidFieldValue {
            field: "request".to_string(),
            value: "foo".to_string()
        }
        .message(),
        "Invalid value for the 'request' field in configuration. Value is foo, but only 'launch' and 'attach' are supported"
    );
    assert_eq!(
        DebuggerError::UnsupportedFeature(Feature::Arguments).message(),
        "Passing arguments is not supported by this debug adapter"
    );
    assert_eq!(
        DebuggerError::UnsupportedFeature(Feature::Environment).message(),
        "Setting environment variables is not supported by this debug adapter"
    );
    assert_eq!(
        DebuggerError::UnsupportedRequestKind(StartDebuggingRequestArgumentsRequest::Attach)
            .message(),
        "Attaching to a process is not supported by this debug adapter"
    );
    assert_eq!(
        DebuggerError::UnsupportedRequestKind(StartDebuggingRequestArgumentsRequest::Launch)
            .message(),
        "Launching a process is not supported by this debug adapter"
    );
}
