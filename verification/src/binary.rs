//! How the adapter is reached, and the adapter binary that tells the host
//! so.

use crate::adapter::{verify_adapter_name, ADAPTER_NAME};
use crate::debugger::ProbeRsDebugger;
use crate::endpoint::{endpoint_of, parse_server_string};
use crate::error::{outcome_view, DebuggerError, DebuggerErrorView};
use crate::json::{error_to_string, json_parse, text_member, value_from_str, Json};
use crate::text::{decimal_string, decimal_text};
use crate::types::{
    DebugAdapterBinary, DebugAdapterBinaryView, DebugTaskDefinition,
    StartDebuggingRequestArguments, StartDebuggingRequestArgumentsRequest,
    StartDebuggingRequestArgumentsView, TcpArguments,
};
use vstd::prelude::*;
use vstd::string::*;

verus! {

/// The two ways to an adapter. Exactly one of them holds of any session.
#[derive(Debug, Clone, PartialEq, Eq)]
pub enum ConnectionSpec {
    /// An adapter is listening already: connect to it.
    Reach { endpoint: TcpArguments },
    /// No adapter is running: start this command with these arguments, then
    /// connect to where it listens.
    Spawn { command: String, arguments: Vec<String>, endpoint: TcpArguments },
}

/// `ConnectionSpec` with its texts as sequences of characters.
pub enum ConnectionSpecView {
    Reach { endpoint: TcpArguments },
    Spawn { command: Seq<char>, arguments: Seq<Seq<char>>, endpoint: TcpArguments },
}

impl View for ConnectionSpec {
    type V = ConnectionSpecView;

    open spec fn view(&self) -> ConnectionSpecView {
        match self {
            ConnectionSpec::Reach { endpoint } => ConnectionSpecView::Reach { endpoint: *endpoint },
            ConnectionSpec::Spawn { command, arguments, endpoint } => ConnectionSpecView::Spawn {
                command: command@,
                arguments: arguments.deep_view(),
                endpoint: *endpoint,
            },
        }
    }
}

/// The arguments that make the adapter serve on `port`.
pub open spec fn server_arguments(port: u16) -> Seq<Seq<char>> {
    seq!["dap-server"@, "--port"@, decimal_text(port as nat)]
}

/// The way to the adapter. A server string, if the configuration holds one,
/// names an adapter that is running: it must be a valid endpoint, and the
/// default timeout is added to it. Without one the adapter is started: the
/// user's program if one is given and else the default, told to listen on
/// the default port, and reached there on the default address.
pub open spec fn connection_of(
    defaults: ProbeRsDebugger,
    server: Option<Seq<char>>,
    user_path: Option<Seq<char>>,
) -> Result<ConnectionSpecView, DebuggerErrorView> {
    match server {
        Some(server) => match endpoint_of(server) {
            Ok(endpoint) => Ok(
                ConnectionSpecView::Reach {
                    endpoint: TcpArguments {
                        port: endpoint.port,
                        host: endpoint.host,
                        timeout: Some(defaults.default_timeout),
                    },
                },
            ),
            Err(error) => Err(error),
        },
        None => Ok(
            ConnectionSpecView::Spawn {
                command: match user_path {
                    Some(path) => path,
                    None => defaults.default_command@,
                },
                arguments: server_arguments(defaults.default_port),
                endpoint: TcpArguments {
                    port: defaults.default_port,
                    host: defaults.default_host,
                    timeout: Some(defaults.default_timeout),
                },
            },
        ),
    }
}

/// The adapter binary for a way to the adapter. It never sets
/// environment variables or a working directory, hands the configuration on
/// as it came, and always asks for a launch.
pub open spec fn binary_of(
    connection: ConnectionSpecView,
    configuration: Seq<char>,
) -> DebugAdapterBinaryView {
    let request_args = StartDebuggingRequestArgumentsView {
        configuration,
        request: StartDebuggingRequestArgumentsRequest::Launch,
    };
    match connection {
        ConnectionSpecView::Reach { endpoint } => DebugAdapterBinaryView {
            command: None,
            arguments: Seq::empty(),
            envs: Seq::empty(),
            cwd: None,
            connection: Some(endpoint),
            request_args,
        },
        ConnectionSpecView::Spawn { command, arguments, endpoint } => DebugAdapterBinaryView {
            command: Some(command),
            arguments,
            envs: Seq::empty(),
            cwd: None,
            connection: Some(endpoint),
            request_args,
        },
    }
}

/// The adapter binary for a configuration, given the server string that
/// the configuration holds, if it holds one.
pub open spec fn binary_for_server(
    defaults: ProbeRsDebugger,
    server: Option<Seq<char>>,
    configuration: Seq<char>,
    user_path: Option<Seq<char>>,
) -> Result<DebugAdapterBinaryView, DebuggerErrorView> {
    match connection_of(defaults, server, user_path) {
        Ok(connection) => Ok(binary_of(connection, configuration)),
        Err(error) => Err(error),
    }
}

/// What `get_dap_binary` answers once the configuration has been read as
/// the document `parsed`, or refused as JSON with a complaint.
pub open spec fn binary_for_parsed(
    defaults: ProbeRsDebugger,
    parsed: Result<Json, Seq<char>>,
    configuration: Seq<char>,
    user_path: Option<Seq<char>>,
) -> Result<DebugAdapterBinaryView, DebuggerErrorView> {
    match parsed {
        Err(complaint) => Err(DebuggerErrorView::MalformedConfig(complaint)),
        Ok(document) => binary_for_server(
            defaults,
            document.text_member("server"@),
            configuration,
            user_path,
        ),
    }
}

/// What `get_dap_binary` answers. The adapter's name is checked first, then
/// the configuration is read as JSON, then the way to the adapter is chosen
/// by the string that the configuration holds under `server`, if any.
pub open spec fn binary_for(
    defaults: ProbeRsDebugger,
    adapter_name: Seq<char>,
    configuration: Seq<char>,
    user_path: Option<Seq<char>>,
) -> Result<DebugAdapterBinaryView, DebuggerErrorView> {
    if adapter_name != ADAPTER_NAME@ {
        Err(DebuggerErrorView::UnsupportedAdapter(adapter_name))
    } else {
        binary_for_parsed(defaults, json_parse(configuration), configuration, user_path)
    }
}

/// An adapter binary starts a command exactly when the adapter is to
/// be spawned. One that reaches a running adapter has neither command nor
/// arguments. Either way it names a connection, and no more than the
/// connection differs between the two.
pub proof fn lemma_binary_has_one_mode(connection: ConnectionSpecView, configuration: Seq<char>)
    ensures
        binary_of(connection, configuration).command is Some <==> connection is Spawn,
        connection is Reach ==> binary_of(connection, configuration).arguments.len() == 0,
        binary_of(connection, configuration).connection is Some,
        binary_of(connection, configuration).envs.len() == 0,
        binary_of(connection, configuration).cwd is None,
        binary_of(connection, configuration).request_args.configuration == configuration,
        binary_of(connection, configuration).request_args.request
            == StartDebuggingRequestArgumentsRequest::Launch,
{
}

/// With the usual port the adapter is started with the arguments
/// `dap-server --port 50000`.
pub proof fn lemma_usual_server_arguments()
    ensures
        server_arguments(50000) == seq!["dap-server"@, "--port"@, "50000"@],
{
    reveal_strlit("50000");
    reveal_with_fuel(decimal_text, 5);
    assert(decimal_text(50000) =~= "50000"@);
}

/// A configuration with a valid server string is served by reaching that
/// server: no command, no arguments, the server's address and port.
pub proof fn lemma_server_is_reached(
    defaults: ProbeRsDebugger,
    document: Json,
    configuration: Seq<char>,
    user_path: Option<Seq<char>>,
)
    requires
        document.text_member("server"@) matches Some(server) && endpoint_of(server) is Ok,
    ensures
        ({
            let server = document.text_member("server"@)->0;
            let binary = binary_for_parsed(defaults, Ok(document), configuration, user_path);
            &&& binary is Ok
            &&& binary->Ok_0.command is None
            &&& binary->Ok_0.arguments.len() == 0
            &&& binary->Ok_0.connection matches Some(endpoint)
            &&& endpoint.port == endpoint_of(server)->Ok_0.port
            &&& endpoint.host == endpoint_of(server)->Ok_0.host
            &&& endpoint.timeout == Some(defaults.default_timeout)
        }),
{
}

/// A configuration without a server string is served by starting the
/// adapter on the default port.
pub proof fn lemma_adapter_is_spawned(
    defaults: ProbeRsDebugger,
    document: Json,
    configuration: Seq<char>,
    user_path: Option<Seq<char>>,
)
    requires
        document.text_member("server"@) is None,
    ensures
        ({
            let binary = binary_for_parsed(defaults, Ok(document), configuration, user_path);
            &&& binary is Ok
            &&& user_path matches Some(path) ==> binary->Ok_0.command == Some(path)
            &&& user_path is None ==> binary->Ok_0.command == Some(defaults.default_command@)
            &&& binary->Ok_0.arguments == server_arguments(defaults.default_port)
            &&& binary->Ok_0.connection matches Some(endpoint)
            &&& endpoint.port == defaults.default_port
            &&& endpoint.host == defaults.default_host
            &&& endpoint.timeout == Some(defaults.default_timeout)
        }),
{
}

/// Resolving the same session twice, with the same defaults, gives the same
/// adapter binary or the same refusal.
pub proof fn lemma_get_dap_binary_repeats(
    defaults: ProbeRsDebugger,
    adapter_name: Seq<char>,
    configuration: Seq<char>,
    user_path: Option<Seq<char>>,
    first: Result<DebugAdapterBinary, DebuggerError>,
    second: Result<DebugAdapterBinary, DebuggerError>,
)
    requires
        outcome_view(first) == binary_for(defaults, adapter_name, configuration, user_path),
        outcome_view(second) == binary_for(defaults, adapter_name, configuration, user_path),
    ensures
        outcome_view(first) == outcome_view(second),
{
}

/// Assembles the adapter binary for a way to the adapter.
pub fn assemble_binary(connection: ConnectionSpec, configuration: String) -> (r: DebugAdapterBinary)
    ensures
        r@ == binary_of(connection@, configuration@),
{
    let request_args = StartDebuggingRequestArguments {
        configuration,
        request: StartDebuggingRequestArgumentsRequest::Launch,
    };
    match connection {
        ConnectionSpec::Reach { endpoint } => {
            let binary = DebugAdapterBinary {
                command: None,
                arguments: Vec::new(),
                envs: Vec::new(),
                cwd: None,
                connection: Some(endpoint),
                request_args,
            };
            assert(binary.arguments.deep_view() =~= Seq::empty());
            assert(binary.envs.deep_view() =~= Seq::empty());
            binary
        },
        ConnectionSpec::Spawn { command, arguments, endpoint } => {
            let binary = DebugAdapterBinary {
                command: Some(command),
                arguments,
                envs: Vec::new(),
                cwd: None,
                connection: Some(endpoint),
                request_args,
            };
            assert(binary.envs.deep_view() =~= Seq::empty());
            binary
        },
    }
}

impl ProbeRsDebugger {
    /// Chooses the way to the adapter from the server string that the
    /// configuration holds, if it holds one, and the program that the user
    /// named, if any.
    pub fn resolve_connection(
        &self,
        server: Option<&str>,
        user_provided_debug_adapter_path: Option<String>,
    ) -> (r: Result<ConnectionSpec, DebuggerError>)
        ensures
            outcome_view(r) == connection_of(
                *self,
                match server {
                    Some(server) => Some(server@),
                    None => None,
                },
                user_provided_debug_adapter_path.deep_view(),
            ),
    {
        match server {
            Some(server_string) => {
                match parse_server_string(server_string) {
                    Ok(parsed) => Ok(
                        ConnectionSpec::Reach {
                            endpoint: TcpArguments {
                                port: parsed.port,
                                host: parsed.host,
                                timeout: Some(self.default_timeout),
                            },
                        },
                    ),
                    Err(error) => Err(error),
                }
            },
            None => {
                let command = match user_provided_debug_adapter_path {
                    Some(path) => path,
                    None => self.default_command.clone(),
                };
                let mut arguments: Vec<String> = Vec::new();
                arguments.push("dap-server".to_owned());
                arguments.push("--port".to_owned());
                arguments.push(decimal_string(self.default_port as u32));
                assert(arguments.deep_view() =~= server_arguments(self.default_port));
                Ok(
                    ConnectionSpec::Spawn {
                        command,
                        arguments,
                        endpoint: TcpArguments {
                            port: self.default_port,
                            host: self.default_host,
                            timeout: Some(self.default_timeout),
                        },
                    },
                )
            },
        }
    }

    /// The adapter binary for a configuration whose server string, if it
    /// holds one, has been looked up already.
    pub fn binary_for_server(
        &self,
        server: Option<&str>,
        configuration: String,
        user_provided_debug_adapter_path: Option<String>,
    ) -> (r: Result<DebugAdapterBinary, DebuggerError>)
        ensures
            outcome_view(r) == binary_for_server(
                *self,
                match server {
                    Some(server) => Some(server@),
                    None => None,
                },
                configuration@,
                user_provided_debug_adapter_path.deep_view(),
            ),
    {
        match self.resolve_connection(server, user_provided_debug_adapter_path) {
            Ok(connection) => Ok(assemble_binary(connection, configuration)),
            Err(error) => Err(error),
        }
    }

    /// Tells the host how to start the adapter, or how to reach it, for a
    /// session that is about to start.
    ///
    /// The configuration of `config` is handed on to the adapter as it
    /// came; it is read only for the string under `server`.
    pub fn get_dap_binary(
        &self,
        adapter_name: &str,
        config: DebugTaskDefinition,
        user_provided_debug_adapter_path: Option<String>,
    ) -> (r: Result<DebugAdapterBinary, DebuggerError>)
        ensures
            outcome_view(r) == binary_for(
                *self,
                adapter_name@,
                config.config@,
                user_provided_debug_adapter_path.deep_view(),
            ),
    {
        match verify_adapter_name(adapter_name) {
            Err(error) => { return Err(error); },
            Ok(()) => {},
        }
        let json_config = match value_from_str(config.config.as_str()) {
            Ok(document) => document,
            Err(error) => {
                return Err(DebuggerError::MalformedConfig(error_to_string(&error)));
            },
        };
        let server = text_member(&json_config, "server");
        self.binary_for_server(server, config.config, user_provided_debug_adapter_path)
    }
}

} // verus!
