//! The values exchanged with the host: what it asks for and what it is given
//! back. Each type that owns text has a view in which the text is a
//! `Seq<char>`.

use vstd::prelude::*;

verus! {

/// Where a debug adapter listens: an IPv4 address as a 32-bit number, a port
/// and, where one is set, a connection timeout in milliseconds.
#[derive(Debug, Clone, Copy, PartialEq, Eq)]
pub struct TcpArguments {
    pub port: u16,
    pub host: u32,
    pub timeout: Option<u64>,
}

/// Connection parameters that a user may have given in part.
#[derive(Debug, Clone, Copy, PartialEq, Eq)]
pub struct TcpArgumentsTemplate {
    pub port: Option<u16>,
    pub host: Option<u32>,
    pub timeout: Option<u64>,
}

/// Whether a session starts the debuggee or joins one that is running.
#[derive(Debug, Clone, Copy, PartialEq, Eq)]
pub enum StartDebuggingRequestArgumentsRequest {
    Launch,
    Attach,
}

/// What is handed to the adapter when the session starts.
#[derive(Debug, Clone, PartialEq, Eq)]
pub struct StartDebuggingRequestArguments {
    /// The adapter's configuration, JSON-encoded.
    pub configuration: String,
    pub request: StartDebuggingRequestArgumentsRequest,
}

/// `StartDebuggingRequestArguments` with its text as a sequence of
/// characters.
pub struct StartDebuggingRequestArgumentsView {
    pub configuration: Seq<char>,
    pub request: StartDebuggingRequestArgumentsRequest,
}

impl View for StartDebuggingRequestArguments {
    type V = StartDebuggingRequestArgumentsView;

    open spec fn view(&self) -> StartDebuggingRequestArgumentsView {
        StartDebuggingRequestArgumentsView {
            configuration: self.configuration@,
            request: self.request,
        }
    }
}

/// How to start a debug adapter, or how to reach one, and how to start a
/// session with it.
#[derive(Debug, Clone, PartialEq, Eq)]
pub struct DebugAdapterBinary {
    pub command: Option<String>,
    pub arguments: Vec<String>,
    pub envs: Vec<(String, String)>,
    pub cwd: Option<String>,
    pub connection: Option<TcpArguments>,
    pub request_args: StartDebuggingRequestArguments,
}

/// `DebugAdapterBinary` with its texts as sequences of characters.
pub struct DebugAdapterBinaryView {
    pub command: Option<Seq<char>>,
    pub arguments: Seq<Seq<char>>,
    pub envs: Seq<(Seq<char>, Seq<char>)>,
    pub cwd: Option<Seq<char>>,
    pub connection: Option<TcpArguments>,
    pub request_args: StartDebuggingRequestArgumentsView,
}

impl View for DebugAdapterBinary {
    type V = DebugAdapterBinaryView;

    open spec fn view(&self) -> DebugAdapterBinaryView {
        DebugAdapterBinaryView {
            command: self.command.deep_view(),
            arguments: self.arguments.deep_view(),
            envs: self.envs.deep_view(),
            cwd: self.cwd.deep_view(),
            connection: self.connection,
            request_args: self.request_args@,
        }
    }
}

/// A request to start a program under the debugger.
#[derive(Debug, Clone, PartialEq, Eq)]
pub struct LaunchRequest {
    pub program: String,
    pub cwd: Option<String>,
    pub args: Vec<String>,
    pub envs: Vec<(String, String)>,
}

/// A request to join a running process.
#[derive(Debug, Clone, PartialEq, Eq)]
pub struct AttachRequest {
    pub process_id: Option<u32>,
}

/// What a session is asked to do.
#[derive(Debug, Clone, PartialEq, Eq)]
pub enum DebugRequest {
    Launch(LaunchRequest),
    Attach(AttachRequest),
}

/// A debug session as the host's user interface describes it, before any
/// adapter has had its say.
#[derive(Debug, Clone, PartialEq, Eq)]
pub struct DebugConfig {
    pub label: String,
    pub adapter: String,
    pub request: DebugRequest,
    pub stop_on_entry: Option<bool>,
}

/// A command that the host can run as a task.
#[derive(Debug, Clone, PartialEq, Eq)]
pub struct TaskTemplate {
    pub label: String,
    pub command: String,
    pub args: Vec<String>,
    pub env: Vec<(String, String)>,
    pub cwd: Option<String>,
}

/// A task to build with, and the locator that finds what it built.
#[derive(Debug, Clone, PartialEq, Eq)]
pub struct BuildTaskDefinitionTemplatePayload {
    pub locator_name: Option<String>,
    pub template: TaskTemplate,
}

/// A build step that runs before a session starts.
#[derive(Debug, Clone, PartialEq, Eq)]
pub enum BuildTaskDefinition {
    ByName(String),
    Template(BuildTaskDefinitionTemplatePayload),
}

/// A debug session as it is written down for one adapter.
#[derive(Debug, Clone, PartialEq, Eq)]
pub struct DebugScenario {
    pub label: String,
    pub adapter: String,
    pub build: Option<BuildTaskDefinition>,
    /// The adapter's configuration, JSON-encoded.
    pub config: String,
    pub tcp_connection: Option<TcpArgumentsTemplate>,
}

/// `DebugScenario` with its texts as sequences of characters.
pub struct DebugScenarioView {
    pub label: Seq<char>,
    pub adapter: Seq<char>,
    pub build: Option<BuildTaskDefinition>,
    pub config: Seq<char>,
    pub tcp_connection: Option<TcpArgumentsTemplate>,
}

impl View for DebugScenario {
    type V = DebugScenarioView;

    open spec fn view(&self) -> DebugScenarioView {
        DebugScenarioView {
            label: self.label@,
            adapter: self.adapter@,
            build: self.build,
            config: self.config@,
            tcp_connection: self.tcp_connection,
        }
    }
}

/// A debug session that is about to start.
#[derive(Debug, Clone, PartialEq, Eq)]
pub struct DebugTaskDefinition {
    pub label: String,
    pub adapter: String,
    /// The adapter's configuration, JSON-encoded.
    pub config: String,
    pub tcp_connection: Option<TcpArgumentsTemplate>,
}

} // verus!
