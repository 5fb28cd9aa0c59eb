//! Debug sessions for the probe-rs debug adapter: from what a host asks in
//! general terms to the scenario that the adapter understands, and to the way
//! in which the adapter is started or reached.

pub mod adapter;
pub mod binary;
pub mod debugger;
pub mod endpoint;
pub mod error;
pub mod json;
pub mod request;
pub mod scenario;
pub mod text;
pub mod types;

pub use adapter::{verify_adapter_name, ADAPTER_NAME};
pub use binary::{assemble_binary, ConnectionSpec};
pub use debugger::ProbeRsDebugger;
pub use endpoint::parse_server_string;
pub use error::{DebuggerError, Feature};
pub use request::request_kind;
pub use scenario::launch_document;
