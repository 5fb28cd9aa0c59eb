//! Why a request was refused.

use crate::adapter::ADAPTER_NAME;
use crate::types::StartDebuggingRequestArgumentsRequest;
use vstd::prelude::*;
use vstd::string::*;

verus! {

/// A capability that a launch request may ask for and the adapter lacks.
#[derive(Debug, Clone, Copy, PartialEq, Eq)]
pub enum Feature {
    /// Arguments for the program that is debugged.
    Arguments,
    /// Environment variables for the program that is debugged.
    Environment,
}

/// Every way in which a request is refused. None is recovered from: each is
/// handed to the caller, with the value that caused it.
#[derive(Debug, Clone, PartialEq, Eq)]
pub enum DebuggerError {
    /// The caller named an adapter other than the one that is supported.
    UnsupportedAdapter(String),
    /// A server string is not made of two parts around one colon.
    MalformedEndpoint(String),
    /// The host part of a server string is no IPv4 address.
    InvalidAddress(String),
    /// The port part of a server string is no number from 0 to 65535.
    InvalidPort(String),
    /// The configuration is not JSON; holds the parser's complaint.
    MalformedConfig(String),
    /// The configuration lacks the named field, or holds it with no string.
    MissingField(String),
    /// The named field of the configuration holds a value that is not known.
    InvalidFieldValue { field: String, value: String },
    /// A launch request asks for what the adapter cannot do.
    UnsupportedFeature(Feature),
    /// The adapter cannot start a session of this kind.
    UnsupportedRequestKind(StartDebuggingRequestArgumentsRequest),
}

/// `DebuggerError` with its texts as sequences of characters.
pub enum DebuggerErrorView {
    UnsupportedAdapter(Seq<char>),
    MalformedEndpoint(Seq<char>),
    InvalidAddress(Seq<char>),
    InvalidPort(Seq<char>),
    MalformedConfig(Seq<char>),
    MissingField(Seq<char>),
    InvalidFieldValue { field: Seq<char>, value: Seq<char> },
    UnsupportedFeature(Feature),
    UnsupportedRequestKind(StartDebuggingRequestArgumentsRequest),
}

impl View for DebuggerError {
    type V = DebuggerErrorView;

    open spec fn view(&self) -> DebuggerErrorView {
        match self {
            DebuggerError::UnsupportedAdapter(name) => DebuggerErrorView::UnsupportedAdapter(
                name@,
            ),
            DebuggerError::MalformedEndpoint(server) => DebuggerErrorView::MalformedEndpoint(
                server@,
            ),
            DebuggerError::InvalidAddress(host) => DebuggerErrorView::InvalidAddress(host@),
            DebuggerError::InvalidPort(port) => DebuggerErrorView::InvalidPort(port@),
            DebuggerError::MalformedConfig(detail) => DebuggerErrorView::MalformedConfig(
                detail@,
            ),
            DebuggerError::MissingField(field) => DebuggerErrorView::MissingField(field@),
            DebuggerError::InvalidFieldValue { field, value } => {
                DebuggerErrorView::InvalidFieldValue { field: field@, value: value@ }
            },
            DebuggerError::UnsupportedFeature(feature) => DebuggerErrorView::UnsupportedFeature(
                *feature,
            ),
            DebuggerError::UnsupportedRequestKind(kind) => {
                DebuggerErrorView::UnsupportedRequestKind(*kind)
            },
        }
    }
}

/// The outcome of a call, with a refusal by its view.
pub open spec fn outcome<T>(r: Result<T, DebuggerError>) -> Result<T, DebuggerErrorView> {
    match r {
        Ok(value) => Ok(value),
        Err(error) => Err(error@),
    }
}

/// The outcome of a call, with what was made and a refusal each by
/// its view.
pub open spec fn outcome_view<T: View>(r: Result<T, DebuggerError>) -> Result<
    T::V,
    DebuggerErrorView,
> {
    match r {
        Ok(value) => Ok(value@),
        Err(error) => Err(error@),
    }
}

impl DebuggerErrorView {
    /// The sentence that tells a person what went wrong.
    pub open spec fn message(self) -> Seq<char> {
        match self {
            DebuggerErrorView::UnsupportedAdapter(name) => {
                "Unsupported debug adapter name '"@ + name + "', expected '"@ + ADAPTER_NAME@
                    + "'"@
            },
            DebuggerErrorView::MalformedEndpoint(server) => {
                "Invalid server string format '"@ + server + "'. Expected format: 'host:port'"@
            },
            DebuggerErrorView::InvalidAddress(host) => {
                "Invalid IP address '"@ + host + "'. Expected a valid IPv4 address"@
            },
            DebuggerErrorView::InvalidPort(port) => {
                "Invalid port number '"@ + port + "'. Expected a number between 0 and 65535"@
            },
            DebuggerErrorView::MalformedConfig(detail) => {
                "Failed to parse JSON config: "@ + detail
            },
            DebuggerErrorView::MissingField(field) => {
                "Missing '"@ + field + "' field in configuration"@
            },
            DebuggerErrorView::InvalidFieldValue { field, value } => {
                "Invalid value for the '"@ + field + "' field in configuration. Value is "@
                    + value + ", but only 'launch' and 'attach' are supported"@
            },
            DebuggerErrorView::UnsupportedFeature(Feature::Arguments) => {
                "Passing arguments is not supported by this debug adapter"@
            },
            DebuggerErrorView::UnsupportedFeature(Feature::Environment) => {
                "Setting environment variables is not supported by this debug adapter"@
            },
            DebuggerErrorView::UnsupportedRequestKind(
                StartDebuggingRequestArgumentsRequest::Launch,
            ) => "Launching a process is not supported by this debug adapter"@,
            DebuggerErrorView::UnsupportedRequestKind(
                StartDebuggingRequestArgumentsRequest::Attach,
            ) => "Attaching to a process is not supported by this debug adapter"@,
        }
    }
}

impl DebuggerError {
    /// The sentence that tells a person what went wrong.
    pub fn message(&self) -> (r: String)
        ensures
            r@ == self@.message(),
    {
        match self {
            DebuggerError::UnsupportedAdapter(name) => {
                let mut s = String::from_str("Unsupported debug adapter name '");
                s.append(name.as_str());
                s.append("', expected '");
                s.append(ADAPTER_NAME);
                s.append("'");
                s
            },
            DebuggerError::MalformedEndpoint(server) => {
                let mut s = String::from_str("Invalid server string format '");
                s.append(server.as_str());
                s.append("'. Expected format: 'host:port'");
                s
            },
            DebuggerError::InvalidAddress(host) => {
                let mut s = String::from_str("Invalid IP address '");
                s.append(host.as_str());
                s.append("'. Expected a valid IPv4 address");
                s
            },
            DebuggerError::InvalidPort(port) => {
                let mut s = String::from_str("Invalid port number '");
                s.append(port.as_str());
                s.append("'. Expected a number between 0 and 65535");
                s
            },
            DebuggerError::MalformedConfig(detail) => {
                let mut s = String::from_str("Failed to parse JSON config: ");
                s.append(detail.as_str());
                s
            },
            DebuggerError::MissingField(field) => {
                let mut s = String::from_str("Missing '");
                s.append(field.as_str());
                s.append("' field in configuration");
                s
            },
            DebuggerError::InvalidFieldValue { field, value } => {
                let mut s = String::from_str("Invalid value for the '");
                s.append(field.as_str());
                s.append("' field in configuration. Value is ");
                s.append(value.as_str());
                s.append(", but only 'launch' and 'attach' are supported");
                s
            },
            DebuggerError::UnsupportedFeature(Feature::Arguments) => String::from_str(
                "Passing arguments is not supported by this debug adapter",
            ),
            DebuggerError::UnsupportedFeature(Feature::Environment) => String::from_str(
                "Setting environment variables is not supported by this debug adapter",
            ),
            DebuggerError::UnsupportedRequestKind(
                StartDebuggingRequestArgumentsRequest::Launch,
            ) => String::from_str("Launching a process is not supported by this debug adapter"),
            DebuggerError::UnsupportedRequestKind(
                StartDebuggingRequestArgumentsRequest::Attach,
            ) => String::from_str("Attaching to a process is not supported by this debug adapter"),
        }
    }
}

} // verus!
