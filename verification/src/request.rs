//! Whether a configuration asks to launch a program or to attach to one.

use crate::adapter::{verify_adapter_name, ADAPTER_NAME};
use crate::debugger::ProbeRsDebugger;
use crate::error::{outcome, DebuggerError, DebuggerErrorView};
use crate::json::{json_of, text_member, Json};
use crate::text::same_text;
use crate::types::StartDebuggingRequestArgumentsRequest;
use vstd::prelude::*;

verus! {

/// The kind of session that the string under `request` asks for: `launch`
/// and `attach` are known, every other string is refused with its value,
/// and a configuration without such a string lacks the field.
pub open spec fn request_kind_of(request: Option<Seq<char>>) -> Result<
    StartDebuggingRequestArgumentsRequest,
    DebuggerErrorView,
> {
    match request {
        None => Err(DebuggerErrorView::MissingField("request"@)),
        Some(value) => if value == "launch"@ {
            Ok(StartDebuggingRequestArgumentsRequest::Launch)
        } else if value == "attach"@ {
            Ok(StartDebuggingRequestArgumentsRequest::Attach)
        } else {
            Err(DebuggerErrorView::InvalidFieldValue { field: "request"@, value })
        },
    }
}

/// What `dap_request_kind` answers for an adapter name and a configuration.
pub open spec fn request_kind_for(adapter_name: Seq<char>, config: Json) -> Result<
    StartDebuggingRequestArgumentsRequest,
    DebuggerErrorView,
> {
    if adapter_name != ADAPTER_NAME@ {
        Err(DebuggerErrorView::UnsupportedAdapter(adapter_name))
    } else {
        request_kind_of(config.text_member("request"@))
    }
}

/// Asking twice about the same adapter name and configuration gives the
/// same answer.
pub proof fn lemma_dap_request_kind_repeats(
    adapter_name: Seq<char>,
    config: Json,
    first: Result<StartDebuggingRequestArgumentsRequest, DebuggerError>,
    second: Result<StartDebuggingRequestArgumentsRequest, DebuggerError>,
)
    requires
        outcome(first) == request_kind_for(adapter_name, config),
        outcome(second) == request_kind_for(adapter_name, config),
    ensures
        outcome(first) == outcome(second),
{
}

/// Tells the kind of session from the string that a configuration holds
/// under `request`, if it holds one.
pub fn request_kind(request: Option<&str>) -> (r: Result<
    StartDebuggingRequestArgumentsRequest,
    DebuggerError,
>)
    ensures
        outcome(r) == request_kind_of(
            match request {
                Some(value) => Some(value@),
                None => None,
            },
        ),
{
    match request {
        None => Err(DebuggerError::MissingField("request".to_owned())),
        Some(value) => {
            if same_text(value, "launch") {
                Ok(StartDebuggingRequestArgumentsRequest::Launch)
            } else if same_text(value, "attach") {
                Ok(StartDebuggingRequestArgumentsRequest::Attach)
            } else {
                Err(
                    DebuggerError::InvalidFieldValue {
                        field: "request".to_owned(),
                        value: value.to_owned(),
                    },
                )
            }
        },
    }
}

impl ProbeRsDebugger {
    /// Tells whether `config` asks to launch or to attach. The adapter's
    /// name is checked first; then the string under `request` decides.
    pub fn dap_request_kind(&self, adapter_name: &str, config: &serde_json::Value) -> (r: Result<
        StartDebuggingRequestArgumentsRequest,
        DebuggerError,
    >)
        ensures
            outcome(r) == request_kind_for(adapter_name@, json_of(*config)),
    {
        match verify_adapter_name(adapter_name) {
            Err(error) => Err(error),
            Ok(()) => request_kind(text_member(config, "request")),
        }
    }
}

} // verus!
