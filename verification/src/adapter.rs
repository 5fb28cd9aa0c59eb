//! The one debug adapter that this library serves.

use crate::error::{DebuggerError, DebuggerErrorView};
use crate::text::same_text;
use vstd::prelude::*;

verus! {

/// The name under which the host knows the adapter.
pub const ADAPTER_NAME: &'static str = "probe-rs";

/// Accepts `adapter_name` if it is the supported adapter's name, letter for
/// letter, and refuses any other.
pub fn verify_adapter_name(adapter_name: &str) -> (r: Result<(), DebuggerError>)
    ensures
        adapter_name@ == ADAPTER_NAME@ ==> r is Ok,
        adapter_name@ != ADAPTER_NAME@ ==> (r matches Err(e) && e@
            == DebuggerErrorView::UnsupportedAdapter(adapter_name@)),
{
    if same_text(adapter_name, ADAPTER_NAME) {
        Ok(())
    } else {
        Err(DebuggerError::UnsupportedAdapter(adapter_name.to_owned()))
    }
}

} // verus!
