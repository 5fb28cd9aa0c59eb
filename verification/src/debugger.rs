//! The debugger and the constants that it falls back on.

use crate::endpoint::ipv4_bits;
use vstd::prelude::*;
use vstd::string::*;

verus! {

/// The program that is started where the user names none.
pub const DEFAULT_COMMAND: &'static str = "probe-rs";

/// The port on which a started adapter is told to listen.
pub const DEFAULT_PORT: u16 = 50000;

/// The loopback address, `127.0.0.1`, at which a started adapter is reached.
pub const DEFAULT_HOST: u32 = 0x7F00_0001;

/// How long to wait for a connection, in milliseconds.
pub const DEFAULT_TIMEOUT: u64 = 5000;

/// Answers the host for the probe-rs debug adapter. Its fields are what it
/// uses where a configuration leaves a choice open; nothing else is kept
/// between two calls.
#[derive(Debug, Clone, PartialEq, Eq)]
pub struct ProbeRsDebugger {
    /// The program to start where the user names none.
    pub default_command: String,
    /// The port on which a started adapter is told to listen.
    pub default_port: u16,
    /// The address at which a started adapter is reached.
    pub default_host: u32,
    /// How long to wait for a connection, in milliseconds.
    pub default_timeout: u64,
}

impl ProbeRsDebugger {
    /// The debugger with its usual constants: the program `probe-rs`,
    /// port 50000 on the loopback address, five seconds of patience.
    pub fn new() -> (r: Self)
        ensures
            r.default_command@ == DEFAULT_COMMAND@,
            r.default_port == DEFAULT_PORT,
            r.default_host == DEFAULT_HOST,
            r.default_timeout == DEFAULT_TIMEOUT,
            r.default_host == ipv4_bits(127, 0, 0, 1),
    {
        ProbeRsDebugger {
            default_command: String::from_str(DEFAULT_COMMAND),
            default_port: DEFAULT_PORT,
            default_host: DEFAULT_HOST,
            default_timeout: DEFAULT_TIMEOUT,
        }
    }
}

} // verus!
