//! The configuration consumed during assembly.

use vstd::prelude::*;

verus! {

/// The part of the node configuration that assembly reads.
///
/// The structure is produced and validated by the host before assembly
/// begins; it is read-only here and is not re-validated.
#[derive(Clone, Copy, Debug)]
pub struct Configuration {
    /// Whether the node runs in test mode.
    pub test_mode: bool,
    /// Whether the test-only data-propagation subsystem is requested.
    pub data_propagate_enabled: bool,
    /// Interval, in milliseconds, between injected propagation rounds.
    pub data_propagate_interval_ms: u64,
    /// Size of each injected propagation payload.
    pub data_propagate_size: usize,
    /// Whether the debug HTTP front-end is started.
    pub debug_rpc_http_enabled: bool,
    /// Whether the public HTTP front-end is started.
    pub rpc_http_enabled: bool,
    /// Whether the TCP front-end is started.
    pub rpc_tcp_enabled: bool,
    /// Whether the WebSocket front-end is started.
    pub rpc_ws_enabled: bool,
}

impl Configuration {
    /// Whether the node runs in test mode.
    pub fn is_test_mode(&self) -> (r: bool)
        ensures
            r == self.test_mode,
    {
        self.test_mode
    }
}

} // verus!
