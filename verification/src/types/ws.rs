//! States of a supervised WebSocket connection.
use vstd::prelude::*;

verus! {

/// The state of a supervised connection.
#[derive(Debug, Clone, Copy, PartialEq, Eq, Structural)]
pub enum ConnectionState {
    /// Not connected; the supervisor is (re)connecting.
    Disconnected,
    /// Connected.
    Connected,
    /// The supervisor has stopped for good.
    Exited,
}

} // verus!
