//! Fixed settings of the SDK.
use vstd::prelude::*;

verus! {

/// Base URL of the production deployment.
pub const DEFAULT_BASE_URL: &'static str = "https://gateway.architect.exchange";

/// Base URL of the sandbox deployment.
pub const SANDBOX_BASE_URL: &'static str = "https://gateway.sandbox.architect.exchange";

/// Seconds without any inbound frame after which a WebSocket connection is
/// given up.
pub const READ_TIMEOUT_SECS: u64 = 6;

/// Seconds a REST request may take.
pub const REQUEST_TIMEOUT_SECS: u64 = 30;

} // verus!
