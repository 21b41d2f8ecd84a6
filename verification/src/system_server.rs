//! What the exchange reports of its own state.

use vstd::prelude::*;

verus! {

/// The server's time.
#[derive(Debug)]
pub struct ServerTime {
    /// Seconds since the Unix epoch.
    pub unixtime: i64,
    /// The same time in RFC 1123 form.
    pub rfc1123: String,
}

/// The state of the exchange's systems.
#[derive(Debug)]
pub struct SystemStatus {
    pub status: String,
    pub timestamp: String,
}

} // verus!
