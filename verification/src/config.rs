//! The echo configuration: how many requests to send, how large a payload,
//! the outgoing hop limit, and how long to wait for each reply.

use vstd::prelude::*;

verus! {

/// The largest echo payload the platform accepts, in bytes.
pub const MAX_ECHO_PAYLOAD: u16 = 65507;

/// Configuration of one ping run, created by the caller before any engine
/// call and read-only thereafter.
#[derive(Clone, Debug)]
pub struct PingConfig {
    /// How many echo transactions to run per target. `0` runs none, which is
    /// not an error.
    pub count: u32,
    /// Payload size of each echo request, in bytes.
    pub size: u16,
    /// Outgoing hop limit, where the platform lets it be set.
    pub ttl: u8,
    /// Upper bound for waiting on each reply, in milliseconds. `0` means "do
    /// not wait": the transaction resolves immediately as a timeout.
    pub timeout: u32,
}

impl PingConfig {
    /// The configuration's invariant: the payload fits the platform's
    /// maximum echo payload.
    pub open spec fn valid(&self) -> bool {
        self.size <= MAX_ECHO_PAYLOAD
    }
}

impl Default for PingConfig {
    /// One request of 32 payload bytes, hop limit 128, a two-second wait.
    fn default() -> (c: Self)
        ensures
            c.count == 1,
            c.size == 32,
            c.ttl == 128,
            c.timeout == 2000,
            c.valid(),
    {
        PingConfig { count: 1, size: 32, ttl: 128, timeout: 2000 }
    }
}

} // verus!
