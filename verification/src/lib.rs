//! Verified core of an ICMP echo (ping) engine.
//!
//! The library covers the pure logic of a host-reachability probe: the
//! taxonomy of platform status codes, the echo configuration, the validated
//! deserialization of echo-reply records, the classification of a
//! transaction's outcome into a `PingResult`, the TTL-based operating-system
//! heuristic, and the orchestration of `count` transactions per target.
//!
//! The platform facility itself (acquiring a raw-ICMP handle, submitting an
//! echo request and blocking for the reply) is I/O and stays outside the
//! library: the caller performs those calls and hands the engine the raw
//! events (`SessionEvent`, `EchoSubmission`); the engine turns them into
//! results and is verified for every possible event.

pub mod addr;
pub mod config;
pub mod engine;
pub mod errors;
pub mod outcome;
pub mod reply;
pub mod result;
