//! Echo transactions: turning what the platform facility reported for one
//! echo request into a typed outcome.
//!
//! The facility call itself (submit, then block for a reply or the deadline)
//! is the caller's: it records what happened in an `EchoSubmission` and the
//! engine classifies it here, so the classification is verified for every
//! possible record.

use vstd::prelude::*;
use crate::config::PingConfig;
use crate::errors::IP_GENERAL_FAILURE;
use crate::errors::IP_REQ_TIMED_OUT;
use crate::errors::IP_SUCCESS;
use crate::reply::EchoReplyV4;
use crate::reply::EchoReplyV6;
use crate::reply::parse_reply_v4;
use crate::reply::parse_reply_v6;
use crate::reply::spec_parse_reply_v4;
use crate::reply::spec_parse_reply_v6;

verus! {

/// What one facility call reported: the count of replies it returned, the
/// last-error code read when that count was zero, and the reply buffer's
/// contents after the call.
#[derive(Clone, Debug)]
pub struct EchoSubmission {
    /// The call's return value: how many replies it wrote. `0` means the
    /// submission failed or the deadline elapsed.
    pub reply_count: u32,
    /// The platform's last-error code, read when `reply_count` is `0`.
    pub failure_code: u32,
    /// The reply buffer after the call.
    pub reply: Vec<u8>,
}

/// The typed outcome of one echo transaction.
#[derive(Clone, Copy, Debug)]
pub enum EchoOutcome {
    /// A reply arrived with the success status.
    Success { status: u32, round_trip_time: u32, ttl: Option<u8>, data_size: u16 },
    /// A reply arrived, but with a non-success status: the probe worked and
    /// the network answered with an error (distinct from no answer at all).
    ProtocolError { code: u32 },
    /// The submission failed or the deadline elapsed with no reply.
    TransportError { code: u32 },
}

impl EchoOutcome {
    /// The outcome's invariant: `Success` carries the success status and the
    /// error variants carry a non-success code.
    pub open spec fn wf(&self) -> bool {
        match self {
            EchoOutcome::Success { status, .. } => *status == IP_SUCCESS,
            EchoOutcome::ProtocolError { code } => *code != IP_SUCCESS,
            EchoOutcome::TransportError { code } => *code != IP_SUCCESS,
        }
    }
}

/// A transport-error code is never the success code: a submission that
/// failed without a failure code is reported as a general failure.
pub open spec fn spec_transport_code(code: u32) -> u32 {
    if code == IP_SUCCESS {
        IP_GENERAL_FAILURE
    } else {
        code
    }
}

/// The outcome of an IPv4 reply record: success on the success status,
/// otherwise a protocol error carrying the reply's status.
pub open spec fn spec_classify_reply_v4(rep: EchoReplyV4) -> EchoOutcome {
    if rep.status == IP_SUCCESS {
        EchoOutcome::Success {
            status: rep.status,
            round_trip_time: rep.round_trip_time,
            ttl: Some(rep.ttl),
            data_size: rep.data_size,
        }
    } else {
        EchoOutcome::ProtocolError { code: rep.status }
    }
}

/// The outcome of an IPv6 reply record. No hop limit or data size is
/// exposed: the facility's IPv6 reply carries neither.
pub open spec fn spec_classify_reply_v6(rep: EchoReplyV6) -> EchoOutcome {
    if rep.status == IP_SUCCESS {
        EchoOutcome::Success {
            status: rep.status,
            round_trip_time: rep.round_trip_time,
            ttl: None,
            data_size: 0,
        }
    } else {
        EchoOutcome::ProtocolError { code: rep.status }
    }
}

/// The outcome of one IPv4 transaction. A zero timeout resolves immediately
/// as a timeout, whatever the submission holds; a failed submission is a
/// transport error with its code; a reply buffer too short to parse is a
/// general transport failure; a parsed reply is classified by its status.
pub open spec fn spec_outcome_v4(config: PingConfig, sub: EchoSubmission) -> EchoOutcome {
    if config.timeout == 0 {
        EchoOutcome::TransportError { code: IP_REQ_TIMED_OUT }
    } else if sub.reply_count == 0 {
        EchoOutcome::TransportError { code: spec_transport_code(sub.failure_code) }
    } else {
        match spec_parse_reply_v4(sub.reply@) {
            Some(rep) => spec_classify_reply_v4(rep),
            None => EchoOutcome::TransportError { code: IP_GENERAL_FAILURE },
        }
    }
}

/// The outcome of one IPv6 transaction, as `spec_outcome_v4`.
pub open spec fn spec_outcome_v6(config: PingConfig, sub: EchoSubmission) -> EchoOutcome {
    if config.timeout == 0 {
        EchoOutcome::TransportError { code: IP_REQ_TIMED_OUT }
    } else if sub.reply_count == 0 {
        EchoOutcome::TransportError { code: spec_transport_code(sub.failure_code) }
    } else {
        match spec_parse_reply_v6(sub.reply@) {
            Some(rep) => spec_classify_reply_v6(rep),
            None => EchoOutcome::TransportError { code: IP_GENERAL_FAILURE },
        }
    }
}

/// The outcome of a transaction that was never submitted because the
/// configured timeout is zero: a timeout, resolved without waiting.
pub fn timeout_outcome() -> (o: EchoOutcome)
    ensures
        o == (EchoOutcome::TransportError { code: IP_REQ_TIMED_OUT }),
        o.wf(),
{
    EchoOutcome::TransportError { code: IP_REQ_TIMED_OUT }
}

fn transport_outcome(code: u32) -> (o: EchoOutcome)
    ensures
        o == (EchoOutcome::TransportError { code: spec_transport_code(code) }),
        o.wf(),
{
    if code == IP_SUCCESS {
        EchoOutcome::TransportError { code: IP_GENERAL_FAILURE }
    } else {
        EchoOutcome::TransportError { code }
    }
}

/// Classifies one IPv4 submission record into its outcome.
pub fn transaction_outcome_v4(config: &PingConfig, sub: &EchoSubmission) -> (o: EchoOutcome)
    ensures
        o == spec_outcome_v4(*config, *sub),
        o.wf(),
{
    if config.timeout == 0 {
        timeout_outcome()
    } else if sub.reply_count == 0 {
        transport_outcome(sub.failure_code)
    } else {
        match parse_reply_v4(&sub.reply) {
            Some(rep) => {
                if rep.status == IP_SUCCESS {
                    EchoOutcome::Success {
                        status: rep.status,
                        round_trip_time: rep.round_trip_time,
                        ttl: Some(rep.ttl),
                        data_size: rep.data_size,
                    }
                } else {
                    EchoOutcome::ProtocolError { code: rep.status }
                }
            },
            None => EchoOutcome::TransportError { code: IP_GENERAL_FAILURE },
        }
    }
}

/// Classifies one IPv6 submission record into its outcome.
pub fn transaction_outcome_v6(config: &PingConfig, sub: &EchoSubmission) -> (o: EchoOutcome)
    ensures
        o == spec_outcome_v6(*config, *sub),
        o.wf(),
{
    if config.timeout == 0 {
        timeout_outcome()
    } else if sub.reply_count == 0 {
        transport_outcome(sub.failure_code)
    } else {
        match parse_reply_v6(&sub.reply) {
            Some(rep) => {
                if rep.status == IP_SUCCESS {
                    EchoOutcome::Success {
                        status: rep.status,
                        round_trip_time: rep.round_trip_time,
                        ttl: None,
                        data_size: 0,
                    }
                } else {
                    EchoOutcome::ProtocolError { code: rep.status }
                }
            },
            None => EchoOutcome::TransportError { code: IP_GENERAL_FAILURE },
        }
    }
}

/// A zero timeout always resolves to a timeout-class transport error,
/// whatever the facility would have reported: the transaction never waits.
pub proof fn lemma_zero_timeout_times_out(config: PingConfig, sub: EchoSubmission)
    requires
        config.timeout == 0,
    ensures
        spec_outcome_v4(config, sub) == (EchoOutcome::TransportError { code: IP_REQ_TIMED_OUT }),
        spec_outcome_v6(config, sub) == (EchoOutcome::TransportError { code: IP_REQ_TIMED_OUT }),
{
}

} // verus!
