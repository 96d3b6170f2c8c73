//! Result classification: turning a transaction's outcome and the target
//! address into a `PingResult`, and the TTL-based operating-system heuristic.

use vstd::prelude::*;
use crate::addr::Ipv4Address;
use crate::addr::Ipv6Address;
use crate::config::PingConfig;
use crate::errors::IP_REQ_TIMED_OUT;
use crate::errors::IP_SUCCESS;
use crate::errors::format_error;
use crate::errors::spec_format_error;
use crate::outcome::EchoOutcome;
use crate::outcome::EchoSubmission;
use crate::outcome::spec_outcome_v4;
use crate::outcome::spec_outcome_v6;

verus! {

/// The result of one IPv4 echo transaction.
#[derive(Clone, Debug)]
pub struct PingResultV4 {
    /// The target address.
    pub ip: Ipv4Address,
    /// The reply's status code; on a transport failure, the failure's code.
    pub status: u32,
    /// Echoed byte count; `0` when no reply arrived.
    pub data_size: u16,
    /// Measured round-trip time in milliseconds; `0` when no reply arrived.
    pub round_trip_time: u32,
    /// Hop limit observed in the reply; `0` when no reply arrived.
    pub ttl: u8,
    /// The rendered error message, absent exactly on success.
    pub error: Option<String>,
}

/// The result of one IPv6 echo transaction. No hop limit: IPv6 replies do
/// not expose one through the facility this engine models.
#[derive(Clone, Debug)]
pub struct PingResultV6 {
    /// The target address.
    pub ip: Ipv6Address,
    /// The reply's status code; on a transport failure, the failure's code.
    pub status: u32,
    /// Measured round-trip time in milliseconds; `0` when no reply arrived.
    pub round_trip_time: u32,
    /// The rendered error message, absent exactly on success.
    pub error: Option<String>,
}

/// The result of one echo transaction; the variant is fixed by the target's
/// address family and never changes after construction.
#[derive(Clone, Debug)]
pub enum PingResult {
    V4(PingResultV4),
    V6(PingResultV6),
}

impl PingResultV4 {
    /// The result's invariant: an error message is present exactly when the
    /// status is not the success code.
    pub open spec fn wf(&self) -> bool {
        self.error is Some <==> self.status != IP_SUCCESS
    }
}

impl PingResultV6 {
    /// The result's invariant: an error message is present exactly when the
    /// status is not the success code.
    pub open spec fn wf(&self) -> bool {
        self.error is Some <==> self.status != IP_SUCCESS
    }
}

impl PingResult {
    /// The invariant of whichever variant the result holds.
    pub open spec fn wf(&self) -> bool {
        match self {
            PingResult::V4(r) => r.wf(),
            PingResult::V6(r) => r.wf(),
        }
    }
}

impl From<PingResultV4> for PingResult {
    fn from(result: PingResultV4) -> PingResult {
        PingResult::V4(result)
    }
}

impl vstd::std_specs::convert::FromSpecImpl<PingResultV4> for PingResult {
    open spec fn obeys_from_spec() -> bool {
        true
    }

    open spec fn from_spec(result: PingResultV4) -> PingResult {
        PingResult::V4(result)
    }
}

impl From<PingResultV6> for PingResult {
    fn from(result: PingResultV6) -> PingResult {
        PingResult::V6(result)
    }
}

impl vstd::std_specs::convert::FromSpecImpl<PingResultV6> for PingResult {
    open spec fn obeys_from_spec() -> bool {
        true
    }

    open spec fn from_spec(result: PingResultV6) -> PingResult {
        PingResult::V6(result)
    }
}

/// How an IPv4 result reflects the outcome it was classified from: a success
/// carries the reply's measurements and no error; a protocol or transport
/// error carries the code as its status, zeroed measurements, and the code's
/// rendered message.
pub open spec fn v4_matches_outcome(r: PingResultV4, o: EchoOutcome) -> bool {
    match o {
        EchoOutcome::Success { status, round_trip_time, ttl, data_size } => {
            &&& r.status == status
            &&& r.round_trip_time == round_trip_time
            &&& r.data_size == data_size
            &&& r.ttl == (match ttl {
                Some(t) => t,
                None => 0u8,
            })
            &&& r.error is None
        },
        EchoOutcome::ProtocolError { code } => {
            &&& r.status == code
            &&& r.round_trip_time == 0
            &&& r.data_size == 0
            &&& r.ttl == 0
            &&& r.error matches Some(m) && m@ == spec_format_error(code)
        },
        EchoOutcome::TransportError { code } => {
            &&& r.status == code
            &&& r.round_trip_time == 0
            &&& r.data_size == 0
            &&& r.ttl == 0
            &&& r.error matches Some(m) && m@ == spec_format_error(code)
        },
    }
}

/// How an IPv6 result reflects the outcome it was classified from.
pub open spec fn v6_matches_outcome(r: PingResultV6, o: EchoOutcome) -> bool {
    match o {
        EchoOutcome::Success { status, round_trip_time, .. } => {
            &&& r.status == status
            &&& r.round_trip_time == round_trip_time
            &&& r.error is None
        },
        EchoOutcome::ProtocolError { code } => {
            &&& r.status == code
            &&& r.round_trip_time == 0
            &&& r.error matches Some(m) && m@ == spec_format_error(code)
        },
        EchoOutcome::TransportError { code } => {
            &&& r.status == code
            &&& r.round_trip_time == 0
            &&& r.error matches Some(m) && m@ == spec_format_error(code)
        },
    }
}

/// Classifies one IPv4 outcome into a result for the given target.
pub fn result_v4_from_outcome(ip: Ipv4Address, outcome: &EchoOutcome) -> (r: PingResultV4)
    requires
        outcome.wf(),
    ensures
        r.ip == ip,
        v4_matches_outcome(r, *outcome),
        r.wf(),
{
    match *outcome {
        EchoOutcome::Success { status, round_trip_time, ttl, data_size } => PingResultV4 {
            ip,
            status,
            data_size,
            round_trip_time,
            ttl: match ttl {
                Some(t) => t,
                None => 0,
            },
            error: None,
        },
        EchoOutcome::ProtocolError { code } => PingResultV4 {
            ip,
            status: code,
            data_size: 0,
            round_trip_time: 0,
            ttl: 0,
            error: Some(format_error(code)),
        },
        EchoOutcome::TransportError { code } => PingResultV4 {
            ip,
            status: code,
            data_size: 0,
            round_trip_time: 0,
            ttl: 0,
            error: Some(format_error(code)),
        },
    }
}

/// Classifies one IPv6 outcome into a result for the given target.
pub fn result_v6_from_outcome(ip: Ipv6Address, outcome: &EchoOutcome) -> (r: PingResultV6)
    requires
        outcome.wf(),
    ensures
        r.ip == ip,
        v6_matches_outcome(r, *outcome),
        r.wf(),
{
    match *outcome {
        EchoOutcome::Success { status, round_trip_time, .. } => PingResultV6 {
            ip,
            status,
            round_trip_time,
            error: None,
        },
        EchoOutcome::ProtocolError { code } => PingResultV6 {
            ip,
            status: code,
            round_trip_time: 0,
            error: Some(format_error(code)),
        },
        EchoOutcome::TransportError { code } => PingResultV6 {
            ip,
            status: code,
            round_trip_time: 0,
            error: Some(format_error(code)),
        },
    }
}

/// A zero timeout always classifies to a timed-out transport-error result
/// with zero round-trip time, whatever the facility would have reported: the
/// transaction never waits on the caller's behalf.
pub proof fn lemma_zero_timeout_result_v4(config: PingConfig, sub: EchoSubmission, r: PingResultV4)
    requires
        config.timeout == 0,
        v4_matches_outcome(r, spec_outcome_v4(config, sub)),
    ensures
        r.status == IP_REQ_TIMED_OUT,
        r.round_trip_time == 0,
        r.error is Some,
{
}

/// The IPv6 form of `lemma_zero_timeout_result_v4`.
pub proof fn lemma_zero_timeout_result_v6(config: PingConfig, sub: EchoSubmission, r: PingResultV6)
    requires
        config.timeout == 0,
        v6_matches_outcome(r, spec_outcome_v6(config, sub)),
    ensures
        r.status == IP_REQ_TIMED_OUT,
        r.round_trip_time == 0,
        r.error is Some,
{
}

/// The operating-system family that a reply TTL suggests. The three bands
/// are closed and cover all of `0..=255`.
pub open spec fn spec_os_family(ttl: u8) -> Seq<char> {
    if ttl <= 64 {
        "Linux/Unix"@
    } else if ttl <= 128 {
        "Windows"@
    } else {
        "Other/Undetermined"@
    }
}

/// Guesses the remote operating-system family from the hop limit observed in
/// an IPv4 reply, going by common default TTLs (64, 128, 255). A heuristic,
/// not authoritative: it is informational, attached to displayed output
/// only, and never affects a result's status or error.
pub fn os_family(ttl: u8) -> (name: &'static str)
    ensures
        name@ == spec_os_family(ttl),
{
    if ttl <= 64 {
        "Linux/Unix"
    } else if ttl <= 128 {
        "Windows"
    } else {
        "Other/Undetermined"
    }
}

} // verus!
