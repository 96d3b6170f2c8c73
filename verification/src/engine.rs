//! The ping orchestrator: for one target address, turn the session-open
//! event and the per-transaction submission records into the `count`
//! classified results, in request order.
//!
//! The raw-ICMP capability itself is owned by the caller, which must release
//! it on every exit path (a guard type around the handle does this) and must
//! serialize transactions against one session: the facility is
//! single-request-in-flight per handle. The engine only sees what each call
//! reported, so its guarantees hold whatever the platform did.

use vstd::prelude::*;
use crate::addr::IpAddress;
use crate::addr::Ipv4Address;
use crate::addr::Ipv6Address;
use crate::config::PingConfig;
use crate::errors::IcmpError;
use crate::outcome::EchoSubmission;
use crate::outcome::spec_outcome_v4;
use crate::outcome::spec_outcome_v6;
use crate::outcome::timeout_outcome;
use crate::outcome::transaction_outcome_v4;
use crate::outcome::transaction_outcome_v6;
use crate::result::PingResult;
use crate::result::result_v4_from_outcome;
use crate::result::result_v6_from_outcome;
use crate::result::v4_matches_outcome;
use crate::result::v6_matches_outcome;

verus! {

/// What opening the raw-ICMP sending capability reported.
#[derive(Clone, Copy, Debug)]
pub enum SessionEvent {
    /// The capability was acquired.
    Opened,
    /// The platform refused the capability; carries its code.
    OpenFailed(u32),
    /// No raw-ICMP facility exists for this process's environment or
    /// privilege level.
    Unavailable,
}

/// Every result is the IPv4 classification, for the given target, of the
/// submission record at its own index: one result per transaction, in
/// request order.
pub open spec fn results_classified_v4(
    ip: Ipv4Address,
    config: PingConfig,
    subs: Seq<EchoSubmission>,
    results: Seq<PingResult>,
) -> bool {
    forall|i: int|
        0 <= i < results.len() ==> ((#[trigger] results[i]) matches PingResult::V4(res)
            && res.ip == ip && res.wf() && v4_matches_outcome(res, spec_outcome_v4(config, subs[i])))
}

/// Every result is the IPv6 classification, for the given target, of the
/// submission record at its own index: one result per transaction, in
/// request order.
pub open spec fn results_classified_v6(
    ip: Ipv6Address,
    config: PingConfig,
    subs: Seq<EchoSubmission>,
    results: Seq<PingResult>,
) -> bool {
    forall|i: int|
        0 <= i < results.len() ==> ((#[trigger] results[i]) matches PingResult::V6(res)
            && res.ip == ip && res.wf() && v6_matches_outcome(res, spec_outcome_v6(config, subs[i])))
}

/// Pings one IPv4 target: exactly `config.count` classified results in
/// request order when the session opened, the session's error otherwise. A
/// count of zero yields zero results and is not an error. When the timeout
/// is zero the submissions are not consulted at all: every transaction
/// resolves immediately as a timeout.
pub fn ping_ipv4(
    ip: Ipv4Address,
    config: &PingConfig,
    session: &SessionEvent,
    submissions: &Vec<EchoSubmission>,
) -> (r: Result<Vec<PingResult>, IcmpError>)
    requires
        config.valid(),
        *session is Opened && config.timeout != 0 ==> submissions@.len() == config.count,
    ensures
        match *session {
            SessionEvent::Opened => r matches Ok(results) && results@.len() == config.count
                && results_classified_v4(ip, *config, submissions@, results@),
            SessionEvent::OpenFailed(code) => r matches Err(e) && e == IcmpError::CreateHandleError(
                code,
            ),
            SessionEvent::Unavailable => r matches Err(e) && e is UnsupportedPlatform,
        },
        *session is Opened && config.count == 0 ==> (r matches Ok(results) && results@.len()
            == 0),
{
    match session {
        SessionEvent::OpenFailed(code) => Err(IcmpError::CreateHandleError(*code)),
        SessionEvent::Unavailable => Err(IcmpError::UnsupportedPlatform),
        SessionEvent::Opened => {
            let mut results: Vec<PingResult> = Vec::new();
            let mut i: u32 = 0;
            while i < config.count
                invariant
                    i <= config.count,
                    results@.len() == i,
                    config.timeout != 0 ==> submissions@.len() == config.count,
                    results_classified_v4(ip, *config, submissions@, results@),
                decreases config.count - i,
            {
                let outcome = if config.timeout == 0 {
                    timeout_outcome()
                } else {
                    transaction_outcome_v4(config, &submissions[i as usize])
                };
                let res = result_v4_from_outcome(ip, &outcome);
                results.push(PingResult::V4(res));
                i = i + 1;
            }
            Ok(results)
        },
    }
}

/// Pings one IPv6 target, as `ping_ipv4`.
pub fn ping_ipv6(
    ip: Ipv6Address,
    config: &PingConfig,
    session: &SessionEvent,
    submissions: &Vec<EchoSubmission>,
) -> (r: Result<Vec<PingResult>, IcmpError>)
    requires
        config.valid(),
        *session is Opened && config.timeout != 0 ==> submissions@.len() == config.count,
    ensures
        match *session {
            SessionEvent::Opened => r matches Ok(results) && results@.len() == config.count
                && results_classified_v6(ip, *config, submissions@, results@),
            SessionEvent::OpenFailed(code) => r matches Err(e) && e == IcmpError::CreateHandleError(
                code,
            ),
            SessionEvent::Unavailable => r matches Err(e) && e is UnsupportedPlatform,
        },
        *session is Opened && config.count == 0 ==> (r matches Ok(results) && results@.len()
            == 0),
{
    match session {
        SessionEvent::OpenFailed(code) => Err(IcmpError::CreateHandleError(*code)),
        SessionEvent::Unavailable => Err(IcmpError::UnsupportedPlatform),
        SessionEvent::Opened => {
            let mut results: Vec<PingResult> = Vec::new();
            let mut i: u32 = 0;
            while i < config.count
                invariant
                    i <= config.count,
                    results@.len() == i,
                    config.timeout != 0 ==> submissions@.len() == config.count,
                    results_classified_v6(ip, *config, submissions@, results@),
                decreases config.count - i,
            {
                let outcome = if config.timeout == 0 {
                    timeout_outcome()
                } else {
                    transaction_outcome_v6(config, &submissions[i as usize])
                };
                let res = result_v6_from_outcome(ip, &outcome);
                results.push(PingResult::V6(res));
                i = i + 1;
            }
            Ok(results)
        },
    }
}

/// Pings one target of either family, dispatching on the address family.
pub fn ping(
    ip: IpAddress,
    config: &PingConfig,
    session: &SessionEvent,
    submissions: &Vec<EchoSubmission>,
) -> (r: Result<Vec<PingResult>, IcmpError>)
    requires
        config.valid(),
        *session is Opened && config.timeout != 0 ==> submissions@.len() == config.count,
    ensures
        match *session {
            SessionEvent::Opened => r matches Ok(results) && results@.len() == config.count
                && match ip {
                IpAddress::V4(a) => results_classified_v4(a, *config, submissions@, results@),
                IpAddress::V6(a) => results_classified_v6(a, *config, submissions@, results@),
            },
            SessionEvent::OpenFailed(code) => r matches Err(e) && e == IcmpError::CreateHandleError(
                code,
            ),
            SessionEvent::Unavailable => r matches Err(e) && e is UnsupportedPlatform,
        },
{
    match ip {
        IpAddress::V4(a) => ping_ipv4(a, config, session, submissions),
        IpAddress::V6(a) => ping_ipv6(a, config, session, submissions),
    }
}

} // verus!
