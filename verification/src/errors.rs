//! Error taxonomy: the closed mapping from platform-reported status codes to
//! human-readable messages, and the engine's error type.

use vstd::prelude::*;
use vstd::string::StringExecFns;

verus! {

/// Status code of a successful echo reply.
pub const IP_SUCCESS: u32 = 0;

/// Last-error code of a submission that produced no failure code.
pub const NO_ERROR: u32 = 0;

/// The destination network was unreachable.
pub const IP_DEST_NET_UNREACHABLE: u32 = 11002;

/// The destination host was unreachable.
pub const IP_DEST_HOST_UNREACHABLE: u32 = 11003;

/// The packet was too big for a hop's link.
pub const IP_PACKET_TOO_BIG: u32 = 11009;

/// No reply arrived before the deadline.
pub const IP_REQ_TIMED_OUT: u32 = 11010;

/// A route could not be used.
pub const IP_BAD_ROUTE: u32 = 11012;

/// The hop limit ran out in transit.
pub const IP_TTL_EXPIRED_TRANSIT: u32 = 11013;

/// Fragment reassembly took longer than allowed.
pub const IP_TTL_EXPIRED_REASSEM: u32 = 11014;

/// The facility failed for an unspecified reason.
pub const IP_GENERAL_FAILURE: u32 = 11050;

/// The decimal rendering of one digit.
pub open spec fn dec_digit(d: int) -> Seq<char> {
    if d == 0 {
        "0"@
    } else if d == 1 {
        "1"@
    } else if d == 2 {
        "2"@
    } else if d == 3 {
        "3"@
    } else if d == 4 {
        "4"@
    } else if d == 5 {
        "5"@
    } else if d == 6 {
        "6"@
    } else if d == 7 {
        "7"@
    } else if d == 8 {
        "8"@
    } else {
        "9"@
    }
}

/// The decimal rendering of a natural number, without leading zeros
/// (`0` renders as `"0"`).
pub open spec fn dec_rep(n: nat) -> Seq<char>
    decreases n,
{
    if n < 10 {
        dec_digit(n as int)
    } else {
        dec_rep(n / 10) + dec_digit((n % 10) as int)
    }
}

fn digit_str(d: u32) -> (s: &'static str)
    requires
        d < 10,
    ensures
        s@ == dec_digit(d as int),
{
    match d {
        0 => "0",
        1 => "1",
        2 => "2",
        3 => "3",
        4 => "4",
        5 => "5",
        6 => "6",
        7 => "7",
        8 => "8",
        _ => "9",
    }
}

/// Renders a number in decimal, matching `dec_rep`.
pub fn u32_to_decimal(n: u32) -> (s: String)
    ensures
        s@ == dec_rep(n as nat),
    decreases n,
{
    if n < 10 {
        digit_str(n).to_owned()
    } else {
        let prefix = u32_to_decimal(n / 10);
        prefix.concat(digit_str(n % 10))
    }
}

/// The message that each status code renders to. The mapping is total over
/// `u32`: the eight named codes and `NO_ERROR` have fixed strings, every
/// other code renders as `"Unknown error: <code>"`.
pub open spec fn spec_format_error(error: u32) -> Seq<char> {
    if error == IP_REQ_TIMED_OUT {
        "Request timed out"@
    } else if error == IP_DEST_HOST_UNREACHABLE {
        "Destination host unreachable"@
    } else if error == IP_DEST_NET_UNREACHABLE {
        "Destination network unreachable"@
    } else if error == IP_TTL_EXPIRED_TRANSIT {
        "TTL expired in transit"@
    } else if error == IP_TTL_EXPIRED_REASSEM {
        "Reassembly time exceeded"@
    } else if error == IP_PACKET_TOO_BIG {
        "Packet too big"@
    } else if error == IP_BAD_ROUTE {
        "Bad route"@
    } else if error == IP_GENERAL_FAILURE {
        "General failure"@
    } else if error == NO_ERROR {
        "No error"@
    } else {
        "Unknown error: "@ + dec_rep(error as nat)
    }
}

/// Renders a platform status code as a message. Total over `u32`: every
/// input yields the non-empty string given by `spec_format_error`.
pub fn format_error(error: u32) -> (msg: String)
    ensures
        msg@ == spec_format_error(error),
        msg@.len() > 0,
{
    proof {
        reveal_strlit("Request timed out");
        reveal_strlit("Destination host unreachable");
        reveal_strlit("Destination network unreachable");
        reveal_strlit("TTL expired in transit");
        reveal_strlit("Reassembly time exceeded");
        reveal_strlit("Packet too big");
        reveal_strlit("Bad route");
        reveal_strlit("General failure");
        reveal_strlit("No error");
        reveal_strlit("Unknown error: ");
    }
    if error == IP_REQ_TIMED_OUT {
        "Request timed out".to_owned()
    } else if error == IP_DEST_HOST_UNREACHABLE {
        "Destination host unreachable".to_owned()
    } else if error == IP_DEST_NET_UNREACHABLE {
        "Destination network unreachable".to_owned()
    } else if error == IP_TTL_EXPIRED_TRANSIT {
        "TTL expired in transit".to_owned()
    } else if error == IP_TTL_EXPIRED_REASSEM {
        "Reassembly time exceeded".to_owned()
    } else if error == IP_PACKET_TOO_BIG {
        "Packet too big".to_owned()
    } else if error == IP_BAD_ROUTE {
        "Bad route".to_owned()
    } else if error == IP_GENERAL_FAILURE {
        "General failure".to_owned()
    } else if error == NO_ERROR {
        "No error".to_owned()
    } else {
        "Unknown error: ".to_owned().concat(u32_to_decimal(error).as_str())
    }
}

/// The engine's error type: why a ping could not be carried out at all.
#[derive(Debug)]
pub enum IcmpError {
    /// The raw-ICMP capability could not be acquired; carries the platform
    /// code.
    CreateHandleError(u32),
    /// A submission failed at the session level; carries the platform code.
    SendEchoError(u32),
    /// A configuration or precondition violation, described in the message.
    GeneralError(String),
    /// The raw-ICMP facility is unavailable in this execution environment.
    UnsupportedPlatform,
}

impl IcmpError {
    /// The message that this error renders to.
    pub open spec fn spec_message(&self) -> Seq<char> {
        match self {
            IcmpError::CreateHandleError(e) => "Unable to create ICMP handle: "@ + dec_rep(
                *e as nat,
            ),
            IcmpError::SendEchoError(e) => "Ping error: "@ + spec_format_error(*e),
            IcmpError::GeneralError(m) => "General error: "@ + m@,
            IcmpError::UnsupportedPlatform => "Unsupported platform"@,
        }
    }

    /// Renders the error as a message.
    pub fn message(&self) -> (msg: String)
        ensures
            msg@ == self.spec_message(),
    {
        match self {
            IcmpError::CreateHandleError(e) => "Unable to create ICMP handle: ".to_owned().concat(
                u32_to_decimal(*e).as_str(),
            ),
            IcmpError::SendEchoError(e) => "Ping error: ".to_owned().concat(
                format_error(*e).as_str(),
            ),
            IcmpError::GeneralError(m) => "General error: ".to_owned().concat(m.as_str()),
            IcmpError::UnsupportedPlatform => "Unsupported platform".to_owned(),
        }
    }
}

} // verus!
