//! Validated deserialization of the raw echo-reply records that the platform
//! facility writes into the caller's reply buffer.
//!
//! The engine never touches raw byte layouts anywhere else: this module
//! documents each field's offset and size, checks bounds, and hands the rest
//! of the engine plain values. All multi-byte fields are little-endian.
//!
//! IPv4 echo-reply record (64-bit layout; sizes in bytes):
//!
//! | offset | size | field                          |
//! |--------|------|--------------------------------|
//! | 0      | 4    | responding address             |
//! | 4      | 4    | status code                    |
//! | 8      | 4    | round-trip time, milliseconds  |
//! | 12     | 2    | echoed data size               |
//! | 14     | 2    | reserved                       |
//! | 16     | 8    | pointer to the echoed data     |
//! | 24     | 1    | reply options: hop limit (TTL) |
//! | 25     | 1    | reply options: type of service |
//! | 26     | 1    | reply options: flags           |
//! | 27     | 1    | reply options: options size    |
//!
//! IPv6 echo-reply record (64-bit layout): a 28-byte responder address
//! block at offset 0, the status code at offset 28, and the round-trip time
//! at offset 32. No hop limit is exposed: IPv6 replies carry no TTL through
//! this facility.

use vstd::prelude::*;

verus! {

/// Least length of a buffer that holds every parsed IPv4 reply field.
pub const REPLY_V4_MIN_LEN: usize = 28;

/// Least length of a buffer that holds every parsed IPv6 reply field.
pub const REPLY_V6_MIN_LEN: usize = 36;

/// The little-endian 16-bit value at offset `i`.
pub open spec fn le_u16_at(bytes: Seq<u8>, i: int) -> u16
    recommends
        0 <= i,
        i + 2 <= bytes.len(),
{
    (bytes[i] + bytes[i + 1] * 0x100) as u16
}

/// The little-endian 32-bit value at offset `i`.
pub open spec fn le_u32_at(bytes: Seq<u8>, i: int) -> u32
    recommends
        0 <= i,
        i + 4 <= bytes.len(),
{
    (bytes[i] + bytes[i + 1] * 0x100 + bytes[i + 2] * 0x10000 + bytes[i + 3] * 0x1000000) as u32
}

fn read_u16_le(buf: &Vec<u8>, i: usize) -> (x: u16)
    requires
        i + 2 <= buf.len(),
    ensures
        x == le_u16_at(buf@, i as int),
{
    buf[i] as u16 + (buf[i + 1] as u16) * 0x100
}

fn read_u32_le(buf: &Vec<u8>, i: usize) -> (x: u32)
    requires
        i + 4 <= buf.len(),
    ensures
        x == le_u32_at(buf@, i as int),
{
    buf[i] as u32 + (buf[i + 1] as u32) * 0x100 + (buf[i + 2] as u32) * 0x10000 + (buf[i
        + 3] as u32) * 0x1000000
}

/// The fields of one IPv4 echo reply that the engine consumes.
#[derive(Clone, Copy, Debug, PartialEq, Eq, Structural)]
pub struct EchoReplyV4 {
    /// The responding address, as the platform encodes it.
    pub address: u32,
    /// The reply's status code.
    pub status: u32,
    /// Measured round-trip time, in milliseconds.
    pub round_trip_time: u32,
    /// Echoed data size, in bytes.
    pub data_size: u16,
    /// Hop limit observed in the reply's options.
    pub ttl: u8,
}

/// The fields of one IPv6 echo reply that the engine consumes.
#[derive(Clone, Copy, Debug, PartialEq, Eq, Structural)]
pub struct EchoReplyV6 {
    /// The reply's status code.
    pub status: u32,
    /// Measured round-trip time, in milliseconds.
    pub round_trip_time: u32,
}

/// What `parse_reply_v4` returns: the reply's fields, or nothing when the
/// buffer is too short to hold them.
pub open spec fn spec_parse_reply_v4(bytes: Seq<u8>) -> Option<EchoReplyV4> {
    if bytes.len() >= REPLY_V4_MIN_LEN {
        Some(
            EchoReplyV4 {
                address: le_u32_at(bytes, 0),
                status: le_u32_at(bytes, 4),
                round_trip_time: le_u32_at(bytes, 8),
                data_size: le_u16_at(bytes, 12),
                ttl: bytes[24],
            },
        )
    } else {
        None
    }
}

/// What `parse_reply_v6` returns: the reply's fields, or nothing when the
/// buffer is too short to hold them.
pub open spec fn spec_parse_reply_v6(bytes: Seq<u8>) -> Option<EchoReplyV6> {
    if bytes.len() >= REPLY_V6_MIN_LEN {
        Some(
            EchoReplyV6 { status: le_u32_at(bytes, 28), round_trip_time: le_u32_at(bytes, 32) },
        )
    } else {
        None
    }
}

/// Reads the IPv4 echo-reply fields out of a reply buffer, bounds-checked.
pub fn parse_reply_v4(buf: &Vec<u8>) -> (r: Option<EchoReplyV4>)
    ensures
        r == spec_parse_reply_v4(buf@),
{
    if buf.len() >= REPLY_V4_MIN_LEN {
        Some(
            EchoReplyV4 {
                address: read_u32_le(buf, 0),
                status: read_u32_le(buf, 4),
                round_trip_time: read_u32_le(buf, 8),
                data_size: read_u16_le(buf, 12),
                ttl: buf[24],
            },
        )
    } else {
        None
    }
}

/// Reads the IPv6 echo-reply fields out of a reply buffer, bounds-checked.
pub fn parse_reply_v6(buf: &Vec<u8>) -> (r: Option<EchoReplyV6>)
    ensures
        r == spec_parse_reply_v6(buf@),
{
    if buf.len() >= REPLY_V6_MIN_LEN {
        Some(
            EchoReplyV6 {
                status: read_u32_le(buf, 28),
                round_trip_time: read_u32_le(buf, 32),
            },
        )
    } else {
        None
    }
}

} // verus!
