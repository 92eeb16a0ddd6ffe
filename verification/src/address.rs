//! Address types and address-family helpers.
//!
//! MRT records carry raw IPv4 (4-byte) and IPv6 (16-byte) addresses, with the
//! width of each address field selected by an AFI code. Addresses are modelled
//! here as their big-endian bit patterns.

use vstd::prelude::*;

use crate::wire::{be_uint, read_bytes, read_u128, read_u16, read_u32};
use crate::{MrtError, AFI};

verus! {

/// An IPv4 address, stored as its 32-bit big-endian bit pattern.
#[derive(Debug, Clone, Copy, PartialEq, Eq, Hash, Structural)]
pub struct Ipv4Address {
    /// The address as a 32-bit integer, most significant octet first.
    pub bits: u32,
}

impl Ipv4Address {
    /// Build an address from its four dotted-quad octets.
    pub fn new(a: u8, b: u8, c: u8, d: u8) -> (r: Ipv4Address)
        ensures
            r == Ipv4Address::spec_new(a, b, c, d),
    {
        Ipv4Address {
            bits: (a as u32) * 0x1000000 + (b as u32) * 0x10000 + (c as u32) * 0x100 + (d as u32),
        }
    }

    /// The address with octets `a.b.c.d`.
    pub open spec fn spec_new(a: u8, b: u8, c: u8, d: u8) -> Ipv4Address {
        Ipv4Address { bits: (a * 0x1000000 + b * 0x10000 + c * 0x100 + d) as u32 }
    }
}

/// An IPv6 address, stored as its 128-bit big-endian bit pattern.
#[derive(Debug, Clone, Copy, PartialEq, Eq, Hash, Structural)]
pub struct Ipv6Address {
    /// The address as a 128-bit integer, most significant octet first.
    pub bits: u128,
}

impl Ipv6Address {
    /// Build an address from its eight 16-bit segments, as written in
    /// colon-separated notation.
    pub fn new(s0: u16, s1: u16, s2: u16, s3: u16, s4: u16, s5: u16, s6: u16, s7: u16) -> (r:
        Ipv6Address)
        ensures
            r == Ipv6Address::spec_new(s0, s1, s2, s3, s4, s5, s6, s7),
    {
        let hi: u128 = (s0 as u128) * 0x1000000000000 + (s1 as u128) * 0x100000000 + (s2 as u128)
            * 0x10000 + (s3 as u128);
        let lo: u128 = (s4 as u128) * 0x1000000000000 + (s5 as u128) * 0x100000000 + (s6 as u128)
            * 0x10000 + (s7 as u128);
        Ipv6Address { bits: hi * 0x10000000000000000 + lo }
    }

    /// The address with segments `s0:s1:s2:s3:s4:s5:s6:s7`.
    pub open spec fn spec_new(
        s0: u16,
        s1: u16,
        s2: u16,
        s3: u16,
        s4: u16,
        s5: u16,
        s6: u16,
        s7: u16,
    ) -> Ipv6Address {
        Ipv6Address {
            bits: ((s0 * 0x1000000000000 + s1 * 0x100000000 + s2 * 0x10000 + s3)
                * 0x10000000000000000 + (s4 * 0x1000000000000 + s5 * 0x100000000 + s6 * 0x10000
                + s7)) as u128,
        }
    }
}

/// An IPv4 or IPv6 address, as selected by an AFI.
#[derive(Debug, Clone, Copy, PartialEq, Eq, Hash, Structural)]
pub enum IpAddress {
    /// An IPv4 address
    V4(Ipv4Address),
    /// An IPv6 address
    V6(Ipv6Address),
}

impl IpAddress {
    /// Whether this is an IPv6 address.
    pub fn is_ipv6(&self) -> (r: bool)
        ensures
            r == (self is V6),
    {
        match self {
            IpAddress::V4(_) => false,
            IpAddress::V6(_) => true,
        }
    }
}

/// The IPv4 address stored at byte offset `i` of `s`.
pub open spec fn spec_ipv4_at(s: Seq<u8>, i: int) -> Ipv4Address {
    Ipv4Address { bits: be_uint(s, i, 4) as u32 }
}

/// The IPv6 address stored at byte offset `i` of `s`.
pub open spec fn spec_ipv6_at(s: Seq<u8>, i: int) -> Ipv6Address {
    Ipv6Address { bits: be_uint(s, i, 16) as u128 }
}

/// The address of family `afi` stored at byte offset `i` of `s`.
pub open spec fn spec_ip_at(s: Seq<u8>, i: int, afi: AFI) -> IpAddress {
    match afi {
        AFI::IPV4 => IpAddress::V4(spec_ipv4_at(s, i)),
        AFI::IPV6 => IpAddress::V6(spec_ipv6_at(s, i)),
    }
}

/// Read a 4-byte IPv4 address.
pub fn read_ipv4(buf: &[u8], pos: &mut usize) -> (r: Result<Ipv4Address, MrtError>)
    requires
        *old(pos) <= buf@.len(),
    ensures
        match r {
            Ok(a) => {
                &&& *old(pos) + 4 <= buf@.len()
                &&& a == spec_ipv4_at(buf@, *old(pos) as int)
                &&& *final(pos) == *old(pos) + 4
            },
            Err(e) => {
                &&& e == MrtError::Framing
                &&& *old(pos) + 4 > buf@.len()
                &&& *final(pos) == *old(pos)
            },
        },
{
    match read_u32(buf, pos) {
        Ok(v) => Ok(Ipv4Address { bits: v }),
        Err(e) => Err(e),
    }
}

/// Read a 16-byte IPv6 address.
pub fn read_ipv6(buf: &[u8], pos: &mut usize) -> (r: Result<Ipv6Address, MrtError>)
    requires
        *old(pos) <= buf@.len(),
    ensures
        match r {
            Ok(a) => {
                &&& *old(pos) + 16 <= buf@.len()
                &&& a == spec_ipv6_at(buf@, *old(pos) as int)
                &&& *final(pos) == *old(pos) + 16
            },
            Err(e) => {
                &&& e == MrtError::Framing
                &&& *old(pos) + 16 > buf@.len()
                &&& *final(pos) == *old(pos)
            },
        },
{
    match read_u128(buf, pos) {
        Ok(v) => Ok(Ipv6Address { bits: v }),
        Err(e) => Err(e),
    }
}

/// Read an address whose width (4 or 16 bytes) is selected by `afi`.
pub fn read_ip_by_afi(buf: &[u8], pos: &mut usize, afi: &AFI) -> (r: Result<IpAddress, MrtError>)
    requires
        *old(pos) <= buf@.len(),
    ensures
        match r {
            Ok(a) => {
                &&& *old(pos) + afi.spec_size() <= buf@.len()
                &&& a == spec_ip_at(buf@, *old(pos) as int, *afi)
                &&& *final(pos) == *old(pos) + afi.spec_size()
            },
            Err(e) => {
                &&& e == MrtError::Framing
                &&& *old(pos) + afi.spec_size() > buf@.len()
                &&& *final(pos) == *old(pos)
            },
        },
{
    match afi {
        AFI::IPV4 => match read_ipv4(buf, pos) {
            Ok(a) => Ok(IpAddress::V4(a)),
            Err(e) => Err(e),
        },
        AFI::IPV6 => match read_ipv6(buf, pos) {
            Ok(a) => Ok(IpAddress::V6(a)),
            Err(e) => Err(e),
        },
    }
}

/// The result of reading and validating the 2-byte AFI code at offset `i`:
/// the code must be 1 (IPv4) or 2 (IPv6).
pub open spec fn spec_afi_at(s: Seq<u8>, i: int) -> Result<AFI, MrtError> {
    AFI::spec_from_u16(be_uint(s, i, 2) as u16)
}

/// Read a 2-byte AFI code and validate it.
pub fn read_afi(buf: &[u8], pos: &mut usize) -> (r: Result<AFI, MrtError>)
    requires
        *old(pos) <= buf@.len(),
    ensures
        match r {
            Ok(a) => {
                &&& *old(pos) + 2 <= buf@.len()
                &&& Ok::<AFI, MrtError>(a) == spec_afi_at(buf@, *old(pos) as int)
                &&& *final(pos) == *old(pos) + 2
            },
            Err(e) => {
                &&& *final(pos) <= buf@.len()
                &&& if e == MrtError::Framing {
                    *old(pos) + 2 > buf@.len() && *final(pos) == *old(pos)
                } else {
                    (*old(pos) + 2 <= buf@.len()) && Err::<AFI, MrtError>(e) == spec_afi_at(
                        buf@,
                        *old(pos) as int,
                    ) && e == MrtError::InvalidAFI && *final(pos) == *old(pos) + 2
                }
            },
        },
{
    match read_u16(buf, pos) {
        Ok(code) => AFI::from_u16(code),
        Err(e) => Err(e),
    }
}

/// The number of bytes needed to hold a prefix of `prefix_length` bits:
/// the bit length divided by 8, rounded up.
pub fn prefix_bytes_needed(prefix_length: u8) -> (r: usize)
    ensures
        r == spec_prefix_bytes_needed(prefix_length),
{
    ((prefix_length as usize) + 7) / 8
}

/// Prefix byte count: `ceil(prefix_length / 8)`.
pub open spec fn spec_prefix_bytes_needed(prefix_length: u8) -> int {
    (prefix_length + 7) / 8
}

/// Read a prefix of the given bit length, as its minimal whole-byte encoding.
pub fn read_prefix(buf: &[u8], pos: &mut usize, prefix_length: u8) -> (r: Result<
    Vec<u8>,
    MrtError,
>)
    requires
        *old(pos) <= buf@.len(),
    ensures
        match r {
            Ok(v) => {
                &&& *old(pos) + spec_prefix_bytes_needed(prefix_length) <= buf@.len()
                &&& v@ == buf@.subrange(
                    *old(pos) as int,
                    *old(pos) + spec_prefix_bytes_needed(prefix_length),
                )
                &&& *final(pos) == *old(pos) + spec_prefix_bytes_needed(prefix_length)
            },
            Err(e) => {
                &&& e == MrtError::Framing
                &&& *old(pos) + spec_prefix_bytes_needed(prefix_length) > buf@.len()
                &&& *final(pos) == *old(pos)
            },
        },
{
    let n = prefix_bytes_needed(prefix_length);
    read_bytes(buf, pos, n)
}

} // verus!
