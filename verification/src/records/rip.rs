//! RIP and RIPng MRT records (types 6 and 8).
//!
//! Both carry a remote and a local address followed by the raw routing
//! message; RIP uses IPv4 addresses, RIPng IPv6.

use vstd::prelude::*;

use crate::address::{read_ipv4, read_ipv6, spec_ipv4_at, spec_ipv6_at, Ipv4Address, Ipv6Address};
use crate::wire::{read_bytes, sat_sub, sat_sub_u32};
use crate::{decodes_to, Header, MrtError};

verus! {

/// RIP (Routing Information Protocol) record for IPv4.
#[derive(Debug, Clone, PartialEq)]
pub struct RIP {
    /// Remote peer IPv4 address
    pub remote: Ipv4Address,
    /// Local IPv4 address
    pub local: Ipv4Address,
    /// Raw RIP message bytes
    pub message: Vec<u8>,
}

/// The mathematical value of a [`RIP`] record.
pub struct RipView {
    /// Remote peer IPv4 address
    pub remote: Ipv4Address,
    /// Local IPv4 address
    pub local: Ipv4Address,
    /// Raw RIP message bytes
    pub message: Seq<u8>,
}

impl View for RIP {
    type V = RipView;

    open spec fn view(&self) -> RipView {
        RipView { remote: self.remote, local: self.local, message: self.message@ }
    }
}

/// A RIP body: two 4-byte addresses, then `length - 8` message bytes.
pub open spec fn spec_parse_rip(h: Header, body: Seq<u8>) -> Result<RipView, MrtError> {
    let msg_len = sat_sub(h.length as int, 8);
    if body.len() < 8 + msg_len {
        Err(MrtError::Framing)
    } else {
        Ok(
            RipView {
                remote: spec_ipv4_at(body, 0),
                local: spec_ipv4_at(body, 4),
                message: body.subrange(8, 8 + msg_len),
            },
        )
    }
}

impl RIP {
    /// Parse a RIP record from its body bytes.
    pub fn parse(header: &Header, body: &[u8]) -> (r: Result<RIP, MrtError>)
        ensures
            decodes_to(r, spec_parse_rip(*header, body@)),
    {
        let mut pos: usize = 0;
        let remote = match read_ipv4(body, &mut pos) {
            Ok(a) => a,
            Err(e) => {
                return Err(e);
            },
        };
        let local = match read_ipv4(body, &mut pos) {
            Ok(a) => a,
            Err(e) => {
                return Err(e);
            },
        };
        let msg_len = sat_sub_u32(header.length, 8);
        let message = match read_bytes(body, &mut pos, msg_len as usize) {
            Ok(v) => v,
            Err(e) => {
                return Err(e);
            },
        };
        Ok(RIP { remote, local, message })
    }
}

/// RIPng (RIP next generation) record for IPv6.
#[derive(Debug, Clone, PartialEq)]
pub struct RIPNG {
    /// Remote peer IPv6 address
    pub remote: Ipv6Address,
    /// Local IPv6 address
    pub local: Ipv6Address,
    /// Raw RIPng message bytes
    pub message: Vec<u8>,
}

/// The mathematical value of a [`RIPNG`] record.
pub struct RipngView {
    /// Remote peer IPv6 address
    pub remote: Ipv6Address,
    /// Local IPv6 address
    pub local: Ipv6Address,
    /// Raw RIPng message bytes
    pub message: Seq<u8>,
}

impl View for RIPNG {
    type V = RipngView;

    open spec fn view(&self) -> RipngView {
        RipngView { remote: self.remote, local: self.local, message: self.message@ }
    }
}

/// A RIPng body: two 16-byte addresses, then `length - 32` message bytes.
pub open spec fn spec_parse_ripng(h: Header, body: Seq<u8>) -> Result<RipngView, MrtError> {
    let msg_len = sat_sub(h.length as int, 32);
    if body.len() < 32 + msg_len {
        Err(MrtError::Framing)
    } else {
        Ok(
            RipngView {
                remote: spec_ipv6_at(body, 0),
                local: spec_ipv6_at(body, 16),
                message: body.subrange(32, 32 + msg_len),
            },
        )
    }
}

impl RIPNG {
    /// Parse a RIPng record from its body bytes.
    pub fn parse(header: &Header, body: &[u8]) -> (r: Result<RIPNG, MrtError>)
        ensures
            decodes_to(r, spec_parse_ripng(*header, body@)),
    {
        let mut pos: usize = 0;
        let remote = match read_ipv6(body, &mut pos) {
            Ok(a) => a,
            Err(e) => {
                return Err(e);
            },
        };
        let local = match read_ipv6(body, &mut pos) {
            Ok(a) => a,
            Err(e) => {
                return Err(e);
            },
        };
        let msg_len = sat_sub_u32(header.length, 32);
        let message = match read_bytes(body, &mut pos, msg_len as usize) {
            Ok(v) => v,
            Err(e) => {
                return Err(e);
            },
        };
        Ok(RIPNG { remote, local, message })
    }
}

} // verus!
