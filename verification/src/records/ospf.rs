//! OSPF MRT records (types 11, 48 and 49).
//!
//! OSPFv2 carries IPv4 remote/local addresses; OSPFv3 starts with an AFI
//! selector that fixes the width of both addresses.

use vstd::prelude::*;

use crate::address::{
    read_ip_by_afi, read_ipv4, spec_afi_at, spec_ip_at, spec_ipv4_at, IpAddress, Ipv4Address,
};
use crate::wire::{read_bytes, sat_sub, sat_sub_u32};
use crate::{decodes_to, Header, MrtError};

verus! {

/// OSPFv2 protocol record.
#[derive(Debug, Clone, PartialEq)]
pub struct OSPFv2 {
    /// Remote peer IPv4 address
    pub remote: Ipv4Address,
    /// Local IPv4 address
    pub local: Ipv4Address,
    /// Raw OSPF message bytes
    pub message: Vec<u8>,
}

/// The mathematical value of an [`OSPFv2`] record.
pub struct Ospfv2View {
    /// Remote peer IPv4 address
    pub remote: Ipv4Address,
    /// Local IPv4 address
    pub local: Ipv4Address,
    /// Raw OSPF message bytes
    pub message: Seq<u8>,
}

impl View for OSPFv2 {
    type V = Ospfv2View;

    open spec fn view(&self) -> Ospfv2View {
        Ospfv2View { remote: self.remote, local: self.local, message: self.message@ }
    }
}

/// An OSPFv2 body: two 4-byte addresses, then `length - 8` message bytes.
pub open spec fn spec_parse_ospfv2(h: Header, body: Seq<u8>) -> Result<Ospfv2View, MrtError> {
    let msg_len = sat_sub(h.length as int, 8);
    if body.len() < 8 + msg_len {
        Err(MrtError::Framing)
    } else {
        Ok(
            Ospfv2View {
                remote: spec_ipv4_at(body, 0),
                local: spec_ipv4_at(body, 4),
                message: body.subrange(8, 8 + msg_len),
            },
        )
    }
}

impl OSPFv2 {
    /// Parse an OSPFv2 record from its body bytes.
    pub fn parse(header: &Header, body: &[u8]) -> (r: Result<OSPFv2, MrtError>)
        ensures
            decodes_to(r, spec_parse_ospfv2(*header, body@)),
    {
        let mut pos: usize = 0;
        let remote = match read_ipv4(body, &mut pos) {
            Ok(a) => a,
            Err(e) => {
                return Err(e);
            },
        };
        let local = match read_ipv4(body, &mut pos) {
            Ok(a) => a,
            Err(e) => {
                return Err(e);
            },
        };
        let msg_len = sat_sub_u32(header.length, 8);
        let message = match read_bytes(body, &mut pos, msg_len as usize) {
            Ok(v) => v,
            Err(e) => {
                return Err(e);
            },
        };
        Ok(OSPFv2 { remote, local, message })
    }
}

/// OSPFv3 protocol record; addresses may be IPv4 or IPv6.
#[derive(Debug, Clone, PartialEq)]
pub struct OSPFv3 {
    /// Remote peer IP address (IPv4 or IPv6)
    pub remote: IpAddress,
    /// Local IP address (IPv4 or IPv6)
    pub local: IpAddress,
    /// Raw OSPF message bytes
    pub message: Vec<u8>,
}

/// The mathematical value of an [`OSPFv3`] record.
pub struct Ospfv3View {
    /// Remote peer IP address (IPv4 or IPv6)
    pub remote: IpAddress,
    /// Local IP address (IPv4 or IPv6)
    pub local: IpAddress,
    /// Raw OSPF message bytes
    pub message: Seq<u8>,
}

impl View for OSPFv3 {
    type V = Ospfv3View;

    open spec fn view(&self) -> Ospfv3View {
        Ospfv3View { remote: self.remote, local: self.local, message: self.message@ }
    }
}

/// An OSPFv3 body: a 2-byte AFI selector, two addresses of the selected
/// width, then the remainder of the effective body length (the header
/// `length`, less 4 for the extended-timestamp type 49) as message bytes.
pub open spec fn spec_parse_ospfv3(h: Header, body: Seq<u8>) -> Result<Ospfv3View, MrtError> {
    if body.len() < 2 {
        Err(MrtError::Framing)
    } else {
        match spec_afi_at(body, 0) {
            Err(e) => Err(e),
            Ok(afi) => {
                let w = afi.spec_size() as int;
                let body_length = if h.record_type == 49 {
                    sat_sub(h.length as int, 4)
                } else {
                    h.length as int
                };
                let msg_len = sat_sub(body_length, 2 * w + 2);
                if body.len() < 2 + 2 * w + msg_len {
                    Err(MrtError::Framing)
                } else {
                    Ok(
                        Ospfv3View {
                            remote: spec_ip_at(body, 2, afi),
                            local: spec_ip_at(body, 2 + w, afi),
                            message: body.subrange(2 + 2 * w, 2 + 2 * w + msg_len),
                        },
                    )
                }
            },
        }
    }
}

impl OSPFv3 {
    /// Parse an OSPFv3 record from its body bytes.
    pub fn parse(header: &Header, body: &[u8]) -> (r: Result<OSPFv3, MrtError>)
        ensures
            decodes_to(r, spec_parse_ospfv3(*header, body@)),
    {
        let mut pos: usize = 0;
        let afi = match crate::address::read_afi(body, &mut pos) {
            Ok(a) => a,
            Err(e) => {
                return Err(e);
            },
        };
        let remote = match read_ip_by_afi(body, &mut pos, &afi) {
            Ok(a) => a,
            Err(e) => {
                return Err(e);
            },
        };
        let local = match read_ip_by_afi(body, &mut pos, &afi) {
            Ok(a) => a,
            Err(e) => {
                return Err(e);
            },
        };
        let body_length: u32 = if header.record_type == 49 {
            sat_sub_u32(header.length, 4)
        } else {
            header.length
        };
        let addresses_size: u32 = afi.size() * 2 + 2;
        let msg_len = sat_sub_u32(body_length, addresses_size);
        let message = match read_bytes(body, &mut pos, msg_len as usize) {
            Ok(v) => v,
            Err(e) => {
                return Err(e);
            },
        };
        Ok(OSPFv3 { remote, local, message })
    }
}

} // verus!
