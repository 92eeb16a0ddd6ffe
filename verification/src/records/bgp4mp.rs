//! BGP4MP MRT records (types 16 and 17).
//!
//! The modern BGP record format: IPv4 and IPv6 peers, 16-bit and 32-bit AS
//! numbers, and Add-Path extensions. Type 17 (BGP4MP_ET) carries an extended
//! timestamp, whose 4 bytes are part of the header `length` and are
//! subtracted before any trailing-field length is derived.

#![allow(non_camel_case_types)]

use vstd::prelude::*;

use crate::address::{
    read_afi, read_ip_by_afi, spec_afi_at, spec_ip_at, spec_prefix_bytes_needed, read_prefix,
    IpAddress,
};
use crate::wire::{be_uint, read_bytes, read_u16, read_u32, read_u8, sat_sub, sat_sub_u32};
use crate::{decodes_to, Header, MrtError};

verus! {

/// BGP4MP record: one variant per subtype.
#[derive(Debug, Clone, PartialEq)]
pub enum BGP4MP {
    /// BGP state change, 16-bit ASN (0)
    STATE_CHANGE(STATE_CHANGE),
    /// BGP message, 16-bit ASN (1)
    MESSAGE(MESSAGE),
    /// Deprecated RIB entry format (2)
    ENTRY(ENTRY),
    /// Deprecated snapshot pointer (3)
    SNAPSHOT(SNAPSHOT),
    /// BGP message, 32-bit ASN (4)
    MESSAGE_AS4(MESSAGE_AS4),
    /// BGP state change, 32-bit ASN (5)
    STATE_CHANGE_AS4(STATE_CHANGE_AS4),
    /// Local BGP message, 16-bit ASN (6)
    MESSAGE_LOCAL(MESSAGE),
    /// Local BGP message, 32-bit ASN (7)
    MESSAGE_AS4_LOCAL(MESSAGE_AS4),
    /// BGP message with Add-Path, 16-bit ASN (8)
    MESSAGE_ADDPATH(MESSAGE),
    /// BGP message with Add-Path, 32-bit ASN (9)
    MESSAGE_AS4_ADDPATH(MESSAGE_AS4),
    /// Local BGP message with Add-Path, 16-bit ASN (10)
    MESSAGE_LOCAL_ADDPATH(MESSAGE),
    /// Local BGP message with Add-Path, 32-bit ASN (11)
    MESSAGE_AS4_LOCAL_ADDPATH(MESSAGE_AS4),
}

/// The mathematical value of a [`BGP4MP`] record.
pub enum Bgp4mpView {
    /// BGP state change (16-bit ASN)
    STATE_CHANGE(STATE_CHANGE),
    /// BGP message (16-bit ASN)
    MESSAGE(MessageView),
    /// Deprecated RIB entry format
    ENTRY(EntryView),
    /// Deprecated snapshot pointer
    SNAPSHOT(SnapshotView),
    /// BGP message (32-bit ASN)
    MESSAGE_AS4(MessageAs4View),
    /// BGP state change (32-bit ASN)
    STATE_CHANGE_AS4(STATE_CHANGE_AS4),
    /// Local BGP message (16-bit ASN)
    MESSAGE_LOCAL(MessageView),
    /// Local BGP message (32-bit ASN)
    MESSAGE_AS4_LOCAL(MessageAs4View),
    /// BGP message with Add-Path (16-bit ASN)
    MESSAGE_ADDPATH(MessageView),
    /// BGP message with Add-Path (32-bit ASN)
    MESSAGE_AS4_ADDPATH(MessageAs4View),
    /// Local BGP message with Add-Path (16-bit ASN)
    MESSAGE_LOCAL_ADDPATH(MessageView),
    /// Local BGP message with Add-Path (32-bit ASN)
    MESSAGE_AS4_LOCAL_ADDPATH(MessageAs4View),
}

impl View for BGP4MP {
    type V = Bgp4mpView;

    open spec fn view(&self) -> Bgp4mpView {
        match self {
            BGP4MP::STATE_CHANGE(s) => Bgp4mpView::STATE_CHANGE(*s),
            BGP4MP::MESSAGE(m) => Bgp4mpView::MESSAGE(m@),
            BGP4MP::ENTRY(s) => Bgp4mpView::ENTRY(s@),
            BGP4MP::SNAPSHOT(s) => Bgp4mpView::SNAPSHOT(s@),
            BGP4MP::MESSAGE_AS4(m) => Bgp4mpView::MESSAGE_AS4(m@),
            BGP4MP::STATE_CHANGE_AS4(s) => Bgp4mpView::STATE_CHANGE_AS4(*s),
            BGP4MP::MESSAGE_LOCAL(m) => Bgp4mpView::MESSAGE_LOCAL(m@),
            BGP4MP::MESSAGE_AS4_LOCAL(m) => Bgp4mpView::MESSAGE_AS4_LOCAL(m@),
            BGP4MP::MESSAGE_ADDPATH(m) => Bgp4mpView::MESSAGE_ADDPATH(m@),
            BGP4MP::MESSAGE_AS4_ADDPATH(m) => Bgp4mpView::MESSAGE_AS4_ADDPATH(m@),
            BGP4MP::MESSAGE_LOCAL_ADDPATH(m) => Bgp4mpView::MESSAGE_LOCAL_ADDPATH(m@),
            BGP4MP::MESSAGE_AS4_LOCAL_ADDPATH(m) => Bgp4mpView::MESSAGE_AS4_LOCAL_ADDPATH(m@),
        }
    }
}

/// A BGP4MP body, dispatched on the header subtype. The effective body
/// length for the trailing-message subtypes is the header `length`, less 4
/// for the extended-timestamp type 17.
pub open spec fn spec_parse_bgp4mp(h: Header, body: Seq<u8>) -> Result<Bgp4mpView, MrtError> {
    let body_length = if h.record_type == 17 {
        sat_sub(h.length as int, 4)
    } else {
        h.length as int
    };
    if h.sub_type == 0 {
        match spec_parse_state_change(body) {
            Ok(s) => Ok(Bgp4mpView::STATE_CHANGE(s)),
            Err(e) => Err(e),
        }
    } else if h.sub_type == 1 {
        match spec_parse_message(body_length, body) {
            Ok(m) => Ok(Bgp4mpView::MESSAGE(m)),
            Err(e) => Err(e),
        }
    } else if h.sub_type == 2 {
        match spec_parse_entry(body) {
            Ok(s) => Ok(Bgp4mpView::ENTRY(s)),
            Err(e) => Err(e),
        }
    } else if h.sub_type == 3 {
        match spec_parse_snapshot(body_length, body) {
            Ok(s) => Ok(Bgp4mpView::SNAPSHOT(s)),
            Err(e) => Err(e),
        }
    } else if h.sub_type == 4 {
        match spec_parse_message_as4(body_length, body) {
            Ok(m) => Ok(Bgp4mpView::MESSAGE_AS4(m)),
            Err(e) => Err(e),
        }
    } else if h.sub_type == 5 {
        match spec_parse_state_change_as4(body) {
            Ok(s) => Ok(Bgp4mpView::STATE_CHANGE_AS4(s)),
            Err(e) => Err(e),
        }
    } else if h.sub_type == 6 {
        match spec_parse_message(body_length, body) {
            Ok(m) => Ok(Bgp4mpView::MESSAGE_LOCAL(m)),
            Err(e) => Err(e),
        }
    } else if h.sub_type == 7 {
        match spec_parse_message_as4(body_length, body) {
            Ok(m) => Ok(Bgp4mpView::MESSAGE_AS4_LOCAL(m)),
            Err(e) => Err(e),
        }
    } else if h.sub_type == 8 {
        match spec_parse_message(body_length, body) {
            Ok(m) => Ok(Bgp4mpView::MESSAGE_ADDPATH(m)),
            Err(e) => Err(e),
        }
    } else if h.sub_type == 9 {
        match spec_parse_message_as4(body_length, body) {
            Ok(m) => Ok(Bgp4mpView::MESSAGE_AS4_ADDPATH(m)),
            Err(e) => Err(e),
        }
    } else if h.sub_type == 10 {
        match spec_parse_message(body_length, body) {
            Ok(m) => Ok(Bgp4mpView::MESSAGE_LOCAL_ADDPATH(m)),
            Err(e) => Err(e),
        }
    } else if h.sub_type == 11 {
        match spec_parse_message_as4(body_length, body) {
            Ok(m) => Ok(Bgp4mpView::MESSAGE_AS4_LOCAL_ADDPATH(m)),
            Err(e) => Err(e),
        }
    } else {
        Err(MrtError::UnsupportedSubtype)
    }
}

impl BGP4MP {
    /// Parse a BGP4MP record from its body bytes, dispatching on the
    /// subtype.
    pub fn parse(header: &Header, body: &[u8]) -> (r: Result<BGP4MP, MrtError>)
        ensures
            decodes_to(r, spec_parse_bgp4mp(*header, body@)),
    {
        let body_length: u32 = if header.record_type == 17 {
            sat_sub_u32(header.length, 4)
        } else {
            header.length
        };
        match header.sub_type {
            0 => match STATE_CHANGE::parse(body) {
                Ok(s) => Ok(BGP4MP::STATE_CHANGE(s)),
                Err(e) => Err(e),
            },
            1 => match MESSAGE::parse(body_length, body) {
                Ok(m) => Ok(BGP4MP::MESSAGE(m)),
                Err(e) => Err(e),
            },
            2 => match ENTRY::parse(body_length, body) {
                Ok(s) => Ok(BGP4MP::ENTRY(s)),
                Err(e) => Err(e),
            },
            3 => match SNAPSHOT::parse(body_length, body) {
                Ok(s) => Ok(BGP4MP::SNAPSHOT(s)),
                Err(e) => Err(e),
            },
            4 => match MESSAGE_AS4::parse(body_length, body) {
                Ok(m) => Ok(BGP4MP::MESSAGE_AS4(m)),
                Err(e) => Err(e),
            },
            5 => match STATE_CHANGE_AS4::parse(body) {
                Ok(s) => Ok(BGP4MP::STATE_CHANGE_AS4(s)),
                Err(e) => Err(e),
            },
            6 => match MESSAGE::parse(body_length, body) {
                Ok(m) => Ok(BGP4MP::MESSAGE_LOCAL(m)),
                Err(e) => Err(e),
            },
            7 => match MESSAGE_AS4::parse(body_length, body) {
                Ok(m) => Ok(BGP4MP::MESSAGE_AS4_LOCAL(m)),
                Err(e) => Err(e),
            },
            8 => match MESSAGE::parse(body_length, body) {
                Ok(m) => Ok(BGP4MP::MESSAGE_ADDPATH(m)),
                Err(e) => Err(e),
            },
            9 => match MESSAGE_AS4::parse(body_length, body) {
                Ok(m) => Ok(BGP4MP::MESSAGE_AS4_ADDPATH(m)),
                Err(e) => Err(e),
            },
            10 => match MESSAGE::parse(body_length, body) {
                Ok(m) => Ok(BGP4MP::MESSAGE_LOCAL_ADDPATH(m)),
                Err(e) => Err(e),
            },
            11 => match MESSAGE_AS4::parse(body_length, body) {
                Ok(m) => Ok(BGP4MP::MESSAGE_AS4_LOCAL_ADDPATH(m)),
                Err(e) => Err(e),
            },
            _ => Err(MrtError::UnsupportedSubtype),
        }
    }
}

/// BGP state change with 16-bit AS numbers.
#[derive(Debug, Clone, Copy, PartialEq, Eq, Structural)]
pub struct STATE_CHANGE {
    /// Peer AS number (16-bit)
    pub peer_as: u16,
    /// Local AS number (16-bit)
    pub local_as: u16,
    /// Interface index
    pub interface: u16,
    /// Peer IP address (IPv4 or IPv6)
    pub peer_address: IpAddress,
    /// Local IP address (IPv4 or IPv6)
    pub local_address: IpAddress,
    /// Previous BGP FSM state
    pub old_state: u16,
    /// New BGP FSM state
    pub new_state: u16,
}

/// A BGP4MP STATE_CHANGE body: peer AS (2), local AS (2), interface (2),
/// AFI (2), two addresses of the selected width, old state (2), new state
/// (2).
pub open spec fn spec_parse_state_change(body: Seq<u8>) -> Result<STATE_CHANGE, MrtError> {
    if body.len() < 8 {
        Err(MrtError::Framing)
    } else {
        match spec_afi_at(body, 6) {
            Err(e) => Err(e),
            Ok(afi) => {
                let w = afi.spec_size() as int;
                if body.len() < 8 + 2 * w + 4 {
                    Err(MrtError::Framing)
                } else {
                    Ok(
                        STATE_CHANGE {
                            peer_as: be_uint(body, 0, 2) as u16,
                            local_as: be_uint(body, 2, 2) as u16,
                            interface: be_uint(body, 4, 2) as u16,
                            peer_address: spec_ip_at(body, 8, afi),
                            local_address: spec_ip_at(body, 8 + w, afi),
                            old_state: be_uint(body, 8 + 2 * w, 2) as u16,
                            new_state: be_uint(body, 8 + 2 * w + 2, 2) as u16,
                        },
                    )
                }
            },
        }
    }
}

impl STATE_CHANGE {
    /// Parse a STATE_CHANGE record from its body bytes.
    pub fn parse(body: &[u8]) -> (r: Result<STATE_CHANGE, MrtError>)
        ensures
            match r {
                Ok(s) => spec_parse_state_change(body@) == Ok::<STATE_CHANGE, MrtError>(s),
                Err(e) => spec_parse_state_change(body@) == Err::<STATE_CHANGE, MrtError>(e),
            },
    {
        let mut pos: usize = 0;
        let peer_as = match read_u16(body, &mut pos) {
            Ok(v) => v,
            Err(e) => {
                return Err(e);
            },
        };
        let local_as = match read_u16(body, &mut pos) {
            Ok(v) => v,
            Err(e) => {
                return Err(e);
            },
        };
        let interface = match read_u16(body, &mut pos) {
            Ok(v) => v,
            Err(e) => {
                return Err(e);
            },
        };
        let afi = match read_afi(body, &mut pos) {
            Ok(a) => a,
            Err(e) => {
                return Err(e);
            },
        };
        let peer_address = match read_ip_by_afi(body, &mut pos, &afi) {
            Ok(a) => a,
            Err(e) => {
                return Err(e);
            },
        };
        let local_address = match read_ip_by_afi(body, &mut pos, &afi) {
            Ok(a) => a,
            Err(e) => {
                return Err(e);
            },
        };
        let old_state = match read_u16(body, &mut pos) {
            Ok(v) => v,
            Err(e) => {
                return Err(e);
            },
        };
        let new_state = match read_u16(body, &mut pos) {
            Ok(v) => v,
            Err(e) => {
                return Err(e);
            },
        };
        Ok(
            STATE_CHANGE {
                peer_as,
                local_as,
                interface,
                peer_address,
                local_address,
                old_state,
                new_state,
            },
        )
    }
}

/// BGP message with 16-bit AS numbers.
#[derive(Debug, Clone, PartialEq)]
pub struct MESSAGE {
    /// Peer AS number (16-bit)
    pub peer_as: u16,
    /// Local AS number (16-bit)
    pub local_as: u16,
    /// Interface index
    pub interface: u16,
    /// Peer IP address (IPv4 or IPv6)
    pub peer_address: IpAddress,
    /// Local IP address (IPv4 or IPv6)
    pub local_address: IpAddress,
    /// Raw BGP message bytes
    pub message: Vec<u8>,
}

/// The mathematical value of a [`MESSAGE`] record.
pub struct MessageView {
    /// Peer AS number (16-bit)
    pub peer_as: u16,
    /// Local AS number (16-bit)
    pub local_as: u16,
    /// Interface index
    pub interface: u16,
    /// Peer IP address (IPv4 or IPv6)
    pub peer_address: IpAddress,
    /// Local IP address (IPv4 or IPv6)
    pub local_address: IpAddress,
    /// Raw BGP message bytes
    pub message: Seq<u8>,
}

impl View for MESSAGE {
    type V = MessageView;

    open spec fn view(&self) -> MessageView {
        MessageView {
            peer_as: self.peer_as,
            local_as: self.local_as,
            interface: self.interface,
            peer_address: self.peer_address,
            local_address: self.local_address,
            message: self.message@,
        }
    }
}

/// A BGP4MP MESSAGE body: peer AS (2), local AS (2), interface (2), AFI
/// (2), two addresses of width `w`, then `body_length - (8 + 2w)` message
/// bytes.
pub open spec fn spec_parse_message(body_length: int, body: Seq<u8>) -> Result<
    MessageView,
    MrtError,
> {
    if body.len() < 8 {
        Err(MrtError::Framing)
    } else {
        match spec_afi_at(body, 6) {
            Err(e) => Err(e),
            Ok(afi) => {
                let w = afi.spec_size() as int;
                let msg_len = sat_sub(body_length, 8 + 2 * w);
                if body.len() < 8 + 2 * w + msg_len {
                    Err(MrtError::Framing)
                } else {
                    Ok(
                        MessageView {
                            peer_as: be_uint(body, 0, 2) as u16,
                            local_as: be_uint(body, 2, 2) as u16,
                            interface: be_uint(body, 4, 2) as u16,
                            peer_address: spec_ip_at(body, 8, afi),
                            local_address: spec_ip_at(body, 8 + w, afi),
                            message: body.subrange(8 + 2 * w, 8 + 2 * w + msg_len),
                        },
                    )
                }
            },
        }
    }
}

impl MESSAGE {
    /// Parse a MESSAGE record from its body bytes and effective body
    /// length.
    pub fn parse(body_length: u32, body: &[u8]) -> (r: Result<MESSAGE, MrtError>)
        ensures
            decodes_to(r, spec_parse_message(body_length as int, body@)),
    {
        let mut pos: usize = 0;
        let peer_as = match read_u16(body, &mut pos) {
            Ok(v) => v,
            Err(e) => {
                return Err(e);
            },
        };
        let local_as = match read_u16(body, &mut pos) {
            Ok(v) => v,
            Err(e) => {
                return Err(e);
            },
        };
        let interface = match read_u16(body, &mut pos) {
            Ok(v) => v,
            Err(e) => {
                return Err(e);
            },
        };
        let afi = match read_afi(body, &mut pos) {
            Ok(a) => a,
            Err(e) => {
                return Err(e);
            },
        };
        let peer_address = match read_ip_by_afi(body, &mut pos, &afi) {
            Ok(a) => a,
            Err(e) => {
                return Err(e);
            },
        };
        let local_address = match read_ip_by_afi(body, &mut pos, &afi) {
            Ok(a) => a,
            Err(e) => {
                return Err(e);
            },
        };
        let header_size: u32 = 8 + afi.size() * 2;
        let msg_len = sat_sub_u32(body_length, header_size);
        let message = match read_bytes(body, &mut pos, msg_len as usize) {
            Ok(v) => v,
            Err(e) => {
                return Err(e);
            },
        };
        Ok(MESSAGE { peer_as, local_as, interface, peer_address, local_address, message })
    }
}

/// BGP message with 32-bit AS numbers.
#[derive(Debug, Clone, PartialEq)]
pub struct MESSAGE_AS4 {
    /// Peer AS number (32-bit)
    pub peer_as: u32,
    /// Local AS number (32-bit)
    pub local_as: u32,
    /// Interface index
    pub interface: u16,
    /// Peer IP address (IPv4 or IPv6)
    pub peer_address: IpAddress,
    /// Local IP address (IPv4 or IPv6)
    pub local_address: IpAddress,
    /// Raw BGP message bytes
    pub message: Vec<u8>,
}

/// The mathematical value of a [`MESSAGE_AS4`] record.
pub struct MessageAs4View {
    /// Peer AS number (32-bit)
    pub peer_as: u32,
    /// Local AS number (32-bit)
    pub local_as: u32,
    /// Interface index
    pub interface: u16,
    /// Peer IP address (IPv4 or IPv6)
    pub peer_address: IpAddress,
    /// Local IP address (IPv4 or IPv6)
    pub local_address: IpAddress,
    /// Raw BGP message bytes
    pub message: Seq<u8>,
}

impl View for MESSAGE_AS4 {
    type V = MessageAs4View;

    open spec fn view(&self) -> MessageAs4View {
        MessageAs4View {
            peer_as: self.peer_as,
            local_as: self.local_as,
            interface: self.interface,
            peer_address: self.peer_address,
            local_address: self.local_address,
            message: self.message@,
        }
    }
}

/// A BGP4MP MESSAGE_AS4 body: peer AS (4), local AS (4), interface (2),
/// AFI (2), two addresses of width `w`, then `body_length - (12 + 2w)`
/// message bytes.
pub open spec fn spec_parse_message_as4(body_length: int, body: Seq<u8>) -> Result<
    MessageAs4View,
    MrtError,
> {
    if body.len() < 12 {
        Err(MrtError::Framing)
    } else {
        match spec_afi_at(body, 10) {
            Err(e) => Err(e),
            Ok(afi) => {
                let w = afi.spec_size() as int;
                let msg_len = sat_sub(body_length, 12 + 2 * w);
                if body.len() < 12 + 2 * w + msg_len {
                    Err(MrtError::Framing)
                } else {
                    Ok(
                        MessageAs4View {
                            peer_as: be_uint(body, 0, 4) as u32,
                            local_as: be_uint(body, 4, 4) as u32,
                            interface: be_uint(body, 8, 2) as u16,
                            peer_address: spec_ip_at(body, 12, afi),
                            local_address: spec_ip_at(body, 12 + w, afi),
                            message: body.subrange(12 + 2 * w, 12 + 2 * w + msg_len),
                        },
                    )
                }
            },
        }
    }
}

impl MESSAGE_AS4 {
    /// Parse a MESSAGE_AS4 record from its body bytes and effective body
    /// length.
    pub fn parse(body_length: u32, body: &[u8]) -> (r: Result<MESSAGE_AS4, MrtError>)
        ensures
            decodes_to(r, spec_parse_message_as4(body_length as int, body@)),
    {
        let mut pos: usize = 0;
        let peer_as = match read_u32(body, &mut pos) {
            Ok(v) => v,
            Err(e) => {
                return Err(e);
            },
        };
        let local_as = match read_u32(body, &mut pos) {
            Ok(v) => v,
            Err(e) => {
                return Err(e);
            },
        };
        let interface = match read_u16(body, &mut pos) {
            Ok(v) => v,
            Err(e) => {
                return Err(e);
            },
        };
        let afi = match read_afi(body, &mut pos) {
            Ok(a) => a,
            Err(e) => {
                return Err(e);
            },
        };
        let peer_address = match read_ip_by_afi(body, &mut pos, &afi) {
            Ok(a) => a,
            Err(e) => {
                return Err(e);
            },
        };
        let local_address = match read_ip_by_afi(body, &mut pos, &afi) {
            Ok(a) => a,
            Err(e) => {
                return Err(e);
            },
        };
        let header_size: u32 = 12 + afi.size() * 2;
        let msg_len = sat_sub_u32(body_length, header_size);
        let message = match read_bytes(body, &mut pos, msg_len as usize) {
            Ok(v) => v,
            Err(e) => {
                return Err(e);
            },
        };
        Ok(MESSAGE_AS4 { peer_as, local_as, interface, peer_address, local_address, message })
    }
}

/// BGP state change with 32-bit AS numbers.
#[derive(Debug, Clone, Copy, PartialEq, Eq, Structural)]
pub struct STATE_CHANGE_AS4 {
    /// Peer AS number (32-bit)
    pub peer_as: u32,
    /// Local AS number (32-bit)
    pub local_as: u32,
    /// Interface index
    pub interface: u16,
    /// Peer IP address (IPv4 or IPv6)
    pub peer_address: IpAddress,
    /// Local IP address (IPv4 or IPv6)
    pub local_address: IpAddress,
    /// Previous BGP FSM state
    pub old_state: u16,
    /// New BGP FSM state
    pub new_state: u16,
}

/// A BGP4MP STATE_CHANGE_AS4 body: peer AS (4), local AS (4), interface
/// (2), AFI (2), two addresses of the selected width, old state (2), new
/// state (2).
pub open spec fn spec_parse_state_change_as4(body: Seq<u8>) -> Result<STATE_CHANGE_AS4, MrtError> {
    if body.len() < 12 {
        Err(MrtError::Framing)
    } else {
        match spec_afi_at(body, 10) {
            Err(e) => Err(e),
            Ok(afi) => {
                let w = afi.spec_size() as int;
                if body.len() < 12 + 2 * w + 4 {
                    Err(MrtError::Framing)
                } else {
                    Ok(
                        STATE_CHANGE_AS4 {
                            peer_as: be_uint(body, 0, 4) as u32,
                            local_as: be_uint(body, 4, 4) as u32,
                            interface: be_uint(body, 8, 2) as u16,
                            peer_address: spec_ip_at(body, 12, afi),
                            local_address: spec_ip_at(body, 12 + w, afi),
                            old_state: be_uint(body, 12 + 2 * w, 2) as u16,
                            new_state: be_uint(body, 12 + 2 * w + 2, 2) as u16,
                        },
                    )
                }
            },
        }
    }
}

impl STATE_CHANGE_AS4 {
    /// Parse a STATE_CHANGE_AS4 record from its body bytes.
    pub fn parse(body: &[u8]) -> (r: Result<STATE_CHANGE_AS4, MrtError>)
        ensures
            match r {
                Ok(s) => spec_parse_state_change_as4(body@) == Ok::<STATE_CHANGE_AS4, MrtError>(s),
                Err(e) => spec_parse_state_change_as4(body@) == Err::<STATE_CHANGE_AS4, MrtError>(
                    e,
                ),
            },
    {
        let mut pos: usize = 0;
        let peer_as = match read_u32(body, &mut pos) {
            Ok(v) => v,
            Err(e) => {
                return Err(e);
            },
        };
        let local_as = match read_u32(body, &mut pos) {
            Ok(v) => v,
            Err(e) => {
                return Err(e);
            },
        };
        let interface = match read_u16(body, &mut pos) {
            Ok(v) => v,
            Err(e) => {
                return Err(e);
            },
        };
        let afi = match read_afi(body, &mut pos) {
            Ok(a) => a,
            Err(e) => {
                return Err(e);
            },
        };
        let peer_address = match read_ip_by_afi(body, &mut pos, &afi) {
            Ok(a) => a,
            Err(e) => {
                return Err(e);
            },
        };
        let local_address = match read_ip_by_afi(body, &mut pos, &afi) {
            Ok(a) => a,
            Err(e) => {
                return Err(e);
            },
        };
        let old_state = match read_u16(body, &mut pos) {
            Ok(v) => v,
            Err(e) => {
                return Err(e);
            },
        };
        let new_state = match read_u16(body, &mut pos) {
            Ok(v) => v,
            Err(e) => {
                return Err(e);
            },
        };
        Ok(
            STATE_CHANGE_AS4 {
                peer_as,
                local_as,
                interface,
                peer_address,
                local_address,
                old_state,
                new_state,
            },
        )
    }
}

/// Deprecated snapshot pointer.
#[derive(Debug, Clone, PartialEq)]
pub struct SNAPSHOT {
    /// View number for multi-view recordings
    pub view_number: u16,
    /// Filename (NULL-terminated in wire format)
    pub filename: Vec<u8>,
}

/// The mathematical value of a [`SNAPSHOT`] record.
pub struct SnapshotView {
    /// View number for multi-view recordings
    pub view_number: u16,
    /// Filename bytes
    pub filename: Seq<u8>,
}

impl View for SNAPSHOT {
    type V = SnapshotView;

    open spec fn view(&self) -> SnapshotView {
        SnapshotView { view_number: self.view_number, filename: self.filename@ }
    }
}

/// A BGP4MP SNAPSHOT body: a 2-byte view number, then `body_length - 2`
/// filename bytes.
pub open spec fn spec_parse_snapshot(body_length: int, body: Seq<u8>) -> Result<
    SnapshotView,
    MrtError,
> {
    let name_len = sat_sub(body_length, 2);
    if body.len() < 2 + name_len {
        Err(MrtError::Framing)
    } else {
        Ok(
            SnapshotView {
                view_number: be_uint(body, 0, 2) as u16,
                filename: body.subrange(2, 2 + name_len),
            },
        )
    }
}

impl SNAPSHOT {
    /// Parse a SNAPSHOT record from its body bytes and effective body
    /// length.
    pub fn parse(body_length: u32, body: &[u8]) -> (r: Result<SNAPSHOT, MrtError>)
        ensures
            decodes_to(r, spec_parse_snapshot(body_length as int, body@)),
    {
        let mut pos: usize = 0;
        let view_number = match read_u16(body, &mut pos) {
            Ok(v) => v,
            Err(e) => {
                return Err(e);
            },
        };
        let name_len = sat_sub_u32(body_length, 2);
        let filename = match read_bytes(body, &mut pos, name_len as usize) {
            Ok(v) => v,
            Err(e) => {
                return Err(e);
            },
        };
        Ok(SNAPSHOT { view_number, filename })
    }
}

/// Deprecated single-prefix RIB entry format.
#[derive(Debug, Clone, PartialEq)]
pub struct ENTRY {
    /// Peer AS number (16-bit)
    pub peer_as: u16,
    /// Local AS number (16-bit)
    pub local_as: u16,
    /// Interface index
    pub interface: u16,
    /// Peer IP address
    pub peer_address: IpAddress,
    /// Local IP address
    pub local_address: IpAddress,
    /// View number
    pub view_number: u16,
    /// Entry status
    pub status: u16,
    /// Time of last change (UNIX timestamp)
    pub time_last_change: u32,
    /// Next hop address
    pub next_hop: IpAddress,
    /// Address family identifier of the prefix
    pub afi: u16,
    /// Subsequent AFI
    pub safi: u8,
    /// Prefix length in bits
    pub prefix_length: u8,
    /// Prefix bytes (variable length based on `prefix_length`)
    pub prefix: Vec<u8>,
    /// BGP path attributes
    pub attributes: Vec<u8>,
}

/// The mathematical value of an [`ENTRY`] record.
pub struct EntryView {
    /// Peer AS number (16-bit)
    pub peer_as: u16,
    /// Local AS number (16-bit)
    pub local_as: u16,
    /// Interface index
    pub interface: u16,
    /// Peer IP address
    pub peer_address: IpAddress,
    /// Local IP address
    pub local_address: IpAddress,
    /// View number
    pub view_number: u16,
    /// Entry status
    pub status: u16,
    /// Time of last change (UNIX timestamp)
    pub time_last_change: u32,
    /// Next hop address
    pub next_hop: IpAddress,
    /// Address family identifier of the prefix
    pub afi: u16,
    /// Subsequent AFI
    pub safi: u8,
    /// Prefix length in bits
    pub prefix_length: u8,
    /// Prefix bytes
    pub prefix: Seq<u8>,
    /// BGP path attributes
    pub attributes: Seq<u8>,
}

impl View for ENTRY {
    type V = EntryView;

    open spec fn view(&self) -> EntryView {
        EntryView {
            peer_as: self.peer_as,
            local_as: self.local_as,
            interface: self.interface,
            peer_address: self.peer_address,
            local_address: self.local_address,
            view_number: self.view_number,
            status: self.status,
            time_last_change: self.time_last_change,
            next_hop: self.next_hop,
            afi: self.afi,
            safi: self.safi,
            prefix_length: self.prefix_length,
            prefix: self.prefix@,
            attributes: self.attributes@,
        }
    }
}

/// A BGP4MP ENTRY body: the fixed peer fields, an AFI-selected pair of
/// addresses, view/status/time, a next-hop with its own AFI, then a
/// bit-length-derived prefix and a length-prefixed attribute blob.
pub open spec fn spec_parse_entry(body: Seq<u8>) -> Result<EntryView, MrtError> {
    if body.len() < 8 {
        Err(MrtError::Framing)
    } else {
        match spec_afi_at(body, 6) {
            Err(e) => Err(e),
            Ok(afi) => {
                let w1 = afi.spec_size() as int;
                let o1 = 8 + 2 * w1;
                if body.len() < o1 + 10 {
                    Err(MrtError::Framing)
                } else {
                    match spec_afi_at(body, o1 + 8) {
                        Err(e) => Err(e),
                        Ok(nh_afi) => {
                            let w2 = nh_afi.spec_size() as int;
                            let o2 = o1 + 10 + w2;
                            if body.len() < o2 + 4 {
                                Err(MrtError::Framing)
                            } else {
                                let plen = body[o2 + 3];
                                let o3 = o2 + 4 + spec_prefix_bytes_needed(plen);
                                if body.len() < o3 + 2 {
                                    Err(MrtError::Framing)
                                } else {
                                    let attr_len = be_uint(body, o3, 2);
                                    if body.len() < o3 + 2 + attr_len {
                                        Err(MrtError::Framing)
                                    } else {
                                        Ok(
                                            EntryView {
                                                peer_as: be_uint(body, 0, 2) as u16,
                                                local_as: be_uint(body, 2, 2) as u16,
                                                interface: be_uint(body, 4, 2) as u16,
                                                peer_address: spec_ip_at(body, 8, afi),
                                                local_address: spec_ip_at(body, 8 + w1, afi),
                                                view_number: be_uint(body, o1, 2) as u16,
                                                status: be_uint(body, o1 + 2, 2) as u16,
                                                time_last_change: be_uint(body, o1 + 4, 4) as u32,
                                                next_hop: spec_ip_at(body, o1 + 10, nh_afi),
                                                afi: be_uint(body, o2, 2) as u16,
                                                safi: body[o2 + 2],
                                                prefix_length: plen,
                                                prefix: body.subrange(o2 + 4, o3),
                                                attributes: body.subrange(
                                                    o3 + 2,
                                                    o3 + 2 + attr_len,
                                                ),
                                            },
                                        )
                                    }
                                }
                            }
                        },
                    }
                }
            },
        }
    }
}

impl ENTRY {
    /// Parse an ENTRY record from its body bytes. The effective body length
    /// plays no part: every variable field is self-describing.
    pub fn parse(_body_length: u32, body: &[u8]) -> (r: Result<ENTRY, MrtError>)
        ensures
            decodes_to(r, spec_parse_entry(body@)),
    {
        let mut pos: usize = 0;
        let peer_as = match read_u16(body, &mut pos) {
            Ok(v) => v,
            Err(e) => {
                return Err(e);
            },
        };
        let local_as = match read_u16(body, &mut pos) {
            Ok(v) => v,
            Err(e) => {
                return Err(e);
            },
        };
        let interface = match read_u16(body, &mut pos) {
            Ok(v) => v,
            Err(e) => {
                return Err(e);
            },
        };
        let afi_enum = match read_afi(body, &mut pos) {
            Ok(a) => a,
            Err(e) => {
                return Err(e);
            },
        };
        let peer_address = match read_ip_by_afi(body, &mut pos, &afi_enum) {
            Ok(a) => a,
            Err(e) => {
                return Err(e);
            },
        };
        let local_address = match read_ip_by_afi(body, &mut pos, &afi_enum) {
            Ok(a) => a,
            Err(e) => {
                return Err(e);
            },
        };
        let view_number = match read_u16(body, &mut pos) {
            Ok(v) => v,
            Err(e) => {
                return Err(e);
            },
        };
        let status = match read_u16(body, &mut pos) {
            Ok(v) => v,
            Err(e) => {
                return Err(e);
            },
        };
        let time_last_change = match read_u32(body, &mut pos) {
            Ok(v) => v,
            Err(e) => {
                return Err(e);
            },
        };
        let next_hop_afi = match read_afi(body, &mut pos) {
            Ok(a) => a,
            Err(e) => {
                return Err(e);
            },
        };
        let next_hop = match read_ip_by_afi(body, &mut pos, &next_hop_afi) {
            Ok(a) => a,
            Err(e) => {
                return Err(e);
            },
        };
        let afi = match read_u16(body, &mut pos) {
            Ok(v) => v,
            Err(e) => {
                return Err(e);
            },
        };
        let safi = match read_u8(body, &mut pos) {
            Ok(v) => v,
            Err(e) => {
                return Err(e);
            },
        };
        let prefix_length = match read_u8(body, &mut pos) {
            Ok(v) => v,
            Err(e) => {
                return Err(e);
            },
        };
        let prefix = match read_prefix(body, &mut pos, prefix_length) {
            Ok(v) => v,
            Err(e) => {
                return Err(e);
            },
        };
        let attr_len = match read_u16(body, &mut pos) {
            Ok(v) => v,
            Err(e) => {
                return Err(e);
            },
        };
        let attributes = match read_bytes(body, &mut pos, attr_len as usize) {
            Ok(v) => v,
            Err(e) => {
                return Err(e);
            },
        };
        Ok(
            ENTRY {
                peer_as,
                local_as,
                interface,
                peer_address,
                local_address,
                view_number,
                status,
                time_last_change,
                next_hop,
                afi,
                safi,
                prefix_length,
                prefix,
                attributes,
            },
        )
    }
}

} // verus!
