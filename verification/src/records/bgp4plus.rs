//! Legacy BGP4+ MRT records (types 9 and 10).
//!
//! The deprecated BGP4+ record types: IPv6 peers with 16-bit AS numbers.
//! Modern BGP data uses the `bgp4mp` family instead.

#![allow(non_camel_case_types)]

use vstd::prelude::*;

use crate::address::{read_ipv6, spec_ipv6_at, Ipv6Address};
use crate::wire::{be_uint, read_bytes, read_u16, sat_sub, sat_sub_u32};
use crate::{decodes_to, Header, MrtError};

verus! {

/// Legacy BGP4+ record for IPv6 peers: one variant per subtype.
#[derive(Debug, Clone, PartialEq)]
pub enum BGP4PLUS {
    /// Null subtype (0)
    NULL,
    /// BGP UPDATE message (1)
    UPDATE(MESSAGE),
    /// Preference update, reserved (2)
    PREF_UPDATE,
    /// BGP state change notification (3)
    STATE_CHANGE(STATE_CHANGE),
    /// RIB sync record (4)
    SYNC(SYNC),
    /// BGP OPEN message (5)
    OPEN(MESSAGE),
    /// BGP NOTIFICATION message (6)
    NOTIFY(MESSAGE),
    /// BGP KEEPALIVE message (7)
    KEEPALIVE(MESSAGE),
}

/// The mathematical value of a [`BGP4PLUS`] record.
pub enum Bgp4plusView {
    /// Null subtype
    NULL,
    /// BGP UPDATE message
    UPDATE(MessageView),
    /// Preference update (reserved)
    PREF_UPDATE,
    /// BGP state change notification
    STATE_CHANGE(STATE_CHANGE),
    /// RIB sync record
    SYNC(SyncView),
    /// BGP OPEN message
    OPEN(MessageView),
    /// BGP NOTIFICATION message
    NOTIFY(MessageView),
    /// BGP KEEPALIVE message
    KEEPALIVE(MessageView),
}

impl View for BGP4PLUS {
    type V = Bgp4plusView;

    open spec fn view(&self) -> Bgp4plusView {
        match self {
            BGP4PLUS::NULL => Bgp4plusView::NULL,
            BGP4PLUS::UPDATE(m) => Bgp4plusView::UPDATE(m@),
            BGP4PLUS::PREF_UPDATE => Bgp4plusView::PREF_UPDATE,
            BGP4PLUS::STATE_CHANGE(s) => Bgp4plusView::STATE_CHANGE(*s),
            BGP4PLUS::SYNC(s) => Bgp4plusView::SYNC(s@),
            BGP4PLUS::OPEN(m) => Bgp4plusView::OPEN(m@),
            BGP4PLUS::NOTIFY(m) => Bgp4plusView::NOTIFY(m@),
            BGP4PLUS::KEEPALIVE(m) => Bgp4plusView::KEEPALIVE(m@),
        }
    }
}

/// A BGP4+ body, dispatched on the header subtype.
pub open spec fn spec_parse_bgp4plus(h: Header, body: Seq<u8>) -> Result<Bgp4plusView, MrtError> {
    if h.sub_type == 0 {
        Ok(Bgp4plusView::NULL)
    } else if h.sub_type == 1 {
        match spec_parse_message(h, body) {
            Ok(m) => Ok(Bgp4plusView::UPDATE(m)),
            Err(e) => Err(e),
        }
    } else if h.sub_type == 2 {
        Ok(Bgp4plusView::PREF_UPDATE)
    } else if h.sub_type == 3 {
        match spec_parse_state_change(body) {
            Ok(s) => Ok(Bgp4plusView::STATE_CHANGE(s)),
            Err(e) => Err(e),
        }
    } else if h.sub_type == 4 {
        match spec_parse_sync(h, body) {
            Ok(s) => Ok(Bgp4plusView::SYNC(s)),
            Err(e) => Err(e),
        }
    } else if h.sub_type == 5 {
        match spec_parse_message(h, body) {
            Ok(m) => Ok(Bgp4plusView::OPEN(m)),
            Err(e) => Err(e),
        }
    } else if h.sub_type == 6 {
        match spec_parse_message(h, body) {
            Ok(m) => Ok(Bgp4plusView::NOTIFY(m)),
            Err(e) => Err(e),
        }
    } else if h.sub_type == 7 {
        match spec_parse_message(h, body) {
            Ok(m) => Ok(Bgp4plusView::KEEPALIVE(m)),
            Err(e) => Err(e),
        }
    } else {
        Err(MrtError::UnsupportedSubtype)
    }
}

impl BGP4PLUS {
    /// Parse a BGP4+ record from its body bytes, dispatching on the subtype.
    pub fn parse(header: &Header, body: &[u8]) -> (r: Result<BGP4PLUS, MrtError>)
        ensures
            decodes_to(r, spec_parse_bgp4plus(*header, body@)),
    {
        match header.sub_type {
            0 => Ok(BGP4PLUS::NULL),
            1 => match MESSAGE::parse(header, body) {
                Ok(m) => Ok(BGP4PLUS::UPDATE(m)),
                Err(e) => Err(e),
            },
            2 => Ok(BGP4PLUS::PREF_UPDATE),
            3 => match STATE_CHANGE::parse(body) {
                Ok(s) => Ok(BGP4PLUS::STATE_CHANGE(s)),
                Err(e) => Err(e),
            },
            4 => match SYNC::parse(header, body) {
                Ok(s) => Ok(BGP4PLUS::SYNC(s)),
                Err(e) => Err(e),
            },
            5 => match MESSAGE::parse(header, body) {
                Ok(m) => Ok(BGP4PLUS::OPEN(m)),
                Err(e) => Err(e),
            },
            6 => match MESSAGE::parse(header, body) {
                Ok(m) => Ok(BGP4PLUS::NOTIFY(m)),
                Err(e) => Err(e),
            },
            7 => match MESSAGE::parse(header, body) {
                Ok(m) => Ok(BGP4PLUS::KEEPALIVE(m)),
                Err(e) => Err(e),
            },
            _ => Err(MrtError::UnsupportedSubtype),
        }
    }
}

/// BGP message record for IPv6 peers; used for the UPDATE, OPEN, NOTIFY and
/// KEEPALIVE subtypes.
#[derive(Debug, Clone, PartialEq)]
pub struct MESSAGE {
    /// Peer AS number (16-bit)
    pub peer_as: u16,
    /// Peer IPv6 address
    pub peer_ip: Ipv6Address,
    /// Local AS number (16-bit)
    pub local_as: u16,
    /// Local IPv6 address
    pub local_ip: Ipv6Address,
    /// Raw BGP message bytes (including the BGP header)
    pub message: Vec<u8>,
}

/// The mathematical value of a [`MESSAGE`] record.
pub struct MessageView {
    /// Peer AS number (16-bit)
    pub peer_as: u16,
    /// Peer IPv6 address
    pub peer_ip: Ipv6Address,
    /// Local AS number (16-bit)
    pub local_as: u16,
    /// Local IPv6 address
    pub local_ip: Ipv6Address,
    /// Raw BGP message bytes
    pub message: Seq<u8>,
}

impl View for MESSAGE {
    type V = MessageView;

    open spec fn view(&self) -> MessageView {
        MessageView {
            peer_as: self.peer_as,
            peer_ip: self.peer_ip,
            local_as: self.local_as,
            local_ip: self.local_ip,
            message: self.message@,
        }
    }
}

/// A BGP4+ MESSAGE body: peer AS (2), peer address (16), local AS (2),
/// local address (16), then `length - 36` message bytes.
pub open spec fn spec_parse_message(h: Header, body: Seq<u8>) -> Result<MessageView, MrtError> {
    let msg_len = sat_sub(h.length as int, 36);
    if body.len() < 36 + msg_len {
        Err(MrtError::Framing)
    } else {
        Ok(
            MessageView {
                peer_as: be_uint(body, 0, 2) as u16,
                peer_ip: spec_ipv6_at(body, 2),
                local_as: be_uint(body, 18, 2) as u16,
                local_ip: spec_ipv6_at(body, 20),
                message: body.subrange(36, 36 + msg_len),
            },
        )
    }
}

impl MESSAGE {
    /// Parse a BGP4+ MESSAGE from its body bytes.
    pub fn parse(header: &Header, body: &[u8]) -> (r: Result<MESSAGE, MrtError>)
        ensures
            decodes_to(r, spec_parse_message(*header, body@)),
    {
        let mut pos: usize = 0;
        let peer_as = match read_u16(body, &mut pos) {
            Ok(v) => v,
            Err(e) => {
                return Err(e);
            },
        };
        let peer_ip = match read_ipv6(body, &mut pos) {
            Ok(a) => a,
            Err(e) => {
                return Err(e);
            },
        };
        let local_as = match read_u16(body, &mut pos) {
            Ok(v) => v,
            Err(e) => {
                return Err(e);
            },
        };
        let local_ip = match read_ipv6(body, &mut pos) {
            Ok(a) => a,
            Err(e) => {
                return Err(e);
            },
        };
        let msg_len = sat_sub_u32(header.length, 36);
        let message = match read_bytes(body, &mut pos, msg_len as usize) {
            Ok(v) => v,
            Err(e) => {
                return Err(e);
            },
        };
        Ok(MESSAGE { peer_as, peer_ip, local_as, local_ip, message })
    }
}

/// BGP state change notification for IPv6 peers.
#[derive(Debug, Clone, Copy, PartialEq, Eq, Structural)]
pub struct STATE_CHANGE {
    /// Peer AS number (16-bit)
    pub peer_as: u16,
    /// Peer IPv6 address
    pub peer_ip: Ipv6Address,
    /// Previous BGP FSM state
    pub old_state: u16,
    /// New BGP FSM state
    pub new_state: u16,
}

/// A BGP4+ STATE_CHANGE body: peer AS (2), peer address (16), old state (2),
/// new state (2).
pub open spec fn spec_parse_state_change(body: Seq<u8>) -> Result<STATE_CHANGE, MrtError> {
    if body.len() < 22 {
        Err(MrtError::Framing)
    } else {
        Ok(
            STATE_CHANGE {
                peer_as: be_uint(body, 0, 2) as u16,
                peer_ip: spec_ipv6_at(body, 2),
                old_state: be_uint(body, 18, 2) as u16,
                new_state: be_uint(body, 20, 2) as u16,
            },
        )
    }
}

impl STATE_CHANGE {
    /// Parse a STATE_CHANGE record from its body bytes.
    pub fn parse(body: &[u8]) -> (r: Result<STATE_CHANGE, MrtError>)
        ensures
            match r {
                Ok(s) => spec_parse_state_change(body@) == Ok::<STATE_CHANGE, MrtError>(s),
                Err(e) => spec_parse_state_change(body@) == Err::<STATE_CHANGE, MrtError>(e),
            },
    {
        let mut pos: usize = 0;
        let peer_as = match read_u16(body, &mut pos) {
            Ok(v) => v,
            Err(e) => {
                return Err(e);
            },
        };
        let peer_ip = match read_ipv6(body, &mut pos) {
            Ok(a) => a,
            Err(e) => {
                return Err(e);
            },
        };
        let old_state = match read_u16(body, &mut pos) {
            Ok(v) => v,
            Err(e) => {
                return Err(e);
            },
        };
        let new_state = match read_u16(body, &mut pos) {
            Ok(v) => v,
            Err(e) => {
                return Err(e);
            },
        };
        Ok(STATE_CHANGE { peer_as, peer_ip, old_state, new_state })
    }
}

/// BGP RIB synchronization record (deprecated).
#[derive(Debug, Clone, PartialEq)]
pub struct SYNC {
    /// View number for multi-view RIB recordings
    pub view_number: u16,
    /// Filename (NULL-terminated in wire format)
    pub filename: Vec<u8>,
}

/// The mathematical value of a [`SYNC`] record.
pub struct SyncView {
    /// View number for multi-view RIB recordings
    pub view_number: u16,
    /// Filename bytes
    pub filename: Seq<u8>,
}

impl View for SYNC {
    type V = SyncView;

    open spec fn view(&self) -> SyncView {
        SyncView { view_number: self.view_number, filename: self.filename@ }
    }
}

/// A BGP4+ SYNC body: a 2-byte view number, then `length - 2` filename
/// bytes.
pub open spec fn spec_parse_sync(h: Header, body: Seq<u8>) -> Result<SyncView, MrtError> {
    let name_len = sat_sub(h.length as int, 2);
    if body.len() < 2 + name_len {
        Err(MrtError::Framing)
    } else {
        Ok(
            SyncView {
                view_number: be_uint(body, 0, 2) as u16,
                filename: body.subrange(2, 2 + name_len),
            },
        )
    }
}

impl SYNC {
    /// Parse a SYNC record from its body bytes.
    pub fn parse(header: &Header, body: &[u8]) -> (r: Result<SYNC, MrtError>)
        ensures
            decodes_to(r, spec_parse_sync(*header, body@)),
    {
        let mut pos: usize = 0;
        let view_number = match read_u16(body, &mut pos) {
            Ok(v) => v,
            Err(e) => {
                return Err(e);
            },
        };
        let name_len = sat_sub_u32(header.length, 2);
        let filename = match read_bytes(body, &mut pos, name_len as usize) {
            Ok(v) => v,
            Err(e) => {
                return Err(e);
            },
        };
        Ok(SYNC { view_number, filename })
    }
}

} // verus!
