//! TABLE_DUMP and TABLE_DUMP_V2 MRT records (types 12 and 13).
//!
//! RIB (Routing Information Base) dumps. TABLE_DUMP carries one entry per
//! record; TABLE_DUMP_V2 packs a peer index table and multi-entry RIB
//! records, each entry self-describing its own attribute-blob length.

#![allow(non_camel_case_types)]

use vstd::prelude::*;

use crate::address::{
    read_afi, read_ip_by_afi, read_ipv4, read_ipv6, read_prefix, spec_afi_at, spec_ip_at,
    spec_ipv4_at, spec_ipv6_at, spec_prefix_bytes_needed, IpAddress,
};
use crate::wire::{be_uint, read_bytes, read_u16, read_u32, read_u8};
use crate::{decodes_to, Header, MrtError, AFI};

verus! {

/// TABLE_DUMP record (type 12): the original RIB dump format, one entry per
/// record.
#[derive(Debug, Clone, PartialEq)]
pub struct TABLE_DUMP {
    /// View number for multi-view recordings
    pub view_number: u16,
    /// Sequence number within the dump
    pub sequence_number: u16,
    /// IP prefix (IPv4 or IPv6 based on the header subtype)
    pub prefix: IpAddress,
    /// Prefix length in bits
    pub prefix_length: u8,
    /// Entry status
    pub status: u8,
    /// Time this route was originated
    pub originated_time: u32,
    /// Peer IP address
    pub peer_address: IpAddress,
    /// Peer AS number (16-bit)
    pub peer_as: u16,
    /// BGP path attributes
    pub attributes: Vec<u8>,
}

/// The mathematical value of a [`TABLE_DUMP`] record.
pub struct TableDumpView {
    /// View number for multi-view recordings
    pub view_number: u16,
    /// Sequence number within the dump
    pub sequence_number: u16,
    /// IP prefix
    pub prefix: IpAddress,
    /// Prefix length in bits
    pub prefix_length: u8,
    /// Entry status
    pub status: u8,
    /// Time this route was originated
    pub originated_time: u32,
    /// Peer IP address
    pub peer_address: IpAddress,
    /// Peer AS number (16-bit)
    pub peer_as: u16,
    /// BGP path attributes
    pub attributes: Seq<u8>,
}

impl View for TABLE_DUMP {
    type V = TableDumpView;

    open spec fn view(&self) -> TableDumpView {
        TableDumpView {
            view_number: self.view_number,
            sequence_number: self.sequence_number,
            prefix: self.prefix,
            prefix_length: self.prefix_length,
            status: self.status,
            originated_time: self.originated_time,
            peer_address: self.peer_address,
            peer_as: self.peer_as,
            attributes: self.attributes@,
        }
    }
}

/// A TABLE_DUMP body. The subtype selects the address family (1 = IPv4,
/// 2 = IPv6) of both the prefix and the peer address; then view (2),
/// sequence (2), prefix (w), prefix length (1), status (1), originated time
/// (4), peer address (w), peer AS (2) and a length-prefixed attribute blob.
pub open spec fn spec_parse_table_dump(h: Header, body: Seq<u8>) -> Result<
    TableDumpView,
    MrtError,
> {
    if h.sub_type != 1 && h.sub_type != 2 {
        Err(MrtError::UnsupportedSubtype)
    } else {
        let afi = if h.sub_type == 1 {
            AFI::IPV4
        } else {
            AFI::IPV6
        };
        let w = afi.spec_size() as int;
        if body.len() < 14 + 2 * w {
            Err(MrtError::Framing)
        } else {
            let attr_len = be_uint(body, 12 + 2 * w, 2);
            if body.len() < 14 + 2 * w + attr_len {
                Err(MrtError::Framing)
            } else {
                Ok(
                    TableDumpView {
                        view_number: be_uint(body, 0, 2) as u16,
                        sequence_number: be_uint(body, 2, 2) as u16,
                        prefix: spec_ip_at(body, 4, afi),
                        prefix_length: body[4 + w],
                        status: body[5 + w],
                        originated_time: be_uint(body, 6 + w, 4) as u32,
                        peer_address: spec_ip_at(body, 10 + w, afi),
                        peer_as: be_uint(body, 10 + 2 * w, 2) as u16,
                        attributes: body.subrange(14 + 2 * w, 14 + 2 * w + attr_len),
                    },
                )
            }
        }
    }
}

impl TABLE_DUMP {
    /// Parse a TABLE_DUMP record from its body bytes; the header subtype
    /// selects the address family.
    pub fn parse(header: &Header, body: &[u8]) -> (r: Result<TABLE_DUMP, MrtError>)
        ensures
            decodes_to(r, spec_parse_table_dump(*header, body@)),
    {
        let afi = if header.sub_type == 1 {
            AFI::IPV4
        } else if header.sub_type == 2 {
            AFI::IPV6
        } else {
            return Err(MrtError::UnsupportedSubtype);
        };
        let mut pos: usize = 0;
        let view_number = match read_u16(body, &mut pos) {
            Ok(v) => v,
            Err(e) => {
                return Err(e);
            },
        };
        let sequence_number = match read_u16(body, &mut pos) {
            Ok(v) => v,
            Err(e) => {
                return Err(e);
            },
        };
        let prefix = match read_ip_by_afi(body, &mut pos, &afi) {
            Ok(a) => a,
            Err(e) => {
                return Err(e);
            },
        };
        let prefix_length = match read_u8(body, &mut pos) {
            Ok(v) => v,
            Err(e) => {
                return Err(e);
            },
        };
        let status = match read_u8(body, &mut pos) {
            Ok(v) => v,
            Err(e) => {
                return Err(e);
            },
        };
        let originated_time = match read_u32(body, &mut pos) {
            Ok(v) => v,
            Err(e) => {
                return Err(e);
            },
        };
        let peer_address = match read_ip_by_afi(body, &mut pos, &afi) {
            Ok(a) => a,
            Err(e) => {
                return Err(e);
            },
        };
        let peer_as = match read_u16(body, &mut pos) {
            Ok(v) => v,
            Err(e) => {
                return Err(e);
            },
        };
        let attr_len = match read_u16(body, &mut pos) {
            Ok(v) => v,
            Err(e) => {
                return Err(e);
            },
        };
        let attributes = match read_bytes(body, &mut pos, attr_len as usize) {
            Ok(v) => v,
            Err(e) => {
                return Err(e);
            },
        };
        Ok(
            TABLE_DUMP {
                view_number,
                sequence_number,
                prefix,
                prefix_length,
                status,
                originated_time,
                peer_address,
                peer_as,
                attributes,
            },
        )
    }
}

/// Peer entry within a [`PEER_INDEX_TABLE`].
///
/// The flags byte selects, per entry, the peer address family (bit 1:
/// 0 = IPv4, 1 = IPv6) and the AS number width (bit 0: 0 = 16-bit,
/// 1 = 32-bit).
#[derive(Debug, Clone, Copy, PartialEq, Eq, Structural)]
pub struct PeerEntry {
    /// Peer type flags (bit 0: AS width, bit 1: address family)
    pub peer_type: u8,
    /// Peer BGP identifier
    pub peer_bgp_id: u32,
    /// Peer IP address
    pub peer_ip_address: IpAddress,
    /// Peer AS number (widened to 32 bits when 16-bit on the wire)
    pub peer_as: u32,
}

/// One peer entry starting at `pos`: flags (1), BGP id (4), an address
/// whose width bit 1 of the flags selects, and an AS number whose width bit
/// 0 selects. Returns the entry and the position just past it.
pub open spec fn spec_parse_peer_entry(body: Seq<u8>, pos: int) -> Result<
    (PeerEntry, int),
    MrtError,
> {
    if body.len() < pos + 5 {
        Err(MrtError::Framing)
    } else {
        let flags = body[pos];
        let is_v6 = flags & 0x02 != 0;
        let w: int = if is_v6 {
            16
        } else {
            4
        };
        let as_w: int = if flags & 0x01 != 0 {
            4
        } else {
            2
        };
        if body.len() < pos + 5 + w + as_w {
            Err(MrtError::Framing)
        } else {
            Ok(
                (
                    PeerEntry {
                        peer_type: flags,
                        peer_bgp_id: be_uint(body, pos + 1, 4) as u32,
                        peer_ip_address: if is_v6 {
                            IpAddress::V6(spec_ipv6_at(body, pos + 5))
                        } else {
                            IpAddress::V4(spec_ipv4_at(body, pos + 5))
                        },
                        peer_as: be_uint(body, pos + 5 + w, as_w as nat) as u32,
                    },
                    pos + 5 + w + as_w,
                ),
            )
        }
    }
}

impl PeerEntry {
    /// Parse a peer entry at the cursor, advancing it past the entry.
    pub fn parse(body: &[u8], pos: &mut usize) -> (r: Result<PeerEntry, MrtError>)
        requires
            *old(pos) <= body@.len(),
        ensures
            *final(pos) <= body@.len(),
            match r {
                Ok(p) => spec_parse_peer_entry(body@, *old(pos) as int) == Ok::<
                    (PeerEntry, int),
                    MrtError,
                >((p, *final(pos) as int)),
                Err(e) => spec_parse_peer_entry(body@, *old(pos) as int) == Err::<
                    (PeerEntry, int),
                    MrtError,
                >(e),
            },
    {
        let peer_type = match read_u8(body, pos) {
            Ok(v) => v,
            Err(e) => {
                return Err(e);
            },
        };
        let peer_bgp_id = match read_u32(body, pos) {
            Ok(v) => v,
            Err(e) => {
                return Err(e);
            },
        };
        let is_v6 = peer_type & 0x02 != 0;
        let peer_ip_address = if is_v6 {
            match read_ipv6(body, pos) {
                Ok(a) => IpAddress::V6(a),
                Err(e) => {
                    return Err(e);
                },
            }
        } else {
            match read_ipv4(body, pos) {
                Ok(a) => IpAddress::V4(a),
                Err(e) => {
                    return Err(e);
                },
            }
        };
        let is_as4 = peer_type & 0x01 != 0;
        let peer_as: u32 = if is_as4 {
            match read_u32(body, pos) {
                Ok(v) => v,
                Err(e) => {
                    return Err(e);
                },
            }
        } else {
            match read_u16(body, pos) {
                Ok(v) => v as u32,
                Err(e) => {
                    return Err(e);
                },
            }
        };
        Ok(PeerEntry { peer_type, peer_bgp_id, peer_ip_address, peer_as })
    }
}

/// `count` consecutive peer entries starting at `pos`: the entries in wire
/// order and the position just past the last.
pub open spec fn spec_parse_peer_entries(body: Seq<u8>, pos: int, count: nat) -> Result<
    (Seq<PeerEntry>, int),
    MrtError,
>
    decreases count,
{
    if count == 0 {
        Ok((Seq::empty(), pos))
    } else {
        match spec_parse_peer_entry(body, pos) {
            Err(e) => Err(e),
            Ok((p, pos2)) => match spec_parse_peer_entries(body, pos2, (count - 1) as nat) {
                Err(e) => Err(e),
                Ok((rest, end)) => Ok((seq![p] + rest, end)),
            },
        }
    }
}

/// Parse `count` peer entries at the cursor.
fn parse_peer_entries(body: &[u8], pos: &mut usize, count: u16) -> (r: Result<
    Vec<PeerEntry>,
    MrtError,
>)
    requires
        *old(pos) <= body@.len(),
    ensures
        *final(pos) <= body@.len(),
        match r {
            Ok(v) => spec_parse_peer_entries(body@, *old(pos) as int, count as nat) == Ok::<
                (Seq<PeerEntry>, int),
                MrtError,
            >((v@, *final(pos) as int)),
            Err(e) => spec_parse_peer_entries(body@, *old(pos) as int, count as nat) == Err::<
                (Seq<PeerEntry>, int),
                MrtError,
            >(e),
        },
{
    let ghost start = *pos as int;
    let mut entries: Vec<PeerEntry> = Vec::new();
    let mut i: u16 = 0;
    while i < count
        invariant
            start == *old(pos) as int,
            i <= count,
            *pos <= body@.len(),
            entries@.len() == i,
            match spec_parse_peer_entries(body@, *pos as int, (count - i) as nat) {
                Ok((rest, end)) => spec_parse_peer_entries(body@, start, count as nat) == Ok::<
                    (Seq<PeerEntry>, int),
                    MrtError,
                >((entries@ + rest, end)),
                Err(e) => spec_parse_peer_entries(body@, start, count as nat) == Err::<
                    (Seq<PeerEntry>, int),
                    MrtError,
                >(e),
            },
        decreases count - i,
    {
        let ghost pos_before = *pos as int;
        let ghost entries_before = entries@;
        let p = match PeerEntry::parse(body, pos) {
            Ok(p) => p,
            Err(e) => {
                proof {
                    assert(spec_parse_peer_entries(body@, pos_before, (count - i) as nat) == Err::<
                        (Seq<PeerEntry>, int),
                        MrtError,
                    >(e));
                }
                return Err(e);
            },
        };
        entries.push(p);
        i = i + 1;
        proof {
            assert(entries@ =~= entries_before.push(p));
            match spec_parse_peer_entries(body@, *pos as int, (count - i) as nat) {
                Ok((rest, end)) => {
                    assert(spec_parse_peer_entries(body@, pos_before, (count - i + 1) as nat)
                        == Ok::<(Seq<PeerEntry>, int), MrtError>((seq![p] + rest, end)));
                    assert(entries_before + (seq![p] + rest) =~= entries@ + rest);
                },
                Err(e) => {
                    assert(spec_parse_peer_entries(body@, pos_before, (count - i + 1) as nat)
                        == Err::<(Seq<PeerEntry>, int), MrtError>(e));
                },
            }
        }
    }
    proof {
        assert(entries@ + Seq::<PeerEntry>::empty() =~= entries@);
    }
    Ok(entries)
}

/// The characters `String::from_utf8_lossy` produces for a byte sequence.
pub uninterp spec fn lossy_of(bytes: Seq<u8>) -> Seq<char>;

/// Relies on `String::from_utf8_lossy` from std: the characters produced
/// are a function of the input bytes alone (invalid UTF-8 is replaced by
/// U+FFFD).
#[verifier::external_body]
fn utf8_lossy(bytes: &Vec<u8>) -> (r: String)
    ensures
        r@ == lossy_of(bytes@),
{
    String::from_utf8_lossy(bytes.as_slice()).into_owned()
}

/// Peer index table for TABLE_DUMP_V2 (subtype 1).
///
/// Appears at the start of a dump and defines the peer index mappings used
/// by subsequent RIB entries.
#[derive(Debug, Clone, PartialEq)]
pub struct PEER_INDEX_TABLE {
    /// BGP identifier of the collector
    pub collector_id: u32,
    /// View name (may be empty)
    pub view_name: String,
    /// List of peers in this dump, in wire order
    pub peer_entries: Vec<PeerEntry>,
}

/// The mathematical value of a [`PEER_INDEX_TABLE`] record.
pub struct PeerIndexTableView {
    /// BGP identifier of the collector
    pub collector_id: u32,
    /// View name characters
    pub view_name: Seq<char>,
    /// List of peers in this dump, in wire order
    pub peer_entries: Seq<PeerEntry>,
}

impl View for PEER_INDEX_TABLE {
    type V = PeerIndexTableView;

    open spec fn view(&self) -> PeerIndexTableView {
        PeerIndexTableView {
            collector_id: self.collector_id,
            view_name: self.view_name@,
            peer_entries: self.peer_entries@,
        }
    }
}

/// A PEER_INDEX_TABLE body: collector id (4), a length-prefixed view name,
/// then a count-prefixed list of peer entries.
pub open spec fn spec_parse_peer_index_table(body: Seq<u8>) -> Result<
    PeerIndexTableView,
    MrtError,
> {
    if body.len() < 6 {
        Err(MrtError::Framing)
    } else {
        let name_len = be_uint(body, 4, 2);
        if body.len() < 6 + name_len + 2 {
            Err(MrtError::Framing)
        } else {
            let count = be_uint(body, 6 + name_len, 2);
            match spec_parse_peer_entries(body, 8 + name_len, count as nat) {
                Err(e) => Err(e),
                Ok((entries, _end)) => Ok(
                    PeerIndexTableView {
                        collector_id: be_uint(body, 0, 4) as u32,
                        view_name: lossy_of(body.subrange(6, 6 + name_len)),
                        peer_entries: entries,
                    },
                ),
            }
        }
    }
}

impl PEER_INDEX_TABLE {
    /// Parse a PEER_INDEX_TABLE record from its body bytes.
    pub fn parse(body: &[u8]) -> (r: Result<PEER_INDEX_TABLE, MrtError>)
        ensures
            decodes_to(r, spec_parse_peer_index_table(body@)),
    {
        let mut pos: usize = 0;
        let collector_id = match read_u32(body, &mut pos) {
            Ok(v) => v,
            Err(e) => {
                return Err(e);
            },
        };
        let name_len = match read_u16(body, &mut pos) {
            Ok(v) => v,
            Err(e) => {
                return Err(e);
            },
        };
        let view_name_bytes = match read_bytes(body, &mut pos, name_len as usize) {
            Ok(v) => v,
            Err(e) => {
                return Err(e);
            },
        };
        let view_name = utf8_lossy(&view_name_bytes);
        let peer_count = match read_u16(body, &mut pos) {
            Ok(v) => v,
            Err(e) => {
                return Err(e);
            },
        };
        let peer_entries = match parse_peer_entries(body, &mut pos, peer_count) {
            Ok(v) => v,
            Err(e) => {
                return Err(e);
            },
        };
        Ok(PEER_INDEX_TABLE { collector_id, view_name, peer_entries })
    }
}

/// RIB entry in TABLE_DUMP_V2.
#[derive(Debug, Clone, PartialEq)]
pub struct RIBEntry {
    /// Index into the peer index table
    pub peer_index: u16,
    /// Time this route was originated
    pub originated_time: u32,
    /// BGP path attributes
    pub attributes: Vec<u8>,
}

/// The mathematical value of a [`RIBEntry`].
pub struct RibEntryView {
    /// Index into the peer index table
    pub peer_index: u16,
    /// Time this route was originated
    pub originated_time: u32,
    /// BGP path attributes
    pub attributes: Seq<u8>,
}

impl View for RIBEntry {
    type V = RibEntryView;

    open spec fn view(&self) -> RibEntryView {
        RibEntryView {
            peer_index: self.peer_index,
            originated_time: self.originated_time,
            attributes: self.attributes@,
        }
    }
}

/// One RIB entry starting at `pos`: peer index (2), originated time (4),
/// then a length-prefixed attribute blob. Returns the entry and the
/// position just past it.
pub open spec fn spec_parse_rib_entry(body: Seq<u8>, pos: int) -> Result<
    (RibEntryView, int),
    MrtError,
> {
    if body.len() < pos + 8 {
        Err(MrtError::Framing)
    } else {
        let attr_len = be_uint(body, pos + 6, 2);
        if body.len() < pos + 8 + attr_len {
            Err(MrtError::Framing)
        } else {
            Ok(
                (
                    RibEntryView {
                        peer_index: be_uint(body, pos, 2) as u16,
                        originated_time: be_uint(body, pos + 2, 4) as u32,
                        attributes: body.subrange(pos + 8, pos + 8 + attr_len),
                    },
                    pos + 8 + attr_len,
                ),
            )
        }
    }
}

impl RIBEntry {
    /// Parse a RIB entry at the cursor, advancing it past the entry.
    pub fn parse(body: &[u8], pos: &mut usize) -> (r: Result<RIBEntry, MrtError>)
        requires
            *old(pos) <= body@.len(),
        ensures
            *final(pos) <= body@.len(),
            match r {
                Ok(p) => spec_parse_rib_entry(body@, *old(pos) as int) == Ok::<
                    (RibEntryView, int),
                    MrtError,
                >((p@, *final(pos) as int)),
                Err(e) => spec_parse_rib_entry(body@, *old(pos) as int) == Err::<
                    (RibEntryView, int),
                    MrtError,
                >(e),
            },
    {
        let peer_index = match read_u16(body, pos) {
            Ok(v) => v,
            Err(e) => {
                return Err(e);
            },
        };
        let originated_time = match read_u32(body, pos) {
            Ok(v) => v,
            Err(e) => {
                return Err(e);
            },
        };
        let attr_len = match read_u16(body, pos) {
            Ok(v) => v,
            Err(e) => {
                return Err(e);
            },
        };
        let attributes = match read_bytes(body, pos, attr_len as usize) {
            Ok(v) => v,
            Err(e) => {
                return Err(e);
            },
        };
        Ok(RIBEntry { peer_index, originated_time, attributes })
    }
}

/// The views of a sequence of RIB entries, element by element.
pub open spec fn rib_entry_views(s: Seq<RIBEntry>) -> Seq<RibEntryView> {
    s.map_values(|p: RIBEntry| p@)
}

/// `count` consecutive RIB entries starting at `pos`.
pub open spec fn spec_parse_rib_entries(body: Seq<u8>, pos: int, count: nat) -> Result<
    (Seq<RibEntryView>, int),
    MrtError,
>
    decreases count,
{
    if count == 0 {
        Ok((Seq::empty(), pos))
    } else {
        match spec_parse_rib_entry(body, pos) {
            Err(e) => Err(e),
            Ok((p, pos2)) => match spec_parse_rib_entries(body, pos2, (count - 1) as nat) {
                Err(e) => Err(e),
                Ok((rest, end)) => Ok((seq![p] + rest, end)),
            },
        }
    }
}

/// Parse `count` RIB entries at the cursor.
fn parse_rib_entries(body: &[u8], pos: &mut usize, count: u16) -> (r: Result<
    Vec<RIBEntry>,
    MrtError,
>)
    requires
        *old(pos) <= body@.len(),
    ensures
        *final(pos) <= body@.len(),
        match r {
            Ok(v) => spec_parse_rib_entries(body@, *old(pos) as int, count as nat) == Ok::<
                (Seq<RibEntryView>, int),
                MrtError,
            >((rib_entry_views(v@), *final(pos) as int)),
            Err(e) => spec_parse_rib_entries(body@, *old(pos) as int, count as nat) == Err::<
                (Seq<RibEntryView>, int),
                MrtError,
            >(e),
        },
{
    let ghost start = *pos as int;
    let mut entries: Vec<RIBEntry> = Vec::new();
    let mut i: u16 = 0;
    while i < count
        invariant
            start == *old(pos) as int,
            i <= count,
            *pos <= body@.len(),
            entries@.len() == i,
            match spec_parse_rib_entries(body@, *pos as int, (count - i) as nat) {
                Ok((rest, end)) => spec_parse_rib_entries(body@, start, count as nat) == Ok::<
                    (Seq<RibEntryView>, int),
                    MrtError,
                >((rib_entry_views(entries@) + rest, end)),
                Err(e) => spec_parse_rib_entries(body@, start, count as nat) == Err::<
                    (Seq<RibEntryView>, int),
                    MrtError,
                >(e),
            },
        decreases count - i,
    {
        let ghost pos_before = *pos as int;
        let ghost entries_before = entries@;
        let p = match RIBEntry::parse(body, pos) {
            Ok(p) => p,
            Err(e) => {
                proof {
                    assert(spec_parse_rib_entries(body@, pos_before, (count - i) as nat) == Err::<
                        (Seq<RibEntryView>, int),
                        MrtError,
                    >(e));
                }
                return Err(e);
            },
        };
        entries.push(p);
        i = i + 1;
        proof {
            assert(rib_entry_views(entries@) =~= rib_entry_views(entries_before).push(p@));
            match spec_parse_rib_entries(body@, *pos as int, (count - i) as nat) {
                Ok((rest, end)) => {
                    assert(spec_parse_rib_entries(body@, pos_before, (count - i + 1) as nat)
                        == Ok::<(Seq<RibEntryView>, int), MrtError>((seq![p@] + rest, end)));
                    assert(rib_entry_views(entries_before) + (seq![p@] + rest)
                        =~= rib_entry_views(entries@) + rest);
                },
                Err(e) => {
                    assert(spec_parse_rib_entries(body@, pos_before, (count - i + 1) as nat)
                        == Err::<(Seq<RibEntryView>, int), MrtError>(e));
                },
            }
        }
    }
    proof {
        assert(rib_entry_views(entries@) + Seq::<RibEntryView>::empty()
            =~= rib_entry_views(entries@));
    }
    Ok(entries)
}

/// RIB entry with the Add-Path extension: a 4-byte path identifier stands
/// ahead of the attribute blob.
#[derive(Debug, Clone, PartialEq)]
pub struct RIBEntryAddPath {
    /// Index into the peer index table
    pub peer_index: u16,
    /// Time this route was originated
    pub originated_time: u32,
    /// Path identifier for Add-Path
    pub path_identifier: u32,
    /// BGP path attributes
    pub attributes: Vec<u8>,
}

/// The mathematical value of a [`RIBEntryAddPath`].
pub struct RibEntryAddPathView {
    /// Index into the peer index table
    pub peer_index: u16,
    /// Time this route was originated
    pub originated_time: u32,
    /// Path identifier for Add-Path
    pub path_identifier: u32,
    /// BGP path attributes
    pub attributes: Seq<u8>,
}

impl View for RIBEntryAddPath {
    type V = RibEntryAddPathView;

    open spec fn view(&self) -> RibEntryAddPathView {
        RibEntryAddPathView {
            peer_index: self.peer_index,
            originated_time: self.originated_time,
            path_identifier: self.path_identifier,
            attributes: self.attributes@,
        }
    }
}

/// One Add-Path RIB entry starting at `pos`: peer index (2), originated
/// time (4), path identifier (4), then a length-prefixed attribute blob.
pub open spec fn spec_parse_rib_entry_add_path(body: Seq<u8>, pos: int) -> Result<
    (RibEntryAddPathView, int),
    MrtError,
> {
    if body.len() < pos + 12 {
        Err(MrtError::Framing)
    } else {
        let attr_len = be_uint(body, pos + 10, 2);
        if body.len() < pos + 12 + attr_len {
            Err(MrtError::Framing)
        } else {
            Ok(
                (
                    RibEntryAddPathView {
                        peer_index: be_uint(body, pos, 2) as u16,
                        originated_time: be_uint(body, pos + 2, 4) as u32,
                        path_identifier: be_uint(body, pos + 6, 4) as u32,
                        attributes: body.subrange(pos + 12, pos + 12 + attr_len),
                    },
                    pos + 12 + attr_len,
                ),
            )
        }
    }
}

impl RIBEntryAddPath {
    /// Parse an Add-Path RIB entry at the cursor, advancing it past the
    /// entry.
    pub fn parse(body: &[u8], pos: &mut usize) -> (r: Result<RIBEntryAddPath, MrtError>)
        requires
            *old(pos) <= body@.len(),
        ensures
            *final(pos) <= body@.len(),
            match r {
                Ok(p) => spec_parse_rib_entry_add_path(body@, *old(pos) as int) == Ok::<
                    (RibEntryAddPathView, int),
                    MrtError,
                >((p@, *final(pos) as int)),
                Err(e) => spec_parse_rib_entry_add_path(body@, *old(pos) as int) == Err::<
                    (RibEntryAddPathView, int),
                    MrtError,
                >(e),
            },
    {
        let peer_index = match read_u16(body, pos) {
            Ok(v) => v,
            Err(e) => {
                return Err(e);
            },
        };
        let originated_time = match read_u32(body, pos) {
            Ok(v) => v,
            Err(e) => {
                return Err(e);
            },
        };
        let path_identifier = match read_u32(body, pos) {
            Ok(v) => v,
            Err(e) => {
                return Err(e);
            },
        };
        let attr_len = match read_u16(body, pos) {
            Ok(v) => v,
            Err(e) => {
                return Err(e);
            },
        };
        let attributes = match read_bytes(body, pos, attr_len as usize) {
            Ok(v) => v,
            Err(e) => {
                return Err(e);
            },
        };
        Ok(RIBEntryAddPath { peer_index, originated_time, path_identifier, attributes })
    }
}

/// The views of a sequence of Add-Path RIB entries, element by element.
pub open spec fn rib_entry_add_path_views(s: Seq<RIBEntryAddPath>) -> Seq<RibEntryAddPathView> {
    s.map_values(|p: RIBEntryAddPath| p@)
}

/// `count` consecutive Add-Path RIB entries starting at `pos`.
pub open spec fn spec_parse_rib_entries_add_path(body: Seq<u8>, pos: int, count: nat) -> Result<
    (Seq<RibEntryAddPathView>, int),
    MrtError,
>
    decreases count,
{
    if count == 0 {
        Ok((Seq::empty(), pos))
    } else {
        match spec_parse_rib_entry_add_path(body, pos) {
            Err(e) => Err(e),
            Ok((p, pos2)) => match spec_parse_rib_entries_add_path(
                body,
                pos2,
                (count - 1) as nat,
            ) {
                Err(e) => Err(e),
                Ok((rest, end)) => Ok((seq![p] + rest, end)),
            },
        }
    }
}

/// Parse `count` Add-Path RIB entries at the cursor.
fn parse_rib_entries_add_path(body: &[u8], pos: &mut usize, count: u16) -> (r: Result<
    Vec<RIBEntryAddPath>,
    MrtError,
>)
    requires
        *old(pos) <= body@.len(),
    ensures
        *final(pos) <= body@.len(),
        match r {
            Ok(v) => spec_parse_rib_entries_add_path(body@, *old(pos) as int, count as nat)
                == Ok::<(Seq<RibEntryAddPathView>, int), MrtError>(
                (rib_entry_add_path_views(v@), *final(pos) as int),
            ),
            Err(e) => spec_parse_rib_entries_add_path(body@, *old(pos) as int, count as nat)
                == Err::<(Seq<RibEntryAddPathView>, int), MrtError>(e),
        },
{
    let ghost start = *pos as int;
    let mut entries: Vec<RIBEntryAddPath> = Vec::new();
    let mut i: u16 = 0;
    while i < count
        invariant
            start == *old(pos) as int,
            i <= count,
            *pos <= body@.len(),
            entries@.len() == i,
            match spec_parse_rib_entries_add_path(body@, *pos as int, (count - i) as nat) {
                Ok((rest, end)) => spec_parse_rib_entries_add_path(body@, start, count as nat)
                    == Ok::<(Seq<RibEntryAddPathView>, int), MrtError>(
                    (rib_entry_add_path_views(entries@) + rest, end),
                ),
                Err(e) => spec_parse_rib_entries_add_path(body@, start, count as nat) == Err::<
                    (Seq<RibEntryAddPathView>, int),
                    MrtError,
                >(e),
            },
        decreases count - i,
    {
        let ghost pos_before = *pos as int;
        let ghost entries_before = entries@;
        let p = match RIBEntryAddPath::parse(body, pos) {
            Ok(p) => p,
            Err(e) => {
                proof {
                    assert(spec_parse_rib_entries_add_path(body@, pos_before, (count - i) as nat)
                        == Err::<(Seq<RibEntryAddPathView>, int), MrtError>(e));
                }
                return Err(e);
            },
        };
        entries.push(p);
        i = i + 1;
        proof {
            assert(rib_entry_add_path_views(entries@) =~= rib_entry_add_path_views(
                entries_before,
            ).push(p@));
            match spec_parse_rib_entries_add_path(body@, *pos as int, (count - i) as nat) {
                Ok((rest, end)) => {
                    assert(spec_parse_rib_entries_add_path(
                        body@,
                        pos_before,
                        (count - i + 1) as nat,
                    ) == Ok::<(Seq<RibEntryAddPathView>, int), MrtError>((seq![p@] + rest, end)));
                    assert(rib_entry_add_path_views(entries_before) + (seq![p@] + rest)
                        =~= rib_entry_add_path_views(entries@) + rest);
                },
                Err(e) => {
                    assert(spec_parse_rib_entries_add_path(
                        body@,
                        pos_before,
                        (count - i + 1) as nat,
                    ) == Err::<(Seq<RibEntryAddPathView>, int), MrtError>(e));
                },
            }
        }
    }
    proof {
        assert(rib_entry_add_path_views(entries@) + Seq::<RibEntryAddPathView>::empty()
            =~= rib_entry_add_path_views(entries@));
    }
    Ok(entries)
}

/// AFI-specific RIB record (IPv4 or IPv6, unicast or multicast).
#[derive(Debug, Clone, PartialEq)]
pub struct RIB_AFI {
    /// Sequence number within the dump
    pub sequence_number: u32,
    /// Prefix length in bits
    pub prefix_length: u8,
    /// Prefix bytes (variable length based on `prefix_length`)
    pub prefix: Vec<u8>,
    /// RIB entries for this prefix
    pub entries: Vec<RIBEntry>,
}

/// The mathematical value of a [`RIB_AFI`] record.
pub struct RibAfiView {
    /// Sequence number within the dump
    pub sequence_number: u32,
    /// Prefix length in bits
    pub prefix_length: u8,
    /// Prefix bytes
    pub prefix: Seq<u8>,
    /// RIB entries for this prefix
    pub entries: Seq<RibEntryView>,
}

impl View for RIB_AFI {
    type V = RibAfiView;

    open spec fn view(&self) -> RibAfiView {
        RibAfiView {
            sequence_number: self.sequence_number,
            prefix_length: self.prefix_length,
            prefix: self.prefix@,
            entries: rib_entry_views(self.entries@),
        }
    }
}

/// A RIB_AFI body: sequence number (4), prefix bit length (1), the prefix
/// in `ceil(bits / 8)` bytes, then a count-prefixed list of RIB entries.
pub open spec fn spec_parse_rib_afi(body: Seq<u8>) -> Result<RibAfiView, MrtError> {
    if body.len() < 5 {
        Err(MrtError::Framing)
    } else {
        let plen = body[4];
        let pb = spec_prefix_bytes_needed(plen);
        if body.len() < 5 + pb + 2 {
            Err(MrtError::Framing)
        } else {
            let count = be_uint(body, 5 + pb, 2);
            match spec_parse_rib_entries(body, 7 + pb, count as nat) {
                Err(e) => Err(e),
                Ok((entries, _end)) => Ok(
                    RibAfiView {
                        sequence_number: be_uint(body, 0, 4) as u32,
                        prefix_length: plen,
                        prefix: body.subrange(5, 5 + pb),
                        entries,
                    },
                ),
            }
        }
    }
}

impl RIB_AFI {
    /// Parse a RIB_AFI record from its body bytes. The address family is
    /// fixed by the subtype; the prefix is carried as raw bytes, so the
    /// family does not alter the wire layout.
    pub fn parse(_afi: &AFI, body: &[u8]) -> (r: Result<RIB_AFI, MrtError>)
        ensures
            decodes_to(r, spec_parse_rib_afi(body@)),
    {
        let mut pos: usize = 0;
        let sequence_number = match read_u32(body, &mut pos) {
            Ok(v) => v,
            Err(e) => {
                return Err(e);
            },
        };
        let prefix_length = match read_u8(body, &mut pos) {
            Ok(v) => v,
            Err(e) => {
                return Err(e);
            },
        };
        let prefix = match read_prefix(body, &mut pos, prefix_length) {
            Ok(v) => v,
            Err(e) => {
                return Err(e);
            },
        };
        let entry_count = match read_u16(body, &mut pos) {
            Ok(v) => v,
            Err(e) => {
                return Err(e);
            },
        };
        let entries = match parse_rib_entries(body, &mut pos, entry_count) {
            Ok(v) => v,
            Err(e) => {
                return Err(e);
            },
        };
        Ok(RIB_AFI { sequence_number, prefix_length, prefix, entries })
    }
}

/// Generic RIB record with explicit AFI/SAFI.
#[derive(Debug, Clone, PartialEq)]
pub struct RIB_GENERIC {
    /// Sequence number within the dump
    pub sequence_number: u32,
    /// Address family identifier
    pub afi: AFI,
    /// Subsequent AFI
    pub safi: u8,
    /// NLRI (Network Layer Reachability Information)
    pub nlri: Vec<u8>,
    /// RIB entries for this NLRI
    pub entries: Vec<RIBEntry>,
}

/// The mathematical value of a [`RIB_GENERIC`] record.
pub struct RibGenericView {
    /// Sequence number within the dump
    pub sequence_number: u32,
    /// Address family identifier
    pub afi: AFI,
    /// Subsequent AFI
    pub safi: u8,
    /// NLRI bytes
    pub nlri: Seq<u8>,
    /// RIB entries for this NLRI
    pub entries: Seq<RibEntryView>,
}

impl View for RIB_GENERIC {
    type V = RibGenericView;

    open spec fn view(&self) -> RibGenericView {
        RibGenericView {
            sequence_number: self.sequence_number,
            afi: self.afi,
            safi: self.safi,
            nlri: self.nlri@,
            entries: rib_entry_views(self.entries@),
        }
    }
}

/// A RIB_GENERIC body: sequence number (4), AFI (2), SAFI (1), a
/// length-prefixed NLRI blob, then a count-prefixed list of RIB entries.
pub open spec fn spec_parse_rib_generic(body: Seq<u8>) -> Result<RibGenericView, MrtError> {
    if body.len() < 6 {
        Err(MrtError::Framing)
    } else {
        match spec_afi_at(body, 4) {
            Err(e) => Err(e),
            Ok(afi) => {
                if body.len() < 9 {
                    Err(MrtError::Framing)
                } else {
                    let nlri_len = be_uint(body, 7, 2);
                    if body.len() < 9 + nlri_len + 2 {
                        Err(MrtError::Framing)
                    } else {
                        let count = be_uint(body, 9 + nlri_len, 2);
                        match spec_parse_rib_entries(body, 11 + nlri_len, count as nat) {
                            Err(e) => Err(e),
                            Ok((entries, _end)) => Ok(
                                RibGenericView {
                                    sequence_number: be_uint(body, 0, 4) as u32,
                                    afi,
                                    safi: body[6],
                                    nlri: body.subrange(9, 9 + nlri_len),
                                    entries,
                                },
                            ),
                        }
                    }
                }
            },
        }
    }
}

impl RIB_GENERIC {
    /// Parse a RIB_GENERIC record from its body bytes.
    pub fn parse(body: &[u8]) -> (r: Result<RIB_GENERIC, MrtError>)
        ensures
            decodes_to(r, spec_parse_rib_generic(body@)),
    {
        let mut pos: usize = 0;
        let sequence_number = match read_u32(body, &mut pos) {
            Ok(v) => v,
            Err(e) => {
                return Err(e);
            },
        };
        let afi = match read_afi(body, &mut pos) {
            Ok(a) => a,
            Err(e) => {
                return Err(e);
            },
        };
        let safi = match read_u8(body, &mut pos) {
            Ok(v) => v,
            Err(e) => {
                return Err(e);
            },
        };
        let nlri_len = match read_u16(body, &mut pos) {
            Ok(v) => v,
            Err(e) => {
                return Err(e);
            },
        };
        let nlri = match read_bytes(body, &mut pos, nlri_len as usize) {
            Ok(v) => v,
            Err(e) => {
                return Err(e);
            },
        };
        let entry_count = match read_u16(body, &mut pos) {
            Ok(v) => v,
            Err(e) => {
                return Err(e);
            },
        };
        let entries = match parse_rib_entries(body, &mut pos, entry_count) {
            Ok(v) => v,
            Err(e) => {
                return Err(e);
            },
        };
        Ok(RIB_GENERIC { sequence_number, afi, safi, nlri, entries })
    }
}

/// AFI-specific RIB record with the Add-Path extension.
#[derive(Debug, Clone, PartialEq)]
pub struct RIB_AFI_ADDPATH {
    /// Sequence number within the dump
    pub sequence_number: u32,
    /// Prefix length in bits
    pub prefix_length: u8,
    /// Prefix bytes (variable length based on `prefix_length`)
    pub prefix: Vec<u8>,
    /// RIB entries with path identifiers
    pub entries: Vec<RIBEntryAddPath>,
}

/// The mathematical value of a [`RIB_AFI_ADDPATH`] record.
pub struct RibAfiAddPathView {
    /// Sequence number within the dump
    pub sequence_number: u32,
    /// Prefix length in bits
    pub prefix_length: u8,
    /// Prefix bytes
    pub prefix: Seq<u8>,
    /// RIB entries with path identifiers
    pub entries: Seq<RibEntryAddPathView>,
}

impl View for RIB_AFI_ADDPATH {
    type V = RibAfiAddPathView;

    open spec fn view(&self) -> RibAfiAddPathView {
        RibAfiAddPathView {
            sequence_number: self.sequence_number,
            prefix_length: self.prefix_length,
            prefix: self.prefix@,
            entries: rib_entry_add_path_views(self.entries@),
        }
    }
}

/// A RIB_AFI_ADDPATH body: laid out as RIB_AFI, with Add-Path entries.
pub open spec fn spec_parse_rib_afi_add_path(body: Seq<u8>) -> Result<RibAfiAddPathView, MrtError> {
    if body.len() < 5 {
        Err(MrtError::Framing)
    } else {
        let plen = body[4];
        let pb = spec_prefix_bytes_needed(plen);
        if body.len() < 5 + pb + 2 {
            Err(MrtError::Framing)
        } else {
            let count = be_uint(body, 5 + pb, 2);
            match spec_parse_rib_entries_add_path(body, 7 + pb, count as nat) {
                Err(e) => Err(e),
                Ok((entries, _end)) => Ok(
                    RibAfiAddPathView {
                        sequence_number: be_uint(body, 0, 4) as u32,
                        prefix_length: plen,
                        prefix: body.subrange(5, 5 + pb),
                        entries,
                    },
                ),
            }
        }
    }
}

impl RIB_AFI_ADDPATH {
    /// Parse a RIB_AFI_ADDPATH record from its body bytes.
    pub fn parse(_afi: &AFI, body: &[u8]) -> (r: Result<RIB_AFI_ADDPATH, MrtError>)
        ensures
            decodes_to(r, spec_parse_rib_afi_add_path(body@)),
    {
        let mut pos: usize = 0;
        let sequence_number = match read_u32(body, &mut pos) {
            Ok(v) => v,
            Err(e) => {
                return Err(e);
            },
        };
        let prefix_length = match read_u8(body, &mut pos) {
            Ok(v) => v,
            Err(e) => {
                return Err(e);
            },
        };
        let prefix = match read_prefix(body, &mut pos, prefix_length) {
            Ok(v) => v,
            Err(e) => {
                return Err(e);
            },
        };
        let entry_count = match read_u16(body, &mut pos) {
            Ok(v) => v,
            Err(e) => {
                return Err(e);
            },
        };
        let entries = match parse_rib_entries_add_path(body, &mut pos, entry_count) {
            Ok(v) => v,
            Err(e) => {
                return Err(e);
            },
        };
        Ok(RIB_AFI_ADDPATH { sequence_number, prefix_length, prefix, entries })
    }
}

/// Generic RIB record with explicit AFI/SAFI and the Add-Path extension.
#[derive(Debug, Clone, PartialEq)]
pub struct RIB_GENERIC_ADDPATH {
    /// Sequence number within the dump
    pub sequence_number: u32,
    /// Address family identifier
    pub afi: AFI,
    /// Subsequent AFI
    pub safi: u8,
    /// NLRI (Network Layer Reachability Information)
    pub nlri: Vec<u8>,
    /// RIB entries with path identifiers
    pub entries: Vec<RIBEntryAddPath>,
}

/// The mathematical value of a [`RIB_GENERIC_ADDPATH`] record.
pub struct RibGenericAddPathView {
    /// Sequence number within the dump
    pub sequence_number: u32,
    /// Address family identifier
    pub afi: AFI,
    /// Subsequent AFI
    pub safi: u8,
    /// NLRI bytes
    pub nlri: Seq<u8>,
    /// RIB entries with path identifiers
    pub entries: Seq<RibEntryAddPathView>,
}

impl View for RIB_GENERIC_ADDPATH {
    type V = RibGenericAddPathView;

    open spec fn view(&self) -> RibGenericAddPathView {
        RibGenericAddPathView {
            sequence_number: self.sequence_number,
            afi: self.afi,
            safi: self.safi,
            nlri: self.nlri@,
            entries: rib_entry_add_path_views(self.entries@),
        }
    }
}

/// A RIB_GENERIC_ADDPATH body: laid out as RIB_GENERIC, with Add-Path
/// entries.
pub open spec fn spec_parse_rib_generic_add_path(body: Seq<u8>) -> Result<
    RibGenericAddPathView,
    MrtError,
> {
    if body.len() < 6 {
        Err(MrtError::Framing)
    } else {
        match spec_afi_at(body, 4) {
            Err(e) => Err(e),
            Ok(afi) => {
                if body.len() < 9 {
                    Err(MrtError::Framing)
                } else {
                    let nlri_len = be_uint(body, 7, 2);
                    if body.len() < 9 + nlri_len + 2 {
                        Err(MrtError::Framing)
                    } else {
                        let count = be_uint(body, 9 + nlri_len, 2);
                        match spec_parse_rib_entries_add_path(body, 11 + nlri_len, count as nat) {
                            Err(e) => Err(e),
                            Ok((entries, _end)) => Ok(
                                RibGenericAddPathView {
                                    sequence_number: be_uint(body, 0, 4) as u32,
                                    afi,
                                    safi: body[6],
                                    nlri: body.subrange(9, 9 + nlri_len),
                                    entries,
                                },
                            ),
                        }
                    }
                }
            },
        }
    }
}

impl RIB_GENERIC_ADDPATH {
    /// Parse a RIB_GENERIC_ADDPATH record from its body bytes.
    pub fn parse(body: &[u8]) -> (r: Result<RIB_GENERIC_ADDPATH, MrtError>)
        ensures
            decodes_to(r, spec_parse_rib_generic_add_path(body@)),
    {
        let mut pos: usize = 0;
        let sequence_number = match read_u32(body, &mut pos) {
            Ok(v) => v,
            Err(e) => {
                return Err(e);
            },
        };
        let afi = match read_afi(body, &mut pos) {
            Ok(a) => a,
            Err(e) => {
                return Err(e);
            },
        };
        let safi = match read_u8(body, &mut pos) {
            Ok(v) => v,
            Err(e) => {
                return Err(e);
            },
        };
        let nlri_len = match read_u16(body, &mut pos) {
            Ok(v) => v,
            Err(e) => {
                return Err(e);
            },
        };
        let nlri = match read_bytes(body, &mut pos, nlri_len as usize) {
            Ok(v) => v,
            Err(e) => {
                return Err(e);
            },
        };
        let entry_count = match read_u16(body, &mut pos) {
            Ok(v) => v,
            Err(e) => {
                return Err(e);
            },
        };
        let entries = match parse_rib_entries_add_path(body, &mut pos, entry_count) {
            Ok(v) => v,
            Err(e) => {
                return Err(e);
            },
        };
        Ok(RIB_GENERIC_ADDPATH { sequence_number, afi, safi, nlri, entries })
    }
}

/// TABLE_DUMP_V2 record (type 13): one variant per subtype.
#[derive(Debug, Clone, PartialEq)]
pub enum TABLE_DUMP_V2 {
    /// Peer index table (1)
    PEER_INDEX_TABLE(PEER_INDEX_TABLE),
    /// IPv4 unicast RIB entries (2)
    RIB_IPV4_UNICAST(RIB_AFI),
    /// IPv4 multicast RIB entries (3)
    RIB_IPV4_MULTICAST(RIB_AFI),
    /// IPv6 unicast RIB entries (4)
    RIB_IPV6_UNICAST(RIB_AFI),
    /// IPv6 multicast RIB entries (5)
    RIB_IPV6_MULTICAST(RIB_AFI),
    /// Generic RIB entries with explicit AFI/SAFI (6)
    RIB_GENERIC(RIB_GENERIC),
    /// IPv4 unicast RIB entries with Add-Path (8)
    RIB_IPV4_UNICAST_ADDPATH(RIB_AFI_ADDPATH),
    /// IPv4 multicast RIB entries with Add-Path (9)
    RIB_IPV4_MULTICAST_ADDPATH(RIB_AFI_ADDPATH),
    /// IPv6 unicast RIB entries with Add-Path (10)
    RIB_IPV6_UNICAST_ADDPATH(RIB_AFI_ADDPATH),
    /// IPv6 multicast RIB entries with Add-Path (11)
    RIB_IPV6_MULTICAST_ADDPATH(RIB_AFI_ADDPATH),
    /// Generic RIB entries with Add-Path (12)
    RIB_GENERIC_ADDPATH(RIB_GENERIC_ADDPATH),
}

/// The mathematical value of a [`TABLE_DUMP_V2`] record.
pub enum TableDumpV2View {
    /// Peer index table
    PEER_INDEX_TABLE(PeerIndexTableView),
    /// IPv4 unicast RIB entries
    RIB_IPV4_UNICAST(RibAfiView),
    /// IPv4 multicast RIB entries
    RIB_IPV4_MULTICAST(RibAfiView),
    /// IPv6 unicast RIB entries
    RIB_IPV6_UNICAST(RibAfiView),
    /// IPv6 multicast RIB entries
    RIB_IPV6_MULTICAST(RibAfiView),
    /// Generic RIB entries with explicit AFI/SAFI
    RIB_GENERIC(RibGenericView),
    /// IPv4 unicast RIB entries with Add-Path
    RIB_IPV4_UNICAST_ADDPATH(RibAfiAddPathView),
    /// IPv4 multicast RIB entries with Add-Path
    RIB_IPV4_MULTICAST_ADDPATH(RibAfiAddPathView),
    /// IPv6 unicast RIB entries with Add-Path
    RIB_IPV6_UNICAST_ADDPATH(RibAfiAddPathView),
    /// IPv6 multicast RIB entries with Add-Path
    RIB_IPV6_MULTICAST_ADDPATH(RibAfiAddPathView),
    /// Generic RIB entries with Add-Path
    RIB_GENERIC_ADDPATH(RibGenericAddPathView),
}

impl View for TABLE_DUMP_V2 {
    type V = TableDumpV2View;

    open spec fn view(&self) -> TableDumpV2View {
        match self {
            TABLE_DUMP_V2::PEER_INDEX_TABLE(v) => TableDumpV2View::PEER_INDEX_TABLE(v@),
            TABLE_DUMP_V2::RIB_IPV4_UNICAST(v) => TableDumpV2View::RIB_IPV4_UNICAST(v@),
            TABLE_DUMP_V2::RIB_IPV4_MULTICAST(v) => TableDumpV2View::RIB_IPV4_MULTICAST(v@),
            TABLE_DUMP_V2::RIB_IPV6_UNICAST(v) => TableDumpV2View::RIB_IPV6_UNICAST(v@),
            TABLE_DUMP_V2::RIB_IPV6_MULTICAST(v) => TableDumpV2View::RIB_IPV6_MULTICAST(v@),
            TABLE_DUMP_V2::RIB_GENERIC(v) => TableDumpV2View::RIB_GENERIC(v@),
            TABLE_DUMP_V2::RIB_IPV4_UNICAST_ADDPATH(v) => TableDumpV2View::RIB_IPV4_UNICAST_ADDPATH(
                v@,
            ),
            TABLE_DUMP_V2::RIB_IPV4_MULTICAST_ADDPATH(v) => {
                TableDumpV2View::RIB_IPV4_MULTICAST_ADDPATH(v@)
            },
            TABLE_DUMP_V2::RIB_IPV6_UNICAST_ADDPATH(v) => TableDumpV2View::RIB_IPV6_UNICAST_ADDPATH(
                v@,
            ),
            TABLE_DUMP_V2::RIB_IPV6_MULTICAST_ADDPATH(v) => {
                TableDumpV2View::RIB_IPV6_MULTICAST_ADDPATH(v@)
            },
            TABLE_DUMP_V2::RIB_GENERIC_ADDPATH(v) => TableDumpV2View::RIB_GENERIC_ADDPATH(v@),
        }
    }
}

/// A TABLE_DUMP_V2 body, dispatched on the header subtype.
pub open spec fn spec_parse_table_dump_v2(h: Header, body: Seq<u8>) -> Result<
    TableDumpV2View,
    MrtError,
> {
    if h.sub_type == 1 {
        match spec_parse_peer_index_table(body) {
            Ok(v) => Ok(TableDumpV2View::PEER_INDEX_TABLE(v)),
            Err(e) => Err(e),
        }
    } else if h.sub_type == 2 {
        match spec_parse_rib_afi(body) {
            Ok(v) => Ok(TableDumpV2View::RIB_IPV4_UNICAST(v)),
            Err(e) => Err(e),
        }
    } else if h.sub_type == 3 {
        match spec_parse_rib_afi(body) {
            Ok(v) => Ok(TableDumpV2View::RIB_IPV4_MULTICAST(v)),
            Err(e) => Err(e),
        }
    } else if h.sub_type == 4 {
        match spec_parse_rib_afi(body) {
            Ok(v) => Ok(TableDumpV2View::RIB_IPV6_UNICAST(v)),
            Err(e) => Err(e),
        }
    } else if h.sub_type == 5 {
        match spec_parse_rib_afi(body) {
            Ok(v) => Ok(TableDumpV2View::RIB_IPV6_MULTICAST(v)),
            Err(e) => Err(e),
        }
    } else if h.sub_type == 6 {
        match spec_parse_rib_generic(body) {
            Ok(v) => Ok(TableDumpV2View::RIB_GENERIC(v)),
            Err(e) => Err(e),
        }
    } else if h.sub_type == 8 {
        match spec_parse_rib_afi_add_path(body) {
            Ok(v) => Ok(TableDumpV2View::RIB_IPV4_UNICAST_ADDPATH(v)),
            Err(e) => Err(e),
        }
    } else if h.sub_type == 9 {
        match spec_parse_rib_afi_add_path(body) {
            Ok(v) => Ok(TableDumpV2View::RIB_IPV4_MULTICAST_ADDPATH(v)),
            Err(e) => Err(e),
        }
    } else if h.sub_type == 10 {
        match spec_parse_rib_afi_add_path(body) {
            Ok(v) => Ok(TableDumpV2View::RIB_IPV6_UNICAST_ADDPATH(v)),
            Err(e) => Err(e),
        }
    } else if h.sub_type == 11 {
        match spec_parse_rib_afi_add_path(body) {
            Ok(v) => Ok(TableDumpV2View::RIB_IPV6_MULTICAST_ADDPATH(v)),
            Err(e) => Err(e),
        }
    } else if h.sub_type == 12 {
        match spec_parse_rib_generic_add_path(body) {
            Ok(v) => Ok(TableDumpV2View::RIB_GENERIC_ADDPATH(v)),
            Err(e) => Err(e),
        }
    } else {
        Err(MrtError::UnsupportedSubtype)
    }
}

impl TABLE_DUMP_V2 {
    /// Parse a TABLE_DUMP_V2 record from its body bytes, dispatching on the
    /// subtype.
    pub fn parse(header: &Header, body: &[u8]) -> (r: Result<TABLE_DUMP_V2, MrtError>)
        ensures
            decodes_to(r, spec_parse_table_dump_v2(*header, body@)),
    {
        match header.sub_type {
            1 => match PEER_INDEX_TABLE::parse(body) {
                Ok(v) => Ok(TABLE_DUMP_V2::PEER_INDEX_TABLE(v)),
                Err(e) => Err(e),
            },
            2 => match RIB_AFI::parse(&AFI::IPV4, body) {
                Ok(v) => Ok(TABLE_DUMP_V2::RIB_IPV4_UNICAST(v)),
                Err(e) => Err(e),
            },
            3 => match RIB_AFI::parse(&AFI::IPV4, body) {
                Ok(v) => Ok(TABLE_DUMP_V2::RIB_IPV4_MULTICAST(v)),
                Err(e) => Err(e),
            },
            4 => match RIB_AFI::parse(&AFI::IPV6, body) {
                Ok(v) => Ok(TABLE_DUMP_V2::RIB_IPV6_UNICAST(v)),
                Err(e) => Err(e),
            },
            5 => match RIB_AFI::parse(&AFI::IPV6, body) {
                Ok(v) => Ok(TABLE_DUMP_V2::RIB_IPV6_MULTICAST(v)),
                Err(e) => Err(e),
            },
            6 => match RIB_GENERIC::parse(body) {
                Ok(v) => Ok(TABLE_DUMP_V2::RIB_GENERIC(v)),
                Err(e) => Err(e),
            },
            8 => match RIB_AFI_ADDPATH::parse(&AFI::IPV4, body) {
                Ok(v) => Ok(TABLE_DUMP_V2::RIB_IPV4_UNICAST_ADDPATH(v)),
                Err(e) => Err(e),
            },
            9 => match RIB_AFI_ADDPATH::parse(&AFI::IPV4, body) {
                Ok(v) => Ok(TABLE_DUMP_V2::RIB_IPV4_MULTICAST_ADDPATH(v)),
                Err(e) => Err(e),
            },
            10 => match RIB_AFI_ADDPATH::parse(&AFI::IPV6, body) {
                Ok(v) => Ok(TABLE_DUMP_V2::RIB_IPV6_UNICAST_ADDPATH(v)),
                Err(e) => Err(e),
            },
            11 => match RIB_AFI_ADDPATH::parse(&AFI::IPV6, body) {
                Ok(v) => Ok(TABLE_DUMP_V2::RIB_IPV6_MULTICAST_ADDPATH(v)),
                Err(e) => Err(e),
            },
            12 => match RIB_GENERIC_ADDPATH::parse(body) {
                Ok(v) => Ok(TABLE_DUMP_V2::RIB_GENERIC_ADDPATH(v)),
                Err(e) => Err(e),
            },
            _ => Err(MrtError::UnsupportedSubtype),
        }
    }
}

} // verus!
