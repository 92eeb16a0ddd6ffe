//! Decoder for MRT-format binary dumps (RFC 6396 / RFC 8050), the archival
//! format route collectors use to record BGP routing-table snapshots and
//! update streams.
//!
//! The wire format is a sequence of records, each a fixed 12-byte big-endian
//! common header (timestamp, type, subtype, length), an optional 4-byte
//! extended-timestamp field, and a `length`-derived body. Every record family
//! is decoded into a typed value; decoding is specified down to the byte.

use vstd::prelude::*;

pub mod address;
pub mod readahead;
pub mod records;
pub mod stream;
pub mod wire;

verus! {

/// An executable decode result matches its specification-level counterpart:
/// the same error, or a value whose view is the specified one.
pub open spec fn decodes_to<T: View, E>(r: Result<T, E>, s: Result<T::V, E>) -> bool {
    match r {
        Ok(v) => s == Ok::<T::V, E>(v@),
        Err(e) => s == Err::<T::V, E>(e),
    }
}

/// Address Family Identifier (AFI) as defined in RFC 4760.
///
/// Distinguishes IPv4 and IPv6 address families in MRT records.
/// On the wire, IPv4 is code 1 and IPv6 is code 2; every other code is
/// rejected with [`MrtError::InvalidAFI`].
#[derive(Debug, Clone, Copy, PartialEq, Eq, Hash, Structural)]
pub enum AFI {
    /// IPv4 address family (wire code 1)
    IPV4,
    /// IPv6 address family (wire code 2)
    IPV6,
}

impl AFI {
    /// Returns the size in bytes of addresses for this address family.
    pub fn size(&self) -> (r: u32)
        ensures
            r == self.spec_size(),
    {
        match self {
            AFI::IPV4 => 4,
            AFI::IPV6 => 16,
        }
    }

    /// Address width in bytes: 4 for IPv4, 16 for IPv6.
    pub open spec fn spec_size(self) -> u32 {
        match self {
            AFI::IPV4 => 4,
            AFI::IPV6 => 16,
        }
    }

    /// The AFI selected by a 16-bit wire code, if the code is valid.
    pub open spec fn spec_from_u16(value: u16) -> Result<AFI, MrtError> {
        if value == 1 {
            Ok(AFI::IPV4)
        } else if value == 2 {
            Ok(AFI::IPV6)
        } else {
            Err(MrtError::InvalidAFI)
        }
    }

    /// Parse an AFI value from a 16-bit wire code: 1 is IPv4, 2 is IPv6,
    /// anything else is invalid.
    pub fn from_u16(value: u16) -> (r: Result<AFI, MrtError>)
        ensures
            r == AFI::spec_from_u16(value),
    {
        match value {
            1 => Ok(AFI::IPV4),
            2 => Ok(AFI::IPV6),
            _ => Err(MrtError::InvalidAFI),
        }
    }
}

/// Why a decode call failed.
///
/// A clean end of the stream is not an error: the streaming entry points
/// report it as `Ok(None)` instead.
#[derive(Debug, Clone, Copy, PartialEq, Eq, Structural)]
pub enum MrtError {
    /// The input ended inside a header or a body: a short read anywhere past
    /// a record boundary.
    Framing,
    /// The record type is not one this decoder knows.
    UnsupportedRecordType,
    /// The subtype is not one its record family knows.
    UnsupportedSubtype,
    /// An address-family code on the wire was neither 1 (IPv4) nor 2 (IPv6).
    InvalidAFI,
}

/// MRT record header that precedes every record.
#[derive(Debug, Clone, Copy, PartialEq, Eq, Structural)]
pub struct Header {
    /// UNIX timestamp (seconds since epoch)
    pub timestamp: u32,
    /// Extended timestamp in microseconds (only set for extended-timestamp
    /// record types, otherwise 0)
    pub extended: u32,
    /// Record type identifier
    pub record_type: u16,
    /// Record subtype identifier
    pub sub_type: u16,
    /// Length of the record payload in bytes (excluding the fixed header,
    /// but including the 4 extended-timestamp bytes when present)
    pub length: u32,
}

/// Whether a record type carries a 4-byte extended (microsecond) timestamp
/// between the fixed header and the body: BGP4MP_ET (17), ISIS_ET (33) and
/// OSPFv3_ET (49).
pub open spec fn spec_is_extended_type(record_type: u16) -> bool {
    record_type == 17 || record_type == 33 || record_type == 49
}

/// Check if a record type uses the extended-timestamp format.
pub fn is_extended_type(record_type: u16) -> (r: bool)
    ensures
        r == spec_is_extended_type(record_type),
{
    record_type == 17 || record_type == 33 || record_type == 49
}

/// Fully-parsed MRT record: one variant per record type of RFC 6396.
#[derive(Debug, Clone, PartialEq)]
pub enum Record {
    /// Null record (type 0)
    NULL,
    /// Start record (type 1)
    START,
    /// Die record (type 2)
    DIE,
    /// I am dead record (type 3)
    I_AM_DEAD,
    /// Peer down record (type 4)
    PEER_DOWN,
    /// Legacy BGP record (type 5) - deprecated
    BGP(records::bgp::BGP),
    /// RIP record (type 6)
    RIP(records::rip::RIP),
    /// IDRP record (type 7) - reserved
    IDRP,
    /// RIPng record (type 8)
    RIPNG(records::rip::RIPNG),
    /// BGP4+ record (type 9) - deprecated
    BGP4PLUS(records::bgp4plus::BGP4PLUS),
    /// BGP4+ record variant (type 10) - deprecated
    BGP4PLUS_01(records::bgp4plus::BGP4PLUS),
    /// OSPFv2 record (type 11)
    OSPFv2(records::ospf::OSPFv2),
    /// TABLE_DUMP record (type 12)
    TABLE_DUMP(records::tabledump::TABLE_DUMP),
    /// TABLE_DUMP_V2 record (type 13)
    TABLE_DUMP_V2(records::tabledump::TABLE_DUMP_V2),
    /// BGP4MP record (type 16)
    BGP4MP(records::bgp4mp::BGP4MP),
    /// BGP4MP with extended timestamp (type 17)
    BGP4MP_ET(records::bgp4mp::BGP4MP),
    /// IS-IS record (type 32)
    ISIS(Vec<u8>),
    /// IS-IS with extended timestamp (type 33)
    ISIS_ET(Vec<u8>),
    /// OSPFv3 record (type 48)
    OSPFv3(records::ospf::OSPFv3),
    /// OSPFv3 with extended timestamp (type 49)
    OSPFv3_ET(records::ospf::OSPFv3),
}

/// The mathematical value of a [`Record`].
pub enum RecordView {
    /// Null record
    NULL,
    /// Start record
    START,
    /// Die record
    DIE,
    /// I am dead record
    I_AM_DEAD,
    /// Peer down record
    PEER_DOWN,
    /// Legacy BGP record
    BGP(records::bgp::BgpView),
    /// RIP record
    RIP(records::rip::RipView),
    /// IDRP record (reserved)
    IDRP,
    /// RIPng record
    RIPNG(records::rip::RipngView),
    /// BGP4+ record
    BGP4PLUS(records::bgp4plus::Bgp4plusView),
    /// BGP4+ record variant
    BGP4PLUS_01(records::bgp4plus::Bgp4plusView),
    /// OSPFv2 record
    OSPFv2(records::ospf::Ospfv2View),
    /// TABLE_DUMP record
    TABLE_DUMP(records::tabledump::TableDumpView),
    /// TABLE_DUMP_V2 record
    TABLE_DUMP_V2(records::tabledump::TableDumpV2View),
    /// BGP4MP record
    BGP4MP(records::bgp4mp::Bgp4mpView),
    /// BGP4MP with extended timestamp
    BGP4MP_ET(records::bgp4mp::Bgp4mpView),
    /// IS-IS record
    ISIS(Seq<u8>),
    /// IS-IS with extended timestamp
    ISIS_ET(Seq<u8>),
    /// OSPFv3 record
    OSPFv3(records::ospf::Ospfv3View),
    /// OSPFv3 with extended timestamp
    OSPFv3_ET(records::ospf::Ospfv3View),
}

impl View for Record {
    type V = RecordView;

    open spec fn view(&self) -> RecordView {
        match self {
            Record::NULL => RecordView::NULL,
            Record::START => RecordView::START,
            Record::DIE => RecordView::DIE,
            Record::I_AM_DEAD => RecordView::I_AM_DEAD,
            Record::PEER_DOWN => RecordView::PEER_DOWN,
            Record::BGP(v) => RecordView::BGP(v@),
            Record::RIP(v) => RecordView::RIP(v@),
            Record::IDRP => RecordView::IDRP,
            Record::RIPNG(v) => RecordView::RIPNG(v@),
            Record::BGP4PLUS(v) => RecordView::BGP4PLUS(v@),
            Record::BGP4PLUS_01(v) => RecordView::BGP4PLUS_01(v@),
            Record::OSPFv2(v) => RecordView::OSPFv2(v@),
            Record::TABLE_DUMP(v) => RecordView::TABLE_DUMP(v@),
            Record::TABLE_DUMP_V2(v) => RecordView::TABLE_DUMP_V2(v@),
            Record::BGP4MP(v) => RecordView::BGP4MP(v@),
            Record::BGP4MP_ET(v) => RecordView::BGP4MP_ET(v@),
            Record::ISIS(v) => RecordView::ISIS(v@),
            Record::ISIS_ET(v) => RecordView::ISIS_ET(v@),
            Record::OSPFv3(v) => RecordView::OSPFv3(v@),
            Record::OSPFv3_ET(v) => RecordView::OSPFv3_ET(v@),
        }
    }
}

/// A record body, dispatched on the header's record type.
///
/// Opaque: proofs about the record framing never need to look inside a
/// body, only the body decoders themselves do (they reveal it).
#[verifier::opaque]
pub open spec fn spec_parse_record(h: Header, body: Seq<u8>) -> Result<RecordView, MrtError> {
    if h.record_type == 0 {
        Ok(RecordView::NULL)
    } else if h.record_type == 1 {
        Ok(RecordView::START)
    } else if h.record_type == 2 {
        Ok(RecordView::DIE)
    } else if h.record_type == 3 {
        Ok(RecordView::I_AM_DEAD)
    } else if h.record_type == 4 {
        Ok(RecordView::PEER_DOWN)
    } else if h.record_type == 5 {
        match records::bgp::spec_parse_bgp(h, body) {
            Ok(v) => Ok(RecordView::BGP(v)),
            Err(e) => Err(e),
        }
    } else if h.record_type == 6 {
        match records::rip::spec_parse_rip(h, body) {
            Ok(v) => Ok(RecordView::RIP(v)),
            Err(e) => Err(e),
        }
    } else if h.record_type == 7 {
        Ok(RecordView::IDRP)
    } else if h.record_type == 8 {
        match records::rip::spec_parse_ripng(h, body) {
            Ok(v) => Ok(RecordView::RIPNG(v)),
            Err(e) => Err(e),
        }
    } else if h.record_type == 9 {
        match records::bgp4plus::spec_parse_bgp4plus(h, body) {
            Ok(v) => Ok(RecordView::BGP4PLUS(v)),
            Err(e) => Err(e),
        }
    } else if h.record_type == 10 {
        match records::bgp4plus::spec_parse_bgp4plus(h, body) {
            Ok(v) => Ok(RecordView::BGP4PLUS_01(v)),
            Err(e) => Err(e),
        }
    } else if h.record_type == 11 {
        match records::ospf::spec_parse_ospfv2(h, body) {
            Ok(v) => Ok(RecordView::OSPFv2(v)),
            Err(e) => Err(e),
        }
    } else if h.record_type == 12 {
        match records::tabledump::spec_parse_table_dump(h, body) {
            Ok(v) => Ok(RecordView::TABLE_DUMP(v)),
            Err(e) => Err(e),
        }
    } else if h.record_type == 13 {
        match records::tabledump::spec_parse_table_dump_v2(h, body) {
            Ok(v) => Ok(RecordView::TABLE_DUMP_V2(v)),
            Err(e) => Err(e),
        }
    } else if h.record_type == 16 {
        match records::bgp4mp::spec_parse_bgp4mp(h, body) {
            Ok(v) => Ok(RecordView::BGP4MP(v)),
            Err(e) => Err(e),
        }
    } else if h.record_type == 17 {
        match records::bgp4mp::spec_parse_bgp4mp(h, body) {
            Ok(v) => Ok(RecordView::BGP4MP_ET(v)),
            Err(e) => Err(e),
        }
    } else if h.record_type == 32 {
        match records::isis::spec_parse(h, body) {
            Ok(v) => Ok(RecordView::ISIS(v)),
            Err(e) => Err(e),
        }
    } else if h.record_type == 33 {
        match records::isis::spec_parse(h, body) {
            Ok(v) => Ok(RecordView::ISIS_ET(v)),
            Err(e) => Err(e),
        }
    } else if h.record_type == 48 {
        match records::ospf::spec_parse_ospfv3(h, body) {
            Ok(v) => Ok(RecordView::OSPFv3(v)),
            Err(e) => Err(e),
        }
    } else if h.record_type == 49 {
        match records::ospf::spec_parse_ospfv3(h, body) {
            Ok(v) => Ok(RecordView::OSPFv3_ET(v)),
            Err(e) => Err(e),
        }
    } else {
        Err(MrtError::UnsupportedRecordType)
    }
}

/// Parse a record body into the appropriate [`Record`] variant, dispatching
/// purely on `(record_type, sub_type)`. `body` holds exactly the record's
/// body bytes (the extended-timestamp field, if any, already consumed).
pub fn parse_record(header: &Header, body: &[u8]) -> (r: Result<Record, MrtError>)
    ensures
        decodes_to(r, spec_parse_record(*header, body@)),
{
    proof {
        reveal(spec_parse_record);
    }
    match header.record_type {
        0 => Ok(Record::NULL),
        1 => Ok(Record::START),
        2 => Ok(Record::DIE),
        3 => Ok(Record::I_AM_DEAD),
        4 => Ok(Record::PEER_DOWN),
        5 => match records::bgp::BGP::parse(header, body) {
            Ok(v) => Ok(Record::BGP(v)),
            Err(e) => Err(e),
        },
        6 => match records::rip::RIP::parse(header, body) {
            Ok(v) => Ok(Record::RIP(v)),
            Err(e) => Err(e),
        },
        7 => Ok(Record::IDRP),
        8 => match records::rip::RIPNG::parse(header, body) {
            Ok(v) => Ok(Record::RIPNG(v)),
            Err(e) => Err(e),
        },
        9 => match records::bgp4plus::BGP4PLUS::parse(header, body) {
            Ok(v) => Ok(Record::BGP4PLUS(v)),
            Err(e) => Err(e),
        },
        10 => match records::bgp4plus::BGP4PLUS::parse(header, body) {
            Ok(v) => Ok(Record::BGP4PLUS_01(v)),
            Err(e) => Err(e),
        },
        11 => match records::ospf::OSPFv2::parse(header, body) {
            Ok(v) => Ok(Record::OSPFv2(v)),
            Err(e) => Err(e),
        },
        12 => match records::tabledump::TABLE_DUMP::parse(header, body) {
            Ok(v) => Ok(Record::TABLE_DUMP(v)),
            Err(e) => Err(e),
        },
        13 => match records::tabledump::TABLE_DUMP_V2::parse(header, body) {
            Ok(v) => Ok(Record::TABLE_DUMP_V2(v)),
            Err(e) => Err(e),
        },
        16 => match records::bgp4mp::BGP4MP::parse(header, body) {
            Ok(v) => Ok(Record::BGP4MP(v)),
            Err(e) => Err(e),
        },
        17 => match records::bgp4mp::BGP4MP::parse(header, body) {
            Ok(v) => Ok(Record::BGP4MP_ET(v)),
            Err(e) => Err(e),
        },
        32 => match records::isis::parse(header, body) {
            Ok(v) => Ok(Record::ISIS(v)),
            Err(e) => Err(e),
        },
        33 => match records::isis::parse(header, body) {
            Ok(v) => Ok(Record::ISIS_ET(v)),
            Err(e) => Err(e),
        },
        48 => match records::ospf::OSPFv3::parse(header, body) {
            Ok(v) => Ok(Record::OSPFv3(v)),
            Err(e) => Err(e),
        },
        49 => match records::ospf::OSPFv3::parse(header, body) {
            Ok(v) => Ok(Record::OSPFv3_ET(v)),
            Err(e) => Err(e),
        },
        _ => Err(MrtError::UnsupportedRecordType),
    }
}

/// The fixed 12-byte common header stored at byte offset `i` of `s`:
/// timestamp (4), record type (2), subtype (2), length (4), all big-endian;
/// `extended` is 0 until the extended-timestamp field is read.
pub open spec fn spec_header_at(s: Seq<u8>, i: int) -> Header {
    Header {
        timestamp: wire::be_uint(s, i, 4) as u32,
        extended: 0,
        record_type: wire::be_uint(s, i + 4, 2) as u16,
        sub_type: wire::be_uint(s, i + 6, 2) as u16,
        length: wire::be_uint(s, i + 8, 4) as u32,
    }
}

/// The effective body length of a record: the header `length`, less the 4
/// extended-timestamp bytes for the extended record types (saturating).
pub open spec fn spec_body_length(h: Header) -> int {
    if spec_is_extended_type(h.record_type) {
        wire::sat_sub(h.length as int, 4)
    } else {
        h.length as int
    }
}

/// Parse the fixed 12-byte common header at the cursor. The cursor moves
/// only on success.
pub fn parse_common_header(input: &[u8], pos: &mut usize) -> (r: Result<Header, MrtError>)
    requires
        *old(pos) <= input@.len(),
    ensures
        match r {
            Ok(h) => {
                &&& *old(pos) + 12 <= input@.len()
                &&& h == spec_header_at(input@, *old(pos) as int)
                &&& *final(pos) == *old(pos) + 12
            },
            Err(e) => {
                &&& e == MrtError::Framing
                &&& *old(pos) + 12 > input@.len()
                &&& *final(pos) == *old(pos)
            },
        },
{
    let mut cur: usize = *pos;
    let timestamp = match wire::read_u32(input, &mut cur) {
        Ok(v) => v,
        Err(e) => {
            return Err(e);
        },
    };
    let record_type = match wire::read_u16(input, &mut cur) {
        Ok(v) => v,
        Err(e) => {
            return Err(e);
        },
    };
    let sub_type = match wire::read_u16(input, &mut cur) {
        Ok(v) => v,
        Err(e) => {
            return Err(e);
        },
    };
    let length = match wire::read_u32(input, &mut cur) {
        Ok(v) => v,
        Err(e) => {
            return Err(e);
        },
    };
    *pos = cur;
    Ok(Header { timestamp, extended: 0, record_type, sub_type, length })
}

/// The effective body length of a record whose header has been read.
pub fn body_length_of(header: &Header) -> (r: u32)
    ensures
        r as int == spec_body_length(*header),
{
    if is_extended_type(header.record_type) {
        wire::sat_sub_u32(header.length, 4)
    } else {
        header.length
    }
}

/// The outcome of decoding one record at a position of a byte stream.
pub enum ReadOutcome {
    /// Clean end of stream: the position stands exactly at the end.
    End,
    /// A record: its header, its value, and the position just past it.
    Rec(Header, RecordView, int),
    /// A decode failure.
    Fail(MrtError),
}

/// Decode one record of the byte stream `input` at position `pos`: the
/// clean-termination signal exactly at the end of the input, else the fixed
/// header, the extended timestamp for the extended types, and exactly
/// `spec_body_length` body bytes handed to the body decoder.
pub open spec fn spec_read(input: Seq<u8>, pos: int) -> ReadOutcome {
    if pos == input.len() {
        ReadOutcome::End
    } else if input.len() < pos + 12 {
        ReadOutcome::Fail(MrtError::Framing)
    } else {
        let h0 = spec_header_at(input, pos);
        if spec_is_extended_type(h0.record_type) {
            if input.len() < pos + 16 {
                ReadOutcome::Fail(MrtError::Framing)
            } else {
                let h = Header {
                    timestamp: h0.timestamp,
                    extended: wire::be_uint(input, pos + 12, 4) as u32,
                    record_type: h0.record_type,
                    sub_type: h0.sub_type,
                    length: h0.length,
                };
                let blen = spec_body_length(h);
                if input.len() < pos + 16 + blen {
                    ReadOutcome::Fail(MrtError::Framing)
                } else {
                    match spec_parse_record(h, input.subrange(pos + 16, pos + 16 + blen)) {
                        Ok(rv) => ReadOutcome::Rec(h, rv, pos + 16 + blen),
                        Err(e) => ReadOutcome::Fail(e),
                    }
                }
            }
        } else {
            let blen = spec_body_length(h0);
            if input.len() < pos + 12 + blen {
                ReadOutcome::Fail(MrtError::Framing)
            } else {
                match spec_parse_record(h0, input.subrange(pos + 12, pos + 12 + blen)) {
                    Ok(rv) => ReadOutcome::Rec(h0, rv, pos + 12 + blen),
                    Err(e) => ReadOutcome::Fail(e),
                }
            }
        }
    }
}

/// What the streaming entry points promise: the outcome determined by the
/// input bytes and the starting position alone, with the cursor advanced
/// past the record exactly on success.
pub open spec fn read_result_matches(
    input: Seq<u8>,
    pos_before: int,
    pos_after: int,
    r: Result<Option<(Header, Record)>, MrtError>,
) -> bool {
    match spec_read(input, pos_before) {
        ReadOutcome::End => r == Ok::<Option<(Header, Record)>, MrtError>(None) && pos_after
            == pos_before,
        ReadOutcome::Rec(h, rv, p2) => match r {
            Ok(Some((h2, rec))) => h2 == h && rec@ == rv && pos_after == p2,
            _ => false,
        },
        ReadOutcome::Fail(e) => r == Err::<Option<(Header, Record)>, MrtError>(e) && pos_after
            == pos_before,
    }
}

/// Read the next MRT record from `input` at the cursor, allocating a fresh
/// body buffer.
///
/// Returns `Ok(None)` exactly when the cursor stands at the end of the
/// input (the clean-termination signal), `Ok(Some((header, record)))` on
/// success with the cursor advanced just past the record, and an error with
/// the cursor unmoved for any framing or dispatch failure.
pub fn read(input: &[u8], pos: &mut usize) -> (r: Result<Option<(Header, Record)>, MrtError>)
    requires
        *old(pos) <= input@.len(),
    ensures
        read_result_matches(input@, *old(pos) as int, *final(pos) as int, r),
        *final(pos) <= input@.len(),
{
    let mut cur: usize = *pos;
    if cur == input.len() {
        return Ok(None);
    }
    let h0 = match parse_common_header(input, &mut cur) {
        Ok(h) => h,
        Err(e) => {
            return Err(e);
        },
    };
    let header = if is_extended_type(h0.record_type) {
        let microseconds = match wire::read_u32(input, &mut cur) {
            Ok(v) => v,
            Err(e) => {
                return Err(e);
            },
        };
        Header {
            timestamp: h0.timestamp,
            extended: microseconds,
            record_type: h0.record_type,
            sub_type: h0.sub_type,
            length: h0.length,
        }
    } else {
        h0
    };
    let body_length = body_length_of(&header);
    let body = match wire::read_bytes(input, &mut cur, body_length as usize) {
        Ok(v) => v,
        Err(e) => {
            return Err(e);
        },
    };
    let record = match parse_record(&header, body.as_slice()) {
        Ok(v) => v,
        Err(e) => {
            return Err(e);
        },
    };
    *pos = cur;
    Ok(Some((header, record)))
}

/// Read the next MRT record from `input` at the cursor, reusing a
/// caller-owned body buffer.
///
/// Behaves exactly as [`read`] — the outcome is a function of the input
/// bytes and the starting position alone, never of the buffer's prior
/// contents or capacity. After a successful decode the buffer holds exactly
/// the record's body bytes; its backing storage is reused when its capacity
/// already suffices.
pub fn read_with_buffer(input: &[u8], pos: &mut usize, body_buf: &mut Vec<u8>) -> (r: Result<
    Option<(Header, Record)>,
    MrtError,
>)
    requires
        *old(pos) <= input@.len(),
    ensures
        read_result_matches(input@, *old(pos) as int, *final(pos) as int, r),
        *final(pos) <= input@.len(),
        match spec_read(input@, *old(pos) as int) {
            ReadOutcome::Rec(h, rv, p2) => final(body_buf)@ == input@.subrange(
                p2 - spec_body_length(h),
                p2,
            ),
            _ => true,
        },
{
    let mut cur: usize = *pos;
    if cur == input.len() {
        return Ok(None);
    }
    let h0 = match parse_common_header(input, &mut cur) {
        Ok(h) => h,
        Err(e) => {
            return Err(e);
        },
    };
    let header = if is_extended_type(h0.record_type) {
        let microseconds = match wire::read_u32(input, &mut cur) {
            Ok(v) => v,
            Err(e) => {
                return Err(e);
            },
        };
        Header {
            timestamp: h0.timestamp,
            extended: microseconds,
            record_type: h0.record_type,
            sub_type: h0.sub_type,
            length: h0.length,
        }
    } else {
        h0
    };
    let body_length = body_length_of(&header);
    match wire::read_bytes_into(input, &mut cur, body_length as usize, body_buf) {
        Ok(()) => (),
        Err(e) => {
            return Err(e);
        },
    };
    let record = match parse_record(&header, body_buf.as_slice()) {
        Ok(v) => v,
        Err(e) => {
            return Err(e);
        },
    };
    *pos = cur;
    Ok(Some((header, record)))
}

/// The outcome of a header-only scan at a position of a byte stream.
pub enum ScanOutcome {
    /// Clean end of stream: the position stands exactly at the end.
    End,
    /// A header, and the position just past the record's body; a body that
    /// runs past the end of the input is skipped only to the end, as a
    /// forward seek past the end of a file would be.
    Hdr(Header, int),
    /// A scan failure.
    Fail(MrtError),
}

/// Scan one record of the byte stream `input` at position `pos` without
/// decoding its body: the header, with the skip destination accounting for
/// the extended-timestamp bytes exactly as `spec_read` does.
pub open spec fn spec_scan(input: Seq<u8>, pos: int) -> ScanOutcome {
    if pos == input.len() {
        ScanOutcome::End
    } else if input.len() < pos + 12 {
        ScanOutcome::Fail(MrtError::Framing)
    } else {
        let h0 = spec_header_at(input, pos);
        if spec_is_extended_type(h0.record_type) {
            if input.len() < pos + 16 {
                ScanOutcome::Fail(MrtError::Framing)
            } else {
                let h = Header {
                    timestamp: h0.timestamp,
                    extended: wire::be_uint(input, pos + 12, 4) as u32,
                    record_type: h0.record_type,
                    sub_type: h0.sub_type,
                    length: h0.length,
                };
                let skip_to = pos + 16 + spec_body_length(h);
                ScanOutcome::Hdr(
                    h,
                    if skip_to <= input.len() {
                        skip_to
                    } else {
                        input.len() as int
                    },
                )
            }
        } else {
            let skip_to = pos + 12 + spec_body_length(h0);
            ScanOutcome::Hdr(
                h0,
                if skip_to <= input.len() {
                    skip_to
                } else {
                    input.len() as int
                },
            )
        }
    }
}

/// Read only the next record's header, skipping its body without decoding
/// or allocating: the fast structural-scan entry point.
pub fn read_header_only(input: &[u8], pos: &mut usize) -> (r: Result<Option<Header>, MrtError>)
    requires
        *old(pos) <= input@.len(),
    ensures
        *final(pos) <= input@.len(),
        match spec_scan(input@, *old(pos) as int) {
            ScanOutcome::End => r == Ok::<Option<Header>, MrtError>(None) && *final(pos) == *old(
                pos,
            ),
            ScanOutcome::Hdr(h, p2) => r == Ok::<Option<Header>, MrtError>(Some(h)) && *final(pos)
                == p2,
            ScanOutcome::Fail(e) => r == Err::<Option<Header>, MrtError>(e) && *final(pos) == *old(
                pos,
            ),
        },
{
    let mut cur: usize = *pos;
    if cur == input.len() {
        return Ok(None);
    }
    let h0 = match parse_common_header(input, &mut cur) {
        Ok(h) => h,
        Err(e) => {
            return Err(e);
        },
    };
    let header = if is_extended_type(h0.record_type) {
        let microseconds = match wire::read_u32(input, &mut cur) {
            Ok(v) => v,
            Err(e) => {
                return Err(e);
            },
        };
        Header {
            timestamp: h0.timestamp,
            extended: microseconds,
            record_type: h0.record_type,
            sub_type: h0.sub_type,
            length: h0.length,
        }
    } else {
        h0
    };
    let skip = body_length_of(&header) as usize;
    let remaining = input.len() - cur;
    if skip <= remaining {
        *pos = cur + skip;
    } else {
        *pos = input.len();
    }
    Ok(Some(header))
}

} // verus!
