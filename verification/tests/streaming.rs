use mrt_ingester::records::bgp::{BGP, MESSAGE};
use mrt_ingester::{read, read_header_only, read_with_buffer, Header, MrtError, Record};

/// A NULL record: header only, no body.
fn null_record(timestamp: u32) -> Vec<u8> {
    let mut r = Vec::new();
    r.extend_from_slice(&timestamp.to_be_bytes());
    r.extend_from_slice(&[0x00, 0x00]); // type = 0 (NULL)
    r.extend_from_slice(&[0x00, 0x00]); // subtype = 0
    r.extend_from_slice(&[0x00, 0x00, 0x00, 0x00]); // length = 0
    r
}

/// An IS-IS record (type 32) carrying the given PDU bytes.
fn isis_record(timestamp: u32, pdu: &[u8]) -> Vec<u8> {
    let mut r = Vec::new();
    r.extend_from_slice(&timestamp.to_be_bytes());
    r.extend_from_slice(&[0x00, 0x20]); // type = 32 (ISIS)
    r.extend_from_slice(&[0x00, 0x00]); // subtype = 0
    r.extend_from_slice(&(pdu.len() as u32).to_be_bytes());
    r.extend_from_slice(pdu);
    r
}

/// A RIP record (type 6) with fixed addresses and the given message.
fn rip_record(timestamp: u32, message: &[u8]) -> Vec<u8> {
    let mut r = Vec::new();
    r.extend_from_slice(&timestamp.to_be_bytes());
    r.extend_from_slice(&[0x00, 0x06]); // type = 6 (RIP)
    r.extend_from_slice(&[0x00, 0x00]); // subtype = 0
    r.extend_from_slice(&((8 + message.len()) as u32).to_be_bytes());
    r.extend_from_slice(&[10, 0, 0, 1]); // remote
    r.extend_from_slice(&[10, 0, 0, 2]); // local
    r.extend_from_slice(message);
    r
}

/// Decode every record of `data`, expecting a clean end.
fn decode_all(data: &[u8]) -> Vec<(Header, Record)> {
    let mut out = Vec::new();
    let mut pos: usize = 0;
    while let Some(rec) = read(data, &mut pos).unwrap() {
        out.push(rec);
    }
    assert_eq!(pos, data.len());
    out
}

#[test]
fn test_sequential_decode_of_concatenation() {
    let mut data = Vec::new();
    data.extend_from_slice(&null_record(1));
    data.extend_from_slice(&isis_record(2, &[0xAA, 0xBB, 0xCC]));
    data.extend_from_slice(&rip_record(3, &[0x01, 0x02]));

    let records = decode_all(&data);
    assert_eq!(records.len(), 3);
    assert_eq!(records[0].0.timestamp, 1);
    assert!(matches!(records[0].1, Record::NULL));
    assert_eq!(records[1].0.timestamp, 2);
    match &records[1].1 {
        Record::ISIS(pdu) => assert_eq!(pdu, &vec![0xAA, 0xBB, 0xCC]),
        _ => panic!("Expected ISIS"),
    }
    assert_eq!(records[2].0.timestamp, 3);
    match &records[2].1 {
        Record::RIP(rip) => assert_eq!(rip.message, vec![0x01, 0x02]),
        _ => panic!("Expected RIP"),
    }

    // the clean-end signal repeats at the end of the stream
    let mut pos = data.len();
    assert!(read(&data, &mut pos).unwrap().is_none());
}

#[test]
fn test_extended_timestamp_consumption() {
    // BGP4MP_ET (type 17), subtype 0 (STATE_CHANGE), IPv4: body is 20 bytes,
    // wire length L = 24 includes the 4 microsecond bytes.
    let mut data = Vec::new();
    data.extend_from_slice(&[0x00, 0x00, 0x03, 0xE8]); // timestamp = 1000
    data.extend_from_slice(&[0x00, 0x11]); // type = 17 (BGP4MP_ET)
    data.extend_from_slice(&[0x00, 0x00]); // subtype = 0 (STATE_CHANGE)
    data.extend_from_slice(&[0x00, 0x00, 0x00, 0x18]); // length = 24
    data.extend_from_slice(&[0x00, 0x0F, 0x42, 0x40]); // microseconds = 1000000
    data.extend_from_slice(&[
        0x00, 0x64, // peer_as = 100
        0x00, 0xC8, // local_as = 200
        0x00, 0x00, // interface
        0x00, 0x01, // AFI = IPv4
        192, 168, 1, 1, // peer_address
        10, 0, 0, 1, // local_address
        0x00, 0x01, // old_state
        0x00, 0x06, // new_state
    ]);

    let mut pos: usize = 0;
    let (header, record) = read(&data, &mut pos).unwrap().unwrap();
    assert_eq!(header.extended, 1_000_000);
    assert_eq!(header.length, 24);
    // consumed: 12 header bytes + 4 microsecond bytes + (24 - 4) body bytes
    assert_eq!(pos, 12 + 4 + 20);
    assert!(matches!(record, Record::BGP4MP_ET(_)));
    assert!(read(&data, &mut pos).unwrap().is_none());
}

#[test]
fn test_isis_et_consumption() {
    // ISIS_ET (type 33): wire length 7 covers the 4 microsecond bytes and a
    // 3-byte PDU
    let mut data = Vec::new();
    data.extend_from_slice(&[0x00, 0x00, 0x00, 0x05]); // timestamp
    data.extend_from_slice(&[0x00, 0x21]); // type = 33 (ISIS_ET)
    data.extend_from_slice(&[0x00, 0x00]); // subtype
    data.extend_from_slice(&[0x00, 0x00, 0x00, 0x07]); // length = 7
    data.extend_from_slice(&[0x00, 0x00, 0x00, 0x2A]); // microseconds = 42
    data.extend_from_slice(&[0xD1, 0xD2, 0xD3]); // PDU
    let mut pos: usize = 0;
    let (header, record) = read(&data, &mut pos).unwrap().unwrap();
    assert_eq!(header.extended, 42);
    match record {
        Record::ISIS_ET(pdu) => assert_eq!(pdu, vec![0xD1, 0xD2, 0xD3]),
        _ => panic!("Expected ISIS_ET"),
    }
    assert_eq!(pos, 12 + 4 + 3);
    assert!(read(&data, &mut pos).unwrap().is_none());
}

#[test]
fn test_bgp4plus_01_dispatch() {
    // type 10 shares the BGP4+ wire shape but keeps its own tag
    let mut data = Vec::new();
    data.extend_from_slice(&[0x00, 0x00, 0x00, 0x06]); // timestamp
    data.extend_from_slice(&[0x00, 0x0A]); // type = 10 (BGP4PLUS_01)
    data.extend_from_slice(&[0x00, 0x00]); // subtype = 0 (NULL)
    data.extend_from_slice(&[0x00, 0x00, 0x00, 0x00]); // length = 0
    let mut pos: usize = 0;
    let (_, record) = read(&data, &mut pos).unwrap().unwrap();
    assert!(matches!(
        record,
        Record::BGP4PLUS_01(mrt_ingester::records::bgp4plus::BGP4PLUS::NULL)
    ));
}

#[test]
fn test_unsupported_subtype_error() {
    // BGP (type 5) with an unknown subtype
    let mut data = Vec::new();
    data.extend_from_slice(&[0x00, 0x00, 0x00, 0x01]); // timestamp
    data.extend_from_slice(&[0x00, 0x05]); // type = 5 (BGP)
    data.extend_from_slice(&[0x00, 0x63]); // subtype = 99 (unknown)
    data.extend_from_slice(&[0x00, 0x00, 0x00, 0x00]); // length = 0
    let mut pos: usize = 0;
    assert_eq!(read(&data, &mut pos), Err(MrtError::UnsupportedSubtype));
}

#[test]
fn test_invalid_afi_error() {
    // BGP4MP (type 16) MESSAGE whose AFI field is 3
    let mut data = Vec::new();
    data.extend_from_slice(&[0x00, 0x00, 0x00, 0x01]); // timestamp
    data.extend_from_slice(&[0x00, 0x10]); // type = 16 (BGP4MP)
    data.extend_from_slice(&[0x00, 0x01]); // subtype = 1 (MESSAGE)
    data.extend_from_slice(&[0x00, 0x00, 0x00, 0x08]); // length = 8
    data.extend_from_slice(&[0x00, 0x64]); // peer_as
    data.extend_from_slice(&[0x00, 0xC8]); // local_as
    data.extend_from_slice(&[0x00, 0x00]); // interface
    data.extend_from_slice(&[0x00, 0x03]); // AFI = 3 (invalid)
    let mut pos: usize = 0;
    assert_eq!(read(&data, &mut pos), Err(MrtError::InvalidAFI));
}

#[test]
fn test_framing_error_truncated_body() {
    // header declares a 10-byte body but only 4 bytes follow
    let mut data = Vec::new();
    data.extend_from_slice(&[0x00, 0x00, 0x00, 0x01]); // timestamp
    data.extend_from_slice(&[0x00, 0x20]); // type = 32 (ISIS)
    data.extend_from_slice(&[0x00, 0x00]); // subtype
    data.extend_from_slice(&[0x00, 0x00, 0x00, 0x0A]); // length = 10
    data.extend_from_slice(&[0x01, 0x02, 0x03, 0x04]);
    let mut pos: usize = 0;
    assert_eq!(read(&data, &mut pos), Err(MrtError::Framing));
    // a short read inside the header is fatal too, not a clean end
    let short: &[u8] = &[0x00, 0x00, 0x00, 0x01, 0x00];
    let mut pos: usize = 0;
    assert_eq!(read(short, &mut pos), Err(MrtError::Framing));
}

#[test]
fn test_huge_declared_length() {
    // a length field far past the input is a framing error, not a panic
    let mut data = Vec::new();
    data.extend_from_slice(&[0x00, 0x00, 0x00, 0x01]); // timestamp
    data.extend_from_slice(&[0x00, 0x20]); // type = 32 (ISIS)
    data.extend_from_slice(&[0x00, 0x00]); // subtype
    data.extend_from_slice(&[0xFF, 0xFF, 0xFF, 0xFF]); // length = u32::MAX
    data.extend_from_slice(&[0x01, 0x02]);
    let mut pos: usize = 0;
    assert_eq!(read(&data, &mut pos), Err(MrtError::Framing));
    assert_eq!(pos, 0);
}

#[test]
fn test_saturating_trailing_length() {
    // a header length shorter than the fixed fields derives a zero-length
    // trailing field rather than underflowing
    let header = Header {
        timestamp: 1,
        extended: 0,
        record_type: 5,
        sub_type: 1, // UPDATE
        length: 5,   // less than the 12 fixed bytes
    };
    let body: &[u8] = &[
        0x00, 0x64, // peer_as
        192, 168, 1, 1, // peer_ip
        0x00, 0xC8, // local_as
        10, 0, 0, 1, // local_ip
    ];
    let result = BGP::parse(&header, body).unwrap();
    match result {
        BGP::UPDATE(MESSAGE { message, .. }) => assert!(message.is_empty()),
        _ => panic!("Expected UPDATE"),
    }
}

#[test]
fn test_buffer_reuse_matches_allocating() {
    let mut data = Vec::new();
    data.extend_from_slice(&isis_record(1, &[1, 2, 3, 4, 5, 6, 7, 8]));
    data.extend_from_slice(&null_record(2));
    data.extend_from_slice(&rip_record(3, &[9, 9]));
    data.extend_from_slice(&isis_record(4, &[]));

    let allocating = decode_all(&data);

    // a buffer with large stale contents, reused across every call
    let mut buf: Vec<u8> = vec![0xEE; 4096];
    let mut reusing = Vec::new();
    let mut pos: usize = 0;
    while let Some(rec) = read_with_buffer(&data, &mut pos, &mut buf).unwrap() {
        reusing.push(rec);
    }
    assert_eq!(allocating, reusing);

    // and a buffer that starts with no capacity at all
    let mut buf: Vec<u8> = Vec::new();
    let mut reusing = Vec::new();
    let mut pos: usize = 0;
    while let Some(rec) = read_with_buffer(&data, &mut pos, &mut buf).unwrap() {
        reusing.push(rec);
    }
    assert_eq!(allocating, reusing);
}

#[test]
fn test_header_only_scan() {
    let mut data = Vec::new();
    data.extend_from_slice(&isis_record(7, &[1, 2, 3]));
    data.extend_from_slice(&rip_record(8, &[4, 5]));

    let full = decode_all(&data);

    let mut pos: usize = 0;
    let h1 = read_header_only(&data, &mut pos).unwrap().unwrap();
    let h2 = read_header_only(&data, &mut pos).unwrap().unwrap();
    assert!(read_header_only(&data, &mut pos).unwrap().is_none());
    assert_eq!(h1, full[0].0);
    assert_eq!(h2, full[1].0);
    assert_eq!(pos, data.len());
}
