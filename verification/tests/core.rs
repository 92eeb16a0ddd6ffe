use mrt_ingester::{is_extended_type, read, MrtError, Record, AFI};

#[test]
fn test_afi_size() {
    assert_eq!(AFI::IPV4.size(), 4);
    assert_eq!(AFI::IPV6.size(), 16);
}

#[test]
fn test_afi_repr() {
    assert_eq!(AFI::from_u16(1), Ok(AFI::IPV4));
    assert_eq!(AFI::from_u16(2), Ok(AFI::IPV6));
    assert_eq!(AFI::from_u16(3), Err(MrtError::InvalidAFI));
}

#[test]
fn test_read_eof_at_start() {
    let data: &[u8] = &[];
    let mut pos: usize = 0;
    let result = read(data, &mut pos);
    assert!(result.unwrap().is_none());
}

#[test]
fn test_read_null_record() {
    let data: &[u8] = &[
        0x00, 0x00, 0x00, 0x01, // timestamp = 1
        0x00, 0x00, // type = 0 (NULL)
        0x00, 0x00, // subtype = 0
        0x00, 0x00, 0x00, 0x00, // length = 0
    ];
    let mut pos: usize = 0;
    let result = read(data, &mut pos).unwrap().unwrap();
    assert_eq!(result.0.timestamp, 1);
    assert!(matches!(result.1, Record::NULL));
    // the whole record is 12 header bytes and no body
    assert_eq!(pos, 12);
}

#[test]
fn test_read_start_record() {
    let data: &[u8] = &[
        0x5F, 0x5E, 0x10, 0x00, // timestamp
        0x00, 0x01, // type = 1 (START)
        0x00, 0x00, // subtype = 0
        0x00, 0x00, 0x00, 0x00, // length = 0
    ];
    let mut pos: usize = 0;
    let result = read(data, &mut pos).unwrap().unwrap();
    assert!(matches!(result.1, Record::START));
}

#[test]
fn test_read_unknown_type_error() {
    let data: &[u8] = &[
        0x00, 0x00, 0x00, 0x01, // timestamp
        0x00, 0xFF, // type = 255 (unknown)
        0x00, 0x00, // subtype
        0x00, 0x00, 0x00, 0x00, // length = 0
    ];
    let mut pos: usize = 0;
    let result = read(data, &mut pos);
    assert!(result.is_err());
    assert_eq!(result.unwrap_err(), MrtError::UnsupportedRecordType);
    // no bytes are consumed on an error
    assert_eq!(pos, 0);
}

#[test]
fn test_is_extended_type() {
    assert!(!is_extended_type(16)); // BGP4MP
    assert!(is_extended_type(17)); // BGP4MP_ET
    assert!(!is_extended_type(32)); // ISIS
    assert!(is_extended_type(33)); // ISIS_ET
    assert!(!is_extended_type(48)); // OSPFv3
    assert!(is_extended_type(49)); // OSPFv3_ET
}
