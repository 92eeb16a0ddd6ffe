use mrt_ingester::address::{prefix_bytes_needed, read_afi, read_prefix};
use mrt_ingester::{MrtError, AFI};

#[test]
fn test_prefix_bytes_needed_values() {
    assert_eq!(prefix_bytes_needed(0), 0);
    assert_eq!(prefix_bytes_needed(1), 1);
    assert_eq!(prefix_bytes_needed(8), 1);
    assert_eq!(prefix_bytes_needed(9), 2);
    assert_eq!(prefix_bytes_needed(24), 3);
    assert_eq!(prefix_bytes_needed(25), 4);
}

#[test]
fn test_afi_parse_values() {
    let mut pos: usize = 0;
    let afi = read_afi(&[0x00, 0x01], &mut pos).unwrap();
    assert_eq!(afi, AFI::IPV4);
    assert_eq!(afi.size(), 4);

    pos = 0;
    let afi = read_afi(&[0x00, 0x02], &mut pos).unwrap();
    assert_eq!(afi, AFI::IPV6);
    assert_eq!(afi.size(), 16);

    pos = 0;
    assert_eq!(read_afi(&[0x00, 0x03], &mut pos), Err(MrtError::InvalidAFI));
    pos = 0;
    assert_eq!(read_afi(&[0xFF, 0xFF], &mut pos), Err(MrtError::InvalidAFI));
}

#[test]
fn test_read_afi_short_input() {
    let mut pos: usize = 0;
    assert_eq!(read_afi(&[0x00], &mut pos), Err(MrtError::Framing));
}

#[test]
fn test_read_prefix_bytes() {
    let data: &[u8] = &[192, 168, 1, 99];
    let mut pos: usize = 0;
    let prefix = read_prefix(data, &mut pos, 24).unwrap();
    assert_eq!(prefix, vec![192, 168, 1]);
    assert_eq!(pos, 3);

    let mut pos: usize = 0;
    assert_eq!(read_prefix(data, &mut pos, 64), Err(MrtError::Framing));
}
