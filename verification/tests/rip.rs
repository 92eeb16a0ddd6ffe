use mrt_ingester::address::{Ipv4Address, Ipv6Address};
use mrt_ingester::records::rip::{RIP, RIPNG};
use mrt_ingester::Header;

#[test]
fn test_parse_rip() {
    let header = Header {
        timestamp: 1000,
        extended: 0,
        record_type: 6,
        sub_type: 0,
        length: 12, // 4 + 4 + 4 bytes message
    };
    let data: &[u8] = &[
        192, 168, 1, 1, // remote
        192, 168, 1, 2, // local
        0x01, 0x02, 0x03, 0x04, // message
    ];
    let result = RIP::parse(&header, data).unwrap();
    assert_eq!(result.remote, Ipv4Address::new(192, 168, 1, 1));
    assert_eq!(result.local, Ipv4Address::new(192, 168, 1, 2));
    assert_eq!(result.message, vec![0x01, 0x02, 0x03, 0x04]);
}

#[test]
fn test_parse_ripng() {
    let header = Header {
        timestamp: 1000,
        extended: 0,
        record_type: 8,
        sub_type: 0,
        length: 36, // 16 + 16 + 4 bytes message
    };
    let mut data = Vec::new();
    // remote: 2001:db8::1
    data.extend_from_slice(&[0x20, 0x01, 0x0d, 0xb8, 0, 0, 0, 0, 0, 0, 0, 0, 0, 0, 0, 1]);
    // local: 2001:db8::2
    data.extend_from_slice(&[0x20, 0x01, 0x0d, 0xb8, 0, 0, 0, 0, 0, 0, 0, 0, 0, 0, 0, 2]);
    // message
    data.extend_from_slice(&[0x01, 0x02, 0x03, 0x04]);

    let result = RIPNG::parse(&header, &data).unwrap();
    assert_eq!(result.remote, Ipv6Address::new(0x2001, 0x0db8, 0, 0, 0, 0, 0, 1));
    assert_eq!(result.local, Ipv6Address::new(0x2001, 0x0db8, 0, 0, 0, 0, 0, 2));
    assert_eq!(result.message, vec![0x01, 0x02, 0x03, 0x04]);
}
