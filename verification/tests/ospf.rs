use mrt_ingester::address::{IpAddress, Ipv4Address, Ipv6Address};
use mrt_ingester::records::ospf::{OSPFv2, OSPFv3};
use mrt_ingester::Header;

#[test]
fn test_parse_ospfv2() {
    let header = Header {
        timestamp: 1000,
        extended: 0,
        record_type: 11,
        sub_type: 0,
        length: 12, // 4 + 4 + 4 bytes message
    };
    let data: &[u8] = &[
        10, 0, 0, 1, // remote
        10, 0, 0, 2, // local
        0x01, 0x02, 0x03, 0x04, // message
    ];
    let result = OSPFv2::parse(&header, data).unwrap();
    assert_eq!(result.remote, Ipv4Address::new(10, 0, 0, 1));
    assert_eq!(result.local, Ipv4Address::new(10, 0, 0, 2));
    assert_eq!(result.message, vec![0x01, 0x02, 0x03, 0x04]);
}

#[test]
fn test_parse_ospfv3_ipv4() {
    let header = Header {
        timestamp: 1000,
        extended: 0,
        record_type: 48,
        sub_type: 0,
        length: 14, // 2 (AFI) + 4 + 4 + 4 bytes message
    };
    let data: &[u8] = &[
        0x00, 0x01, // AFI = IPv4
        10, 0, 0, 1, // remote
        10, 0, 0, 2, // local
        0x01, 0x02, 0x03, 0x04, // message
    ];
    let result = OSPFv3::parse(&header, data).unwrap();
    assert_eq!(result.remote, IpAddress::V4(Ipv4Address::new(10, 0, 0, 1)));
    assert_eq!(result.local, IpAddress::V4(Ipv4Address::new(10, 0, 0, 2)));
    assert_eq!(result.message, vec![0x01, 0x02, 0x03, 0x04]);
}

#[test]
fn test_parse_ospfv3_ipv6() {
    let header = Header {
        timestamp: 1000,
        extended: 0,
        record_type: 48,
        sub_type: 0,
        length: 38, // 2 (AFI) + 16 + 16 + 4 bytes message
    };
    let mut data = Vec::new();
    data.extend_from_slice(&[0x00, 0x02]); // AFI = IPv6
    // remote: 2001:db8::1
    data.extend_from_slice(&[0x20, 0x01, 0x0d, 0xb8, 0, 0, 0, 0, 0, 0, 0, 0, 0, 0, 0, 1]);
    // local: 2001:db8::2
    data.extend_from_slice(&[0x20, 0x01, 0x0d, 0xb8, 0, 0, 0, 0, 0, 0, 0, 0, 0, 0, 0, 2]);
    // message
    data.extend_from_slice(&[0x01, 0x02, 0x03, 0x04]);

    let result = OSPFv3::parse(&header, &data).unwrap();
    assert_eq!(
        result.remote,
        IpAddress::V6(Ipv6Address::new(0x2001, 0x0db8, 0, 0, 0, 0, 0, 1))
    );
    assert_eq!(
        result.local,
        IpAddress::V6(Ipv6Address::new(0x2001, 0x0db8, 0, 0, 0, 0, 0, 2))
    );
    assert_eq!(result.message, vec![0x01, 0x02, 0x03, 0x04]);
}
