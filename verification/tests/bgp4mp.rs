use mrt_ingester::address::{IpAddress, Ipv4Address};
use mrt_ingester::records::bgp4mp::BGP4MP;
use mrt_ingester::Header;

#[test]
fn test_parse_bgp4mp_state_change() {
    let header = Header {
        timestamp: 1000,
        extended: 0,
        record_type: 16,
        sub_type: 0, // STATE_CHANGE
        length: 20,  // 2+2+2+2+4+4+2+2 = 20
    };
    let data: &[u8] = &[
        0x00, 0x64, // peer_as = 100
        0x00, 0xC8, // local_as = 200
        0x00, 0x00, // interface = 0
        0x00, 0x01, // AFI = IPv4
        192, 168, 1, 1, // peer_address
        10, 0, 0, 1, // local_address
        0x00, 0x01, // old_state = 1
        0x00, 0x06, // new_state = 6
    ];
    let result = BGP4MP::parse(&header, data).unwrap();
    match result {
        BGP4MP::STATE_CHANGE(sc) => {
            assert_eq!(sc.peer_as, 100);
            assert_eq!(sc.local_as, 200);
            assert_eq!(sc.peer_address, IpAddress::V4(Ipv4Address::new(192, 168, 1, 1)));
            assert_eq!(sc.local_address, IpAddress::V4(Ipv4Address::new(10, 0, 0, 1)));
            assert_eq!(sc.old_state, 1);
            assert_eq!(sc.new_state, 6);
        }
        _ => panic!("Expected STATE_CHANGE"),
    }
}

#[test]
fn test_parse_bgp4mp_message_as4() {
    let header = Header {
        timestamp: 1000,
        extended: 0,
        record_type: 16,
        sub_type: 4, // MESSAGE_AS4
        length: 24,  // 4+4+2+2+4+4+4 = 24
    };
    let data: &[u8] = &[
        0x00, 0x00, 0xFD, 0xE8, // peer_as = 65000
        0x00, 0x00, 0xFD, 0xE9, // local_as = 65001
        0x00, 0x00, // interface = 0
        0x00, 0x01, // AFI = IPv4
        192, 168, 1, 1, // peer_address
        10, 0, 0, 1, // local_address
        0x01, 0x02, 0x03, 0x04, // message
    ];
    let result = BGP4MP::parse(&header, data).unwrap();
    match result {
        BGP4MP::MESSAGE_AS4(msg) => {
            assert_eq!(msg.peer_as, 65000);
            assert_eq!(msg.local_as, 65001);
            assert_eq!(msg.peer_address, IpAddress::V4(Ipv4Address::new(192, 168, 1, 1)));
            assert_eq!(msg.message, vec![0x01, 0x02, 0x03, 0x04]);
        }
        _ => panic!("Expected MESSAGE_AS4"),
    }
}

#[test]
fn test_parse_bgp4mp_snapshot() {
    let header = Header {
        timestamp: 1000,
        extended: 0,
        record_type: 16,
        sub_type: 3, // SNAPSHOT
        length: 6,   // 2 + 4 filename bytes
    };
    let data: &[u8] = &[
        0x00, 0x07, // view_number = 7
        b'r', b'i', b'b', 0x00, // filename
    ];
    let result = BGP4MP::parse(&header, data).unwrap();
    match result {
        BGP4MP::SNAPSHOT(s) => {
            assert_eq!(s.view_number, 7);
            assert_eq!(s.filename, vec![b'r', b'i', b'b', 0x00]);
        }
        _ => panic!("Expected SNAPSHOT"),
    }
}

#[test]
fn test_parse_bgp4mp_entry() {
    let header = Header {
        timestamp: 1000,
        extended: 0,
        record_type: 16,
        sub_type: 2, // ENTRY
        length: 39,
    };
    let data: &[u8] = &[
        0x00, 0x64, // peer_as = 100
        0x00, 0xC8, // local_as = 200
        0x00, 0x00, // interface = 0
        0x00, 0x01, // AFI = IPv4
        192, 168, 1, 1, // peer_address
        10, 0, 0, 1, // local_address
        0x00, 0x01, // view_number = 1
        0x00, 0x02, // status = 2
        0x5F, 0x5E, 0x10, 0x00, // time_last_change
        0x00, 0x01, // next hop AFI = IPv4
        10, 0, 0, 254, // next_hop
        0x00, 0x01, // afi = 1
        0x01, // safi = 1
        0x18, // prefix_length = 24
        192, 168, 2, // prefix (3 bytes for /24)
        0x00, 0x02, // attr_len = 2
        0xAA, 0xBB, // attributes
    ];
    let result = BGP4MP::parse(&header, data).unwrap();
    match result {
        BGP4MP::ENTRY(e) => {
            assert_eq!(e.peer_as, 100);
            assert_eq!(e.local_as, 200);
            assert_eq!(e.peer_address, IpAddress::V4(Ipv4Address::new(192, 168, 1, 1)));
            assert_eq!(e.next_hop, IpAddress::V4(Ipv4Address::new(10, 0, 0, 254)));
            assert_eq!(e.view_number, 1);
            assert_eq!(e.status, 2);
            assert_eq!(e.afi, 1);
            assert_eq!(e.safi, 1);
            assert_eq!(e.prefix_length, 24);
            assert_eq!(e.prefix, vec![192, 168, 2]);
            assert_eq!(e.attributes, vec![0xAA, 0xBB]);
        }
        _ => panic!("Expected ENTRY"),
    }
}

#[test]
fn test_parse_bgp4mp_message_variant_tags() {
    // the LOCAL and ADDPATH message subtypes share the payload shape and
    // differ only by the tag the subtype selects
    let data: &[u8] = &[
        0x00, 0x64, // peer_as = 100
        0x00, 0xC8, // local_as = 200
        0x00, 0x00, // interface = 0
        0x00, 0x01, // AFI = IPv4
        192, 168, 1, 1, // peer_address
        10, 0, 0, 1, // local_address
        0x01, 0x02, // message
    ];
    for (sub_type, expect_local, expect_addpath) in
        [(1u16, false, false), (6, true, false), (8, false, true), (10, true, true)]
    {
        let header = Header {
            timestamp: 1000,
            extended: 0,
            record_type: 16,
            sub_type,
            length: 18,
        };
        let result = BGP4MP::parse(&header, data).unwrap();
        let msg = match (result, expect_local, expect_addpath) {
            (BGP4MP::MESSAGE(m), false, false) => m,
            (BGP4MP::MESSAGE_LOCAL(m), true, false) => m,
            (BGP4MP::MESSAGE_ADDPATH(m), false, true) => m,
            (BGP4MP::MESSAGE_LOCAL_ADDPATH(m), true, true) => m,
            _ => panic!("wrong variant for subtype {}", sub_type),
        };
        assert_eq!(msg.peer_as, 100);
        assert_eq!(msg.local_as, 200);
        assert_eq!(msg.message, vec![0x01, 0x02]);
    }
}

#[test]
fn test_parse_bgp4mp_message_ipv6() {
    let header = Header {
        timestamp: 1000,
        extended: 0,
        record_type: 16,
        sub_type: 1, // MESSAGE
        length: 44,  // 2+2+2+2+16+16+4 = 44
    };
    let mut data = Vec::new();
    data.extend_from_slice(&[0x00, 0x64]); // peer_as = 100
    data.extend_from_slice(&[0x00, 0xC8]); // local_as = 200
    data.extend_from_slice(&[0x00, 0x00]); // interface = 0
    data.extend_from_slice(&[0x00, 0x02]); // AFI = IPv6
    // peer: 2001:db8::1
    data.extend_from_slice(&[0x20, 0x01, 0x0d, 0xb8, 0, 0, 0, 0, 0, 0, 0, 0, 0, 0, 0, 1]);
    // local: 2001:db8::2
    data.extend_from_slice(&[0x20, 0x01, 0x0d, 0xb8, 0, 0, 0, 0, 0, 0, 0, 0, 0, 0, 0, 2]);
    data.extend_from_slice(&[0x01, 0x02, 0x03, 0x04]); // message

    let result = BGP4MP::parse(&header, &data).unwrap();
    match result {
        BGP4MP::MESSAGE(msg) => {
            assert_eq!(msg.peer_as, 100);
            assert_eq!(msg.local_as, 200);
            assert!(msg.peer_address.is_ipv6());
            assert!(msg.local_address.is_ipv6());
            assert_eq!(msg.message, vec![0x01, 0x02, 0x03, 0x04]);
        }
        _ => panic!("Expected MESSAGE"),
    }
}
