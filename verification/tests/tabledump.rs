use mrt_ingester::address::{IpAddress, Ipv4Address};
use mrt_ingester::records::tabledump::{PeerEntry, TABLE_DUMP, TABLE_DUMP_V2};
use mrt_ingester::{Header, MrtError, AFI};

#[test]
fn test_parse_table_dump_ipv4() {
    let header = Header {
        timestamp: 1000,
        extended: 0,
        record_type: 12,
        sub_type: 1, // AFI_IPv4
        length: 22,  // 2+2+4+1+1+4+4+2+2+0 = 22
    };
    let data: &[u8] = &[
        0x00, 0x00, // view_number = 0
        0x00, 0x01, // sequence_number = 1
        192, 168, 0, 0, // prefix
        0x18, // prefix_length = 24
        0x01, // status
        0x5F, 0x5E, 0x10, 0x00, // originated_time
        10, 0, 0, 1, // peer_address
        0x00, 0x64, // peer_as = 100
        0x00, 0x00, // attr_len = 0
    ];
    let result = TABLE_DUMP::parse(&header, data).unwrap();
    assert_eq!(result.view_number, 0);
    assert_eq!(result.sequence_number, 1);
    assert_eq!(result.prefix, IpAddress::V4(Ipv4Address::new(192, 168, 0, 0)));
    assert_eq!(result.prefix_length, 24);
    assert_eq!(result.peer_address, IpAddress::V4(Ipv4Address::new(10, 0, 0, 1)));
    assert_eq!(result.peer_as, 100);
}

#[test]
fn test_parse_peer_index_table() {
    let header = Header {
        timestamp: 1000,
        extended: 0,
        record_type: 13,
        sub_type: 1, // PEER_INDEX_TABLE
        length: 100,
    };
    let data: &[u8] = &[
        0x0A, 0x00, 0x00, 0x01, // collector_id
        0x00, 0x04, // view_name_length = 4
        b't', b'e', b's', b't', // view_name = "test"
        0x00, 0x01, // peer_count = 1
        // Peer entry:
        0x00, // peer_type = 0 (IPv4, 16-bit AS)
        0x0A, 0x00, 0x00, 0x01, // peer_bgp_id
        192, 168, 1, 1, // peer_ip_address (IPv4)
        0x00, 0x64, // peer_as = 100 (16-bit)
    ];
    let result = TABLE_DUMP_V2::parse(&header, data).unwrap();
    match result {
        TABLE_DUMP_V2::PEER_INDEX_TABLE(pit) => {
            assert_eq!(pit.collector_id, 0x0A000001);
            assert_eq!(pit.view_name, "test");
            assert_eq!(pit.peer_entries.len(), 1);
            assert_eq!(pit.peer_entries[0].peer_as, 100);
            assert_eq!(
                pit.peer_entries[0].peer_ip_address,
                IpAddress::V4(Ipv4Address::new(192, 168, 1, 1))
            );
        }
        _ => panic!("Expected PEER_INDEX_TABLE"),
    }
}

#[test]
fn test_parse_rib_ipv4_unicast() {
    let header = Header {
        timestamp: 1000,
        extended: 0,
        record_type: 13,
        sub_type: 2, // RIB_IPV4_UNICAST
        length: 100,
    };
    let data: &[u8] = &[
        0x00, 0x00, 0x00, 0x01, // sequence_number = 1
        0x18, // prefix_length = 24
        192, 168, 1, // prefix (3 bytes for /24)
        0x00, 0x01, // entry_count = 1
        // RIB entry:
        0x00, 0x00, // peer_index = 0
        0x5F, 0x5E, 0x10, 0x00, // originated_time
        0x00, 0x00, // attr_len = 0
    ];
    let result = TABLE_DUMP_V2::parse(&header, data).unwrap();
    match result {
        TABLE_DUMP_V2::RIB_IPV4_UNICAST(rib) => {
            assert_eq!(rib.sequence_number, 1);
            assert_eq!(rib.prefix_length, 24);
            assert_eq!(rib.prefix, vec![192, 168, 1]);
            assert_eq!(rib.entries.len(), 1);
            assert_eq!(rib.entries[0].peer_index, 0);
        }
        _ => panic!("Expected RIB_IPV4_UNICAST"),
    }
}

#[test]
fn test_parse_table_dump_ipv6() {
    let header = Header {
        timestamp: 1000,
        extended: 0,
        record_type: 12,
        sub_type: 2, // AFI_IPv6
        length: 47,  // 2+2+16+1+1+4+16+2+2+1
    };
    let mut data = Vec::new();
    data.extend_from_slice(&[0x00, 0x01]); // view_number = 1
    data.extend_from_slice(&[0x00, 0x02]); // sequence_number = 2
    // prefix: 2001:db8::
    data.extend_from_slice(&[0x20, 0x01, 0x0d, 0xb8, 0, 0, 0, 0, 0, 0, 0, 0, 0, 0, 0, 0]);
    data.push(0x20); // prefix_length = 32
    data.push(0x01); // status
    data.extend_from_slice(&[0x5F, 0x5E, 0x10, 0x00]); // originated_time
    // peer: 2001:db8::9
    data.extend_from_slice(&[0x20, 0x01, 0x0d, 0xb8, 0, 0, 0, 0, 0, 0, 0, 0, 0, 0, 0, 9]);
    data.extend_from_slice(&[0x00, 0x64]); // peer_as = 100
    data.extend_from_slice(&[0x00, 0x01]); // attr_len = 1
    data.push(0xCC); // attributes
    let result = TABLE_DUMP::parse(&header, &data).unwrap();
    assert_eq!(result.view_number, 1);
    assert_eq!(result.sequence_number, 2);
    assert_eq!(
        result.prefix,
        IpAddress::V6(mrt_ingester::address::Ipv6Address::new(0x2001, 0x0db8, 0, 0, 0, 0, 0, 0))
    );
    assert_eq!(result.prefix_length, 32);
    assert_eq!(result.attributes, vec![0xCC]);
}

#[test]
fn test_parse_table_dump_bad_subtype() {
    let header = Header {
        timestamp: 1000,
        extended: 0,
        record_type: 12,
        sub_type: 3, // not an address family the format defines
        length: 22,
    };
    let data = [0u8; 22];
    assert_eq!(TABLE_DUMP::parse(&header, &data), Err(MrtError::UnsupportedSubtype));
}

#[test]
fn test_parse_rib_generic() {
    let header = Header {
        timestamp: 1000,
        extended: 0,
        record_type: 13,
        sub_type: 6, // RIB_GENERIC
        length: 100,
    };
    let data: &[u8] = &[
        0x00, 0x00, 0x00, 0x05, // sequence_number = 5
        0x00, 0x01, // AFI = IPv4
        0x01, // SAFI = 1
        0x00, 0x04, // nlri_len = 4
        0x18, 192, 168, 3, // NLRI
        0x00, 0x01, // entry_count = 1
        // RIB entry:
        0x00, 0x02, // peer_index = 2
        0x5F, 0x5E, 0x10, 0x00, // originated_time
        0x00, 0x01, // attr_len = 1
        0xDD, // attributes
    ];
    let result = TABLE_DUMP_V2::parse(&header, data).unwrap();
    match result {
        TABLE_DUMP_V2::RIB_GENERIC(rib) => {
            assert_eq!(rib.sequence_number, 5);
            assert_eq!(rib.afi, AFI::IPV4);
            assert_eq!(rib.safi, 1);
            assert_eq!(rib.nlri, vec![0x18, 192, 168, 3]);
            assert_eq!(rib.entries.len(), 1);
            assert_eq!(rib.entries[0].peer_index, 2);
            assert_eq!(rib.entries[0].attributes, vec![0xDD]);
        }
        _ => panic!("Expected RIB_GENERIC"),
    }
}

#[test]
fn test_parse_rib_ipv4_unicast_addpath() {
    let header = Header {
        timestamp: 1000,
        extended: 0,
        record_type: 13,
        sub_type: 8, // RIB_IPV4_UNICAST_ADDPATH
        length: 100,
    };
    let data: &[u8] = &[
        0x00, 0x00, 0x00, 0x01, // sequence_number = 1
        0x18, // prefix_length = 24
        192, 168, 1, // prefix
        0x00, 0x02, // entry_count = 2
        // entry 1: the path identifier stands ahead of the attributes
        0x00, 0x00, // peer_index = 0
        0x5F, 0x5E, 0x10, 0x00, // originated_time
        0x00, 0x00, 0x00, 0x0A, // path_identifier = 10
        0x00, 0x01, // attr_len = 1
        0xEE, // attributes
        // entry 2
        0x00, 0x01, // peer_index = 1
        0x5F, 0x5E, 0x10, 0x01, // originated_time
        0x00, 0x00, 0x00, 0x0B, // path_identifier = 11
        0x00, 0x00, // attr_len = 0
    ];
    let result = TABLE_DUMP_V2::parse(&header, data).unwrap();
    match result {
        TABLE_DUMP_V2::RIB_IPV4_UNICAST_ADDPATH(rib) => {
            assert_eq!(rib.sequence_number, 1);
            assert_eq!(rib.prefix, vec![192, 168, 1]);
            assert_eq!(rib.entries.len(), 2);
            assert_eq!(rib.entries[0].path_identifier, 10);
            assert_eq!(rib.entries[0].attributes, vec![0xEE]);
            assert_eq!(rib.entries[1].peer_index, 1);
            assert_eq!(rib.entries[1].path_identifier, 11);
            assert!(rib.entries[1].attributes.is_empty());
        }
        _ => panic!("Expected RIB_IPV4_UNICAST_ADDPATH"),
    }
}

#[test]
fn test_parse_rib_zero_length_prefix() {
    // prefix length 0 needs no prefix bytes at all
    let header = Header {
        timestamp: 1000,
        extended: 0,
        record_type: 13,
        sub_type: 2, // RIB_IPV4_UNICAST
        length: 100,
    };
    let data: &[u8] = &[
        0x00, 0x00, 0x00, 0x09, // sequence_number = 9
        0x00, // prefix_length = 0
        0x00, 0x00, // entry_count = 0
    ];
    let result = TABLE_DUMP_V2::parse(&header, data).unwrap();
    match result {
        TABLE_DUMP_V2::RIB_IPV4_UNICAST(rib) => {
            assert_eq!(rib.sequence_number, 9);
            assert_eq!(rib.prefix_length, 0);
            assert!(rib.prefix.is_empty());
            assert!(rib.entries.is_empty());
        }
        _ => panic!("Expected RIB_IPV4_UNICAST"),
    }
}

#[test]
fn test_peer_type_flags() {
    // IPv6 + 32-bit AS
    let data: &[u8] = &[
        0x03, // peer_type = 0b11 (IPv6 + AS4)
        0x0A, 0x00, 0x00, 0x01, // peer_bgp_id
        // IPv6 address: 2001:db8::1
        0x20, 0x01, 0x0d, 0xb8, 0, 0, 0, 0, 0, 0, 0, 0, 0, 0, 0, 1, //
        0x00, 0x01, 0x00, 0x00, // peer_as = 65536 (32-bit)
    ];
    let mut pos: usize = 0;
    let result = PeerEntry::parse(data, &mut pos).unwrap();
    assert!(result.peer_ip_address.is_ipv6());
    assert_eq!(result.peer_as, 65536);
}
