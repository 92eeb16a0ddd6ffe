use mrt_ingester::address::Ipv4Address;
use mrt_ingester::records::bgp::BGP;
use mrt_ingester::Header;

#[test]
fn test_parse_bgp_state_change() {
    let header = Header {
        timestamp: 1000,
        extended: 0,
        record_type: 5,
        sub_type: 3, // STATE_CHANGE
        length: 10,
    };
    let data: &[u8] = &[
        0x00, 0x64, // peer_as = 100
        192, 168, 1, 1, // peer_ip
        0x00, 0x01, // old_state = 1
        0x00, 0x06, // new_state = 6 (Established)
    ];
    let result = BGP::parse(&header, data).unwrap();
    match result {
        BGP::STATE_CHANGE(sc) => {
            assert_eq!(sc.peer_as, 100);
            assert_eq!(sc.peer_ip, Ipv4Address::new(192, 168, 1, 1));
            assert_eq!(sc.old_state, 1);
            assert_eq!(sc.new_state, 6);
        }
        _ => panic!("Expected STATE_CHANGE"),
    }
}

#[test]
fn test_parse_bgp_message() {
    let header = Header {
        timestamp: 1000,
        extended: 0,
        record_type: 5,
        sub_type: 1, // UPDATE
        length: 16,  // 12 bytes header + 4 bytes message
    };
    let data: &[u8] = &[
        0x00, 0x64, // peer_as = 100
        192, 168, 1, 1, // peer_ip
        0x00, 0xC8, // local_as = 200
        10, 0, 0, 1, // local_ip
        0x01, 0x02, 0x03, 0x04, // message
    ];
    let result = BGP::parse(&header, data).unwrap();
    match result {
        BGP::UPDATE(msg) => {
            assert_eq!(msg.peer_as, 100);
            assert_eq!(msg.peer_ip, Ipv4Address::new(192, 168, 1, 1));
            assert_eq!(msg.local_as, 200);
            assert_eq!(msg.local_ip, Ipv4Address::new(10, 0, 0, 1));
            assert_eq!(msg.message, vec![0x01, 0x02, 0x03, 0x04]);
        }
        _ => panic!("Expected UPDATE"),
    }
}

#[test]
fn test_parse_bgp_empty_subtypes() {
    // NULL and PREF_UPDATE carry no payload at all
    let mut header = Header {
        timestamp: 1000,
        extended: 0,
        record_type: 5,
        sub_type: 0, // NULL
        length: 0,
    };
    assert!(matches!(BGP::parse(&header, &[]).unwrap(), BGP::NULL));
    header.sub_type = 2; // PREF_UPDATE
    assert!(matches!(BGP::parse(&header, &[]).unwrap(), BGP::PREF_UPDATE));
}

#[test]
fn test_parse_bgp_sync() {
    let header = Header {
        timestamp: 1000,
        extended: 0,
        record_type: 5,
        sub_type: 4, // SYNC
        length: 12,
    };
    let data: &[u8] = &[
        0x00, 0x01, // view_number = 1
        b't', b'e', b's', b't', b'.', b'm', b'r', b't', 0x00, 0x00, // filename
    ];
    let result = BGP::parse(&header, data).unwrap();
    match result {
        BGP::SYNC(sync) => {
            assert_eq!(sync.view_number, 1);
            assert_eq!(sync.filename.len(), 10);
        }
        _ => panic!("Expected SYNC"),
    }
}
