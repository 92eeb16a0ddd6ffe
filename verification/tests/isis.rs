use mrt_ingester::records::isis;
use mrt_ingester::Header;

#[test]
fn test_parse_isis() {
    let header = Header {
        timestamp: 1000,
        extended: 0,
        record_type: 32,
        sub_type: 0,
        length: 10,
    };
    let data: &[u8] = &[0x01, 0x02, 0x03, 0x04, 0x05, 0x06, 0x07, 0x08, 0x09, 0x0A];
    let result = isis::parse(&header, data).unwrap();
    assert_eq!(result.len(), 10);
    assert_eq!(result, data);
}
