use kafka_wire::handlers::build_api_versions_response;
use kafka_wire::handlers::build_describe_topic_partitions_response;
use kafka_wire::handlers::build_unsupported_key_response;
use kafka_wire::handlers::parse_topic_name;
use kafka_wire::protocol::decode_header;
use kafka_wire::protocol::frame_length_ok;
use kafka_wire::protocol::ProtocolError;

#[test]
fn frame_length_below_minimum_is_rejected() {
    assert!(!frame_length_ok(0));
    assert!(!frame_length_ok(7));
    assert!(frame_length_ok(8));
    assert!(frame_length_ok(1000));
}

#[test]
fn decode_header_reads_fixed_offsets() {
    let frame = [0x12u8, 0x34, 0x56, 0x78, 0x9A, 0xBC, 0xDE, 0xF0, 0xAA];
    let h = decode_header(&frame).unwrap();
    assert_eq!(h.api_key, 0x1234);
    assert_eq!(h.api_version, 0x5678);
    assert_eq!(h.correlation_id, 0x9ABC_DEF0);
}

#[test]
fn decode_header_short_body_is_malformed() {
    let frame = [0u8, 18, 0, 0, 1, 2, 3];
    assert_eq!(decode_header(&frame), Err(ProtocolError::MalformedField));
}

#[test]
fn api_versions_exact_bytes() {
    let resp = build_api_versions_response(1, 4);
    let expected = vec![
        0, 0, 0, 26, // message_size
        0, 0, 0, 1, // correlation_id
        0, 0, // error_code
        3, // api table count: 2 entries + 1
        0, 18, 0, 0, 0, 4, 0, // ApiVersions: key 18, versions 0..4, tag buffer
        0, 75, 0, 0, 0, 0, 0, // DescribeTopicPartitions: key 75, versions 0..0, tag buffer
        0, 0, 0, 0, // throttle_time_ms
        0, // tag buffer
    ];
    assert_eq!(resp, expected);
}

#[test]
fn api_versions_supported_versions_have_no_error() {
    for version in 0..=4u16 {
        let resp = build_api_versions_response(9, version);
        assert_eq!(&resp[8..10], &[0, 0]);
    }
}

#[test]
fn api_versions_high_version_gets_error_35() {
    for version in [5u16, 6, 100, u16::MAX] {
        let resp = build_api_versions_response(9, version);
        assert_eq!(&resp[8..10], &[0, 35]);
    }
}

#[test]
fn api_versions_table_is_fixed_regardless_of_error() {
    let supported = build_api_versions_response(1, 0);
    let unsupported = build_api_versions_response(2, 999);
    assert_eq!(&supported[10..25], &unsupported[10..25]);
    assert_eq!(
        &supported[10..25],
        &[3, 0, 18, 0, 0, 0, 4, 0, 0, 75, 0, 0, 0, 0, 0]
    );
}

#[test]
fn correlation_id_echoed_in_api_versions() {
    let resp = build_api_versions_response(0xDEAD_BEEF, 2);
    assert_eq!(&resp[4..8], &[0xDE, 0xAD, 0xBE, 0xEF]);
}

#[test]
fn correlation_id_echoed_in_describe_topic_partitions() {
    let resp = build_describe_topic_partitions_response(0x0102_0304, b"foo");
    assert_eq!(&resp[4..8], &[1, 2, 3, 4]);
}

#[test]
fn correlation_id_echoed_in_unsupported_key_frame() {
    let resp = build_unsupported_key_response(7);
    assert_eq!(resp, vec![0, 0, 0, 8, 0, 0, 0, 7, 0, 35, 0, 0]);
}

#[test]
fn describe_topic_partitions_foo_descriptor() {
    let resp = build_describe_topic_partitions_response(5, b"foo");
    assert_eq!(resp.len(), 45);
    assert_eq!(&resp[0..4], &[0, 0, 0, 41]); // message_size: 38 + name length
    assert_eq!(&resp[4..8], &[0, 0, 0, 5]); // correlation_id
    assert_eq!(resp[8], 0); // header tag buffer
    assert_eq!(&resp[9..13], &[0, 0, 0, 0]); // throttle_time_ms
    assert_eq!(resp[13], 2); // topic count: 1 topic + 1
    assert_eq!(&resp[14..16], &[0, 3]); // error_code: unknown topic
    assert_eq!(resp[16], 4); // name length + 1
    assert_eq!(&resp[17..20], b"foo");
    assert_eq!(&resp[20..36], &[0u8; 16]); // null topic id
    assert_eq!(resp[36], 0); // is_internal: false
    assert_eq!(resp[37], 1); // partitions: 0 partitions + 1
    assert_eq!(&resp[38..42], &[0, 0, 0, 0]); // authorized_operations
    assert_eq!(&resp[42..45], &[0, 0, 0]); // topic tag buffer, null cursor, tag buffer
}

#[test]
fn parse_topic_name_reads_first_topic() {
    let mut body = vec![0u8, 75, 0, 0, 0, 0, 0, 9]; // header: key 75, version 0, cid 9
    body.push(2); // compact-array count: 1 topic + 1
    body.push(4); // name length + 1
    body.extend_from_slice(b"foo");
    assert_eq!(parse_topic_name(&body), b"foo".to_vec());
}

#[test]
fn parse_topic_name_short_body_is_empty() {
    assert_eq!(parse_topic_name(&[]), Vec::<u8>::new());
    assert_eq!(parse_topic_name(&[0u8, 75, 0, 0, 0, 0, 0, 9]), Vec::<u8>::new());
    assert_eq!(parse_topic_name(&[0u8, 75, 0, 0, 0, 0, 0, 9, 2]), Vec::<u8>::new());
}

#[test]
fn parse_topic_name_null_name_is_empty() {
    let body = vec![0u8, 75, 0, 0, 0, 0, 0, 9, 2, 0];
    assert_eq!(parse_topic_name(&body), Vec::<u8>::new());
}

#[test]
fn parse_topic_name_truncated_name_is_empty() {
    let body = vec![0u8, 75, 0, 0, 0, 0, 0, 9, 2, 10, b'a'];
    assert_eq!(parse_topic_name(&body), Vec::<u8>::new());
}
