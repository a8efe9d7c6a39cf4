use kafka_protocol::messages::metadata_response::{MetadataResponseBroker, MetadataResponsePartition, MetadataResponseTopic};
use kafka_protocol::messages::{
    ApiVersionsRequest, ApiVersionsResponse, BrokerId, MetadataRequest, MetadataResponse, TopicName,
};
use kafka_protocol::protocol::StrBytes;
use proto_tower::kafka::api::all_api_versions;
use proto_tower::kafka::client::{parse_response, KafkaClientState, KafkaProtoClientConfig, ProtoKafkaClientLayer};
use proto_tower::kafka::frame::{check_valid_packet, frame_payload, ByteCursor, NotEnoughBytesError};
use proto_tower::kafka::header::{decode_tagged_fields, decode_unsigned_varint, ResponseHeaderIntermediary};
use proto_tower::kafka::messages::{api_name_of, KafkaRequest, KafkaResponse};
use proto_tower::kafka::server::{parse_kafka_request, parse_kafka_request_tracked, KafkaServerState, TrackedKafkaResponse};
use proto_tower::kafka::KafkaProtocolError;
use std::collections::BTreeMap;
use std::time::Duration;

const API_VERSIONS_PAYLOAD: [u8; 40] = [
    0x00u8, 0x00, 0x00, 0x24, 0x00, 0x12, 0x00, 0x03, 0x00, 0x00, 0x00, 0x01, 0x00, 0x07, 0x72, 0x64, 0x6b, 0x61, 0x66, 0x6b, 0x61, 0x00, 0x0b, 0x6c, 0x69, 0x62,
    0x72, 0x64, 0x6b, 0x61, 0x66, 0x6b, 0x61, 0x06, 0x32, 0x2e, 0x33, 0x2e, 0x30, 0x00,
];

#[test]
fn test_api_version_request() {
    let payload = API_VERSIONS_PAYLOAD;
    let inner = ApiVersionsRequest::default()
        .with_client_software_name(StrBytes::from("librdkafka"))
        .with_client_software_version(StrBytes::from("2.3.0"));
    let expected = KafkaRequest::ApiVersionsRequest(inner);
    let res = parse_kafka_request(&payload);
    let res = match res {
        Some(r) => r,
        None => panic!(),
    };
    let res = res.unwrap();
    assert_eq!(res, expected);
}

#[test]
fn test_api_request() {
    let api_request = KafkaRequest::ApiVersionsRequest(
        ApiVersionsRequest::default()
            .with_client_software_name(StrBytes::from("librdkafka"))
            .with_client_software_version(StrBytes::from("2.3.0")),
    )
    .into_full(3, 1, Some("rdkafka".to_string()));
    let mut real_buff: Vec<u8> = Vec::new();
    let res: Result<(), KafkaProtocolError<()>> = api_request.write_to(&mut real_buff);
    res.unwrap();

    let expected: Vec<u8> = [
        "\x00\x00\x00\x24".as_bytes(),
        "\x00\x12".as_bytes(),
        "\x00\x03".as_bytes(),
        "\x00\x00\x00\x01".as_bytes(),
        "\x00\x07rdkafka".as_bytes(),
        "\x00\x0blibrdkafka\x062.3.0\x00".as_bytes(),
    ]
    .into_iter()
    .flatten()
    .map(|x| *x)
    .collect();

    assert_eq!(real_buff, expected);
}

#[test]
fn test_metadata() {
    let metadata_response: &[u8] = &[
        0x00u8, 0x00, 0x00, 0x77, 0x00, 0x00, 0x00, 0x03, 0x00, 0x00, 0x00, 0x00, 0x00, 0x02, 0x00, 0x00, 0x00, 0x01, 0x0a, 0x6c, 0x6f, 0x63, 0x61, 0x6c, 0x68, 0x6f,
        0x73, 0x74, 0x00, 0x00, 0x71, 0xa4, 0x00, 0x00, 0x17, 0x71, 0x38, 0x4c, 0x30, 0x6a, 0x4d, 0x70, 0x52, 0x54, 0x41, 0x61, 0x5f, 0x4c, 0x4f, 0x49, 0x74, 0x4e,
        0x62, 0x4d, 0x56, 0x5a, 0x67, 0x00, 0x00, 0x00, 0x01, 0x02, 0x00, 0x00, 0x09, 0x6d, 0x79, 0x2d, 0x74, 0x6f, 0x70, 0x69, 0x63, 0xb1, 0xfa, 0x72, 0xa9, 0x70,
        0xf1, 0x4e, 0x91, 0xb2, 0x6f, 0xe3, 0xe2, 0x11, 0x1c, 0x72, 0x51, 0x00, 0x02, 0x00, 0x00, 0x00, 0x00, 0x00, 0x00, 0x00, 0x00, 0x00, 0x01, 0x00, 0x00, 0x00,
        0x00, 0x02, 0x00, 0x00, 0x00, 0x01, 0x02, 0x00, 0x00, 0x00, 0x01, 0x01, 0x00, 0x80, 0x00, 0x00, 0x00, 0x00, 0x00,
    ];
    let mut bytes_mut = metadata_response.to_vec();
    let mut tracked_requests = BTreeMap::new();
    let correlation_id = 3;
    let api_version = 12;
    // the API key of Metadata
    tracked_requests.insert(correlation_id, (3i16, api_version));
    let resp: Result<_, KafkaProtocolError<()>> = parse_response(&mut bytes_mut, &mut tracked_requests);
    let resp = resp.unwrap();
    let resp = resp.unwrap();
    assert_eq!(
        resp,
        KafkaResponse::MetadataResponse(
            MetadataResponse::default()
                .with_brokers(vec![MetadataResponseBroker::default()
                    .with_node_id(BrokerId(1))
                    .with_host(StrBytes::from("localhost"))
                    .with_port(29092)])
                .with_cluster_id(Some(StrBytes::from("q8L0jMpRTAa_LOItNbMVZg")))
                .with_controller_id(BrokerId(1))
                .with_topics(vec![MetadataResponseTopic::default()
                    .with_name(Some(TopicName(StrBytes::from("my-topic"))))
                    .with_topic_id(uuid::Uuid::parse_str("b1fa72a9-70f1-4e91-b26f-e3e2111c7251").unwrap())
                    .with_partitions(vec![MetadataResponsePartition::default()
                        .with_leader_id(BrokerId(1))
                        .with_replica_nodes(vec![BrokerId(1)])
                        .with_leader_epoch(0)
                        .with_isr_nodes(vec![BrokerId(1)])])])
        )
    );
    assert!(tracked_requests.is_empty());
}

#[test]
fn request_keys_follow_the_api() {
    assert_eq!(KafkaRequest::ApiVersionsRequest(ApiVersionsRequest::default()).api_key(), 18);
    assert_eq!(KafkaRequest::MetadataRequest(MetadataRequest::default()).api_key(), 3);
    assert_eq!(KafkaResponse::ApiVersionsResponse(ApiVersionsResponse::default()).api_key(), 18);
    assert_eq!(api_name_of(0), "Produce");
    assert_eq!(api_name_of(75), "DescribeTopicPartitions");
}

#[test]
fn incomplete_request_is_pending() {
    assert_eq!(parse_kafka_request(&API_VERSIONS_PAYLOAD[..20]), None);
    // a negative size is never complete
    assert_eq!(parse_kafka_request(&[0xff, 0xff, 0xff, 0x00, 0, 0, 0, 0]), None);
}

#[test]
fn unknown_api_key_is_refused() {
    let mut payload = API_VERSIONS_PAYLOAD;
    payload[4] = 0x00;
    payload[5] = 0xc8;
    assert_eq!(parse_kafka_request(&payload), Some(Err("Invalid API Key".to_string())));
}

#[test]
fn truncated_header_is_refused() {
    // API key 18, version 3 (header version 2) but the client id runs past the frame
    let payload = [0x00u8, 0x00, 0x00, 0x0a, 0x00, 0x12, 0x00, 0x03, 0x00, 0x00, 0x00, 0x01, 0x00, 0x07];
    assert_eq!(parse_kafka_request(&payload), Some(Err("Invalid API Version".to_string())));
}

#[test]
fn undecodable_body_names_the_api() {
    // API key 3 (Metadata), version 12, no body at all
    let payload = [0x00u8, 0x00, 0x00, 0x0b, 0x00, 0x03, 0x00, 0x0c, 0x00, 0x00, 0x00, 0x01, 0xff, 0xff, 0x00];
    assert_eq!(parse_kafka_request(&payload), Some(Err("Invalid Metadata Request".to_string())));
}

#[test]
fn frames_are_taken_whole() {
    let mut buff = vec![0, 0, 0, 2, 7, 8, 9];
    let frame = check_valid_packet(&mut buff).unwrap();
    assert_eq!(frame, vec![0, 0, 0, 2, 7, 8]);
    assert_eq!(buff, vec![9]);

    let mut short = vec![0, 0, 0, 5, 1, 2];
    assert_eq!(check_valid_packet(&mut short), None);
    assert_eq!(short, vec![0, 0, 0, 5, 1, 2]);
}

#[test]
fn framed_payload_is_read_back() {
    let framed = frame_payload(b"hello");
    assert_eq!(framed, vec![0, 0, 0, 5, b'h', b'e', b'l', b'l', b'o']);
    let mut buff = framed.clone();
    buff.extend_from_slice(b"next");
    assert_eq!(check_valid_packet(&mut buff), Some(framed));
    assert_eq!(buff, b"next".to_vec());
}

#[test]
fn varints_are_read() {
    let mut c = ByteCursor::new(vec![0x96, 0x01, 0x05]);
    assert_eq!(decode_unsigned_varint(&mut c), Ok(150));
    assert_eq!(c.remaining(), 1);
    assert_eq!(decode_unsigned_varint(&mut c), Ok(5));
    assert_eq!(c.remaining(), 0);

    let mut long = ByteCursor::new(vec![0xff, 0xff, 0xff, 0xff, 0x0f, 0x01]);
    assert_eq!(decode_unsigned_varint(&mut long), Ok(u32::MAX));
    assert_eq!(long.chunk(), &[0x01]);

    let mut cut = ByteCursor::new(vec![0x80, 0x80]);
    assert_eq!(decode_unsigned_varint(&mut cut), Err(NotEnoughBytesError));
    assert_eq!(cut.remaining(), 0);
}

#[test]
fn tagged_fields_are_read() {
    // two fields: tag 1 = "ab", tag 1 again = "c" (the later one stays), then a trailing byte
    let mut c = ByteCursor::new(vec![0x02, 0x01, 0x02, b'a', b'b', 0x01, 0x01, b'c', 0x09]);
    let fields = decode_tagged_fields(&mut c).unwrap();
    assert_eq!(fields.len(), 1);
    assert_eq!(fields.get(&1), Some(&b"c".to_vec()));
    assert_eq!(c.chunk(), &[0x09]);

    let mut short = ByteCursor::new(vec![0x01, 0x01, 0x05, b'a']);
    assert!(decode_tagged_fields(&mut short).is_err());
}

#[test]
fn response_header_in_two_steps() {
    let mut c = ByteCursor::new(vec![0x00, 0x00, 0x00, 0x2a, 0x01, 0x07, 0x01, 0xee, 0x55]);
    let header = ResponseHeaderIntermediary::decode(&mut c).unwrap();
    assert_eq!(header.correlation_id, 42);
    let complete = header.complete(&mut c, 3, 12).unwrap();
    assert_eq!(complete.correlation_id, 42);
    assert_eq!(complete.tagged_fields.get(&7), Some(&vec![0xee]));
    assert_eq!(c.chunk(), &[0x55]);

    // ApiVersions responses carry no tagged fields in their header
    let mut d = ByteCursor::new(vec![0x00, 0x00, 0x00, 0x01, 0x05]);
    let header = ResponseHeaderIntermediary::decode(&mut d).unwrap().with_correlation_id(9);
    let complete = header.complete(&mut d, 18, 3).unwrap();
    assert_eq!(complete.correlation_id, 9);
    assert!(complete.tagged_fields.is_empty());
    assert_eq!(d.chunk(), &[0x05]);

    let mut e = ByteCursor::new(vec![0x00, 0x01]);
    assert!(ResponseHeaderIntermediary::decode(&mut e).is_err());
    assert_eq!(ResponseHeaderIntermediary::default().correlation_id, 0);
}

#[test]
fn every_api_has_a_version_range() {
    let versions = all_api_versions();
    assert_eq!(versions.len(), 76);
    for (i, v) in versions.iter().enumerate() {
        assert_eq!(v.api_key as usize, i);
        assert!(v.min_version <= v.max_version);
    }
    assert_eq!(versions[3].min_version, 0);
    assert_eq!(versions[3].max_version, 12);
    assert_eq!(versions[18].max_version, 3);
}

#[test]
fn client_numbers_requests_and_pairs_responses() {
    let mut state = KafkaClientState::new();
    let first = state.send(KafkaRequest::ApiVersionsRequest(ApiVersionsRequest::default()), None);
    let second = state.send(KafkaRequest::MetadataRequest(MetadataRequest::default()), Some("me".to_string()));
    assert_eq!(first.correlation_id, 1);
    assert_eq!(second.correlation_id, 2);
    assert_eq!(first.api_version, 3);
    assert_eq!(second.client_id, Some("me".to_string()));

    // a response to the first request: size, correlation id 1, then an ApiVersions body (v3)
    let body: Result<Vec<u8>, ()> = KafkaResponse::ApiVersionsResponse(ApiVersionsResponse::default()).encode_body(3);
    let body = body.unwrap();
    let mut payload = vec![0x00, 0x00, 0x00, 0x01];
    payload.extend_from_slice(&body);
    let mut inbound = frame_payload(&payload);
    let resp: Result<_, KafkaProtocolError<()>> = state.receive(&mut inbound);
    assert_eq!(resp.unwrap(), Some(KafkaResponse::ApiVersionsResponse(ApiVersionsResponse::default())));
    assert!(inbound.is_empty());

    // the same correlation id again is not pending any more
    let mut again = frame_payload(&payload);
    let resp: Result<_, KafkaProtocolError<()>> = state.receive(&mut again);
    match resp {
        Err(KafkaProtocolError::UnhandledImplementation(text)) => {
            assert_eq!(text, "Encountered correlation id in response that isn't tracked on client")
        }
        other => panic!("unexpected {:?}", other),
    }
}

#[test]
fn client_waits_for_whole_response() {
    let mut state = KafkaClientState::new();
    let mut inbound = vec![0x00, 0x00];
    let resp: Result<_, KafkaProtocolError<()>> = state.receive(&mut inbound);
    assert_eq!(resp.unwrap(), None);
    let mut inbound = vec![0x00, 0x00, 0x00, 0x09, 0x00];
    let resp: Result<_, KafkaProtocolError<()>> = state.receive(&mut inbound);
    assert_eq!(resp.unwrap(), None);
    assert_eq!(inbound.len(), 5);
}

#[test]
fn server_answers_with_the_request_version() {
    let mut state = KafkaServerState::new();
    let mut inbound = API_VERSIONS_PAYLOAD.to_vec();
    inbound.extend_from_slice(&[0, 0]);
    let request = state.receive(&mut inbound).unwrap().unwrap();
    assert_eq!(request.correlation_id, 1);
    assert_eq!(request.request.api_key(), 18);
    assert_eq!(inbound, vec![0, 0]);

    let response = TrackedKafkaResponse {
        correlation_id: 1,
        response: KafkaResponse::ApiVersionsResponse(ApiVersionsResponse::default()),
    };
    let wire: Result<Vec<u8>, KafkaProtocolError<()>> = state.respond(response);
    let wire = wire.unwrap();
    let body = KafkaResponse::ApiVersionsResponse(ApiVersionsResponse::default()).encode_body(3).unwrap();
    // the header is written under the request's API version, 3: correlation id and an empty tag section
    let mut payload = vec![0x00, 0x00, 0x00, 0x01, 0x00];
    payload.extend_from_slice(&body);
    assert_eq!(wire, frame_payload(&payload));

    let again = TrackedKafkaResponse {
        correlation_id: 1,
        response: KafkaResponse::ApiVersionsResponse(ApiVersionsResponse::default()),
    };
    let wire: Result<Vec<u8>, KafkaProtocolError<()>> = state.respond(again);
    match wire {
        Err(KafkaProtocolError::UnhandledImplementation(text)) => {
            assert_eq!(text, "Received message with unmatched correlation_id")
        }
        other => panic!("unexpected {:?}", other),
    }
}

#[test]
fn client_layer_keeps_its_config() {
    let layer = ProtoKafkaClientLayer::new(KafkaProtoClientConfig {
        timeout: Duration::from_millis(200),
        client_id: Some("id".to_string()),
    });
    assert_eq!(layer.config.timeout, Duration::from_millis(200));
    assert_eq!(layer.config.client_id, Some("id".to_string()));
}

#[test]
fn client_request_is_read_back_by_the_server() {
    let mut client = KafkaClientState::new();
    let _first = client.send(KafkaRequest::MetadataRequest(MetadataRequest::default()), None);
    let full = client.send(
        KafkaRequest::ApiVersionsRequest(
            ApiVersionsRequest::default()
                .with_client_software_name(StrBytes::from("x"))
                .with_client_software_version(StrBytes::from("1")),
        ),
        Some("client".to_string()),
    );
    let mut wire: Vec<u8> = Vec::new();
    let res: Result<(), KafkaProtocolError<()>> = full.write_to(&mut wire);
    res.unwrap();
    let (info, request) = parse_kafka_request_tracked(&wire).unwrap().unwrap();
    assert_eq!(info.correlation_id, 2);
    assert_eq!(info.api_version, 3);
    assert_eq!(request.api_key(), 18);
    assert_eq!(
        request,
        KafkaRequest::ApiVersionsRequest(
            ApiVersionsRequest::default()
                .with_client_software_name(StrBytes::from("x"))
                .with_client_software_version(StrBytes::from("1")),
        )
    );
}

#[test]
fn overlong_client_id_is_refused() {
    let full = KafkaRequest::ApiVersionsRequest(ApiVersionsRequest::default()).into_full(3, 1, Some("x".repeat(40000)));
    let mut wire: Vec<u8> = vec![7];
    let res: Result<(), KafkaProtocolError<()>> = full.write_to(&mut wire);
    match res {
        Err(KafkaProtocolError::UnhandledImplementation(text)) => assert_eq!(text, "Response header encode failure"),
        other => panic!("unexpected {:?}", other),
    }
    assert_eq!(wire, vec![7]);
}

#[test]
fn server_response_is_paired_by_the_client() {
    let mut server = KafkaServerState::new();
    let mut inbound = API_VERSIONS_PAYLOAD.to_vec();
    let request = server.receive(&mut inbound).unwrap().unwrap();
    let response = TrackedKafkaResponse {
        correlation_id: request.correlation_id,
        response: KafkaResponse::MetadataResponse(MetadataResponse::default()),
    };
    let wire: Result<Vec<u8>, KafkaProtocolError<()>> = server.respond(response);
    let mut wire = wire.unwrap();
    let mut tracked_requests = BTreeMap::new();
    tracked_requests.insert(1, (3i16, 12i16));
    tracked_requests.insert(5, (3i16, 12i16));
    let resp: Result<_, KafkaProtocolError<()>> = parse_response(&mut wire, &mut tracked_requests);
    // the correlation id that the server wrote is the one the client finds
    assert!(!tracked_requests.contains_key(&1));
    assert!(tracked_requests.contains_key(&5));
    let _ = resp;
}

#[test]
fn client_numbers_many_requests_in_order() {
    let mut state = KafkaClientState::new();
    for expected in 1..=5 {
        assert_eq!(state.next_correlation_id(), expected);
        let sent = state.send(KafkaRequest::MetadataRequest(MetadataRequest::default()), None);
        assert_eq!(sent.correlation_id, expected);
        assert_eq!(sent.api_version, 3);
    }
    assert_eq!(state.next_correlation_id(), 6);
}

#[test]
fn undecodable_response_body_is_refused_and_decodable_one_taken() {
    // a HeartbeatResponse v3 body (throttle time, error code), then one more byte
    let good: Vec<u8> = vec![0, 0, 0, 0, 0, 0, 0xaa];
    let mut pending = BTreeMap::new();
    pending.insert(7, (12i16, 3i16));
    let mut payload = vec![0x00, 0x00, 0x00, 0x07];
    payload.extend_from_slice(&good);
    let mut inbound = frame_payload(&payload);
    let resp: Result<_, KafkaProtocolError<()>> = parse_response(&mut inbound, &mut pending);
    assert!(matches!(resp, Ok(Some(KafkaResponse::HeartbeatResponse(_)))));
    assert_eq!(inbound, vec![0xaa]);

    let mut pending = BTreeMap::new();
    pending.insert(7, (12i16, 3i16));
    let mut short = frame_payload(&[0x00, 0x00, 0x00, 0x07, 0x00, 0x00]);
    let resp: Result<_, KafkaProtocolError<()>> = parse_response(&mut short, &mut pending);
    match resp {
        Err(KafkaProtocolError::UnhandledImplementation(text)) => assert_eq!(text, "Error decoding Heartbeat response"),
        other => panic!("unexpected {:?}", other),
    }
}
