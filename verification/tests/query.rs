use chronicle_cql::approvees;
use chronicle_cql::compression::{Compression, Uncompressed, UNCOMPRESSED};
use chronicle_cql::consistency::Consistency;
use chronicle_cql::decoder::{read_bytes, Decoder, FrameError};
use chronicle_cql::header::{self, Header};
use chronicle_cql::opcode;
use chronicle_cql::query::{
    Query, QueryOptions, PAGE_SIZE, PAGING_STATE, SERIAL_CONSISTENCY, SKIP_METADATA, TIMESTAMP, VALUES,
};
use chronicle_cql::value::Value;

const SELECT: &str = "SELECT tx FROM tangle.edge WHERE vertex = ? AND kind in ['trunk','branch']";

#[test]
fn header_steps_write_nine_bytes() {
    let Query(bytes) = Query::new().version().flags(header::TRACING).stream(-2).opcode(opcode::QUERY).length();
    assert_eq!(bytes, vec![4, 2, 0xff, 0xfe, 7, 0, 0, 0, 0]);
    let Query(empty) = Query::with_capacity(64);
    assert!(empty.is_empty());
}

#[test]
fn body_steps_write_their_sections() {
    let Query(bytes) = Query::new().statement("ab");
    assert_eq!(bytes, vec![0, 0, 0, 2, b'a', b'b']);
    let Query(bytes) = Query::new().consistency(Consistency::LocalQuorum);
    assert_eq!(bytes, vec![0, 6]);
    let Query(bytes) = Query::new().query_flags(VALUES | PAGE_SIZE);
    assert_eq!(bytes, vec![5]);
    let Query(bytes) = Query::new().value_count(258);
    assert_eq!(bytes, vec![1, 2]);
    let Query(bytes) = Query::new().value(1i32).value("x");
    assert_eq!(bytes, vec![0, 0, 0, 4, 0, 0, 0, 1, 0, 0, 0, 1, b'x']);
    let Query(bytes) = Query::new().unset_value().null_value();
    assert_eq!(bytes, vec![255, 255, 255, 254, 255, 255, 255, 255]);
    let Query(bytes) = Query::new().page_size(5000);
    assert_eq!(bytes, vec![0, 0, 0x13, 0x88]);
    let Query(bytes) = Query::new().paging_state(String::from("st"));
    assert_eq!(bytes, vec![0, 0, 0, 2, b's', b't']);
    let Query(bytes) = Query::new().serial_consistency(Consistency::LocalSerial);
    assert_eq!(bytes, vec![0, 9]);
    let Query(bytes) = Query::new().timestamp(1);
    assert_eq!(bytes, vec![0, 0, 0, 8, 0, 0, 0, 0, 0, 0, 0, 1]);
}

#[test]
fn values_section_counts_and_lists_the_cells() {
    let values = vec![Value::Int(7), Value::Null, Value::Text(String::from("a")), Value::Unset];
    let Query(bytes) = Query::new().values(&values);
    assert_eq!(
        bytes,
        vec![0, 4, 0, 0, 0, 4, 0, 0, 0, 7, 255, 255, 255, 255, 0, 0, 0, 1, b'a', 255, 255, 255, 254]
    );
    let Query(bytes) = Query::new().values(&Vec::new());
    assert_eq!(bytes, vec![0, 0]);
}

fn sample_options() -> QueryOptions {
    QueryOptions {
        values: vec![Value::BigInt(-1), Value::Boolean(true)],
        page_size: 100,
        paging_state: String::from("next"),
        serial_consistency: Consistency::Serial,
        timestamp: 0x0102030405060708,
    }
}

#[test]
fn optional_sections_follow_the_flags_in_fixed_order() {
    let values: Vec<u8> = vec![0, 2, 0, 0, 0, 8, 255, 255, 255, 255, 255, 255, 255, 255, 0, 0, 0, 1, 1];
    let page_size: Vec<u8> = vec![0, 0, 0, 100];
    let paging_state: Vec<u8> = vec![0, 0, 0, 4, b'n', b'e', b'x', b't'];
    let serial: Vec<u8> = vec![0, 8];
    let timestamp: Vec<u8> = vec![0, 0, 0, 8, 1, 2, 3, 4, 5, 6, 7, 8];
    for flags in 0u8..=255 {
        let mut expected = vec![0xeeu8, flags];
        if flags & VALUES != 0 {
            expected.extend(&values);
        }
        if flags & PAGE_SIZE != 0 {
            expected.extend(&page_size);
        }
        if flags & PAGING_STATE != 0 {
            expected.extend(&paging_state);
        }
        if flags & SERIAL_CONSISTENCY != 0 {
            expected.extend(&serial);
        }
        if flags & TIMESTAMP != 0 {
            expected.extend(&timestamp);
        }
        let Query(bytes) = Query(vec![0xee]).options(flags, &sample_options());
        assert_eq!(bytes, expected, "flags {:#04x}", flags);
    }
}

#[test]
fn no_flag_means_no_section() {
    let Query(bytes) = Query::new().options(0, &sample_options());
    assert_eq!(bytes, vec![0]);
    let Query(bytes) = Query::new().options(SKIP_METADATA, &sample_options());
    assert_eq!(bytes, vec![2]);
}

#[test]
fn build_writes_the_body_length() {
    let Query(bytes) = Query::new()
        .version()
        .flags(header::IGNORE)
        .stream(1)
        .opcode(opcode::QUERY)
        .length()
        .statement("abc")
        .build(UNCOMPRESSED);
    assert_eq!(bytes, vec![4, 0, 0, 1, 7, 0, 0, 0, 7, 0, 0, 0, 3, b'a', b'b', b'c']);
    let Query(bytes) = Query::new().version().flags(0).stream(0).opcode(opcode::OPTIONS).length().build(Uncompressed);
    assert_eq!(bytes, vec![4, 0, 0, 0, 5, 0, 0, 0, 0]);
}

#[test]
fn uncompressed_is_the_identity_on_the_body() {
    let mut frame = vec![4, 0, 0, 0, 7, 9, 9, 9, 9, 1, 2, 3];
    UNCOMPRESSED.compress(&mut frame);
    assert_eq!(frame, vec![4, 0, 0, 0, 7, 0, 0, 0, 3, 1, 2, 3]);
    let back = UNCOMPRESSED.decompress(frame.clone());
    assert_eq!(back, frame);
}

#[test]
fn approvees_query_scenario() {
    let payload = approvees::query(String::from("abc123"));
    // the same frame, built step by step
    let Query(by_hand) = Query::new()
        .version()
        .flags(header::IGNORE)
        .stream(0)
        .opcode(opcode::QUERY)
        .length()
        .statement(SELECT)
        .consistency(Consistency::One)
        .query_flags(SKIP_METADATA | VALUES)
        .value_count(1)
        .value("abc123")
        .build(UNCOMPRESSED);
    assert_eq!(payload, by_hand);

    let decoder = match Decoder::new(payload.clone(), UNCOMPRESSED) {
        Ok(decoder) => decoder,
        Err(e) => panic!("the frame was refused: {:?}", e),
    };
    assert_eq!(decoder.version(), 4);
    assert_eq!(decoder.opcode(), opcode::QUERY);
    assert_eq!(decoder.flags(), header::IGNORE);
    assert!(decoder.is_ignore());
    assert!(!decoder.is_error());
    assert_eq!(decoder.stream(), 0);
    assert_eq!(decoder.length(), payload.len() - 9);
    assert_eq!(decoder.body(), &payload[9..]);
    assert_eq!(decoder.buffer(), &payload[..]);

    // the body starts with the statement
    let statement = decoder.bytes(0).unwrap().unwrap();
    assert_eq!(statement, SELECT.as_bytes());
    assert_eq!(String::from_utf8(statement).unwrap(), SELECT);
    let after = 4 + SELECT.len();
    let body = decoder.body();
    // consistency ONE, flags SKIP_METADATA | VALUES, one value
    assert_eq!(&body[after..after + 5], &[0, 1, 0x03, 0, 1]);
    assert_eq!(read_bytes(body, after + 5), Ok(Some(b"abc123".to_vec())));
    assert_eq!(after + 5 + 4 + 6, body.len());
    assert_eq!(decoder.bytes(body.len()), Err(FrameError::TruncatedFrame));
}

#[test]
fn options_of_ordinary_size_can_be_written() {
    assert!(sample_options().is_encodable());
    let mut crowded = sample_options();
    crowded.values = (0..65536).map(|_| Value::Null).collect();
    assert!(!crowded.is_encodable());
    crowded.values.pop();
    assert!(crowded.is_encodable());
    assert!(Value::Text(String::from("abc")).fits());
    assert!(Value::Blob(vec![0; 16]).fits());
    assert!(Value::Unset.fits());
    assert!(chronicle_cql::encoder::text_fits("abc"));
}
