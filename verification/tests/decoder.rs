use chronicle_cql::auth_challenge::AuthChallenge;
use chronicle_cql::compression::UNCOMPRESSED;
use chronicle_cql::decoder::{Decoder, FrameError};
use chronicle_cql::header;
use chronicle_cql::opcode;

fn frame(flags: u8, stream: [u8; 2], op: u8, declared: u32, body: &[u8]) -> Vec<u8> {
    let mut bytes = vec![0x84, flags, stream[0], stream[1], op];
    bytes.extend(&declared.to_be_bytes());
    bytes.extend(body);
    bytes
}

fn refused(bytes: Vec<u8>) -> FrameError {
    match Decoder::new(bytes, UNCOMPRESSED) {
        Ok(_) => panic!("the frame was accepted"),
        Err(e) => e,
    }
}

fn accepted(bytes: Vec<u8>) -> Decoder {
    match Decoder::new(bytes, UNCOMPRESSED) {
        Ok(decoder) => decoder,
        Err(e) => panic!("the frame was refused: {:?}", e),
    }
}

#[test]
fn declared_length_beyond_the_bytes_is_truncated() {
    assert_eq!(refused(frame(0, [0, 0], opcode::RESULT, 5, &[1, 2, 3, 4])), FrameError::TruncatedFrame);
    assert_eq!(refused(frame(0, [0, 0], opcode::RESULT, 1, &[])), FrameError::TruncatedFrame);
    assert_eq!(refused(frame(0, [0, 0], opcode::RESULT, u32::MAX, &[0; 16])), FrameError::TruncatedFrame);
    // truncation is reported before the opcode is looked at
    assert_eq!(refused(frame(0, [0, 0], 0x04, 5, &[1, 2, 3, 4])), FrameError::TruncatedFrame);
}

#[test]
fn short_header_is_truncated() {
    assert_eq!(refused(vec![]), FrameError::TruncatedFrame);
    assert_eq!(refused(vec![0x84, 0, 0, 0, 8, 0, 0, 0]), FrameError::TruncatedFrame);
}

#[test]
fn unknown_opcode_is_refused() {
    assert_eq!(refused(frame(0, [0, 0], 0x04, 0, &[])), FrameError::UnknownOpcode);
    assert_eq!(refused(frame(0, [0, 0], 0x11, 0, &[])), FrameError::UnknownOpcode);
    assert_eq!(refused(frame(0, [0, 0], 0xff, 2, &[1, 2])), FrameError::UnknownOpcode);
}

#[test]
fn every_known_opcode_is_accepted() {
    let known = [
        opcode::ERROR,
        opcode::STARTUP,
        opcode::READY,
        opcode::AUTHENTICATE,
        opcode::OPTIONS,
        opcode::SUPPORTED,
        opcode::QUERY,
        opcode::RESULT,
        opcode::PREPARE,
        opcode::EXECUTE,
        opcode::REGISTER,
        opcode::EVENT,
        opcode::BATCH,
        opcode::AUTH_CHALLENGE,
        opcode::AUTH_RESPONSE,
        opcode::AUTH_SUCCESS,
    ];
    for op in 0u8..=255 {
        assert_eq!(opcode::known(op), known.contains(&op));
        assert_eq!(Decoder::new(frame(0, [0, 0], op, 0, &[]), UNCOMPRESSED).is_ok(), known.contains(&op));
    }
}

#[test]
fn header_fields_are_read_back() {
    let decoder = accepted(frame(header::WARNING | header::TRACING, [0xff, 0xfe], opcode::ERROR, 3, &[7, 8, 9]));
    assert_eq!(decoder.version(), 0x84);
    assert_eq!(decoder.flags(), 0x0a);
    assert!(!decoder.is_ignore());
    assert_eq!(decoder.stream(), -2);
    assert_eq!(decoder.opcode(), opcode::ERROR);
    assert!(decoder.is_error());
    assert_eq!(decoder.length(), 3);
    assert_eq!(decoder.body(), &[7, 8, 9]);
}

#[test]
fn body_ends_where_the_header_says() {
    // two bytes follow the declared body; they are never read
    let decoder = accepted(frame(0, [0, 1], opcode::RESULT, 4, &[255, 255, 255, 255, 0, 0]));
    assert_eq!(decoder.length(), 4);
    assert_eq!(decoder.body(), &[255, 255, 255, 255]);
    assert_eq!(decoder.bytes(0), Ok(None));
    let decoder = accepted(frame(0, [0, 1], opcode::RESULT, 4, &[0, 0, 0, 2, 5, 6]));
    assert_eq!(decoder.bytes(0), Err(FrameError::TruncatedFrame));
}

#[test]
fn compressed_flag_goes_through_the_decompressor() {
    // the identity strategy hands the frame back as it is
    let decoder = accepted(frame(header::COMPRESSION, [0, 0], opcode::RESULT, 1, &[9]));
    assert_eq!(decoder.flags(), header::COMPRESSION);
    assert_eq!(decoder.body(), &[9]);
}

#[test]
fn auth_challenge_holds_the_token() {
    let decoder = accepted(frame(0, [0, 0], opcode::AUTH_CHALLENGE, 7, &[0, 0, 0, 3, 1, 2, 3]));
    let challenge = AuthChallenge::new(&decoder);
    assert_eq!(challenge.token(), &Some(vec![1, 2, 3]));
}

#[test]
fn auth_challenge_without_token() {
    let decoder = accepted(frame(0, [0, 0], opcode::AUTH_CHALLENGE, 4, &[255, 255, 255, 255]));
    let challenge = AuthChallenge::new(&decoder);
    assert_eq!(challenge.token(), &None);
    let challenge = AuthChallenge::read(&[0, 0, 0, 0]).unwrap();
    assert_eq!(challenge.token(), &Some(vec![]));
}

#[test]
fn auth_challenge_read_reports_a_bad_body() {
    assert_eq!(AuthChallenge::read(&[0, 0, 0, 9, 1]).err(), Some(FrameError::TruncatedFrame));
    assert_eq!(AuthChallenge::read(&[0, 0]).err(), Some(FrameError::TruncatedFrame));
    assert_eq!(AuthChallenge::read(&[255, 255, 255, 254]).err(), Some(FrameError::SchemaMismatch));
}
