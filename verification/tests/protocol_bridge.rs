use bytes::{BufMut, BytesMut};
use postgres_protocol::message::backend::Message;
use pg_codec::error::{Error, Kind};
use pg_codec::protocol::decode_field_text;

/// Frames one backend error-response message from its `(code, value)` pairs.
fn raw_error_response(fields: &[(u8, &[u8])]) -> BytesMut {
    let mut body = Vec::new();
    for (code, value) in fields {
        body.push(*code);
        body.extend_from_slice(value);
        body.push(0);
    }
    body.push(0);
    let mut buf = BytesMut::new();
    buf.put_u8(b'E');
    buf.put_i32(4 + body.len() as i32);
    buf.extend_from_slice(&body);
    buf
}

fn parse_raw_error_response(fields: &[(u8, &[u8])]) -> Error {
    let mut buf = raw_error_response(fields);
    let message = Message::parse(&mut buf).unwrap().unwrap();
    match message {
        Message::ErrorResponse(body) => Error::db(&body),
        _ => panic!("expected an error response"),
    }
}

fn parse_error_response(fields: &[(u8, &str)]) -> Error {
    let raw: Vec<(u8, &[u8])> = fields.iter().map(|(c, v)| (*c, v.as_bytes())).collect();
    parse_raw_error_response(&raw)
}

#[test]
fn server_error_parses_into_db_kind() {
    let e = parse_error_response(&[
        (b'S', "ERROR"),
        (b'V', "ERROR"),
        (b'C', "42703"),
        (b'M', "column \"salary\" does not exist"),
        (b'P', "15"),
    ]);
    let db = e.as_db_error().unwrap();
    assert_eq!(db.severity(), "ERROR");
    assert_eq!(db.code().code(), "42703");
    assert_eq!(db.message(), "column \"salary\" does not exist");
    assert_eq!(
        e.to_string(),
        "db error: ERROR: column \"salary\" does not exist"
    );
}

#[test]
fn malformed_server_error_parses_into_parse_kind() {
    let e = parse_error_response(&[(b'C', "42703"), (b'M', "boom")]);
    assert!(e.as_db_error().is_none());
    match e.kind() {
        Kind::Parse(fault) => assert_eq!(fault.text(), "`S` field missing"),
        other => panic!("unexpected kind: {other:?}"),
    }
    assert_eq!(
        e.to_string(),
        "error parsing response from server: `S` field missing"
    );
}

#[test]
fn unrecognized_field_with_invalid_utf8_is_ignored() {
    // An unknown field code whose value is not UTF-8 must not spoil the
    // message: unknown fields are no-ops, for forward compatibility.
    let e = parse_raw_error_response(&[
        (b'S', b"ERROR"),
        (b'Z', &[0xFF, 0xFE]),
        (b'C', b"42703"),
        (b'M', b"boom"),
    ]);
    let db = e.as_db_error().unwrap();
    assert_eq!(db.message(), "boom");
}

#[test]
fn recognized_field_with_invalid_utf8_is_a_parse_fault() {
    let e = parse_raw_error_response(&[
        (b'S', b"ERROR"),
        (b'C', b"42703"),
        (b'M', &[0xC3, 0x28]),
    ]);
    match e.kind() {
        Kind::Parse(fault) => {
            assert_eq!(fault.text(), "error field value contained non-UTF8 bytes")
        },
        other => panic!("unexpected kind: {other:?}"),
    }
}

#[test]
fn decode_keeps_recognized_fields_only() {
    let pairs: Vec<(u8, Vec<u8>)> = vec![
        (b'S', b"ERROR".to_vec()),
        (b'Z', vec![0xFF]),
        (b'M', b"boom".to_vec()),
    ];
    let decoded = decode_field_text(&pairs).unwrap();
    assert_eq!(
        decoded,
        vec![(b'S', "ERROR".to_string()), (b'M', "boom".to_string())]
    );
    let bad: Vec<(u8, Vec<u8>)> = vec![(b'S', vec![0xFF])];
    assert!(decode_field_text(&bad).is_err());
}

#[test]
fn invalid_severity_in_wire_message_is_a_parse_fault() {
    let e = parse_error_response(&[(b'S', "ERROR"), (b'C', "42703"), (b'M', "boom"), (b'V', "LOUD")]);
    match e.kind() {
        Kind::Parse(fault) => assert_eq!(fault.text(), "`V` field contained an invalid value"),
        other => panic!("unexpected kind: {other:?}"),
    }
}
