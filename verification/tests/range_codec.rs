use bytes::BytesMut;
use pg_codec::codec::{FromSql, IsNull, ToSql};
use pg_codec::range::{BoundType, Range, RangeBound};
use pg_codec::types::{Kind, Type};

fn int4_type() -> Type {
    Type::new("int4".to_string(), 23, Kind::Simple)
}

fn int4range_type() -> Type {
    Type::new("int4range".to_string(), 3904, Kind::Range(Box::new(int4_type())))
}

fn round_trip(r: &Range<i32>) {
    let ty = int4range_type();
    let mut buf = BytesMut::new();
    let null = r.to_sql(&ty, &mut buf).unwrap();
    assert_eq!(null, IsNull::No);
    let back = Range::<i32>::from_sql(&ty, &buf[..]).unwrap();
    assert_eq!(*r, back);
}

fn incl(v: i32) -> Option<RangeBound<i32>> {
    Some(RangeBound::new(v, BoundType::Inclusive))
}

fn excl(v: i32) -> Option<RangeBound<i32>> {
    Some(RangeBound::new(v, BoundType::Exclusive))
}

#[test]
fn round_trip_all_bound_shapes() {
    let low = -17;
    let high = 4200;
    round_trip(&Range::new(None, None));
    round_trip(&Range::new(incl(low), None));
    round_trip(&Range::new(excl(low), None));
    round_trip(&Range::new(None, incl(high)));
    round_trip(&Range::new(None, excl(high)));
    round_trip(&Range::new(incl(low), incl(high)));
    round_trip(&Range::new(incl(low), excl(high)));
    round_trip(&Range::new(excl(low), incl(high)));
    round_trip(&Range::new(excl(low), excl(high)));
    round_trip(&Range::empty());
}

#[test]
fn round_trip_extreme_values() {
    round_trip(&Range::new(incl(i32::MIN), excl(i32::MAX)));
    round_trip(&Range::new(incl(0), incl(0)));
}

#[test]
fn encode_example_wire_bytes() {
    // [0, 10) over int4: lower-inclusive flag, then two four-byte payloads
    // with their length headers.
    let ty = int4range_type();
    let r = Range::new(incl(0), excl(10));
    let mut buf = BytesMut::new();
    r.to_sql(&ty, &mut buf).unwrap();
    assert_eq!(
        &buf[..],
        &[0x02, 0, 0, 0, 4, 0, 0, 0, 0, 0, 0, 0, 4, 0, 0, 0, 10][..]
    );
    let back = Range::<i32>::from_sql(&ty, &buf[..]).unwrap();
    assert_eq!(back, r);
}

#[test]
fn encode_empty_marker() {
    let ty = int4range_type();
    let mut buf = BytesMut::new();
    Range::<i32>::empty().to_sql(&ty, &mut buf).unwrap();
    assert_eq!(&buf[..], &[0x01][..]);

    // The marker is the same over a text element type.
    let text_range = Type::new(
        "textrange".to_string(),
        3908,
        Kind::Range(Box::new(Type::new("text".to_string(), 25, Kind::Simple))),
    );
    let mut buf2 = BytesMut::new();
    Range::<String>::empty().to_sql(&text_range, &mut buf2).unwrap();
    assert_eq!(&buf2[..], &[0x01][..]);
}

#[test]
fn round_trip_null_bound_via_option() {
    let ty = int4range_type();
    let r: Range<Option<i32>> = Range::new(
        Some(RangeBound::new(None, BoundType::Inclusive)),
        Some(RangeBound::new(Some(7), BoundType::Exclusive)),
    );
    let mut buf = BytesMut::new();
    r.to_sql(&ty, &mut buf).unwrap();
    // A null payload is framed as a length of -1.
    assert_eq!(&buf[..5], &[0x02, 0xFF, 0xFF, 0xFF, 0xFF][..]);
    let back = Range::<Option<i32>>::from_sql(&ty, &buf[..]).unwrap();
    assert_eq!(back, r);
}

#[test]
fn decode_rejects_malformed_frames() {
    let ty = int4range_type();
    assert!(Range::<i32>::from_sql(&ty, &[]).is_err());
    // Empty marker with trailing bytes.
    assert!(Range::<i32>::from_sql(&ty, &[0x01, 0x00]).is_err());
    // Bound header truncated.
    assert!(Range::<i32>::from_sql(&ty, &[0x00, 0, 0]).is_err());
    // Payload shorter than its length header claims.
    assert!(Range::<i32>::from_sql(&ty, &[0x18, 0, 0, 0, 4, 0, 0]).is_err());
    // Trailing garbage after both bounds.
    assert!(Range::<i32>::from_sql(&ty, &[0x18, 0xAB]).is_err());
    // A five-byte integer payload fails the element codec.
    assert!(Range::<i32>::from_sql(&ty, &[0x18, 0, 0, 0, 5, 1, 2, 3, 4, 5]).is_err());
}

#[test]
fn accepts_follows_element_and_shape() {
    let ty = int4range_type();
    assert!(<Range<i32> as FromSql>::accepts(&ty));
    assert!(<Range<i32> as ToSql>::accepts(&ty));
    assert!(!<Range<i32> as FromSql>::accepts(&int4_type()));
    let text_range = Type::new(
        "textrange".to_string(),
        3908,
        Kind::Range(Box::new(Type::new("text".to_string(), 25, Kind::Simple))),
    );
    assert!(!<Range<i32> as ToSql>::accepts(&text_range));
    assert!(<Range<String> as ToSql>::accepts(&text_range));
}

#[test]
fn text_codec_round_trips() {
    let ty = Type::new("text".to_string(), 25, Kind::Simple);
    let mut buf = BytesMut::new();
    let s = "grüße".to_string();
    let null = s.to_sql(&ty, &mut buf).unwrap();
    assert_eq!(null, IsNull::No);
    assert_eq!(&buf[..], "grüße".as_bytes());
    let back = String::from_sql(&ty, &buf[..]).unwrap();
    assert_eq!(back, s);
    assert!(String::from_sql(&ty, &[0xFF, 0xFE]).is_err());
}

#[test]
fn int4_codec_is_big_endian() {
    let ty = int4_type();
    let mut buf = BytesMut::new();
    258i32.to_sql(&ty, &mut buf).unwrap();
    assert_eq!(&buf[..], &[0, 0, 1, 2][..]);
    assert_eq!(i32::from_sql(&ty, &[0xFF, 0xFF, 0xFF, 0xFE]).unwrap(), -2);
    assert!(i32::from_sql(&ty, &[0, 0, 1]).is_err());
}
