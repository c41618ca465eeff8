use pg_codec::db_error::DbError;
use pg_codec::error::{Error, Kind, RowCountCategory};
use pg_codec::fault::Fault;

fn fault(text: &str) -> Fault {
    Fault::new(text.to_string())
}

fn sample_db_error() -> DbError {
    let fields = vec![
        (b'S', "ERROR".to_string()),
        (b'C', "23505".to_string()),
        (b'M', "duplicate key".to_string()),
    ];
    DbError::parse(&fields).unwrap()
}

#[test]
fn each_kind_renders_its_stable_shape() {
    assert_eq!(
        Error::io(fault("pipe broke")).to_string(),
        "error communicating with the server: pipe broke"
    );
    assert_eq!(
        Error::unexpected_message().to_string(),
        "unexpected message from server"
    );
    assert_eq!(
        Error::tls(fault("bad cert")).to_string(),
        "error performing TLS handshake: bad cert"
    );
    assert_eq!(
        Error::to_sql(fault("out of range"), 3).to_string(),
        "error serializing parameter 3: out of range"
    );
    assert_eq!(
        Error::from_sql(fault("bad bytes"), 12).to_string(),
        "error deserializing column 12: bad bytes"
    );
    assert_eq!(
        Error::column("age".to_string()).to_string(),
        "invalid column `age`"
    );
    assert_eq!(
        Error::to_sql(fault("nope"), 0).to_string(),
        "error serializing parameter 0: nope"
    );
    assert_eq!(
        Error::from_sql(fault("nope"), 10200).to_string(),
        "error deserializing column 10200: nope"
    );
    assert_eq!(
        Error::parameters(5, 2).to_string(),
        "expected 2 parameters but got 5"
    );
    assert_eq!(Error::closed().to_string(), "connection closed");
    assert_eq!(
        Error::db_record(sample_db_error()).to_string(),
        "db error: ERROR: duplicate key"
    );
    assert_eq!(
        Error::parse(fault("short read")).to_string(),
        "error parsing response from server: short read"
    );
    assert_eq!(
        Error::encode(fault("overflow")).to_string(),
        "error encoding message to server: overflow"
    );
    assert_eq!(
        Error::authentication(fault("bad password")).to_string(),
        "authentication error: bad password"
    );
    assert_eq!(
        Error::config_parse(fault("dangling key")).to_string(),
        "invalid connection string: dangling key"
    );
    assert_eq!(
        Error::config(fault("no host")).to_string(),
        "invalid configuration: no host"
    );
    assert_eq!(
        Error::connect(fault("refused")).to_string(),
        "error connecting to server: refused"
    );
    assert_eq!(
        Error::__private_api_timeout().to_string(),
        "timeout waiting for server"
    );
}

#[test]
fn row_count_renders_both_categories() {
    assert_eq!(
        Error::row_count(RowCountCategory::Zero, RowCountCategory::MoreThanOne).to_string(),
        "query returned an unexpected number of rows, expected zero, got more than one"
    );
    assert_eq!(
        Error::row_count(RowCountCategory::One, RowCountCategory::ZeroOrOne).to_string(),
        "query returned an unexpected number of rows, expected one, got zero or one"
    );
    assert_eq!(RowCountCategory::MoreThanOne.to_string(), "more than one");
}

#[test]
fn kind_accessors() {
    let e = Error::closed();
    assert!(e.is_closed());
    assert!(matches!(e.kind(), Kind::Closed));
    assert!(matches!(e.into_kind(), Kind::Closed));
    assert!(!Error::__private_api_timeout().is_closed());
}

#[test]
fn db_error_accessors() {
    let e = Error::db_record(sample_db_error());
    assert_eq!(e.as_db_error().unwrap().message(), "duplicate key");
    assert_eq!(e.code().unwrap().code(), "23505");
    assert!(Error::closed().as_db_error().is_none());
    assert!(Error::closed().code().is_none());
}

#[test]
fn into_source_returns_the_nested_fault() {
    let src = Error::io(fault("pipe broke")).into_source().unwrap();
    assert_eq!(src.text(), "pipe broke");
    assert!(Error::closed().into_source().is_none());
    assert!(Error::unexpected_message().into_source().is_none());
    let db_src = Error::db_record(sample_db_error()).into_source().unwrap();
    assert_eq!(db_src.text(), "ERROR: duplicate key");
}

#[test]
fn span_trace_is_consumed_exactly_once() {
    let mut e = Error::closed();
    assert!(e.span_trace().is_some());
    let first = e.take_span_trace();
    assert!(first.is_some());
    assert!(e.span_trace().is_none());
    assert!(e.take_span_trace().is_none());
    assert!(e.is_closed());
}
