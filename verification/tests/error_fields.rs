use pg_codec::db_error::{DbError, ErrorPosition, ParseFault, Severity};

fn field(code: u8, value: &str) -> (u8, String) {
    (code, value.to_string())
}

fn minimal_fields() -> Vec<(u8, String)> {
    vec![
        field(b'S', "ERROR"),
        field(b'C', "42703"),
        field(b'M', "column does not exist"),
    ]
}

#[test]
fn parses_minimal_message() {
    let db = DbError::parse(&minimal_fields()).unwrap();
    assert_eq!(db.severity(), "ERROR");
    assert_eq!(db.code().code(), "42703");
    assert_eq!(db.message(), "column does not exist");
    assert_eq!(db.parsed_severity(), None);
    assert_eq!(db.detail(), None);
    assert_eq!(db.hint(), None);
    assert!(db.position().is_none());
    assert_eq!(db.line(), None);
}

#[test]
fn parses_all_optional_fields() {
    let fields = vec![
        field(b'S', "FATAL"),
        field(b'V', "FATAL"),
        field(b'C', "57P01"),
        field(b'M', "terminating connection"),
        field(b'D', "the admin asked for it"),
        field(b'H', "reconnect later"),
        field(b'W', "while doing things"),
        field(b's', "public"),
        field(b't', "person"),
        field(b'c', "age"),
        field(b'd', "integer"),
        field(b'n', "age_positive"),
        field(b'F', "postgres.c"),
        field(b'L', "1234"),
        field(b'R', "ProcessInterrupts"),
    ];
    let db = DbError::parse(&fields).unwrap();
    assert_eq!(db.severity(), "FATAL");
    assert_eq!(db.parsed_severity(), Some(Severity::Fatal));
    assert_eq!(db.code().code(), "57P01");
    assert_eq!(db.detail(), Some("the admin asked for it"));
    assert_eq!(db.hint(), Some("reconnect later"));
    assert_eq!(db.where_(), Some("while doing things"));
    assert_eq!(db.schema(), Some("public"));
    assert_eq!(db.table(), Some("person"));
    assert_eq!(db.column(), Some("age"));
    assert_eq!(db.datatype(), Some("integer"));
    assert_eq!(db.constraint(), Some("age_positive"));
    assert_eq!(db.file(), Some("postgres.c"));
    assert_eq!(db.line(), Some(1234));
    assert_eq!(db.routine(), Some("ProcessInterrupts"));
}

#[test]
fn missing_mandatory_fields_fail_by_name() {
    let missing_s = vec![field(b'C', "42703"), field(b'M', "boom")];
    assert_eq!(DbError::parse(&missing_s), Err(ParseFault::MissingSeverity));
    assert_eq!(
        ParseFault::MissingSeverity.message(),
        "`S` field missing"
    );

    let missing_c = vec![field(b'S', "ERROR"), field(b'M', "boom")];
    assert_eq!(DbError::parse(&missing_c), Err(ParseFault::MissingCode));
    assert_eq!(ParseFault::MissingCode.message(), "`C` field missing");

    let missing_m = vec![field(b'S', "ERROR"), field(b'C', "42703")];
    assert_eq!(DbError::parse(&missing_m), Err(ParseFault::MissingMessage));
    assert_eq!(ParseFault::MissingMessage.message(), "`M` field missing");
}

#[test]
fn later_duplicate_field_wins() {
    let mut fields = minimal_fields();
    fields.push(field(b'M', "second message"));
    fields.push(field(b'S', "PANIC"));
    let db = DbError::parse(&fields).unwrap();
    assert_eq!(db.message(), "second message");
    assert_eq!(db.severity(), "PANIC");
}

#[test]
fn unrecognized_codes_are_ignored() {
    let mut fields = minimal_fields();
    fields.push(field(b'Z', "whatever"));
    fields.push(field(0xFE, "junk"));
    let db = DbError::parse(&fields).unwrap();
    assert_eq!(db.message(), "column does not exist");
}

#[test]
fn internal_position_requires_query_text() {
    let mut fields = minimal_fields();
    fields.push(field(b'p', "12"));
    assert_eq!(DbError::parse(&fields), Err(ParseFault::MissingInternalQuery));
    assert_eq!(
        ParseFault::MissingInternalQuery.message(),
        "`q` field missing but `p` field present"
    );

    fields.push(field(b'q', "SELECT hidden"));
    let db = DbError::parse(&fields).unwrap();
    assert_eq!(
        db.position(),
        Some(&ErrorPosition::Internal {
            position: 12,
            query: "SELECT hidden".to_string()
        })
    );
}

#[test]
fn original_position_wins_over_internal() {
    let mut fields = minimal_fields();
    fields.push(field(b'p', "12"));
    fields.push(field(b'q', "SELECT hidden"));
    fields.push(field(b'P', "7"));
    let db = DbError::parse(&fields).unwrap();
    assert_eq!(db.position(), Some(&ErrorPosition::Original(7)));
}

#[test]
fn invalid_severity_token_fails() {
    let mut fields = minimal_fields();
    fields.push(field(b'V', "SHOUTING"));
    assert_eq!(DbError::parse(&fields), Err(ParseFault::SeverityInvalid));
    assert_eq!(
        ParseFault::SeverityInvalid.message(),
        "`V` field contained an invalid value"
    );
}

#[test]
fn non_numeric_positions_fail() {
    let mut with_p = minimal_fields();
    with_p.push(field(b'P', "seven"));
    assert_eq!(DbError::parse(&with_p), Err(ParseFault::PositionNotInteger));
    assert_eq!(
        ParseFault::PositionNotInteger.message(),
        "`P` field did not contain an integer"
    );

    let mut with_l = minimal_fields();
    with_l.push(field(b'L', "12a"));
    assert_eq!(DbError::parse(&with_l), Err(ParseFault::LineNotInteger));
    assert_eq!(
        ParseFault::LineNotInteger.message(),
        "`L` field did not contain an integer"
    );

    let mut with_ip = minimal_fields();
    with_ip.push(field(b'p', ""));
    assert_eq!(
        DbError::parse(&with_ip),
        Err(ParseFault::InternalPositionNotInteger)
    );
    assert_eq!(
        ParseFault::InternalPositionNotInteger.message(),
        "`p` field did not contain an integer"
    );
}

#[test]
fn position_bounds_are_checked() {
    let mut fields = minimal_fields();
    fields.push(field(b'P', "4294967295"));
    let db = DbError::parse(&fields).unwrap();
    assert_eq!(db.position(), Some(&ErrorPosition::Original(4294967295)));

    let mut over = minimal_fields();
    over.push(field(b'P', "4294967296"));
    assert_eq!(DbError::parse(&over), Err(ParseFault::PositionNotInteger));
}

#[test]
fn severity_tokens_round_trip() {
    for (token, sev) in [
        ("PANIC", Severity::Panic),
        ("FATAL", Severity::Fatal),
        ("ERROR", Severity::Error),
        ("WARNING", Severity::Warning),
        ("NOTICE", Severity::Notice),
        ("DEBUG", Severity::Debug),
        ("INFO", Severity::Info),
        ("LOG", Severity::Log),
    ] {
        assert_eq!(Severity::from_str(token), Some(sev));
        assert_eq!(sev.to_string(), token);
    }
    assert_eq!(Severity::from_str("error"), None);
}

#[test]
fn db_error_display_shape() {
    let mut fields = minimal_fields();
    fields.push(field(b'D', "more words"));
    fields.push(field(b'H', "try again"));
    let db = DbError::parse(&fields).unwrap();
    assert_eq!(
        db.to_string(),
        "ERROR: column does not exist\nDETAIL: more words\nHINT: try again"
    );

    let plain = DbError::parse(&minimal_fields()).unwrap();
    assert_eq!(plain.to_string(), "ERROR: column does not exist");
}
