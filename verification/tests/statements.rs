use pg_codec::lazy_pin::LazyPin;
use pg_codec::statement::{Statement, StatementType, ToStatement};

#[test]
fn statement_converts_to_its_prepared_branch() {
    let st = Statement {
        name: "s0".to_string(),
    };
    match st.__convert() {
        StatementType::Statement(s) => assert_eq!(s.name, "s0"),
        StatementType::Query(_) => panic!("expected the prepared branch"),
    }
}

#[test]
fn query_text_converts_to_its_query_branch() {
    match "SELECT 1".__convert() {
        StatementType::Query(q) => assert_eq!(q, "SELECT 1"),
        StatementType::Statement(_) => panic!("expected the query branch"),
    }
    let owned = "SELECT 2".to_string();
    match owned.__convert() {
        StatementType::Query(q) => assert_eq!(q, "SELECT 2"),
        StatementType::Statement(_) => panic!("expected the query branch"),
    }
}

#[test]
fn lazy_pin_returns_value_while_unpinned() {
    let pin = LazyPin::new(41);
    assert_eq!(pin.into_unpinned(), Some(41));
}
