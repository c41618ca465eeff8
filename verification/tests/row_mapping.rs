use pg_codec::codec::ToSql;
use pg_codec::error::Kind;
use pg_codec::row::{Column, FromRow, Row};
use pg_codec::types::{Kind as TypeKind, Type};

fn text_type() -> Type {
    Type::new("text".to_string(), 25, TypeKind::Simple)
}

fn int4_type() -> Type {
    Type::new("int4".to_string(), 23, TypeKind::Simple)
}

fn int4_bytes(v: i32) -> Vec<u8> {
    let mut buf = bytes::BytesMut::new();
    v.to_sql(&int4_type(), &mut buf).unwrap();
    buf[..].to_vec()
}

fn person_row() -> Row {
    Row::new(
        vec![
            Column::new("name".to_string(), text_type()),
            Column::new("age".to_string(), int4_type()),
        ],
        vec![Some(b"steven".to_vec()), Some(int4_bytes(18))],
    )
}

#[test]
fn matching_row_maps_to_tuple() {
    let row = person_row();
    let (name, age) = <(String, i32)>::from_row(&row).unwrap();
    assert_eq!(name, "steven");
    assert_eq!(age, 18);
}

#[test]
fn by_name_lookup_resolves_first_match() {
    let row = person_row();
    assert_eq!(row.try_get_by_name::<String>("name").unwrap(), "steven");
    assert_eq!(row.try_get_by_name::<i32>("age").unwrap(), 18);
}

#[test]
fn missing_column_name_is_an_invalid_column_error() {
    let row = person_row();
    let err = row.try_get_by_name::<i32>("salary").unwrap_err();
    match err.kind() {
        Kind::Column(name) => assert_eq!(name, "salary"),
        other => panic!("unexpected kind: {other:?}"),
    }
    assert_eq!(err.to_string(), "invalid column `salary`");
}

#[test]
fn out_of_range_index_is_an_invalid_column_error() {
    let row = person_row();
    let err = row.try_get::<i32>(5).unwrap_err();
    match err.kind() {
        Kind::Column(name) => assert_eq!(name, "5"),
        other => panic!("unexpected kind: {other:?}"),
    }
}

#[test]
fn mistyped_column_is_a_decode_fault_with_its_index() {
    let row = person_row();
    // Column 0 is text; asking for an integer must fail at index 0.
    let err = row.try_get::<i32>(0).unwrap_err();
    match err.kind() {
        Kind::FromSql(idx, fault) => {
            assert_eq!(*idx, 0);
            assert_eq!(fault.text(), "wrong type");
        },
        other => panic!("unexpected kind: {other:?}"),
    }

    // A cell whose bytes the codec rejects also carries its index.
    let broken = Row::new(
        vec![Column::new("age".to_string(), int4_type())],
        vec![Some(vec![1, 2, 3])],
    );
    let err = broken.try_get::<i32>(0).unwrap_err();
    match err.kind() {
        Kind::FromSql(idx, _) => assert_eq!(*idx, 0),
        other => panic!("unexpected kind: {other:?}"),
    }
}

#[test]
fn tuple_mapping_aborts_on_first_fault() {
    let row = person_row();
    // The second tuple slot is mistyped, so the whole conversion fails.
    let err = <(String, String)>::from_row(&row).unwrap_err();
    match err.kind() {
        Kind::FromSql(idx, _) => assert_eq!(*idx, 1),
        other => panic!("unexpected kind: {other:?}"),
    }
    // A row shorter than the tuple is an invalid column.
    let err = <(String, i32, String)>::from_row(&row).unwrap_err();
    match err.kind() {
        Kind::Column(name) => assert_eq!(name, "2"),
        other => panic!("unexpected kind: {other:?}"),
    }
}

#[test]
fn null_cell_decodes_through_the_null_path() {
    let row = Row::new(
        vec![Column::new("age".to_string(), int4_type())],
        vec![None],
    );
    assert_eq!(row.try_get::<Option<i32>>(0).unwrap(), None);
    let err = row.try_get::<i32>(0).unwrap_err();
    match err.kind() {
        Kind::FromSql(idx, fault) => {
            assert_eq!(*idx, 0);
            assert_eq!(fault.text(), "a Postgres value was `NULL`");
        },
        other => panic!("unexpected kind: {other:?}"),
    }
}

#[test]
fn row_reports_its_shape() {
    let row = person_row();
    assert_eq!(row.len(), 2);
    assert_eq!(row.columns().len(), 2);
    assert_eq!(row.columns()[0].name, "name");
}
