use chuchi_postgres::filter::{render_set, Value};
use chuchi_postgres::schema::{Column, ColumnType, Info, SqlType, TableTemplate};

fn column(name: &str, ty: SqlType, primary: bool) -> Column {
    Column {
        name: name.to_string(),
        ty: ColumnType::Scalar(ty),
        len: None,
        primary,
        unique: false,
        index: false,
    }
}

/// A record with an id, an optional name, an age and a kind.
pub struct Table;

impl TableTemplate for Table {
    fn table_info() -> Info {
        Info::new(vec![
            column("id", SqlType::Text, true),
            column("name", SqlType::Text, false),
            column("age", SqlType::Integer, false),
            column("ty", SqlType::SmallInt, false),
        ])
    }
}

/// The same record without its kind.
pub struct Person;

impl TableTemplate for Person {
    fn table_info() -> Info {
        Info::new(vec![
            column("id", SqlType::Text, true),
            column("name", SqlType::Text, false),
            column("age", SqlType::Integer, false),
        ])
    }
}

#[test]
fn tabletempl_test_select_columns() {
    assert_eq!(Table::table_info().select_columns(), r#""id", "name", "age", "ty""#);
}

#[test]
fn tabletempl_test_insert_columns() {
    assert_eq!(Table::table_info().insert_columns(), r#""id", "name", "age", "ty""#);
}

#[test]
fn test_select_columns() {
    assert_eq!(Person::table_info().select_columns(), r#""id", "name", "age""#);
}

#[test]
fn test_insert_columns() {
    assert_eq!(Person::table_info().insert_columns(), r#""id", "name", "age""#);
}

#[test]
fn test_create_row() {
    let s = "";

    let _ = render_set(
        vec![
            ("test".to_string(), Value::Text("123".to_string())),
            ("s".to_string(), Value::Text(s.to_string())),
        ],
        0,
    );
}
