use chuchi_postgres::filter::{render_set, render_where, Expr, Op, Value};

fn cmp(col: &str, op: Op, v: Value) -> Expr {
    Expr::Cmp(col.to_string(), op, v)
}

fn text(s: &str) -> Value {
    Value::Text(s.to_string())
}

#[test]
fn where_without_expression_is_empty() {
    let (sql, params) = render_where(None);
    assert_eq!(sql, "");
    assert!(params.is_empty());
    let base = String::from("SELECT \"id\" FROM \"t\"");
    assert_eq!(format!("{}{}", base, sql), base);
}

#[test]
fn where_single_comparison() {
    let (sql, params) = render_where(Some(cmp("id", Op::Eq, Value::Int(5))));
    assert_eq!(sql, " WHERE \"id\" = $1");
    assert_eq!(params, vec![Value::Int(5)]);
}

#[test]
fn where_operators() {
    let cases = [
        (Op::Ne, "!="),
        (Op::Lt, "<"),
        (Op::Le, "<="),
        (Op::Gt, ">"),
        (Op::Ge, ">="),
        (Op::Like, "LIKE"),
    ];
    for (op, t) in cases {
        let (sql, _) = render_where(Some(cmp("a", op, Value::Int(1))));
        assert_eq!(sql, format!(" WHERE \"a\" {} $1", t));
    }
}

#[test]
fn where_nested_numbering_follows_params() {
    let e = Expr::Or(
        Box::new(Expr::And(
            Box::new(cmp("a", Op::Eq, Value::Int(1))),
            Box::new(cmp("b", Op::Gt, Value::Int(2))),
        )),
        Box::new(Expr::In(
            "c".to_string(),
            vec![text("x"), text("y")],
        )),
    );
    let (sql, params) = render_where(Some(e));
    assert_eq!(
        sql,
        " WHERE ((\"a\" = $1 AND \"b\" > $2) OR \"c\" IN ($3, $4))"
    );
    assert_eq!(params, vec![Value::Int(1), Value::Int(2), text("x"), text("y")]);
}

#[test]
fn where_empty_in_list_is_false() {
    let e = Expr::And(
        Box::new(Expr::In("c".to_string(), vec![])),
        Box::new(cmp("d", Op::Eq, Value::Bool(true))),
    );
    let (sql, params) = render_where(Some(e));
    assert_eq!(sql, " WHERE (FALSE AND \"d\" = $1)");
    assert_eq!(params, vec![Value::Bool(true)]);
}

#[test]
fn where_null_comparisons() {
    let (sql, params) = render_where(Some(cmp("n", Op::Eq, Value::Null)));
    assert_eq!(sql, " WHERE \"n\" IS NULL");
    assert!(params.is_empty());
    let (sql, _) = render_where(Some(cmp("n", Op::Ne, Value::Null)));
    assert_eq!(sql, " WHERE \"n\" IS NOT NULL");
    let (sql, _) = render_where(Some(cmp("n", Op::Lt, Value::Null)));
    assert_eq!(sql, " WHERE FALSE");
    let (sql, _) = render_where(Some(Expr::IsNull("n".to_string(), true)));
    assert_eq!(sql, " WHERE \"n\" IS NOT NULL");
    let (sql, _) = render_where(Some(Expr::IsNull("n".to_string(), false)));
    assert_eq!(sql, " WHERE \"n\" IS NULL");
}

#[test]
fn where_null_does_not_take_a_number() {
    let e = Expr::And(
        Box::new(cmp("n", Op::Eq, Value::Null)),
        Box::new(cmp("m", Op::Eq, Value::Bytes(vec![1, 2]))),
    );
    let (sql, params) = render_where(Some(e));
    assert_eq!(sql, " WHERE (\"n\" IS NULL AND \"m\" = $1)");
    assert_eq!(params, vec![Value::Bytes(vec![1, 2])]);
}

#[test]
fn where_two_digit_placeholders() {
    let values: Vec<Value> = (0..11).map(Value::Int).collect();
    let (sql, params) = render_where(Some(Expr::In("v".to_string(), values.clone())));
    assert_eq!(
        sql,
        " WHERE \"v\" IN ($1, $2, $3, $4, $5, $6, $7, $8, $9, $10, $11)"
    );
    assert_eq!(params, values);
}

#[test]
fn set_numbers_from_offset() {
    let (sql, params) = render_set(
        vec![
            ("a".to_string(), Value::Int(1)),
            ("b".to_string(), Value::Timestamp(2)),
        ],
        2,
    );
    assert_eq!(sql, "\"a\" = $3, \"b\" = $4");
    assert_eq!(params, vec![Value::Int(1), Value::Timestamp(2)]);
}

#[test]
fn set_of_no_fields_is_empty() {
    let (sql, params) = render_set(vec![], 0);
    assert_eq!(sql, "");
    assert!(params.is_empty());
}
