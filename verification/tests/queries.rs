use kubedesk_core::database::{default_limit, DbColumn};
use kubedesk_core::errors::DatabaseError;
use kubedesk_core::queries::{
    build_query_result, classify_type, fallback_cell, quote_identifier, row_count_query,
    table_data_query, CellValue, PgValueKind,
};

#[test]
fn test_quote_identifier() {
    assert_eq!(quote_identifier("table"), "\"table\"");
    assert_eq!(quote_identifier("my_table"), "\"my_table\"");
    assert_eq!(
        quote_identifier("table\"with\"quotes"),
        "\"table\"\"with\"\"quotes\""
    );
}

#[test]
fn test_table_data_query() {
    assert_eq!(
        table_data_query("public", "users"),
        "SELECT * FROM \"public\".\"users\" LIMIT $1 OFFSET $2"
    );
    assert_eq!(
        table_data_query("odd\"schema", "t"),
        "SELECT * FROM \"odd\"\"schema\".\"t\" LIMIT $1 OFFSET $2"
    );
}

#[test]
fn test_row_count_query() {
    assert_eq!(
        row_count_query("public", "users"),
        "SELECT COUNT(*)::bigint FROM \"public\".\"users\" LIMIT 1000000"
    );
}

#[test]
fn test_classify_type() {
    assert_eq!(classify_type("bool"), PgValueKind::Bool);
    assert_eq!(classify_type("int2"), PgValueKind::Integer);
    assert_eq!(classify_type("int4"), PgValueKind::Integer);
    assert_eq!(classify_type("int8"), PgValueKind::BigInt);
    assert_eq!(classify_type("float8"), PgValueKind::Float);
    assert_eq!(classify_type("varchar"), PgValueKind::Text);
    assert_eq!(classify_type("jsonb"), PgValueKind::Json);
    assert_eq!(classify_type("timestamptz"), PgValueKind::Timestamp);
    assert_eq!(classify_type("date"), PgValueKind::Date);
    assert_eq!(classify_type("uuid"), PgValueKind::Uuid);
    assert_eq!(classify_type("numeric"), PgValueKind::Numeric);
    assert_eq!(classify_type("_bool"), PgValueKind::BoolArray);
    assert_eq!(classify_type("_int4"), PgValueKind::IntArray);
    assert_eq!(classify_type("_int8"), PgValueKind::BigIntArray);
    assert_eq!(classify_type("_float4"), PgValueKind::FloatArray);
    assert_eq!(classify_type("_text"), PgValueKind::TextArray);
    assert_eq!(classify_type("_point"), PgValueKind::OtherArray);
    assert_eq!(classify_type("geometry"), PgValueKind::Other);
    assert_eq!(classify_type(""), PgValueKind::Other);
}

#[test]
fn test_fallback_cell() {
    let c = fallback_cell("geometry");
    assert_eq!(c, CellValue::Text("<geometry>".to_string()));
}

#[test]
fn test_default_limit() {
    assert_eq!(default_limit(), 100);
}

fn column(name: &str) -> DbColumn {
    DbColumn {
        name: name.to_string(),
        data_type: "text".to_string(),
        is_nullable: true,
        column_default: None,
        character_maximum_length: None,
        is_primary_key: false,
    }
}

#[test]
fn test_build_query_result() {
    let columns = vec![column("a"), column("b")];
    let rows = vec![
        vec![CellValue::Int(1), CellValue::Null],
        vec![CellValue::Text("x".to_string()), CellValue::Bool(true)],
    ];
    let qr = build_query_result(columns, rows, 7).expect("well-shaped rows");
    assert_eq!(qr.row_count, 2);
    assert_eq!(qr.execution_time_ms, 7);
    assert_eq!(qr.columns.len(), 2);
    assert_eq!(qr.rows[0][1], CellValue::Null);
}

#[test]
fn test_build_query_result_rejects_ragged_rows() {
    let columns = vec![column("a"), column("b")];
    let rows = vec![vec![CellValue::Int(1)]];
    let r = build_query_result(columns, rows, 0);
    assert!(matches!(r, Err(DatabaseError::QueryError(_))));
}
