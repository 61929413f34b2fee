use rental_sql_gateway::coerce::{
    coerce, is_finite_bits, render_typed, CalendarDate, CoercedValue, DateTimeValue,
    DecimalValue, TypedValue,
};
use rental_sql_gateway::gateway::{
    assemble, discover, finish, prepare, rejected, CellProbe, ColumnDescriptor,
    ExecutionOutcome, RawRow, SqlRequest,
};
use rental_sql_gateway::tags::{column_kind, ColumnKind};
use rental_sql_gateway::text::text_eq;

fn column(name: &str, tag: &str) -> ColumnDescriptor {
    ColumnDescriptor { name: name.to_string(), type_tag: tag.to_string() }
}

fn typed(v: TypedValue) -> CellProbe {
    CellProbe { typed: Some(Some(v)), text: None }
}

fn null_cell() -> CellProbe {
    CellProbe { typed: Some(None), text: None }
}

fn text_cell(s: &str) -> CellProbe {
    CellProbe { typed: None, text: Some(Some(s.to_string())) }
}

fn text(s: &str) -> CoercedValue {
    CoercedValue::Text(s.to_string())
}

fn date(year: i32, month: u32, day: u32) -> CalendarDate {
    CalendarDate { year, month, day }
}

fn at(d: CalendarDate, hour: u32, minute: u32, second: u32, nanosecond: u32) -> DateTimeValue {
    DateTimeValue { date: d, hour, minute, second, nanosecond }
}

#[test]
fn text_eq_compares_characters() {
    assert!(text_eq("INT4", "INT4"));
    assert!(!text_eq("INT4", "INT8"));
    assert!(!text_eq("INT", "INT4"));
    assert!(text_eq("", ""));
}

#[test]
fn column_kind_dispatch_table() {
    assert_eq!(column_kind("BOOL"), ColumnKind::Bool);
    assert_eq!(column_kind("INT2"), ColumnKind::SmallInt);
    assert_eq!(column_kind("INT4"), ColumnKind::Int);
    assert_eq!(column_kind("INT8"), ColumnKind::BigInt);
    assert_eq!(column_kind("FLOAT4"), ColumnKind::Real);
    assert_eq!(column_kind("FLOAT8"), ColumnKind::Double);
    assert_eq!(column_kind("NUMERIC"), ColumnKind::Numeric);
    assert_eq!(column_kind("MONEY"), ColumnKind::Numeric);
    assert_eq!(column_kind("DATE"), ColumnKind::Date);
    assert_eq!(column_kind("TIMESTAMP"), ColumnKind::Timestamp);
    assert_eq!(column_kind("TIMESTAMPTZ"), ColumnKind::TimestampTz);
}

#[test]
fn column_kind_unknown_tags_fall_back() {
    assert_eq!(column_kind("UUID"), ColumnKind::Other);
    assert_eq!(column_kind("JSONB"), ColumnKind::Other);
    assert_eq!(column_kind("bool"), ColumnKind::Other);
    assert_eq!(column_kind(""), ColumnKind::Other);
}

#[test]
fn prepare_trims_statement() {
    let req = SqlRequest { query: "  SELECT 1 \n".to_string() };
    match prepare(&req) {
        Ok(q) => assert_eq!(q, "SELECT 1"),
        Err(_) => panic!("statement refused"),
    }
}

#[test]
fn prepare_refuses_empty_statement() {
    let req = SqlRequest { query: String::new() };
    match prepare(&req) {
        Ok(_) => panic!("empty statement accepted"),
        Err(e) => assert_eq!(e.error, "Empty query"),
    }
}

#[test]
fn prepare_refuses_whitespace_statement() {
    let req = SqlRequest { query: " \t\n  ".to_string() };
    match prepare(&req) {
        Ok(_) => panic!("blank statement accepted"),
        Err(e) => {
            let outcome = rejected(e);
            assert_eq!(outcome.status(), 400);
            match outcome {
                ExecutionOutcome::Failure(f) => assert_eq!(f.error, "Empty query"),
                ExecutionOutcome::Success(_) => panic!("not a failure"),
            }
        }
    }
}

#[test]
fn decimal_renders_as_string() {
    let v = render_typed(TypedValue::Decimal(DecimalValue { mantissa: 1999, scale: 2 }));
    assert_eq!(v, text("19.99"));
}

#[test]
fn decimal_negative_and_small() {
    let v = render_typed(TypedValue::Decimal(DecimalValue { mantissa: -5, scale: 3 }));
    assert_eq!(v, text("-0.005"));
    let w = render_typed(TypedValue::Decimal(DecimalValue { mantissa: 42, scale: 0 }));
    assert_eq!(w, text("42"));
}

#[test]
fn decimal_out_of_range_is_null() {
    let v = render_typed(TypedValue::Decimal(DecimalValue { mantissa: 1, scale: 29 }));
    assert_eq!(v, CoercedValue::Null);
    let w = render_typed(TypedValue::Decimal(DecimalValue { mantissa: i128::MAX, scale: 0 }));
    assert_eq!(w, CoercedValue::Null);
}

#[test]
fn date_renders_iso() {
    let v = render_typed(TypedValue::Date(date(2024, 3, 15)));
    assert_eq!(v, text("2024-03-15"));
}

#[test]
fn date_that_does_not_exist_is_null() {
    assert_eq!(render_typed(TypedValue::Date(date(2023, 2, 29))), CoercedValue::Null);
    assert_eq!(render_typed(TypedValue::Date(date(2024, 13, 1))), CoercedValue::Null);
    assert_eq!(render_typed(TypedValue::Date(date(2024, 2, 29))), text("2024-02-29"));
}

#[test]
fn timestamp_renders_text() {
    let v = render_typed(TypedValue::Timestamp(at(date(2024, 3, 15), 10, 30, 0, 0)));
    assert_eq!(v, text("2024-03-15 10:30:00"));
    let w = render_typed(TypedValue::Timestamp(at(date(2024, 3, 15), 10, 30, 5, 250_000_000)));
    assert_eq!(w, text("2024-03-15 10:30:05.250"));
}

#[test]
fn utc_timestamp_renders_text() {
    let v = render_typed(TypedValue::TimestampUtc(at(date(2024, 3, 15), 23, 59, 59, 0)));
    assert_eq!(v, text("2024-03-15 23:59:59 UTC"));
}

#[test]
fn invalid_time_is_null() {
    let v = render_typed(TypedValue::Timestamp(at(date(2024, 3, 15), 24, 0, 0, 0)));
    assert_eq!(v, CoercedValue::Null);
}

#[test]
fn scalars_pass_through() {
    assert_eq!(render_typed(TypedValue::Bool(true)), CoercedValue::Bool(true));
    assert_eq!(render_typed(TypedValue::Integer(-7)), CoercedValue::Integer(-7));
    let bits = 1.5f64.to_bits();
    assert_eq!(render_typed(TypedValue::Float(bits)), CoercedValue::Float(bits));
}

#[test]
fn non_finite_float_is_null() {
    assert!(!is_finite_bits(f64::NAN.to_bits()));
    assert!(!is_finite_bits(f64::INFINITY.to_bits()));
    assert!(is_finite_bits(0.0f64.to_bits()));
    assert!(is_finite_bits(f64::MAX.to_bits()));
    assert_eq!(render_typed(TypedValue::Float(f64::NAN.to_bits())), CoercedValue::Null);
    assert_eq!(render_typed(TypedValue::Float(f64::NEG_INFINITY.to_bits())), CoercedValue::Null);
}

#[test]
fn coerce_sql_null_is_null() {
    let none: Option<Option<String>> = None;
    assert_eq!(coerce(&Some(None), &none), CoercedValue::Null);
    assert_eq!(coerce(&Some(None), &Some(Some("x".to_string()))), CoercedValue::Null);
}

#[test]
fn coerce_typed_success_wins() {
    let v = coerce(&Some(Some(TypedValue::Integer(3))), &Some(Some("three".to_string())));
    assert_eq!(v, CoercedValue::Integer(3));
}

#[test]
fn coerce_unknown_type_uses_text() {
    let v = coerce(&None, &Some(Some("a0eebc99-9c0b-4ef8-bb6d-6bb9bd380a11".to_string())));
    assert_eq!(v, text("a0eebc99-9c0b-4ef8-bb6d-6bb9bd380a11"));
    assert_eq!(coerce(&None, &Some(None)), CoercedValue::Null);
    assert_eq!(coerce(&None, &None), CoercedValue::Null);
}

#[test]
fn empty_result_has_no_columns() {
    let rows: Vec<RawRow> = Vec::new();
    let r = assemble(&rows, 1500);
    assert!(r.columns.is_empty());
    assert!(r.rows.is_empty());
    assert_eq!(r.row_count, 0);
    assert_eq!(r.duration_ns, 1500);
}

fn sample_rows() -> Vec<RawRow> {
    let cols = || vec![column("id", "INT4"), column("amount", "NUMERIC"), column("tag", "UUID")];
    vec![
        RawRow {
            columns: cols(),
            cells: vec![
                typed(TypedValue::Integer(1)),
                typed(TypedValue::Decimal(DecimalValue { mantissa: 1999, scale: 2 })),
                text_cell("abc"),
            ],
        },
        RawRow {
            columns: cols(),
            cells: vec![typed(TypedValue::Integer(2)), null_cell(), CellProbe { typed: None, text: None }],
        },
    ]
}

#[test]
fn result_shape_matches_schema() {
    let rows = sample_rows();
    let r = assemble(&rows, 10);
    assert_eq!(r.columns, vec!["id".to_string(), "amount".to_string(), "tag".to_string()]);
    assert_eq!(r.row_count, 2);
    assert_eq!(r.rows.len(), 2);
    for row in &r.rows {
        assert_eq!(row.len(), r.columns.len());
    }
    assert_eq!(r.rows[0], vec![CoercedValue::Integer(1), text("19.99"), text("abc")]);
    assert_eq!(r.rows[1], vec![CoercedValue::Integer(2), CoercedValue::Null, CoercedValue::Null]);
}

#[test]
fn short_row_is_padded_with_null() {
    let rows = vec![
        RawRow {
            columns: vec![column("a", "BOOL"), column("b", "BOOL")],
            cells: vec![typed(TypedValue::Bool(false)), typed(TypedValue::Bool(true))],
        },
        RawRow { columns: vec![column("a", "BOOL")], cells: vec![typed(TypedValue::Bool(true))] },
    ];
    let r = assemble(&rows, 0);
    assert_eq!(r.rows[1], vec![CoercedValue::Bool(true), CoercedValue::Null]);
}

#[test]
fn discover_takes_first_row() {
    let rows = sample_rows();
    assert_eq!(discover(&rows), vec!["id".to_string(), "amount".to_string(), "tag".to_string()]);
    assert!(discover(&Vec::new()).is_empty());
}

#[test]
fn same_rows_give_same_response() {
    let a = assemble(&sample_rows(), 5);
    let b = assemble(&sample_rows(), 9000);
    assert_eq!(a.columns, b.columns);
    assert_eq!(a.rows, b.rows);
}

#[test]
fn backend_error_passes_message() {
    let msg = "syntax error at or near \"SELEC\"".to_string();
    let outcome = finish(Err(msg.clone()), 3);
    assert_eq!(outcome.status(), 400);
    match outcome {
        ExecutionOutcome::Failure(e) => assert_eq!(e.error, msg),
        ExecutionOutcome::Success(_) => panic!("not a failure"),
    }
}

#[test]
fn success_outcome_is_ok_status() {
    let outcome = finish(Ok(sample_rows()), 3);
    assert_eq!(outcome.status(), 200);
    match outcome {
        ExecutionOutcome::Success(r) => assert_eq!(r.row_count, 2),
        ExecutionOutcome::Failure(_) => panic!("not a success"),
    }
}
