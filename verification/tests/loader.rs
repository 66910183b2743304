use rst_tax_calculator::fmt::{calc_report_line, i128_to_decimal, load_report_line, millis_to_seconds, u128_to_decimal};
use rst_tax_calculator::loader::{
    aggregate_ids, load_records, run_loader, throughput_per_second, FetchOutcome,
};
use rst_tax_calculator::record::{decode_row, RawColumn, RawRow, RawValue, Record};
use rst_tax_calculator::LoadError;

fn col(name: &str, value: RawValue) -> RawColumn {
    RawColumn { name: name.to_owned(), value }
}

fn book_row(id: i64, identifier: &str, name: &str, author: &str, year: i32) -> RawRow {
    RawRow {
        columns: vec![
            col("id", RawValue::Int8(id)),
            col("identifier", RawValue::Text(identifier.to_owned())),
            col("name", RawValue::Text(name.to_owned())),
            col("author", RawValue::Text(author.to_owned())),
            col("release_year", RawValue::Int4(year)),
        ],
    }
}

#[test]
fn zero_rows_success() {
    let summary = run_loader(FetchOutcome::Rows(Vec::new())).unwrap();
    assert_eq!(summary.count, 0);
    assert_eq!(summary.aggregate, 0);
}

#[test]
fn three_rows_aggregate() {
    let rows = vec![
        book_row(1, "i1", "n1", "a1", 1990),
        book_row(5, "i5", "n5", "a5", 1991),
        book_row(9, "i9", "n9", "a9", 1992),
    ];
    let summary = run_loader(FetchOutcome::Rows(rows)).unwrap();
    assert_eq!(summary.count, 3);
    assert_eq!(summary.aggregate, 15);
}

#[test]
fn connection_failure_typed() {
    let r = run_loader(FetchOutcome::ConnectionFailed);
    assert_eq!(r.unwrap_err(), LoadError::ConnectionError);
}

#[test]
fn query_failure_typed() {
    let r = run_loader(FetchOutcome::QueryFailed);
    assert_eq!(r.unwrap_err(), LoadError::QueryError);
}

#[test]
fn non_numeric_year_decode_error() {
    let mut bad = book_row(7, "i7", "n7", "a7", 2000);
    bad.columns[4].value = RawValue::Text("two thousand".to_owned());
    let rows = vec![book_row(1, "i1", "n1", "a1", 1990), bad];
    let r = run_loader(FetchOutcome::Rows(rows));
    assert_eq!(r.unwrap_err(), LoadError::DecodeError);
}

#[test]
fn decode_row_reads_fields() {
    let row = book_row(42, "978-0", "Things Fall Apart", "Chinua Achebe", 1958);
    let rec: Record = decode_row(&row).unwrap();
    assert_eq!(rec.id, 42);
    assert_eq!(rec.identifier, "978-0");
    assert_eq!(rec.name, "Things Fall Apart");
    assert_eq!(rec.author, "Chinua Achebe");
    assert_eq!(rec.release_year, 1958);
}

#[test]
fn decode_row_rejects_swapped_columns() {
    let mut row = book_row(1, "i", "n", "a", 2001);
    row.columns.swap(2, 3);
    assert_eq!(decode_row(&row).unwrap_err(), LoadError::DecodeError);
}

#[test]
fn decode_row_rejects_missing_column() {
    let mut row = book_row(1, "i", "n", "a", 2001);
    row.columns.pop();
    assert_eq!(decode_row(&row).unwrap_err(), LoadError::DecodeError);
}

#[test]
fn decode_row_rejects_misnamed_column() {
    let mut row = book_row(1, "i", "n", "a", 2001);
    row.columns[0].name = "identity".to_owned();
    assert_eq!(decode_row(&row).unwrap_err(), LoadError::DecodeError);
}

#[test]
fn decode_row_rejects_unexpected_type() {
    let mut row = book_row(1, "i", "n", "a", 2001);
    row.columns[0].value = RawValue::Other;
    assert_eq!(decode_row(&row).unwrap_err(), LoadError::DecodeError);
}

#[test]
fn load_keeps_order_and_count() {
    let rows = vec![
        book_row(3, "x", "y", "z", 1),
        book_row(1, "x", "y", "z", 2),
        book_row(2, "x", "y", "z", 3),
    ];
    let recs = load_records(&rows).unwrap();
    assert_eq!(recs.len(), 3);
    assert_eq!(recs[0].id, 3);
    assert_eq!(recs[1].id, 1);
    assert_eq!(recs[2].id, 2);
}

#[test]
fn load_discards_all_on_one_bad_row() {
    let mut bad = book_row(2, "x", "y", "z", 2);
    bad.columns[0].value = RawValue::Int4(2);
    let rows = vec![book_row(1, "x", "y", "z", 1), bad, book_row(3, "x", "y", "z", 3)];
    assert_eq!(load_records(&rows).unwrap_err(), LoadError::DecodeError);
}

#[test]
fn aggregate_empty_is_zero() {
    let recs: Vec<Record> = Vec::new();
    assert_eq!(aggregate_ids(&recs), 0);
}

#[test]
fn aggregate_negative_ids() {
    let rows = vec![book_row(-4, "x", "y", "z", 1), book_row(1, "x", "y", "z", 2)];
    let recs = load_records(&rows).unwrap();
    assert_eq!(aggregate_ids(&recs), -3);
}

#[test]
fn aggregate_large_ids_no_overflow() {
    let rows = vec![
        book_row(i64::MAX, "x", "y", "z", 1),
        book_row(i64::MAX, "x", "y", "z", 2),
    ];
    let recs = load_records(&rows).unwrap();
    assert_eq!(aggregate_ids(&recs), 2 * (i64::MAX as i128));
}

#[test]
fn throughput_zero_elapsed_is_none() {
    assert_eq!(throughput_per_second(5, 0), None);
}

#[test]
fn throughput_zero_count_is_zero() {
    assert_eq!(throughput_per_second(0, 7), Some(0));
}

#[test]
fn throughput_exact_values() {
    assert_eq!(throughput_per_second(1000, 500), Some(2000));
    assert_eq!(throughput_per_second(3, 2000), Some(1));
}

#[test]
fn load_report_line_renders() {
    let line = load_report_line(3, 1500, Some(2));
    assert_eq!(line, "Data load of 3 records took 1.500s (2 records per second.)");
}

#[test]
fn load_report_line_without_throughput() {
    let line = load_report_line(0, 0, None);
    assert_eq!(line, "Data load of 0 records took 0.000s (n/a records per second.)");
}

#[test]
fn calc_report_line_renders() {
    let line = calc_report_line(3, 15);
    assert_eq!(line, "Calculation took 0.003s. Result=15");
}

#[test]
fn calc_report_line_negative_aggregate() {
    let line = calc_report_line(1000, -42);
    assert_eq!(line, "Calculation took 1.000s. Result=-42");
}

#[test]
fn seconds_rendering_pads_fraction() {
    assert_eq!(millis_to_seconds(0), "0.000");
    assert_eq!(millis_to_seconds(999), "0.999");
    assert_eq!(millis_to_seconds(1000), "1.000");
    assert_eq!(millis_to_seconds(61001), "61.001");
    assert_eq!(millis_to_seconds(12070), "12.070");
}

#[test]
fn decimal_rendering() {
    assert_eq!(u128_to_decimal(0), "0");
    assert_eq!(u128_to_decimal(10), "10");
    assert_eq!(u128_to_decimal(90123), "90123");
    assert_eq!(i128_to_decimal(-1), "-1");
    assert_eq!(
        i128_to_decimal(i128::MIN),
        "-170141183460469231731687303715884105728"
    );
}

#[test]
fn loader_summary_reports_match_fields() {
    let rows = vec![book_row(1, "i", "n", "a", 1), book_row(5, "i", "n", "a", 2)];
    let summary = run_loader(FetchOutcome::Rows(rows)).unwrap();
    let expected_load = load_report_line(summary.count, summary.load_millis, summary.throughput);
    let expected_calc = calc_report_line(summary.calc_millis, summary.aggregate);
    assert_eq!(summary.load_report, expected_load);
    assert_eq!(summary.calc_report, expected_calc);
}
