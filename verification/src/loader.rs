use vstd::prelude::*;

use crate::errors::LoadError;
use crate::fmt::{calc_report_line, calc_report_rep, load_report_line, load_report_rep};
use crate::record::{ColumnModel, RawRow, Record, RecordModel};
use crate::record::{decode_row, decoded_row, row_matches_schema};
use crate::timing::{instant_now, millis_since};

verus! {

/// What the fetch phase handed the loader: one of the two fetch-side
/// failures, or the rows the read statement returned.
pub enum FetchOutcome {
    /// The data store could not be reached or refused the credentials.
    ConnectionFailed,
    /// The data store rejected the read statement.
    QueryFailed,
    /// The rows the read statement returned, in order.
    Rows(Vec<RawRow>),
}

/// What a successful benchmark run reports: the record count, the elapsed
/// whole milliseconds of both phases, the load-phase throughput, the
/// aggregate, and the two rendered report lines.
#[derive(Debug)]
pub struct LoadSummary {
    pub count: usize,
    pub load_millis: u128,
    pub calc_millis: u128,
    pub throughput: Option<u128>,
    pub aggregate: i128,
    pub load_report: String,
    pub calc_report: String,
}

/// The mathematical model of a sequence of fetched rows.
pub open spec fn rows_model(rows: Seq<RawRow>) -> Seq<Seq<ColumnModel>> {
    rows.map_values(|r: RawRow| r@)
}

/// The mathematical model of a sequence of decoded records.
pub open spec fn records_model(recs: Seq<Record>) -> Seq<RecordModel> {
    recs.map_values(|r: Record| r@)
}

/// Whether every fetched row matches the expected schema.
pub open spec fn all_rows_match(rows: Seq<Seq<ColumnModel>>) -> bool {
    forall|i: int| 0 <= i < rows.len() ==> row_matches_schema(#[trigger] rows[i])
}

/// The records that a sequence of schema-conforming rows decodes to.
pub open spec fn decoded_rows(rows: Seq<Seq<ColumnModel>>) -> Seq<RecordModel> {
    rows.map_values(|r: Seq<ColumnModel>| decoded_row(r))
}

/// The arithmetic sum of the integer identifier field over a record
/// sequence; zero for the empty sequence.
pub open spec fn sum_ids(s: Seq<RecordModel>) -> int
    decreases s.len(),
{
    if s.len() == 0 {
        0
    } else {
        sum_ids(s.drop_last()) + s.last().id
    }
}

/// The sum of the identifiers over the empty record sequence is zero.
pub proof fn lemma_sum_ids_empty()
    ensures
        sum_ids(Seq::<RecordModel>::empty()) == 0,
{
}

/// Extending a prefix by one record adds that record's identifier to the sum.
proof fn lemma_sum_ids_take(s: Seq<RecordModel>, i: int)
    requires
        0 <= i < s.len(),
    ensures
        sum_ids(s.take(i + 1)) == sum_ids(s.take(i)) + s[i].id,
{
    assert(s.take(i + 1).drop_last() =~= s.take(i));
    assert(s.take(i + 1).last() == s[i]);
}

/// Materializes the fetched rows into records, in order.
///
/// Succeeds exactly when every row matches the expected schema, and then
/// returns one record per row, in the order the rows were returned; a
/// single non-conforming row discards the whole load as a decode failure.
pub fn load_records(rows: &Vec<RawRow>) -> (r: Result<Vec<Record>, LoadError>)
    ensures
        match r {
            Ok(recs) => all_rows_match(rows_model(rows@)) && recs@.len() == rows@.len()
                && records_model(recs@) == decoded_rows(rows_model(rows@)),
            Err(e) => e == LoadError::DecodeError && !all_rows_match(rows_model(rows@)),
        },
{
    let ghost rm = rows_model(rows@);
    let mut recs: Vec<Record> = Vec::new();
    for i in 0..rows.len()
        invariant
            rm == rows_model(rows@),
            rm.len() == rows@.len(),
            recs@.len() == i,
            forall|j: int|
                0 <= j < i ==> row_matches_schema(#[trigger] rm[j]) && records_model(recs@)[j]
                    == decoded_row(rm[j]),
    {
        match decode_row(&rows[i]) {
            Ok(rec) => {
                recs.push(rec);
            },
            Err(e) => {
                proof {
                    assert(!row_matches_schema(rm[i as int]));
                }
                return Err(e);
            },
        }
    }
    proof {
        assert(records_model(recs@) =~= decoded_rows(rm));
    }
    Ok(recs)
}

/// Sums the integer identifier field over the loaded records.
///
/// The accumulator is wide enough that no partial sum of at most
/// `usize::MAX` eight-byte identifiers can overflow it.
pub fn aggregate_ids(records: &Vec<Record>) -> (total: i128)
    ensures
        total == sum_ids(records_model(records@)),
{
    let ghost m = records_model(records@);
    let mut total: i128 = 0;
    for i in 0..records.len()
        invariant
            m == records_model(records@),
            m.len() == records@.len(),
            total == sum_ids(m.take(i as int)),
            total <= (i as int) * 0x7fff_ffff_ffff_ffff,
            total >= (i as int) * (-0x8000_0000_0000_0000),
    {
        proof {
            lemma_sum_ids_take(m, i as int);
        }
        total = total + records[i].id as i128;
    }
    proof {
        assert(m.take(m.len() as int) =~= m);
    }
    total
}

/// Records-per-second throughput of a phase that handled `count` records in
/// `elapsed_millis` milliseconds.
///
/// The division is guarded: an elapsed time of exactly zero yields no
/// throughput figure rather than a division failure.
pub fn throughput_per_second(count: usize, elapsed_millis: u128) -> (r: Option<u128>)
    ensures
        elapsed_millis == 0 <==> r is None,
        elapsed_millis != 0 ==> (r matches Some(t) && t == (count as int) * 1000 / (
        elapsed_millis as int)),
{
    if elapsed_millis == 0 {
        None
    } else {
        Some((count as u128) * 1000 / elapsed_millis)
    }
}

/// Runs the timed bulk load over what the fetch phase handed in.
///
/// A fetch-side failure surfaces as the matching typed error and nothing is
/// loaded or reported. Otherwise the loader times the materialization of
/// the rows into records, then times the aggregation of the integer
/// identifier field, and returns the counts, timings, throughput, aggregate
/// and the two report lines; a row that does not match the expected schema
/// discards the whole load as a decode failure. Elapsed times are whole
/// milliseconds read from the monotonic clock, so they are never negative.
pub fn run_loader(fetch: FetchOutcome) -> (r: Result<LoadSummary, LoadError>)
    ensures
        match fetch {
            FetchOutcome::ConnectionFailed => r == Err::<LoadSummary, LoadError>(
                LoadError::ConnectionError,
            ),
            FetchOutcome::QueryFailed => r == Err::<LoadSummary, LoadError>(LoadError::QueryError),
            FetchOutcome::Rows(rows) => match r {
                Ok(s) => {
                    &&& all_rows_match(rows_model(rows@))
                    &&& s.count == rows@.len()
                    &&& s.aggregate == sum_ids(decoded_rows(rows_model(rows@)))
                    &&& s.load_millis >= 0 && s.calc_millis >= 0
                    &&& s.load_millis == 0 <==> s.throughput is None
                    &&& s.load_millis != 0 ==> (s.throughput matches Some(t) && t == (
                    s.count as int) * 1000 / (s.load_millis as int))
                    &&& s.load_report@ == load_report_rep(
                        s.count as nat,
                        s.load_millis as nat,
                        s.throughput,
                    )
                    &&& s.calc_report@ == calc_report_rep(s.calc_millis as nat, s.aggregate as int)
                },
                Err(e) => e == LoadError::DecodeError && !all_rows_match(rows_model(rows@)),
            },
        },
{
    match fetch {
        FetchOutcome::ConnectionFailed => Err(LoadError::ConnectionError),
        FetchOutcome::QueryFailed => Err(LoadError::QueryError),
        FetchOutcome::Rows(rows) => {
            let start = instant_now();
            let records = match load_records(&rows) {
                Ok(recs) => recs,
                Err(e) => {
                    return Err(e);
                },
            };
            let load_millis = millis_since(&start);
            let count = records.len();
            let throughput = throughput_per_second(count, load_millis);
            let load_report = load_report_line(count, load_millis, throughput);
            let start = instant_now();
            let aggregate = aggregate_ids(&records);
            let calc_millis = millis_since(&start);
            let calc_report = calc_report_line(calc_millis, aggregate);
            Ok(
                LoadSummary {
                    count,
                    load_millis,
                    calc_millis,
                    throughput,
                    aggregate,
                    load_report,
                    calc_report,
                },
            )
        },
    }
}

} // verus!
