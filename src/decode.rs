//! Rows of the statistics queries, turned into records by column position.
//!
//! The caller reads each column of a row as a plain value (`None` where the
//! column is missing, of another type, or NULL) and hands them over in the
//! order of the statement's select list. A row with any column missing fails
//! the whole result set.

use crate::collect::Event;
use crate::decimal::DecimalValue;
use crate::records::{CommonEffectiveness, HitMiss, IndexUsage};
use vstd::prelude::*;

verus! {

pub open spec fn all_some<T>(v: Seq<Option<T>>) -> bool {
    forall|i: int| 0 <= i < v.len() ==> (#[trigger] v[i]) is Some
}

/// The values inside a list of options that are all present.
pub open spec fn unwrapped<T>(v: Seq<Option<T>>) -> Seq<T> {
    v.map_values(|o: Option<T>| o->0)
}

/// The scan query's row: the table name, then the eight counters in select
/// order: seq_scan, seq_tup_read, idx_scan, vacuum_count, autovacuum_count,
/// analyze_count, autoanalyze_count, avg.
pub fn common_effectiveness_from_columns(relname: Option<String>, counts: Vec<Option<i64>>) -> (r:
    Option<CommonEffectiveness>)
    requires
        counts@.len() == 8,
    ensures
        r is Some <==> (relname is Some && all_some(counts@)),
        r matches Some(c) ==> c.relname@ == relname->0@ && c.seq_scan == counts@[0]->0
            && c.seq_tup_read == counts@[1]->0 && c.idx_scan == counts@[2]->0
            && c.vacuum_full_count == counts@[3]->0 && c.autovacuum_count == counts@[4]->0
            && c.analyze_count == counts@[5]->0 && c.autoanalyze_count == counts@[6]->0 && c.avg
            == counts@[7]->0,
{
    let mut i: usize = 0;
    while i < 8
        invariant
            counts@.len() == 8,
            i <= 8,
            forall|j: int| 0 <= j < i ==> (#[trigger] counts@[j]) is Some,
        decreases 8 - i,
    {
        if counts[i].is_none() {
            return None;
        }
        i = i + 1;
    }
    let name = match relname {
        Some(n) => n,
        None => return None,
    };
    Some(
        CommonEffectiveness {
            relname: name,
            seq_scan: counts[0].unwrap(),
            seq_tup_read: counts[1].unwrap(),
            idx_scan: counts[2].unwrap(),
            vacuum_full_count: counts[3].unwrap(),
            autovacuum_count: counts[4].unwrap(),
            analyze_count: counts[5].unwrap(),
            autoanalyze_count: counts[6].unwrap(),
            avg: counts[7].unwrap(),
        },
    )
}

/// The decimal that a numeric column's mantissa and scale stand for.
pub open spec fn column_decimal(p: (i128, u32)) -> DecimalValue {
    DecimalValue { mantissa: p.0, scale: p.1 }
}

/// A numeric column read as mantissa and scale, if present and in range.
fn decimal_from_column(column: Option<(i128, u32)>) -> (r: Option<DecimalValue>)
    ensures
        r is Some <==> (column matches Some(p) && column_decimal(p).wf()),
        r matches Some(d) ==> d == column_decimal(column->0),
{
    match column {
        Some((m, s)) => DecimalValue::new(m, s),
        None => None,
    }
}

/// The cache query's row: heap_read, heap_hit, ratio, each as mantissa and
/// scale.
pub fn hit_miss_from_columns(
    heap_read: Option<(i128, u32)>,
    heap_hit: Option<(i128, u32)>,
    ratio: Option<(i128, u32)>,
) -> (r: Option<HitMiss>)
    ensures
        r is Some <==> (heap_read matches Some(p) && column_decimal(p).wf())
            && (heap_hit matches Some(p) && column_decimal(p).wf())
            && (ratio matches Some(p) && column_decimal(p).wf()),
        r matches Some(h) ==> h.wf() && h.heap_read == column_decimal(heap_read->0)
            && h.heap_hit == column_decimal(heap_hit->0) && h.ratio == column_decimal(ratio->0),
{
    let heap_read = decimal_from_column(heap_read)?;
    let heap_hit = decimal_from_column(heap_hit)?;
    let ratio = decimal_from_column(ratio)?;
    Some(HitMiss { heap_read, heap_hit, ratio })
}

/// The index query's row: the table name, percent_of_times_index_used,
/// rows_in_table.
pub fn index_usage_from_columns(
    relname: Option<String>,
    percent_of_times_index_used: Option<i64>,
    rows_in_table: Option<i64>,
) -> (r: Option<IndexUsage>)
    ensures
        r is Some <==> (relname is Some && percent_of_times_index_used is Some
            && rows_in_table is Some),
        r matches Some(u) ==> u.relname@ == relname->0@ && u.percent_of_times_index_used
            == percent_of_times_index_used->0 && u.rows_in_table == rows_in_table->0,
{
    let percent_of_times_index_used = percent_of_times_index_used?;
    let rows_in_table = rows_in_table?;
    let name = match relname {
        Some(n) => n,
        None => return None,
    };
    Some(IndexUsage { relname: name, percent_of_times_index_used, rows_in_table })
}

/// The values of a list of options, in order, if every one is present.
pub fn unwrap_all<T>(items: Vec<Option<T>>) -> (r: Option<Vec<T>>)
    ensures
        r is Some <==> all_some(items@),
        r matches Some(w) ==> w@ == unwrapped(items@),
{
    let ghost orig = items@;
    let n = items.len();
    let mut v = items;
    let mut rev: Vec<T> = Vec::new();
    while v.len() > 0
        invariant
            v@ == orig.subrange(0, v@.len() as int),
            orig == items@,
            n == orig.len(),
            rev@.len() == n - v@.len(),
            forall|j: int| 0 <= j < rev@.len() ==> orig[n - 1 - j] == Some(#[trigger] rev@[j]),
        decreases v@.len(),
    {
        let ghost k = v@.len() - 1;
        let o = v.pop().unwrap();
        assert(orig[k] == o);
        match o {
            Some(x) => rev.push(x),
            None => {
                assert(!all_some(orig));
                return None;
            },
        }
    }
    let mut out: Vec<T> = Vec::new();
    while rev.len() > 0
        invariant
            n == orig.len(),
            orig == items@,
            out@.len() + rev@.len() == n,
            forall|j: int| 0 <= j < rev@.len() ==> orig[n - 1 - j] == Some(#[trigger] rev@[j]),
            forall|j: int| 0 <= j < out@.len() ==> orig[j] == Some(#[trigger] out@[j]),
        decreases rev@.len(),
    {
        let x = rev.pop().unwrap();
        proof {
            assert(orig[n - 1 - rev@.len()] == Some(x));
        }
        out.push(x);
    }
    assert(all_some(orig)) by {
        assert forall|i: int| 0 <= i < orig.len() implies (#[trigger] orig[i]) is Some by {
            assert(orig[i] == Some(out@[i]));
        }
    }
    assert(out@ =~= unwrapped(orig));
    Some(out)
}

/// The scan query's result, one decoded row per entry, as the event that
/// reports it: its records in order, or a decode failure if any row failed.
pub fn common_effectiveness_rows(rows: Vec<Option<CommonEffectiveness>>) -> (r: Event)
    ensures
        all_some(rows@) ==> (r matches Event::CommonEffectivenessRows(v) && v@ == unwrapped(rows@)),
        !all_some(rows@) ==> r is DecodeFailed,
{
    match unwrap_all(rows) {
        Some(v) => Event::CommonEffectivenessRows(v),
        None => Event::DecodeFailed,
    }
}

/// The cache query's result as the event that reports it.
pub fn hit_miss_rows(rows: Vec<Option<HitMiss>>) -> (r: Event)
    ensures
        all_some(rows@) ==> (r matches Event::HitMissRows(v) && v@ == unwrapped(rows@)),
        !all_some(rows@) ==> r is DecodeFailed,
{
    match unwrap_all(rows) {
        Some(v) => Event::HitMissRows(v),
        None => Event::DecodeFailed,
    }
}

/// The index query's result as the event that reports it.
pub fn index_usage_rows(rows: Vec<Option<IndexUsage>>) -> (r: Event)
    ensures
        all_some(rows@) ==> (r matches Event::IndexUsageRows(v) && v@ == unwrapped(rows@)),
        !all_some(rows@) ==> r is DecodeFailed,
{
    match unwrap_all(rows) {
        Some(v) => Event::IndexUsageRows(v),
        None => Event::DecodeFailed,
    }
}

} // verus!
