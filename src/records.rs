//! One row of each statistics query, as a typed record.

use crate::decimal::DecimalValue;
use vstd::prelude::*;

verus! {

/// Scan and maintenance counters of one table since statistics were reset.
#[derive(Clone, Debug)]
pub struct CommonEffectiveness {
    pub relname: String,
    pub seq_scan: i64,
    pub seq_tup_read: i64,
    pub idx_scan: i64,
    /// Tuples read per sequential scan, truncated.
    pub avg: i64,
    pub vacuum_full_count: i64,
    pub autovacuum_count: i64,
    pub analyze_count: i64,
    pub autoanalyze_count: i64,
}

/// Buffer-cache effectiveness over all user tables.
#[derive(Clone, Copy, Debug, PartialEq, Eq)]
pub struct HitMiss {
    pub heap_read: DecimalValue,
    pub heap_hit: DecimalValue,
    /// `heap_hit / (heap_hit + heap_read)`.
    pub ratio: DecimalValue,
}

impl HitMiss {
    pub open spec fn wf(self) -> bool {
        self.heap_read.wf() && self.heap_hit.wf() && self.ratio.wf()
    }

    pub fn is_wf(&self) -> (r: bool)
        ensures
            r == self.wf(),
    {
        self.heap_read.is_wf() && self.heap_hit.is_wf() && self.ratio.is_wf()
    }
}

/// How often the scans of one table went through an index.
#[derive(Clone, Debug)]
pub struct IndexUsage {
    pub relname: String,
    /// `100 * idx_scan / (seq_scan + idx_scan)`, truncated.
    pub percent_of_times_index_used: i64,
    /// The live-row estimate of the table.
    pub rows_in_table: i64,
}

} // verus!
