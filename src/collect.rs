//! One request: connect, run the three statistics queries in order, render.
//!
//! The database work itself is asynchronous I/O done by the caller. This
//! module decides, from each outcome the caller reports, what to do next.

use crate::records::{CommonEffectiveness, HitMiss, IndexUsage};
use crate::render::{all_wf, render_report, report_text};
use vstd::prelude::*;

verus! {

/// The three statistics queries, in the order they run.
#[derive(Clone, Copy, Debug, PartialEq, Eq)]
pub enum Query {
    CommonEffectiveness,
    HitMiss,
    IndexUsage,
}

impl Query {
    pub open spec fn spec_sql(self) -> Seq<char> {
        match self {
            Query::CommonEffectiveness => "SELECT relname, seq_scan, seq_tup_read, idx_scan, vacuum_count, autovacuum_count, analyze_count, autoanalyze_count, seq_tup_read / seq_scan AS avg FROM pg_stat_user_tables WHERE seq_scan > 0 ORDER BY seq_tup_read DESC"@,
            Query::HitMiss => "SELECT sum(heap_blks_read) AS heap_read, sum(heap_blks_hit) AS heap_hit, sum(heap_blks_hit) / (sum(heap_blks_hit) + sum(heap_blks_read)) AS ratio FROM pg_statio_user_tables"@,
            Query::IndexUsage => "SELECT relname, 100 * idx_scan / (seq_scan + idx_scan) AS percent_of_times_index_used, n_live_tup AS rows_in_table FROM pg_stat_user_tables WHERE seq_scan + idx_scan > 0 ORDER BY n_live_tup DESC"@,
        }
    }

    /// The statement text. Its select list gives the record's fields in
    /// column order.
    pub fn sql(&self) -> (r: &'static str)
        ensures
            r@ == self.spec_sql(),
    {
        match self {
            Query::CommonEffectiveness => "SELECT relname, seq_scan, seq_tup_read, idx_scan, vacuum_count, autovacuum_count, analyze_count, autoanalyze_count, seq_tup_read / seq_scan AS avg FROM pg_stat_user_tables WHERE seq_scan > 0 ORDER BY seq_tup_read DESC",
            Query::HitMiss => "SELECT sum(heap_blks_read) AS heap_read, sum(heap_blks_hit) AS heap_hit, sum(heap_blks_hit) / (sum(heap_blks_hit) + sum(heap_blks_read)) AS ratio FROM pg_statio_user_tables",
            Query::IndexUsage => "SELECT relname, 100 * idx_scan / (seq_scan + idx_scan) AS percent_of_times_index_used, n_live_tup AS rows_in_table FROM pg_stat_user_tables WHERE seq_scan + idx_scan > 0 ORDER BY n_live_tup DESC",
        }
    }
}

/// Why a request failed.
#[derive(Clone, Copy, Debug, PartialEq, Eq)]
pub enum Failure {
    /// The database could not be reached, refused the login, or has no such database.
    Connect,
    /// A statement could not be prepared.
    Prepare,
    /// A statement failed while it ran.
    Execute,
    /// A row did not decode into its record.
    Decode,
}

/// What the caller reports back after doing the last action.
#[derive(Debug)]
pub enum Event {
    Connected,
    ConnectFailed,
    PrepareFailed,
    ExecuteFailed,
    DecodeFailed,
    CommonEffectivenessRows(Vec<CommonEffectiveness>),
    HitMissRows(Vec<HitMiss>),
    IndexUsageRows(Vec<IndexUsage>),
}

/// What the caller is to do next.
#[derive(Debug)]
pub enum Action {
    /// Prepare and run this query, decode its rows, and report them.
    Run(Query),
    /// Answer the request with this text; the connection can go.
    Respond(String),
    /// Answer the request with an error of this kind; the connection can go.
    Fail(Failure),
}

/// Whether every cache record holds decimals in range.
pub fn all_valid(v: &Vec<HitMiss>) -> (r: bool)
    ensures
        r == all_wf(v@),
{
    let mut i: usize = 0;
    while i < v.len()
        invariant
            i <= v.len(),
            forall|j: int| 0 <= j < i ==> (#[trigger] v@[j]).wf(),
        decreases v.len() - i,
    {
        if !v[i].is_wf() {
            assert(!v@[i as int].wf());
            return false;
        }
        i = i + 1;
    }
    true
}

/// Where a request stands.
#[derive(Clone, Copy, Debug, PartialEq, Eq)]
pub enum Stage {
    Connecting,
    Awaiting(Query),
    Done,
}

/// The state of one request: its stage and the records gathered so far.
#[derive(Debug)]
pub struct Collection {
    pub stage: Stage,
    pub common_effectiveness: Vec<CommonEffectiveness>,
    pub hit_miss: Vec<HitMiss>,
    pub index_usage: Vec<IndexUsage>,
}

impl Collection {
    pub open spec fn wf(&self) -> bool {
        all_wf(self.hit_miss@)
    }

    /// Whether `event` can follow the action that the collection last asked for.
    pub open spec fn spec_expects(&self, event: &Event) -> bool {
        match (self.stage, event) {
            (Stage::Connecting, Event::Connected) => true,
            (Stage::Connecting, Event::ConnectFailed) => true,
            (Stage::Awaiting(_), Event::PrepareFailed) => true,
            (Stage::Awaiting(_), Event::ExecuteFailed) => true,
            (Stage::Awaiting(_), Event::DecodeFailed) => true,
            (Stage::Awaiting(Query::CommonEffectiveness), Event::CommonEffectivenessRows(_)) => true,
            (Stage::Awaiting(Query::HitMiss), Event::HitMissRows(v)) => all_wf(v@),
            (Stage::Awaiting(Query::IndexUsage), Event::IndexUsageRows(_)) => true,
            _ => false,
        }
    }

    /// A new request, about to connect.
    pub fn new() -> (r: Self)
        ensures
            r.stage == Stage::Connecting,
            r.common_effectiveness@.len() == 0,
            r.hit_miss@.len() == 0,
            r.index_usage@.len() == 0,
            r.wf(),
    {
        Collection {
            stage: Stage::Connecting,
            common_effectiveness: Vec::new(),
            hit_miss: Vec::new(),
            index_usage: Vec::new(),
        }
    }

    pub fn expects(&self, event: &Event) -> (r: bool)
        ensures
            r == self.spec_expects(event),
    {
        match (self.stage, event) {
            (Stage::Connecting, Event::Connected) => true,
            (Stage::Connecting, Event::ConnectFailed) => true,
            (Stage::Awaiting(_), Event::PrepareFailed) => true,
            (Stage::Awaiting(_), Event::ExecuteFailed) => true,
            (Stage::Awaiting(_), Event::DecodeFailed) => true,
            (Stage::Awaiting(Query::CommonEffectiveness), Event::CommonEffectivenessRows(_)) => true,
            (Stage::Awaiting(Query::HitMiss), Event::HitMissRows(v)) => all_valid(v),
            (Stage::Awaiting(Query::IndexUsage), Event::IndexUsageRows(_)) => true,
            _ => false,
        }
    }

    /// Takes the outcome of the last action and returns the next one. The
    /// queries run in their fixed order; the first failure ends the request
    /// with its kind; after the last query the records are rendered.
    pub fn step(&mut self, event: Event) -> (r: Action)
        requires
            old(self).wf(),
            old(self).spec_expects(&event),
        ensures
            final(self).wf(),
            event is Connected ==> r == Action::Run(Query::CommonEffectiveness)
                && final(self).stage == Stage::Awaiting(Query::CommonEffectiveness),
            event is ConnectFailed ==> r == Action::Fail(Failure::Connect) && final(self).stage
                == Stage::Done,
            event is PrepareFailed ==> r == Action::Fail(Failure::Prepare) && final(self).stage
                == Stage::Done,
            event is ExecuteFailed ==> r == Action::Fail(Failure::Execute) && final(self).stage
                == Stage::Done,
            event is DecodeFailed ==> r == Action::Fail(Failure::Decode) && final(self).stage
                == Stage::Done,
            event matches Event::CommonEffectivenessRows(v) ==> r == Action::Run(Query::HitMiss)
                && final(self).stage == Stage::Awaiting(Query::HitMiss)
                && final(self).common_effectiveness@ == v@,
            event matches Event::HitMissRows(v) ==> r == Action::Run(Query::IndexUsage)
                && final(self).stage == Stage::Awaiting(Query::IndexUsage) && final(self).hit_miss@
                == v@,
            event matches Event::IndexUsageRows(v) ==> final(self).stage == Stage::Done
                && final(self).index_usage@ == v@ && (r matches Action::Respond(t) && t@
                == report_text(old(self).common_effectiveness@, old(self).hit_miss@, v@)),
            !(event is CommonEffectivenessRows) ==> final(self).common_effectiveness@
                == old(self).common_effectiveness@,
            !(event is HitMissRows) ==> final(self).hit_miss@ == old(self).hit_miss@,
            !(event is IndexUsageRows) ==> final(self).index_usage@ == old(self).index_usage@,
    {
        match event {
            Event::Connected => {
                self.stage = Stage::Awaiting(Query::CommonEffectiveness);
                Action::Run(Query::CommonEffectiveness)
            },
            Event::ConnectFailed => {
                self.stage = Stage::Done;
                Action::Fail(Failure::Connect)
            },
            Event::PrepareFailed => {
                self.stage = Stage::Done;
                Action::Fail(Failure::Prepare)
            },
            Event::ExecuteFailed => {
                self.stage = Stage::Done;
                Action::Fail(Failure::Execute)
            },
            Event::DecodeFailed => {
                self.stage = Stage::Done;
                Action::Fail(Failure::Decode)
            },
            Event::CommonEffectivenessRows(v) => {
                self.common_effectiveness = v;
                self.stage = Stage::Awaiting(Query::HitMiss);
                Action::Run(Query::HitMiss)
            },
            Event::HitMissRows(v) => {
                self.hit_miss = v;
                self.stage = Stage::Awaiting(Query::IndexUsage);
                Action::Run(Query::IndexUsage)
            },
            Event::IndexUsageRows(v) => {
                let text = render_report(&self.common_effectiveness, &self.hit_miss, &v);
                self.index_usage = v;
                self.stage = Stage::Done;
                Action::Respond(text)
            },
        }
    }
}

} // verus!
