//! The text that the exporter serves: one `name value` line per metric.

use crate::decimal::DecimalValue;
use crate::digits::{int_text, push_int};
use crate::records::{CommonEffectiveness, HitMiss, IndexUsage};
use vstd::prelude::*;

verus! {

/// Every metric that the exporter writes.
#[derive(Clone, Copy, Debug, PartialEq, Eq)]
pub enum Metric {
    SeqScan,
    SeqTupRead,
    IdxScan,
    VacuumFullCount,
    AutovacuumCount,
    AnalyzeCount,
    AutoanalyzeCount,
    Avg,
    HeapRead,
    HeapHit,
    Ratio,
    PercentOfTimesIndexUsed,
    RowsInTable,
}

impl Metric {
    /// The dotted name of the metric, before any table label.
    pub open spec fn spec_path(self) -> Seq<char> {
        match self {
            Metric::SeqScan => "postgresql.common_effectiveness.seq_scan"@,
            Metric::SeqTupRead => "postgresql.common_effectiveness.seq_tup_read"@,
            Metric::IdxScan => "postgresql.common_effectiveness.idx_scan"@,
            Metric::VacuumFullCount => "postgresql.common_effectiveness.vacuum_full_count"@,
            Metric::AutovacuumCount => "postgresql.common_effectiveness.autovacuum_count"@,
            Metric::AnalyzeCount => "postgresql.common_effectiveness.analyze_count"@,
            Metric::AutoanalyzeCount => "postgresql.common_effectiveness.autoanalyze_count"@,
            Metric::Avg => "postgresql.common_effectiveness.avg"@,
            Metric::HeapRead => "postgresql.hit_miss.heap_read"@,
            Metric::HeapHit => "postgresql.hit_miss.heap_hit"@,
            Metric::Ratio => "postgresql.hit_miss.ratio"@,
            Metric::PercentOfTimesIndexUsed => "postgresville.index_usage.percent_of_times_index_used"@,
            Metric::RowsInTable => "postgresville.index_usage.rows_in_table"@,
        }
    }

    pub fn path(&self) -> (r: &'static str)
        ensures
            r@ == self.spec_path(),
    {
        match self {
            Metric::SeqScan => "postgresql.common_effectiveness.seq_scan",
            Metric::SeqTupRead => "postgresql.common_effectiveness.seq_tup_read",
            Metric::IdxScan => "postgresql.common_effectiveness.idx_scan",
            Metric::VacuumFullCount => "postgresql.common_effectiveness.vacuum_full_count",
            Metric::AutovacuumCount => "postgresql.common_effectiveness.autovacuum_count",
            Metric::AnalyzeCount => "postgresql.common_effectiveness.analyze_count",
            Metric::AutoanalyzeCount => "postgresql.common_effectiveness.autoanalyze_count",
            Metric::Avg => "postgresql.common_effectiveness.avg",
            Metric::HeapRead => "postgresql.hit_miss.heap_read",
            Metric::HeapHit => "postgresql.hit_miss.heap_hit",
            Metric::Ratio => "postgresql.hit_miss.ratio",
            Metric::PercentOfTimesIndexUsed => "postgresville.index_usage.percent_of_times_index_used",
            Metric::RowsInTable => "postgresville.index_usage.rows_in_table",
        }
    }

    pub open spec fn is_common_effectiveness(self) -> bool {
        match self {
            Metric::SeqScan | Metric::SeqTupRead | Metric::IdxScan | Metric::VacuumFullCount
            | Metric::AutovacuumCount | Metric::AnalyzeCount | Metric::AutoanalyzeCount
            | Metric::Avg => true,
            _ => false,
        }
    }

    pub open spec fn is_hit_miss(self) -> bool {
        match self {
            Metric::HeapRead | Metric::HeapHit | Metric::Ratio => true,
            _ => false,
        }
    }

    pub open spec fn is_index_usage(self) -> bool {
        match self {
            Metric::PercentOfTimesIndexUsed | Metric::RowsInTable => true,
            _ => false,
        }
    }
}

/// One output line: the metric, the table it is labelled with (if any), and
/// the text of its value.
pub type Line = (Metric, Option<Seq<char>>, Seq<char>);

pub open spec fn line_text(l: Line) -> Seq<char> {
    let label = match l.1 {
        Some(t) => seq!['.'] + t,
        None => Seq::empty(),
    };
    l.0.spec_path() + label + seq![' '] + l.2 + seq!['\n']
}

pub open spec fn lines_text(ls: Seq<Line>) -> Seq<char>
    decreases ls.len(),
{
    if ls.len() == 0 {
        Seq::empty()
    } else {
        lines_text(ls.drop_last()) + line_text(ls.last())
    }
}

/// How many of the lines are of metric `m`.
pub open spec fn count_metric(ls: Seq<Line>, m: Metric) -> nat
    decreases ls.len(),
{
    if ls.len() == 0 {
        0
    } else {
        count_metric(ls.drop_last(), m) + if ls.last().0 == m {
            1nat
        } else {
            0nat
        }
    }
}

/// The eight lines of one table's scan and maintenance counters.
pub open spec fn common_effectiveness_lines(r: CommonEffectiveness) -> Seq<Line> {
    let t = Some(r.relname@);
    Seq::empty().push((Metric::SeqScan, t, int_text(r.seq_scan as int))).push(
        (Metric::SeqTupRead, t, int_text(r.seq_tup_read as int)),
    ).push((Metric::IdxScan, t, int_text(r.idx_scan as int))).push(
        (Metric::VacuumFullCount, t, int_text(r.vacuum_full_count as int)),
    ).push((Metric::AutovacuumCount, t, int_text(r.autovacuum_count as int))).push(
        (Metric::AnalyzeCount, t, int_text(r.analyze_count as int)),
    ).push((Metric::AutoanalyzeCount, t, int_text(r.autoanalyze_count as int))).push(
        (Metric::Avg, t, int_text(r.avg as int)),
    )
}

/// The three unlabelled lines of the cache aggregate.
pub open spec fn hit_miss_lines(r: HitMiss) -> Seq<Line> {
    Seq::empty().push((Metric::HeapRead, None, r.heap_read.text())).push(
        (Metric::HeapHit, None, r.heap_hit.text()),
    ).push((Metric::Ratio, None, r.ratio.text()))
}

/// The two lines of one table's index usage.
pub open spec fn index_usage_lines(r: IndexUsage) -> Seq<Line> {
    let t = Some(r.relname@);
    Seq::empty().push(
        (Metric::PercentOfTimesIndexUsed, t, int_text(r.percent_of_times_index_used as int)),
    ).push((Metric::RowsInTable, t, int_text(r.rows_in_table as int)))
}

pub open spec fn all_common_effectiveness_lines(rs: Seq<CommonEffectiveness>) -> Seq<Line>
    decreases rs.len(),
{
    if rs.len() == 0 {
        Seq::empty()
    } else {
        all_common_effectiveness_lines(rs.drop_last()) + common_effectiveness_lines(rs.last())
    }
}

pub open spec fn all_hit_miss_lines(rs: Seq<HitMiss>) -> Seq<Line>
    decreases rs.len(),
{
    if rs.len() == 0 {
        Seq::empty()
    } else {
        all_hit_miss_lines(rs.drop_last()) + hit_miss_lines(rs.last())
    }
}

pub open spec fn all_index_usage_lines(rs: Seq<IndexUsage>) -> Seq<Line>
    decreases rs.len(),
{
    if rs.len() == 0 {
        Seq::empty()
    } else {
        all_index_usage_lines(rs.drop_last()) + index_usage_lines(rs.last())
    }
}

/// All lines of a report, in order: every table's counters, then the cache
/// aggregates, then every table's index usage.
pub open spec fn report_lines(
    ce: Seq<CommonEffectiveness>,
    hm: Seq<HitMiss>,
    iu: Seq<IndexUsage>,
) -> Seq<Line> {
    all_common_effectiveness_lines(ce) + all_hit_miss_lines(hm) + all_index_usage_lines(iu)
}

pub open spec fn report_text(
    ce: Seq<CommonEffectiveness>,
    hm: Seq<HitMiss>,
    iu: Seq<IndexUsage>,
) -> Seq<char> {
    lines_text(report_lines(ce, hm, iu))
}

pub open spec fn all_wf(hm: Seq<HitMiss>) -> bool {
    forall|i: int| 0 <= i < hm.len() ==> (#[trigger] hm[i]).wf()
}

proof fn lemma_lines_push(ls: Seq<Line>, l: Line)
    ensures
        lines_text(ls.push(l)) == lines_text(ls) + line_text(l),
        forall|m: Metric|
            #[trigger] count_metric(ls.push(l), m) == count_metric(ls, m) + if l.0 == m {
                1nat
            } else {
                0nat
            },
{
    assert(ls.push(l).drop_last() =~= ls);
}

proof fn lemma_lines_concat(a: Seq<Line>, b: Seq<Line>)
    ensures
        lines_text(a + b) == lines_text(a) + lines_text(b),
        forall|m: Metric| #[trigger] count_metric(a + b, m) == count_metric(a, m) + count_metric(b, m),
    decreases b.len(),
{
    if b.len() == 0 {
        assert(a + b =~= a);
        assert(lines_text(a) + lines_text(b) =~= lines_text(a));
        assert forall|m: Metric| #[trigger] count_metric(a + b, m) == count_metric(a, m) + count_metric(b, m) by {}
    } else {
        lemma_lines_concat(a, b.drop_last());
        assert((a + b).drop_last() =~= a + b.drop_last());
        assert(lines_text(a + b) =~= lines_text(a) + lines_text(b));
        assert forall|m: Metric| #[trigger] count_metric(a + b, m) == count_metric(a, m) + count_metric(b, m) by {
            assert(count_metric(a + b.drop_last(), m) == count_metric(a, m) + count_metric(b.drop_last(), m));
        }
    }
}

proof fn lemma_step(start: Seq<char>, ls: Seq<Line>, l: Line, before: Seq<char>, after: Seq<char>)
    requires
        before == start + lines_text(ls),
        after == before + line_text(l),
    ensures
        after == start + lines_text(ls.push(l)),
{
    lemma_lines_push(ls, l);
    assert(after =~= start + lines_text(ls.push(l)));
}

/// Appends `path` followed by `.label` when a label is given, and a space.
fn push_name(out: &mut String, m: Metric, label: Option<&str>)
    ensures
        final(out)@ == old(out)@ + m.spec_path() + match label {
            Some(t) => seq!['.'] + t@,
            None => Seq::<char>::empty(),
        } + seq![' '],
{
    proof {
        reveal_strlit(".");
        reveal_strlit(" ");
    }
    out.append(m.path());
    match label {
        Some(t) => {
            out.append(".");
            out.append(t);
        },
        None => {},
    }
    out.append(" ");
    assert(final(out)@ =~= old(out)@ + m.spec_path() + match label {
        Some(t) => seq!['.'] + t@,
        None => Seq::<char>::empty(),
    } + seq![' ']);
}

fn push_int_line(out: &mut String, m: Metric, label: &str, v: i64)
    ensures
        final(out)@ == old(out)@ + line_text((m, Some(label@), int_text(v as int))),
{
    push_name(out, m, Some(label));
    push_int(out, v);
    out.append("\n");
    proof {
        reveal_strlit("\n");
    }
    assert(final(out)@ =~= old(out)@ + line_text((m, Some(label@), int_text(v as int))));
}

fn push_decimal_line(out: &mut String, m: Metric, v: &DecimalValue)
    requires
        v.wf(),
    ensures
        final(out)@ == old(out)@ + line_text((m, None, v.text())),
{
    push_name(out, m, None);
    let t = v.to_text();
    out.append(t.as_str());
    out.append("\n");
    proof {
        reveal_strlit("\n");
    }
    assert(final(out)@ =~= old(out)@ + line_text((m, None, v.text())));
}

fn push_common_effectiveness(out: &mut String, r: &CommonEffectiveness)
    ensures
        final(out)@ == old(out)@ + lines_text(common_effectiveness_lines(*r)),
{
    let ghost start = out@;
    let ghost t = Some(r.relname@);
    let ghost mut ls: Seq<Line> = Seq::empty();
    let name = r.relname.as_str();
    assert(lines_text(ls) =~= Seq::<char>::empty());
    assert(out@ =~= start + lines_text(ls));
    let ghost before = out@;
    push_int_line(out, Metric::SeqScan, name, r.seq_scan);
    proof {
        lemma_step(start, ls, (Metric::SeqScan, t, int_text(r.seq_scan as int)), before, out@);
        ls = ls.push((Metric::SeqScan, t, int_text(r.seq_scan as int)));
    }
    let ghost before = out@;
    push_int_line(out, Metric::SeqTupRead, name, r.seq_tup_read);
    proof {
        lemma_step(start, ls, (Metric::SeqTupRead, t, int_text(r.seq_tup_read as int)), before, out@);
        ls = ls.push((Metric::SeqTupRead, t, int_text(r.seq_tup_read as int)));
    }
    let ghost before = out@;
    push_int_line(out, Metric::IdxScan, name, r.idx_scan);
    proof {
        lemma_step(start, ls, (Metric::IdxScan, t, int_text(r.idx_scan as int)), before, out@);
        ls = ls.push((Metric::IdxScan, t, int_text(r.idx_scan as int)));
    }
    let ghost before = out@;
    push_int_line(out, Metric::VacuumFullCount, name, r.vacuum_full_count);
    proof {
        lemma_step(start, ls, (Metric::VacuumFullCount, t, int_text(r.vacuum_full_count as int)), before, out@);
        ls = ls.push((Metric::VacuumFullCount, t, int_text(r.vacuum_full_count as int)));
    }
    let ghost before = out@;
    push_int_line(out, Metric::AutovacuumCount, name, r.autovacuum_count);
    proof {
        lemma_step(start, ls, (Metric::AutovacuumCount, t, int_text(r.autovacuum_count as int)), before, out@);
        ls = ls.push((Metric::AutovacuumCount, t, int_text(r.autovacuum_count as int)));
    }
    let ghost before = out@;
    push_int_line(out, Metric::AnalyzeCount, name, r.analyze_count);
    proof {
        lemma_step(start, ls, (Metric::AnalyzeCount, t, int_text(r.analyze_count as int)), before, out@);
        ls = ls.push((Metric::AnalyzeCount, t, int_text(r.analyze_count as int)));
    }
    let ghost before = out@;
    push_int_line(out, Metric::AutoanalyzeCount, name, r.autoanalyze_count);
    proof {
        lemma_step(start, ls, (Metric::AutoanalyzeCount, t, int_text(r.autoanalyze_count as int)), before, out@);
        ls = ls.push((Metric::AutoanalyzeCount, t, int_text(r.autoanalyze_count as int)));
    }
    let ghost before = out@;
    push_int_line(out, Metric::Avg, name, r.avg);
    proof {
        lemma_step(start, ls, (Metric::Avg, t, int_text(r.avg as int)), before, out@);
        ls = ls.push((Metric::Avg, t, int_text(r.avg as int)));
        assert(ls == common_effectiveness_lines(*r));
    }
}

fn push_hit_miss(out: &mut String, r: &HitMiss)
    requires
        r.wf(),
    ensures
        final(out)@ == old(out)@ + lines_text(hit_miss_lines(*r)),
{
    let ghost start = out@;
    let ghost mut ls: Seq<Line> = Seq::empty();
    assert(lines_text(ls) =~= Seq::<char>::empty());
    assert(out@ =~= start + lines_text(ls));
    let ghost before = out@;
    push_decimal_line(out, Metric::HeapRead, &r.heap_read);
    proof {
        lemma_step(start, ls, (Metric::HeapRead, None, r.heap_read.text()), before, out@);
        ls = ls.push((Metric::HeapRead, None, r.heap_read.text()));
    }
    let ghost before = out@;
    push_decimal_line(out, Metric::HeapHit, &r.heap_hit);
    proof {
        lemma_step(start, ls, (Metric::HeapHit, None, r.heap_hit.text()), before, out@);
        ls = ls.push((Metric::HeapHit, None, r.heap_hit.text()));
    }
    let ghost before = out@;
    push_decimal_line(out, Metric::Ratio, &r.ratio);
    proof {
        lemma_step(start, ls, (Metric::Ratio, None, r.ratio.text()), before, out@);
        ls = ls.push((Metric::Ratio, None, r.ratio.text()));
        assert(ls == hit_miss_lines(*r));
    }
}

fn push_index_usage(out: &mut String, r: &IndexUsage)
    ensures
        final(out)@ == old(out)@ + lines_text(index_usage_lines(*r)),
{
    let ghost start = out@;
    let ghost t = Some(r.relname@);
    let ghost mut ls: Seq<Line> = Seq::empty();
    let name = r.relname.as_str();
    assert(lines_text(ls) =~= Seq::<char>::empty());
    assert(out@ =~= start + lines_text(ls));
    let ghost before = out@;
    push_int_line(out, Metric::PercentOfTimesIndexUsed, name, r.percent_of_times_index_used);
    proof {
        let l = (Metric::PercentOfTimesIndexUsed, t, int_text(r.percent_of_times_index_used as int));
        lemma_step(start, ls, l, before, out@);
        ls = ls.push(l);
    }
    let ghost before = out@;
    push_int_line(out, Metric::RowsInTable, name, r.rows_in_table);
    proof {
        let l = (Metric::RowsInTable, t, int_text(r.rows_in_table as int));
        lemma_step(start, ls, l, before, out@);
        ls = ls.push(l);
        assert(ls == index_usage_lines(*r));
    }
}

/// Renders the three record lists, in the order given, as the exporter's text.
pub fn render_report(
    ce: &Vec<CommonEffectiveness>,
    hm: &Vec<HitMiss>,
    iu: &Vec<IndexUsage>,
) -> (r: String)
    requires
        all_wf(hm@),
    ensures
        r@ == report_text(ce@, hm@, iu@),
        r@ == lines_text(all_common_effectiveness_lines(ce@)) + lines_text(
            all_hit_miss_lines(hm@),
        ) + lines_text(all_index_usage_lines(iu@)),
{
    let mut out = String::new();
    let mut i: usize = 0;
    while i < ce.len()
        invariant
            i <= ce.len(),
            out@ == lines_text(all_common_effectiveness_lines(ce@.subrange(0, i as int))),
        decreases ce.len() - i,
    {
        proof {
            let next = ce@.subrange(0, i + 1);
            assert(next.drop_last() =~= ce@.subrange(0, i as int));
            lemma_lines_concat(
                all_common_effectiveness_lines(ce@.subrange(0, i as int)),
                common_effectiveness_lines(ce@[i as int]),
            );
        }
        push_common_effectiveness(&mut out, &ce[i]);
        i = i + 1;
    }
    assert(ce@.subrange(0, ce.len() as int) =~= ce@);
    let ghost a = out@;
    let mut j: usize = 0;
    while j < hm.len()
        invariant
            j <= hm.len(),
            all_wf(hm@),
            out@ == a + lines_text(all_hit_miss_lines(hm@.subrange(0, j as int))),
        decreases hm.len() - j,
    {
        proof {
            let next = hm@.subrange(0, j + 1);
            assert(next.drop_last() =~= hm@.subrange(0, j as int));
            lemma_lines_concat(
                all_hit_miss_lines(hm@.subrange(0, j as int)),
                hit_miss_lines(hm@[j as int]),
            );
        }
        push_hit_miss(&mut out, &hm[j]);
        j = j + 1;
        assert(out@ =~= a + lines_text(all_hit_miss_lines(hm@.subrange(0, j as int))));
    }
    assert(hm@.subrange(0, hm.len() as int) =~= hm@);
    let ghost b = out@;
    let mut k: usize = 0;
    while k < iu.len()
        invariant
            k <= iu.len(),
            out@ == b + lines_text(all_index_usage_lines(iu@.subrange(0, k as int))),
        decreases iu.len() - k,
    {
        proof {
            let next = iu@.subrange(0, k + 1);
            assert(next.drop_last() =~= iu@.subrange(0, k as int));
            lemma_lines_concat(
                all_index_usage_lines(iu@.subrange(0, k as int)),
                index_usage_lines(iu@[k as int]),
            );
        }
        push_index_usage(&mut out, &iu[k]);
        k = k + 1;
        assert(out@ =~= b + lines_text(all_index_usage_lines(iu@.subrange(0, k as int))));
    }
    assert(iu@.subrange(0, iu.len() as int) =~= iu@);
    proof {
        lemma_lines_concat(all_common_effectiveness_lines(ce@), all_hit_miss_lines(hm@));
        lemma_lines_concat(
            all_common_effectiveness_lines(ce@) + all_hit_miss_lines(hm@),
            all_index_usage_lines(iu@),
        );
    }
    out
}

proof fn lemma_count_empty(m: Metric)
    ensures
        count_metric(Seq::empty(), m) == 0,
{
}

proof fn lemma_common_effectiveness_counts(r: CommonEffectiveness)
    ensures
        forall|m: Metric| #[trigger]
            count_metric(common_effectiveness_lines(r), m) == if m.is_common_effectiveness() {
                1nat
            } else {
                0nat
            },
{
    let t = Some(r.relname@);
    let s0: Seq<Line> = Seq::empty();
    let s1 = s0.push((Metric::SeqScan, t, int_text(r.seq_scan as int)));
    let s2 = s1.push((Metric::SeqTupRead, t, int_text(r.seq_tup_read as int)));
    let s3 = s2.push((Metric::IdxScan, t, int_text(r.idx_scan as int)));
    let s4 = s3.push((Metric::VacuumFullCount, t, int_text(r.vacuum_full_count as int)));
    let s5 = s4.push((Metric::AutovacuumCount, t, int_text(r.autovacuum_count as int)));
    let s6 = s5.push((Metric::AnalyzeCount, t, int_text(r.analyze_count as int)));
    let s7 = s6.push((Metric::AutoanalyzeCount, t, int_text(r.autoanalyze_count as int)));
    lemma_lines_push(s0, (Metric::SeqScan, t, int_text(r.seq_scan as int)));
    lemma_lines_push(s1, (Metric::SeqTupRead, t, int_text(r.seq_tup_read as int)));
    lemma_lines_push(s2, (Metric::IdxScan, t, int_text(r.idx_scan as int)));
    lemma_lines_push(s3, (Metric::VacuumFullCount, t, int_text(r.vacuum_full_count as int)));
    lemma_lines_push(s4, (Metric::AutovacuumCount, t, int_text(r.autovacuum_count as int)));
    lemma_lines_push(s5, (Metric::AnalyzeCount, t, int_text(r.analyze_count as int)));
    lemma_lines_push(s6, (Metric::AutoanalyzeCount, t, int_text(r.autoanalyze_count as int)));
    lemma_lines_push(s7, (Metric::Avg, t, int_text(r.avg as int)));
    assert forall|m: Metric| #[trigger]
        count_metric(common_effectiveness_lines(r), m) == if m.is_common_effectiveness() {
            1nat
        } else {
            0nat
        } by {
        lemma_count_empty(m);
    }
}

proof fn lemma_hit_miss_counts(r: HitMiss)
    ensures
        forall|m: Metric| #[trigger]
            count_metric(hit_miss_lines(r), m) == if m.is_hit_miss() {
                1nat
            } else {
                0nat
            },
{
    let s0: Seq<Line> = Seq::empty();
    let s1 = s0.push((Metric::HeapRead, None, r.heap_read.text()));
    let s2 = s1.push((Metric::HeapHit, None, r.heap_hit.text()));
    lemma_lines_push(s0, (Metric::HeapRead, None, r.heap_read.text()));
    lemma_lines_push(s1, (Metric::HeapHit, None, r.heap_hit.text()));
    lemma_lines_push(s2, (Metric::Ratio, None, r.ratio.text()));
    assert forall|m: Metric| #[trigger]
        count_metric(hit_miss_lines(r), m) == if m.is_hit_miss() {
            1nat
        } else {
            0nat
        } by {
        lemma_count_empty(m);
    }
}

proof fn lemma_index_usage_counts(r: IndexUsage)
    ensures
        forall|m: Metric| #[trigger]
            count_metric(index_usage_lines(r), m) == if m.is_index_usage() {
                1nat
            } else {
                0nat
            },
{
    let t = Some(r.relname@);
    let s0: Seq<Line> = Seq::empty();
    let l1 = (Metric::PercentOfTimesIndexUsed, t, int_text(r.percent_of_times_index_used as int));
    let s1 = s0.push(l1);
    lemma_lines_push(s0, l1);
    lemma_lines_push(s1, (Metric::RowsInTable, t, int_text(r.rows_in_table as int)));
    assert forall|m: Metric| #[trigger]
        count_metric(index_usage_lines(r), m) == if m.is_index_usage() {
            1nat
        } else {
            0nat
        } by {
        lemma_count_empty(m);
    }
}

proof fn lemma_all_common_effectiveness_counts(rs: Seq<CommonEffectiveness>, m: Metric)
    ensures
        count_metric(all_common_effectiveness_lines(rs), m) == if m.is_common_effectiveness() {
            rs.len()
        } else {
            0
        },
    decreases rs.len(),
{
    lemma_count_empty(m);
    if rs.len() > 0 {
        lemma_all_common_effectiveness_counts(rs.drop_last(), m);
        lemma_lines_concat(
            all_common_effectiveness_lines(rs.drop_last()),
            common_effectiveness_lines(rs.last()),
        );
        lemma_common_effectiveness_counts(rs.last());
    }
}

proof fn lemma_all_hit_miss_counts(rs: Seq<HitMiss>, m: Metric)
    ensures
        count_metric(all_hit_miss_lines(rs), m) == if m.is_hit_miss() {
            rs.len()
        } else {
            0
        },
    decreases rs.len(),
{
    lemma_count_empty(m);
    if rs.len() > 0 {
        lemma_all_hit_miss_counts(rs.drop_last(), m);
        lemma_lines_concat(all_hit_miss_lines(rs.drop_last()), hit_miss_lines(rs.last()));
        lemma_hit_miss_counts(rs.last());
    }
}

proof fn lemma_all_index_usage_counts(rs: Seq<IndexUsage>, m: Metric)
    ensures
        count_metric(all_index_usage_lines(rs), m) == if m.is_index_usage() {
            rs.len()
        } else {
            0
        },
    decreases rs.len(),
{
    lemma_count_empty(m);
    if rs.len() > 0 {
        lemma_all_index_usage_counts(rs.drop_last(), m);
        lemma_lines_concat(all_index_usage_lines(rs.drop_last()), index_usage_lines(rs.last()));
        lemma_index_usage_counts(rs.last());
    }
}

proof fn lemma_count_zero(ls: Seq<Line>, m: Metric)
    requires
        count_metric(ls, m) == 0,
    ensures
        forall|i: int| 0 <= i < ls.len() ==> (#[trigger] ls[i]).0 != m,
    decreases ls.len(),
{
    if ls.len() > 0 {
        lemma_count_zero(ls.drop_last(), m);
        assert forall|i: int| 0 <= i < ls.len() implies (#[trigger] ls[i]).0 != m by {
            if i < ls.len() - 1 {
                assert(ls[i] == ls.drop_last()[i]);
            }
        }
    }
}

/// Each metric appears exactly once per record of its family: a report holds
/// as many lines of a table metric as there are table records of that kind,
/// and as many lines of a cache metric as there are cache records.
pub proof fn metric_line_counts(ce: Seq<CommonEffectiveness>, hm: Seq<HitMiss>, iu: Seq<IndexUsage>, m: Metric)
    ensures
        count_metric(report_lines(ce, hm, iu), m) == (if m.is_common_effectiveness() {
            ce.len()
        } else if m.is_hit_miss() {
            hm.len()
        } else {
            iu.len()
        }),
{
    lemma_all_common_effectiveness_counts(ce, m);
    lemma_all_hit_miss_counts(hm, m);
    lemma_all_index_usage_counts(iu, m);
    lemma_lines_concat(all_common_effectiveness_lines(ce), all_hit_miss_lines(hm));
    lemma_lines_concat(all_common_effectiveness_lines(ce) + all_hit_miss_lines(hm), all_index_usage_lines(iu));
}

/// A report holds one `common_effectiveness.seq_scan` line per table record,
/// that is per row that the scan query returned.
pub proof fn seq_scan_lines_per_table(ce: Seq<CommonEffectiveness>, hm: Seq<HitMiss>, iu: Seq<IndexUsage>)
    ensures
        count_metric(report_lines(ce, hm, iu), Metric::SeqScan) == ce.len(),
{
    metric_line_counts(ce, hm, iu, Metric::SeqScan);
}

/// With no cache record, a report holds no `hit_miss` line at all.
pub proof fn no_hit_miss_lines_without_records(ce: Seq<CommonEffectiveness>, hm: Seq<HitMiss>, iu: Seq<IndexUsage>)
    requires
        hm.len() == 0,
    ensures
        forall|i: int|
            0 <= i < report_lines(ce, hm, iu).len() ==> !(#[trigger] report_lines(ce, hm, iu)[i]).0.is_hit_miss(),
{
    let ls = report_lines(ce, hm, iu);
    metric_line_counts(ce, hm, iu, Metric::HeapRead);
    metric_line_counts(ce, hm, iu, Metric::HeapHit);
    metric_line_counts(ce, hm, iu, Metric::Ratio);
    lemma_count_zero(ls, Metric::HeapRead);
    lemma_count_zero(ls, Metric::HeapHit);
    lemma_count_zero(ls, Metric::Ratio);
}

proof fn lemma_common_effectiveness_positions(rs: Seq<CommonEffectiveness>, i: int)
    requires
        0 <= i < rs.len(),
    ensures
        all_common_effectiveness_lines(rs).len() == 8 * rs.len(),
        all_common_effectiveness_lines(rs).subrange(8 * i, 8 * i + 8) == common_effectiveness_lines(rs[i]),
    decreases rs.len(),
{
    let prev = all_common_effectiveness_lines(rs.drop_last());
    let last = common_effectiveness_lines(rs.last());
    if rs.len() == 1 {
        assert(rs.drop_last().len() == 0);
        assert(prev.len() == 0);
    } else if i == rs.len() - 1 {
        lemma_common_effectiveness_positions(rs.drop_last(), 0);
    } else {
        lemma_common_effectiveness_positions(rs.drop_last(), i);
        assert(rs.drop_last()[i] == rs[i]);
    }
    assert((prev + last).subrange(8 * i, 8 * i + 8) =~= common_effectiveness_lines(rs[i]));
}

/// The table records keep their order in the report: the eight lines of the
/// `i`-th record are lines `8 * i` to `8 * i + 7`, ahead of those of every
/// later record.
pub proof fn common_effectiveness_order_kept(ce: Seq<CommonEffectiveness>, hm: Seq<HitMiss>, iu: Seq<IndexUsage>, i: int)
    requires
        0 <= i < ce.len(),
    ensures
        report_lines(ce, hm, iu).subrange(8 * i, 8 * i + 8) == common_effectiveness_lines(ce[i]),
{
    lemma_common_effectiveness_positions(ce, i);
    let a = all_common_effectiveness_lines(ce);
    let rest = all_hit_miss_lines(hm) + all_index_usage_lines(iu);
    assert(report_lines(ce, hm, iu) =~= a + rest);
    assert((a + rest).subrange(8 * i, 8 * i + 8) =~= a.subrange(8 * i, 8 * i + 8));
}

/// Two table records with the same name and counters.
pub open spec fn same_common_effectiveness(a: CommonEffectiveness, b: CommonEffectiveness) -> bool {
    &&& a.relname@ == b.relname@
    &&& a.seq_scan == b.seq_scan
    &&& a.seq_tup_read == b.seq_tup_read
    &&& a.idx_scan == b.idx_scan
    &&& a.avg == b.avg
    &&& a.vacuum_full_count == b.vacuum_full_count
    &&& a.autovacuum_count == b.autovacuum_count
    &&& a.analyze_count == b.analyze_count
    &&& a.autoanalyze_count == b.autoanalyze_count
}

/// Two index-usage records with the same name and values.
pub open spec fn same_index_usage(a: IndexUsage, b: IndexUsage) -> bool {
    &&& a.relname@ == b.relname@
    &&& a.percent_of_times_index_used == b.percent_of_times_index_used
    &&& a.rows_in_table == b.rows_in_table
}

proof fn lemma_same_common_effectiveness(a: Seq<CommonEffectiveness>, b: Seq<CommonEffectiveness>)
    requires
        a.len() == b.len(),
        forall|i: int| 0 <= i < a.len() ==> same_common_effectiveness(#[trigger] a[i], b[i]),
    ensures
        all_common_effectiveness_lines(a) == all_common_effectiveness_lines(b),
    decreases a.len(),
{
    if a.len() > 0 {
        assert forall|i: int| 0 <= i < a.drop_last().len() implies same_common_effectiveness(
            #[trigger] a.drop_last()[i],
            b.drop_last()[i],
        ) by {
            assert(same_common_effectiveness(a[i], b[i]));
        }
        lemma_same_common_effectiveness(a.drop_last(), b.drop_last());
        assert(same_common_effectiveness(a[a.len() - 1], b[b.len() - 1]));
    }
}

proof fn lemma_same_index_usage(a: Seq<IndexUsage>, b: Seq<IndexUsage>)
    requires
        a.len() == b.len(),
        forall|i: int| 0 <= i < a.len() ==> same_index_usage(#[trigger] a[i], b[i]),
    ensures
        all_index_usage_lines(a) == all_index_usage_lines(b),
    decreases a.len(),
{
    if a.len() > 0 {
        assert forall|i: int| 0 <= i < a.drop_last().len() implies same_index_usage(
            #[trigger] a.drop_last()[i],
            b.drop_last()[i],
        ) by {
            assert(same_index_usage(a[i], b[i]));
        }
        lemma_same_index_usage(a.drop_last(), b.drop_last());
        assert(same_index_usage(a[a.len() - 1], b[b.len() - 1]));
    }
}

/// The text depends on nothing but the records: record lists with the same
/// names and values, in the same order, give the same text.
pub proof fn report_text_deterministic(
    ce1: Seq<CommonEffectiveness>,
    hm1: Seq<HitMiss>,
    iu1: Seq<IndexUsage>,
    ce2: Seq<CommonEffectiveness>,
    hm2: Seq<HitMiss>,
    iu2: Seq<IndexUsage>,
)
    requires
        ce1.len() == ce2.len(),
        forall|i: int| 0 <= i < ce1.len() ==> same_common_effectiveness(#[trigger] ce1[i], ce2[i]),
        hm1 == hm2,
        iu1.len() == iu2.len(),
        forall|i: int| 0 <= i < iu1.len() ==> same_index_usage(#[trigger] iu1[i], iu2[i]),
    ensures
        report_text(ce1, hm1, iu1) == report_text(ce2, hm2, iu2),
{
    lemma_same_common_effectiveness(ce1, ce2);
    lemma_same_index_usage(iu1, iu2);
}

} // verus!
