use std::str::FromStr;

use pg_exporter::collect::{all_valid, Action, Collection, Event, Failure, Query, Stage};
use pg_exporter::config::ConnectionConfig;
use pg_exporter::decode::{
    common_effectiveness_from_columns, common_effectiveness_rows, hit_miss_from_columns,
    hit_miss_rows, index_usage_from_columns, index_usage_rows, unwrap_all,
};
use pg_exporter::decimal::{DecimalValue, MAX_MANTISSA, MAX_SCALE};
use pg_exporter::records::{CommonEffectiveness, HitMiss, IndexUsage};
use pg_exporter::render::{render_report, Metric};

fn table(name: &str, seq_scan: i64, seq_tup_read: i64) -> CommonEffectiveness {
    CommonEffectiveness {
        relname: name.to_string(),
        seq_scan,
        seq_tup_read,
        idx_scan: 0,
        avg: seq_tup_read / seq_scan,
        vacuum_full_count: 0,
        autovacuum_count: 0,
        analyze_count: 0,
        autoanalyze_count: 0,
    }
}

fn dec(mantissa: i128, scale: u32) -> DecimalValue {
    DecimalValue::new(mantissa, scale).unwrap()
}

fn cache(read: i128, hit: i128, ratio: DecimalValue) -> HitMiss {
    HitMiss { heap_read: dec(read, 0), heap_hit: dec(hit, 0), ratio }
}

#[test]
fn orders_table_renders_eight_lines() {
    let orders = CommonEffectiveness {
        relname: "orders".to_string(),
        seq_scan: 10,
        seq_tup_read: 500,
        idx_scan: 3,
        avg: 50,
        vacuum_full_count: 1,
        autovacuum_count: 2,
        analyze_count: 0,
        autoanalyze_count: 4,
    };
    let text = render_report(&vec![orders], &vec![], &vec![]);
    assert_eq!(
        text,
        "postgresql.common_effectiveness.seq_scan.orders 10\n\
         postgresql.common_effectiveness.seq_tup_read.orders 500\n\
         postgresql.common_effectiveness.idx_scan.orders 3\n\
         postgresql.common_effectiveness.vacuum_full_count.orders 1\n\
         postgresql.common_effectiveness.autovacuum_count.orders 2\n\
         postgresql.common_effectiveness.analyze_count.orders 0\n\
         postgresql.common_effectiveness.autoanalyze_count.orders 4\n\
         postgresql.common_effectiveness.avg.orders 50\n"
    );
}

#[test]
fn hit_miss_aggregate_renders_three_lines() {
    let text = render_report(&vec![], &vec![cache(100, 900, dec(9, 1))], &vec![]);
    assert_eq!(
        text,
        "postgresql.hit_miss.heap_read 100\n\
         postgresql.hit_miss.heap_hit 900\n\
         postgresql.hit_miss.ratio 0.9\n"
    );
}

#[test]
fn index_usage_renders_two_lines() {
    let usage = IndexUsage {
        relname: "orders".to_string(),
        percent_of_times_index_used: 23,
        rows_in_table: 1200,
    };
    let text = render_report(&vec![], &vec![], &vec![usage]);
    assert_eq!(
        text,
        "postgresville.index_usage.percent_of_times_index_used.orders 23\n\
         postgresville.index_usage.rows_in_table.orders 1200\n"
    );
}

#[test]
fn one_seq_scan_line_per_table() {
    let tables = vec![table("a", 1, 30), table("b", 2, 20), table("c", 3, 10)];
    let text = render_report(&tables, &vec![cache(1, 2, dec(6667, 4))], &vec![]);
    let n = text
        .lines()
        .filter(|l| l.starts_with("postgresql.common_effectiveness.seq_scan."))
        .count();
    assert_eq!(n, 3);
    assert_eq!(text.lines().count(), 3 * 8 + 3);
}

#[test]
fn rendering_is_deterministic() {
    let tables = vec![table("a", 1, 30), table("b", 2, 20)];
    let caches = vec![cache(7, 3, dec(3, 1))];
    let first = render_report(&tables, &caches, &vec![]);
    let second = render_report(&tables.clone(), &caches.clone(), &vec![]);
    assert_eq!(first.as_bytes(), second.as_bytes());
}

#[test]
fn decimal_text_reparses_to_same_value() {
    let values = [
        dec(9, 1),
        dec(5, 2),
        dec(0, 2),
        dec(0, 0),
        dec(-12345, 3),
        dec(120, 2),
        dec(MAX_MANTISSA, MAX_SCALE),
        dec(-MAX_MANTISSA, 0),
    ];
    for d in values.iter() {
        let text = d.to_text();
        let back = rust_decimal::Decimal::from_str(&text).unwrap();
        assert_eq!(back.mantissa(), d.mantissa);
        assert_eq!(back.scale(), d.scale);
    }
}

#[test]
fn decimal_text_keeps_all_digits() {
    assert_eq!(dec(5, 2).to_text(), "0.05");
    assert_eq!(dec(0, 2).to_text(), "0.00");
    assert_eq!(dec(120, 2).to_text(), "1.20");
    assert_eq!(dec(-12345, 3).to_text(), "-12.345");
    assert_eq!(dec(42, 0).to_text(), "42");
    assert_eq!(
        dec(MAX_MANTISSA, MAX_SCALE).to_text(),
        "7.9228162514264337593543950335"
    );
}

#[test]
fn decimal_out_of_range_is_refused() {
    assert!(DecimalValue::new(MAX_MANTISSA + 1, 0).is_none());
    assert!(DecimalValue::new(-MAX_MANTISSA - 1, 0).is_none());
    assert!(DecimalValue::new(1, MAX_SCALE + 1).is_none());
    assert!(DecimalValue::new(-MAX_MANTISSA, MAX_SCALE).is_some());
}

#[test]
fn no_hit_miss_rows_gives_no_hit_miss_lines() {
    let tables = vec![table("a", 1, 30)];
    let usage = vec![IndexUsage { relname: "a".to_string(), percent_of_times_index_used: 0, rows_in_table: 5 }];
    let text = render_report(&tables, &vec![], &usage);
    assert!(!text.contains("hit_miss"));
    assert_eq!(text.lines().count(), 8 + 2);
}

#[test]
fn empty_report_is_empty() {
    assert_eq!(render_report(&vec![], &vec![], &vec![]), "");
}

#[test]
fn tables_keep_their_order() {
    let tables = vec![table("big", 1, 900), table("small", 1, 900), table("tiny", 4, 8)];
    let text = render_report(&tables, &vec![], &vec![]);
    let lines: Vec<&str> = text.lines().collect();
    assert_eq!(lines[0], "postgresql.common_effectiveness.seq_scan.big 1");
    assert_eq!(lines[8], "postgresql.common_effectiveness.seq_scan.small 1");
    assert_eq!(lines[16], "postgresql.common_effectiveness.seq_scan.tiny 4");
    assert_eq!(lines[23], "postgresql.common_effectiveness.avg.tiny 2");
}

#[test]
fn negative_and_extreme_integers() {
    let mut t = table("t", 1, 1);
    t.idx_scan = -7;
    t.avg = i64::MIN;
    t.seq_tup_read = i64::MAX;
    let text = render_report(&vec![t], &vec![], &vec![]);
    assert!(text.contains("postgresql.common_effectiveness.idx_scan.t -7\n"));
    assert!(text.contains("postgresql.common_effectiveness.avg.t -9223372036854775808\n"));
    assert!(text.contains("postgresql.common_effectiveness.seq_tup_read.t 9223372036854775807\n"));
}

#[test]
fn metric_paths() {
    assert_eq!(Metric::SeqScan.path(), "postgresql.common_effectiveness.seq_scan");
    assert_eq!(Metric::Ratio.path(), "postgresql.hit_miss.ratio");
    assert_eq!(Metric::RowsInTable.path(), "postgresville.index_usage.rows_in_table");
}

#[test]
fn connection_string_names_all_four_parameters() {
    let c = ConnectionConfig::new(
        "db.local".to_string(),
        "shop".to_string(),
        "reader".to_string(),
        "pw".to_string(),
    );
    assert_eq!(c.connection_string(), "host=db.local user=reader password=pw dbname=shop");
}

#[test]
fn unreachable_host_fails_as_connection_error() {
    let mut c = Collection::new();
    assert!(c.expects(&Event::ConnectFailed));
    match c.step(Event::ConnectFailed) {
        Action::Fail(kind) => assert_eq!(kind, Failure::Connect),
        other => panic!("unexpected action {:?}", other),
    }
    assert_eq!(c.stage, Stage::Done);
}

#[test]
fn queries_run_in_order_then_render() {
    let mut c = Collection::new();
    match c.step(Event::Connected) {
        Action::Run(q) => assert_eq!(q, Query::CommonEffectiveness),
        other => panic!("unexpected action {:?}", other),
    }
    assert!(!c.expects(&Event::HitMissRows(vec![])));
    match c.step(Event::CommonEffectivenessRows(vec![table("orders", 10, 500)])) {
        Action::Run(q) => assert_eq!(q, Query::HitMiss),
        other => panic!("unexpected action {:?}", other),
    }
    match c.step(Event::HitMissRows(vec![cache(100, 900, dec(9, 1))])) {
        Action::Run(q) => assert_eq!(q, Query::IndexUsage),
        other => panic!("unexpected action {:?}", other),
    }
    let usage = vec![IndexUsage { relname: "orders".to_string(), percent_of_times_index_used: 23, rows_in_table: 7 }];
    match c.step(Event::IndexUsageRows(usage)) {
        Action::Respond(text) => {
            assert!(text.starts_with("postgresql.common_effectiveness.seq_scan.orders 10\n"));
            assert!(text.contains("postgresql.hit_miss.ratio 0.9\n"));
            assert!(text.ends_with("postgresville.index_usage.rows_in_table.orders 7\n"));
            assert_eq!(text.lines().count(), 8 + 3 + 2);
        }
        other => panic!("unexpected action {:?}", other),
    }
    assert_eq!(c.stage, Stage::Done);
}

#[test]
fn each_failure_kind_is_reported() {
    let cases = [
        (Event::PrepareFailed, Failure::Prepare),
        (Event::ExecuteFailed, Failure::Execute),
        (Event::DecodeFailed, Failure::Decode),
    ];
    for (event, kind) in cases {
        let mut c = Collection::new();
        c.step(Event::Connected);
        assert!(c.expects(&event));
        match c.step(event) {
            Action::Fail(k) => assert_eq!(k, kind),
            other => panic!("unexpected action {:?}", other),
        }
    }
}

#[test]
fn hit_miss_rows_out_of_range_are_not_expected() {
    let bad = HitMiss { heap_read: DecimalValue { mantissa: 1, scale: 29 }, heap_hit: dec(1, 0), ratio: dec(1, 0) };
    assert!(!all_valid(&vec![bad]));
    assert!(all_valid(&vec![cache(1, 1, dec(5, 1))]));
}

#[test]
fn statements_select_the_columns_in_record_order() {
    assert!(Query::CommonEffectiveness.sql().contains("seq_tup_read / seq_scan AS avg"));
    assert!(Query::HitMiss.sql().contains("FROM pg_statio_user_tables"));
    assert!(Query::IndexUsage.sql().contains("ORDER BY n_live_tup DESC"));
}

#[test]
fn refused_connection_ends_request_with_connection_error() {
    let config = ConnectionConfig::new(
        "127.0.0.1".to_string(),
        "shop".to_string(),
        "reader".to_string(),
        "pw".to_string(),
    );
    let conn = format!("{} port=1 connect_timeout=5", config.connection_string());
    let runtime = tokio::runtime::Runtime::new().unwrap();
    let outcome = runtime.block_on(async { tokio_postgres::connect(&conn, tokio_postgres::NoTls).await });
    let event = match outcome {
        Ok(_) => Event::Connected,
        Err(_) => Event::ConnectFailed,
    };
    let mut c = Collection::new();
    match c.step(event) {
        Action::Fail(kind) => assert_eq!(kind, Failure::Connect),
        other => panic!("unexpected action {:?}", other),
    }
}

#[test]
fn scan_row_columns_fill_fields_by_position() {
    let counts = (1..=8).map(|i| Some(i * 11)).collect();
    let c = common_effectiveness_from_columns(Some("orders".to_string()), counts).unwrap();
    assert_eq!(c.relname, "orders");
    assert_eq!(c.seq_scan, 11);
    assert_eq!(c.seq_tup_read, 22);
    assert_eq!(c.idx_scan, 33);
    assert_eq!(c.vacuum_full_count, 44);
    assert_eq!(c.autovacuum_count, 55);
    assert_eq!(c.analyze_count, 66);
    assert_eq!(c.autoanalyze_count, 77);
    assert_eq!(c.avg, 88);
}

#[test]
fn scan_row_with_missing_column_fails() {
    let mut counts: Vec<Option<i64>> = (1..=8).map(Some).collect();
    counts[7] = None;
    assert!(common_effectiveness_from_columns(Some("t".to_string()), counts).is_none());
    let counts: Vec<Option<i64>> = (1..=8).map(Some).collect();
    assert!(common_effectiveness_from_columns(None, counts).is_none());
}

#[test]
fn index_row_columns_fill_fields_by_position() {
    let u = index_usage_from_columns(Some("orders".to_string()), Some(23), Some(1200)).unwrap();
    assert_eq!(u.relname, "orders");
    assert_eq!(u.percent_of_times_index_used, 23);
    assert_eq!(u.rows_in_table, 1200);
    assert!(index_usage_from_columns(Some("orders".to_string()), None, Some(1)).is_none());
    assert!(index_usage_from_columns(None, Some(1), Some(1)).is_none());
}

#[test]
fn cache_row_columns_fill_fields_by_position() {
    let h = hit_miss_from_columns(Some((100, 0)), Some((900, 0)), Some((9, 1))).unwrap();
    assert_eq!(h.heap_read, dec(100, 0));
    assert_eq!(h.heap_hit, dec(900, 0));
    assert_eq!(h.ratio, dec(9, 1));
    assert!(hit_miss_from_columns(Some((100, 0)), None, Some((9, 1))).is_none());
    assert!(hit_miss_from_columns(Some((100, 0)), Some((900, 0)), Some((9, 29))).is_none());
    assert!(hit_miss_from_columns(Some((MAX_MANTISSA + 1, 0)), Some((900, 0)), Some((9, 1))).is_none());
}

#[test]
fn result_sets_become_events() {
    match common_effectiveness_rows(vec![]) {
        Event::CommonEffectivenessRows(v) => assert!(v.is_empty()),
        other => panic!("unexpected event {:?}", other),
    }
    match common_effectiveness_rows(vec![Some(table("a", 1, 2)), Some(table("b", 1, 1))]) {
        Event::CommonEffectivenessRows(v) => {
            assert_eq!(v.len(), 2);
            assert_eq!(v[0].relname, "a");
            assert_eq!(v[1].relname, "b");
        }
        other => panic!("unexpected event {:?}", other),
    }
    assert!(matches!(common_effectiveness_rows(vec![Some(table("a", 1, 2)), None]), Event::DecodeFailed));
    assert!(matches!(hit_miss_rows(vec![None]), Event::DecodeFailed));
    match hit_miss_rows(vec![Some(cache(1, 2, dec(5, 1)))]) {
        Event::HitMissRows(v) => assert_eq!(v, vec![cache(1, 2, dec(5, 1))]),
        other => panic!("unexpected event {:?}", other),
    }
    let usage = IndexUsage { relname: "x".to_string(), percent_of_times_index_used: 1, rows_in_table: 2 };
    match index_usage_rows(vec![Some(usage)]) {
        Event::IndexUsageRows(v) => assert_eq!(v[0].relname, "x"),
        other => panic!("unexpected event {:?}", other),
    }
    assert!(matches!(index_usage_rows(vec![None]), Event::DecodeFailed));
}

#[test]
fn unwrap_all_keeps_order() {
    assert_eq!(unwrap_all(vec![Some(3), Some(1), Some(2)]), Some(vec![3, 1, 2]));
    assert_eq!(unwrap_all(vec![Some(3), None, Some(2)]), None);
    assert_eq!(unwrap_all::<i32>(vec![]), Some(vec![]));
}
