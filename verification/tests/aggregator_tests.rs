use rust_notify::aggregator::ChangeAggregator;
use rust_notify::changes::ChangeKind;
use rust_notify::changes::ChangeRecord;

fn rec(kind: ChangeKind, path: &str) -> ChangeRecord {
    ChangeRecord { kind, path: path.to_string() }
}

fn coded(records: Vec<ChangeRecord>) -> Vec<(u8, String)> {
    let mut out: Vec<(u8, String)> = records.into_iter().map(|r| (r.kind.code(), r.path)).collect();
    out.sort();
    out
}

#[test]
fn kind_codes_are_stable() {
    assert_eq!(ChangeKind::Added.code(), 1);
    assert_eq!(ChangeKind::Modified.code(), 2);
    assert_eq!(ChangeKind::Deleted.code(), 3);
}

#[test]
fn record_deduplicates() {
    let mut agg = ChangeAggregator::new();
    agg.record(rec(ChangeKind::Added, "/tmp/a"));
    agg.record(rec(ChangeKind::Added, "/tmp/a"));
    agg.record(rec(ChangeKind::Modified, "/tmp/a"));
    assert_eq!(agg.len(), 2);
    let batch = coded(agg.snapshot_and_clear());
    assert_eq!(batch, vec![(1, "/tmp/a".to_string()), (2, "/tmp/a".to_string())]);
}

#[test]
fn records_differing_only_in_kind_are_distinct() {
    let mut agg = ChangeAggregator::new();
    agg.record(rec(ChangeKind::Added, "/p"));
    agg.record(rec(ChangeKind::Deleted, "/p"));
    assert_eq!(agg.len(), 2);
}

#[test]
fn snapshot_and_clear_round_trip() {
    let mut agg = ChangeAggregator::new();
    agg.record(rec(ChangeKind::Added, "/x"));
    agg.fail("kept".to_string());
    let batch = agg.snapshot_and_clear();
    assert_eq!(batch.len(), 1);
    // Immediately afterwards the batch reads empty and the error slot is
    // unaffected.
    assert_eq!(agg.len(), 0);
    assert_eq!(agg.take_error(), Some("kept".to_string()));
}

#[test]
fn first_error_wins() {
    let mut agg = ChangeAggregator::new();
    agg.fail("first".to_string());
    agg.fail("second".to_string());
    assert_eq!(agg.take_error(), Some("first".to_string()));
    assert_eq!(agg.take_error(), None);
}

#[test]
fn clear_discards_batch_but_not_error() {
    let mut agg = ChangeAggregator::new();
    agg.record(rec(ChangeKind::Deleted, "/y"));
    agg.fail("oops".to_string());
    agg.clear();
    assert_eq!(agg.len(), 0);
    assert_eq!(agg.take_error(), Some("oops".to_string()));
}

#[test]
fn contains_checks_full_pair() {
    let mut agg = ChangeAggregator::new();
    agg.record(rec(ChangeKind::Added, "/z"));
    assert!(agg.contains(&rec(ChangeKind::Added, "/z")));
    assert!(!agg.contains(&rec(ChangeKind::Modified, "/z")));
    assert!(!agg.contains(&rec(ChangeKind::Added, "/other")));
}
