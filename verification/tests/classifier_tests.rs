use rust_notify::aggregator::ChangeAggregator;
use rust_notify::classify::apply_cookie_rename;
use rust_notify::classify::apply_event;
use rust_notify::classify::apply_watch_failure;
use rust_notify::classify::CookieTracker;
use rust_notify::classify::RawEventKind;

fn batch_codes(agg: &mut ChangeAggregator) -> Vec<(u8, String)> {
    let mut out: Vec<(u8, String)> =
        agg.snapshot_and_clear().into_iter().map(|r| (r.kind.code(), r.path)).collect();
    out.sort();
    out
}

#[test]
fn created_then_modified_keeps_only_added() {
    let mut agg = ChangeAggregator::new();
    apply_event(&mut agg, RawEventKind::Create, "/f".to_string(), true);
    apply_event(&mut agg, RawEventKind::ModifyData, "/f".to_string(), true);
    assert_eq!(batch_codes(&mut agg), vec![(1, "/f".to_string())]);
}

#[test]
fn created_then_metadata_touch_keeps_only_added() {
    let mut agg = ChangeAggregator::new();
    apply_event(&mut agg, RawEventKind::Create, "/f".to_string(), true);
    apply_event(&mut agg, RawEventKind::ModifyMetadata, "/f".to_string(), true);
    assert_eq!(batch_codes(&mut agg), vec![(1, "/f".to_string())]);
}

#[test]
fn created_then_deleted_suppresses_modification_noise() {
    let mut agg = ChangeAggregator::new();
    apply_event(&mut agg, RawEventKind::Create, "/f".to_string(), true);
    apply_event(&mut agg, RawEventKind::Remove, "/f".to_string(), false);
    apply_event(&mut agg, RawEventKind::ModifyAny, "/f".to_string(), false);
    // Both transition records stand; the modification never appears.
    assert_eq!(batch_codes(&mut agg), vec![(1, "/f".to_string()), (3, "/f".to_string())]);
}

#[test]
fn plain_modification_resolves_to_modified() {
    let mut agg = ChangeAggregator::new();
    apply_event(&mut agg, RawEventKind::ModifyData, "/f".to_string(), true);
    apply_event(&mut agg, RawEventKind::ModifyOther, "/g".to_string(), true);
    assert_eq!(
        batch_codes(&mut agg),
        vec![(2, "/f".to_string()), (2, "/g".to_string())]
    );
}

#[test]
fn directional_rename_yields_deleted_from_and_added_to() {
    let mut agg = ChangeAggregator::new();
    apply_event(&mut agg, RawEventKind::RenameFrom, "/a".to_string(), false);
    apply_event(&mut agg, RawEventKind::RenameTo, "/b".to_string(), true);
    apply_event(&mut agg, RawEventKind::RenameBoth, "/a".to_string(), true);
    assert_eq!(batch_codes(&mut agg), vec![(1, "/b".to_string()), (3, "/a".to_string())]);
}

#[test]
fn undirected_rename_uses_liveness_probe() {
    let mut agg = ChangeAggregator::new();
    apply_event(&mut agg, RawEventKind::RenameUnknown, "/live".to_string(), true);
    apply_event(&mut agg, RawEventKind::RenameUnknown, "/gone".to_string(), false);
    assert_eq!(
        batch_codes(&mut agg),
        vec![(1, "/live".to_string()), (3, "/gone".to_string())]
    );
}

#[test]
fn unrecognized_event_is_dropped() {
    let mut agg = ChangeAggregator::new();
    apply_event(&mut agg, RawEventKind::Other, "/f".to_string(), true);
    assert_eq!(agg.len(), 0);
}

#[test]
fn io_not_found_failure_becomes_deleted_records() {
    let mut agg = ChangeAggregator::new();
    let paths = vec!["/gone1".to_string(), "/gone2".to_string()];
    apply_watch_failure(&mut agg, true, &paths, "unused".to_string());
    assert_eq!(agg.take_error(), None);
    assert_eq!(
        batch_codes(&mut agg),
        vec![(3, "/gone1".to_string()), (3, "/gone2".to_string())]
    );
}

#[test]
fn other_failures_fill_the_error_slot() {
    let mut agg = ChangeAggregator::new();
    let paths = vec!["/p".to_string()];
    apply_watch_failure(&mut agg, false, &paths, "error in underlying watcher: x".to_string());
    assert_eq!(agg.len(), 0);
    assert_eq!(agg.take_error(), Some("error in underlying watcher: x".to_string()));
}

#[test]
fn cookie_halves_pair_up() {
    let mut agg = ChangeAggregator::new();
    let mut tracker = CookieTracker::new();
    apply_cookie_rename(&mut agg, &mut tracker, Some(7), "/old".to_string());
    apply_cookie_rename(&mut agg, &mut tracker, Some(7), "/new".to_string());
    assert_eq!(batch_codes(&mut agg), vec![(1, "/new".to_string()), (3, "/old".to_string())]);
}

#[test]
fn interleaved_cookies_resolve_independently() {
    let mut agg = ChangeAggregator::new();
    let mut tracker = CookieTracker::new();
    apply_cookie_rename(&mut agg, &mut tracker, Some(1), "/a-old".to_string());
    apply_cookie_rename(&mut agg, &mut tracker, Some(2), "/b-old".to_string());
    apply_cookie_rename(&mut agg, &mut tracker, Some(2), "/b-new".to_string());
    apply_cookie_rename(&mut agg, &mut tracker, Some(1), "/a-new".to_string());
    assert_eq!(
        batch_codes(&mut agg),
        vec![
            (1, "/a-new".to_string()),
            (1, "/b-new".to_string()),
            (3, "/a-old".to_string()),
            (3, "/b-old".to_string()),
        ]
    );
}

#[test]
fn missing_cookie_classifies_nothing() {
    let mut agg = ChangeAggregator::new();
    let mut tracker = CookieTracker::new();
    apply_cookie_rename(&mut agg, &mut tracker, None, "/x".to_string());
    assert_eq!(agg.len(), 0);
}
