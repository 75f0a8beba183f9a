use geos::connectors::{BackfillProgress, ConnectorState, ConnectorStatus};
use geos::numbers::Instant;

fn base_state() -> ConnectorState {
    ConnectorState {
        tenant_id: 0,
        source_key: "usgs".to_owned(),
        source_name: "USGS".to_owned(),
        enabled: true,
        last_live_run_at: None,
        last_backfill_cursor: None,
        backfill_complete: false,
        backfill_window_start: None,
        backfill_window_end: None,
        backfill_started_at: None,
        backfill_completed_at: None,
        backfill_events_ingested: 0,
        backfill_total_estimate: None,
        backfill_count_cursor: None,
        updated_at: Instant { secs: 1_750_000_000, nanos: 0 },
    }
}

/// The completed fraction a client is shown for a progress report.
fn fraction(p: BackfillProgress) -> f64 {
    match p {
        BackfillProgress::Complete => 1.0,
        BackfillProgress::NotStarted => 0.0,
        BackfillProgress::ByCount { done, total } => (done as f64 / total as f64).clamp(0.0, 1.0),
        BackfillProgress::ByTime { start, end, cursor } => {
            let span = (end.secs - start.secs) as f64;
            ((end.secs - cursor.secs) as f64 / span).clamp(0.0, 1.0)
        }
    }
}

fn at(rfc_seconds: i64) -> Instant {
    Instant { secs: rfc_seconds, nanos: 0 }
}

// 1900-01-01, 2010-01-01, 2020-01-01, 2023-01-01 and 2024-01-01 (UTC) in Unix seconds.
const Y1900: i64 = -2_208_988_800;
const Y2010: i64 = 1_262_304_000;
const Y2020: i64 = 1_577_836_800;
const Y2023: i64 = 1_672_531_200;
const Y2024: i64 = 1_704_067_200;

#[test]
fn fraction_is_zero_when_uninitialized() {
    assert_eq!(base_state().backfill_progress(), BackfillProgress::NotStarted);
    assert_eq!(fraction(base_state().backfill_progress()), 0.0);
}

#[test]
fn fraction_is_one_when_complete() {
    let mut state = base_state();
    state.backfill_complete = true;
    assert_eq!(fraction(state.backfill_progress()), 1.0);
}

#[test]
fn fraction_is_count_based_when_total_known() {
    let mut state = base_state();
    state.backfill_total_estimate = Some(1000);
    state.backfill_events_ingested = 250;
    assert_eq!(state.backfill_progress(), BackfillProgress::ByCount { done: 250, total: 1000 });
    assert!((fraction(state.backfill_progress()) - 0.25).abs() < f64::EPSILON);

    state.backfill_events_ingested = 1500;
    assert_eq!(fraction(state.backfill_progress()), 1.0);
}

#[test]
fn partial_total_is_not_final_during_counting() {
    let mut state = base_state();
    state.backfill_window_start = Some(at(Y1900));
    state.backfill_window_end = Some(at(Y2024));
    state.last_backfill_cursor = Some(at(Y2024));
    state.backfill_total_estimate = Some(500_000);
    state.backfill_count_cursor = Some(at(Y2010));
    state.backfill_events_ingested = 100_000;
    assert!(!state.backfill_total_final());
    assert!(state.backfill_counting());
    assert_eq!(fraction(state.backfill_progress()), 0.0);

    state.backfill_count_cursor = Some(at(Y1900));
    assert!(state.backfill_total_final());
    assert!(!state.backfill_counting());
    assert!((fraction(state.backfill_progress()) - 0.2).abs() < 1e-9);
}

#[test]
fn fraction_ignores_zero_total_and_falls_back() {
    let mut state = base_state();
    state.backfill_total_estimate = Some(0);
    state.backfill_window_start = Some(at(Y2020));
    state.backfill_window_end = Some(at(Y2024));
    state.last_backfill_cursor = Some(at(Y2024));
    assert!(!state.backfill_total_final());
    assert_eq!(fraction(state.backfill_progress()), 0.0);
}

#[test]
fn fraction_tracks_cursor_position() {
    let mut state = base_state();
    state.backfill_window_start = Some(at(Y2020));
    state.backfill_window_end = Some(at(Y2024));
    state.last_backfill_cursor = Some(at(Y2024));
    assert_eq!(fraction(state.backfill_progress()), 0.0);

    state.last_backfill_cursor = Some(at(Y2023));
    let f = fraction(state.backfill_progress());
    assert!(f > 0.2 && f < 0.3, "fraction was {f}");

    state.last_backfill_cursor = Some(at(Y2020));
    assert_eq!(fraction(state.backfill_progress()), 1.0);
}

#[test]
fn status_reports_state_fields() {
    let mut state = base_state();
    state.backfill_window_start = Some(at(Y2020));
    state.backfill_window_end = Some(at(Y2024));
    state.backfill_events_ingested = 12;
    let status = ConnectorStatus::from_state(state);
    assert_eq!(status.source_key, "usgs");
    assert!(status.enabled);
    assert!(status.backfill.initialized);
    assert!(!status.backfill.complete);
    assert_eq!(status.backfill.events_ingested, 12);
    assert!(!status.backfill.total_final);
    assert!(!status.backfill.counting);
    assert_eq!(
        status.backfill.progress,
        BackfillProgress::ByTime { start: at(Y2020), end: at(Y2024), cursor: at(Y2024) }
    );
    assert_eq!(status.backfill.progress_updated_at, at(1_750_000_000));
}
