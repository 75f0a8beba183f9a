//! Connector live-poll and historical backfill progress.
//!
//! Backfill walks a source's history newest -> oldest: `last_backfill_cursor`
//! is the oldest `occurred_at` reached, complete once the cursor reaches the
//! window start. A separate counting pass builds the total denominator.

use vstd::prelude::*;
use crate::numbers::{Instant, instant_le, instant_lt};

verus! {

/// A connector's live + backfill state joined with its source catalog entry.
pub struct ConnectorState {
    /// Owning tenant (system tenant for shared public feeds).
    pub tenant_id: u128,
    /// Stable source key (e.g. `"usgs"`).
    pub source_key: String,
    /// Human-readable source name from the catalog.
    pub source_name: String,
    /// Whether the source is enabled for ingestion.
    pub enabled: bool,
    /// Last successful live poll, if any.
    pub last_live_run_at: Option<Instant>,
    /// Oldest `occurred_at` the backfill has reached.
    pub last_backfill_cursor: Option<Instant>,
    /// Whether historical backfill has fully completed.
    pub backfill_complete: bool,
    /// Earliest target time for backfill.
    pub backfill_window_start: Option<Instant>,
    /// Latest target time for backfill (set when backfill first starts).
    pub backfill_window_end: Option<Instant>,
    /// When backfill was first initialized.
    pub backfill_started_at: Option<Instant>,
    /// When backfill completed, if it has.
    pub backfill_completed_at: Option<Instant>,
    /// Events upserted by the backfill pipeline so far.
    pub backfill_events_ingested: i64,
    /// Running total of events across the window (`None` = unknown).
    pub backfill_total_estimate: Option<i64>,
    /// Oldest time the counting pass has reached (`None` = not started).
    pub backfill_count_cursor: Option<Instant>,
    /// Row last updated.
    pub updated_at: Instant,
}

/// How far a backfill has progressed, as the quantities its completed fraction
/// is computed from.
#[derive(Debug, Clone, Copy, PartialEq, Eq, Structural)]
pub enum BackfillProgress {
    /// Backfill finished: fraction 1.
    Complete,
    /// The total is final: fraction `done / total`, clamped to `[0, 1]`.
    ByCount {
        /// Events ingested so far (never negative).
        done: i64,
        /// The final total (always positive).
        total: i64,
    },
    /// Time coverage: fraction `(end - cursor) / (end - start)` in seconds,
    /// clamped to `[0, 1]`; `start < end`.
    ByTime {
        /// Window start.
        start: Instant,
        /// Window end.
        end: Instant,
        /// Oldest time reached (the window end before the first chunk).
        cursor: Instant,
    },
    /// No window yet: fraction 0.
    NotStarted,
}

/// Whether the total-count denominator is final.
pub open spec fn total_is_final(s: ConnectorState) -> bool {
    match s.backfill_total_estimate {
        Some(total) => total > 0 && match (s.backfill_count_cursor, s.backfill_window_start) {
            (Some(cursor), Some(start)) => instant_le(cursor, start),
            (None, _) => true,
            _ => false,
        },
        None => false,
    }
}

/// The progress a state reports.
pub open spec fn progress_of(s: ConnectorState) -> BackfillProgress {
    if s.backfill_complete {
        BackfillProgress::Complete
    } else if total_is_final(s) {
        BackfillProgress::ByCount {
            done: if s.backfill_events_ingested > 0 { s.backfill_events_ingested } else { 0 },
            total: s.backfill_total_estimate->0,
        }
    } else if s.backfill_window_start is Some && s.backfill_window_end is Some
        && instant_lt(s.backfill_window_start->0, s.backfill_window_end->0) {
        BackfillProgress::ByTime {
            start: s.backfill_window_start->0,
            end: s.backfill_window_end->0,
            cursor: match s.last_backfill_cursor { Some(c) => c, None => s.backfill_window_end->0 },
        }
    } else {
        BackfillProgress::NotStarted
    }
}

/// Whether the counting pass is running: started, not yet at the window
/// start, and backfill not complete.
pub open spec fn counting_in_progress(s: ConnectorState) -> bool {
    !s.backfill_complete && !total_is_final(s) && s.backfill_count_cursor is Some
        && s.backfill_window_start is Some
        && instant_lt(s.backfill_window_start->0, s.backfill_count_cursor->0)
}

impl ConnectorState {
    /// Whether the total-count denominator is final: a positive total whose
    /// counting cursor reached the window start, or a positive total set
    /// directly (no counting cursor).
    pub fn backfill_total_final(&self) -> (r: bool)
        ensures r == total_is_final(*self),
    {
        match self.backfill_total_estimate {
            Some(total) => {
                if total > 0 {
                    match (self.backfill_count_cursor, self.backfill_window_start) {
                        (Some(cursor), Some(start)) => cursor.le(&start),
                        (None, _) => true,
                        _ => false,
                    }
                } else {
                    false
                }
            },
            None => false,
        }
    }

    /// Progress of the backfill: complete; by event count once the total is
    /// final; otherwise by time coverage across the window; or not started.
    pub fn backfill_progress(&self) -> (p: BackfillProgress)
        ensures p == progress_of(*self),
    {
        if self.backfill_complete {
            return BackfillProgress::Complete;
        }
        if self.backfill_total_final() {
            if let Some(total) = self.backfill_total_estimate {
                let done = if self.backfill_events_ingested > 0 { self.backfill_events_ingested } else { 0 };
                return BackfillProgress::ByCount { done, total };
            }
        }
        match (self.backfill_window_start, self.backfill_window_end) {
            (Some(start), Some(end)) => {
                if start.lt(&end) {
                    let cursor = match self.last_backfill_cursor { Some(c) => c, None => end };
                    BackfillProgress::ByTime { start, end, cursor }
                } else {
                    BackfillProgress::NotStarted
                }
            },
            _ => BackfillProgress::NotStarted,
        }
    }

    /// Whether backfill has been initialized (a target window is set).
    pub fn backfill_initialized(&self) -> (r: bool)
        ensures r == self.backfill_window_end is Some,
    {
        self.backfill_window_end.is_some()
    }

    /// Whether the total denominator is still being counted in the background.
    pub fn backfill_counting(&self) -> (r: bool)
        ensures r == counting_in_progress(*self),
    {
        if self.backfill_complete || self.backfill_total_final() {
            return false;
        }
        match (self.backfill_count_cursor, self.backfill_window_start) {
            (Some(cursor), Some(start)) => start.lt(&cursor),
            _ => false,
        }
    }
}

/// Progress is well-founded: a count-based fraction has a non-negative
/// numerator over a positive total, a time-based one a non-empty window; a
/// complete backfill always reports completion; and a final total and a running
/// count never coincide.
pub proof fn progress_is_well_founded(s: ConnectorState)
    ensures
        s.backfill_complete ==> progress_of(s) == BackfillProgress::Complete,
        progress_of(s) matches BackfillProgress::ByCount { done, total } ==> 0 <= done && 0 < total,
        progress_of(s) matches BackfillProgress::ByTime { start, end, cursor } ==> instant_lt(start, end),
        !(total_is_final(s) && counting_in_progress(s)),
        counting_in_progress(s) ==> !(progress_of(s) is ByCount),
{
}

/// Backfill status of a connector as reported to clients; the completed
/// fraction (a float) is derived from `progress` where it is rendered.
pub struct BackfillStatus {
    /// A target window has been set.
    pub initialized: bool,
    /// Backfill has completed.
    pub complete: bool,
    /// The quantities the completed fraction is computed from.
    pub progress: BackfillProgress,
    /// Events upserted by backfill so far.
    pub events_ingested: i64,
    /// Running total across the window (partial while counting).
    pub total_estimate: Option<i64>,
    /// The total is final, so progress is count-based.
    pub total_final: bool,
    /// The total is still being counted.
    pub counting: bool,
    pub window_start: Option<Instant>,
    pub window_end: Option<Instant>,
    /// Oldest `occurred_at` reached so far.
    pub cursor: Option<Instant>,
    pub started_at: Option<Instant>,
    pub completed_at: Option<Instant>,
    /// When the progress row was last updated.
    pub progress_updated_at: Instant,
}

/// Live and backfill status of one connector.
pub struct ConnectorStatus {
    pub source_key: String,
    pub source_name: String,
    pub enabled: bool,
    /// Last successful live poll.
    pub last_live_run_at: Option<Instant>,
    pub backfill: BackfillStatus,
}

impl ConnectorStatus {
    /// The status a connector's state reports.
    pub fn from_state(state: ConnectorState) -> (st: ConnectorStatus)
        ensures
            st.source_key == state.source_key,
            st.source_name == state.source_name,
            st.enabled == state.enabled,
            st.last_live_run_at == state.last_live_run_at,
            st.backfill.initialized == (state.backfill_window_end is Some),
            st.backfill.complete == state.backfill_complete,
            st.backfill.progress == progress_of(state),
            st.backfill.events_ingested == state.backfill_events_ingested,
            st.backfill.total_estimate == state.backfill_total_estimate,
            st.backfill.total_final == total_is_final(state),
            st.backfill.counting == counting_in_progress(state),
            st.backfill.window_start == state.backfill_window_start,
            st.backfill.window_end == state.backfill_window_end,
            st.backfill.cursor == state.last_backfill_cursor,
            st.backfill.started_at == state.backfill_started_at,
            st.backfill.completed_at == state.backfill_completed_at,
            st.backfill.progress_updated_at == state.updated_at,
    {
        let progress = state.backfill_progress();
        let total_final = state.backfill_total_final();
        let counting = state.backfill_counting();
        let initialized = state.backfill_initialized();
        ConnectorStatus {
            source_key: state.source_key,
            source_name: state.source_name,
            enabled: state.enabled,
            last_live_run_at: state.last_live_run_at,
            backfill: BackfillStatus {
                initialized,
                complete: state.backfill_complete,
                progress,
                events_ingested: state.backfill_events_ingested,
                total_estimate: state.backfill_total_estimate,
                total_final,
                counting,
                window_start: state.backfill_window_start,
                window_end: state.backfill_window_end,
                cursor: state.last_backfill_cursor,
                started_at: state.backfill_started_at,
                completed_at: state.backfill_completed_at,
                progress_updated_at: state.updated_at,
            },
        }
    }
}

} // verus!
