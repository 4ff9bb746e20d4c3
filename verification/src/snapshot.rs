//! Per-iteration counters read from the stack around each increment.
use vstd::prelude::*;

verus! {

/// Counters read from the stack. Retry sleep is an order key (see `stats`).
#[derive(Debug, Clone, Copy, PartialEq, Eq, Structural)]
pub struct StackSnapshot {
    pub boson_queued: u32,
    pub spectra_events: u32,
    pub spectra_gauges: u32,
    pub spectra_counters: u32,
    pub db_retry_count: u32,
    pub db_retry_total_sleep_ms_key: u64,
}

pub open spec fn saturating_sub_u32(a: u32, b: u32) -> u32 {
    if a >= b { (a - b) as u32 } else { 0 }
}

impl Default for StackSnapshot {
    fn default() -> (s: Self)
        ensures
            s == (StackSnapshot {
                boson_queued: 0,
                spectra_events: 0,
                spectra_gauges: 0,
                spectra_counters: 0,
                db_retry_count: 0,
                db_retry_total_sleep_ms_key: 0,
            }),
    {
        StackSnapshot {
            boson_queued: 0,
            spectra_events: 0,
            spectra_gauges: 0,
            spectra_counters: 0,
            db_retry_count: 0,
            db_retry_total_sleep_ms_key: 0,
        }
    }
}

impl StackSnapshot {
    /// What one iteration added: the event, gauge and retry totals minus
    /// their values before the iteration (never below zero); queued jobs,
    /// counter series and retry sleep as read after it.
    pub fn iteration_delta(
        full: StackSnapshot,
        events_before: u32,
        gauges_before: u32,
        retry_before: u32,
    ) -> (d: StackSnapshot)
        ensures
            d == (StackSnapshot {
                boson_queued: full.boson_queued,
                spectra_events: saturating_sub_u32(full.spectra_events, events_before),
                spectra_gauges: saturating_sub_u32(full.spectra_gauges, gauges_before),
                spectra_counters: full.spectra_counters,
                db_retry_count: saturating_sub_u32(full.db_retry_count, retry_before),
                db_retry_total_sleep_ms_key: full.db_retry_total_sleep_ms_key,
            }),
    {
        StackSnapshot {
            boson_queued: full.boson_queued,
            spectra_events: full.spectra_events.saturating_sub(events_before),
            spectra_gauges: full.spectra_gauges.saturating_sub(gauges_before),
            spectra_counters: full.spectra_counters,
            db_retry_count: full.db_retry_count.saturating_sub(retry_before),
            db_retry_total_sleep_ms_key: full.db_retry_total_sleep_ms_key,
        }
    }
}

} // verus!
