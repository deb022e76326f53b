//! Decisions of the polling loop.  The loop itself performs I/O and lives
//! with the callers; what to fetch on a tick and how fetched or failed
//! results change the store is decided and proved here.
//!
//! Per tick the heap, collection counters and threads are always fetched;
//! the class histogram, which is expensive, only on every
//! `CLASS_HISTOGRAM_DECIMATION`-th tick, starting with the first.  A failed
//! fetch is dropped for that tick alone: the store keeps its last value and
//! the other results still land.

use vstd::prelude::*;
use crate::ring_buffer::ring_push;
use crate::store::MetricsStore;
use crate::types::{ClassInfo, GcStats, HeapInfo, ThreadInfo};

verus! {

/// Every how many ticks the class histogram is attempted.
pub const CLASS_HISTOGRAM_DECIMATION: u64 = 10;

/// What one tick of the polling loop should fetch.
#[derive(Debug, Clone, Copy, PartialEq, Eq, Structural)]
pub struct TickPlan {
    pub fetch_heap: bool,
    pub fetch_gc: bool,
    pub fetch_threads: bool,
    pub fetch_class_histogram: bool,
}

/// Tick bookkeeping of one collection session.
pub struct MetricsCollector {
    /// Poll interval handed to the runner, in milliseconds.
    pub interval_ms: u64,
    /// Ticks issued so far; wraps around at the integer bound.
    pub tick_count: u64,
}

impl MetricsCollector {
    pub fn new(interval_ms: u64) -> (r: Self)
        ensures
            r.interval_ms == interval_ms,
            r.tick_count == 0,
    {
        Self { interval_ms, tick_count: 0 }
    }

    /// Issues the next tick: heap, counters and threads are always fetched,
    /// the class histogram exactly on every tenth tick (0, 10, 20, ...).
    pub fn plan_tick(&mut self) -> (p: TickPlan)
        ensures
            p.fetch_heap,
            p.fetch_gc,
            p.fetch_threads,
            p.fetch_class_histogram == (old(self).tick_count % CLASS_HISTOGRAM_DECIMATION == 0),
            final(self).tick_count == if old(self).tick_count == u64::MAX {
                0u64
            } else {
                (old(self).tick_count + 1) as u64
            },
            final(self).interval_ms == old(self).interval_ms,
    {
        let tick = self.tick_count;
        self.tick_count = if self.tick_count == u64::MAX {
            0
        } else {
            self.tick_count + 1
        };
        TickPlan {
            fetch_heap: true,
            fetch_gc: true,
            fetch_threads: true,
            fetch_class_histogram: tick % CLASS_HISTOGRAM_DECIMATION == 0,
        }
    }
}

/// Writes one tick's results into the store.  A `None` stands for a fetch
/// that failed or was not planned; it changes nothing, and never blocks the
/// other results.
pub fn apply_tick_results(
    store: &mut MetricsStore,
    heap: Option<HeapInfo>,
    gc: Option<GcStats>,
    threads: Option<Vec<ThreadInfo>>,
    classes: Option<Vec<ClassInfo>>,
)
    ensures
        final(store).heap_history@ == match heap {
            Some(h) => ring_push(
                old(store).heap_history.spec_capacity(),
                old(store).heap_history@,
                h,
            ),
            None => old(store).heap_history@,
        },
        final(store).gc_history@ == match gc {
            Some(g) => ring_push(old(store).gc_history.spec_capacity(), old(store).gc_history@, g),
            None => old(store).gc_history@,
        },
        final(store).thread_snapshot == match threads {
            Some(t) => t,
            None => old(store).thread_snapshot,
        },
        final(store).class_histogram == match classes {
            Some(c) => c,
            None => old(store).class_histogram,
        },
        final(store).heap_history.spec_capacity() == old(store).heap_history.spec_capacity(),
        final(store).gc_history.spec_capacity() == old(store).gc_history.spec_capacity(),
{
    match heap {
        Some(h) => store.record_heap(h),
        None => (),
    }
    match gc {
        Some(g) => store.record_gc(g),
        None => (),
    }
    match threads {
        Some(t) => store.record_threads(t),
        None => (),
    }
    match classes {
        Some(c) => store.record_class_histogram(c),
        None => (),
    }
}

} // verus!
