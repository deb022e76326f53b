//! Bounded-history container for the collected telemetry.  Time series only
//! grow by append; thread and class snapshots are replaced wholesale.

use vstd::prelude::*;
use crate::ring_buffer::{RingBuffer, ring_push};
use crate::types::{ClassInfo, GcStats, HeapInfo, ThreadInfo};

verus! {

#[derive(Clone)]
pub struct MetricsStore {
    pub heap_history: RingBuffer<HeapInfo>,
    pub gc_history: RingBuffer<GcStats>,
    pub thread_snapshot: Vec<ThreadInfo>,
    pub class_histogram: Vec<ClassInfo>,
}

impl MetricsStore {
    pub fn new(history_size: usize) -> (r: Self)
        ensures
            r.heap_history@ =~= Seq::<HeapInfo>::empty(),
            r.gc_history@ =~= Seq::<GcStats>::empty(),
            r.heap_history.spec_capacity() == history_size,
            r.gc_history.spec_capacity() == history_size,
            r.thread_snapshot@ =~= Seq::<ThreadInfo>::empty(),
            r.class_histogram@ =~= Seq::<ClassInfo>::empty(),
    {
        Self {
            heap_history: RingBuffer::new(history_size),
            gc_history: RingBuffer::new(history_size),
            thread_snapshot: Vec::new(),
            class_histogram: Vec::new(),
        }
    }

    pub fn record_heap(&mut self, info: HeapInfo)
        ensures
            final(self).heap_history@ == ring_push(
                old(self).heap_history.spec_capacity(),
                old(self).heap_history@,
                info,
            ),
            final(self).heap_history.spec_capacity() == old(self).heap_history.spec_capacity(),
            final(self).gc_history == old(self).gc_history,
            final(self).thread_snapshot == old(self).thread_snapshot,
            final(self).class_histogram == old(self).class_histogram,
    {
        self.heap_history.push(info);
    }

    pub fn record_gc(&mut self, stats: GcStats)
        ensures
            final(self).gc_history@ == ring_push(
                old(self).gc_history.spec_capacity(),
                old(self).gc_history@,
                stats,
            ),
            final(self).gc_history.spec_capacity() == old(self).gc_history.spec_capacity(),
            final(self).heap_history == old(self).heap_history,
            final(self).thread_snapshot == old(self).thread_snapshot,
            final(self).class_histogram == old(self).class_histogram,
    {
        self.gc_history.push(stats);
    }

    pub fn record_threads(&mut self, threads: Vec<ThreadInfo>)
        ensures
            final(self).thread_snapshot == threads,
            final(self).heap_history == old(self).heap_history,
            final(self).gc_history == old(self).gc_history,
            final(self).class_histogram == old(self).class_histogram,
    {
        self.thread_snapshot = threads;
    }

    pub fn record_class_histogram(&mut self, classes: Vec<ClassInfo>)
        ensures
            final(self).class_histogram == classes,
            final(self).heap_history == old(self).heap_history,
            final(self).gc_history == old(self).gc_history,
            final(self).thread_snapshot == old(self).thread_snapshot,
    {
        self.class_histogram = classes;
    }
}

} // verus!
