use jvm_tui::collector::{apply_tick_results, MetricsCollector, CLASS_HISTOGRAM_DECIMATION};
use jvm_tui::ring_buffer::RingBuffer;
use jvm_tui::store::MetricsStore;
use jvm_tui::types::{ClassInfo, GcStats, HeapInfo, ThreadInfo, ThreadState};

#[test]
fn test_ring_buffer_basic() {
    let mut buffer = RingBuffer::new(3);
    assert!(buffer.is_empty());
    assert_eq!(buffer.len(), 0);

    buffer.push(1);
    buffer.push(2);
    buffer.push(3);

    assert_eq!(buffer.len(), 3);
    let values: Vec<i32> = buffer.iter().into_iter().copied().collect();
    assert_eq!(values, vec![1, 2, 3]);
}

#[test]
fn test_ring_buffer_overflow() {
    let mut buffer = RingBuffer::new(3);

    buffer.push(1);
    buffer.push(2);
    buffer.push(3);
    buffer.push(4);

    assert_eq!(buffer.len(), 3);
    let values: Vec<i32> = buffer.iter().into_iter().copied().collect();
    assert_eq!(values, vec![2, 3, 4]);

    buffer.push(5);
    buffer.push(6);

    assert_eq!(buffer.len(), 3);
    let values: Vec<i32> = buffer.iter().into_iter().copied().collect();
    assert_eq!(values, vec![4, 5, 6]);
}

#[test]
fn test_ring_buffer_with_strings() {
    let mut buffer = RingBuffer::new(2);

    buffer.push("first".to_string());
    buffer.push("second".to_string());
    buffer.push("third".to_string());

    let values: Vec<&str> = buffer.iter().into_iter().map(|s| s.as_str()).collect();
    assert_eq!(values, vec!["second", "third"]);
}

#[test]
fn ring_buffer_history_is_last_min_n_c() {
    // push N = 10 values into capacity C = 4: exactly the last 4 remain
    let mut buffer = RingBuffer::new(4);
    for i in 0..10u64 {
        buffer.push(i);
    }
    assert_eq!(buffer.len(), 4);
    let values: Vec<u64> = buffer.iter().into_iter().copied().collect();
    assert_eq!(values, vec![6, 7, 8, 9]);

    // N = 2 below capacity C = 4: all of them, in push order
    let mut small = RingBuffer::new(4);
    small.push(100u64);
    small.push(200u64);
    assert_eq!(small.len(), 2);
    let values: Vec<u64> = small.iter().into_iter().copied().collect();
    assert_eq!(values, vec![100, 200]);
}

fn heap(used: u64) -> HeapInfo {
    HeapInfo { used_bytes: used, max_bytes: used * 2, committed_bytes: used * 2, pools: vec![] }
}

fn gc(young: u64) -> GcStats {
    GcStats {
        young_gc_count: young,
        young_gc_time_ms: young * 10,
        old_gc_count: 0,
        old_gc_time_ms: 0,
        timestamp_ms: 0,
    }
}

#[test]
fn store_records_each_kind() {
    let mut store = MetricsStore::new(2);
    store.record_heap(heap(1));
    store.record_heap(heap(2));
    store.record_heap(heap(3));
    assert_eq!(store.heap_history.len(), 2);
    let used: Vec<u64> = store.heap_history.iter().into_iter().map(|h| h.used_bytes).collect();
    assert_eq!(used, vec![2, 3]);

    store.record_gc(gc(7));
    assert_eq!(store.gc_history.len(), 1);

    store.record_threads(vec![ThreadInfo {
        id: 1,
        name: "main".to_string(),
        state: ThreadState::Runnable,
        stack_trace: vec![],
    }]);
    assert_eq!(store.thread_snapshot.len(), 1);

    store.record_class_histogram(vec![ClassInfo {
        rank: 1,
        instances: 10,
        bytes: 100,
        name: "java.lang.String".to_string(),
    }]);
    assert_eq!(store.class_histogram.len(), 1);
}

#[test]
fn collector_decimates_class_histogram() {
    // 20 ticks at decimation factor 10: histogram attempted exactly on
    // ticks 0 and 10, the cheap probes on all 20
    assert_eq!(CLASS_HISTOGRAM_DECIMATION, 10);
    let mut collector = MetricsCollector::new(1000);
    let mut histogram_attempts = 0u64;
    let mut heap_attempts = 0u64;
    let mut histogram_ticks: Vec<u64> = Vec::new();
    for tick in 0..20u64 {
        let plan = collector.plan_tick();
        assert!(plan.fetch_heap);
        assert!(plan.fetch_gc);
        assert!(plan.fetch_threads);
        heap_attempts += 1;
        if plan.fetch_class_histogram {
            histogram_attempts += 1;
            histogram_ticks.push(tick);
        }
    }
    assert_eq!(heap_attempts, 20);
    assert_eq!(histogram_attempts, 2);
    assert_eq!(histogram_ticks, vec![0, 10]);
}

#[test]
fn failed_fetches_never_block_the_others() {
    let mut store = MetricsStore::new(4);
    store.record_threads(vec![ThreadInfo {
        id: 9,
        name: "keeper".to_string(),
        state: ThreadState::Blocked,
        stack_trace: vec![],
    }]);

    // heap fetch failed this tick; GC landed; threads fetch failed; no
    // histogram planned
    apply_tick_results(&mut store, None, Some(gc(3)), None, None);

    assert_eq!(store.heap_history.len(), 0);
    assert_eq!(store.gc_history.len(), 1);
    // the last-known thread snapshot stays visible
    assert_eq!(store.thread_snapshot.len(), 1);
    assert_eq!(store.thread_snapshot[0].name, "keeper");

    apply_tick_results(&mut store, Some(heap(5)), None, None, Some(vec![]));
    assert_eq!(store.heap_history.len(), 1);
    assert_eq!(store.gc_history.len(), 1);
    assert_eq!(store.class_histogram.len(), 0);
}

#[test]
fn ring_buffer_capacity_zero_holds_nothing() {
    let mut buffer: RingBuffer<u32> = RingBuffer::new(0);
    buffer.push(1);
    buffer.push(2);
    assert!(buffer.is_empty());
    assert_eq!(buffer.len(), 0);
}
