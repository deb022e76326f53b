use jvm_tui::jcmd::{
    parse_class_histogram, parse_heap_info, parse_jvm_version, parse_thread_dump, parse_vm_flags,
    parse_vm_uptime,
};
use jvm_tui::jstat::parse_gc_stats;
use jvm_tui::types::ThreadState;

fn sample_heap_info() -> String {
    let mut s = String::new();
    s.push_str("19216:\n");
    s.push_str(" garbage-first heap   total 798720K, used 618493K [0x0000000603000000, 0x0000000800000000)\n");
    s.push_str("  region size 4096K, 91 young (372736K), 14 survivors (57344K)\n");
    s.push_str(" Metaspace       used 505590K, committed 509440K, reserved 1556480K\n");
    s.push_str("  class space    used 66296K, committed 68096K, reserved 1048576K\n");
    s
}

#[test]
fn test_parse_heap_info() {
    let output = sample_heap_info();
    let heap = parse_heap_info(&output).unwrap();

    assert_eq!(heap.used_bytes, 618493 * 1024);
    assert_eq!(heap.max_bytes, 798720 * 1024);
    assert_eq!(heap.pools.len(), 2);

    let metaspace = &heap.pools[0];
    assert_eq!(metaspace.name, "Metaspace");
    assert_eq!(metaspace.used_bytes, 505590 * 1024);
}

#[test]
fn heap_parser_extracts_pair_and_metaspace_pool() {
    // a minimal report: one total/used line and one metaspace line
    let output = "total 798720K, used 618493K\nMetaspace used 505590K, committed 509440K, reserved 1556480K\n";
    let heap = parse_heap_info(output).unwrap();
    assert_eq!(heap.used_bytes, 618493 * 1024);
    assert_eq!(heap.max_bytes, 798720 * 1024);
    assert_eq!(heap.committed_bytes, 798720 * 1024);
    assert_eq!(heap.pools.len(), 1);
    assert_eq!(heap.pools[0].name, "Metaspace");
    assert_eq!(heap.pools[0].used_bytes, 505590 * 1024);
    assert_eq!(heap.pools[0].committed_bytes, 509440 * 1024);
    assert_eq!(heap.pools[0].max_bytes, 1556480 * 1024);
}

#[test]
fn heap_parser_fails_without_pair_or_pool() {
    assert!(parse_heap_info("no heap report here\n").is_err());
    assert!(parse_heap_info("").is_err());
}

#[test]
fn heap_parser_last_pair_wins() {
    let output = "total 100K, used 50K\ntotal 200K, used 75K\n";
    let heap = parse_heap_info(output).unwrap();
    assert_eq!(heap.max_bytes, 200 * 1024);
    assert_eq!(heap.used_bytes, 75 * 1024);
    assert!(heap.pools.is_empty());
}

#[test]
fn heap_parser_rejects_oversized_figures() {
    // 2^64 kibibytes cannot be scaled to bytes in the result type
    let output = "total 18446744073709551616K, used 1K\n";
    assert!(parse_heap_info(output).is_err());
}

#[test]
fn test_parse_jvm_version() {
    let output = "19216:\nOpenJDK 64-Bit Server VM version 21.0.8+9-LTS\nJDK 21.0.8\n";
    let version = parse_jvm_version(output).unwrap();
    assert_eq!(version, "21.0.8");
}

#[test]
fn version_parser_requires_jdk_line() {
    assert!(parse_jvm_version("21.0.8\n").is_err());
    assert!(parse_jvm_version("JDK\n").is_err());
    assert!(parse_jvm_version("JDKX 21.0.8\n").is_err());
}

#[test]
fn test_parse_vm_uptime() {
    let output = "19216:\n390327.055 s\n";
    let uptime = parse_vm_uptime(output).unwrap();
    assert_eq!(uptime, 390327);
}

#[test]
fn uptime_parser_requires_decimal_figure() {
    assert!(parse_vm_uptime("19216:\nup for a while\n").is_err());
    assert!(parse_vm_uptime("390327 s\n").is_err());
}

#[test]
fn test_parse_vm_flags() {
    let output = "19216:\n-XX:CICompilerCount=12 -XX:ConcGCThreads=3 -XX:G1HeapRegionSize=4194304 \
                  -XX:GCDrainStackTargetSize=64 -XX:InitialHeapSize=536870912 -XX:MarkStackSize=4194304 \
                  -XX:MaxHeapSize=8388608000 -XX:MinHeapDeltaBytes=4194304 -XX:+UseG1GC \
                  -XX:+HeapDumpOnOutOfMemoryError -XX:ReservedCodeCacheSize=251658240 -XX:+SegmentedCodeCache\n";
    let flags = parse_vm_flags(output).unwrap();

    assert!(flags.len() > 10);
    assert!(flags.contains(&"-XX:+UseG1GC".to_string()));
    assert!(flags.contains(&"-XX:+HeapDumpOnOutOfMemoryError".to_string()));
}

#[test]
fn flags_parser_fails_on_zero_flags() {
    // no marker lines at all: an unrecognized report is not an empty success
    assert!(parse_vm_flags("19216:\nno flags here\n").is_err());
}

fn thread_header(name: &str, id: u64) -> String {
    format!(
        "\"{}\" #{} prio=5 os_prio=0 cpu=12.5ms elapsed=88.2s tid=0x00007f8a1c009800 nid=2345 waiting on condition  [0x00007f8a2a5fe000]\n",
        name, id
    )
}

fn sample_thread_dump() -> String {
    let mut s = String::new();
    s.push_str("19216:\nFull thread dump OpenJDK 64-Bit Server VM:\n\n");
    s.push_str(&thread_header("main", 1));
    s.push_str("   java.lang.Thread.State: TIMED_WAITING (sleeping)\n");
    s.push_str("\tat jdk.internal.misc.Unsafe.park(java.base@21/Native Method)\n");
    s.push_str("\tat java.lang.Thread.sleep(Thread.java:509)\n");
    s.push_str("\n");
    for i in 2..13u64 {
        s.push_str(&thread_header(&format!("worker-{}", i), i));
        s.push_str("   java.lang.Thread.State: RUNNABLE\n");
        s.push_str("\tat com.example.Worker.run(Worker.java:42)\n");
        s.push_str("\n");
    }
    s
}

#[test]
fn test_parse_thread_dump() {
    let output = sample_thread_dump();
    let threads = parse_thread_dump(&output).unwrap();

    assert!(!threads.is_empty());
    assert!(threads.len() > 10);

    let main_thread = threads.iter().find(|t| t.name == "main");
    assert!(main_thread.is_some());

    let main = main_thread.unwrap();
    assert!(matches!(
        main.state,
        ThreadState::TimedWaiting | ThreadState::Waiting
    ));
    assert!(!main.stack_trace.is_empty());

    let first_frame = &main.stack_trace[0];
    assert!(first_frame.class_name.contains("Unsafe") || first_frame.class_name.contains("misc"));
}

#[test]
fn thread_dump_header_and_state_within_window() {
    // a single header named "main" with a WAITING marker in its window
    let mut s = thread_header("main", 1);
    s.push_str("   java.lang.Thread.State: WAITING (parking)\n");
    let threads = parse_thread_dump(&s).unwrap();
    assert_eq!(threads.len(), 1);
    assert_eq!(threads[0].name, "main");
    assert_eq!(threads[0].id, 1);
    assert_eq!(threads[0].state, ThreadState::Waiting);
}

#[test]
fn thread_dump_without_headers_fails() {
    assert!(parse_thread_dump("no threads in this text\n").is_err());
    assert!(parse_thread_dump("").is_err());
}

#[test]
fn thread_dump_frame_details() {
    let mut s = thread_header("main", 7);
    s.push_str("   java.lang.Thread.State: RUNNABLE\n");
    s.push_str("\tat java.lang.Thread.sleep(Thread.java:509)\n");
    s.push_str("\tat jdk.internal.misc.Unsafe.park(java.base@21/Native Method)\n");
    let threads = parse_thread_dump(&s).unwrap();
    assert_eq!(threads.len(), 1);
    let frames = &threads[0].stack_trace;
    assert_eq!(frames.len(), 2);
    assert_eq!(frames[0].class_name, "java.lang.Thread");
    assert_eq!(frames[0].method_name, "sleep");
    assert_eq!(frames[0].file_name.as_deref(), Some("Thread.java"));
    assert_eq!(frames[0].line_number, Some(509));
    assert_eq!(frames[1].class_name, "jdk.internal.misc.Unsafe");
    assert_eq!(frames[1].method_name, "park");
    assert_eq!(frames[1].file_name.as_deref(), Some("java.base@21/Native Method"));
    assert_eq!(frames[1].line_number, None);
}

#[test]
fn thread_dump_rejects_oversized_id() {
    // an id beyond the result type fails the whole parse
    let s = thread_header("big", 1).replace("#1 ", "#99999999999999999999 ");
    assert!(parse_thread_dump(&s).is_err());
}

fn sample_histogram() -> String {
    let mut s = String::new();
    s.push_str("19216:\n num     #instances         #bytes  class name (module)\n");
    s.push_str("-------------------------------------------------------\n");
    s.push_str("   1:        164109       13128720  java.lang.String (java.base@21)\n");
    s.push_str("   2:         98350        7868000  [B (java.base@21)\n");
    for i in 3..122u64 {
        s.push_str(&format!("   {}:  {}  {}  com.example.Type{}\n", i, 1000 - i, 9000 - i, i));
    }
    s
}

#[test]
fn test_parse_class_histogram() {
    let output = sample_histogram();
    let classes = parse_class_histogram(&output).unwrap();

    assert!(!classes.is_empty());
    assert!(classes.len() > 100);

    let first_class = &classes[0];
    assert_eq!(first_class.rank, 1);
    assert!(first_class.instances > 0);
    assert!(first_class.bytes > 0);
    assert!(!first_class.name.is_empty());

    let byte_array = classes.iter().find(|c| c.name.contains("[B"));
    assert!(byte_array.is_some());
}

#[test]
fn histogram_row_fields_are_exact() {
    // one well-formed row between a header and a footer line
    let output = "header line\n1: 100 2000 java.lang.String\ntotal 123456\n";
    let classes = parse_class_histogram(output).unwrap();
    assert_eq!(classes.len(), 1);
    assert_eq!(classes[0].rank, 1);
    assert_eq!(classes[0].instances, 100);
    assert_eq!(classes[0].bytes, 2000);
    assert_eq!(classes[0].name, "java.lang.String");
}

#[test]
fn histogram_without_rows_fails() {
    assert!(parse_class_histogram("no rows\n").is_err());
}

#[test]
fn histogram_rejects_oversized_rank() {
    let output = "4294967296: 100 2000 java.lang.String\n";
    assert!(parse_class_histogram(output).is_err());
}

fn sample_gcutil() -> String {
    let mut s = String::new();
    s.push_str("  S0     S1     E      O      M     CCS    YGC     YGCT     FGC    FGCT     CGC    CGCT       GCT   \n");
    s.push_str("  0.00 100.00  68.75  12.94  95.47  89.33 125387  497.699    37    9.222     -        -    506.921\n");
    s
}

#[test]
fn test_parse_gc_stats() {
    let output = sample_gcutil();
    let stats = parse_gc_stats(&output).unwrap();

    assert_eq!(stats.young_gc_count, 125387);
    assert_eq!(stats.young_gc_time_ms, 497699);
    assert_eq!(stats.old_gc_count, 37);
    assert_eq!(stats.old_gc_time_ms, 9222);
}

#[test]
fn test_parse_invalid_format() {
    let output = "invalid output";
    let result = parse_gc_stats(output);
    assert!(result.is_err());
}

#[test]
fn gc_stats_needs_thirteen_columns() {
    let output = "h1 h2\n1 2 3 4 5 6 7 8.0 9 10.0 11 12\n";
    assert!(parse_gc_stats(output).is_err());
}

#[test]
fn gc_stats_truncates_time_fractions() {
    let output = "h\n0 0 0 0 0 0 5 1.2345 6 2 0 0 0\n";
    let stats = parse_gc_stats(output).unwrap();
    assert_eq!(stats.young_gc_count, 5);
    assert_eq!(stats.young_gc_time_ms, 1234);
    assert_eq!(stats.old_gc_count, 6);
    assert_eq!(stats.old_gc_time_ms, 2000);
}

#[test]
fn uptime_saturates_on_oversized_figure() {
    let output = "99999999999999999999999.5 s\n";
    assert_eq!(parse_vm_uptime(output).unwrap(), u64::MAX);
}

#[test]
fn gc_stats_accepts_trailing_dot_seconds() {
    let output = "h\n0 0 0 0 0 0 1 2. 3 4.5 0 0 0\n";
    let stats = parse_gc_stats(output).unwrap();
    assert_eq!(stats.young_gc_time_ms, 2000);
    assert_eq!(stats.old_gc_time_ms, 4500);
}
