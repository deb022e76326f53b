use jvm_tui::detector::{
    detect_tool, probe_outcome, scrape_version, Capabilities, JdkToolsStatus, Platform,
    ProbeOutcome, ToolStatus,
};
use jvm_tui::error::AppError;
use jvm_tui::jdk_tools::JdkToolsConnector;
use jvm_tui::jolokia::{
    class_histogram_approximation, check_response, gc_stats_from_counters, heap_info_from_usage,
    jvm_info_from_attributes, parse_pid_from_runtime_name, thread_info_approximation,
    JolokiaConnector, JolokiaRequest,
};
use jvm_tui::ssh_jdk::{choose_auth, AuthChoice, SshJdkConnector};

fn available(path: &str) -> ToolStatus {
    ToolStatus::Available { path: path.to_string(), version: "21".to_string() }
}

fn all_tools() -> JdkToolsStatus {
    JdkToolsStatus {
        jcmd: available("/usr/bin/jcmd"),
        jstat: available("/usr/bin/jstat"),
        jps: available("/usr/bin/jps"),
        java_home: None,
    }
}

#[test]
fn capability_negotiation_counters_only() {
    // only the counters-side tools available, the rich tool not found
    let status = JdkToolsStatus {
        jcmd: ToolStatus::NotFound,
        jstat: available("/usr/bin/jstat"),
        jps: available("/usr/bin/jps"),
        java_home: None,
    };
    assert!(status.is_usable());
    let caps: Capabilities = status.capabilities();
    assert!(!caps.can_heap_info);
    assert!(!caps.can_thread_dump);
    assert!(!caps.can_class_histogram);
    assert!(!caps.can_trigger_gc);
    assert!(caps.can_gc_stats);
    assert!(caps.can_discover);
    assert!(status.validate().is_ok());
}

#[test]
fn unusable_tools_fail_validation() {
    let status = JdkToolsStatus {
        jcmd: ToolStatus::NotFound,
        jstat: ToolStatus::NotFound,
        jps: available("/usr/bin/jps"),
        java_home: None,
    };
    assert!(!status.is_usable());
    assert!(status.validate().is_err());
    assert!(status.installation_guidance(Platform::Linux).len() > 0);
}

#[test]
fn tool_status_accessors() {
    let a = available("/usr/bin/jcmd");
    assert!(a.is_available());
    assert_eq!(a.path().map(|p| p.as_str()), Some("/usr/bin/jcmd"));
    assert!(!ToolStatus::NotFound.is_available());
    assert!(ToolStatus::NotFound.path().is_none());
    let ne = ToolStatus::NotExecutable { path: "/opt/jdk/bin/jcmd".to_string() };
    assert!(!ne.is_available());
    assert_eq!(ne.path().map(|p| p.as_str()), Some("/opt/jdk/bin/jcmd"));
}

#[test]
fn detect_tool_takes_first_hit() {
    let r = detect_tool(vec![
        ("/jdk/bin/jcmd".to_string(), ProbeOutcome::NotFound),
        ("jcmd".to_string(), ProbeOutcome::Version("jcmd version 21".to_string())),
    ]);
    match r {
        ToolStatus::Available { path, version } => {
            assert_eq!(path, "jcmd");
            assert_eq!(version, "jcmd version 21");
        }
        _ => panic!("expected an available tool"),
    }

    let r = detect_tool(vec![
        ("/jdk/bin/jstat".to_string(), ProbeOutcome::NotExecutable),
        ("jstat".to_string(), ProbeOutcome::Version("v".to_string())),
    ]);
    assert!(matches!(r, ToolStatus::NotExecutable { .. }));

    let r = detect_tool(vec![
        ("/jdk/bin/jps".to_string(), ProbeOutcome::NotFound),
        ("jps".to_string(), ProbeOutcome::NotFound),
    ]);
    assert!(matches!(r, ToolStatus::NotFound));
}

#[test]
fn probe_scrapes_version_banner() {
    match probe_outcome(false, true, "Usage: jcmd ...\njcmd version 21.0.8\n") {
        ProbeOutcome::Version(v) => assert_eq!(v, "jcmd version 21.0.8"),
        _ => panic!("expected a version"),
    }
    assert_eq!(scrape_version("nothing relevant\n"), "unknown");
    assert!(matches!(probe_outcome(false, false, "x"), ProbeOutcome::NotExecutable));
}

#[test]
fn local_connector_lifecycle() {
    let mut conn = JdkToolsConnector::new(all_tools());
    assert!(!conn.is_connected());
    assert!(conn.get_jvm_info().is_err());

    conn.start_connect(4242).unwrap();
    assert!(conn.is_connected());

    let (tool, args) = conn.jcmd_invocation("GC.heap_info").unwrap();
    assert_eq!(tool, "/usr/bin/jcmd");
    assert_eq!(args, vec!["4242".to_string(), "GC.heap_info".to_string()]);

    let (tool, args) = conn.jstat_invocation("-gcutil").unwrap();
    assert_eq!(tool, "/usr/bin/jstat");
    assert_eq!(args, vec!["-gcutil".to_string(), "4242".to_string()]);

    conn.finish_connect(
        "JDK 21.0.8\n",
        "1234.5 s\n",
        "-XX:+UseG1GC -Xmx100m\n",
    )
    .unwrap();
    let info = conn.get_jvm_info().unwrap();
    assert_eq!(info.pid, 4242);
    assert_eq!(info.main_class, "PID 4242");
    assert_eq!(info.version, "21.0.8");
    assert_eq!(info.uptime_seconds, 1234);
    assert_eq!(info.vm_flags, vec!["-XX:+UseG1GC".to_string(), "-Xmx100m".to_string()]);

    conn.disconnect().unwrap();
    assert!(!conn.is_connected());
    assert!(conn.get_jvm_info().is_err());
}

#[test]
fn local_connector_degraded_capability() {
    // counters tool only: connect succeeds, rich-tool requests fail
    let tools = JdkToolsStatus {
        jcmd: ToolStatus::NotFound,
        jstat: available("/usr/bin/jstat"),
        jps: available("/usr/bin/jps"),
        java_home: None,
    };
    let mut conn = JdkToolsConnector::new(tools);
    conn.start_connect(7).unwrap();
    assert!(conn.jcmd_invocation("GC.heap_info").is_err());
    assert!(conn.jstat_invocation("-gcutil").is_ok());
}

#[test]
fn local_connector_rejects_unusable_tools() {
    let tools = JdkToolsStatus {
        jcmd: ToolStatus::NotFound,
        jstat: ToolStatus::NotFound,
        jps: ToolStatus::NotFound,
        java_home: None,
    };
    let mut conn = JdkToolsConnector::new(tools);
    match conn.start_connect(7) {
        Err(AppError::JdkTools(_)) => {}
        _ => panic!("expected a tools error"),
    }
    assert!(!conn.is_connected());
}

#[test]
fn jolokia_requests_have_expected_shape() {
    let r = JolokiaRequest::read("java.lang:type=Memory", "HeapMemoryUsage");
    assert_eq!(r.request_type, "read");
    assert_eq!(r.mbean, "java.lang:type=Memory");
    assert_eq!(r.attribute.as_deref(), Some("HeapMemoryUsage"));
    assert!(r.operation.is_none());
    assert!(r.arguments.is_none());

    let e = JolokiaRequest::exec("java.lang:type=Memory", "gc", vec![]);
    assert_eq!(e.request_type, "exec");
    assert_eq!(e.operation.as_deref(), Some("gc"));
    assert!(e.attribute.is_none());
    assert_eq!(e.arguments, Some(vec![]));
}

#[test]
fn jolokia_embedded_status_is_checked() {
    assert!(check_response(200, None).is_ok());
    match check_response(404, Some("no such mbean".to_string())) {
        Err(AppError::Connection(_)) => {}
        _ => panic!("expected a connection error"),
    }
}

#[test]
fn jolokia_pid_comes_from_runtime_name() {
    assert_eq!(parse_pid_from_runtime_name("12345@host"), 12345);
    assert_eq!(parse_pid_from_runtime_name("@host"), 0);
    assert_eq!(parse_pid_from_runtime_name("nodigits@host"), 0);
    assert_eq!(parse_pid_from_runtime_name("777"), 777);
    assert_eq!(parse_pid_from_runtime_name("99999999999999999999@host"), 0);
}

#[test]
fn jolokia_telemetry_approximations() {
    let info = jvm_info_from_attributes(Some("321@box"), Some("21.0.8"), Some(5500));
    assert_eq!(info.pid, 321);
    assert_eq!(info.main_class, "Remote JVM");
    assert_eq!(info.version, "21.0.8");
    assert_eq!(info.uptime_seconds, 5);
    assert!(info.vm_flags.is_empty());

    let fallback = jvm_info_from_attributes(None, None, None);
    assert_eq!(fallback.pid, 0);
    assert_eq!(fallback.version, "Unknown");

    let heap = heap_info_from_usage(Some(10), Some(100), Some(50));
    assert_eq!(heap.used_bytes, 10);
    assert_eq!(heap.max_bytes, 100);
    assert_eq!(heap.committed_bytes, 50);
    assert_eq!(heap.pools.len(), 1);
    assert_eq!(heap.pools[0].name, "Remote Heap");

    let gc = gc_stats_from_counters(Some(4), Some(40));
    assert_eq!(gc.young_gc_count, 4);
    assert_eq!(gc.young_gc_time_ms, 40);
    assert_eq!(gc.old_gc_count, 0);

    let threads = thread_info_approximation(Some(3));
    assert_eq!(threads.len(), 3);
    assert_eq!(threads[0].name, "Thread-0");
    assert_eq!(threads[2].name, "Thread-2");
    assert!(threads.iter().all(|t| t.stack_trace.is_empty()));
    assert_eq!(thread_info_approximation(Some(500)).len(), 50);

    let classes = class_histogram_approximation(Some(4321));
    assert_eq!(classes.len(), 1);
    assert_eq!(classes[0].rank, 1);
    assert_eq!(classes[0].instances, 4321);
    assert_eq!(classes[0].bytes, 0);
    assert_eq!(classes[0].name, "Classes (remote)");
}

#[test]
fn jolokia_connector_state() {
    let mut conn = JolokiaConnector::new(
        "http://localhost:8778/jolokia".to_string(),
        Some("admin".to_string()),
        None,
    );
    assert!(!conn.is_connected());
    let probe = conn.connect_request();
    assert_eq!(probe.mbean, "java.lang:type=Runtime");
    assert_eq!(probe.attribute.as_deref(), Some("Name"));
    conn.record_connect(true);
    assert!(conn.is_connected());
    conn.disconnect().unwrap();
    assert!(!conn.is_connected());
}

#[test]
fn ssh_auth_selection() {
    match choose_auth(Some("/k".to_string()), Some("p".to_string()), "/home/u") {
        AuthChoice::KeyFile { path, passphrase } => {
            assert_eq!(path, "/k");
            assert_eq!(passphrase.as_deref(), Some("p"));
        }
        _ => panic!("expected a key file"),
    }
    match choose_auth(None, Some("p".to_string()), "/home/u") {
        AuthChoice::Password(p) => assert_eq!(p, "p"),
        _ => panic!("expected a password"),
    }
    match choose_auth(None, None, "/home/u") {
        AuthChoice::DefaultKey { path } => assert_eq!(path, "/home/u/.ssh/id_rsa"),
        _ => panic!("expected the default key"),
    }
}

#[test]
fn ssh_connector_builds_remote_commands() {
    let mut conn = SshJdkConnector::new(
        "example.com".to_string(),
        22,
        "deploy".to_string(),
        None,
        None,
        991,
        "/home/deploy",
    );
    assert!(!conn.is_connected());
    assert_eq!(conn.jcmd_command("VM.version"), "jcmd 991 VM.version");
    assert_eq!(conn.jcmd_command("GC.heap_info"), "jcmd 991 GC.heap_info");
    assert_eq!(conn.jstat_gc_command(), "jstat -gc 991");

    conn.record_connect(true);
    assert!(conn.is_connected());

    let info = conn
        .build_remote_jvm_info("JDK 17.0.2\n", "88.0 s\n", "-Xms1g -Xmx2g\n")
        .unwrap();
    assert_eq!(info.pid, 991);
    assert_eq!(info.main_class, "Remote JVM (example.com)");
    assert_eq!(info.version, "17.0.2");
    assert_eq!(info.uptime_seconds, 88);
    assert_eq!(info.vm_flags, vec!["-Xms1g".to_string(), "-Xmx2g".to_string()]);

    assert!(conn.build_remote_jvm_info("bad", "88.0 s\n", "-Xmx2g\n").is_err());

    conn.disconnect().unwrap();
    assert!(!conn.is_connected());
}
