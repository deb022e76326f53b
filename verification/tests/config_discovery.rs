use jvm_tui::config::{Config, ConnectionProfile};
use jvm_tui::discovery::{parse_jcmd_list, parse_jps_list, should_filter};

#[test]
fn test_default_config() {
    let config = Config::default();
    assert_eq!(config.preferences.default_interval_ms, 1000);
    assert_eq!(config.preferences.max_history_samples, 300);
    assert!(config.connections.is_empty());
}

#[test]
fn test_validation_rejects_invalid_interval() {
    let mut config = Config::default();
    config.preferences.default_interval_ms = 50;

    assert!(config.validate().is_err());
}

#[test]
fn test_validation_rejects_zero_samples() {
    let mut config = Config::default();
    config.preferences.max_history_samples = 0;

    assert!(config.validate().is_err());
}

#[test]
fn validation_checks_profiles() {
    let mut config = Config::default();
    config.connections.push(ConnectionProfile::Jolokia {
        name: "bad".to_string(),
        url: "ftp://example.com".to_string(),
        username: None,
        password: None,
    });
    assert!(config.validate().is_err());

    config.connections.clear();
    config.connections.push(ConnectionProfile::Jolokia {
        name: "good".to_string(),
        url: "http://localhost:8778/jolokia".to_string(),
        username: Some("admin".to_string()),
        password: None,
    });
    assert!(config.validate().is_ok());

    config.connections.push(ConnectionProfile::SshJdk {
        name: "nohost".to_string(),
        ssh_host: "".to_string(),
        ssh_user: "deploy".to_string(),
        ssh_port: 22,
        ssh_key: None,
        ssh_password: None,
        pid: 1,
    });
    assert!(config.validate().is_err());

    config.connections.pop();
    config.connections.push(ConnectionProfile::SshJolokia {
        name: "noport".to_string(),
        ssh_host: "example.com".to_string(),
        ssh_user: "deploy".to_string(),
        ssh_port: 22,
        ssh_key: Some("~/.ssh/id_rsa".to_string()),
        ssh_password: None,
        jolokia_port: 0,
        local_port: None,
    });
    assert!(config.validate().is_err());
}

#[test]
fn get_connection_finds_first_by_name() {
    let mut config = Config::default();
    config.connections.push(ConnectionProfile::Local {
        name: "Test Local".to_string(),
        pid: Some(12345),
    });
    config.connections.push(ConnectionProfile::Jolokia {
        name: "Test Jolokia".to_string(),
        url: "http://localhost:8778/jolokia".to_string(),
        username: None,
        password: None,
    });

    match config.get_connection("Test Local") {
        Some(ConnectionProfile::Local { name, pid }) => {
            assert_eq!(name, "Test Local");
            assert_eq!(*pid, Some(12345));
        }
        _ => panic!("Expected Local connection"),
    }
    assert_eq!(
        config.get_connection("Test Jolokia").map(|p| p.connection_type()),
        Some("Jolokia (HTTP)")
    );
    assert!(config.get_connection("absent").is_none());
}

#[test]
fn profile_names_and_types() {
    let p = ConnectionProfile::SshJdk {
        name: "Test SSH".to_string(),
        ssh_host: "example.com".to_string(),
        ssh_user: "deploy".to_string(),
        ssh_port: 22,
        ssh_key: Some("~/.ssh/id_rsa".to_string()),
        ssh_password: None,
        pid: 8778,
    };
    assert_eq!(p.name(), "Test SSH");
    assert_eq!(p.connection_type(), "SSH + JDK Tools");

    let q = ConnectionProfile::SshJolokia {
        name: "Test SSH Jolokia".to_string(),
        ssh_host: "example.com".to_string(),
        ssh_user: "deploy".to_string(),
        ssh_port: 22,
        ssh_key: None,
        ssh_password: None,
        jolokia_port: 8778,
        local_port: None,
    };
    assert_eq!(q.connection_type(), "SSH + Jolokia");
}

#[test]
fn test_parse_jcmd_list() {
    let output = "46168 com.intellij.idea.Main
3852 jdk.jcmd/sun.tools.jcmd.JCmd -l
48127 /path/to/sonarlint-ls.jar -stdio
12345 MyApplication";

    let jvms = parse_jcmd_list(output);

    assert_eq!(jvms.len(), 3);
    assert_eq!(jvms[0].pid, 46168);
    assert_eq!(jvms[0].main_class, "com.intellij.idea.Main");
    assert_eq!(jvms[1].pid, 48127);
    assert_eq!(jvms[2].pid, 12345);
    assert_eq!(jvms[2].main_class, "MyApplication");
}

#[test]
fn test_parse_jps_list() {
    let output = "12345 MyApplication\n67890 com.example.Service\n3852 Jps";

    let jvms = parse_jps_list(output);

    assert_eq!(jvms.len(), 2);
    assert_eq!(jvms[0].pid, 12345);
    assert_eq!(jvms[1].pid, 67890);
}

#[test]
fn test_filter_jdk_tools() {
    assert!(should_filter("jdk.jcmd/sun.tools.jcmd.JCmd"));
    assert!(should_filter("sun.tools.jps.Jps"));
    assert!(should_filter("Jps"));
    assert!(should_filter("JCmd"));
    assert!(!should_filter("com.intellij.idea.Main"));
    assert!(!should_filter("MyApplication"));
}

#[test]
fn list_parser_skips_malformed_lines() {
    let output = "\nnot a pid Main\n99999999999999999999 TooBig\n7 Ok App\n";
    let jvms = parse_jcmd_list(output);
    assert_eq!(jvms.len(), 1);
    assert_eq!(jvms[0].pid, 7);
    assert_eq!(jvms[0].main_class, "Ok App");
}
