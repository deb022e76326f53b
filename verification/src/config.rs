//! Configuration: polling preferences, saved connection profiles, and the
//! advanced limits, with their validation rules.  Reading a configuration
//! file and expanding environment variables happen with the callers; the
//! rules themselves are decided here.

use vstd::prelude::*;
use crate::text::{check_lit_at, lit_at, to_chars};

verus! {

#[derive(Debug, Clone)]
pub struct Config {
    pub preferences: Preferences,
    pub connections: Vec<ConnectionProfile>,
    pub advanced: AdvancedSettings,
}

#[derive(Debug, Clone)]
pub struct Preferences {
    /// Poll interval in milliseconds.
    pub default_interval_ms: u64,
    pub max_history_samples: usize,
    pub export_directory: Option<String>,
}

/// A saved way of reaching a process: locally, over the management bridge,
/// or over a remote shell.
#[derive(Debug, Clone)]
pub enum ConnectionProfile {
    Local { name: String, pid: Option<u32> },
    Jolokia { name: String, url: String, username: Option<String>, password: Option<String> },
    SshJdk {
        name: String,
        ssh_host: String,
        ssh_user: String,
        ssh_port: u16,
        ssh_key: Option<String>,
        ssh_password: Option<String>,
        pid: u32,
    },
    SshJolokia {
        name: String,
        ssh_host: String,
        ssh_user: String,
        ssh_port: u16,
        ssh_key: Option<String>,
        ssh_password: Option<String>,
        jolokia_port: u16,
        local_port: Option<u16>,
    },
}

#[derive(Debug, Clone)]
pub struct AdvancedSettings {
    pub http_timeout_ms: u64,
    pub ssh_timeout_sec: u64,
    pub connection_retry_attempts: usize,
    pub connection_retry_delay_ms: u64,
}

pub fn default_interval() -> (r: u64)
    ensures
        r == 1000,
{
    1000
}

pub fn default_max_samples() -> (r: usize)
    ensures
        r == 300,
{
    300
}

pub fn default_ssh_port() -> (r: u16)
    ensures
        r == 22,
{
    22
}

pub fn default_http_timeout() -> (r: u64)
    ensures
        r == 5000,
{
    5000
}

pub fn default_ssh_timeout() -> (r: u64)
    ensures
        r == 10,
{
    10
}

pub fn default_retry_attempts() -> (r: usize)
    ensures
        r == 3,
{
    3
}

pub fn default_retry_delay() -> (r: u64)
    ensures
        r == 1000,
{
    1000
}

impl Default for Preferences {
    fn default() -> (r: Self)
        ensures
            r.default_interval_ms == 1000,
            r.max_history_samples == 300,
            r.export_directory is None,
    {
        Preferences {
            default_interval_ms: default_interval(),
            max_history_samples: default_max_samples(),
            export_directory: None,
        }
    }
}

impl Default for AdvancedSettings {
    fn default() -> (r: Self)
        ensures
            r.http_timeout_ms == 5000,
            r.ssh_timeout_sec == 10,
            r.connection_retry_attempts == 3,
            r.connection_retry_delay_ms == 1000,
    {
        AdvancedSettings {
            http_timeout_ms: default_http_timeout(),
            ssh_timeout_sec: default_ssh_timeout(),
            connection_retry_attempts: default_retry_attempts(),
            connection_retry_delay_ms: default_retry_delay(),
        }
    }
}

impl Default for Config {
    fn default() -> (r: Self)
        ensures
            r.preferences.default_interval_ms == 1000,
            r.preferences.max_history_samples == 300,
            r.preferences.export_directory is None,
            r.connections@.len() == 0,
            r.advanced.http_timeout_ms == 5000,
            r.advanced.ssh_timeout_sec == 10,
            r.advanced.connection_retry_attempts == 3,
            r.advanced.connection_retry_delay_ms == 1000,
    {
        Config {
            preferences: Preferences::default(),
            connections: Vec::new(),
            advanced: AdvancedSettings::default(),
        }
    }
}

/// What a single profile must satisfy: a bridge URL names its scheme, a
/// remote host is nonempty, a remote process id or bridge port is nonzero.
pub open spec fn profile_ok(p: ConnectionProfile) -> bool {
    match p {
        ConnectionProfile::Local { .. } => true,
        ConnectionProfile::Jolokia { url, .. } => lit_at(url@, 0, "http://"@) || lit_at(
            url@,
            0,
            "https://"@,
        ),
        ConnectionProfile::SshJdk { ssh_host, pid, .. } => ssh_host@.len() > 0 && pid != 0,
        ConnectionProfile::SshJolokia { ssh_host, jolokia_port, .. } => ssh_host@.len() > 0
            && jolokia_port != 0,
    }
}

/// What a whole configuration must satisfy.
pub open spec fn config_ok(c: Config) -> bool {
    &&& c.preferences.max_history_samples != 0
    &&& c.preferences.default_interval_ms >= 100
    &&& forall|i: int| 0 <= i < c.connections@.len() ==> profile_ok(#[trigger] c.connections@[i])
}

/// The name under which a profile is saved.
pub open spec fn spec_profile_name(p: ConnectionProfile) -> Seq<char> {
    match p {
        ConnectionProfile::Local { name, .. } => name@,
        ConnectionProfile::Jolokia { name, .. } => name@,
        ConnectionProfile::SshJdk { name, .. } => name@,
        ConnectionProfile::SshJolokia { name, .. } => name@,
    }
}

/// Index of the first profile saved under `nm`, or -1.
pub open spec fn find_profile(cs: Seq<ConnectionProfile>, nm: Seq<char>, i: int) -> int
    decreases cs.len() - i,
{
    if i < 0 || i >= cs.len() {
        -1
    } else if spec_profile_name(cs[i]) == nm {
        i
    } else {
        find_profile(cs, nm, i + 1)
    }
}

impl Config {
    /// Succeeds exactly on a configuration that keeps some history, polls
    /// no faster than every hundred milliseconds, and whose profiles are
    /// each well formed.
    pub fn validate(&self) -> (r: Result<(), crate::error::AppError>)
        ensures
            r is Ok <==> config_ok(*self),
    {
        if self.preferences.max_history_samples == 0 {
            return Err(
                crate::error::AppError::Config(
                    String::from_str("max_history_samples must be greater than 0"),
                ),
            );
        }
        if self.preferences.default_interval_ms < 100 {
            return Err(
                crate::error::AppError::Config(
                    String::from_str("default_interval must be at least 100ms"),
                ),
            );
        }
        let http_pat = to_chars("http://");
        let https_pat = to_chars("https://");
        let mut i: usize = 0;
        loop
            invariant
                i <= self.connections@.len(),
                http_pat@ == "http://"@,
                https_pat@ == "https://"@,
                self.preferences.max_history_samples != 0,
                self.preferences.default_interval_ms >= 100,
                forall|k: int| 0 <= k < i ==> profile_ok(#[trigger] self.connections@[k]),
            decreases self.connections@.len() - i,
        {
            if i >= self.connections.len() {
                return Ok(());
            }
            match &self.connections[i] {
                ConnectionProfile::Local { .. } => {},
                ConnectionProfile::Jolokia { url, .. } => {
                    let uc = to_chars(url.as_str());
                    if !(check_lit_at(&uc, 0, &http_pat) || check_lit_at(&uc, 0, &https_pat)) {
                        proof {
                            assert(!profile_ok(self.connections@[i as int]));
                        }
                        return Err(
                            crate::error::AppError::Config(
                                String::from_str(
                                    "Jolokia URL must start with http:// or https://",
                                ),
                            ),
                        );
                    }
                },
                ConnectionProfile::SshJdk { ssh_host, pid, .. } => {
                    if ssh_host.as_str().unicode_len() == 0 {
                        return Err(
                            crate::error::AppError::Config(
                                String::from_str("ssh_host cannot be empty"),
                            ),
                        );
                    }
                    if *pid == 0 {
                        return Err(
                            crate::error::AppError::Config(
                                String::from_str("pid must be greater than 0"),
                            ),
                        );
                    }
                },
                ConnectionProfile::SshJolokia { ssh_host, jolokia_port, .. } => {
                    if ssh_host.as_str().unicode_len() == 0 {
                        return Err(
                            crate::error::AppError::Config(
                                String::from_str("ssh_host cannot be empty"),
                            ),
                        );
                    }
                    if *jolokia_port == 0 {
                        return Err(
                            crate::error::AppError::Config(
                                String::from_str("jolokia_port must be greater than 0"),
                            ),
                        );
                    }
                },
            }
            proof {
                assert(profile_ok(self.connections@[i as int]));
            }
            i = i + 1;
        }
    }

    /// The first profile saved under `name`, if any.
    pub fn get_connection(&self, name: &str) -> (r: Option<&ConnectionProfile>)
        ensures
            ({
                let fi = find_profile(self.connections@, name@, 0);
                match r {
                    Some(p) => fi >= 0 && *p == self.connections@[fi],
                    None => fi == -1,
                }
            }),
    {
        let target = String::from_str(name);
        let mut i: usize = 0;
        loop
            invariant
                i <= self.connections@.len(),
                target@ == name@,
                find_profile(self.connections@, name@, 0) == find_profile(
                    self.connections@,
                    name@,
                    i as int,
                ),
            decreases self.connections@.len() - i,
        {
            if i >= self.connections.len() {
                return None;
            }
            let p = &self.connections[i];
            let nm = match p {
                ConnectionProfile::Local { name, .. } => name,
                ConnectionProfile::Jolokia { name, .. } => name,
                ConnectionProfile::SshJdk { name, .. } => name,
                ConnectionProfile::SshJolokia { name, .. } => name,
            };
            if nm.eq(&target) {
                return Some(p);
            }
            i = i + 1;
        }
    }
}

impl ConnectionProfile {
    /// The name the profile is saved under.
    pub fn name(&self) -> (r: &str)
        ensures
            r@ == spec_profile_name(*self),
    {
        match self {
            ConnectionProfile::Local { name, .. } => name.as_str(),
            ConnectionProfile::Jolokia { name, .. } => name.as_str(),
            ConnectionProfile::SshJdk { name, .. } => name.as_str(),
            ConnectionProfile::SshJolokia { name, .. } => name.as_str(),
        }
    }

    /// A short label for the transport the profile uses.
    pub fn connection_type(&self) -> (r: &str)
        ensures
            match self {
                ConnectionProfile::Local { .. } => r@ == "Local"@,
                ConnectionProfile::Jolokia { .. } => r@ == "Jolokia (HTTP)"@,
                ConnectionProfile::SshJdk { .. } => r@ == "SSH + JDK Tools"@,
                ConnectionProfile::SshJolokia { .. } => r@ == "SSH + Jolokia"@,
            },
    {
        match self {
            ConnectionProfile::Local { .. } => "Local",
            ConnectionProfile::Jolokia { .. } => "Jolokia (HTTP)",
            ConnectionProfile::SshJdk { .. } => "SSH + JDK Tools",
            ConnectionProfile::SshJolokia { .. } => "SSH + Jolokia",
        }
    }
}

} // verus!
