//! The remote-shell backend's decisions: how credentials pick an
//! authentication method, which command lines the remote tools get, and
//! what their captured output means.  The session itself is the callers'
//! work; parsing is the same as for the local tools, transport-agnostic by
//! design.

use vstd::prelude::*;
use vstd::string::StringExecFns;
use crate::error::AppError;
use crate::jcmd::{first_version, first_uptime, flags_from};
use crate::text::{dec_of, lines_of, u64_to_string};
use crate::types::JvmInfo;

verus! {

/// How the remote session authenticates.
#[derive(Debug, Clone)]
pub enum AuthChoice {
    /// A named key file, with its passphrase when one was given.
    KeyFile { path: String, passphrase: Option<String> },
    Password(String),
    /// No credentials given: the conventional key file under the home
    /// directory.
    DefaultKey { path: String },
}

/// Spec-level image of an `AuthChoice`.
pub enum AuthChoiceModel {
    KeyFile { path: Seq<char>, passphrase: Option<Seq<char>> },
    Password(Seq<char>),
    DefaultKey { path: Seq<char> },
}

impl View for AuthChoice {
    type V = AuthChoiceModel;

    open spec fn view(&self) -> AuthChoiceModel {
        match self {
            AuthChoice::KeyFile { path, passphrase } => AuthChoiceModel::KeyFile {
                path: path@,
                passphrase: match passphrase {
                    Some(p) => Some(p@),
                    None => None,
                },
            },
            AuthChoice::Password(p) => AuthChoiceModel::Password(p@),
            AuthChoice::DefaultKey { path } => AuthChoiceModel::DefaultKey { path: path@ },
        }
    }
}

/// The method the given credentials select: a key file when one is named, a
/// password otherwise, and the default key-file fallback with neither.
pub open spec fn spec_choose_auth(
    key_path: Option<Seq<char>>,
    password: Option<Seq<char>>,
    home: Seq<char>,
) -> AuthChoiceModel {
    match key_path {
        Some(key) => AuthChoiceModel::KeyFile { path: key, passphrase: password },
        None => match password {
            Some(pwd) => AuthChoiceModel::Password(pwd),
            None => AuthChoiceModel::DefaultKey { path: home + "/.ssh/id_rsa"@ },
        },
    }
}

/// The views of optional credentials.
pub open spec fn opt_view(o: Option<String>) -> Option<Seq<char>> {
    match o {
        Some(s) => Some(s@),
        None => None,
    }
}

/// Picks the authentication method for the given credentials.
pub fn choose_auth(key_path: Option<String>, password: Option<String>, home: &str) -> (r:
    AuthChoice)
    ensures
        r@ == spec_choose_auth(opt_view(key_path), opt_view(password), home@),
{
    match key_path {
        Some(key) => AuthChoice::KeyFile { path: key, passphrase: password },
        None => match password {
            Some(pwd) => AuthChoice::Password(pwd),
            None => {
                let mut path = String::from_str(home);
                path.append("/.ssh/id_rsa");
                AuthChoice::DefaultKey { path }
            },
        },
    }
}

/// State of one remote-shell session.
pub struct SshJdkConnector {
    pub host: String,
    pub port: u16,
    pub user: String,
    pub auth: AuthChoice,
    pub pid: u32,
    pub connected: bool,
}

impl SshJdkConnector {
    /// A fresh session description; nothing is opened yet.
    pub fn new(
        host: String,
        port: u16,
        user: String,
        key_path: Option<String>,
        password: Option<String>,
        pid: u32,
        home: &str,
    ) -> (r: Self)
        ensures
            r.host == host,
            r.port == port,
            r.user == user,
            r.pid == pid,
            !r.connected,
            r.auth@ == spec_choose_auth(opt_view(key_path), opt_view(password), home@),
    {
        let auth = choose_auth(key_path, password, home);
        SshJdkConnector { host, port, user, auth, pid, connected: false }
    }

    /// Records the outcome of opening the session.
    pub fn record_connect(&mut self, session_opened: bool)
        ensures
            final(self).connected == session_opened,
            final(self).host == old(self).host,
            final(self).port == old(self).port,
            final(self).user == old(self).user,
            final(self).auth == old(self).auth,
            final(self).pid == old(self).pid,
    {
        self.connected = session_opened;
    }

    /// Detaches; always succeeds.
    pub fn disconnect(&mut self) -> (r: Result<(), AppError>)
        ensures
            r is Ok,
            !final(self).connected,
            final(self).host == old(self).host,
            final(self).port == old(self).port,
            final(self).user == old(self).user,
            final(self).auth == old(self).auth,
            final(self).pid == old(self).pid,
    {
        self.connected = false;
        Ok(())
    }

    /// Live connection state: a session is held or it is not.
    pub fn is_connected(&self) -> (b: bool)
        ensures
            b == self.connected,
    {
        self.connected
    }

    /// The remote command line for one rich-tool request against the
    /// configured process.
    pub fn jcmd_command(&self, subcommand: &str) -> (r: String)
        ensures
            r@ == "jcmd "@ + dec_of(self.pid as nat) + " "@ + subcommand@,
    {
        let mut cmd = String::from_str("jcmd ");
        let pid_str = u64_to_string(self.pid as u64);
        cmd.append(pid_str.as_str());
        cmd.append(" ");
        cmd.append(subcommand);
        cmd
    }

    /// The remote command line for the counters tool against the configured
    /// process.
    pub fn jstat_gc_command(&self) -> (r: String)
        ensures
            r@ == "jstat -gc "@ + dec_of(self.pid as nat),
    {
        let mut cmd = String::from_str("jstat -gc ");
        let pid_str = u64_to_string(self.pid as u64);
        cmd.append(pid_str.as_str());
        cmd
    }

    /// Connect-time facts from the three captured remote reports; the main
    /// class names the remote host.  Succeeds exactly when all three parse.
    pub fn build_remote_jvm_info(
        &self,
        version_output: &str,
        uptime_output: &str,
        flags_output: &str,
    ) -> (r: Result<JvmInfo, AppError>)
        ensures
            match r {
                Ok(info) => {
                    &&& info.pid == self.pid
                    &&& info.main_class@ == "Remote JVM ("@ + self.host@ + ")"@
                    &&& first_version(lines_of(version_output@), 0) == Some(info.version@)
                    &&& first_uptime(lines_of(uptime_output@), 0) is Some
                    &&& {
                        let n = first_uptime(lines_of(uptime_output@), 0)->Some_0;
                        info.uptime_seconds == if n <= u64::MAX {
                            n as u64
                        } else {
                            u64::MAX
                        }
                    }
                    &&& info@.vm_flags =~= flags_from(lines_of(flags_output@), 0)
                    &&& info@.vm_flags.len() > 0
                },
                Err(_) => first_version(lines_of(version_output@), 0) is None || first_uptime(
                    lines_of(uptime_output@),
                    0,
                ) is None || flags_from(lines_of(flags_output@), 0).len() == 0,
            },
    {
        let version = match crate::jcmd::parse_jvm_version(version_output) {
            Ok(v) => v,
            Err(e) => {
                return Err(AppError::Parse(e));
            },
        };
        let uptime_seconds = match crate::jcmd::parse_vm_uptime(uptime_output) {
            Ok(v) => v,
            Err(e) => {
                return Err(AppError::Parse(e));
            },
        };
        let vm_flags = match crate::jcmd::parse_vm_flags(flags_output) {
            Ok(v) => v,
            Err(e) => {
                return Err(AppError::Parse(e));
            },
        };
        let mut main_class = String::from_str("Remote JVM (");
        main_class.append(self.host.as_str());
        main_class.append(")");
        let info = JvmInfo { pid: self.pid, main_class, version, uptime_seconds, vm_flags };
        proof {
            assert(info@.vm_flags =~= flags_from(lines_of(flags_output@), 0));
        }
        Ok(info)
    }
}

} // verus!
