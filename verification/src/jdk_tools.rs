//! The local-tools backend's decisions: which command to run for each
//! request, what connecting captures and caches, and what each answer
//! means.  Running the commands is the callers' work; every decision about
//! them is made and proved here.

use vstd::prelude::*;
use vstd::string::StringExecFns;
use crate::detector::{JdkToolsStatus, ToolStatus};
use crate::error::AppError;
use crate::jcmd::{first_version, first_uptime, flags_from};
use crate::jdk_tools_error::JdkToolsError;
use crate::text::{dec_of, lines_of, u64_to_string};
use crate::types::JvmInfo;

verus! {

/// State of one local-tools session: the detected tools and resolved paths,
/// the attached process, and the facts captured at connect time.
pub struct JdkToolsConnector {
    pid: Option<u32>,
    tools: JdkToolsStatus,
    jcmd_path: Option<String>,
    jstat_path: Option<String>,
    cached_jvm_info: Option<JvmInfo>,
    cached_vm_flags: Option<Vec<String>>,
}

/// The facts a connect captures, as the connect reports give them: the
/// version of the first version line, the whole seconds of the first uptime
/// figure, and every reported flag.
pub open spec fn captured_info_ok(
    info: JvmInfo,
    pid: u32,
    version_output: Seq<char>,
    uptime_output: Seq<char>,
    flags_output: Seq<char>,
) -> bool {
    &&& info.pid == pid
    &&& info.main_class@ == "PID "@ + dec_of(pid as nat)
    &&& first_version(lines_of(version_output), 0) == Some(info.version@)
    &&& first_uptime(lines_of(uptime_output), 0) is Some
    &&& {
        let n = first_uptime(lines_of(uptime_output), 0)->Some_0;
        info.uptime_seconds == if n <= u64::MAX {
            n as u64
        } else {
            u64::MAX
        }
    }
    &&& info@.vm_flags =~= flags_from(lines_of(flags_output), 0)
    &&& info@.vm_flags.len() > 0
}

impl JdkToolsConnector {
    pub closed spec fn spec_pid(&self) -> Option<u32> {
        self.pid
    }

    pub closed spec fn spec_tools(&self) -> JdkToolsStatus {
        self.tools
    }

    pub closed spec fn spec_jcmd_path(&self) -> Option<String> {
        self.jcmd_path
    }

    pub closed spec fn spec_jstat_path(&self) -> Option<String> {
        self.jstat_path
    }

    pub closed spec fn spec_cached_info(&self) -> Option<JvmInfo> {
        self.cached_jvm_info
    }

    /// A fresh session over the given tool set: not connected, nothing
    /// cached, the paths resolved once from the detected tools.
    pub fn new(tools: JdkToolsStatus) -> (r: Self)
        ensures
            r.spec_pid() is None,
            r.spec_cached_info() is None,
            r.spec_tools() == tools,
            r.spec_jcmd_path() == match tools.jcmd {
                ToolStatus::Available { path, .. } => Some(path),
                _ => None::<String>,
            },
            r.spec_jstat_path() == match tools.jstat {
                ToolStatus::Available { path, .. } => Some(path),
                _ => None::<String>,
            },
    {
        let jcmd_path = match &tools.jcmd {
            ToolStatus::Available { path, .. } => Some(path.clone()),
            _ => None,
        };
        let jstat_path = match &tools.jstat {
            ToolStatus::Available { path, .. } => Some(path.clone()),
            _ => None,
        };
        JdkToolsConnector {
            pid: None,
            tools,
            jcmd_path,
            jstat_path,
            cached_jvm_info: None,
            cached_vm_flags: None,
        }
    }

    /// Live connection state: attached exactly while a process id is held.
    pub fn is_connected(&self) -> (b: bool)
        ensures
            b == (self.spec_pid() is Some),
    {
        self.pid.is_some()
    }

    /// Detaches; always succeeds, and the captured facts are dropped.
    pub fn disconnect(&mut self) -> (r: Result<(), AppError>)
        ensures
            r is Ok,
            final(self).spec_pid() is None,
            final(self).spec_cached_info() is None,
            final(self).spec_tools() == old(self).spec_tools(),
            final(self).spec_jcmd_path() == old(self).spec_jcmd_path(),
            final(self).spec_jstat_path() == old(self).spec_jstat_path(),
    {
        self.pid = None;
        self.cached_jvm_info = None;
        self.cached_vm_flags = None;
        Ok(())
    }

    /// Opens a connect attempt: succeeds, attaching to `pid`, exactly when
    /// the detected tools are usable; a degraded tool set (counters only)
    /// still connects.
    pub fn start_connect(&mut self, pid: u32) -> (r: Result<(), AppError>)
        ensures
            final(self).spec_tools() == old(self).spec_tools(),
            final(self).spec_jcmd_path() == old(self).spec_jcmd_path(),
            final(self).spec_jstat_path() == old(self).spec_jstat_path(),
            match r {
                Ok(_) => {
                    &&& (old(self).spec_tools().jcmd is Available || (old(
                        self,
                    ).spec_tools().jps is Available && old(self).spec_tools().jstat is Available))
                    &&& final(self).spec_pid() == Some(pid)
                    &&& final(self).spec_cached_info() == old(self).spec_cached_info()
                },
                Err(e) => {
                    &&& !(old(self).spec_tools().jcmd is Available || (old(
                        self,
                    ).spec_tools().jps is Available && old(self).spec_tools().jstat is Available))
                    &&& e matches AppError::JdkTools(t) && t is JcmdNotFound
                    &&& final(self).spec_pid() == old(self).spec_pid()
                    &&& final(self).spec_cached_info() == old(self).spec_cached_info()
                },
            },
    {
        match self.tools.validate() {
            Ok(_) => {
                self.pid = Some(pid);
                Ok(())
            },
            Err(e) => Err(AppError::JdkTools(e)),
        }
    }

    /// The command line for one request to the rich tool: its resolved
    /// path, the attached process id, and the subcommand.  Fails when not
    /// connected or when the rich tool is missing — a capability gap, never
    /// a malfunction.
    pub fn jcmd_invocation(&self, command: &str) -> (r: Result<(String, Vec<String>), AppError>)
        ensures
            match r {
                Ok(inv) => {
                    &&& self.spec_pid() is Some
                    &&& self.spec_jcmd_path() is Some
                    &&& inv.0 == self.spec_jcmd_path()->Some_0
                    &&& inv.1@.len() == 2
                    &&& inv.1@[0]@ == dec_of(self.spec_pid()->Some_0 as nat)
                    &&& inv.1@[1]@ == command@
                },
                Err(e) => (self.spec_pid() is None && e is Connection) || (self.spec_pid()
                    is Some && self.spec_jcmd_path() is None && e is ToolUnavailable),
            },
    {
        let pid = match self.pid {
            Some(p) => p,
            None => {
                return Err(AppError::Connection(String::from_str("Not connected")));
            },
        };
        let path = match &self.jcmd_path {
            Some(p) => p.clone(),
            None => {
                return Err(AppError::ToolUnavailable(String::from_str("jcmd not available")));
            },
        };
        let mut args: Vec<String> = Vec::new();
        args.push(u64_to_string(pid as u64));
        args.push(String::from_str(command));
        Ok((path, args))
    }

    /// The command line for one request to the counters tool: its resolved
    /// path, the option, and the attached process id.
    pub fn jstat_invocation(&self, option: &str) -> (r: Result<(String, Vec<String>), AppError>)
        ensures
            match r {
                Ok(inv) => {
                    &&& self.spec_pid() is Some
                    &&& self.spec_jstat_path() is Some
                    &&& inv.0 == self.spec_jstat_path()->Some_0
                    &&& inv.1@.len() == 2
                    &&& inv.1@[0]@ == option@
                    &&& inv.1@[1]@ == dec_of(self.spec_pid()->Some_0 as nat)
                },
                Err(e) => (self.spec_pid() is None && e is Connection) || (self.spec_pid()
                    is Some && self.spec_jstat_path() is None && e is ToolUnavailable),
            },
    {
        let pid = match self.pid {
            Some(p) => p,
            None => {
                return Err(AppError::Connection(String::from_str("Not connected")));
            },
        };
        let path = match &self.jstat_path {
            Some(p) => p.clone(),
            None => {
                return Err(AppError::ToolUnavailable(String::from_str("jstat not available")));
            },
        };
        let mut args: Vec<String> = Vec::new();
        args.push(String::from_str(option));
        args.push(u64_to_string(pid as u64));
        Ok((path, args))
    }

    /// Closes a connect attempt from the three captured reports: succeeds,
    /// filling the cache, exactly when attached and all three parse.
    pub fn finish_connect(
        &mut self,
        version_output: &str,
        uptime_output: &str,
        flags_output: &str,
    ) -> (r: Result<(), AppError>)
        ensures
            final(self).spec_tools() == old(self).spec_tools(),
            final(self).spec_jcmd_path() == old(self).spec_jcmd_path(),
            final(self).spec_jstat_path() == old(self).spec_jstat_path(),
            final(self).spec_pid() == old(self).spec_pid(),
            match r {
                Ok(_) => {
                    &&& old(self).spec_pid() is Some
                    &&& final(self).spec_cached_info() matches Some(info) && captured_info_ok(
                        info,
                        old(self).spec_pid()->Some_0,
                        version_output@,
                        uptime_output@,
                        flags_output@,
                    )
                },
                Err(_) => {
                    &&& (old(self).spec_pid() is None || first_version(
                        lines_of(version_output@),
                        0,
                    ) is None || first_uptime(lines_of(uptime_output@), 0) is None || flags_from(
                        lines_of(flags_output@),
                        0,
                    ).len() == 0)
                    &&& final(self).spec_cached_info() == old(self).spec_cached_info()
                },
            },
    {
        let pid = match self.pid {
            Some(p) => p,
            None => {
                return Err(AppError::Connection(String::from_str("Not connected")));
            },
        };
        let version = match crate::jcmd::parse_jvm_version(version_output) {
            Ok(v) => v,
            Err(e) => {
                return Err(AppError::Parse(e));
            },
        };
        let uptime_seconds = match crate::jcmd::parse_vm_uptime(uptime_output) {
            Ok(v) => v,
            Err(e) => {
                return Err(AppError::Parse(e));
            },
        };
        let vm_flags = match crate::jcmd::parse_vm_flags(flags_output) {
            Ok(v) => v,
            Err(e) => {
                return Err(AppError::Parse(e));
            },
        };
        let mut main_class = String::from_str("PID ");
        let pid_str = u64_to_string(pid as u64);
        main_class.append(pid_str.as_str());
        let mut flags_copy: Vec<String> = Vec::new();
        let mut i: usize = 0;
        loop
            invariant
                i <= vm_flags@.len(),
                flags_copy@.len() == i,
                forall|k: int| 0 <= k < i ==> flags_copy@[k]@ == vm_flags@[k]@,
            decreases vm_flags@.len() - i,
        {
            if i >= vm_flags.len() {
                break;
            }
            flags_copy.push(vm_flags[i].clone());
            i = i + 1;
        }
        let info = JvmInfo {
            pid,
            main_class,
            version,
            uptime_seconds,
            vm_flags,
        };
        proof {
            assert(info@.vm_flags =~= flags_from(lines_of(flags_output@), 0));
        }
        self.cached_jvm_info = Some(info);
        self.cached_vm_flags = Some(flags_copy);
        Ok(())
    }

    /// The facts captured at connect time; static per session, so they are
    /// answered from the cache.  Fails when nothing was captured.
    pub fn get_jvm_info(&self) -> (r: Result<JvmInfo, AppError>)
        ensures
            match r {
                Ok(info) => self.spec_cached_info() matches Some(c) && info@ == c@,
                Err(e) => self.spec_cached_info() is None && e is Connection,
            },
    {
        match &self.cached_jvm_info {
            Some(info) => Ok(info.duplicate()),
            None => Err(AppError::Connection(String::from_str("Not connected"))),
        }
    }
}

} // verus!
