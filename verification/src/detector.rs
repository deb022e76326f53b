//! Tool detection: classifying each diagnostic tool from probe outcomes and
//! deriving the capability set, so that callers decide before attempting
//! rather than attempt and fail.

use vstd::prelude::*;
use vstd::string::StringExecFns;
use crate::jdk_tools_error::JdkToolsError;
use crate::text::{find_lit, find_lit_from, lines_of, split_lines, string_of_chars, to_chars};

verus! {

/// What probing one candidate path produced: a version banner, a file that
/// would not run, or nothing at that path.
#[derive(Debug, Clone)]
pub enum ProbeOutcome {
    Version(String),
    NotExecutable,
    NotFound,
}

/// Availability of one tool.
#[derive(Debug, Clone)]
pub enum ToolStatus {
    Available { path: String, version: String },
    NotFound,
    NotExecutable { path: String },
}

impl ToolStatus {
    pub fn is_available(&self) -> (b: bool)
        ensures
            b == (self is Available),
    {
        match self {
            ToolStatus::Available { .. } => true,
            _ => false,
        }
    }

    /// The path probed, where one was resolved at all.
    pub fn path(&self) -> (r: Option<&String>)
        ensures
            match self {
                ToolStatus::Available { path, .. } => r == Some(path),
                ToolStatus::NotExecutable { path } => r == Some(path),
                ToolStatus::NotFound => r is None,
            },
    {
        match self {
            ToolStatus::Available { path, .. } => Some(path),
            ToolStatus::NotExecutable { path } => Some(path),
            ToolStatus::NotFound => None,
        }
    }
}

/// Index of the first candidate whose probe found something, or -1.
pub open spec fn first_probe_hit(cs: Seq<(String, ProbeOutcome)>, i: int) -> int
    decreases cs.len() - i,
{
    if i < 0 || i >= cs.len() {
        -1
    } else if !(cs[i].1 is NotFound) {
        i
    } else {
        first_probe_hit(cs, i + 1)
    }
}

/// Classifies a tool from its probed candidates, in probe order: the first
/// candidate that was found decides — a version banner makes the tool
/// available at that path, a refusal to run marks the path not executable —
/// and a tool found nowhere is not found.
pub fn detect_tool(candidates: Vec<(String, ProbeOutcome)>) -> (r: ToolStatus)
    ensures
        ({
            let h = first_probe_hit(candidates@, 0);
            if h == -1 {
                r is NotFound
            } else {
                match candidates@[h].1 {
                    ProbeOutcome::Version(v) => (r matches ToolStatus::Available { path, version }
                        && path == candidates@[h].0 && version == v),
                    ProbeOutcome::NotExecutable => (r matches ToolStatus::NotExecutable { path }
                        && path == candidates@[h].0),
                    ProbeOutcome::NotFound => false,
                }
            }
        }),
{
    let mut i: usize = 0;
    loop
        invariant
            i <= candidates@.len(),
            first_probe_hit(candidates@, 0) == first_probe_hit(candidates@, i as int),
        decreases candidates@.len() - i,
    {
        if i >= candidates.len() {
            return ToolStatus::NotFound;
        }
        match &candidates[i].1 {
            ProbeOutcome::Version(v) => {
                return ToolStatus::Available {
                    path: candidates[i].0.clone(),
                    version: v.clone(),
                };
            },
            ProbeOutcome::NotExecutable => {
                return ToolStatus::NotExecutable { path: candidates[i].0.clone() };
            },
            ProbeOutcome::NotFound => {},
        }
        i = i + 1;
    }
}

/// A banner line: one that mentions a version.
pub open spec fn banner_line(l: Seq<char>) -> bool {
    find_lit_from(l, 0, "version"@) >= 0 || find_lit_from(l, 0, "JDK"@) >= 0
}

/// The first banner line, if any.
pub open spec fn first_banner(ls: Seq<Seq<char>>, i: int) -> Option<Seq<char>>
    decreases ls.len() - i,
{
    if i < 0 || i >= ls.len() {
        None
    } else if banner_line(ls[i]) {
        Some(ls[i])
    } else {
        first_banner(ls, i + 1)
    }
}

/// The version string scraped from a probe's combined output: the first
/// line mentioning a version, or a fixed marker when none does.
pub fn scrape_version(combined: &str) -> (r: String)
    ensures
        match first_banner(lines_of(combined@), 0) {
            Some(l) => r@ == l,
            None => r@ == "unknown"@,
        },
{
    let chars = to_chars(combined);
    let lines = split_lines(&chars);
    let ghost ls = lines_of(combined@);
    let ver_pat = to_chars("version");
    let jdk_pat = to_chars("JDK");
    let mut i: usize = 0;
    loop
        invariant
            i <= lines@.len(),
            ls == lines_of(combined@),
            lines@.len() == ls.len(),
            forall|k: int| 0 <= k < ls.len() ==> lines@[k]@ == ls[k],
            ver_pat@ == "version"@,
            jdk_pat@ == "JDK"@,
            first_banner(ls, 0) == first_banner(ls, i as int),
        decreases lines@.len() - i,
    {
        if i >= lines.len() {
            return String::from_str("unknown");
        }
        let line = &lines[i];
        let hit = match find_lit(line, 0, &ver_pat) {
            Some(_) => true,
            None => match find_lit(line, 0, &jdk_pat) {
                Some(_) => true,
                None => false,
            },
        };
        proof {
            assert(hit == banner_line(ls[i as int]));
        }
        if hit {
            return string_of_chars(line);
        }
        i = i + 1;
    }
}

/// The outcome of a probe that managed to run the candidate: usable output
/// when the exit status was success or the usage-text code, a refusal
/// otherwise.  Diagnostic tools may exit non-zero while printing usable
/// data, so the output is scraped regardless.
pub fn probe_outcome(success: bool, exit_code_one: bool, combined: &str) -> (r: ProbeOutcome)
    ensures
        (success || exit_code_one) ==> (r matches ProbeOutcome::Version(v) && (
        match first_banner(lines_of(combined@), 0) {
            Some(l) => v@ == l,
            None => v@ == "unknown"@,
        })),
        !(success || exit_code_one) ==> r is NotExecutable,
{
    if success || exit_code_one {
        ProbeOutcome::Version(scrape_version(combined))
    } else {
        ProbeOutcome::NotExecutable
    }
}

/// Availability of the three diagnostic tools, probed once per session.
#[derive(Debug, Clone)]
pub struct JdkToolsStatus {
    pub jcmd: ToolStatus,
    pub jstat: ToolStatus,
    pub jps: ToolStatus,
    pub java_home: Option<String>,
}

/// What the detected tools allow, derived once so that callers can decide
/// before attempting.
#[derive(Debug, Clone)]
pub struct Capabilities {
    pub can_discover: bool,
    pub can_heap_info: bool,
    pub can_gc_stats: bool,
    pub can_thread_dump: bool,
    pub can_class_histogram: bool,
    pub can_trigger_gc: bool,
}

impl JdkToolsStatus {
    /// Usability law: the rich tool alone suffices, and so do the two
    /// lighter tools together.
    pub fn is_usable(&self) -> (b: bool)
        ensures
            b == (self.jcmd is Available || (self.jps is Available && self.jstat is Available)),
    {
        self.jcmd.is_available() || (self.jps.is_available() && self.jstat.is_available())
    }

    /// Capability law: discovery needs the rich tool or the lighter lister;
    /// counters need the counters tool or the rich tool; heap, threads,
    /// histogram and collection triggering need the rich tool.
    pub fn capabilities(&self) -> (c: Capabilities)
        ensures
            c.can_discover == (self.jcmd is Available || self.jps is Available),
            c.can_heap_info == (self.jcmd is Available),
            c.can_gc_stats == (self.jstat is Available || self.jcmd is Available),
            c.can_thread_dump == (self.jcmd is Available),
            c.can_class_histogram == (self.jcmd is Available),
            c.can_trigger_gc == (self.jcmd is Available),
    {
        Capabilities {
            can_discover: self.jcmd.is_available() || self.jps.is_available(),
            can_heap_info: self.jcmd.is_available(),
            can_gc_stats: self.jstat.is_available() || self.jcmd.is_available(),
            can_thread_dump: self.jcmd.is_available(),
            can_class_histogram: self.jcmd.is_available(),
            can_trigger_gc: self.jcmd.is_available(),
        }
    }

    /// Succeeds exactly on a usable tool set; an unusable one is reported
    /// by its missing rich tool.
    pub fn validate(&self) -> (r: Result<(), JdkToolsError>)
        ensures
            match r {
                Ok(_) => self.jcmd is Available || (self.jps is Available && self.jstat
                    is Available),
                Err(e) => !(self.jcmd is Available || (self.jps is Available && self.jstat
                    is Available)) && e is JcmdNotFound,
            },
    {
        if !self.is_usable() {
            if !self.jcmd.is_available() {
                return Err(JdkToolsError::JcmdNotFound);
            }
            if !self.jstat.is_available() {
                return Err(JdkToolsError::JstatNotFound);
            }
            if !self.jps.is_available() {
                return Err(JdkToolsError::JpsNotFound);
            }
        }
        Ok(())
    }

    /// A human-readable account of what is missing and how to install it
    /// on the given platform.
    pub fn installation_guidance(&self, platform: Platform) -> (r: String)
        ensures
            r@.len() > 0,
    {
        let mut guidance = String::from_str("JDK tools detection failed on ");
        guidance.append(platform.name());
        guidance.append("\n\n");
        if !self.jcmd.is_available() {
            guidance.append("jcmd not found\n");
        }
        if !self.jstat.is_available() {
            guidance.append("jstat not found\n");
        }
        if !self.jps.is_available() {
            guidance.append("jps not found\n");
        }
        guidance.append("\nInstallation Instructions:\n\n");
        match platform {
            Platform::MacOs => {
                guidance.append("Using Homebrew:\n");
                guidance.append("  brew install openjdk@21\n\n");
                guidance.append("Or download from:\n");
                guidance.append("  https://adoptium.net/\n");
            },
            Platform::Linux => {
                guidance.append("Ubuntu/Debian:\n");
                guidance.append("  sudo apt update\n");
                guidance.append("  sudo apt install openjdk-21-jdk\n\n");
                guidance.append("RHEL/CentOS/Fedora:\n");
                guidance.append("  sudo dnf install java-21-openjdk-devel\n");
            },
            Platform::Windows => {
                guidance.append("Download and install:\n");
                guidance.append("  https://adoptium.net/\n\n");
                guidance.append("Then add to PATH:\n");
                guidance.append("  System Properties > Environment Variables > Path\n");
            },
            Platform::Unknown => {
                guidance.append("Please install a JDK (version 11 or higher).\n");
                guidance.append("Visit: https://adoptium.net/\n");
            },
        }
        match &self.java_home {
            Some(home) => {
                guidance.append("\nJAVA_HOME is set to: ");
                guidance.append(home.as_str());
                guidance.append("\nMake sure this JDK includes the required tools.\n");
            },
            None => {
                guidance.append("\nJAVA_HOME is not set.\n");
                guidance.append("Set it to your JDK installation directory.\n");
            },
        }
        proof {
            reveal_strlit("JDK tools detection failed on ");
        }
        guidance
    }
}

/// The platform the guidance text is written for; the caller names it.
#[derive(Debug, Clone, Copy, PartialEq, Eq, Structural)]
pub enum Platform {
    MacOs,
    Linux,
    Windows,
    Unknown,
}

impl Platform {
    pub fn name(&self) -> (r: &'static str)
        ensures
            r@.len() > 0,
    {
        match self {
            Platform::MacOs => {
                proof {
                    reveal_strlit("macOS");
                }
                "macOS"
            },
            Platform::Linux => {
                proof {
                    reveal_strlit("Linux");
                }
                "Linux"
            },
            Platform::Windows => {
                proof {
                    reveal_strlit("Windows");
                }
                "Windows"
            },
            Platform::Unknown => {
                proof {
                    reveal_strlit("Unknown");
                }
                "Unknown"
            },
        }
    }
}

} // verus!
