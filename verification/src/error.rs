//! Error taxonomy of the whole client.

use vstd::prelude::*;
use crate::jdk_tools_error::JdkToolsError;

verus! {

/// Top-level error: connection failures, parse failures, and the adjacent
/// configuration and I/O failures.  Payloads carry the human-readable context.
#[derive(Debug, Clone)]
pub enum AppError {
    JdkTools(JdkToolsError),
    Connection(String),
    /// A capability gap: the backend works, but the tool a request needs
    /// is not there.  Distinct from a tool malfunction.
    ToolUnavailable(String),
    Parse(String),
    Io(String),
    Tui(String),
    Config(String),
    Process(String),
    Serialization(String),
}

} // verus!
