//! Failures of the local diagnostic tools: a missing tool is a capability
//! gap, a tool that ran and failed is a malfunction, and the two are kept
//! apart.

use vstd::prelude::*;

verus! {

#[derive(Debug, Clone)]
pub enum JdkToolsError {
    JcmdNotFound,
    JstatNotFound,
    JpsNotFound,
    /// The tool ran and failed; `source` carries the reported cause.
    ExecutionFailed { command: String, source: String },
    /// No output arrived within the enforced bound.
    Timeout { command: String },
    ParseError(String),
}

} // verus!
