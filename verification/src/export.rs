//! The formats a snapshot can be exported in.  The serializers themselves
//! write files and live with the callers.

use vstd::prelude::*;

verus! {

#[derive(Debug, Clone, Copy, PartialEq, Eq, Structural)]
pub enum ExportFormat {
    Json,
    Prometheus,
    Csv,
}

} // verus!
