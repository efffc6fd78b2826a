//! Per-stage timing breakdown of a capture, in milliseconds.
use vstd::prelude::*;

verus! {

/// Per-stage timing breakdown for a single snapshot, in milliseconds.
#[derive(Debug, Clone, Copy, PartialEq, Eq, Structural)]
pub struct CaptureTimings {
    pub viewport: u64,
    pub navigate: u64,
    pub page_load: u64,
    pub network: u64,
    pub animation: u64,
    pub ready: u64,
    pub selector: u64,
    pub clip: u64,
    pub screenshot: u64,
    pub total: u64,
    /// Time spent on image comparison. Zero when no reference exists.
    pub compare: u64,
}

} // verus!
