//! Where a GPU capture is sent.

use vstd::prelude::*;

verus! {

/// Where a GPU capture goes.
#[derive(Clone, Copy, Debug, PartialEq, Eq, Structural)]
pub enum CaptureDestination {
    DeveloperTools,
    GpuTraceDocument,
}

impl CaptureDestination {
    /// The value Metal uses for this variant.
    pub open spec fn raw_value(self) -> usize {
        match self {
            CaptureDestination::DeveloperTools => 1,
            CaptureDestination::GpuTraceDocument => 2,
        }
    }

    /// The value handed to Metal for this variant.
    pub fn as_raw(self) -> (r: usize)
        ensures
            r == self.raw_value(),
            self == CaptureDestination::DeveloperTools ==> r == 1,
            self == CaptureDestination::GpuTraceDocument ==> r == 2,
    {
        match self {
            CaptureDestination::DeveloperTools => 1,
            CaptureDestination::GpuTraceDocument => 2,
        }
    }

    /// Distinct variants have distinct raw values.
    pub proof fn lemma_raw_value_injective(a: CaptureDestination, b: CaptureDestination)
        ensures
            a.raw_value() == b.raw_value() <==> a == b,
    {
    }
}

} // verus!
