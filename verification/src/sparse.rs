//! Mapping modes of sparse textures.

use vstd::prelude::*;

verus! {

/// Whether a sparse texture region gains or loses its memory.
#[derive(Clone, Copy, Debug, PartialEq, Eq, Structural)]
pub enum SparseTextureMappingMode {
    MapRegion,
    Unmap,
}

impl SparseTextureMappingMode {
    /// The value Metal uses for this variant.
    pub open spec fn raw_value(self) -> usize {
        match self {
            SparseTextureMappingMode::MapRegion => 0,
            SparseTextureMappingMode::Unmap => 1,
        }
    }

    /// The value handed to Metal for this variant.
    pub fn as_raw(self) -> (r: usize)
        ensures
            r == self.raw_value(),
            self == SparseTextureMappingMode::MapRegion ==> r == 0,
            self == SparseTextureMappingMode::Unmap ==> r == 1,
    {
        match self {
            SparseTextureMappingMode::MapRegion => 0,
            SparseTextureMappingMode::Unmap => 1,
        }
    }

    /// Distinct variants have distinct raw values.
    pub proof fn lemma_raw_value_injective(a: SparseTextureMappingMode, b: SparseTextureMappingMode)
        ensures
            a.raw_value() == b.raw_value() <==> a == b,
    {
    }
}

} // verus!
