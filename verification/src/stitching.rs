//! Options of stitched libraries.

use vstd::prelude::*;

verus! {

/// Options of a stitched library, as a bit set.
#[derive(Clone, Copy, Debug, PartialEq, Eq, Structural)]
pub struct StitchedLibraryOptions(pub usize);

impl StitchedLibraryOptions {
    /// No option.
    #[allow(non_snake_case)]
    pub fn NONE() -> (r: StitchedLibraryOptions)
        ensures
            r.0 == 0,
    {
        StitchedLibraryOptions(0)
    }

    /// Fail when a function is missing from the binary archives.
    #[allow(non_snake_case)]
    pub fn FAIL_ON_BINARY_ARCHIVE_MISS() -> (r: StitchedLibraryOptions)
        ensures
            r.0 == 1,
    {
        StitchedLibraryOptions(1)
    }

    /// Record the library in the Metal pipelines script.
    #[allow(non_snake_case)]
    pub fn STORE_LIBRARY_IN_METAL_PIPELINES_SCRIPT() -> (r: StitchedLibraryOptions)
        ensures
            r.0 == 2,
    {
        StitchedLibraryOptions(2)
    }

    /// The bits handed to Metal.
    pub fn as_raw(self) -> (r: usize)
        ensures
            r == self.0,
    {
        self.0
    }
}

} // verus!
