//! Plain values of the ray tracing API: acceleration structure sizes and the
//! option sets of geometries and acceleration structures.

use vstd::prelude::*;

verus! {

/// The memory an acceleration structure needs, in bytes.
#[derive(Clone, Copy, Debug, PartialEq, Eq, Structural)]
pub struct AccelerationStructureSizes {
    pub acceleration_structure_size: usize,
    pub build_scratch_buffer_size: usize,
    pub refit_scratch_buffer_size: usize,
}

impl Default for AccelerationStructureSizes {
    fn default() -> (r: AccelerationStructureSizes)
        ensures
            r == (AccelerationStructureSizes {
                acceleration_structure_size: 0,
                build_scratch_buffer_size: 0,
                refit_scratch_buffer_size: 0,
            }),
    {
        AccelerationStructureSizes {
            acceleration_structure_size: 0,
            build_scratch_buffer_size: 0,
            refit_scratch_buffer_size: 0,
        }
    }
}

/// Options of a geometry of an acceleration structure, as a bit set.
#[derive(Clone, Copy, Debug, PartialEq, Eq, Structural)]
pub struct AccelerationStructureGeometryFlags(pub usize);

impl AccelerationStructureGeometryFlags {
    /// No option.
    #[allow(non_snake_case)]
    pub fn NONE() -> (r: AccelerationStructureGeometryFlags)
        ensures
            r.0 == 0,
    {
        AccelerationStructureGeometryFlags(0)
    }

    /// The geometry is opaque.
    #[allow(non_snake_case)]
    pub fn OPAQUE() -> (r: AccelerationStructureGeometryFlags)
        ensures
            r.0 == 1,
    {
        AccelerationStructureGeometryFlags(1)
    }

    /// The geometry is not opaque.
    #[allow(non_snake_case)]
    pub fn NON_OPAQUE() -> (r: AccelerationStructureGeometryFlags)
        ensures
            r.0 == 2,
    {
        AccelerationStructureGeometryFlags(2)
    }
}

/// How an acceleration structure will be used, as a bit set.
#[derive(Clone, Copy, Debug, PartialEq, Eq, Structural)]
pub struct AccelerationStructureUsage(pub usize);

impl AccelerationStructureUsage {
    /// No hint.
    #[allow(non_snake_case)]
    pub fn NONE() -> (r: AccelerationStructureUsage)
        ensures
            r.0 == 0,
    {
        AccelerationStructureUsage(0)
    }

    /// The structure will be refitted.
    #[allow(non_snake_case)]
    pub fn REFIT() -> (r: AccelerationStructureUsage)
        ensures
            r.0 == 1,
    {
        AccelerationStructureUsage(1)
    }

    /// Building should be fast.
    #[allow(non_snake_case)]
    pub fn PREFER_FAST_BUILD() -> (r: AccelerationStructureUsage)
        ensures
            r.0 == 2,
    {
        AccelerationStructureUsage(2)
    }

    /// Intersection should be fast.
    #[allow(non_snake_case)]
    pub fn PREFER_FAST_INTERSECTION() -> (r: AccelerationStructureUsage)
        ensures
            r.0 == 4,
    {
        AccelerationStructureUsage(4)
    }
}

} // verus!
