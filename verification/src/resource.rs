//! The layout rules of texture descriptors.

use vstd::prelude::*;
use crate::types::TextureType;

verus! {

/// The texture type and array length of a cube texture descriptor for
/// `array_length` cubes: a single cube (`array_length` of 0 or 1) has six
/// slices; several cubes form a cube array with six slices each.
pub fn cube_texture_layout(array_length: usize) -> (r: (TextureType, usize))
    requires
        array_length <= usize::MAX / 6,
    ensures
        array_length > 1 ==> r == (TextureType::CubeArray, (array_length * 6) as usize),
        array_length <= 1 ==> r == (TextureType::Cube, 6usize),
{
    if array_length > 1 {
        (TextureType::CubeArray, array_length * 6)
    } else {
        (TextureType::Cube, 6)
    }
}

/// Every cube layout has a positive whole number of cubes' worth of slices,
/// and never fewer slices than cubes asked for.
pub proof fn lemma_cube_layout_slices(array_length: usize)
    requires
        array_length <= usize::MAX / 6,
    ensures
        ({
            let slices = if array_length > 1 { array_length * 6 } else { 6 };
            &&& slices % 6 == 0
            &&& slices >= 6
            &&& slices / 6 >= array_length
        }),
{
}

/// The texture type and array length of a 2D array texture descriptor.
pub fn texture_2d_array_layout(array_length: usize) -> (r: (TextureType, usize))
    ensures
        r == (TextureType::D2Array, array_length),
{
    (TextureType::D2Array, array_length)
}

} // verus!
