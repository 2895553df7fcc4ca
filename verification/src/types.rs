//! Plain value types shared by the Metal API surface: extents, origins,
//! regions, rectangles, ranges, the enumerations Metal takes by raw value,
//! and the bit sets of resource options, texture usages and color masks.

use vstd::prelude::*;
use vstd::std_specs::ops::BitOrSpec;

verus! {

/// Width, height and depth of a grid of texels or threads.
#[derive(Clone, Copy, Debug, PartialEq, Eq, Structural)]
pub struct Size {
    pub width: usize,
    pub height: usize,
    pub depth: usize,
}

impl Size {
    pub fn new(width: usize, height: usize, depth: usize) -> (r: Size)
        ensures
            r.width == width,
            r.height == height,
            r.depth == depth,
    {
        Size { width, height, depth }
    }
}

impl Default for Size {
    fn default() -> (r: Size)
        ensures
            r == (Size { width: 0, height: 0, depth: 0 }),
    {
        Size { width: 0, height: 0, depth: 0 }
    }
}

/// A point in a texture or grid.
#[derive(Clone, Copy, Debug, PartialEq, Eq, Structural)]
pub struct Origin {
    pub x: usize,
    pub y: usize,
    pub z: usize,
}

impl Origin {
    pub fn new(x: usize, y: usize, z: usize) -> (r: Origin)
        ensures
            r.x == x,
            r.y == y,
            r.z == z,
    {
        Origin { x, y, z }
    }
}

impl Default for Origin {
    fn default() -> (r: Origin)
        ensures
            r == (Origin { x: 0, y: 0, z: 0 }),
    {
        Origin { x: 0, y: 0, z: 0 }
    }
}

/// A box of a texture: its corner and its extent.
#[derive(Clone, Copy, Debug, PartialEq, Eq, Structural)]
pub struct Region {
    pub origin: Origin,
    pub size: Size,
}

impl Region {
    /// The flat region at `(x, y)` of `width` by `height`: it sits at depth 0
    /// and is one texel deep.
    pub fn new_2d(x: usize, y: usize, width: usize, height: usize) -> (r: Region)
        ensures
            r.origin == (Origin { x, y, z: 0 }),
            r.size == (Size { width, height, depth: 1 }),
    {
        Region { origin: Origin::new(x, y, 0), size: Size::new(width, height, 1) }
    }
}

impl Default for Region {
    fn default() -> (r: Region)
        ensures
            r == (Region { origin: Origin { x: 0, y: 0, z: 0 }, size: Size { width: 0, height: 0, depth: 0 } }),
    {
        Region { origin: Origin::default(), size: Size::default() }
    }
}

/// The rectangle outside of which fragments are discarded.
#[derive(Clone, Copy, Debug, PartialEq, Eq, Structural)]
pub struct ScissorRect {
    pub x: usize,
    pub y: usize,
    pub width: usize,
    pub height: usize,
}

impl ScissorRect {
    pub fn new(x: usize, y: usize, width: usize, height: usize) -> (r: ScissorRect)
        ensures
            r.x == x,
            r.y == y,
            r.width == width,
            r.height == height,
    {
        ScissorRect { x, y, width, height }
    }
}

impl Default for ScissorRect {
    fn default() -> (r: ScissorRect)
        ensures
            r == (ScissorRect { x: 0, y: 0, width: 0, height: 0 }),
    {
        ScissorRect { x: 0, y: 0, width: 0, height: 0 }
    }
}

/// A span of `length` items starting at `location`.
#[derive(Clone, Copy, Debug, PartialEq, Eq, Structural)]
pub struct Range {
    pub location: usize,
    pub length: usize,
}

impl Range {
    pub fn new(location: usize, length: usize) -> (r: Range)
        ensures
            r.location == location,
            r.length == length,
    {
        Range { location, length }
    }
}

impl Default for Range {
    fn default() -> (r: Range)
        ensures
            r == (Range { location: 0, length: 0 }),
    {
        Range { location: 0, length: 0 }
    }
}

/// Layout and encoding of the texels of a texture.
#[derive(Clone, Copy, Debug, PartialEq, Eq, Structural)]
pub enum PixelFormat {
    Invalid,
    R8Unorm,
    R8Uint,
    R16Float,
    Rg8Unorm,
    Rg16Float,
    Rgba8Unorm,
    Rgba8UnormSrgb,
    Bgra8Unorm,
    Bgra8UnormSrgb,
    Rgb10A2Unorm,
    Rg11B10Float,
    Rgb9E5Float,
    Rgba16Float,
    Rgba32Float,
    Bc1Rgba,
    Bc1RgbaSrgb,
    Bc2Rgba,
    Bc2RgbaSrgb,
    Bc3Rgba,
    Bc3RgbaSrgb,
    Bc4RUnorm,
    Bc5RgUnorm,
    Bc6HRgbFloat,
    Bc7RgbaUnorm,
    Bc7RgbaUnormSrgb,
    Depth16Unorm,
    Depth32Float,
    Stencil8,
    Depth24UnormStencil8,
    Depth32FloatStencil8,
}

impl PixelFormat {
    /// The value Metal uses for this variant.
    pub open spec fn raw_value(self) -> usize {
        match self {
            PixelFormat::Invalid => 0,
            PixelFormat::R8Unorm => 10,
            PixelFormat::R8Uint => 13,
            PixelFormat::R16Float => 25,
            PixelFormat::Rg8Unorm => 30,
            PixelFormat::Rg16Float => 65,
            PixelFormat::Rgba8Unorm => 70,
            PixelFormat::Rgba8UnormSrgb => 71,
            PixelFormat::Bgra8Unorm => 80,
            PixelFormat::Bgra8UnormSrgb => 81,
            PixelFormat::Rgb10A2Unorm => 90,
            PixelFormat::Rg11B10Float => 92,
            PixelFormat::Rgb9E5Float => 93,
            PixelFormat::Rgba16Float => 115,
            PixelFormat::Rgba32Float => 125,
            PixelFormat::Bc1Rgba => 130,
            PixelFormat::Bc1RgbaSrgb => 131,
            PixelFormat::Bc2Rgba => 132,
            PixelFormat::Bc2RgbaSrgb => 133,
            PixelFormat::Bc3Rgba => 134,
            PixelFormat::Bc3RgbaSrgb => 135,
            PixelFormat::Bc4RUnorm => 140,
            PixelFormat::Bc5RgUnorm => 142,
            PixelFormat::Bc6HRgbFloat => 150,
            PixelFormat::Bc7RgbaUnorm => 152,
            PixelFormat::Bc7RgbaUnormSrgb => 153,
            PixelFormat::Depth16Unorm => 250,
            PixelFormat::Depth32Float => 252,
            PixelFormat::Stencil8 => 253,
            PixelFormat::Depth24UnormStencil8 => 255,
            PixelFormat::Depth32FloatStencil8 => 260,
        }
    }

    /// The value handed to Metal for this variant.
    pub fn as_raw(self) -> (r: usize)
        ensures
            r == self.raw_value(),
            self == PixelFormat::Invalid ==> r == 0,
            self == PixelFormat::R8Unorm ==> r == 10,
            self == PixelFormat::R8Uint ==> r == 13,
            self == PixelFormat::R16Float ==> r == 25,
            self == PixelFormat::Rg8Unorm ==> r == 30,
            self == PixelFormat::Rg16Float ==> r == 65,
            self == PixelFormat::Rgba8Unorm ==> r == 70,
            self == PixelFormat::Rgba8UnormSrgb ==> r == 71,
            self == PixelFormat::Bgra8Unorm ==> r == 80,
            self == PixelFormat::Bgra8UnormSrgb ==> r == 81,
            self == PixelFormat::Rgb10A2Unorm ==> r == 90,
            self == PixelFormat::Rg11B10Float ==> r == 92,
            self == PixelFormat::Rgb9E5Float ==> r == 93,
            self == PixelFormat::Rgba16Float ==> r == 115,
            self == PixelFormat::Rgba32Float ==> r == 125,
            self == PixelFormat::Bc1Rgba ==> r == 130,
            self == PixelFormat::Bc1RgbaSrgb ==> r == 131,
            self == PixelFormat::Bc2Rgba ==> r == 132,
            self == PixelFormat::Bc2RgbaSrgb ==> r == 133,
            self == PixelFormat::Bc3Rgba ==> r == 134,
            self == PixelFormat::Bc3RgbaSrgb ==> r == 135,
            self == PixelFormat::Bc4RUnorm ==> r == 140,
            self == PixelFormat::Bc5RgUnorm ==> r == 142,
            self == PixelFormat::Bc6HRgbFloat ==> r == 150,
            self == PixelFormat::Bc7RgbaUnorm ==> r == 152,
            self == PixelFormat::Bc7RgbaUnormSrgb ==> r == 153,
            self == PixelFormat::Depth16Unorm ==> r == 250,
            self == PixelFormat::Depth32Float ==> r == 252,
            self == PixelFormat::Stencil8 ==> r == 253,
            self == PixelFormat::Depth24UnormStencil8 ==> r == 255,
            self == PixelFormat::Depth32FloatStencil8 ==> r == 260,
    {
        match self {
            PixelFormat::Invalid => 0,
            PixelFormat::R8Unorm => 10,
            PixelFormat::R8Uint => 13,
            PixelFormat::R16Float => 25,
            PixelFormat::Rg8Unorm => 30,
            PixelFormat::Rg16Float => 65,
            PixelFormat::Rgba8Unorm => 70,
            PixelFormat::Rgba8UnormSrgb => 71,
            PixelFormat::Bgra8Unorm => 80,
            PixelFormat::Bgra8UnormSrgb => 81,
            PixelFormat::Rgb10A2Unorm => 90,
            PixelFormat::Rg11B10Float => 92,
            PixelFormat::Rgb9E5Float => 93,
            PixelFormat::Rgba16Float => 115,
            PixelFormat::Rgba32Float => 125,
            PixelFormat::Bc1Rgba => 130,
            PixelFormat::Bc1RgbaSrgb => 131,
            PixelFormat::Bc2Rgba => 132,
            PixelFormat::Bc2RgbaSrgb => 133,
            PixelFormat::Bc3Rgba => 134,
            PixelFormat::Bc3RgbaSrgb => 135,
            PixelFormat::Bc4RUnorm => 140,
            PixelFormat::Bc5RgUnorm => 142,
            PixelFormat::Bc6HRgbFloat => 150,
            PixelFormat::Bc7RgbaUnorm => 152,
            PixelFormat::Bc7RgbaUnormSrgb => 153,
            PixelFormat::Depth16Unorm => 250,
            PixelFormat::Depth32Float => 252,
            PixelFormat::Stencil8 => 253,
            PixelFormat::Depth24UnormStencil8 => 255,
            PixelFormat::Depth32FloatStencil8 => 260,
        }
    }

    /// Distinct variants have distinct raw values.
    pub proof fn lemma_raw_value_injective(a: PixelFormat, b: PixelFormat)
        ensures
            a.raw_value() == b.raw_value() <==> a == b,
    {
    }
}

impl PixelFormat {
    /// Whether texels of this format hold a depth value.
    pub open spec fn has_depth(self) -> bool {
        match self {
            PixelFormat::Depth16Unorm | PixelFormat::Depth32Float | PixelFormat::Depth24UnormStencil8
            | PixelFormat::Depth32FloatStencil8 => true,
            _ => false,
        }
    }

    /// Whether texels of this format hold a stencil value.
    pub open spec fn has_stencil(self) -> bool {
        match self {
            PixelFormat::Stencil8 | PixelFormat::Depth24UnormStencil8
            | PixelFormat::Depth32FloatStencil8 => true,
            _ => false,
        }
    }

    /// The sRGB-encoded counterpart of a linear color format, where Metal has
    /// one.
    pub open spec fn srgb_counterpart(self) -> Option<PixelFormat> {
        match self {
            PixelFormat::Rgba8Unorm => Some(PixelFormat::Rgba8UnormSrgb),
            PixelFormat::Bgra8Unorm => Some(PixelFormat::Bgra8UnormSrgb),
            PixelFormat::Bc1Rgba => Some(PixelFormat::Bc1RgbaSrgb),
            PixelFormat::Bc2Rgba => Some(PixelFormat::Bc2RgbaSrgb),
            PixelFormat::Bc3Rgba => Some(PixelFormat::Bc3RgbaSrgb),
            PixelFormat::Bc7RgbaUnorm => Some(PixelFormat::Bc7RgbaUnormSrgb),
            _ => None,
        }
    }

    /// How Metal numbers pixel formats: the depth and stencil formats are
    /// exactly those numbered 250 to 260, and among them every format without
    /// stencil comes before every format with stencil; an sRGB format follows
    /// its linear counterpart directly.
    pub proof fn lemma_raw_value_layout(f: PixelFormat, g: PixelFormat)
        ensures
            f.has_depth() || f.has_stencil() <==> 250 <= f.raw_value() <= 260,
            (f.has_depth() || f.has_stencil()) && !f.has_stencil() && g.has_stencil() ==> f.raw_value()
                < g.raw_value(),
            f.srgb_counterpart() matches Some(s) ==> s.raw_value() == f.raw_value() + 1,
    {
    }
}


/// Where the memory of a resource lives and who may touch it.
#[derive(Clone, Copy, Debug, PartialEq, Eq, Structural)]
pub enum StorageMode {
    Shared,
    Managed,
    Private,
}

impl StorageMode {
    /// The value Metal uses for this variant.
    pub open spec fn raw_value(self) -> usize {
        match self {
            StorageMode::Shared => 0,
            StorageMode::Managed => 1,
            StorageMode::Private => 2,
        }
    }

    /// The value handed to Metal for this variant.
    pub fn as_raw(self) -> (r: usize)
        ensures
            r == self.raw_value(),
            self == StorageMode::Shared ==> r == 0,
            self == StorageMode::Managed ==> r == 1,
            self == StorageMode::Private ==> r == 2,
    {
        match self {
            StorageMode::Shared => 0,
            StorageMode::Managed => 1,
            StorageMode::Private => 2,
        }
    }

    /// Distinct variants have distinct raw values.
    pub proof fn lemma_raw_value_injective(a: StorageMode, b: StorageMode)
        ensures
            a.raw_value() == b.raw_value() <==> a == b,
    {
    }
}

/// How the CPU caches the memory of a resource.
#[derive(Clone, Copy, Debug, PartialEq, Eq, Structural)]
pub enum CpuCacheMode {
    DefaultCache,
    WriteCombined,
}

impl CpuCacheMode {
    /// The value Metal uses for this variant.
    pub open spec fn raw_value(self) -> usize {
        match self {
            CpuCacheMode::DefaultCache => 0,
            CpuCacheMode::WriteCombined => 1,
        }
    }

    /// The value handed to Metal for this variant.
    pub fn as_raw(self) -> (r: usize)
        ensures
            r == self.raw_value(),
            self == CpuCacheMode::DefaultCache ==> r == 0,
            self == CpuCacheMode::WriteCombined ==> r == 1,
    {
        match self {
            CpuCacheMode::DefaultCache => 0,
            CpuCacheMode::WriteCombined => 1,
        }
    }

    /// Distinct variants have distinct raw values.
    pub proof fn lemma_raw_value_injective(a: CpuCacheMode, b: CpuCacheMode)
        ensures
            a.raw_value() == b.raw_value() <==> a == b,
    {
    }
}

/// Whether Metal tracks the hazards of a resource.
#[derive(Clone, Copy, Debug, PartialEq, Eq, Structural)]
pub enum HazardTrackingMode {
    Default,
    Untracked,
    Tracking,
}

impl HazardTrackingMode {
    /// The value Metal uses for this variant.
    pub open spec fn raw_value(self) -> usize {
        match self {
            HazardTrackingMode::Default => 0,
            HazardTrackingMode::Untracked => 1,
            HazardTrackingMode::Tracking => 2,
        }
    }

    /// The value handed to Metal for this variant.
    pub fn as_raw(self) -> (r: usize)
        ensures
            r == self.raw_value(),
            self == HazardTrackingMode::Default ==> r == 0,
            self == HazardTrackingMode::Untracked ==> r == 1,
            self == HazardTrackingMode::Tracking ==> r == 2,
    {
        match self {
            HazardTrackingMode::Default => 0,
            HazardTrackingMode::Untracked => 1,
            HazardTrackingMode::Tracking => 2,
        }
    }

    /// Distinct variants have distinct raw values.
    pub proof fn lemma_raw_value_injective(a: HazardTrackingMode, b: HazardTrackingMode)
        ensures
            a.raw_value() == b.raw_value() <==> a == b,
    {
    }
}

/// What a render pass does with an attachment when it begins.
#[derive(Clone, Copy, Debug, PartialEq, Eq, Structural)]
pub enum LoadAction {
    DontCare,
    Load,
    Clear,
}

impl LoadAction {
    /// The value Metal uses for this variant.
    pub open spec fn raw_value(self) -> usize {
        match self {
            LoadAction::DontCare => 0,
            LoadAction::Load => 1,
            LoadAction::Clear => 2,
        }
    }

    /// The value handed to Metal for this variant.
    pub fn as_raw(self) -> (r: usize)
        ensures
            r == self.raw_value(),
            self == LoadAction::DontCare ==> r == 0,
            self == LoadAction::Load ==> r == 1,
            self == LoadAction::Clear ==> r == 2,
    {
        match self {
            LoadAction::DontCare => 0,
            LoadAction::Load => 1,
            LoadAction::Clear => 2,
        }
    }

    /// Distinct variants have distinct raw values.
    pub proof fn lemma_raw_value_injective(a: LoadAction, b: LoadAction)
        ensures
            a.raw_value() == b.raw_value() <==> a == b,
    {
    }

    /// The variant whose raw value is `raw`, if there is one.
    pub open spec fn from_raw_spec(raw: usize) -> Option<LoadAction> {
        if raw == 0 {
            Some(LoadAction::DontCare)
        } else if raw == 1 {
            Some(LoadAction::Load)
        } else if raw == 2 {
            Some(LoadAction::Clear)
        } else {
            None
        }
    }

    /// Decodes a raw Metal value; `None` when no variant has it.
    pub fn from_raw(raw: usize) -> (r: Option<LoadAction>)
        ensures
            r == LoadAction::from_raw_spec(raw),
            r matches Some(e) ==> e.raw_value() == raw,
            r is None <==> forall|e: LoadAction| e.raw_value() != raw,
            raw == 0 ==> r == Some(LoadAction::DontCare),
            raw == 1 ==> r == Some(LoadAction::Load),
            raw == 2 ==> r == Some(LoadAction::Clear),
    {
        proof {
            LoadAction::lemma_from_raw_sound(raw);
        }
        match raw {
            0 => Some(LoadAction::DontCare),
            1 => Some(LoadAction::Load),
            2 => Some(LoadAction::Clear),
            _ => None,
        }
    }

    /// Decoding the raw value of a variant gives that variant back.
    pub proof fn lemma_from_raw_roundtrip(e: LoadAction)
        ensures
            LoadAction::from_raw_spec(e.raw_value()) == Some(e),
    {
    }

    /// Whatever decoding gives has the raw value that was decoded, and
    /// decoding fails exactly on the values no variant has.
    pub proof fn lemma_from_raw_sound(raw: usize)
        ensures
            LoadAction::from_raw_spec(raw) matches Some(e) ==> e.raw_value() == raw,
            LoadAction::from_raw_spec(raw) is None <==> forall|e: LoadAction| e.raw_value() != raw,
    {
        assert(LoadAction::DontCare.raw_value() == 0);
        assert(LoadAction::Load.raw_value() == 1);
        assert(LoadAction::Clear.raw_value() == 2);
        if let Some(e) = LoadAction::from_raw_spec(raw) {
            assert(e.raw_value() == raw);
        }
    }
}

/// What a render pass does with an attachment when it ends.
#[derive(Clone, Copy, Debug, PartialEq, Eq, Structural)]
pub enum StoreAction {
    DontCare,
    Store,
    MultisampleResolve,
}

impl StoreAction {
    /// The value Metal uses for this variant.
    pub open spec fn raw_value(self) -> usize {
        match self {
            StoreAction::DontCare => 0,
            StoreAction::Store => 1,
            StoreAction::MultisampleResolve => 2,
        }
    }

    /// The value handed to Metal for this variant.
    pub fn as_raw(self) -> (r: usize)
        ensures
            r == self.raw_value(),
            self == StoreAction::DontCare ==> r == 0,
            self == StoreAction::Store ==> r == 1,
            self == StoreAction::MultisampleResolve ==> r == 2,
    {
        match self {
            StoreAction::DontCare => 0,
            StoreAction::Store => 1,
            StoreAction::MultisampleResolve => 2,
        }
    }

    /// Distinct variants have distinct raw values.
    pub proof fn lemma_raw_value_injective(a: StoreAction, b: StoreAction)
        ensures
            a.raw_value() == b.raw_value() <==> a == b,
    {
    }

    /// The variant whose raw value is `raw`, if there is one.
    pub open spec fn from_raw_spec(raw: usize) -> Option<StoreAction> {
        if raw == 0 {
            Some(StoreAction::DontCare)
        } else if raw == 1 {
            Some(StoreAction::Store)
        } else if raw == 2 {
            Some(StoreAction::MultisampleResolve)
        } else {
            None
        }
    }

    /// Decodes a raw Metal value; `None` when no variant has it.
    pub fn from_raw(raw: usize) -> (r: Option<StoreAction>)
        ensures
            r == StoreAction::from_raw_spec(raw),
            r matches Some(e) ==> e.raw_value() == raw,
            r is None <==> forall|e: StoreAction| e.raw_value() != raw,
            raw == 0 ==> r == Some(StoreAction::DontCare),
            raw == 1 ==> r == Some(StoreAction::Store),
            raw == 2 ==> r == Some(StoreAction::MultisampleResolve),
    {
        proof {
            StoreAction::lemma_from_raw_sound(raw);
        }
        match raw {
            0 => Some(StoreAction::DontCare),
            1 => Some(StoreAction::Store),
            2 => Some(StoreAction::MultisampleResolve),
            _ => None,
        }
    }

    /// Decoding the raw value of a variant gives that variant back.
    pub proof fn lemma_from_raw_roundtrip(e: StoreAction)
        ensures
            StoreAction::from_raw_spec(e.raw_value()) == Some(e),
    {
    }

    /// Whatever decoding gives has the raw value that was decoded, and
    /// decoding fails exactly on the values no variant has.
    pub proof fn lemma_from_raw_sound(raw: usize)
        ensures
            StoreAction::from_raw_spec(raw) matches Some(e) ==> e.raw_value() == raw,
            StoreAction::from_raw_spec(raw) is None <==> forall|e: StoreAction| e.raw_value() != raw,
    {
        assert(StoreAction::DontCare.raw_value() == 0);
        assert(StoreAction::Store.raw_value() == 1);
        assert(StoreAction::MultisampleResolve.raw_value() == 2);
        if let Some(e) = StoreAction::from_raw_spec(raw) {
            assert(e.raw_value() == raw);
        }
    }
}

/// The geometric primitive that a draw call assembles.
#[derive(Clone, Copy, Debug, PartialEq, Eq, Structural)]
pub enum PrimitiveType {
    Point,
    Line,
    LineStrip,
    Triangle,
    TriangleStrip,
}

impl PrimitiveType {
    /// The value Metal uses for this variant.
    pub open spec fn raw_value(self) -> usize {
        match self {
            PrimitiveType::Point => 0,
            PrimitiveType::Line => 1,
            PrimitiveType::LineStrip => 2,
            PrimitiveType::Triangle => 3,
            PrimitiveType::TriangleStrip => 4,
        }
    }

    /// The value handed to Metal for this variant.
    pub fn as_raw(self) -> (r: usize)
        ensures
            r == self.raw_value(),
            self == PrimitiveType::Point ==> r == 0,
            self == PrimitiveType::Line ==> r == 1,
            self == PrimitiveType::LineStrip ==> r == 2,
            self == PrimitiveType::Triangle ==> r == 3,
            self == PrimitiveType::TriangleStrip ==> r == 4,
    {
        match self {
            PrimitiveType::Point => 0,
            PrimitiveType::Line => 1,
            PrimitiveType::LineStrip => 2,
            PrimitiveType::Triangle => 3,
            PrimitiveType::TriangleStrip => 4,
        }
    }

    /// Distinct variants have distinct raw values.
    pub proof fn lemma_raw_value_injective(a: PrimitiveType, b: PrimitiveType)
        ensures
            a.raw_value() == b.raw_value() <==> a == b,
    {
    }
}

/// The dimensionality and arrangement of a texture.
#[derive(Clone, Copy, Debug, PartialEq, Eq, Structural)]
pub enum TextureType {
    D1,
    D1Array,
    D2,
    D2Array,
    D2Multisample,
    Cube,
    CubeArray,
    D3,
    D2MultisampleArray,
}

impl TextureType {
    /// The value Metal uses for this variant.
    pub open spec fn raw_value(self) -> usize {
        match self {
            TextureType::D1 => 0,
            TextureType::D1Array => 1,
            TextureType::D2 => 2,
            TextureType::D2Array => 3,
            TextureType::D2Multisample => 4,
            TextureType::Cube => 5,
            TextureType::CubeArray => 6,
            TextureType::D3 => 7,
            TextureType::D2MultisampleArray => 8,
        }
    }

    /// The value handed to Metal for this variant.
    pub fn as_raw(self) -> (r: usize)
        ensures
            r == self.raw_value(),
            self == TextureType::D1 ==> r == 0,
            self == TextureType::D1Array ==> r == 1,
            self == TextureType::D2 ==> r == 2,
            self == TextureType::D2Array ==> r == 3,
            self == TextureType::D2Multisample ==> r == 4,
            self == TextureType::Cube ==> r == 5,
            self == TextureType::CubeArray ==> r == 6,
            self == TextureType::D3 ==> r == 7,
            self == TextureType::D2MultisampleArray ==> r == 8,
    {
        match self {
            TextureType::D1 => 0,
            TextureType::D1Array => 1,
            TextureType::D2 => 2,
            TextureType::D2Array => 3,
            TextureType::D2Multisample => 4,
            TextureType::Cube => 5,
            TextureType::CubeArray => 6,
            TextureType::D3 => 7,
            TextureType::D2MultisampleArray => 8,
        }
    }

    /// Distinct variants have distinct raw values.
    pub proof fn lemma_raw_value_injective(a: TextureType, b: TextureType)
        ensures
            a.raw_value() == b.raw_value() <==> a == b,
    {
    }
}

/// A comparison used by depth, stencil and sampler tests.
#[derive(Clone, Copy, Debug, PartialEq, Eq, Structural)]
pub enum CompareFunction {
    Never,
    Less,
    Equal,
    LessEqual,
    Greater,
    NotEqual,
    GreaterEqual,
    Always,
}

impl CompareFunction {
    /// The value Metal uses for this variant.
    pub open spec fn raw_value(self) -> usize {
        match self {
            CompareFunction::Never => 0,
            CompareFunction::Less => 1,
            CompareFunction::Equal => 2,
            CompareFunction::LessEqual => 3,
            CompareFunction::Greater => 4,
            CompareFunction::NotEqual => 5,
            CompareFunction::GreaterEqual => 6,
            CompareFunction::Always => 7,
        }
    }

    /// The value handed to Metal for this variant.
    pub fn as_raw(self) -> (r: usize)
        ensures
            r == self.raw_value(),
            self == CompareFunction::Never ==> r == 0,
            self == CompareFunction::Less ==> r == 1,
            self == CompareFunction::Equal ==> r == 2,
            self == CompareFunction::LessEqual ==> r == 3,
            self == CompareFunction::Greater ==> r == 4,
            self == CompareFunction::NotEqual ==> r == 5,
            self == CompareFunction::GreaterEqual ==> r == 6,
            self == CompareFunction::Always ==> r == 7,
    {
        match self {
            CompareFunction::Never => 0,
            CompareFunction::Less => 1,
            CompareFunction::Equal => 2,
            CompareFunction::LessEqual => 3,
            CompareFunction::Greater => 4,
            CompareFunction::NotEqual => 5,
            CompareFunction::GreaterEqual => 6,
            CompareFunction::Always => 7,
        }
    }

    /// Distinct variants have distinct raw values.
    pub proof fn lemma_raw_value_injective(a: CompareFunction, b: CompareFunction)
        ensures
            a.raw_value() == b.raw_value() <==> a == b,
    {
    }
}

impl CompareFunction {
    /// Whether a test with this function passes for an incoming value
    /// against a stored one.
    pub open spec fn passes(self, incoming: int, stored: int) -> bool {
        match self {
            CompareFunction::Never => false,
            CompareFunction::Less => incoming < stored,
            CompareFunction::Equal => incoming == stored,
            CompareFunction::LessEqual => incoming <= stored,
            CompareFunction::Greater => incoming > stored,
            CompareFunction::NotEqual => incoming != stored,
            CompareFunction::GreaterEqual => incoming >= stored,
            CompareFunction::Always => true,
        }
    }

    /// Metal's raw value of a compare function is a set of three bits: bit 0
    /// says that the test passes when the incoming value is less than the
    /// stored one, bit 1 when it is equal, bit 2 when it is greater.
    pub proof fn lemma_raw_value_bits(f: CompareFunction, incoming: int, stored: int)
        ensures
            f.raw_value() < 8,
            incoming < stored ==> (f.passes(incoming, stored) <==> f.raw_value() % 2 == 1),
            incoming == stored ==> (f.passes(incoming, stored) <==> (f.raw_value() / 2) % 2 == 1),
            incoming > stored ==> (f.passes(incoming, stored) <==> (f.raw_value() / 4) % 2 == 1),
    {
    }
}


/// What a stencil test does to the stored stencil value.
#[derive(Clone, Copy, Debug, PartialEq, Eq, Structural)]
pub enum StencilOperation {
    Keep,
    Zero,
    Replace,
    IncrementClamp,
    DecrementClamp,
    Invert,
    IncrementWrap,
    DecrementWrap,
}

impl StencilOperation {
    /// The value Metal uses for this variant.
    pub open spec fn raw_value(self) -> usize {
        match self {
            StencilOperation::Keep => 0,
            StencilOperation::Zero => 1,
            StencilOperation::Replace => 2,
            StencilOperation::IncrementClamp => 3,
            StencilOperation::DecrementClamp => 4,
            StencilOperation::Invert => 5,
            StencilOperation::IncrementWrap => 6,
            StencilOperation::DecrementWrap => 7,
        }
    }

    /// The value handed to Metal for this variant.
    pub fn as_raw(self) -> (r: usize)
        ensures
            r == self.raw_value(),
            self == StencilOperation::Keep ==> r == 0,
            self == StencilOperation::Zero ==> r == 1,
            self == StencilOperation::Replace ==> r == 2,
            self == StencilOperation::IncrementClamp ==> r == 3,
            self == StencilOperation::DecrementClamp ==> r == 4,
            self == StencilOperation::Invert ==> r == 5,
            self == StencilOperation::IncrementWrap ==> r == 6,
            self == StencilOperation::DecrementWrap ==> r == 7,
    {
        match self {
            StencilOperation::Keep => 0,
            StencilOperation::Zero => 1,
            StencilOperation::Replace => 2,
            StencilOperation::IncrementClamp => 3,
            StencilOperation::DecrementClamp => 4,
            StencilOperation::Invert => 5,
            StencilOperation::IncrementWrap => 6,
            StencilOperation::DecrementWrap => 7,
        }
    }

    /// Distinct variants have distinct raw values.
    pub proof fn lemma_raw_value_injective(a: StencilOperation, b: StencilOperation)
        ensures
            a.raw_value() == b.raw_value() <==> a == b,
    {
    }
}

/// A factor of the blend equation.
#[derive(Clone, Copy, Debug, PartialEq, Eq, Structural)]
pub enum BlendFactor {
    Zero,
    One,
    SourceColor,
    OneMinusSourceColor,
    SourceAlpha,
    OneMinusSourceAlpha,
    DestinationColor,
    OneMinusDestinationColor,
    DestinationAlpha,
    OneMinusDestinationAlpha,
}

impl BlendFactor {
    /// The value Metal uses for this variant.
    pub open spec fn raw_value(self) -> usize {
        match self {
            BlendFactor::Zero => 0,
            BlendFactor::One => 1,
            BlendFactor::SourceColor => 2,
            BlendFactor::OneMinusSourceColor => 3,
            BlendFactor::SourceAlpha => 4,
            BlendFactor::OneMinusSourceAlpha => 5,
            BlendFactor::DestinationColor => 6,
            BlendFactor::OneMinusDestinationColor => 7,
            BlendFactor::DestinationAlpha => 8,
            BlendFactor::OneMinusDestinationAlpha => 9,
        }
    }

    /// The value handed to Metal for this variant.
    pub fn as_raw(self) -> (r: usize)
        ensures
            r == self.raw_value(),
            self == BlendFactor::Zero ==> r == 0,
            self == BlendFactor::One ==> r == 1,
            self == BlendFactor::SourceColor ==> r == 2,
            self == BlendFactor::OneMinusSourceColor ==> r == 3,
            self == BlendFactor::SourceAlpha ==> r == 4,
            self == BlendFactor::OneMinusSourceAlpha ==> r == 5,
            self == BlendFactor::DestinationColor ==> r == 6,
            self == BlendFactor::OneMinusDestinationColor ==> r == 7,
            self == BlendFactor::DestinationAlpha ==> r == 8,
            self == BlendFactor::OneMinusDestinationAlpha ==> r == 9,
    {
        match self {
            BlendFactor::Zero => 0,
            BlendFactor::One => 1,
            BlendFactor::SourceColor => 2,
            BlendFactor::OneMinusSourceColor => 3,
            BlendFactor::SourceAlpha => 4,
            BlendFactor::OneMinusSourceAlpha => 5,
            BlendFactor::DestinationColor => 6,
            BlendFactor::OneMinusDestinationColor => 7,
            BlendFactor::DestinationAlpha => 8,
            BlendFactor::OneMinusDestinationAlpha => 9,
        }
    }

    /// Distinct variants have distinct raw values.
    pub proof fn lemma_raw_value_injective(a: BlendFactor, b: BlendFactor)
        ensures
            a.raw_value() == b.raw_value() <==> a == b,
    {
    }
}

/// How the two sides of the blend equation are combined.
#[derive(Clone, Copy, Debug, PartialEq, Eq, Structural)]
pub enum BlendOperation {
    Add,
    Subtract,
    ReverseSubtract,
    Min,
    Max,
}

impl BlendOperation {
    /// The value Metal uses for this variant.
    pub open spec fn raw_value(self) -> usize {
        match self {
            BlendOperation::Add => 0,
            BlendOperation::Subtract => 1,
            BlendOperation::ReverseSubtract => 2,
            BlendOperation::Min => 3,
            BlendOperation::Max => 4,
        }
    }

    /// The value handed to Metal for this variant.
    pub fn as_raw(self) -> (r: usize)
        ensures
            r == self.raw_value(),
            self == BlendOperation::Add ==> r == 0,
            self == BlendOperation::Subtract ==> r == 1,
            self == BlendOperation::ReverseSubtract ==> r == 2,
            self == BlendOperation::Min ==> r == 3,
            self == BlendOperation::Max ==> r == 4,
    {
        match self {
            BlendOperation::Add => 0,
            BlendOperation::Subtract => 1,
            BlendOperation::ReverseSubtract => 2,
            BlendOperation::Min => 3,
            BlendOperation::Max => 4,
        }
    }

    /// Distinct variants have distinct raw values.
    pub proof fn lemma_raw_value_injective(a: BlendOperation, b: BlendOperation)
        ensures
            a.raw_value() == b.raw_value() <==> a == b,
    {
    }
}

/// The format of one vertex attribute.
#[derive(Clone, Copy, Debug, PartialEq, Eq, Structural)]
pub enum VertexFormat {
    Invalid,
    UChar2,
    UChar3,
    UChar4,
    Float,
    Float2,
    Float3,
    Float4,
    Int,
    Int2,
    Int3,
    Int4,
    UInt,
    UInt2,
    UInt3,
    UInt4,
    Half,
    Half2,
    Half3,
    Half4,
}

impl VertexFormat {
    /// The value Metal uses for this variant.
    pub open spec fn raw_value(self) -> usize {
        match self {
            VertexFormat::Invalid => 0,
            VertexFormat::UChar2 => 1,
            VertexFormat::UChar3 => 2,
            VertexFormat::UChar4 => 3,
            VertexFormat::Float => 28,
            VertexFormat::Float2 => 29,
            VertexFormat::Float3 => 30,
            VertexFormat::Float4 => 31,
            VertexFormat::Int => 32,
            VertexFormat::Int2 => 33,
            VertexFormat::Int3 => 34,
            VertexFormat::Int4 => 35,
            VertexFormat::UInt => 36,
            VertexFormat::UInt2 => 37,
            VertexFormat::UInt3 => 38,
            VertexFormat::UInt4 => 39,
            VertexFormat::Half => 40,
            VertexFormat::Half2 => 41,
            VertexFormat::Half3 => 42,
            VertexFormat::Half4 => 43,
        }
    }

    /// The value handed to Metal for this variant.
    pub fn as_raw(self) -> (r: usize)
        ensures
            r == self.raw_value(),
            self == VertexFormat::Invalid ==> r == 0,
            self == VertexFormat::UChar2 ==> r == 1,
            self == VertexFormat::UChar3 ==> r == 2,
            self == VertexFormat::UChar4 ==> r == 3,
            self == VertexFormat::Float ==> r == 28,
            self == VertexFormat::Float2 ==> r == 29,
            self == VertexFormat::Float3 ==> r == 30,
            self == VertexFormat::Float4 ==> r == 31,
            self == VertexFormat::Int ==> r == 32,
            self == VertexFormat::Int2 ==> r == 33,
            self == VertexFormat::Int3 ==> r == 34,
            self == VertexFormat::Int4 ==> r == 35,
            self == VertexFormat::UInt ==> r == 36,
            self == VertexFormat::UInt2 ==> r == 37,
            self == VertexFormat::UInt3 ==> r == 38,
            self == VertexFormat::UInt4 ==> r == 39,
            self == VertexFormat::Half ==> r == 40,
            self == VertexFormat::Half2 ==> r == 41,
            self == VertexFormat::Half3 ==> r == 42,
            self == VertexFormat::Half4 ==> r == 43,
    {
        match self {
            VertexFormat::Invalid => 0,
            VertexFormat::UChar2 => 1,
            VertexFormat::UChar3 => 2,
            VertexFormat::UChar4 => 3,
            VertexFormat::Float => 28,
            VertexFormat::Float2 => 29,
            VertexFormat::Float3 => 30,
            VertexFormat::Float4 => 31,
            VertexFormat::Int => 32,
            VertexFormat::Int2 => 33,
            VertexFormat::Int3 => 34,
            VertexFormat::Int4 => 35,
            VertexFormat::UInt => 36,
            VertexFormat::UInt2 => 37,
            VertexFormat::UInt3 => 38,
            VertexFormat::UInt4 => 39,
            VertexFormat::Half => 40,
            VertexFormat::Half2 => 41,
            VertexFormat::Half3 => 42,
            VertexFormat::Half4 => 43,
        }
    }

    /// Distinct variants have distinct raw values.
    pub proof fn lemma_raw_value_injective(a: VertexFormat, b: VertexFormat)
        ensures
            a.raw_value() == b.raw_value() <==> a == b,
    {
    }
}

/// How often a vertex buffer advances.
#[derive(Clone, Copy, Debug, PartialEq, Eq, Structural)]
pub enum VertexStepFunction {
    Constant,
    PerVertex,
    PerInstance,
    PerPatch,
    PerPatchControlPoint,
}

impl VertexStepFunction {
    /// The value Metal uses for this variant.
    pub open spec fn raw_value(self) -> usize {
        match self {
            VertexStepFunction::Constant => 0,
            VertexStepFunction::PerVertex => 1,
            VertexStepFunction::PerInstance => 2,
            VertexStepFunction::PerPatch => 3,
            VertexStepFunction::PerPatchControlPoint => 4,
        }
    }

    /// The value handed to Metal for this variant.
    pub fn as_raw(self) -> (r: usize)
        ensures
            r == self.raw_value(),
            self == VertexStepFunction::Constant ==> r == 0,
            self == VertexStepFunction::PerVertex ==> r == 1,
            self == VertexStepFunction::PerInstance ==> r == 2,
            self == VertexStepFunction::PerPatch ==> r == 3,
            self == VertexStepFunction::PerPatchControlPoint ==> r == 4,
    {
        match self {
            VertexStepFunction::Constant => 0,
            VertexStepFunction::PerVertex => 1,
            VertexStepFunction::PerInstance => 2,
            VertexStepFunction::PerPatch => 3,
            VertexStepFunction::PerPatchControlPoint => 4,
        }
    }

    /// Distinct variants have distinct raw values.
    pub proof fn lemma_raw_value_injective(a: VertexStepFunction, b: VertexStepFunction)
        ensures
            a.raw_value() == b.raw_value() <==> a == b,
    {
    }
}

/// The width of the entries of an index buffer.
#[derive(Clone, Copy, Debug, PartialEq, Eq, Structural)]
pub enum IndexType {
    UInt16,
    UInt32,
}

impl IndexType {
    /// The value Metal uses for this variant.
    pub open spec fn raw_value(self) -> usize {
        match self {
            IndexType::UInt16 => 0,
            IndexType::UInt32 => 1,
        }
    }

    /// The value handed to Metal for this variant.
    pub fn as_raw(self) -> (r: usize)
        ensures
            r == self.raw_value(),
            self == IndexType::UInt16 ==> r == 0,
            self == IndexType::UInt32 ==> r == 1,
    {
        match self {
            IndexType::UInt16 => 0,
            IndexType::UInt32 => 1,
        }
    }

    /// Distinct variants have distinct raw values.
    pub proof fn lemma_raw_value_injective(a: IndexType, b: IndexType)
        ensures
            a.raw_value() == b.raw_value() <==> a == b,
    {
    }
}

impl IndexType {
    /// The size of one index, in bytes.
    pub open spec fn index_bytes(self) -> nat {
        match self {
            IndexType::UInt16 => 2,
            IndexType::UInt32 => 4,
        }
    }

    /// Metal numbers index types by width: an index of `raw + 1` pairs of
    /// bytes has the raw value `raw`.
    pub proof fn lemma_raw_value_is_width(t: IndexType)
        ensures
            t.index_bytes() == 2 * (t.raw_value() + 1),
    {
    }
}


/// Filtering within one mipmap level.
#[derive(Clone, Copy, Debug, PartialEq, Eq, Structural)]
pub enum SamplerMinMagFilter {
    Nearest,
    Linear,
}

impl SamplerMinMagFilter {
    /// The value Metal uses for this variant.
    pub open spec fn raw_value(self) -> usize {
        match self {
            SamplerMinMagFilter::Nearest => 0,
            SamplerMinMagFilter::Linear => 1,
        }
    }

    /// The value handed to Metal for this variant.
    pub fn as_raw(self) -> (r: usize)
        ensures
            r == self.raw_value(),
            self == SamplerMinMagFilter::Nearest ==> r == 0,
            self == SamplerMinMagFilter::Linear ==> r == 1,
    {
        match self {
            SamplerMinMagFilter::Nearest => 0,
            SamplerMinMagFilter::Linear => 1,
        }
    }

    /// Distinct variants have distinct raw values.
    pub proof fn lemma_raw_value_injective(a: SamplerMinMagFilter, b: SamplerMinMagFilter)
        ensures
            a.raw_value() == b.raw_value() <==> a == b,
    {
    }
}

/// Filtering between mipmap levels.
#[derive(Clone, Copy, Debug, PartialEq, Eq, Structural)]
pub enum SamplerMipFilter {
    NotMipmapped,
    Nearest,
    Linear,
}

impl SamplerMipFilter {
    /// The value Metal uses for this variant.
    pub open spec fn raw_value(self) -> usize {
        match self {
            SamplerMipFilter::NotMipmapped => 0,
            SamplerMipFilter::Nearest => 1,
            SamplerMipFilter::Linear => 2,
        }
    }

    /// The value handed to Metal for this variant.
    pub fn as_raw(self) -> (r: usize)
        ensures
            r == self.raw_value(),
            self == SamplerMipFilter::NotMipmapped ==> r == 0,
            self == SamplerMipFilter::Nearest ==> r == 1,
            self == SamplerMipFilter::Linear ==> r == 2,
    {
        match self {
            SamplerMipFilter::NotMipmapped => 0,
            SamplerMipFilter::Nearest => 1,
            SamplerMipFilter::Linear => 2,
        }
    }

    /// Distinct variants have distinct raw values.
    pub proof fn lemma_raw_value_injective(a: SamplerMipFilter, b: SamplerMipFilter)
        ensures
            a.raw_value() == b.raw_value() <==> a == b,
    {
    }
}

/// What a sampler reads outside the texture.
#[derive(Clone, Copy, Debug, PartialEq, Eq, Structural)]
pub enum SamplerAddressMode {
    ClampToEdge,
    MirrorClampToEdge,
    Repeat,
    MirrorRepeat,
    ClampToZero,
    ClampToBorderColor,
}

impl SamplerAddressMode {
    /// The value Metal uses for this variant.
    pub open spec fn raw_value(self) -> usize {
        match self {
            SamplerAddressMode::ClampToEdge => 0,
            SamplerAddressMode::MirrorClampToEdge => 1,
            SamplerAddressMode::Repeat => 2,
            SamplerAddressMode::MirrorRepeat => 3,
            SamplerAddressMode::ClampToZero => 4,
            SamplerAddressMode::ClampToBorderColor => 5,
        }
    }

    /// The value handed to Metal for this variant.
    pub fn as_raw(self) -> (r: usize)
        ensures
            r == self.raw_value(),
            self == SamplerAddressMode::ClampToEdge ==> r == 0,
            self == SamplerAddressMode::MirrorClampToEdge ==> r == 1,
            self == SamplerAddressMode::Repeat ==> r == 2,
            self == SamplerAddressMode::MirrorRepeat ==> r == 3,
            self == SamplerAddressMode::ClampToZero ==> r == 4,
            self == SamplerAddressMode::ClampToBorderColor ==> r == 5,
    {
        match self {
            SamplerAddressMode::ClampToEdge => 0,
            SamplerAddressMode::MirrorClampToEdge => 1,
            SamplerAddressMode::Repeat => 2,
            SamplerAddressMode::MirrorRepeat => 3,
            SamplerAddressMode::ClampToZero => 4,
            SamplerAddressMode::ClampToBorderColor => 5,
        }
    }

    /// Distinct variants have distinct raw values.
    pub proof fn lemma_raw_value_injective(a: SamplerAddressMode, b: SamplerAddressMode)
        ensures
            a.raw_value() == b.raw_value() <==> a == b,
    {
    }
}

/// Which faces the rasterizer drops.
#[derive(Clone, Copy, Debug, PartialEq, Eq, Structural)]
pub enum CullMode {
    Neither,
    Front,
    Back,
}

impl CullMode {
    /// The value Metal uses for this variant.
    pub open spec fn raw_value(self) -> usize {
        match self {
            CullMode::Neither => 0,
            CullMode::Front => 1,
            CullMode::Back => 2,
        }
    }

    /// The value handed to Metal for this variant.
    pub fn as_raw(self) -> (r: usize)
        ensures
            r == self.raw_value(),
            self == CullMode::Neither ==> r == 0,
            self == CullMode::Front ==> r == 1,
            self == CullMode::Back ==> r == 2,
    {
        match self {
            CullMode::Neither => 0,
            CullMode::Front => 1,
            CullMode::Back => 2,
        }
    }

    /// Distinct variants have distinct raw values.
    pub proof fn lemma_raw_value_injective(a: CullMode, b: CullMode)
        ensures
            a.raw_value() == b.raw_value() <==> a == b,
    {
    }
}

/// The vertex order of front-facing triangles.
#[derive(Clone, Copy, Debug, PartialEq, Eq, Structural)]
pub enum Winding {
    Clockwise,
    CounterClockwise,
}

impl Winding {
    /// The value Metal uses for this variant.
    pub open spec fn raw_value(self) -> usize {
        match self {
            Winding::Clockwise => 0,
            Winding::CounterClockwise => 1,
        }
    }

    /// The value handed to Metal for this variant.
    pub fn as_raw(self) -> (r: usize)
        ensures
            r == self.raw_value(),
            self == Winding::Clockwise ==> r == 0,
            self == Winding::CounterClockwise ==> r == 1,
    {
        match self {
            Winding::Clockwise => 0,
            Winding::CounterClockwise => 1,
        }
    }

    /// Distinct variants have distinct raw values.
    pub proof fn lemma_raw_value_injective(a: Winding, b: Winding)
        ensures
            a.raw_value() == b.raw_value() <==> a == b,
    {
    }
}

/// Whether triangles are filled or drawn as lines.
#[derive(Clone, Copy, Debug, PartialEq, Eq, Structural)]
pub enum TriangleFillMode {
    Fill,
    Lines,
}

impl TriangleFillMode {
    /// The value Metal uses for this variant.
    pub open spec fn raw_value(self) -> usize {
        match self {
            TriangleFillMode::Fill => 0,
            TriangleFillMode::Lines => 1,
        }
    }

    /// The value handed to Metal for this variant.
    pub fn as_raw(self) -> (r: usize)
        ensures
            r == self.raw_value(),
            self == TriangleFillMode::Fill ==> r == 0,
            self == TriangleFillMode::Lines ==> r == 1,
    {
        match self {
            TriangleFillMode::Fill => 0,
            TriangleFillMode::Lines => 1,
        }
    }

    /// Distinct variants have distinct raw values.
    pub proof fn lemma_raw_value_injective(a: TriangleFillMode, b: TriangleFillMode)
        ensures
            a.raw_value() == b.raw_value() <==> a == b,
    {
    }
}
impl StorageMode {
    /// The storage mode placed in its field of a resource options word.
    pub fn as_resource_bits(self) -> (r: usize)
        ensures
            r == self.raw_value() * 16,
    {
        let raw = self.as_raw();
        assert(raw <= 2 ==> raw << 4 == raw * 16) by (bit_vector);
        raw << 4
    }
}

/// The resource options word whose fields hold `cpu_cache_mode` (bits 0 to 3),
/// `storage_mode` (bits 4 to 7) and `hazard_tracking_mode` (bits 8 to 11).
pub open spec fn resource_options_bits(
    cpu_cache_mode: CpuCacheMode,
    storage_mode: StorageMode,
    hazard_tracking_mode: HazardTrackingMode,
) -> usize {
    (cpu_cache_mode.raw_value() + 16 * storage_mode.raw_value() + 256
        * hazard_tracking_mode.raw_value()) as usize
}

/// How a resource is allocated: CPU cache mode, storage mode and hazard
/// tracking mode, each in a field of one word.
#[derive(Clone, Copy, Debug, PartialEq, Eq, Structural)]
pub struct ResourceOptions(usize);

impl View for ResourceOptions {
    type V = usize;

    closed spec fn view(&self) -> usize {
        self.0
    }
}

impl ResourceOptions {
    /// The options word `bits`.
    pub closed spec fn from_bits(bits: usize) -> ResourceOptions {
        ResourceOptions(bits)
    }

    /// An options value is determined by its word.
    pub proof fn lemma_bits(a: ResourceOptions, b: ResourceOptions, bits: usize)
        ensures
            ResourceOptions::from_bits(bits)@ == bits,
            ResourceOptions::from_bits(a@) == a,
            a@ == b@ <==> a == b,
    {
    }

    /// Default CPU caching.
    #[allow(non_snake_case)]
    pub fn CPU_CACHE_MODE_DEFAULT() -> (r: ResourceOptions)
        ensures
            r@ == CpuCacheMode::DefaultCache.raw_value(),
    {
        ResourceOptions(0)
    }

    /// Write-combined CPU caching.
    #[allow(non_snake_case)]
    pub fn CPU_CACHE_MODE_WRITE_COMBINED() -> (r: ResourceOptions)
        ensures
            r@ == CpuCacheMode::WriteCombined.raw_value(),
    {
        ResourceOptions(1)
    }

    /// Memory shared by CPU and GPU.
    #[allow(non_snake_case)]
    pub fn STORAGE_MODE_SHARED() -> (r: ResourceOptions)
        ensures
            r@ == StorageMode::Shared.raw_value() * 16,
    {
        ResourceOptions(StorageMode::Shared.as_resource_bits())
    }

    /// Memory with a CPU copy and a GPU copy kept in step by hand.
    #[allow(non_snake_case)]
    pub fn STORAGE_MODE_MANAGED() -> (r: ResourceOptions)
        ensures
            r@ == StorageMode::Managed.raw_value() * 16,
    {
        ResourceOptions(StorageMode::Managed.as_resource_bits())
    }

    /// Memory only the GPU reaches.
    #[allow(non_snake_case)]
    pub fn STORAGE_MODE_PRIVATE() -> (r: ResourceOptions)
        ensures
            r@ == StorageMode::Private.raw_value() * 16,
    {
        ResourceOptions(StorageMode::Private.as_resource_bits())
    }

    /// Hazards are not tracked by Metal.
    #[allow(non_snake_case)]
    pub fn HAZARD_TRACKING_MODE_UNTRACKED() -> (r: ResourceOptions)
        ensures
            r@ == HazardTrackingMode::Untracked.raw_value() * 256,
    {
        ResourceOptions(256)
    }

    /// Hazards are tracked by Metal.
    #[allow(non_snake_case)]
    pub fn HAZARD_TRACKING_MODE_TRACKED() -> (r: ResourceOptions)
        ensures
            r@ == HazardTrackingMode::Tracking.raw_value() * 256,
    {
        ResourceOptions(512)
    }

    /// The options word of the three modes.
    pub fn new(
        cpu_cache_mode: CpuCacheMode,
        storage_mode: StorageMode,
        hazard_tracking_mode: HazardTrackingMode,
    ) -> (r: ResourceOptions)
        ensures
            r@ == resource_options_bits(cpu_cache_mode, storage_mode, hazard_tracking_mode),
    {
        let c = cpu_cache_mode.as_raw();
        let s = storage_mode.as_raw();
        let h = hazard_tracking_mode.as_raw();
        assert(c <= 1 && s <= 2 && h <= 2 ==> (c | (s << 4) | (h << 8)) == c + 16 * s + 256 * h)
            by (bit_vector);
        ResourceOptions(c | (s << 4) | (h << 8))
    }

    /// The word handed to Metal.
    pub fn as_raw(self) -> (r: usize)
        ensures
            r == self@,
    {
        self.0
    }

    /// Each mode can be read back from its field of the word, so distinct
    /// modes give distinct words; a named storage option is the word of that
    /// storage mode with the default cache and hazard modes.
    pub proof fn lemma_fields(
        cpu_cache_mode: CpuCacheMode,
        storage_mode: StorageMode,
        hazard_tracking_mode: HazardTrackingMode,
    )
        ensures
            ({
                let w = resource_options_bits(cpu_cache_mode, storage_mode, hazard_tracking_mode);
                &&& (w & 15) == cpu_cache_mode.raw_value()
                &&& ((w >> 4) & 15) == storage_mode.raw_value()
                &&& ((w >> 8) & 15) == hazard_tracking_mode.raw_value()
            }),
            resource_options_bits(CpuCacheMode::DefaultCache, storage_mode, HazardTrackingMode::Default)
                == storage_mode.raw_value() * 16,
    {
        let c = cpu_cache_mode.raw_value();
        let s = storage_mode.raw_value();
        let h = hazard_tracking_mode.raw_value();
        let w = resource_options_bits(cpu_cache_mode, storage_mode, hazard_tracking_mode);
        assert(w == c + 16 * s + 256 * h);
        assert(c <= 1 && s <= 2 && h <= 2 && w == c + 16 * s + 256 * h ==> {
            &&& (w & 15) == c
            &&& ((w >> 4) & 15) == s
            &&& ((w >> 8) & 15) == h
        }) by (bit_vector);
    }

    /// Distinct modes give distinct options words.
    pub proof fn lemma_new_injective(
        c1: CpuCacheMode,
        s1: StorageMode,
        h1: HazardTrackingMode,
        c2: CpuCacheMode,
        s2: StorageMode,
        h2: HazardTrackingMode,
    )
        ensures
            resource_options_bits(c1, s1, h1) == resource_options_bits(c2, s2, h2) <==> (c1 == c2
                && s1 == s2 && h1 == h2),
    {
        ResourceOptions::lemma_fields(c1, s1, h1);
        ResourceOptions::lemma_fields(c2, s2, h2);
        CpuCacheMode::lemma_raw_value_injective(c1, c2);
        StorageMode::lemma_raw_value_injective(s1, s2);
        HazardTrackingMode::lemma_raw_value_injective(h1, h2);
    }
}

/// The ways a texture may be used, as a bit set.
#[derive(Clone, Copy, Debug, PartialEq, Eq, Structural)]
pub struct TextureUsage(usize);

impl View for TextureUsage {
    type V = usize;

    closed spec fn view(&self) -> usize {
        self.0
    }
}

impl TextureUsage {
    /// The set whose bits are `bits`.
    pub closed spec fn from_bits(bits: usize) -> TextureUsage {
        TextureUsage(bits)
    }

    /// A set is determined by its bits.
    pub proof fn lemma_bits(a: TextureUsage, bits: usize)
        ensures
            TextureUsage::from_bits(bits)@ == bits,
            TextureUsage::from_bits(a@) == a,
    {
    }

    /// No usage declared.
    #[allow(non_snake_case)]
    pub fn UNKNOWN() -> (r: TextureUsage)
        ensures
            r@ == 0,
    {
        TextureUsage(0)
    }

    /// Shaders read the texture.
    #[allow(non_snake_case)]
    pub fn SHADER_READ() -> (r: TextureUsage)
        ensures
            r@ == 1,
    {
        TextureUsage(1)
    }

    /// Shaders write the texture.
    #[allow(non_snake_case)]
    pub fn SHADER_WRITE() -> (r: TextureUsage)
        ensures
            r@ == 2,
    {
        TextureUsage(2)
    }

    /// The texture is a render target.
    #[allow(non_snake_case)]
    pub fn RENDER_TARGET() -> (r: TextureUsage)
        ensures
            r@ == 4,
    {
        TextureUsage(4)
    }

    /// Views of another pixel format may be made of the texture.
    #[allow(non_snake_case)]
    pub fn PIXEL_FORMAT_VIEW() -> (r: TextureUsage)
        ensures
            r@ == 16,
    {
        TextureUsage(16)
    }

    /// The bits handed to Metal.
    pub fn as_raw(self) -> (r: usize)
        ensures
            r == self@,
    {
        self.0
    }

    /// Union is commutative, associative and idempotent, and the empty set
    /// is its identity.
    pub proof fn lemma_union_laws(a: TextureUsage, b: TextureUsage, c: TextureUsage)
        ensures
            a.bitor_spec(b) == b.bitor_spec(a),
            a.bitor_spec(b).bitor_spec(c) == a.bitor_spec(b.bitor_spec(c)),
            a.bitor_spec(a) == a,
            a.bitor_spec(TextureUsage::from_bits(0)) == a,
            (a.bitor_spec(b)@ & a@) == a@,
            (a.bitor_spec(b)@ & b@) == b@,
    {
        let (x, y, z) = (a.0, b.0, c.0);
        assert((x | y) == (y | x)) by (bit_vector);
        assert(((x | y) | z) == (x | (y | z))) by (bit_vector);
        assert((x | x) == x) by (bit_vector);
        assert((x | 0) == x) by (bit_vector);
        assert(((x | y) & x) == x) by (bit_vector);
        assert(((x | y) & y) == y) by (bit_vector);
    }
}

impl std::ops::BitOr for TextureUsage {
    type Output = Self;

    fn bitor(self, rhs: TextureUsage) -> (r: TextureUsage)
        ensures
            r@ == self@ | rhs@,
    {
        TextureUsage(self.0 | rhs.0)
    }
}

impl vstd::std_specs::ops::BitOrSpecImpl for TextureUsage {
    open spec fn obeys_bitor_spec() -> bool {
        true
    }

    open spec fn bitor_req(self, rhs: TextureUsage) -> bool {
        true
    }

    open spec fn bitor_spec(self, rhs: TextureUsage) -> TextureUsage {
        TextureUsage::from_bits(self@ | rhs@)
    }
}

/// The color channels a render pipeline writes, as a bit set.
#[derive(Clone, Copy, Debug, PartialEq, Eq, Structural)]
pub struct ColorWriteMask(usize);

impl View for ColorWriteMask {
    type V = usize;

    closed spec fn view(&self) -> usize {
        self.0
    }
}

impl ColorWriteMask {
    /// The set whose bits are `bits`.
    pub closed spec fn from_bits(bits: usize) -> ColorWriteMask {
        ColorWriteMask(bits)
    }

    /// A set is determined by its bits.
    pub proof fn lemma_bits(a: ColorWriteMask, bits: usize)
        ensures
            ColorWriteMask::from_bits(bits)@ == bits,
            ColorWriteMask::from_bits(a@) == a,
    {
    }

    /// No channel is written.
    #[allow(non_snake_case)]
    pub fn NONE() -> (r: ColorWriteMask)
        ensures
            r@ == 0,
    {
        ColorWriteMask(0)
    }

    /// The red channel is written.
    #[allow(non_snake_case)]
    pub fn RED() -> (r: ColorWriteMask)
        ensures
            r@ == 8,
    {
        ColorWriteMask(8)
    }

    /// The green channel is written.
    #[allow(non_snake_case)]
    pub fn GREEN() -> (r: ColorWriteMask)
        ensures
            r@ == 4,
    {
        ColorWriteMask(4)
    }

    /// The blue channel is written.
    #[allow(non_snake_case)]
    pub fn BLUE() -> (r: ColorWriteMask)
        ensures
            r@ == 2,
    {
        ColorWriteMask(2)
    }

    /// The alpha channel is written.
    #[allow(non_snake_case)]
    pub fn ALPHA() -> (r: ColorWriteMask)
        ensures
            r@ == 1,
    {
        ColorWriteMask(1)
    }

    /// Every channel is written.
    #[allow(non_snake_case)]
    pub fn ALL() -> (r: ColorWriteMask)
        ensures
            r@ == 15,
    {
        ColorWriteMask(15)
    }

    /// The bits handed to Metal.
    pub fn as_raw(self) -> (r: usize)
        ensures
            r == self@,
    {
        self.0
    }

    /// Union is commutative, associative and idempotent, and the empty set
    /// is its identity.
    pub proof fn lemma_union_laws(a: ColorWriteMask, b: ColorWriteMask, c: ColorWriteMask)
        ensures
            a.bitor_spec(b) == b.bitor_spec(a),
            a.bitor_spec(b).bitor_spec(c) == a.bitor_spec(b.bitor_spec(c)),
            a.bitor_spec(a) == a,
            a.bitor_spec(ColorWriteMask::from_bits(0)) == a,
            (a.bitor_spec(b)@ & a@) == a@,
            (a.bitor_spec(b)@ & b@) == b@,
    {
        let (x, y, z) = (a.0, b.0, c.0);
        assert((x | y) == (y | x)) by (bit_vector);
        assert(((x | y) | z) == (x | (y | z))) by (bit_vector);
        assert((x | x) == x) by (bit_vector);
        assert((x | 0) == x) by (bit_vector);
        assert(((x | y) & x) == x) by (bit_vector);
        assert(((x | y) & y) == y) by (bit_vector);
    }
}

impl std::ops::BitOr for ColorWriteMask {
    type Output = Self;

    fn bitor(self, rhs: ColorWriteMask) -> (r: ColorWriteMask)
        ensures
            r@ == self@ | rhs@,
    {
        ColorWriteMask(self.0 | rhs.0)
    }
}

impl vstd::std_specs::ops::BitOrSpecImpl for ColorWriteMask {
    open spec fn obeys_bitor_spec() -> bool {
        true
    }

    open spec fn bitor_req(self, rhs: ColorWriteMask) -> bool {
        true
    }

    open spec fn bitor_spec(self, rhs: ColorWriteMask) -> ColorWriteMask {
        ColorWriteMask::from_bits(self@ | rhs@)
    }
}
} // verus!
