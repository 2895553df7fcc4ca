use minmetal::error::{error_message, MetalError};
use minmetal::raytracing::{
    AccelerationStructureGeometryFlags, AccelerationStructureSizes, AccelerationStructureUsage,
};
use minmetal::resource::{cube_texture_layout, texture_2d_array_layout};
use minmetal::stitching::StitchedLibraryOptions;
use minmetal::types::{
    ColorWriteMask, CpuCacheMode, HazardTrackingMode, Origin, Range, Region, ResourceOptions,
    ScissorRect, Size, StorageMode, TextureType, TextureUsage,
};

#[test]
fn constructors_keep_their_fields() {
    let s = Size::new(64, 32, 2);
    assert_eq!((s.width, s.height, s.depth), (64, 32, 2));
    let o = Origin::new(1, 2, 3);
    assert_eq!((o.x, o.y, o.z), (1, 2, 3));
    let r = ScissorRect::new(4, 5, 6, 7);
    assert_eq!((r.x, r.y, r.width, r.height), (4, 5, 6, 7));
    let g = Range::new(10, 20);
    assert_eq!((g.location, g.length), (10, 20));
    assert_eq!(Size::default(), Size::new(0, 0, 0));
    assert_eq!(Range::default(), Range::new(0, 0));
    assert_eq!(AccelerationStructureSizes::default().build_scratch_buffer_size, 0);
}

#[test]
fn region_2d_is_flat_and_one_deep() {
    let r = Region::new_2d(3, 4, 100, 200);
    assert_eq!(r.origin, Origin::new(3, 4, 0));
    assert_eq!(r.size, Size::new(100, 200, 1));
    assert_eq!(Region::default().size, Size::default());
}

#[test]
fn resource_options_pack_three_fields() {
    let o = ResourceOptions::new(
        CpuCacheMode::WriteCombined,
        StorageMode::Private,
        HazardTrackingMode::Tracking,
    );
    assert_eq!(o.as_raw(), 1 | (2 << 4) | (2 << 8));
    assert_eq!(o.as_raw() & 15, 1);
    assert_eq!((o.as_raw() >> 4) & 15, 2);
    assert_eq!((o.as_raw() >> 8) & 15, 2);
    let d = ResourceOptions::new(CpuCacheMode::DefaultCache, StorageMode::Shared, HazardTrackingMode::Default);
    assert_eq!(d.as_raw(), 0);
}

#[test]
fn named_resource_options() {
    assert_eq!(ResourceOptions::CPU_CACHE_MODE_DEFAULT().as_raw(), 0);
    assert_eq!(ResourceOptions::CPU_CACHE_MODE_WRITE_COMBINED().as_raw(), 1);
    assert_eq!(ResourceOptions::STORAGE_MODE_SHARED().as_raw(), 0);
    assert_eq!(ResourceOptions::STORAGE_MODE_MANAGED().as_raw(), 16);
    assert_eq!(ResourceOptions::STORAGE_MODE_PRIVATE().as_raw(), 32);
    assert_eq!(ResourceOptions::HAZARD_TRACKING_MODE_UNTRACKED().as_raw(), 256);
    assert_eq!(ResourceOptions::HAZARD_TRACKING_MODE_TRACKED().as_raw(), 512);
    assert_eq!(StorageMode::Managed.as_resource_bits(), 16);
    assert_eq!(
        ResourceOptions::STORAGE_MODE_MANAGED(),
        ResourceOptions::new(CpuCacheMode::DefaultCache, StorageMode::Managed, HazardTrackingMode::Default)
    );
}

#[test]
fn texture_usage_union() {
    let u = TextureUsage::SHADER_READ() | TextureUsage::RENDER_TARGET();
    assert_eq!(u.as_raw(), 5);
    assert_eq!(u | u, u);
    assert_eq!(u | TextureUsage::UNKNOWN(), u);
    assert_eq!(
        TextureUsage::SHADER_WRITE() | TextureUsage::PIXEL_FORMAT_VIEW(),
        TextureUsage::PIXEL_FORMAT_VIEW() | TextureUsage::SHADER_WRITE()
    );
    assert_eq!((TextureUsage::SHADER_WRITE() | TextureUsage::PIXEL_FORMAT_VIEW()).as_raw(), 18);
}

#[test]
fn color_write_mask_channels_make_all() {
    let m = ColorWriteMask::RED() | ColorWriteMask::GREEN() | ColorWriteMask::BLUE() | ColorWriteMask::ALPHA();
    assert_eq!(m, ColorWriteMask::ALL());
    assert_eq!(m.as_raw(), 0xf);
    assert_eq!(ColorWriteMask::NONE().as_raw(), 0);
    assert_eq!((ColorWriteMask::RED() | ColorWriteMask::ALPHA()).as_raw(), 9);
}

#[test]
fn option_sets_of_raytracing_and_stitching() {
    assert_eq!(AccelerationStructureGeometryFlags::OPAQUE().0, 1);
    assert_eq!(AccelerationStructureGeometryFlags::NON_OPAQUE().0, 2);
    assert_eq!(AccelerationStructureGeometryFlags::NONE().0, 0);
    assert_eq!(AccelerationStructureUsage::PREFER_FAST_INTERSECTION().0, 4);
    assert_eq!(AccelerationStructureUsage::REFIT().0, 1);
    assert_eq!(StitchedLibraryOptions::FAIL_ON_BINARY_ARCHIVE_MISS().as_raw(), 1);
    assert_eq!(StitchedLibraryOptions::STORE_LIBRARY_IN_METAL_PIPELINES_SCRIPT().as_raw(), 2);
    assert_eq!(StitchedLibraryOptions(3).as_raw(), 3);
}

#[test]
fn cube_layouts() {
    assert_eq!(cube_texture_layout(0), (TextureType::Cube, 6));
    assert_eq!(cube_texture_layout(1), (TextureType::Cube, 6));
    assert_eq!(cube_texture_layout(2), (TextureType::CubeArray, 12));
    assert_eq!(cube_texture_layout(5), (TextureType::CubeArray, 30));
    assert_eq!(texture_2d_array_layout(4), (TextureType::D2Array, 4));
}

#[test]
fn error_messages() {
    let e = MetalError::new("commit is not supported on IO command buffer");
    assert!(e.to_string().contains("not supported"));
    assert_eq!(e.message(), "commit is not supported on IO command buffer");
    let copy = e.clone();
    assert_eq!(copy.to_string(), e.to_string());
    assert_eq!(MetalError::new("").to_string(), "");
    assert_eq!(error_message(None, "failed to create IO command queue"), "failed to create IO command queue");
    assert_eq!(error_message(Some("device lost".to_string()), "fallback"), "device lost");
}
