use minmetal::capture::CaptureDestination;
use minmetal::counters::CounterSamplingPoint;
use minmetal::device::{command_buffer_status, CommandBufferStatus, DispatchType, LibraryOptimizationLevel, LibraryType};
use minmetal::io::{
    IOCommandQueueType, IOCompressionMethod, IOCompressionStatus, IOError, IOPriority, IOStatus,
};
use minmetal::sparse::SparseTextureMappingMode;
use minmetal::types::{
    BlendFactor, CullMode, HazardTrackingMode, LoadAction, PixelFormat, StoreAction, TextureType,
    VertexFormat,
};

#[test]
fn io_priority_decodes_each_value() {
    assert_eq!(IOPriority::from_raw(0), Some(IOPriority::High));
    assert_eq!(IOPriority::from_raw(1), Some(IOPriority::Normal));
    assert_eq!(IOPriority::from_raw(2), Some(IOPriority::Low));
    assert_eq!(IOPriority::from_raw(3), None);
    assert_eq!(IOPriority::from_raw(usize::MAX), None);
}

#[test]
fn io_queue_type_decodes_each_value() {
    assert_eq!(IOCommandQueueType::from_raw(0), Some(IOCommandQueueType::Concurrent));
    assert_eq!(IOCommandQueueType::from_raw(1), Some(IOCommandQueueType::Serial));
    assert_eq!(IOCommandQueueType::from_raw(2), None);
}

#[test]
fn io_status_decodes_each_value() {
    assert_eq!(IOStatus::from_raw(0), Some(IOStatus::Pending));
    assert_eq!(IOStatus::from_raw(1), Some(IOStatus::Cancelled));
    assert_eq!(IOStatus::from_raw(2), Some(IOStatus::Error));
    assert_eq!(IOStatus::from_raw(3), Some(IOStatus::Complete));
    assert_eq!(IOStatus::from_raw(4), None);
    assert_eq!(IOStatus::from_raw(-1), None);
}

#[test]
fn io_error_starts_at_one() {
    assert_eq!(IOError::from_raw(0), None);
    assert_eq!(IOError::from_raw(1), Some(IOError::UrlInvalid));
    assert_eq!(IOError::from_raw(2), Some(IOError::Internal));
    assert_eq!(IOError::from_raw(3), None);
    assert_eq!(IOError::UrlInvalid.as_raw(), 1);
}

#[test]
fn io_compression_values() {
    assert_eq!(IOCompressionStatus::from_raw(0), Some(IOCompressionStatus::Complete));
    assert_eq!(IOCompressionStatus::from_raw(1), Some(IOCompressionStatus::Error));
    assert_eq!(IOCompressionStatus::from_raw(2), None);
    assert_eq!(IOCompressionMethod::from_raw(4), Some(IOCompressionMethod::LzBitmap));
    assert_eq!(IOCompressionMethod::from_raw(5), None);
    assert_eq!(IOCompressionMethod::Lzfse.as_raw(), 1);
}

#[test]
fn decoding_inverts_raw_value() {
    for m in [
        IOCompressionMethod::Zlib,
        IOCompressionMethod::Lzfse,
        IOCompressionMethod::Lz4,
        IOCompressionMethod::Lzma,
        IOCompressionMethod::LzBitmap,
    ] {
        assert_eq!(IOCompressionMethod::from_raw(m.as_raw()), Some(m));
    }
    for a in [LoadAction::DontCare, LoadAction::Load, LoadAction::Clear] {
        assert_eq!(LoadAction::from_raw(a.as_raw()), Some(a));
    }
    for a in [StoreAction::DontCare, StoreAction::Store, StoreAction::MultisampleResolve] {
        assert_eq!(StoreAction::from_raw(a.as_raw()), Some(a));
    }
    for t in [LibraryType::Executable, LibraryType::Dynamic] {
        assert_eq!(LibraryType::from_raw(t.as_raw()), Some(t));
    }
    for d in [DispatchType::Serial, DispatchType::Concurrent] {
        assert_eq!(DispatchType::from_raw(d.as_raw()), Some(d));
    }
}

#[test]
fn unknown_raw_values_decode_to_none() {
    assert_eq!(LoadAction::from_raw(3), None);
    assert_eq!(StoreAction::from_raw(3), None);
    assert_eq!(LibraryType::from_raw(2), None);
    assert_eq!(LibraryOptimizationLevel::from_raw(2), None);
    assert_eq!(LibraryOptimizationLevel::from_raw(-1), None);
    assert_eq!(LibraryOptimizationLevel::from_raw(1), Some(LibraryOptimizationLevel::Size));
    assert_eq!(DispatchType::from_raw(7), None);
}

#[test]
fn command_buffer_status_reads_unknown_values_as_error() {
    assert_eq!(command_buffer_status(0), CommandBufferStatus::NotEnqueued);
    assert_eq!(command_buffer_status(1), CommandBufferStatus::Enqueued);
    assert_eq!(command_buffer_status(2), CommandBufferStatus::Committed);
    assert_eq!(command_buffer_status(3), CommandBufferStatus::Scheduled);
    assert_eq!(command_buffer_status(4), CommandBufferStatus::Completed);
    assert_eq!(command_buffer_status(5), CommandBufferStatus::Error);
    assert_eq!(command_buffer_status(6), CommandBufferStatus::Error);
    assert_eq!(command_buffer_status(usize::MAX), CommandBufferStatus::Error);
    assert_eq!(CommandBufferStatus::from_raw(6), None);
}

#[test]
fn table_values_of_other_enums() {
    assert_eq!(PixelFormat::Bgra8Unorm.as_raw(), 80);
    assert_eq!(PixelFormat::Bgra8UnormSrgb.as_raw(), 81);
    assert_eq!(PixelFormat::Depth32FloatStencil8.as_raw(), 260);
    assert_eq!(VertexFormat::Float3.as_raw(), 30);
    assert_eq!(VertexFormat::Half4.as_raw(), 43);
    assert_eq!(TextureType::D2MultisampleArray.as_raw(), 8);
    assert_eq!(BlendFactor::OneMinusDestinationAlpha.as_raw(), 9);
    assert_eq!(CullMode::Neither.as_raw(), 0);
    assert_eq!(CullMode::Back.as_raw(), 2);
    assert_eq!(HazardTrackingMode::Tracking.as_raw(), 2);
    assert_eq!(CaptureDestination::DeveloperTools.as_raw(), 1);
    assert_eq!(CaptureDestination::GpuTraceDocument.as_raw(), 2);
    assert_eq!(CounterSamplingPoint::AtBlitBoundary.as_raw(), 4);
    assert_eq!(SparseTextureMappingMode::MapRegion.as_raw(), 0);
    assert_eq!(SparseTextureMappingMode::Unmap.as_raw(), 1);
}

#[test]
fn pixel_format_raw_values_are_distinct() {
    let all = [
        PixelFormat::Invalid, PixelFormat::R8Unorm, PixelFormat::R8Uint, PixelFormat::R16Float,
        PixelFormat::Rg8Unorm, PixelFormat::Rg16Float, PixelFormat::Rgba8Unorm,
        PixelFormat::Rgba8UnormSrgb, PixelFormat::Bgra8Unorm, PixelFormat::Bgra8UnormSrgb,
        PixelFormat::Rgb10A2Unorm, PixelFormat::Rg11B10Float, PixelFormat::Rgb9E5Float,
        PixelFormat::Rgba16Float, PixelFormat::Rgba32Float, PixelFormat::Bc1Rgba,
        PixelFormat::Bc1RgbaSrgb, PixelFormat::Bc2Rgba, PixelFormat::Bc2RgbaSrgb,
        PixelFormat::Bc3Rgba, PixelFormat::Bc3RgbaSrgb, PixelFormat::Bc4RUnorm,
        PixelFormat::Bc5RgUnorm, PixelFormat::Bc6HRgbFloat, PixelFormat::Bc7RgbaUnorm,
        PixelFormat::Bc7RgbaUnormSrgb, PixelFormat::Depth16Unorm, PixelFormat::Depth32Float,
        PixelFormat::Stencil8, PixelFormat::Depth24UnormStencil8, PixelFormat::Depth32FloatStencil8,
    ];
    for (i, a) in all.iter().enumerate() {
        for (j, b) in all.iter().enumerate() {
            assert_eq!(a.as_raw() == b.as_raw(), i == j);
        }
    }
}

#[test]
fn io_enums_round_trip() {
    for p in [IOPriority::High, IOPriority::Normal, IOPriority::Low] {
        assert_eq!(IOPriority::from_raw(p.as_raw()), Some(p));
    }
    for s in [IOStatus::Pending, IOStatus::Cancelled, IOStatus::Error, IOStatus::Complete] {
        assert_eq!(IOStatus::from_raw(s.as_raw()), Some(s));
    }
    for e in [IOError::UrlInvalid, IOError::Internal] {
        assert_eq!(IOError::from_raw(e.as_raw()), Some(e));
    }
    for t in [IOCommandQueueType::Concurrent, IOCommandQueueType::Serial] {
        assert_eq!(IOCommandQueueType::from_raw(t.as_raw()), Some(t));
    }
    for s in [CommandBufferStatus::NotEnqueued, CommandBufferStatus::Error] {
        assert_eq!(command_buffer_status(s.as_raw()), s);
    }
}
