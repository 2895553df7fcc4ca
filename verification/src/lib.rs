//! Value types, raw-value tables, decoding rules and message texts of a small
//! binding to Apple's Metal API, with their properties proved.

pub mod capture;
pub mod compression;
pub mod counters;
pub mod device;
pub mod error;
pub mod io;
pub mod raytracing;
pub mod report;
pub mod resource;
pub mod sparse;
pub mod stitching;
pub mod text;
pub mod types;

pub use capture::CaptureDestination;
pub use compression::{
    begin_drop, begin_flush, may_append, CompressionContextState, CompressionEvent,
};
pub use counters::CounterSamplingPoint;
pub use device::{
    command_buffer_status, CommandBufferStatus, DispatchType, LibraryError,
    LibraryOptimizationLevel, LibraryType, LogLevel,
};
pub use error::{error_message, MetalError};
pub use io::{
    IOCommandQueueType, IOCompressionMethod, IOCompressionStatus, IOError, IOPriority, IOStatus,
};
pub use raytracing::{
    AccelerationStructureGeometryFlags, AccelerationStructureSizes, AccelerationStructureUsage,
};
pub use report::{
    dispatch_type_from_metal, file_handle_selector, function_not_found,
    io_command_queue_type_from_metal, io_compression_status_from_metal, io_priority_from_metal,
    io_status_from_metal, library_file_failure_text, library_type_from_metal,
    library_url_failure_text, load_action_from_metal, optimization_level_from_metal,
    require_support, specialization_failure_text, store_action_from_metal, FileHandleSelector,
};
pub use resource::{cube_texture_layout, texture_2d_array_layout};
pub use sparse::SparseTextureMappingMode;
pub use stitching::StitchedLibraryOptions;
pub use types::{
    BlendFactor, BlendOperation, ColorWriteMask, CompareFunction, CpuCacheMode, CullMode,
    HazardTrackingMode, IndexType, LoadAction, Origin, PixelFormat, PrimitiveType, Range, Region,
    ResourceOptions, SamplerAddressMode, SamplerMinMagFilter, SamplerMipFilter, ScissorRect, Size,
    StencilOperation, StorageMode, StoreAction, TextureType, TextureUsage, TriangleFillMode,
    VertexFormat, VertexStepFunction, Winding,
};
