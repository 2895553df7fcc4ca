use minmetal::device::{
    CommandBufferStatus, DispatchType, LibraryError, LibraryOptimizationLevel, LibraryType,
    LogLevel,
};
use minmetal::types::{LoadAction, PixelFormat, StorageMode, StoreAction};

#[test]
fn test_enum_discriminants() {
    assert_eq!(PixelFormat::Invalid.as_raw(), 0);
    assert_eq!(PixelFormat::Rgba8Unorm.as_raw(), 70);
    assert_eq!(StorageMode::Shared.as_raw(), 0);
    assert_eq!(StorageMode::Managed.as_raw(), 1);
    assert_eq!(StorageMode::Private.as_raw(), 2);
    assert_eq!(LoadAction::DontCare.as_raw(), 0);
    assert_eq!(LoadAction::Load.as_raw(), 1);
    assert_eq!(LoadAction::Clear.as_raw(), 2);
    assert_eq!(StoreAction::DontCare.as_raw(), 0);
    assert_eq!(StoreAction::Store.as_raw(), 1);
    assert_eq!(LogLevel::Undefined.as_raw(), -1);
    assert_eq!(LogLevel::Debug.as_raw(), 0);
    assert_eq!(DispatchType::Serial.as_raw(), 0);
    assert_eq!(DispatchType::Concurrent.as_raw(), 1);
    assert_eq!(CommandBufferStatus::NotEnqueued.as_raw(), 0);
    assert_eq!(CommandBufferStatus::Completed.as_raw(), 4);
    assert_eq!(LibraryType::Executable.as_raw(), 0);
    assert_eq!(LibraryType::Dynamic.as_raw(), 1);
    assert_eq!(LibraryOptimizationLevel::Default.as_raw(), 0);
    assert_eq!(LibraryOptimizationLevel::Size.as_raw(), 1);
    assert_eq!(LibraryError::Unsupported.as_raw(), 1);
    assert_eq!(LibraryError::FileNotFound.as_raw(), 6);
}
