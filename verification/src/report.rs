//! The rules by which values and failures reported by Metal become results
//! of the library: decoding with an error for unknown values, the errors of
//! unsupported messages, and the fallback texts of failed creations.

use vstd::prelude::*;
use crate::device::{DispatchType, LibraryOptimizationLevel, LibraryType};
use crate::error::MetalError;
use crate::io::{IOCommandQueueType, IOCompressionStatus, IOPriority, IOStatus};
use crate::text::{decimal, signed_decimal, text_around, text_joined, text_with_number, text_with_signed_number};
use crate::types::{LoadAction, StoreAction};

verus! {

/// The status of an IO command buffer from the value Metal reports.
pub fn io_status_from_metal(raw: isize) -> (r: Result<IOStatus, MetalError>)
    ensures
        match IOStatus::from_raw_spec(raw) {
            Some(v) => r == Ok::<IOStatus, MetalError>(v),
            None => r matches Err(e) && e@ == "invalid IOStatus value from Metal: "@ + signed_decimal(raw as int),
        },
{
    match IOStatus::from_raw(raw) {
        Some(v) => Ok(v),
        None => Err(MetalError::with_message(text_with_signed_number("invalid IOStatus value from Metal: ", raw))),
    }
}

/// How flushing a compression context ended, from the value Metal reports.
pub fn io_compression_status_from_metal(raw: isize) -> (r: Result<IOCompressionStatus, MetalError>)
    ensures
        match IOCompressionStatus::from_raw_spec(raw) {
            Some(v) => r == Ok::<IOCompressionStatus, MetalError>(v),
            None => r matches Err(e) && e@ == "invalid IOCompressionStatus value from Metal: "@ + signed_decimal(raw as int),
        },
{
    match IOCompressionStatus::from_raw(raw) {
        Some(v) => Ok(v),
        None => Err(MetalError::with_message(text_with_signed_number("invalid IOCompressionStatus value from Metal: ", raw))),
    }
}

/// The priority of an IO command queue descriptor from the value Metal reports.
pub fn io_priority_from_metal(raw: usize) -> (r: Result<IOPriority, MetalError>)
    ensures
        match IOPriority::from_raw_spec(raw) {
            Some(v) => r == Ok::<IOPriority, MetalError>(v),
            None => r matches Err(e) && e@ == "invalid IOPriority value from Metal"@,
        },
{
    match IOPriority::from_raw(raw) {
        Some(v) => Ok(v),
        None => Err(MetalError::new("invalid IOPriority value from Metal")),
    }
}

/// The type of an IO command queue descriptor from the value Metal reports.
pub fn io_command_queue_type_from_metal(raw: usize) -> (r: Result<IOCommandQueueType, MetalError>)
    ensures
        match IOCommandQueueType::from_raw_spec(raw) {
            Some(v) => r == Ok::<IOCommandQueueType, MetalError>(v),
            None => r matches Err(e) && e@ == "invalid IOCommandQueueType value from Metal"@,
        },
{
    match IOCommandQueueType::from_raw(raw) {
        Some(v) => Ok(v),
        None => Err(MetalError::new("invalid IOCommandQueueType value from Metal")),
    }
}

/// The load action of an attachment from the value Metal reports.
pub fn load_action_from_metal(raw: usize) -> (r: Result<LoadAction, MetalError>)
    ensures
        match LoadAction::from_raw_spec(raw) {
            Some(v) => r == Ok::<LoadAction, MetalError>(v),
            None => r matches Err(e) && e@ == "invalid MTLLoadAction value from Metal: "@ + decimal(raw as nat),
        },
{
    match LoadAction::from_raw(raw) {
        Some(v) => Ok(v),
        None => Err(MetalError::with_message(text_with_number("invalid MTLLoadAction value from Metal: ", raw))),
    }
}

/// The store action of an attachment from the value Metal reports.
pub fn store_action_from_metal(raw: usize) -> (r: Result<StoreAction, MetalError>)
    ensures
        match StoreAction::from_raw_spec(raw) {
            Some(v) => r == Ok::<StoreAction, MetalError>(v),
            None => r matches Err(e) && e@ == "invalid MTLStoreAction value from Metal: "@ + decimal(raw as nat),
        },
{
    match StoreAction::from_raw(raw) {
        Some(v) => Ok(v),
        None => Err(MetalError::with_message(text_with_number("invalid MTLStoreAction value from Metal: ", raw))),
    }
}

/// The dispatch type of a compute pass from the value Metal reports.
pub fn dispatch_type_from_metal(raw: usize) -> (r: Result<DispatchType, MetalError>)
    ensures
        match DispatchType::from_raw_spec(raw) {
            Some(v) => r == Ok::<DispatchType, MetalError>(v),
            None => r matches Err(e) && e@ == "invalid MTLDispatchType value from Metal: "@ + decimal(raw as nat),
        },
{
    match DispatchType::from_raw(raw) {
        Some(v) => Ok(v),
        None => Err(MetalError::with_message(text_with_number("invalid MTLDispatchType value from Metal: ", raw))),
    }
}

/// The type of a library from the value Metal reports.
pub fn library_type_from_metal(raw: usize) -> (r: Result<LibraryType, MetalError>)
    ensures
        match LibraryType::from_raw_spec(raw) {
            Some(v) => r == Ok::<LibraryType, MetalError>(v),
            None => r matches Err(e) && e@ == "unknown MTLLibraryType: "@ + decimal(raw as nat),
        },
{
    match LibraryType::from_raw(raw) {
        Some(v) => Ok(v),
        None => Err(MetalError::with_message(text_with_number("unknown MTLLibraryType: ", raw))),
    }
}

/// The optimization level of compile options from the value Metal reports,
/// read as a signed value.
pub fn optimization_level_from_metal(raw: usize) -> (r: Option<LibraryOptimizationLevel>)
    ensures
        raw <= isize::MAX ==> r == LibraryOptimizationLevel::from_raw_spec(raw as isize),
        raw > isize::MAX ==> r is None,
{
    if raw <= isize::MAX as usize {
        LibraryOptimizationLevel::from_raw(raw as isize)
    } else {
        None
    }
}

/// Success when the receiver answers the message, else the error
/// `unsupported`.
pub fn require_support(supported: bool, unsupported: &str) -> (r: Result<(), MetalError>)
    ensures
        supported ==> r is Ok,
        !supported ==> (r matches Err(e) && e@ == unsupported@),
{
    if supported {
        Ok(())
    } else {
        Err(MetalError::new(unsupported))
    }
}

/// The message a device answers to when it opens an IO file handle.
#[derive(Clone, Copy, Debug, PartialEq, Eq, Structural)]
pub enum FileHandleSelector {
    /// `newIOFileHandleWithURL:...`.
    Current,
    /// `newIOHandleWithURL:...`, the older name.
    Legacy,
}

/// Which message opens an IO file handle: the current one where the device
/// answers it, else the older one where it answers that, else the error
/// `unsupported`.
pub fn file_handle_selector(
    current_supported: bool,
    legacy_supported: bool,
    unsupported: &str,
) -> (r: Result<FileHandleSelector, MetalError>)
    ensures
        current_supported ==> r == Ok::<FileHandleSelector, MetalError>(FileHandleSelector::Current),
        !current_supported && legacy_supported ==> r == Ok::<FileHandleSelector, MetalError>(
            FileHandleSelector::Legacy,
        ),
        !current_supported && !legacy_supported ==> (r matches Err(e) && e@ == unsupported@),
{
    if current_supported {
        Ok(FileHandleSelector::Current)
    } else if legacy_supported {
        Ok(FileHandleSelector::Legacy)
    } else {
        Err(MetalError::new(unsupported))
    }
}

/// The error of a function name a library does not hold.
pub fn function_not_found(name: &str) -> (r: MetalError)
    ensures
        r@ == "failed to load Metal function '"@ + name@ + "': not found in library"@,
{
    MetalError::with_message(
        text_around("failed to load Metal function '", name, "': not found in library"),
    )
}

/// The fallback text of a failed specialization of a function.
pub fn specialization_failure_text(name: &str) -> (r: String)
    ensures
        r@ == "failed to specialize Metal function '"@ + name@ + "' with constants"@,
{
    text_around("failed to specialize Metal function '", name, "' with constants")
}

/// The fallback text of a failed load of a library from a URL.
pub fn library_url_failure_text(path: &str) -> (r: String)
    ensures
        r@ == "failed to load Metal library from URL: "@ + path@,
{
    text_joined("failed to load Metal library from URL: ", path)
}

/// The fallback text of a failed load of a library from a file.
pub fn library_file_failure_text(path: &str) -> (r: String)
    ensures
        r@ == "failed to load Metal library from file: "@ + path@,
{
    text_joined("failed to load Metal library from file: ", path)
}

} // verus!
