use minmetal::device::LibraryOptimizationLevel;
use minmetal::io::{IOCommandQueueType, IOCompressionStatus, IOPriority, IOStatus};
use minmetal::report::{
    dispatch_type_from_metal, file_handle_selector, function_not_found,
    io_command_queue_type_from_metal, io_compression_status_from_metal, io_priority_from_metal,
    io_status_from_metal, library_file_failure_text, library_type_from_metal,
    library_url_failure_text, load_action_from_metal, optimization_level_from_metal,
    require_support, specialization_failure_text, store_action_from_metal, FileHandleSelector,
};
use minmetal::text::{text_around, text_joined, text_with_number, text_with_signed_number};
use minmetal::{DispatchType, LibraryType, LoadAction, StoreAction};

#[test]
fn io_status_errors_name_the_value() {
    assert_eq!(io_status_from_metal(3).unwrap(), IOStatus::Complete);
    assert_eq!(
        io_status_from_metal(9).unwrap_err().to_string(),
        "invalid IOStatus value from Metal: 9"
    );
    assert_eq!(
        io_status_from_metal(-4).unwrap_err().to_string(),
        "invalid IOStatus value from Metal: -4"
    );
    assert_eq!(
        io_status_from_metal(isize::MIN).unwrap_err().to_string(),
        format!("invalid IOStatus value from Metal: {}", isize::MIN)
    );
}

#[test]
fn io_compression_status_errors_name_the_value() {
    assert_eq!(io_compression_status_from_metal(1).unwrap(), IOCompressionStatus::Error);
    assert_eq!(
        io_compression_status_from_metal(12345).unwrap_err().to_string(),
        "invalid IOCompressionStatus value from Metal: 12345"
    );
}

#[test]
fn io_descriptor_values() {
    assert_eq!(io_priority_from_metal(2).unwrap(), IOPriority::Low);
    assert_eq!(
        io_priority_from_metal(3).unwrap_err().to_string(),
        "invalid IOPriority value from Metal"
    );
    assert_eq!(io_command_queue_type_from_metal(1).unwrap(), IOCommandQueueType::Serial);
    assert_eq!(
        io_command_queue_type_from_metal(2).unwrap_err().to_string(),
        "invalid IOCommandQueueType value from Metal"
    );
}

#[test]
fn attachment_and_pass_values() {
    assert_eq!(load_action_from_metal(2).unwrap(), LoadAction::Clear);
    assert_eq!(
        load_action_from_metal(70).unwrap_err().to_string(),
        "invalid MTLLoadAction value from Metal: 70"
    );
    assert_eq!(store_action_from_metal(2).unwrap(), StoreAction::MultisampleResolve);
    assert_eq!(
        store_action_from_metal(usize::MAX).unwrap_err().to_string(),
        format!("invalid MTLStoreAction value from Metal: {}", usize::MAX)
    );
    assert_eq!(dispatch_type_from_metal(1).unwrap(), DispatchType::Concurrent);
    assert_eq!(
        dispatch_type_from_metal(10).unwrap_err().to_string(),
        "invalid MTLDispatchType value from Metal: 10"
    );
}

#[test]
fn library_values() {
    assert_eq!(library_type_from_metal(1).unwrap(), LibraryType::Dynamic);
    assert_eq!(
        library_type_from_metal(2).unwrap_err().to_string(),
        "unknown MTLLibraryType: 2"
    );
    assert_eq!(optimization_level_from_metal(0), Some(LibraryOptimizationLevel::Default));
    assert_eq!(optimization_level_from_metal(1), Some(LibraryOptimizationLevel::Size));
    assert_eq!(optimization_level_from_metal(2), None);
    assert_eq!(optimization_level_from_metal(usize::MAX), None);
}

#[test]
fn unsupported_messages() {
    assert!(require_support(true, "enqueueBarrier is not supported").is_ok());
    let err = require_support(false, "enqueueBarrier is not supported").unwrap_err();
    assert!(err.to_string().contains("not supported"));
    assert_eq!(err.message(), "enqueueBarrier is not supported");
}

#[test]
fn file_handle_selector_prefers_current() {
    let msg = "newIOFileHandleWithURL:error: is not supported";
    assert_eq!(file_handle_selector(true, true, msg).unwrap(), FileHandleSelector::Current);
    assert_eq!(file_handle_selector(true, false, msg).unwrap(), FileHandleSelector::Current);
    assert_eq!(file_handle_selector(false, true, msg).unwrap(), FileHandleSelector::Legacy);
    assert_eq!(file_handle_selector(false, false, msg).unwrap_err().to_string(), msg);
}

#[test]
fn function_and_library_texts() {
    let e = function_not_found("non_existent_function");
    assert!(e.to_string().contains("non_existent_function"));
    assert_eq!(
        e.to_string(),
        "failed to load Metal function 'non_existent_function': not found in library"
    );
    assert_eq!(
        specialization_failure_text("blur"),
        "failed to specialize Metal function 'blur' with constants"
    );
    assert_eq!(
        library_url_failure_text("/tmp/a.metallib"),
        "failed to load Metal library from URL: /tmp/a.metallib"
    );
    assert_eq!(
        library_file_failure_text("/tmp/non_existent_file_xyz_123.metallib"),
        "failed to load Metal library from file: /tmp/non_existent_file_xyz_123.metallib"
    );
}

#[test]
fn decimal_texts_match_formatting() {
    for n in [0usize, 7, 9, 10, 11, 99, 100, 4096, 1234567890, usize::MAX] {
        assert_eq!(text_with_number("n=", n), format!("n={}", n));
    }
    for n in [0isize, -1, -9, -10, 42, isize::MAX, isize::MIN, isize::MIN + 1] {
        assert_eq!(text_with_signed_number("", n), format!("{}", n));
    }
    assert_eq!(text_joined("ab", "cd"), "abcd");
    assert_eq!(text_around("<", "x", ">"), "<x>");
}
