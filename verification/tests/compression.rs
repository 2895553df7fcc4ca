use minmetal::compression::{begin_drop, begin_flush, may_append, CompressionContextState};

#[test]
fn open_context_takes_data() {
    assert!(may_append(CompressionContextState::Open));
    assert!(!may_append(CompressionContextState::Finished));
}

#[test]
fn flush_destroys_once_then_errors() {
    let mut state = CompressionContextState::Open;
    assert!(begin_flush(&mut state).is_ok());
    assert_eq!(state, CompressionContextState::Finished);
    let err = begin_flush(&mut state).unwrap_err();
    assert_eq!(
        err.to_string(),
        "IOCompressionContext::flush_and_destroy called more than once"
    );
    assert_eq!(state, CompressionContextState::Finished);
    assert!(!begin_drop(&mut state));
}

#[test]
fn drop_destroys_an_open_context_once() {
    let mut state = CompressionContextState::Open;
    assert!(begin_drop(&mut state));
    assert_eq!(state, CompressionContextState::Finished);
    assert!(!begin_drop(&mut state));
    assert!(!may_append(state));
}

#[test]
fn appending_keeps_the_context_open() {
    let state = CompressionContextState::Open;
    for _ in 0..3 {
        assert!(may_append(state));
    }
    let mut s = state;
    let mut destroyed = 0;
    if begin_flush(&mut s).is_ok() {
        destroyed += 1;
    }
    if begin_drop(&mut s) {
        destroyed += 1;
    }
    assert_eq!(destroyed, 1);
}
