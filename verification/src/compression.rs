//! The lifecycle of an IO compression context: it takes data while open, and
//! its native context is flushed and destroyed once, by an explicit flush or
//! when it is dropped, whichever comes first.

use vstd::prelude::*;
use crate::error::MetalError;

verus! {

/// Whether the native context of a compression context still exists.
#[derive(Clone, Copy, Debug, PartialEq, Eq, Structural)]
pub enum CompressionContextState {
    /// The native context exists and takes data.
    Open,
    /// The native context has been flushed and destroyed.
    Finished,
}

/// Something done to a compression context.
#[derive(Clone, Copy, Debug, PartialEq, Eq, Structural)]
pub enum CompressionEvent {
    /// Data is appended.
    Append,
    /// The context is flushed and destroyed explicitly.
    Flush,
    /// The context is dropped.
    Drop,
}

/// Whether `event` destroys the native context when it meets `state`.
pub open spec fn destroys(state: CompressionContextState, event: CompressionEvent) -> bool {
    state == CompressionContextState::Open && event != CompressionEvent::Append
}

/// The state after `event`.
pub open spec fn next_state(
    state: CompressionContextState,
    event: CompressionEvent,
) -> CompressionContextState {
    if event == CompressionEvent::Append {
        state
    } else {
        CompressionContextState::Finished
    }
}

/// How many times the native context is destroyed over `events`.
pub open spec fn destroy_count(state: CompressionContextState, events: Seq<CompressionEvent>) -> nat
    decreases events.len(),
{
    if events.len() == 0 {
        0
    } else {
        (if destroys(state, events[0]) {
            1nat
        } else {
            0nat
        }) + destroy_count(next_state(state, events[0]), events.drop_first())
    }
}

/// Whether `events` hold a flush or a drop.
pub open spec fn ends_context(events: Seq<CompressionEvent>) -> bool {
    exists|i: int| 0 <= i < events.len() && #[trigger] events[i] != CompressionEvent::Append
}

/// Whether data may be appended: only an open context takes data.
pub fn may_append(state: CompressionContextState) -> (r: bool)
    ensures
        r == (state == CompressionContextState::Open),
{
    match state {
        CompressionContextState::Open => true,
        CompressionContextState::Finished => false,
    }
}

/// Starts an explicit flush: `Ok` means that the native context is to be
/// flushed and destroyed now; a context flushed before gives the error.
pub fn begin_flush(state: &mut CompressionContextState) -> (r: Result<(), MetalError>)
    ensures
        *final(state) == next_state(*old(state), CompressionEvent::Flush),
        r is Ok <==> destroys(*old(state), CompressionEvent::Flush),
        r matches Err(e) ==> e@ == "IOCompressionContext::flush_and_destroy called more than once"@,
{
    match *state {
        CompressionContextState::Open => {
            *state = CompressionContextState::Finished;
            Ok(())
        },
        CompressionContextState::Finished => Err(
            MetalError::new("IOCompressionContext::flush_and_destroy called more than once"),
        ),
    }
}

/// Starts a drop: `true` means that the native context is to be flushed and
/// destroyed now.
pub fn begin_drop(state: &mut CompressionContextState) -> (r: bool)
    ensures
        *final(state) == next_state(*old(state), CompressionEvent::Drop),
        r == destroys(*old(state), CompressionEvent::Drop),
{
    let was_open = may_append(*state);
    *state = CompressionContextState::Finished;
    was_open
}

/// A finished context is never destroyed again.
pub proof fn lemma_finished_never_destroys(events: Seq<CompressionEvent>)
    ensures
        destroy_count(CompressionContextState::Finished, events) == 0,
    decreases events.len(),
{
    if events.len() > 0 {
        lemma_finished_never_destroys(events.drop_first());
    }
}

/// Whatever is done to a new context, its native context is destroyed at
/// most once, and exactly once when it is flushed or dropped.
pub proof fn lemma_destroyed_once(events: Seq<CompressionEvent>)
    ensures
        destroy_count(CompressionContextState::Open, events) <= 1,
        destroy_count(CompressionContextState::Open, events) == 1 <==> ends_context(events),
    decreases events.len(),
{
    if events.len() > 0 {
        let rest = events.drop_first();
        if events[0] == CompressionEvent::Append {
            lemma_destroyed_once(rest);
            if ends_context(events) {
                let i = choose|i: int| 0 <= i < events.len() && #[trigger] events[i]
                    != CompressionEvent::Append;
                assert(rest[i - 1] == events[i]);
            }
            if ends_context(rest) {
                let j = choose|j: int| 0 <= j < rest.len() && #[trigger] rest[j]
                    != CompressionEvent::Append;
                assert(events[j + 1] == rest[j]);
            }
        } else {
            lemma_finished_never_destroys(rest);
            assert(events[0] != CompressionEvent::Append);
        }
    }
}

} // verus!
