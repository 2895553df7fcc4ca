//! The error type of the library.

use vstd::prelude::*;

verus! {

/// An error with a human readable message.
#[derive(Debug)]
pub struct MetalError {
    message: String,
}

impl View for MetalError {
    type V = Seq<char>;

    closed spec fn view(&self) -> Seq<char> {
        self.message@
    }
}

impl Clone for MetalError {
    /// A copy holding the same message.
    fn clone(&self) -> (r: MetalError)
        ensures
            r@ == self@,
    {
        MetalError { message: self.message.clone() }
    }
}

impl MetalError {
    /// The error with the given message.
    pub fn new(message: &str) -> (r: MetalError)
        ensures
            r@ == message@,
    {
        MetalError { message: message.to_owned() }
    }

    /// The error whose message is `message`.
    pub(crate) fn with_message(message: String) -> (r: MetalError)
        ensures
            r@ == message@,
    {
        MetalError { message }
    }

    /// The message of the error.
    pub fn message(&self) -> (r: &str)
        ensures
            r@ == self@,
    {
        self.message.as_str()
    }

    /// The message of the error, as an owned string.
    pub fn to_string(&self) -> (r: String)
        ensures
            r@ == self@,
    {
        self.message.clone()
    }
}

/// The message of an error reported by Metal: its description where it has
/// one, else `fallback`.
pub fn error_message(description: Option<String>, fallback: &str) -> (r: String)
    ensures
        r@ == (match description {
            Some(d) => d@,
            None => fallback@,
        }),
{
    match description {
        Some(d) => d,
        None => fallback.to_owned(),
    }
}

} // verus!
