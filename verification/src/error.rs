//! The error type shared by every fallible operation of the library.
use vstd::prelude::*;

verus! {

/// An error reported by the library, carrying a human-readable message.
#[derive(Debug)]
pub struct Exception {
    what: String,
}

impl Exception {
    /// The message as a sequence of characters.
    pub closed spec fn message(&self) -> Seq<char> {
        self.what@
    }

    /// Build an exception from a message.
    pub fn custom(what: &str) -> (e: Exception)
        ensures
            e.message() == what@,
    {
        Exception { what: String::from_str(what) }
    }

    /// Build an exception that carries `what` as its message.
    pub fn from_string(what: String) -> (e: Exception)
        ensures
            e.message() == what@,
    {
        Exception { what }
    }

    /// The message carried by this exception.
    pub fn what(&self) -> (s: &str)
        ensures
            s@ == self.message(),
    {
        self.what.as_str()
    }
}

} // verus!
