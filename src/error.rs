use vstd::prelude::*;

verus! {

/// The errors that a conversion hands back to its caller.
#[derive(Debug, Clone, Copy, PartialEq, Eq)]
pub enum ErrorKind {
    /// The host raised a signal during a call.
    Signal,
    /// The host performed a non-local `throw` during a call.
    Throw,
    /// An embedded object was asked for as a type that it does not have.
    WrongTypeUserPtr { expected: &'static str },
    /// The bytes of a host string are not well-formed UTF-8.
    InvalidUtf8,
}

} // verus!
