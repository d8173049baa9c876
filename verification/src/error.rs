//! Socket errors.

use vstd::prelude::*;

verus! {

/// What can go wrong with a socket operation.
#[derive(Debug, PartialEq, Eq)]
pub enum Error<E> {
    /// Fewer bytes were left than an exact read or a seek asked for.
    UnexpectedEof,
    /// Less room was left in the socket buffer than an exact write asked for.
    OutOfMemory,
    /// A failure of the register transport, handed on unchanged.
    Other(E),
    /// No complete unit of work is there yet: not a failure, try again later.
    WouldBlock,
}

impl<E> From<E> for Error<E> {
    fn from(error: E) -> (e: Error<E>) {
        Error::Other(error)
    }
}

impl<E> vstd::std_specs::convert::FromSpecImpl<E> for Error<E> {
    open spec fn obeys_from_spec() -> bool {
        true
    }

    open spec fn from_spec(error: E) -> Error<E> {
        Error::Other(error)
    }
}

} // verus!
