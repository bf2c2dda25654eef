//! The connector's error.

use vstd::prelude::*;

verus! {

/// A failed connect. It stands for an I/O failure and wraps whatever the
/// handshake reported; the cause is kept as it came and never read here.
#[derive(Debug)]
pub struct ConnectError<E> {
    cause: E,
}

impl<E> View for ConnectError<E> {
    type V = E;

    closed spec fn view(&self) -> E {
        self.cause
    }
}

impl<E> ConnectError<E> {
    /// The failure that the handshake reported.
    pub fn cause(&self) -> (cause: &E)
        ensures
            *cause == self@,
    {
        &self.cause
    }

    /// Unwraps the failure that the handshake reported.
    pub fn into_cause(self) -> (cause: E)
        ensures
            cause == self@,
    {
        self.cause
    }
}

/// Wraps a handshake failure, whatever it is, as the connector's error.
pub fn to_connect_error<E>(e: E) -> (err: ConnectError<E>)
    ensures
        err@ == e,
{
    ConnectError { cause: e }
}

} // verus!
