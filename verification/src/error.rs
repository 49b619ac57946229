//! The error of the client layer.

use vstd::prelude::*;

verus! {

/// Failure of a call made through the client layer.
///
/// The layer has no failures of its own: the one variant holds the inner
/// client's error as it was raised. Layers stack, each adding one level, and
/// the first cause stays in reach through [`ClientError::into_inner`].
#[derive(Debug, PartialEq, Eq)]
pub enum ClientError<E> {
    /// The inner client failed with the error held here.
    MiddlewareError(E),
}

impl<E> ClientError<E> {
    /// The inner client's error that `self` holds.
    pub open spec fn cause(self) -> E {
        match self {
            ClientError::MiddlewareError(err) => err,
        }
    }

    /// Re-tags an error of the inner client as an error of this layer.
    pub fn from(err: E) -> (out: Self)
        ensures
            out == ClientError::MiddlewareError(err),
    {
        ClientError::MiddlewareError(err)
    }

    /// Borrows the inner client's error.
    pub fn as_inner(&self) -> (err: &E)
        ensures
            *err == self.cause(),
    {
        match self {
            ClientError::MiddlewareError(err) => err,
        }
    }

    /// Gives the inner client's error back, unchanged.
    pub fn into_inner(self) -> (err: E)
        ensures
            self == ClientError::MiddlewareError(err),
    {
        match self {
            ClientError::MiddlewareError(err) => err,
        }
    }
}

/// Re-tagging keeps the inner error whole: the cause of a wrapped error is
/// the error that was wrapped, and an error of this layer is nothing but
/// its cause under the one variant.
pub proof fn lemma_cause_round_trip<E>(err: E, wrapped: ClientError<E>)
    ensures
        ClientError::MiddlewareError(err).cause() == err,
        ClientError::MiddlewareError(wrapped.cause()) == wrapped,
{
}

} // verus!
