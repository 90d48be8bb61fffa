//! Value-carrying failures surfaced by the dispatcher.
//!
//! No failure here is fatal: each one is scoped to the single property
//! operation that raised it, and the caller decides what to make of it.
//! Failures raised inside a delegate method body are propagated unchanged;
//! the dispatcher adds no context and does not suppress or retry.

use vstd::prelude::*;

verus! {

#[derive(Debug, PartialEq, Eq)]
pub enum Error {
    /// GET or SET on a sealed class with no qualifying namespace, or CALL
    /// with no qualifying namespace.  Carries the attempted local name, or
    /// its absence, for the message.
    UndefinedProperty(Option<String>),
    /// SET on a dynamic class with a multiname lacking any local name:
    /// the write target cannot even be named.
    InvalidSetTarget,
    /// A delegate's return value could not be coerced to the numeric type
    /// the operation requires.
    NonCoercible,
    /// A failure raised inside a delegate method body, carried through
    /// unchanged.
    DelegateFailure(String),
}

impl Clone for Error {
    fn clone(&self) -> (res: Self)
        ensures
            res == *self,
    {
        match self {
            Error::UndefinedProperty(local) => Error::UndefinedProperty(
                match local {
                    Option::None => Option::None,
                    Option::Some(s) => Option::Some(s.clone()),
                },
            ),
            Error::InvalidSetTarget => Error::InvalidSetTarget,
            Error::NonCoercible => Error::NonCoercible,
            Error::DelegateFailure(s) => Error::DelegateFailure(s.clone()),
        }
    }
}

} // verus!
