//! The error of this library, and the return codes of the software stack.

pub mod return_code;

use vstd::prelude::*;

verus! {

/// The ways in which this library itself can refuse a value.
#[derive(Copy, Clone, Debug, PartialEq, Eq, Hash, Structural)]
pub enum WrapperErrorKind {
    /// A raw value that is no member of the closed set it was decoded against.
    InvalidParam,
}

/// The error type of every fallible operation of this library.
#[derive(Copy, Clone, Debug, PartialEq, Eq, Hash, Structural)]
pub enum Error {
    /// The failure arose in this library, not in the TPM or the layers below.
    WrapperError(WrapperErrorKind),
}

pub type Result<T> = core::result::Result<T, Error>;

impl Error {
    /// The error for a failure of the given kind that arose in this library.
    pub fn local_error(kind: WrapperErrorKind) -> (error: Self)
        ensures
            error == Error::WrapperError(kind),
    {
        Error::WrapperError(kind)
    }
}

} // verus!
