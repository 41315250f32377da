//! The closed sets of identifiers that the status codes are made of.

pub mod base_error;
pub mod return_code;

pub use base_error::BaseError;
pub use return_code::TpmFormatOneError;
