//! The response codes that the TPM itself gives.

pub mod format_one;

pub use format_one::{Argument, ArgumentNumber, TpmFormatOneResponseCode};
