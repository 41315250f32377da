//! The return codes: a base error as such, a base error as one layer admits
//! it, and the response codes of the TPM itself.

pub mod base;
pub mod muapi;
pub mod tpm;

pub use base::BaseReturnCode;
pub use muapi::MuapiReturnCode;
