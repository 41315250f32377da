//! Decoding, encoding and rendering of the status codes that a TPM 2.0
//! software stack hands back, and the selector type for PCR slots.
//!
//! Every decoder takes a raw integer and gives either a typed value or the
//! one error of this library, `InvalidParam`; every encoder is total and
//! gives the integer back. The types are small, copyable and immutable, and
//! no function keeps state.
//!
//! - [`constants`] holds the two registries: the base errors with their
//!   16-bit codes, and the format-one errors with their six-bit numbers.
//! - [`error::return_code`] holds the return codes built on them: the base
//!   return code, the return code of the MUAPI layer, which admits five of the
//!   base errors, and the TPM response code of format one, which pairs an
//!   error with the argument number that says what the error is about.
//! - [`structures`] holds the PCR slot, one bit of a 32-bit mask, with its
//!   little-endian byte form.
//!
//! What a function returns is stated over spec functions of the same types:
//! `code`, `number` and `mask` give the integer of a value, `decode` says what
//! a decoder gives for an integer, and `text` what a value renders as. The
//! proof functions named `lemma_..` state what holds between them.

pub mod constants;
pub mod error;
pub mod structures;
pub mod tss2_esys;

pub use error::{Error, Result, WrapperErrorKind};
