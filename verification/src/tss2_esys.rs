//! The constants of the software stack that this library goes by.

use vstd::prelude::*;

verus! {

/// The number of bytes in which the TPM hands a selection of PCRs about: one
/// bit for each of the 32 PCRs.
pub const TPM2_PCR_SELECT_MAX: usize = 4;

} // verus!
