//! The structures that select PCRs.

pub mod slot;

pub use slot::PcrSlot;
