//! The structures that select what a command works on.

pub mod pcr;

pub use pcr::PcrSlot;
