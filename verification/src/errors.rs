//! Simulator-plane errors.
//!
//! These are the typed failures of the motherboard itself.  Misbehaviour of
//! the simulated machine (out-of-range addresses, unmapped accesses, unknown
//! interrupt codes, missing optional callbacks) is *not* an error: those
//! operations succeed silently and are left to the simulated operating
//! system to detect.

use vstd::prelude::*;

verus! {

/// A simulator-plane failure of a motherboard operation.
#[derive(Clone, Copy, PartialEq, Eq, Structural, Debug)]
pub enum Error {
    /// `add_device` was called while every slot is filled.
    Full,
    /// `add_device` or `begin_boot` was called during an active boot
    /// session.
    AlreadyBooted,
    /// Boot validation found a device that declares memory mapping but does
    /// not supply both `load_bytes` and `write_bytes`.
    MemoryMappingIncomplete,
    /// Boot validation found a device that supplies `boot` but not `halt`.
    MissingHalt,
}

} // verus!
