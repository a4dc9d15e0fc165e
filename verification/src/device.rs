//! Device descriptors: the value-typed record a host hands to the
//! motherboard for each plugged-in device module.

use vstd::prelude::*;

verus! {

/// Describes one device module plugged into a motherboard slot.
///
/// The real device lives behind an opaque handle and a table of optional
/// callbacks owned by the unverified host shell.  The motherboard never
/// looks inside the device; all it reads from a descriptor are the identity
/// fields below and which callbacks the module supplies.  The `has_*` flags
/// record exactly that: `has_load_bytes` is true when the module provides a
/// `load_bytes` callback, and so on.
#[derive(Clone, Copy, PartialEq, Eq, Structural, Debug)]
pub struct Device {
    /// Tag for the kind of device.  The low 32 bits are reserved for flags;
    /// bit 0 declares that the device participates in memory mapping.  The
    /// upper 32 bits identify the device class.
    pub device_type: u64,
    /// Instance id, unique within a `device_type`.
    pub device_id: u32,
    /// Number of locally addressable bytes the device exposes when mapped.
    pub export_memory_size: u32,
    /// Callback that copies bytes out of the device's local memory.
    pub has_load_bytes: bool,
    /// Callback that copies bytes into the device's local memory.
    pub has_write_bytes: bool,
    /// Callback run once per boot, before any device thread starts.
    pub has_init: bool,
    /// Callback run at the start of every boot iteration.
    pub has_reset: bool,
    /// Callback run after the run loop exits.
    pub has_cleanup: bool,
    /// Callback that runs the device controller until it is halted.
    pub has_boot: bool,
    /// Callback that makes a running `boot` callback return.
    pub has_halt: bool,
    /// Callback that receives interrupt codes aimed at this device.
    pub has_interrupt: bool,
    /// Callback that receives the motherboard's own callback table.
    pub has_register_motherboard: bool,
}

impl Device {
    /// Bit 0 of `device_type` declares participation in memory mapping.
    pub open spec fn spec_maps_memory(self) -> bool {
        (self.device_type & 1) != 0
    }

    /// Tells if the device should be memory mapped.
    pub fn maps_memory(&self) -> (mapped: bool)
        ensures
            mapped == self.spec_maps_memory(),
    {
        (self.device_type & 1) != 0
    }

    /// A descriptor that declares memory mapping must supply both memory
    /// callbacks.
    pub open spec fn mapping_complete(self) -> bool {
        self.spec_maps_memory() ==> (self.has_load_bytes && self.has_write_bytes)
    }

    /// A descriptor that supplies `boot` must supply `halt`, so a running
    /// controller can always be stopped.
    pub open spec fn halt_complete(self) -> bool {
        self.has_boot ==> self.has_halt
    }

    /// Both descriptor invariants that boot validation enforces.
    pub open spec fn boot_ready(self) -> bool {
        self.mapping_complete() && self.halt_complete()
    }
}

} // verus!
