//! Core of a simulated-computer motherboard: a fixed-capacity host for
//! pluggable device modules.
//!
//! The motherboard aggregates device descriptors, validates them at boot,
//! builds the RAM mapping table and the self-describing info block, decodes
//! 64-bit global addresses into info-region, device-local, or unmapped
//! accesses, and routes interrupts either to a device or to its own control
//! channel.
//!
//! Everything the motherboard itself decides or computes is verified here.
//! Device modules live behind an opaque callback boundary; whenever an
//! operation must reach a device callback, the bus functions return a
//! precise, proven instruction (which device, which local address, how many
//! bytes) for the unverified host shell to carry out.

pub mod board;
pub mod bus;
pub mod device;
pub mod errors;
pub mod layout;
pub mod lifecycle;
pub mod memory;
