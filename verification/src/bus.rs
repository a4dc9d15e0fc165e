//! The global address bus: how a 64-bit address decodes and how reads and
//! writes are clamped.
//!
//! The upper 32 bits of a global address pick the target: the all-ones tag
//! names the info region, a value below the mapping-table length names a
//! mapped device, and anything else is unmapped.  The lower 32 bits are the
//! local offset inside the target.
//!
//! A read or write that lands on a device must run through that device's
//! callback, which the verified core cannot call; the bus operations
//! therefore return either a finished status (`Done`) or a precise
//! instruction for the host shell (`DeviceRead` / `DeviceWrite`), with the
//! byte count already clamped to the device's exported window.

use vstd::math::min;
use vstd::prelude::*;

verus! {

/// Upper 32 bits of a global address: the RAM index.
pub open spec fn addr_upper(addr: u64) -> u64 {
    addr >> 32
}

/// Lower 32 bits of a global address: the local offset.
pub open spec fn addr_lower(addr: u64) -> u64 {
    addr & 0xFFFF_FFFF
}

/// The RAM index that names the info region (and, as an interrupt target,
/// the motherboard itself).
pub const INFO_REGION_TAG: u32 = 0xFFFF_FFFF;

/// Status returned for a read or write of more than `u32::MAX` bytes.
pub const OVERSIZED_REQUEST: i32 = -10;

/// Status returned for halt, reboot, or a motherboard interrupt while no
/// boot session is active.
pub const NOT_BOOTED: i32 = -1;

/// A device read is clamped to the device's exported memory size, even
/// though devices are told to ignore invalid reads themselves.
pub open spec fn read_clamp(count: int, size: u32) -> int {
    min(count, size as int)
}

/// A device write is clamped to the remaining local window.  A local offset
/// beyond the window leaves nothing to write.
pub open spec fn write_clamp(count: int, size: u32, local: u64) -> int {
    if local <= size {
        min(count, size - local)
    } else {
        0
    }
}

/// How many bytes a copy out of `src` starting at `local` can deliver: up
/// to `count`, and never beyond the end of `src`.
pub open spec fn clamped_copy_len(src_len: int, local: int, count: int) -> int {
    if local <= src_len {
        min(count, src_len - local)
    } else {
        0
    }
}

/// The destination buffer after copying up to `count` bytes of `src`,
/// starting at offset `local` of `src`: the bytes that exist are copied to
/// the front, every byte past them keeps its old value.
pub open spec fn overlay_read(src: Seq<u8>, local: int, count: int, dest0: Seq<u8>) -> Seq<u8>
    recommends
        count <= dest0.len(),
{
    Seq::new(
        dest0.len(),
        |k: int|
            if k < clamped_copy_len(src.len() as int, local, count) {
                src[local + k]
            } else {
                dest0[k]
            },
    )
}

/// The memory after writing up to `count` bytes of `src` at offset
/// `local`: the bytes that fit are overwritten, everything else keeps its
/// old value.
pub open spec fn overlay_write(mem: Seq<u8>, local: int, count: int, src: Seq<u8>) -> Seq<u8>
    recommends
        count <= src.len(),
{
    Seq::new(
        mem.len(),
        |k: int|
            if local <= k < local + clamped_copy_len(mem.len() as int, local, count) {
                src[k - local]
            } else {
                mem[k]
            },
    )
}

/// Round trip through a mapped device that behaves as a plain byte array:
/// writing `data` at a local offset inside the device's window and reading
/// the same count back returns `data` truncated to what fits between the
/// offset and the end of the window; the destination bytes past the
/// truncation keep their old values.
///
/// The write count is clamped as the bus clamps a device write, the read
/// count as the bus clamps a device read, and the device applies each
/// request as the byte-array model does.
pub proof fn lemma_write_read_round_trip(
    mem: Seq<u8>,
    size: u32,
    local: u32,
    data: Seq<u8>,
    dest0: Seq<u8>,
)
    requires
        mem.len() == size,
        local <= size,
        dest0.len() == data.len(),
    ensures
        ({
            let visible = min(data.len() as int, size - local);
            let written = overlay_write(
                mem,
                local as int,
                write_clamp(data.len() as int, size, local as u64),
                data,
            );
            let readback = overlay_read(
                written,
                local as int,
                read_clamp(data.len() as int, size),
                dest0,
            );
            &&& readback.len() == data.len()
            &&& forall|k: int| 0 <= k < visible ==> readback[k] == data[k]
            &&& forall|k: int| visible <= k < data.len() ==> readback[k] == dest0[k]
        }),
{
}

/// Outcome of a bus read.
#[derive(Clone, Copy, PartialEq, Eq, Structural, Debug)]
pub enum ReadOutcome {
    /// The bus finished the read itself; the status is 0 unless the
    /// request was oversized.
    Done(i32),
    /// The read lands on a mapped device that supplies `load_bytes`: the
    /// host shell must invoke it on device `slot` with this local address
    /// and clamped byte count, the destination untouched so far.
    DeviceRead { slot: usize, local: u32, count: u32 },
}

/// Outcome of a bus write.
#[derive(Clone, Copy, PartialEq, Eq, Structural, Debug)]
pub enum WriteOutcome {
    /// The bus finished the write itself; the status is 0 unless the
    /// request was oversized.
    Done(i32),
    /// The write lands on a mapped device that supplies `write_bytes`: the
    /// host shell must invoke it on device `slot` with this local address
    /// and clamped byte count.
    DeviceWrite { slot: usize, local: u32, count: u32 },
}

/// Outcome of routing an interrupt.
#[derive(Clone, Copy, PartialEq, Eq, Structural, Debug)]
pub enum InterruptOutcome {
    /// The router finished by itself: 0 for ignored codes and targets,
    /// `NOT_BOOTED` for a motherboard interrupt outside a boot session.
    Done(i32),
    /// A halt message must be posted on the control channel.
    SignalHalt,
    /// A reboot message must be posted on the control channel.
    SignalReboot,
    /// The interrupt is for device `slot`, which supplies an `interrupt`
    /// callback: the host shell must invoke it with the code.
    DeviceInterrupt { slot: usize },
}

} // verus!
