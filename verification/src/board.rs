//! The motherboard: a fixed-capacity host for device modules.
//!
//! The motherboard owns its slot budget, the descriptor copies, the RAM
//! mapping table, the info block, and (while booted) the control channel.
//! This module holds the state itself together with construction, slot
//! management and the lifecycle-status operations; address decoding lives in
//! `bus`, the boot passes in `lifecycle`.

use vstd::prelude::*;

use crate::bus::{
    addr_lower, addr_upper, overlay_read, read_clamp, write_clamp, ReadOutcome, WriteOutcome,
    InterruptOutcome, INFO_REGION_TAG, NOT_BOOTED, OVERSIZED_REQUEST,
};
use crate::device::Device;
use crate::errors::Error;
use crate::layout::{build_info_block, build_mapping_table, mapping_table, spec_info_block};
use crate::lifecycle::{validate_devices, validation_error};

verus! {

/// Mathematical model of a motherboard: what every contract speaks of.
pub struct BoardView {
    /// Slot budget, fixed at construction.
    pub capacity: int,
    /// Descriptors in the order they were added.
    pub devices: Seq<Device>,
    /// RAM mapping table: indices into `devices`, one per mapping device,
    /// in device order.  Rebuilt at boot.
    pub mappings: Seq<usize>,
    /// The self-describing info region.  Rebuilt at boot.
    pub info: Seq<u8>,
    /// Whether a boot session is active, i.e. the control channel is
    /// installed.
    pub booted: bool,
}

/// Construction parameters for a motherboard: how many device slots it
/// gets.  The slot budget is fixed for the motherboard's whole life.
#[derive(Clone, Copy, PartialEq, Eq, Structural, Debug)]
pub struct MotherboardConfig {
    /// The slot budget.
    pub max_devices: u32,
}

/// A motherboard with a fixed number of device slots.
///
/// The host adds devices while the board is idle, then runs a boot session.
/// The control channel itself (a real multi-producer queue) is owned by the
/// unverified host shell; the model tracks only whether it is installed.
pub struct Motherboard {
    capacity: usize,
    devices: Vec<Device>,
    ram_mappings: Vec<usize>,
    info_block: Vec<u8>,
    booted: bool,
}

impl View for Motherboard {
    type V = BoardView;

    closed spec fn view(&self) -> BoardView {
        BoardView {
            capacity: self.capacity as int,
            devices: self.devices@,
            mappings: self.ram_mappings@,
            info: self.info_block@,
            booted: self.booted,
        }
    }
}

impl Motherboard {
    /// Never more devices than slots, and every mapping-table entry names a
    /// real device.
    #[verifier::type_invariant]
    spec fn wf(self) -> bool {
        &&& self.devices@.len() <= self.capacity
        &&& forall|k: int|
            0 <= k < self.ram_mappings@.len() ==> self.ram_mappings@[k] < self.devices@.len()
    }

    /// Constructs a motherboard with `capacity` empty slots, no mapping
    /// table, no info block, and no boot session.
    pub fn new(capacity: usize) -> (board: Motherboard)
        ensures
            board@.capacity == capacity,
            board@.devices == Seq::<Device>::empty(),
            board@.mappings == Seq::<usize>::empty(),
            board@.info == Seq::<u8>::empty(),
            !board@.booted,
    {
        let board = Motherboard {
            capacity,
            devices: Vec::new(),
            ram_mappings: Vec::new(),
            info_block: Vec::new(),
            booted: false,
        };
        board
    }

    /// Constructs a motherboard from its configuration record.
    pub fn with_config(config: MotherboardConfig) -> (board: Motherboard)
        ensures
            board@.capacity == config.max_devices,
            board@.devices == Seq::<Device>::empty(),
            board@.mappings == Seq::<usize>::empty(),
            board@.info == Seq::<u8>::empty(),
            !board@.booted,
    {
        Motherboard::new(config.max_devices as usize)
    }

    /// The number of slots this motherboard has.
    pub fn num_slots(&self) -> (slots: usize)
        ensures
            slots == self@.capacity,
    {
        self.capacity
    }

    /// The number of slots filled on this motherboard.
    ///
    /// The filled count can never exceed the slot budget: `add_device`
    /// refuses a device once the board is full.
    pub fn slots_filled(&self) -> (filled: usize)
        ensures
            filled == self@.devices.len(),
            filled <= self@.capacity,
    {
        proof {
            use_type_invariant(&*self);
        }
        self.devices.len()
    }

    /// Whether every slot of the motherboard is filled.
    ///
    /// Because the device list can never outgrow the slot budget, "at least
    /// capacity" and "exactly capacity" coincide: `is_full` holds exactly
    /// when `slots_filled` equals the capacity.
    pub fn is_full(&self) -> (full: bool)
        ensures
            full == (self@.devices.len() >= self@.capacity),
            full == (self@.devices.len() == self@.capacity),
    {
        proof {
            use_type_invariant(&*self);
        }
        self.devices.len() >= self.capacity
    }

    /// Whether a boot session is active.
    pub fn is_booted(&self) -> (booted: bool)
        ensures
            booted == self@.booted,
    {
        self.booted
    }

    /// Appends a copy of `device` to the device list.
    ///
    /// Fails with `Full` when every slot is filled, and with
    /// `AlreadyBooted` during an active boot session: the device list is
    /// append-only before boot and read-only while booted.
    pub fn add_device(&mut self, device: Device) -> (result: Result<(), Error>)
        ensures
            match result {
                Ok(()) => {
                    &&& !old(self)@.booted
                    &&& old(self)@.devices.len() < old(self)@.capacity
                    &&& final(self)@.devices == old(self)@.devices.push(device)
                    &&& final(self)@.devices.len() == old(self)@.devices.len() + 1
                    &&& final(self)@.devices.len() <= final(self)@.capacity
                    &&& final(self)@.capacity == old(self)@.capacity
                    &&& final(self)@.mappings == old(self)@.mappings
                    &&& final(self)@.info == old(self)@.info
                    &&& final(self)@.booted == old(self)@.booted
                },
                Err(Error::AlreadyBooted) => old(self)@.booted && final(self)@ == old(self)@,
                Err(Error::Full) => {
                    &&& !old(self)@.booted
                    &&& old(self)@.devices.len() >= old(self)@.capacity
                    &&& final(self)@ == old(self)@
                },
                Err(_) => false,
            },
    {
        proof {
            use_type_invariant(&*self);
        }
        if self.booted {
            Err(Error::AlreadyBooted)
        } else if self.devices.len() >= self.capacity {
            Err(Error::Full)
        } else {
            let mut mappings: Vec<usize> = Vec::new();
            std::mem::swap(&mut mappings, &mut self.ram_mappings);
            let mut devices: Vec<Device> = Vec::new();
            std::mem::swap(&mut devices, &mut self.devices);
            devices.push(device);
            self.devices = devices;
            self.ram_mappings = mappings;
            Ok(())
        }
    }

    /// Starts a boot session: validates every device, rebuilds the RAM
    /// mapping table and the info block, and installs the control state.
    ///
    /// Succeeds exactly when no session is active and every device passes
    /// validation.  A validation failure reports the first failing device's
    /// error and leaves the motherboard unchanged and reusable.  The
    /// registration, init, run-loop and cleanup passes are driven by the
    /// host shell between `begin_boot` and `end_boot`.
    pub fn begin_boot(&mut self) -> (result: Result<(), Error>)
        ensures
            match result {
                Ok(()) => {
                    &&& !old(self)@.booted
                    &&& validation_error(old(self)@.devices) is None
                    &&& final(self)@.booted
                    &&& final(self)@.capacity == old(self)@.capacity
                    &&& final(self)@.devices == old(self)@.devices
                    &&& final(self)@.mappings == mapping_table(old(self)@.devices)
                    &&& final(self)@.info == spec_info_block(old(self)@.devices)
                },
                Err(Error::AlreadyBooted) => old(self)@.booted && final(self)@ == old(self)@,
                Err(failure) => {
                    &&& !old(self)@.booted
                    &&& validation_error(old(self)@.devices) == Some(failure)
                    &&& final(self)@ == old(self)@
                },
            },
    {
        proof {
            use_type_invariant(&*self);
            crate::lifecycle::lemma_validation_error_kinds(self.devices@);
        }
        if self.booted {
            return Err(Error::AlreadyBooted);
        }
        match validate_devices(&self.devices) {
            Some(failure) => Err(failure),
            None => {
                let table = build_mapping_table(&self.devices);
                let info = build_info_block(&self.devices, &table);
                self.ram_mappings = table;
                self.info_block = info;
                self.booted = true;
                Ok(())
            },
        }
    }

    /// Ends a boot session: clears the control state, once the run loop
    /// has exited and the cleanup pass is done.  The mapping table and the
    /// info block keep their last-built contents.
    pub fn end_boot(&mut self)
        ensures
            !final(self)@.booted,
            final(self)@.capacity == old(self)@.capacity,
            final(self)@.devices == old(self)@.devices,
            final(self)@.mappings == old(self)@.mappings,
            final(self)@.info == old(self)@.info,
    {
        proof {
            use_type_invariant(&*self);
        }
        self.booted = false;
    }

    /// Loads bytes from the global address space into `dest`.
    ///
    /// A request larger than `u32::MAX` bytes is refused as oversized.  A
    /// read of the info region copies what exists of
    /// `info[local..local + dest.len()]` to the front of `dest` and leaves
    /// every byte past the copied ones untouched.  A read of a mapped
    /// device is handed to the host shell with the byte count clamped to
    /// the device's exported size — unless the device supplies no
    /// `load_bytes`, which reads nothing.  An unmapped read is silently
    /// nothing: simulated-machine misbehaviour is the simulated operating
    /// system's concern.
    pub fn load_bytes(&self, addr: u64, dest: &mut Vec<u8>) -> (outcome: ReadOutcome)
        ensures
            final(dest)@.len() == old(dest)@.len(),
            old(dest)@.len() > u32::MAX ==> outcome == ReadOutcome::Done(OVERSIZED_REQUEST)
                && final(dest)@ == old(dest)@,
            old(dest)@.len() <= u32::MAX && addr_upper(addr) == INFO_REGION_TAG as u64 ==> outcome
                == ReadOutcome::Done(0) && final(dest)@ == overlay_read(
                self@.info,
                addr_lower(addr) as int,
                old(dest)@.len() as int,
                old(dest)@,
            ),
            old(dest)@.len() <= u32::MAX && addr_upper(addr) != INFO_REGION_TAG as u64
                && addr_upper(addr) < self@.mappings.len() ==> {
                let slot = self@.mappings[addr_upper(addr) as int];
                let device = self@.devices[slot as int];
                &&& final(dest)@ == old(dest)@
                &&& device.has_load_bytes ==> outcome == (ReadOutcome::DeviceRead {
                    slot,
                    local: addr_lower(addr) as u32,
                    count: read_clamp(
                        old(dest)@.len() as int,
                        device.export_memory_size,
                    ) as u32,
                })
                &&& !device.has_load_bytes ==> outcome == ReadOutcome::Done(0)
            },
            old(dest)@.len() <= u32::MAX && addr_upper(addr) != INFO_REGION_TAG as u64
                && addr_upper(addr) >= self@.mappings.len() ==> outcome == ReadOutcome::Done(0)
                && final(dest)@ == old(dest)@,
    {
        proof {
            use_type_invariant(&*self);
            assert(addr >> 32 <= 0xFFFF_FFFFu64) by (bit_vector);
            assert(addr & 0xFFFF_FFFF <= 0xFFFF_FFFFu64) by (bit_vector);
        }
        let ram_index: u64 = addr >> 32;
        if dest.len() > (u32::MAX as usize) {
            return ReadOutcome::Done(OVERSIZED_REQUEST);
        }
        let start_addr: u32 = (addr & 0xFFFF_FFFF) as u32;
        if ram_index == INFO_REGION_TAG as u64 {
            let ghost dest0 = dest@;
            let info_len = self.info_block.len();
            let n = dest.len();
            let start = start_addr as usize;
            let copied: usize = if start <= info_len {
                let avail = info_len - start;
                if n < avail {
                    n
                } else {
                    avail
                }
            } else {
                0
            };
            let mut k: usize = 0;
            while k < copied
                invariant
                    k <= copied,
                    copied <= n,
                    copied == 0 || start + copied <= info_len,
                    info_len == self.info_block@.len(),
                    n == dest@.len(),
                    n == dest0.len(),
                    forall|j: int| 0 <= j < k ==> dest@[j] == self.info_block@[start + j],
                    forall|j: int| k <= j < n ==> dest@[j] == dest0[j],
                decreases copied - k,
            {
                let byte = self.info_block[start + k];
                dest[k] = byte;
                k = k + 1;
            }
            proof {
                assert(dest@ =~= overlay_read(self@.info, addr_lower(addr) as int, n as int, dest0));
            }
            return ReadOutcome::Done(0);
        }
        if ram_index < self.ram_mappings.len() as u64 {
            let slot = self.ram_mappings[ram_index as usize];
            let device = self.devices[slot];
            if device.has_load_bytes {
                let n32 = dest.len() as u32;
                let count = if n32 < device.export_memory_size {
                    n32
                } else {
                    device.export_memory_size
                };
                ReadOutcome::DeviceRead { slot, local: start_addr, count }
            } else {
                ReadOutcome::Done(0)
            }
        } else {
            ReadOutcome::Done(0)
        }
    }

    /// Writes bytes from `source` into the global address space.
    ///
    /// A request larger than `u32::MAX` bytes is refused as oversized.
    /// Writes to the info region are silently discarded.  A write to a
    /// mapped device is handed to the host shell with the byte count
    /// clamped to what remains of the device's exported window past the
    /// local offset (an offset beyond the window leaves nothing to write) —
    /// unless the device supplies no `write_bytes`, which writes nothing.
    /// An unmapped write is silently nothing.
    pub fn write_bytes(&self, addr: u64, source: &Vec<u8>) -> (outcome: WriteOutcome)
        ensures
            source@.len() > u32::MAX ==> outcome == WriteOutcome::Done(OVERSIZED_REQUEST),
            source@.len() <= u32::MAX && addr_upper(addr) == INFO_REGION_TAG as u64 ==> outcome
                == WriteOutcome::Done(0),
            source@.len() <= u32::MAX && addr_upper(addr) != INFO_REGION_TAG as u64
                && addr_upper(addr) < self@.mappings.len() ==> {
                let slot = self@.mappings[addr_upper(addr) as int];
                let device = self@.devices[slot as int];
                &&& device.has_write_bytes ==> outcome == (WriteOutcome::DeviceWrite {
                    slot,
                    local: addr_lower(addr) as u32,
                    count: write_clamp(
                        source@.len() as int,
                        device.export_memory_size,
                        addr_lower(addr),
                    ) as u32,
                })
                &&& !device.has_write_bytes ==> outcome == WriteOutcome::Done(0)
            },
            source@.len() <= u32::MAX && addr_upper(addr) != INFO_REGION_TAG as u64
                && addr_upper(addr) >= self@.mappings.len() ==> outcome == WriteOutcome::Done(0),
    {
        proof {
            use_type_invariant(&*self);
            assert(addr >> 32 <= 0xFFFF_FFFFu64) by (bit_vector);
            assert(addr & 0xFFFF_FFFF <= 0xFFFF_FFFFu64) by (bit_vector);
        }
        let ram_index: u64 = addr >> 32;
        if source.len() > (u32::MAX as usize) {
            return WriteOutcome::Done(OVERSIZED_REQUEST);
        }
        let start_addr: u32 = (addr & 0xFFFF_FFFF) as u32;
        if ram_index == INFO_REGION_TAG as u64 {
            return WriteOutcome::Done(0);
        }
        if ram_index < self.ram_mappings.len() as u64 {
            let slot = self.ram_mappings[ram_index as usize];
            let device = self.devices[slot];
            if device.has_write_bytes {
                let len32 = source.len() as u32;
                let count = if start_addr <= device.export_memory_size {
                    let window = device.export_memory_size - start_addr;
                    if len32 < window {
                        len32
                    } else {
                        window
                    }
                } else {
                    0
                };
                WriteOutcome::DeviceWrite { slot, local: start_addr, count }
            } else {
                WriteOutcome::Done(0)
            }
        } else {
            WriteOutcome::Done(0)
        }
    }

    /// Routes an interrupt to `target` with the given code.
    ///
    /// The all-ones target is the motherboard itself: code 0 asks for a
    /// halt message and code 1 for a reboot message on the control channel
    /// — `NOT_BOOTED` outside a boot session — while every other code is
    /// silently ignored.  A target below the device count is handed to the
    /// host shell if that device supplies an `interrupt` callback, and
    /// silently ignored otherwise, as is a target beyond the device list.
    pub fn send_interrupt(&self, target: u32, code: u32) -> (outcome: InterruptOutcome)
        ensures
            target == INFO_REGION_TAG && code > 1 ==> outcome == InterruptOutcome::Done(0),
            target == INFO_REGION_TAG && code <= 1 && !self@.booted ==> outcome
                == InterruptOutcome::Done(NOT_BOOTED),
            target == INFO_REGION_TAG && code == 0 && self@.booted ==> outcome
                == InterruptOutcome::SignalHalt,
            target == INFO_REGION_TAG && code == 1 && self@.booted ==> outcome
                == InterruptOutcome::SignalReboot,
            target != INFO_REGION_TAG && target < self@.devices.len() ==> {
                let device = self@.devices[target as int];
                &&& device.has_interrupt ==> outcome == (InterruptOutcome::DeviceInterrupt {
                    slot: target as usize,
                })
                &&& !device.has_interrupt ==> outcome == InterruptOutcome::Done(0)
            },
            target != INFO_REGION_TAG && target >= self@.devices.len() ==> outcome
                == InterruptOutcome::Done(0),
    {
        if target == INFO_REGION_TAG {
            if code > 1 {
                return InterruptOutcome::Done(0);
            }
            if !self.booted {
                return InterruptOutcome::Done(NOT_BOOTED);
            }
            if code == 0 {
                InterruptOutcome::SignalHalt
            } else {
                InterruptOutcome::SignalReboot
            }
        } else if (target as usize) < self.devices.len() {
            let device = self.devices[target as usize];
            if device.has_interrupt {
                InterruptOutcome::DeviceInterrupt { slot: target as usize }
            } else {
                InterruptOutcome::Done(0)
            }
        } else {
            InterruptOutcome::Done(0)
        }
    }

    /// The number of entries in the RAM mapping table.
    pub fn ram_mapping_count(&self) -> (count: usize)
        ensures
            count == self@.mappings.len(),
    {
        self.ram_mappings.len()
    }

    /// The device index held by entry `index` of the RAM mapping table.
    pub fn ram_mapping_at(&self, index: usize) -> (slot: usize)
        requires
            index < self@.mappings.len(),
        ensures
            slot == self@.mappings[index as int],
            slot < self@.devices.len(),
    {
        proof {
            use_type_invariant(&*self);
        }
        self.ram_mappings[index]
    }

    /// The length of the info block in bytes.
    pub fn info_len(&self) -> (len: usize)
        ensures
            len == self@.info.len(),
    {
        self.info_block.len()
    }

    /// Decides a halt request: the status is 0 while a boot session is
    /// active (the host shell then posts `Halt` on the control channel) and
    /// -1 (`NotBooted`) once no session is active.  The motherboard state
    /// is untouched either way, so repeated calls decide alike.
    pub fn halt(&self) -> (status: i32)
        ensures
            status == (if self@.booted { 0i32 } else { NOT_BOOTED }),
    {
        if self.booted {
            0
        } else {
            NOT_BOOTED
        }
    }

    /// Decides a reboot request, exactly as `halt` does: 0 while booted
    /// (the host shell then posts `Reboot`), -1 (`NotBooted`) otherwise.
    pub fn reboot(&self) -> (status: i32)
        ensures
            status == (if self@.booted { 0i32 } else { NOT_BOOTED }),
    {
        if self.booted {
            0
        } else {
            NOT_BOOTED
        }
    }
}

} // verus!
