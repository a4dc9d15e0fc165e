//! The RAM mapping table and the self-describing info block.
//!
//! Both are rebuilt from scratch at the start of every boot and are pure
//! functions of the device list: the mapping table lists the index of every
//! memory-mapping device, in device order, and the info block renders the
//! mapping table and the device records as a little-endian byte region that
//! the simulated machine can read at the reserved info-region tag.

use vstd::prelude::*;

use crate::device::Device;

verus! {

/// The info region occupies the global addresses whose upper 32 bits are
/// all ones; the tables start 16 bytes in, after the two table addresses.
pub const RAM_TABLE_ADDR: u64 = 0xFFFF_FFFF_0000_0010;

/// The indices of the memory-mapping devices of `devices`, in order.
pub open spec fn mapping_table(devices: Seq<Device>) -> Seq<usize>
    decreases devices.len(),
{
    if devices.len() == 0 {
        Seq::empty()
    } else if devices.last().spec_maps_memory() {
        mapping_table(devices.drop_last()).push((devices.len() - 1) as usize)
    } else {
        mapping_table(devices.drop_last())
    }
}

/// How many of the first `i` devices are memory-mapping.
pub open spec fn mapped_before(devices: Seq<Device>, i: int) -> int {
    mapping_table(devices.take(i)).len() as int
}

/// The position of device `i` within the RAM mapping table, or 0 for a
/// device that is not memory-mapped.  (The encoding reuses 0; readers must
/// consult the device-type flag to tell "first mapping slot" from "not
/// mapped".)
pub open spec fn ram_index_of(devices: Seq<Device>, i: int) -> int {
    if devices[i].spec_maps_memory() {
        mapped_before(devices, i)
    } else {
        0
    }
}

/// The mapping table grows by at most one entry per device.
pub proof fn lemma_mapping_table_len(devices: Seq<Device>)
    ensures
        mapping_table(devices).len() <= devices.len(),
    decreases devices.len(),
{
    if devices.len() > 0 {
        lemma_mapping_table_len(devices.drop_last());
    }
}

/// What the mapping table holds: every entry names a memory-mapping device,
/// entries are strictly increasing (device order is preserved), and every
/// memory-mapping device appears.
pub proof fn lemma_mapping_table_characterization(devices: Seq<Device>)
    requires
        devices.len() <= usize::MAX,
    ensures
        forall|k: int|
            0 <= k < mapping_table(devices).len() ==> (#[trigger] mapping_table(devices)[k])
                < devices.len() && devices[mapping_table(devices)[k] as int].spec_maps_memory(),
        forall|k1: int, k2: int|
            0 <= k1 < k2 < mapping_table(devices).len() ==> mapping_table(devices)[k1]
                < mapping_table(devices)[k2],
        forall|i: int|
            0 <= i < devices.len() && devices[i].spec_maps_memory() ==> mapping_table(
                devices,
            ).contains(i as usize),
    decreases devices.len(),
{
    if devices.len() > 0 {
        lemma_mapping_table_characterization(devices.drop_last());
        let table = mapping_table(devices);
        let prev = mapping_table(devices.drop_last());
        assert forall|i: int|
            0 <= i < devices.len() && devices[i].spec_maps_memory() implies table.contains(
            i as usize,
        ) by {
            if i < devices.len() - 1 {
                assert(devices.drop_last()[i] == devices[i]);
                assert(prev.contains(i as usize));
                let k = choose|k: int| 0 <= k < prev.len() && prev[k] == i as usize;
                assert(table[k] == i as usize);
            } else {
                assert(table.last() == i as usize);
            }
        }
    }
}

/// A memory-mapping device's `ram_index` is its 0-based position in the
/// RAM mapping table: the table entry at that position names the device
/// itself.
pub proof fn lemma_ram_index_points_back(devices: Seq<Device>, i: int)
    requires
        devices.len() <= usize::MAX,
        0 <= i < devices.len(),
        devices[i].spec_maps_memory(),
    ensures
        0 <= ram_index_of(devices, i) < mapping_table(devices).len(),
        mapping_table(devices)[ram_index_of(devices, i)] == i as usize,
    decreases devices.len(),
{
    if i == devices.len() - 1 {
        assert(devices.take(i) =~= devices.drop_last());
        lemma_mapping_table_len(devices.drop_last());
    } else {
        lemma_ram_index_points_back(devices.drop_last(), i);
        assert(devices.drop_last()[i] == devices[i]);
        assert(devices.drop_last().take(i) =~= devices.take(i));
    }
}

/// Builds the RAM mapping table: one entry per memory-mapping device,
/// holding that device's index, in device order.
pub fn build_mapping_table(devices: &Vec<Device>) -> (table: Vec<usize>)
    ensures
        table@ == mapping_table(devices@),
        forall|k: int| 0 <= k < table@.len() ==> (#[trigger] table@[k]) < devices@.len(),
{
    let mut table: Vec<usize> = Vec::new();
    let mut i: usize = 0;
    while i < devices.len()
        invariant
            i <= devices@.len(),
            table@ == mapping_table(devices@.take(i as int)),
            forall|k: int| 0 <= k < table@.len() ==> (#[trigger] table@[k]) < i,
        decreases devices@.len() - i,
    {
        proof {
            assert(devices@.take(i + 1).drop_last() =~= devices@.take(i as int));
            assert(devices@.take(i + 1).last() == devices@[i as int]);
        }
        if devices[i].maps_memory() {
            table.push(i);
        }
        i = i + 1;
    }
    proof {
        assert(devices@.take(devices@.len() as int) =~= devices@);
    }
    table
}

/// The bytes of the RAM size table: the exported memory size of each mapped
/// device, as little-endian 32-bit words, in table order.
pub open spec fn spec_ram_sizes(devices: Seq<Device>, table: Seq<usize>) -> Seq<u8>
    decreases table.len(),
{
    if table.len() == 0 {
        Seq::empty()
    } else {
        spec_ram_sizes(devices, table.drop_last()) + vstd::bytes::spec_u32_to_le_bytes(
            devices[table.last() as int].export_memory_size,
        )
    }
}

/// The bytes of one device record: type, id, and RAM table position.
pub open spec fn spec_device_record(devices: Seq<Device>, i: int) -> Seq<u8> {
    vstd::bytes::spec_u64_to_le_bytes(devices[i].device_type) + vstd::bytes::spec_u32_to_le_bytes(
        devices[i].device_id,
    ) + vstd::bytes::spec_u32_to_le_bytes(ram_index_of(devices, i) as u32)
}

/// The bytes of the first `upto` device records, concatenated.
pub open spec fn spec_device_records(devices: Seq<Device>, upto: int) -> Seq<u8>
    decreases upto,
{
    if upto <= 0 {
        Seq::empty()
    } else {
        spec_device_records(devices, upto - 1) + spec_device_record(devices, upto - 1)
    }
}

/// The global address of the device table: it follows the two table
/// addresses, the RAM count, and the `n` RAM size words.  Truncated to 64
/// bits, as every address on the bus is.
pub open spec fn spec_dev_table_addr(n: int) -> u64 {
    (RAM_TABLE_ADDR + 4 * (n + 1)) as u64
}

/// The full info block: the two table addresses, the RAM size table with
/// its count, and the device records with their count.
pub open spec fn spec_info_block(devices: Seq<Device>) -> Seq<u8> {
    let table = mapping_table(devices);
    vstd::bytes::spec_u64_to_le_bytes(RAM_TABLE_ADDR) + vstd::bytes::spec_u64_to_le_bytes(
        spec_dev_table_addr(table.len() as int),
    ) + vstd::bytes::spec_u32_to_le_bytes(table.len() as u32) + spec_ram_sizes(devices, table)
        + vstd::bytes::spec_u32_to_le_bytes(devices.len() as u32) + spec_device_records(
        devices,
        devices.len() as int,
    )
}

/// Builds the info block from the device list and its freshly built RAM
/// mapping table.
pub fn build_info_block(devices: &Vec<Device>, table: &Vec<usize>) -> (info: Vec<u8>)
    requires
        table@ == mapping_table(devices@),
    ensures
        info@ == spec_info_block(devices@),
{
    let m = devices.len();
    proof {
        lemma_mapping_table_characterization(devices@);
    }
    let n = table.len();
    let mut info: Vec<u8> = Vec::new();

    let mut ram_addr_bytes = vstd::bytes::u64_to_le_bytes(RAM_TABLE_ADDR);
    info.append(&mut ram_addr_bytes);

    let dev_addr_wide: u128 = (RAM_TABLE_ADDR as u128) + 4 * ((n as u128) + 1);
    let mut dev_addr_bytes = vstd::bytes::u64_to_le_bytes(#[verifier::truncate] (dev_addr_wide as u64));
    info.append(&mut dev_addr_bytes);

    let mut ram_count_bytes = vstd::bytes::u32_to_le_bytes(#[verifier::truncate] (n as u32));
    info.append(&mut ram_count_bytes);

    let ghost header = info@;
    let mut k: usize = 0;
    while k < n
        invariant
            n == table@.len(),
            table@ == mapping_table(devices@),
            forall|j: int|
                0 <= j < table@.len() ==> (#[trigger] table@[j]) < devices@.len(),
            info@ == header + spec_ram_sizes(devices@, table@.take(k as int)),
            k <= n,
        decreases n - k,
    {
        proof {
            assert(table@.take(k + 1).drop_last() =~= table@.take(k as int));
            assert(table@.take(k + 1).last() == table@[k as int]);
        }
        let mut size_bytes = vstd::bytes::u32_to_le_bytes(devices[table[k]].export_memory_size);
        info.append(&mut size_bytes);
        proof {
            assert(info@ =~= header + spec_ram_sizes(devices@, table@.take(k + 1)));
        }
        k = k + 1;
    }
    proof {
        assert(table@.take(n as int) =~= table@);
    }

    let mut dev_count_bytes = vstd::bytes::u32_to_le_bytes(#[verifier::truncate] (m as u32));
    info.append(&mut dev_count_bytes);

    let ghost mid = info@;
    let mut i: usize = 0;
    let mut mapped_so_far: usize = 0;
    while i < devices.len()
        invariant
            table@ == mapping_table(devices@),
            info@ == mid + spec_device_records(devices@, i as int),
            i <= devices@.len(),
            mapped_so_far == mapped_before(devices@, i as int),
            mapped_so_far <= i,
        decreases devices@.len() - i,
    {
        proof {
            assert(devices@.take(i + 1).drop_last() =~= devices@.take(i as int));
            assert(devices@.take(i + 1).last() == devices@[i as int]);
            lemma_mapping_table_len(devices@.take(i as int));
            assert(devices@.take(i as int).len() == i as int);
        }
        let device = devices[i];
        let mut type_bytes = vstd::bytes::u64_to_le_bytes(device.device_type);
        info.append(&mut type_bytes);
        let mut id_bytes = vstd::bytes::u32_to_le_bytes(device.device_id);
        info.append(&mut id_bytes);
        let ram_index: u32 = if device.maps_memory() {
            #[verifier::truncate] (mapped_so_far as u32)
        } else {
            0
        };
        let mut index_bytes = vstd::bytes::u32_to_le_bytes(ram_index);
        info.append(&mut index_bytes);
        proof {
            assert(info@ =~= mid + spec_device_records(devices@, i + 1));
        }
        if device.maps_memory() {
            mapped_so_far = mapped_so_far + 1;
        }
        i = i + 1;
    }
    proof {
        assert(info@ =~= spec_info_block(devices@));
    }
    info
}

} // verus!
