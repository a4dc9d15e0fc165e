use motherboard::board::Motherboard;
use motherboard::bus::ReadOutcome;
use motherboard::device::Device;

const INFO_BASE: u64 = 0xFFFF_FFFF_0000_0000;

fn base_device(device_type: u64, device_id: u32, size: u32) -> Device {
    Device {
        device_type,
        device_id,
        export_memory_size: size,
        has_load_bytes: false,
        has_write_bytes: false,
        has_init: false,
        has_reset: false,
        has_cleanup: false,
        has_boot: false,
        has_halt: false,
        has_interrupt: false,
        has_register_motherboard: false,
    }
}

fn ram_device(device_id: u32, size: u32) -> Device {
    Device { has_load_bytes: true, has_write_bytes: true, ..base_device(1, device_id, size) }
}

fn booted_three_device_board() -> Motherboard {
    let mut board = Motherboard::new(3);
    board.add_device(ram_device(10, 8)).unwrap();
    board.add_device(base_device(2 << 32, 20, 0)).unwrap();
    board.add_device(ram_device(30, 32)).unwrap();
    assert_eq!(board.begin_boot(), Ok(()));
    board
}

fn read_info(board: &Motherboard, offset: u64, count: usize) -> Vec<u8> {
    let mut dest = vec![0xAAu8; count];
    let outcome = board.load_bytes(INFO_BASE + offset, &mut dest);
    assert_eq!(outcome, ReadOutcome::Done(0));
    dest
}

#[test]
fn info_block_reports_ram_count_and_sizes() {
    let board = booted_three_device_board();
    assert_eq!(read_info(&board, 0x10, 4), vec![2, 0, 0, 0]);
    assert_eq!(read_info(&board, 0x14, 8), vec![8, 0, 0, 0, 32, 0, 0, 0]);
}

#[test]
fn info_block_table_addresses_are_global() {
    let board = booted_three_device_board();
    let header = read_info(&board, 0, 16);
    let mut expected = Vec::new();
    expected.extend_from_slice(&0xFFFF_FFFF_0000_0010u64.to_le_bytes());
    expected.extend_from_slice(&0xFFFF_FFFF_0000_001Cu64.to_le_bytes());
    assert_eq!(header, expected);
}

#[test]
fn info_block_holds_every_device_record() {
    let board = booted_three_device_board();
    let mut expected = Vec::new();
    expected.extend_from_slice(&0xFFFF_FFFF_0000_0010u64.to_le_bytes());
    expected.extend_from_slice(&0xFFFF_FFFF_0000_001Cu64.to_le_bytes());
    expected.extend_from_slice(&2u32.to_le_bytes());
    expected.extend_from_slice(&8u32.to_le_bytes());
    expected.extend_from_slice(&32u32.to_le_bytes());
    expected.extend_from_slice(&3u32.to_le_bytes());
    expected.extend_from_slice(&1u64.to_le_bytes());
    expected.extend_from_slice(&10u32.to_le_bytes());
    expected.extend_from_slice(&0u32.to_le_bytes());
    expected.extend_from_slice(&(2u64 << 32).to_le_bytes());
    expected.extend_from_slice(&20u32.to_le_bytes());
    expected.extend_from_slice(&0u32.to_le_bytes());
    expected.extend_from_slice(&1u64.to_le_bytes());
    expected.extend_from_slice(&30u32.to_le_bytes());
    expected.extend_from_slice(&1u32.to_le_bytes());
    assert_eq!(board.info_len(), expected.len());
    assert_eq!(read_info(&board, 0, expected.len()), expected);
}

#[test]
fn info_block_is_rebuilt_each_boot() {
    let mut board = Motherboard::new(2);
    board.add_device(ram_device(1, 8)).unwrap();
    assert_eq!(board.begin_boot(), Ok(()));
    let first_len = board.info_len();
    board.end_boot();
    board.add_device(ram_device(2, 16)).unwrap();
    assert_eq!(board.begin_boot(), Ok(()));
    assert_eq!(board.info_len(), first_len + 4 + 16);
    assert_eq!(read_info(&board, 0x10, 4), vec![2, 0, 0, 0]);
    assert_eq!(read_info(&board, 0x14, 8), vec![8, 0, 0, 0, 16, 0, 0, 0]);
}

#[test]
fn info_read_past_the_end_leaves_destination_untouched() {
    let board = booted_three_device_board();
    let len = board.info_len() as u64;
    let tail = read_info(&board, len - 2, 8);
    assert_eq!(&tail[2..], &[0xAA; 6]);
    let beyond = read_info(&board, len + 5, 4);
    assert_eq!(beyond, vec![0xAA; 4]);
}

#[test]
fn info_read_of_whole_region_matches_piecewise_reads() {
    let board = booted_three_device_board();
    let len = board.info_len();
    let whole = read_info(&board, 0, len);
    for offset in 0..len {
        assert_eq!(read_info(&board, offset as u64, 1)[0], whole[offset]);
    }
}

#[test]
fn empty_board_info_block_has_empty_tables() {
    let mut board = Motherboard::new(0);
    assert_eq!(board.begin_boot(), Ok(()));
    let mut expected = Vec::new();
    expected.extend_from_slice(&0xFFFF_FFFF_0000_0010u64.to_le_bytes());
    expected.extend_from_slice(&0xFFFF_FFFF_0000_0014u64.to_le_bytes());
    expected.extend_from_slice(&0u32.to_le_bytes());
    expected.extend_from_slice(&0u32.to_le_bytes());
    assert_eq!(board.info_len(), expected.len());
    assert_eq!(read_info(&board, 0, expected.len()), expected);
}
