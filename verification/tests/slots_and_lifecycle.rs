use motherboard::board::{Motherboard, MotherboardConfig};
use motherboard::device::Device;
use motherboard::errors::Error;
use motherboard::lifecycle::{run_decision, MotherboardInterrupt, RunDecision};

fn base_device(device_type: u64, device_id: u32, size: u32) -> Device {
    Device {
        device_type,
        device_id,
        export_memory_size: size,
        has_load_bytes: false,
        has_write_bytes: false,
        has_init: false,
        has_reset: false,
        has_cleanup: false,
        has_boot: false,
        has_halt: false,
        has_interrupt: false,
        has_register_motherboard: false,
    }
}

fn ram_device(device_id: u32, size: u32) -> Device {
    Device { has_load_bytes: true, has_write_bytes: true, ..base_device(1, device_id, size) }
}

#[test]
fn new_board_is_empty_and_idle() {
    let board = Motherboard::new(4);
    assert_eq!(board.num_slots(), 4);
    assert_eq!(board.slots_filled(), 0);
    assert!(!board.is_full());
    assert!(!board.is_booted());
    assert_eq!(board.ram_mapping_count(), 0);
    assert_eq!(board.info_len(), 0);
}

#[test]
fn with_config_sets_capacity() {
    let board = Motherboard::with_config(MotherboardConfig { max_devices: 7 });
    assert_eq!(board.num_slots(), 7);
    assert_eq!(board.slots_filled(), 0);
}

#[test]
fn slots_fill_one_by_one() {
    let mut board = Motherboard::new(3);
    for id in 0..3u32 {
        assert!(!board.is_full());
        assert_eq!(board.add_device(base_device(0, id, 0)), Ok(()));
        assert_eq!(board.slots_filled(), id as usize + 1);
        assert_eq!(board.is_full(), board.slots_filled() == 3);
    }
    assert!(board.is_full());
    assert_eq!(board.add_device(base_device(0, 9, 0)), Err(Error::Full));
    assert_eq!(board.slots_filled(), 3);
}

#[test]
fn zero_capacity_board_is_always_full() {
    let mut board = Motherboard::new(0);
    assert!(board.is_full());
    assert_eq!(board.add_device(base_device(0, 0, 0)), Err(Error::Full));
}

#[test]
fn add_device_fails_while_booted() {
    let mut board = Motherboard::new(2);
    assert_eq!(board.add_device(ram_device(1, 8)), Ok(()));
    assert_eq!(board.begin_boot(), Ok(()));
    assert_eq!(board.add_device(base_device(0, 2, 0)), Err(Error::AlreadyBooted));
    board.end_boot();
    assert_eq!(board.add_device(base_device(0, 2, 0)), Ok(()));
}

#[test]
fn begin_boot_twice_fails() {
    let mut board = Motherboard::new(1);
    assert_eq!(board.begin_boot(), Ok(()));
    assert_eq!(board.begin_boot(), Err(Error::AlreadyBooted));
}

#[test]
fn boot_builds_mapping_table_in_device_order() {
    let mut board = Motherboard::new(3);
    board.add_device(ram_device(1, 8)).unwrap();
    board.add_device(base_device(2 << 32, 2, 0)).unwrap();
    board.add_device(ram_device(3, 32)).unwrap();
    assert_eq!(board.begin_boot(), Ok(()));
    assert_eq!(board.ram_mapping_count(), 2);
    assert_eq!(board.ram_mapping_at(0), 0);
    assert_eq!(board.ram_mapping_at(1), 2);
}

#[test]
fn validation_rejects_incomplete_memory_mapping() {
    let mut board = Motherboard::new(1);
    let mut device = ram_device(1, 16);
    device.has_write_bytes = false;
    board.add_device(device).unwrap();
    assert_eq!(board.begin_boot(), Err(Error::MemoryMappingIncomplete));
    assert!(!board.is_booted());
    assert_eq!(board.halt(), -1);
    assert_eq!(board.ram_mapping_count(), 0);
}

#[test]
fn validation_rejects_boot_without_halt() {
    let mut board = Motherboard::new(1);
    let mut device = base_device(0, 1, 0);
    device.has_boot = true;
    board.add_device(device).unwrap();
    assert_eq!(board.begin_boot(), Err(Error::MissingHalt));
    assert!(!board.is_booted());
}

#[test]
fn validation_reports_first_failure() {
    let mut board = Motherboard::new(2);
    let mut missing_halt = base_device(0, 1, 0);
    missing_halt.has_boot = true;
    let mut incomplete = ram_device(2, 8);
    incomplete.has_load_bytes = false;
    board.add_device(missing_halt).unwrap();
    board.add_device(incomplete).unwrap();
    assert_eq!(board.begin_boot(), Err(Error::MissingHalt));
}

#[test]
fn halt_is_idempotent_while_booted() {
    let mut board = Motherboard::new(1);
    board.add_device(ram_device(1, 16)).unwrap();
    assert_eq!(board.halt(), -1);
    assert_eq!(board.reboot(), -1);
    assert_eq!(board.begin_boot(), Ok(()));
    assert_eq!(board.halt(), 0);
    assert_eq!(board.halt(), 0);
    assert_eq!(board.reboot(), 0);
    assert_eq!(board.halt(), 0);
    board.end_boot();
    assert_eq!(board.halt(), -1);
    assert_eq!(board.reboot(), -1);
}

#[test]
fn run_decision_follows_control_messages() {
    assert_eq!(run_decision(Some(MotherboardInterrupt::Reboot)), RunDecision::Again);
    assert_eq!(run_decision(Some(MotherboardInterrupt::Halt)), RunDecision::Exit);
    assert_eq!(run_decision(None), RunDecision::Exit);
}

#[test]
fn reboot_loop_runs_until_halt() {
    let messages = vec![
        Some(MotherboardInterrupt::Reboot),
        Some(MotherboardInterrupt::Reboot),
        Some(MotherboardInterrupt::Reboot),
        Some(MotherboardInterrupt::Halt),
    ];
    let mut resets = 0;
    let mut cleanups = 0;
    for message in messages {
        resets += 1;
        match run_decision(message) {
            RunDecision::Again => {}
            RunDecision::Exit => {
                cleanups += 1;
                break;
            }
        }
    }
    assert_eq!(resets, 4);
    assert_eq!(cleanups, 1);
}

#[test]
fn board_is_reusable_after_a_session() {
    let mut board = Motherboard::new(2);
    board.add_device(ram_device(1, 8)).unwrap();
    assert_eq!(board.begin_boot(), Ok(()));
    board.end_boot();
    board.add_device(ram_device(2, 16)).unwrap();
    assert_eq!(board.begin_boot(), Ok(()));
    assert_eq!(board.ram_mapping_count(), 2);
    board.end_boot();
}
