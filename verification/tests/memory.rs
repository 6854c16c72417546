use retrosys::device::{Device, Ram, Rom};
use retrosys::mem::{MemManager, WriteOutcome};

fn manager_with_two_rams() -> MemManager {
    let mut m = MemManager::new();
    assert!(m.add_device(Device::Ram(Ram::with_size(0x100)), 0x0000, 0x0100, 1));
    assert!(m.add_device(Device::Ram(Ram::with_size(0x100)), 0x0100, 0x0200, 2));
    m
}

#[test]
fn write_mutates_only_the_covering_device() {
    let mut m = manager_with_two_rams();
    m.set_addr(0x0150);
    m.set_data(0xAB);
    assert_eq!(m.dispatch_write(), WriteOutcome::Written);

    let first = m.device_data(0).unwrap();
    let second = m.device_data(1).unwrap();
    assert!(first.iter().all(|&b| b == 0), "the other device is untouched");
    assert_eq!(second[0x50], 0xAB);
    assert!(second.iter().enumerate().all(|(i, &b)| i == 0x50 || b == 0));
}

#[test]
fn read_of_unmapped_address_yields_sentinel_zero() {
    let mut m = manager_with_two_rams();
    m.set_addr(0x0050);
    m.set_data(0x33);
    assert_eq!(m.dispatch_write(), WriteOutcome::Written);

    m.set_addr(0x5000);
    m.set_data(0x77);
    m.dispatch_read();
    assert_eq!(m.data(), 0x00);

    m.set_addr(0x0050);
    m.dispatch_read();
    assert_eq!(m.data(), 0x33);
}

#[test]
fn write_to_unmapped_address_is_silently_dropped() {
    let mut m = manager_with_two_rams();
    m.set_addr(0x5000);
    m.set_data(0x77);
    assert_eq!(m.dispatch_write(), WriteOutcome::Unmapped);
    assert!(m.device_data(0).unwrap().iter().all(|&b| b == 0));
    assert!(m.device_data(1).unwrap().iter().all(|&b| b == 0));
}

#[test]
fn write_to_rom_is_rejected() {
    let mut m = MemManager::new();
    assert!(m.add_device(Device::Rom(Rom::with_size(0x10)), 0x8000, 0x8010, 7));
    m.set_addr(0x8005);
    m.set_data(0x99);
    assert_eq!(m.dispatch_write(), WriteOutcome::Rejected);
    assert!(m.device_data(0).unwrap().iter().all(|&b| b == 0));
}

#[test]
fn overlapping_registration_is_rejected_without_corruption() {
    let mut m = manager_with_two_rams();
    assert!(!m.add_device(Device::Ram(Ram::with_size(0x100)), 0x0080, 0x0180, 3));
    assert_eq!(m.devices().len(), 2);

    m.set_addr(0x0050);
    m.set_data(0x44);
    assert_eq!(m.dispatch_write(), WriteOutcome::Written);
    assert_eq!(m.device_data(0).unwrap()[0x50], 0x44);
}

#[test]
fn remove_device_by_index_bounds() {
    let mut m = manager_with_two_rams();
    assert!(!m.remove_device_by(2));
    assert!(m.remove_device_by(0));
    assert_eq!(m.devices().len(), 1);
    assert_eq!(m.devices()[0].uid, 2);
}

#[test]
fn address_halves_can_be_set_independently() {
    let mut m = MemManager::new();
    m.set_addr(0x1234);
    m.set_addr_hi(0xAB);
    assert_eq!(m.addr(), 0xAB34);
    m.set_addr_lo(0xCD);
    assert_eq!(m.addr(), 0xABCD);
}

#[test]
fn read_transaction_marks_the_bus_as_reading() {
    let mut m = manager_with_two_rams();
    m.set_addr(0x0000);
    assert_eq!(m.write_at_addr(), WriteOutcome::Written);
    assert!(!m.bus.rw);
    m.read_at_addr();
    assert!(m.bus.rw);
}
