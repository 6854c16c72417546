use retrosys::device::{
    AsciiIOBuffer, Device, DeviceId, DeviceTrait, PixelScreen, Ram, Rom, ASCII_IO_BUFFER_SIZE,
    PIXEL_SCREEN_SIZE,
};
use retrosys::factory::{ConfigurationError, DeviceFactory};

#[test]
fn factory_rejects_fixed_size_kind_with_nonzero_size() {
    assert_eq!(
        DeviceFactory::with_size(DeviceId::PixelScreen, 1).err(),
        Some(ConfigurationError::InvalidSize)
    );
    assert_eq!(
        DeviceFactory::with_size(DeviceId::AsciiIOBuffer, 0x100).err(),
        Some(ConfigurationError::InvalidSize)
    );
}

#[test]
fn factory_rejects_variable_size_kind_with_zero_size() {
    assert_eq!(
        DeviceFactory::with_size(DeviceId::Ram, 0).err(),
        Some(ConfigurationError::InvalidSize)
    );
    assert_eq!(
        DeviceFactory::with_size(DeviceId::Rom, 0).err(),
        Some(ConfigurationError::InvalidSize)
    );
}

#[test]
fn factory_rejects_cpu_kind_for_every_size() {
    assert_eq!(
        DeviceFactory::with_size(DeviceId::CPU, 0).err(),
        Some(ConfigurationError::InvalidSize)
    );
    assert_eq!(
        DeviceFactory::with_size(DeviceId::CPU, 0x40).err(),
        Some(ConfigurationError::NonMappableDevice)
    );
}

#[test]
fn factory_builds_caller_sized_kinds() {
    let ram = DeviceFactory::with_size(DeviceId::Ram, 0x40).unwrap();
    assert_eq!(ram.size(), 0x40);
    assert_eq!(ram.kind_id(), DeviceId::Ram);

    let rom = DeviceFactory::with_size(DeviceId::Rom, 0x200).unwrap();
    assert_eq!(rom.size(), 0x200);
    assert_eq!(rom.kind_id(), DeviceId::Rom);
}

#[test]
fn factory_builds_fixed_size_kinds_with_intrinsic_sizes() {
    let screen = DeviceFactory::with_size(DeviceId::PixelScreen, 0).unwrap();
    assert_eq!(screen.size(), PIXEL_SCREEN_SIZE);

    let buffer = DeviceFactory::with_size(DeviceId::AsciiIOBuffer, 0).unwrap();
    assert_eq!(buffer.size(), ASCII_IO_BUFFER_SIZE);
}

#[test]
fn new_devices_are_zeroed() {
    let ram = Ram::with_size(8);
    assert!(ram.contents.iter().all(|&b| b == 0));
    let rom = Rom::with_size(8);
    assert!(rom.contents.iter().all(|&b| b == 0));
    let screen = PixelScreen::new();
    assert_eq!(screen.contents.len(), PIXEL_SCREEN_SIZE as usize);
    let buffer = AsciiIOBuffer::new();
    assert_eq!(buffer.contents.len(), ASCII_IO_BUFFER_SIZE as usize);
}

#[test]
fn ram_reads_back_written_bytes() {
    let mut dev = Device::Ram(Ram::with_size(16));
    assert!(dev.write(3, 0xAB));
    assert_eq!(dev.read(3), 0xAB);
    assert_eq!(dev.read(4), 0x00);
}

#[test]
fn rom_rejects_bus_writes() {
    let mut dev = Device::Rom(Rom::with_size(16));
    assert!(!dev.write(3, 0xAB));
    assert_eq!(dev.read(3), 0x00);
}

#[test]
fn rom_contents_survive_system_reset_but_not_hard_reset() {
    let mut rom = Rom::with_size(4);
    rom.contents_mut()[0] = 0x55;
    rom.reset_system();
    assert_eq!(rom.contents[0], 0x55);
    rom.reset_hard();
    assert_eq!(rom.contents[0], 0x00);
}

#[test]
fn ram_contents_are_cleared_by_both_reset_levels() {
    let mut ram = Ram::with_size(4);
    ram.contents[1] = 0x77;
    ram.reset_system();
    assert_eq!(ram.contents[1], 0x00);

    let mut ram = Ram::with_size(4);
    ram.contents[1] = 0x77;
    ram.reset_hard();
    assert_eq!(ram.contents[1], 0x00);
}

#[test]
fn device_snapshot_copies_contents() {
    let mut dev = Device::Ram(Ram::with_size(4));
    assert!(dev.write(2, 9));
    let snap = dev.contents_snapshot();
    assert_eq!(snap, vec![0, 0, 9, 0]);
}

#[test]
fn rom_load_contents_fills_prefix() {
    let mut dev = Device::Rom(Rom::with_size(4));
    assert!(dev.load_contents(&vec![1, 2]));
    assert_eq!(dev.contents_snapshot(), vec![1, 2, 0, 0]);
    assert!(!dev.load_contents(&vec![1, 2, 3, 4, 5]), "image too large");
    let mut ram = Device::Ram(Ram::with_size(4));
    assert!(!ram.load_contents(&vec![1]), "only ROM takes a program image");
}
