use retrosys::device::DeviceId;
use retrosys::iface::{Feature, Notice};
use retrosys::system::System;

const CARRY: u8 = 0x01;
const ZERO: u8 = 0x02;
const NEGATIVE: u8 = 0x80;

#[test]
fn load_then_store_through_ram_and_rom() {
    let mut sys = System::new();
    assert!(sys.add_device_with_uid(DeviceId::Ram, 0x0000, 0x0100, 1));
    assert!(sys.add_device_with_uid(DeviceId::Rom, 0x8000, 0x0100, 2));

    // LDA #$05 then STA $0010.
    assert!(sys.load_rom(1, &vec![0xA9, 0x05, 0x85, 0x10]));
    sys.set_pc(0x8000);

    // Two ticks for the immediate load, three for the zero-page store.
    sys.tick_x(5);

    let reg = sys.registers();
    assert_eq!(reg.a, 0x05);
    assert_eq!(reg.p & ZERO, 0);
    assert_eq!(reg.p & NEGATIVE, 0);

    let ram = sys.device_data_ptr_by_index(0).unwrap();
    assert_eq!(ram[0x10], 0x05);
}

#[test]
fn load_zero_sets_zero_flag() {
    let mut sys = System::new();
    assert!(sys.add_device_with_uid(DeviceId::Rom, 0x0000, 0x0100, 1));
    assert!(sys.load_rom(0, &vec![0xA9, 0x00]));

    sys.tick_x(2);

    let reg = sys.registers();
    assert_eq!(reg.a, 0x00);
    assert_eq!(reg.p & ZERO, ZERO);
    assert_eq!(reg.p & NEGATIVE, 0);
}

#[test]
fn system_reset_clears_ram_and_registers_but_keeps_rom() {
    let mut sys = System::new();
    assert!(sys.add_device_with_uid(DeviceId::Ram, 0x0000, 0x0100, 1));
    assert!(sys.add_device_with_uid(DeviceId::Rom, 0x8000, 0x0100, 2));
    let image = vec![0xA9, 0x05, 0x85, 0x10];
    assert!(sys.load_rom(1, &image));
    sys.set_pc(0x8000);
    sys.tick_x(5);
    assert_eq!(sys.device_data_ptr_by_index(0).unwrap()[0x10], 0x05);

    sys.reset_system();

    let reg = sys.registers();
    assert_eq!(
        (reg.a, reg.x, reg.y, reg.s, reg.p, reg.pc),
        (0, 0, 0, 0, 0, 0)
    );
    let ram = sys.device_data_ptr_by_index(0).unwrap();
    assert!(ram.iter().all(|&b| b == 0), "RAM contents are zero");
    let rom = sys.device_data_ptr_by_index(1).unwrap();
    assert_eq!(&rom[..4], &image[..], "ROM contents are unchanged");
}

#[test]
fn hard_reset_clears_rom_as_well() {
    let mut sys = System::new();
    assert!(sys.add_device_with_uid(DeviceId::Rom, 0x8000, 0x0100, 2));
    assert!(sys.load_rom(0, &vec![0xA9, 0x05]));

    sys.reset_hard();

    let rom = sys.device_data_ptr_by_index(0).unwrap();
    assert!(rom.iter().all(|&b| b == 0), "ROM contents are erased");
}

#[test]
fn overlapping_registration_fails_without_corrupting_dispatch() {
    let mut sys = System::new();
    assert!(sys.add_device_with_uid(DeviceId::Ram, 0x0000, 0x0100, 1));
    assert!(!sys.add_device_with_uid(DeviceId::Ram, 0x0080, 0x0100, 2));

    assert!(sys.device_representation_by_index(0).is_some());
    assert!(sys.device_representation_by_index(1).is_none());

    // The surviving registration still dispatches: store a byte through it.
    assert!(sys.add_device_with_uid(DeviceId::Rom, 0x8000, 0x0100, 3));
    assert!(sys.load_rom(1, &vec![0xA9, 0x07, 0x85, 0x20]));
    sys.set_pc(0x8000);
    sys.tick_x(5);
    assert_eq!(sys.device_data_ptr_by_index(0).unwrap()[0x20], 0x07);
}

#[test]
fn add_device_rejects_address_overflow() {
    let mut sys = System::new();
    assert!(!sys.add_device_with_uid(DeviceId::Ram, 0xFF00, 0x0200, 1));
    // The requested size of a fixed-size kind is zero: the intrinsic size
    // must still fit at the start address.
    assert!(!sys.add_device_with_uid(DeviceId::AsciiIOBuffer, 0xFF00, 0, 2));
    assert!(sys.add_device_with_uid(DeviceId::AsciiIOBuffer, 0xFE00, 0, 3));
    assert!(!sys.add_device_with_uid(DeviceId::CPU, 0x0000, 0x0100, 4));
}

#[test]
fn device_representation_reports_the_registration() {
    let mut sys = System::new();
    assert!(sys.add_device_with_uid(DeviceId::PixelScreen, 0x2000, 0, 9));
    let rep = sys.device_representation_by_index(0).unwrap();
    assert_eq!(rep.kind, DeviceId::PixelScreen);
    assert_eq!(rep.start, 0x2000);
    assert_eq!(rep.end, 0x3000);
    assert_eq!(rep.uid, 9);
    assert_eq!(rep.size, 0x1000);
}

#[test]
fn interrupt_instruction_raises_notice_and_continues() {
    let mut sys = System::new();
    assert!(sys.add_device_with_uid(DeviceId::Rom, 0x0000, 0x0100, 1));
    // CLI, then LDA #$01 to show execution continues.
    assert!(sys.load_rom(0, &vec![0x58, 0xA9, 0x01]));

    sys.tick_x(2);
    assert_eq!(
        sys.take_notice(),
        Some(Notice::UnsupportedFeature(Feature::Interrupts))
    );
    assert_eq!(sys.take_notice(), None, "the notice is handed over once");

    sys.tick_x(2);
    assert_eq!(sys.registers().a, 0x01);
}

#[test]
fn decimal_mode_instruction_raises_unimplemented_notice() {
    let mut sys = System::new();
    assert!(sys.add_device_with_uid(DeviceId::Rom, 0x0000, 0x0100, 1));
    assert!(sys.load_rom(0, &vec![0xD8]));
    sys.tick_x(2);
    assert_eq!(
        sys.take_notice(),
        Some(Notice::UnimplementedFeature(Feature::DecimalMode))
    );
}

#[test]
fn store_into_rom_raises_unsupported_write_notice() {
    let mut sys = System::new();
    assert!(sys.add_device_with_uid(DeviceId::Rom, 0x0000, 0x0100, 1));
    // LDA #$07 then STA $0040: the store lands on the ROM itself.
    assert!(sys.load_rom(0, &vec![0xA9, 0x07, 0x8D, 0x40, 0x00]));
    sys.tick_x(6);
    assert_eq!(sys.take_notice(), Some(Notice::UnsupportedWrite));
    assert_eq!(sys.device_data_ptr_by_index(0).unwrap()[0x40], 0x00);
}

#[test]
fn undecodable_byte_skips_one_instruction() {
    let mut sys = System::new();
    assert!(sys.add_device_with_uid(DeviceId::Rom, 0x0000, 0x0100, 1));
    // 0x02 is absent from the opcode table; the following LDA still runs.
    assert!(sys.load_rom(0, &vec![0x02, 0xA9, 0x09]));
    sys.tick();
    assert_eq!(sys.registers().pc, 1);
    sys.tick_x(2);
    assert_eq!(sys.registers().a, 0x09);
}

#[test]
fn stub_instructions_have_no_effect() {
    let mut sys = System::new();
    assert!(sys.add_device_with_uid(DeviceId::Rom, 0x0000, 0x0100, 1));
    // PHA, JMP $1234, BNE +2: all deliberate stubs; only the program counter
    // moves past them.
    assert!(sys.load_rom(0, &vec![0x48, 0x4C, 0x34, 0x12, 0xD0, 0x02]));
    sys.tick_x(2); // PHA
    sys.tick_x(4); // JMP (fetch + three absolute steps)
    assert_eq!(
        sys.registers().pc,
        4,
        "the jump stub does not redirect the program counter"
    );
    sys.tick_x(2); // BNE (fetch + displacement fetch)
    assert_eq!(sys.registers().pc, 6);
    assert_eq!(sys.registers().s, 0, "the push stub does not touch the stack pointer");
    assert_eq!(sys.take_notice(), None);
}

#[test]
fn negative_tick_count_is_a_no_op() {
    let mut sys = System::new();
    assert!(sys.add_device_with_uid(DeviceId::Rom, 0x0000, 0x0100, 1));
    sys.tick_x(-3);
    assert_eq!(sys.registers().pc, 0);
}

#[test]
fn carry_feeds_back_into_adc() {
    let mut sys = System::new();
    assert!(sys.add_device_with_uid(DeviceId::Rom, 0x0000, 0x0100, 1));
    // SEC, LDA #$10, ADC #$05: with carry set the sum is 0x16.
    assert!(sys.load_rom(0, &vec![0x38, 0xA9, 0x10, 0x69, 0x05]));
    sys.tick_x(6);
    assert_eq!(sys.registers().a, 0x16);
    assert_eq!(sys.registers().p & CARRY, 0, "the small sum clears the carry");
}
