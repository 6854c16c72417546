use retrosys::bus::Bus;
use retrosys::registers::Registers;

#[test]
fn bus_starts_zeroed_and_reading() {
    let b = Bus::new();
    assert_eq!(b.data(), 0);
    assert_eq!(b.addr(), 0);
    assert!(b.rw());
}

#[test]
fn bus_lines_hold_what_was_set() {
    let mut b = Bus::new();
    b.set_data(0xAB);
    b.set_addr(0x1234);
    b.set_rw(false);
    assert_eq!(b.data(), 0xAB);
    assert_eq!(b.addr(), 0x1234);
    assert!(!b.rw());
}

#[test]
fn bus_reset_clears_everything() {
    let mut b = Bus::new();
    b.set_data(0xAB);
    b.set_addr(0x1234);
    b.set_rw(false);
    b.reset();
    assert_eq!(b.data(), 0);
    assert_eq!(b.addr(), 0);
    assert!(b.rw());
}

#[test]
fn bus_mutable_views_write_through() {
    let mut b = Bus::new();
    *b.data_mut_ref() = 0x42;
    *b.addr_mut_ref() = 0xBEEF;
    assert_eq!(b.data(), 0x42);
    assert_eq!(b.addr(), 0xBEEF);
}

#[test]
fn registers_reset_to_zero() {
    let mut r = Registers::new();
    r.a = 1;
    r.x = 2;
    r.y = 3;
    r.s = 4;
    r.p = 5;
    r.pc = 6;
    r.itr = 7;
    r.alu = 8;
    r.reset();
    assert_eq!(r, Registers::new());
}
