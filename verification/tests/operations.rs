use retrosys::iface::{CPUInterface, Feature, Notice};
use retrosys::operations::{
    adc, and, asl, bit, clc, cld, cli, clv, cmp, dex, eor, inx, lda, lsr, ora, rol, ror, sbc, sec,
    tax, txs,
};

const CARRY: u8 = 0x01;
const ZERO: u8 = 0x02;
const OVERFLOW: u8 = 0x40;
const NEGATIVE: u8 = 0x80;

fn flags(p: u8) -> (bool, bool, bool, bool) {
    (p & CARRY != 0, p & ZERO != 0, p & OVERFLOW != 0, p & NEGATIVE != 0)
}

fn fresh_with_data(data: u8) -> CPUInterface {
    let mut inter = CPUInterface::new();
    inter.mem.set_data(data);
    inter
}

#[test]
fn lda_zero_sets_zero_clears_negative() {
    let mut inter = fresh_with_data(0x00);
    lda(&mut inter);
    assert_eq!(inter.reg.a, 0);
    let (_, z, _, n) = flags(inter.reg.p);
    assert!(z);
    assert!(!n);
}

#[test]
fn lda_negative_byte_sets_negative() {
    let mut inter = fresh_with_data(0x80);
    lda(&mut inter);
    assert_eq!(inter.reg.a, 0x80);
    let (_, z, _, n) = flags(inter.reg.p);
    assert!(!z);
    assert!(n);
}

#[test]
fn lda_plain_byte_clears_both() {
    let mut inter = fresh_with_data(0x05);
    lda(&mut inter);
    let (_, z, _, n) = flags(inter.reg.p);
    assert!(!z);
    assert!(!n);
}

fn run_adc(a: u8, operand: u8) -> (u8, u8) {
    let mut inter = fresh_with_data(operand);
    inter.reg.a = a;
    adc(&mut inter);
    (inter.reg.a, inter.reg.p)
}

fn run_sbc(a: u8, operand: u8) -> (u8, u8) {
    let mut inter = fresh_with_data(operand);
    inter.reg.a = a;
    sbc(&mut inter);
    (inter.reg.a, inter.reg.p)
}

#[test]
fn adc_zero_plus_zero() {
    let (a, p) = run_adc(0x00, 0x00);
    assert_eq!(a, 0x00);
    assert_eq!(flags(p), (false, true, false, false));
}

#[test]
fn adc_half_boundary() {
    // 127 + 1 = 128: the widened result is above 127, so the non-canonical
    // carry rule fires; the operands' sign bits agree, so overflow stays clear.
    let (a, p) = run_adc(0x7F, 0x01);
    assert_eq!(a, 0x80);
    assert_eq!(flags(p), (true, false, false, true));
}

#[test]
fn adc_minus_128_plus_minus_1() {
    // 0x80 + 0xFF wraps to 0x7F; the sign bits agree, so overflow stays clear.
    let (a, p) = run_adc(0x80, 0xFF);
    assert_eq!(a, 0x7F);
    assert_eq!(flags(p), (false, false, false, false));
}

#[test]
fn adc_wrap_around() {
    // 0xFF + 0x01 wraps to 0x00: the wrapped result stays inside the signed
    // 8-bit range, so the non-canonical rule leaves carry clear; the sign
    // bits differ, so overflow is set.
    let (a, p) = run_adc(0xFF, 0x01);
    assert_eq!(a, 0x00);
    assert_eq!(flags(p), (false, true, true, false));
}

#[test]
fn sbc_zero_minus_zero() {
    // With carry clear the borrow is 1: 0 - 0 - 1 wraps to 0xFF.
    let (a, p) = run_sbc(0x00, 0x00);
    assert_eq!(a, 0xFF);
    assert_eq!(flags(p), (true, false, false, true));
}

#[test]
fn sbc_half_boundary() {
    let (a, p) = run_sbc(0x7F, 0x01);
    assert_eq!(a, 0x7D);
    assert_eq!(flags(p), (false, false, false, false));
}

#[test]
fn sbc_minus_128_minus_minus_1() {
    let (a, p) = run_sbc(0x80, 0xFF);
    assert_eq!(a, 0x80);
    assert_eq!(flags(p), (true, false, false, true));
}

#[test]
fn sbc_wrap_around() {
    let (a, p) = run_sbc(0xFF, 0x01);
    assert_eq!(a, 0xFD);
    assert_eq!(flags(p), (true, false, true, true));
}

#[test]
fn cmp_equal_operands() {
    let mut inter = fresh_with_data(0x05);
    inter.reg.a = 0x05;
    cmp(&mut inter);
    let (c, z, _, n) = flags(inter.reg.p);
    assert!(c);
    assert!(z);
    assert!(!n);
}

#[test]
fn cmp_register_greater() {
    let mut inter = fresh_with_data(0x05);
    inter.reg.a = 0x09;
    cmp(&mut inter);
    let (c, z, _, n) = flags(inter.reg.p);
    assert!(c);
    assert!(!z);
    assert!(!n);
}

#[test]
fn cmp_register_greater_with_sign_bit() {
    let mut inter = fresh_with_data(0x05);
    inter.reg.a = 0x90;
    cmp(&mut inter);
    let (c, z, _, n) = flags(inter.reg.p);
    assert!(c);
    assert!(!z);
    assert!(n, "negative mirrors the register's sign bit when unequal");
}

#[test]
fn cmp_register_less() {
    let mut inter = fresh_with_data(0x09);
    inter.reg.a = 0x05;
    cmp(&mut inter);
    let (c, z, _, _) = flags(inter.reg.p);
    assert!(!c);
    assert!(!z);
}

#[test]
fn cmp_leaves_unrelated_flags_alone() {
    let mut inter = fresh_with_data(0x05);
    inter.reg.a = 0x09;
    // Interrupt-disable, decimal and break bits, plus overflow.
    inter.reg.p = 0x1C | OVERFLOW;
    cmp(&mut inter);
    assert_eq!(inter.reg.p & (0x1C | OVERFLOW), 0x1C | OVERFLOW);
}

#[test]
fn logical_operations_on_accumulator() {
    let mut inter = fresh_with_data(0x0F);
    inter.reg.a = 0x3C;
    and(&mut inter);
    assert_eq!(inter.reg.a, 0x0C);

    let mut inter = fresh_with_data(0x0F);
    inter.reg.a = 0x3C;
    ora(&mut inter);
    assert_eq!(inter.reg.a, 0x3F);

    let mut inter = fresh_with_data(0x0F);
    inter.reg.a = 0x3C;
    eor(&mut inter);
    assert_eq!(inter.reg.a, 0x33);
}

#[test]
fn bit_reads_operand_bits() {
    let mut inter = fresh_with_data(0xC0);
    inter.reg.a = 0x3F;
    bit(&mut inter);
    let (_, z, v, n) = flags(inter.reg.p);
    assert!(z, "accumulator and operand share no bits");
    assert!(v, "bit 6 of the operand");
    assert!(n, "bit 7 of the operand");
}

#[test]
fn asl_accumulator_shifts_and_carries() {
    let mut inter = CPUInterface::new();
    inter.target_is_mem = false;
    inter.reg.a = 0x81;
    asl(&mut inter);
    let (c, z, _, n) = flags(inter.reg.p);
    assert_eq!(inter.reg.a, 0x02);
    assert!(c, "carry takes the bit shifted out");
    assert!(!z);
    assert!(!n);
}

#[test]
fn lsr_accumulator_shifts_and_carries() {
    let mut inter = CPUInterface::new();
    inter.target_is_mem = false;
    inter.reg.a = 0x01;
    lsr(&mut inter);
    let (c, z, _, _) = flags(inter.reg.p);
    assert_eq!(inter.reg.a, 0x00);
    assert!(c);
    assert!(z);
}

#[test]
fn rol_pulls_old_carry_into_low_bit() {
    let mut inter = CPUInterface::new();
    inter.target_is_mem = false;
    inter.reg.a = 0x40;
    sec(&mut inter);
    rol(&mut inter);
    assert_eq!(inter.reg.a, 0x81);
}

#[test]
fn ror_pulls_old_carry_into_high_bit() {
    let mut inter = CPUInterface::new();
    inter.target_is_mem = false;
    inter.reg.a = 0x02;
    sec(&mut inter);
    ror(&mut inter);
    assert_eq!(inter.reg.a, 0x81);
}

#[test]
fn asl_memory_mode_reads_flags_from_accumulator() {
    // In memory mode the zero/negative flags are recomputed from the
    // (untouched) accumulator, not from the shifted byte.
    let mut inter = fresh_with_data(0x81);
    inter.target_is_mem = true;
    inter.reg.a = 0x00;
    asl(&mut inter);
    assert_eq!(inter.mem.data(), 0x02);
    assert_eq!(inter.reg.a, 0x00);
    let (c, z, _, n) = flags(inter.reg.p);
    assert!(c);
    assert!(z, "the accumulator is zero, so the zero flag is set");
    assert!(!n);
}

#[test]
fn inx_wraps_and_sets_zero() {
    let mut inter = CPUInterface::new();
    inter.reg.x = 0xFF;
    inx(&mut inter);
    assert_eq!(inter.reg.x, 0x00);
    let (_, z, _, n) = flags(inter.reg.p);
    assert!(z);
    assert!(!n);
}

#[test]
fn dex_wraps_and_sets_negative() {
    let mut inter = CPUInterface::new();
    inter.reg.x = 0x00;
    dex(&mut inter);
    assert_eq!(inter.reg.x, 0xFF);
    let (_, z, _, n) = flags(inter.reg.p);
    assert!(!z);
    assert!(n);
}

#[test]
fn transfers_move_bytes() {
    let mut inter = CPUInterface::new();
    inter.reg.a = 0x42;
    tax(&mut inter);
    assert_eq!(inter.reg.x, 0x42);
    txs(&mut inter);
    assert_eq!(inter.reg.s, 0x42);
}

#[test]
fn carry_and_overflow_flag_instructions() {
    let mut inter = CPUInterface::new();
    sec(&mut inter);
    assert_eq!(inter.reg.p & CARRY, CARRY);
    clc(&mut inter);
    assert_eq!(inter.reg.p & CARRY, 0);

    inter.reg.p |= OVERFLOW;
    clv(&mut inter);
    assert_eq!(inter.reg.p & OVERFLOW, 0);
}

#[test]
fn decimal_mode_raises_unimplemented_notice() {
    let mut inter = CPUInterface::new();
    let p_before = inter.reg.p;
    cld(&mut inter);
    assert_eq!(inter.reg.p, p_before, "the flags are left unchanged");
    assert_eq!(
        inter.notice,
        Some(Notice::UnimplementedFeature(Feature::DecimalMode))
    );
}

#[test]
fn interrupt_control_raises_unsupported_notice() {
    let mut inter = CPUInterface::new();
    let p_before = inter.reg.p;
    cli(&mut inter);
    assert_eq!(inter.reg.p, p_before, "the flags are left unchanged");
    assert_eq!(
        inter.notice,
        Some(Notice::UnsupportedFeature(Feature::Interrupts))
    );
}
