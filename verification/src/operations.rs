use vstd::prelude::*;

use crate::bus::Bus;
use crate::flags::{
    carry_in, flag_set, lemma_carry_in_bit, lemma_clear_bit, lemma_copy_bit7, lemma_or_bit,
    sets_zn, FlagPositionOffset,
};
use crate::iface::{same_env, CPUInterface, Feature, Notice};
use crate::opcode::Mnemonic;
use crate::registers::Registers;

verus! {

/// Addition on bytes, wrapping modulo 256.
pub open spec fn wadd(a: u8, b: u8) -> u8 {
    if a + b > 255 {
        (a + b - 256) as u8
    } else {
        (a + b) as u8
    }
}

/// Subtraction on bytes, wrapping modulo 256.
pub open spec fn wsub(a: u8, b: u8) -> u8 {
    if a - b < 0 {
        (a - b + 256) as u8
    } else {
        (a - b) as u8
    }
}

/// The borrow the SBC operation subtracts: one minus the carry flag.
pub open spec fn borrow_in(p: u8) -> u8 {
    if p & 1 == 1 {
        0u8
    } else {
        1u8
    }
}

/// Constant bit masks written as shifts, as the operations build them.
proof fn lemma_bit_masks()
    by (bit_vector)
    ensures
        1u8 << 7u8 == 0x80u8,
        1u8 << 6u8 == 0x40u8,
        1u8 << 0u8 == 0x01u8,
{
}

/// Record that a deliberately unsupported capability was invoked; the
/// machine state is otherwise unchanged and execution continues.
fn on_unsupported_feature(inter: &mut CPUInterface, feature: Feature)
    ensures
        *final(inter) == (CPUInterface {
            notice: Some(Notice::UnsupportedFeature(feature)),
            ..*old(inter)
        }),
{
    inter.notice = Some(Notice::UnsupportedFeature(feature));
}

/// Record that a feature that is not yet implemented, but might be in the
/// future, was invoked; the machine state is otherwise unchanged.
fn on_unimplemented_feature(inter: &mut CPUInterface, feature: Feature)
    ensures
        *final(inter) == (CPUInterface {
            notice: Some(Notice::UnimplementedFeature(feature)),
            ..*old(inter)
        }),
{
    inter.notice = Some(Notice::UnimplementedFeature(feature));
}

/// Set one status flag, leaving every other flag and everything else alone.
fn set_flag(inter: &mut CPUInterface, flag: FlagPositionOffset)
    ensures
        final(inter).reg == (Registers { p: final(inter).reg.p, ..old(inter).reg }),
        forall|g: FlagPositionOffset| #[trigger]
            flag_set(final(inter).reg.p, g) == (g == flag || flag_set(old(inter).reg.p, g)),
        same_env(*old(inter), *final(inter)),
{
    let m = 1u8 << flag.position();
    inter.reg.p = inter.reg.p | m;
    proof {
        assert forall|g: FlagPositionOffset| #[trigger]
            flag_set(inter.reg.p, g) == (g == flag || flag_set(old(inter).reg.p, g)) by {
            lemma_or_bit(old(inter).reg.p, flag.spec_position(), g.spec_position());
        }
    }
}

/// Clear one status flag, leaving every other flag and everything else alone.
fn clear_flag(inter: &mut CPUInterface, flag: FlagPositionOffset)
    ensures
        final(inter).reg == (Registers { p: final(inter).reg.p, ..old(inter).reg }),
        forall|g: FlagPositionOffset| #[trigger]
            flag_set(final(inter).reg.p, g) == (g != flag && flag_set(old(inter).reg.p, g)),
        same_env(*old(inter), *final(inter)),
{
    let m = 1u8 << flag.position();
    inter.reg.p = inter.reg.p & !m;
    proof {
        assert forall|g: FlagPositionOffset| #[trigger]
            flag_set(inter.reg.p, g) == (g != flag && flag_set(old(inter).reg.p, g)) by {
            lemma_clear_bit(old(inter).reg.p, flag.spec_position(), g.spec_position());
        }
    }
}

/// Set or clear one status flag according to `value`.
fn set_flag_bool(inter: &mut CPUInterface, flag: FlagPositionOffset, value: bool)
    ensures
        final(inter).reg == (Registers { p: final(inter).reg.p, ..old(inter).reg }),
        forall|g: FlagPositionOffset| #[trigger]
            flag_set(final(inter).reg.p, g) == (if g == flag {
                value
            } else {
                flag_set(old(inter).reg.p, g)
            }),
        same_env(*old(inter), *final(inter)),
{
    if value {
        set_flag(inter, flag);
    } else {
        clear_flag(inter, flag);
    }
}

/// Recompute the zero flag from a result byte.
fn set_flag_is_zero(inter: &mut CPUInterface, value: u8)
    ensures
        final(inter).reg == (Registers { p: final(inter).reg.p, ..old(inter).reg }),
        forall|g: FlagPositionOffset| #[trigger]
            flag_set(final(inter).reg.p, g) == (if g == FlagPositionOffset::Zero {
                value == 0
            } else {
                flag_set(old(inter).reg.p, g)
            }),
        same_env(*old(inter), *final(inter)),
{
    set_flag_bool(inter, FlagPositionOffset::Zero, value == 0);
}

/// Copy bit 7 of a result byte into the negative flag: a byte with its most
/// significant bit set is considered negative.
fn set_flag_is_negative(inter: &mut CPUInterface, value: u8)
    ensures
        final(inter).reg == (Registers { p: final(inter).reg.p, ..old(inter).reg }),
        forall|g: FlagPositionOffset| #[trigger]
            flag_set(final(inter).reg.p, g) == (if g == FlagPositionOffset::Negative {
                value & 0x80 != 0
            } else {
                flag_set(old(inter).reg.p, g)
            }),
        same_env(*old(inter), *final(inter)),
{
    let p = inter.reg.p;
    inter.reg.p = (p & !(1u8 << 7)) | (value & (1u8 << 7));
    proof {
        assert forall|g: FlagPositionOffset| #[trigger]
            flag_set(inter.reg.p, g) == (if g == FlagPositionOffset::Negative {
                value & 0x80 != 0
            } else {
                flag_set(old(inter).reg.p, g)
            }) by {
            lemma_copy_bit7(old(inter).reg.p, value, g.spec_position());
        }
    }
}

/// Recompute the carry flag from a widened ALU result: carry means the value
/// lies outside the signed 8-bit range. This is the engine's deliberate,
/// non-canonical carry rule; it is preserved exactly.
fn set_flag_is_carry(inter: &mut CPUInterface, val: i16)
    ensures
        final(inter).reg == (Registers { p: final(inter).reg.p, ..old(inter).reg }),
        forall|g: FlagPositionOffset| #[trigger]
            flag_set(final(inter).reg.p, g) == (if g == FlagPositionOffset::Carry {
                val > 127 || val < -128
            } else {
                flag_set(old(inter).reg.p, g)
            }),
        same_env(*old(inter), *final(inter)),
{
    let is_carry = (val > i8::MAX as i16) || (val < i8::MIN as i16);
    set_flag_bool(inter, FlagPositionOffset::Carry, is_carry);
}

/// Recompute the overflow flag from the two input operands: overflow means
/// their sign bits differ. This is the engine's deliberate, non-canonical
/// overflow rule; it is preserved exactly.
fn set_flag_is_overflow(inter: &mut CPUInterface, val_1: u8, val_2: u8)
    ensures
        final(inter).reg == (Registers { p: final(inter).reg.p, ..old(inter).reg }),
        forall|g: FlagPositionOffset| #[trigger]
            flag_set(final(inter).reg.p, g) == (if g == FlagPositionOffset::Overflow {
                (val_1 & 0x80) != (val_2 & 0x80)
            } else {
                flag_set(old(inter).reg.p, g)
            }),
        same_env(*old(inter), *final(inter)),
{
    let is_overflow = val_1 & (1u8 << 7) != val_2 & (1u8 << 7);
    proof {
        lemma_bit_masks();
    }
    set_flag_bool(inter, FlagPositionOffset::Overflow, is_overflow);
}

/// Wrapping byte addition through the ALU latch, updating zero and negative.
#[allow(non_snake_case)]
fn alu_add__flag_zn(inter: &mut CPUInterface, val_1: u8, val_2: u8) -> (r: u8)
    ensures
        r == wadd(val_1, val_2),
        final(inter).reg == (Registers { alu: r, p: final(inter).reg.p, ..old(inter).reg }),
        sets_zn(old(inter).reg.p, final(inter).reg.p, r),
        same_env(*old(inter), *final(inter)),
{
    let v = val_1.wrapping_add(val_2);
    inter.reg.alu = v;
    set_flag_is_zero(inter, v);
    set_flag_is_negative(inter, v);
    v
}

/// Wrapping byte subtraction through the ALU latch, updating zero and negative.
#[allow(non_snake_case)]
fn alu_sub__flag_zn(inter: &mut CPUInterface, val_1: u8, val_2: u8) -> (r: u8)
    ensures
        r == wsub(val_1, val_2),
        final(inter).reg == (Registers { alu: r, p: final(inter).reg.p, ..old(inter).reg }),
        sets_zn(old(inter).reg.p, final(inter).reg.p, r),
        same_env(*old(inter), *final(inter)),
{
    let v = val_1.wrapping_sub(val_2);
    inter.reg.alu = v;
    set_flag_is_zero(inter, v);
    set_flag_is_negative(inter, v);
    v
}

/// The operation changed nothing: a deliberate stub, kept as a well-defined
/// no-op until its semantics are implemented.
pub open spec fn unchanged_spec(pre: CPUInterface, post: CPUInterface) -> bool {
    &&& post.reg == pre.reg
    &&& same_env(pre, post)
}

/// Loads: the bus data byte lands in a register and zero/negative follow it.
pub open spec fn lda_spec(pre: CPUInterface, post: CPUInterface) -> bool {
    &&& post.reg == (Registers { a: pre.mem.bus.data, p: post.reg.p, ..pre.reg })
    &&& sets_zn(pre.reg.p, post.reg.p, pre.mem.bus.data)
    &&& same_env(pre, post)
}

pub open spec fn ldx_spec(pre: CPUInterface, post: CPUInterface) -> bool {
    &&& post.reg == (Registers { x: pre.mem.bus.data, p: post.reg.p, ..pre.reg })
    &&& sets_zn(pre.reg.p, post.reg.p, pre.mem.bus.data)
    &&& same_env(pre, post)
}

pub open spec fn ldy_spec(pre: CPUInterface, post: CPUInterface) -> bool {
    &&& post.reg == (Registers { y: pre.mem.bus.data, p: post.reg.p, ..pre.reg })
    &&& sets_zn(pre.reg.p, post.reg.p, pre.mem.bus.data)
    &&& same_env(pre, post)
}

/// Stores: a register's byte lands on the bus data line; no flags change.
pub open spec fn store_spec(pre: CPUInterface, post: CPUInterface, v: u8) -> bool {
    &&& post.reg == pre.reg
    &&& post.mem.bus == (Bus { data: v, ..pre.mem.bus })
    &&& post.mem.devices@ == pre.mem.devices@
    &&& post.target_is_mem == pre.target_is_mem
    &&& post.notice == pre.notice
}

/// Transfers into a register that update zero/negative from the moved byte.
pub open spec fn transfer_zn_spec(pre: CPUInterface, post: CPUInterface, v: u8) -> bool {
    &&& sets_zn(pre.reg.p, post.reg.p, v)
    &&& same_env(pre, post)
}

/// The accumulator after a logical operation, with zero/negative updated.
pub open spec fn logic_spec(pre: CPUInterface, post: CPUInterface, v: u8) -> bool {
    &&& post.reg == (Registers { a: v, p: post.reg.p, ..pre.reg })
    &&& sets_zn(pre.reg.p, post.reg.p, v)
    &&& same_env(pre, post)
}

/// BIT: zero from the AND of accumulator and operand, overflow from bit 6 of
/// the operand, negative from bit 7 of the operand; nothing else changes.
pub open spec fn bit_spec(pre: CPUInterface, post: CPUInterface) -> bool {
    let v = pre.mem.bus.data;
    &&& post.reg == (Registers { p: post.reg.p, ..pre.reg })
    &&& flag_set(post.reg.p, FlagPositionOffset::Zero) == (v & pre.reg.a == 0)
    &&& flag_set(post.reg.p, FlagPositionOffset::Overflow) == (v & 0x40 != 0)
    &&& flag_set(post.reg.p, FlagPositionOffset::Negative) == (v & 0x80 != 0)
    &&& forall|g: FlagPositionOffset|
        g != FlagPositionOffset::Zero && g != FlagPositionOffset::Overflow && g
            != FlagPositionOffset::Negative ==> #[trigger] flag_set(post.reg.p, g) == flag_set(
            pre.reg.p,
            g,
        )
    &&& same_env(pre, post)
}

/// The byte ADC leaves in the accumulator: operand, accumulator and carry-in
/// summed, wrapping modulo 256.
pub open spec fn adc_sum(pre: CPUInterface) -> u8 {
    wadd(wadd(pre.reg.a, pre.mem.bus.data), carry_in(pre.reg.p))
}

/// The byte SBC leaves in the accumulator: operand and borrow (one minus the
/// carry flag) subtracted from the accumulator, wrapping modulo 256.
pub open spec fn sbc_diff(pre: CPUInterface) -> u8 {
    wsub(wsub(pre.reg.a, pre.mem.bus.data), borrow_in(pre.reg.p))
}

/// Arithmetic flag rule shared by ADC and SBC. Carry tests whether the
/// result byte, widened to a signed 16-bit value, lies outside [-128, 127]
/// (so it mirrors bit 7 of the wrapped result); overflow tests whether the
/// two input operands' sign bits differ. Both rules are deliberately
/// non-canonical and preserved exactly.
pub open spec fn arith_spec(pre: CPUInterface, post: CPUInterface, v: u8, operand: u8) -> bool {
    &&& post.reg == (Registers { a: v, alu: v, p: post.reg.p, ..pre.reg })
    &&& flag_set(post.reg.p, FlagPositionOffset::Zero) == (v == 0)
    &&& flag_set(post.reg.p, FlagPositionOffset::Negative) == (v & 0x80 != 0)
    &&& flag_set(post.reg.p, FlagPositionOffset::Carry) == (v > 127)
    &&& flag_set(post.reg.p, FlagPositionOffset::Overflow) == ((pre.reg.a & 0x80) != (operand
        & 0x80))
    &&& forall|g: FlagPositionOffset|
        g != FlagPositionOffset::Zero && g != FlagPositionOffset::Negative && g
            != FlagPositionOffset::Carry && g != FlagPositionOffset::Overflow ==> #[trigger]
            flag_set(post.reg.p, g) == flag_set(pre.reg.p, g)
    &&& same_env(pre, post)
}

/// Compare rule: carry holds exactly when the register is at least the
/// operand; zero holds exactly on equality; negative mirrors the register's
/// sign bit when unequal and is cleared when equal.
pub open spec fn compare_spec(pre: CPUInterface, post: CPUInterface, r: u8) -> bool {
    let v = pre.mem.bus.data;
    &&& post.reg == (Registers { p: post.reg.p, ..pre.reg })
    &&& flag_set(post.reg.p, FlagPositionOffset::Carry) == (r >= v)
    &&& flag_set(post.reg.p, FlagPositionOffset::Zero) == (r == v)
    &&& flag_set(post.reg.p, FlagPositionOffset::Negative) == (if r == v {
        false
    } else {
        r & 0x80 != 0
    })
    &&& forall|g: FlagPositionOffset|
        g != FlagPositionOffset::Carry && g != FlagPositionOffset::Zero && g
            != FlagPositionOffset::Negative ==> #[trigger] flag_set(post.reg.p, g) == flag_set(
            pre.reg.p,
            g,
        )
    &&& same_env(pre, post)
}

/// Shift rule shared by ASL/LSR/ROL/ROR. The shifted byte replaces the
/// target (bus data or accumulator); the rotations then patch the vacated bit
/// with the old carry. Zero and negative are recomputed from the accumulator
/// as it stands right after the shift (so in memory mode they reflect the
/// untouched accumulator); carry takes the bit shifted out.
pub open spec fn shift_spec(
    pre: CPUInterface,
    post: CPUInterface,
    new_target: u8,
    shifted: u8,
    carry_out: bool,
) -> bool {
    let a_mid = if pre.target_is_mem {
        pre.reg.a
    } else {
        shifted
    };
    &&& if pre.target_is_mem {
        &&& post.reg == (Registers { p: post.reg.p, ..pre.reg })
        &&& post.mem.bus == (Bus { data: new_target, ..pre.mem.bus })
    } else {
        &&& post.reg == (Registers { a: new_target, p: post.reg.p, ..pre.reg })
        &&& post.mem.bus == pre.mem.bus
    }
    &&& flag_set(post.reg.p, FlagPositionOffset::Zero) == (a_mid == 0)
    &&& flag_set(post.reg.p, FlagPositionOffset::Negative) == (a_mid & 0x80 != 0)
    &&& flag_set(post.reg.p, FlagPositionOffset::Carry) == carry_out
    &&& forall|g: FlagPositionOffset|
        g != FlagPositionOffset::Zero && g != FlagPositionOffset::Negative && g
            != FlagPositionOffset::Carry ==> #[trigger] flag_set(post.reg.p, g) == flag_set(
            pre.reg.p,
            g,
        )
    &&& post.mem.devices@ == pre.mem.devices@
    &&& post.target_is_mem == pre.target_is_mem
    &&& post.notice == pre.notice
}

/// A flag instruction that only sets or clears one flag.
pub open spec fn flag_write_spec(
    pre: CPUInterface,
    post: CPUInterface,
    flag: FlagPositionOffset,
    value: bool,
) -> bool {
    &&& post.reg == (Registers { p: post.reg.p, ..pre.reg })
    &&& forall|g: FlagPositionOffset| #[trigger]
        flag_set(post.reg.p, g) == (if g == flag {
            value
        } else {
            flag_set(pre.reg.p, g)
        })
    &&& same_env(pre, post)
}

/// A flag instruction the engine does not perform: it leaves the machine
/// unchanged and raises the given notice.
pub open spec fn notice_spec(pre: CPUInterface, post: CPUInterface, notice: Notice) -> bool {
    &&& post.reg == pre.reg
    &&& post.mem.bus == pre.mem.bus
    &&& post.mem.devices@ == pre.mem.devices@
    &&& post.target_is_mem == pre.target_is_mem
    &&& post.notice == Some(notice)
}

/// What each operation does to the interface state in its final micro-step.
#[verifier::opaque]
pub open spec fn op_effect(m: Mnemonic, pre: CPUInterface, post: CPUInterface) -> bool {
    match m {
        Mnemonic::Lda => lda_spec(pre, post),
        Mnemonic::Ldx => ldx_spec(pre, post),
        Mnemonic::Ldy => ldy_spec(pre, post),
        Mnemonic::Sta => store_spec(pre, post, pre.reg.a),
        Mnemonic::Sty => store_spec(pre, post, pre.reg.y),
        Mnemonic::Stx => store_spec(pre, post, pre.reg.x),
        Mnemonic::Tax => post.reg == (Registers { x: pre.reg.a, p: post.reg.p, ..pre.reg })
            && transfer_zn_spec(pre, post, pre.reg.a),
        Mnemonic::Tay => post.reg == (Registers { y: pre.reg.a, p: post.reg.p, ..pre.reg })
            && transfer_zn_spec(pre, post, pre.reg.a),
        Mnemonic::Txa => post.reg == (Registers { a: pre.reg.x, p: post.reg.p, ..pre.reg })
            && transfer_zn_spec(pre, post, pre.reg.x),
        Mnemonic::Tya => post.reg == (Registers { a: pre.reg.y, p: post.reg.p, ..pre.reg })
            && transfer_zn_spec(pre, post, pre.reg.y),
        Mnemonic::Tsx => post.reg == (Registers { x: pre.reg.s, p: post.reg.p, ..pre.reg })
            && transfer_zn_spec(pre, post, pre.reg.s),
        Mnemonic::Txs => post.reg == (Registers { s: pre.reg.x, ..pre.reg }) && same_env(pre, post),
        Mnemonic::Pha => unchanged_spec(pre, post),
        Mnemonic::Php => unchanged_spec(pre, post),
        Mnemonic::Pla => unchanged_spec(pre, post),
        Mnemonic::Plp => unchanged_spec(pre, post),
        Mnemonic::And => logic_spec(pre, post, pre.reg.a & pre.mem.bus.data),
        Mnemonic::Eor => logic_spec(pre, post, pre.reg.a ^ pre.mem.bus.data),
        Mnemonic::Ora => logic_spec(pre, post, pre.reg.a | pre.mem.bus.data),
        Mnemonic::Bit => bit_spec(pre, post),
        Mnemonic::Adc => arith_spec(pre, post, adc_sum(pre), pre.mem.bus.data),
        Mnemonic::Sbc => arith_spec(pre, post, sbc_diff(pre), pre.mem.bus.data),
        Mnemonic::Cmp => compare_spec(pre, post, pre.reg.a),
        Mnemonic::Cpx => compare_spec(pre, post, pre.reg.x),
        Mnemonic::Cpy => compare_spec(pre, post, pre.reg.y),
        Mnemonic::Inc => unchanged_spec(pre, post),
        Mnemonic::Inx => post.reg == (Registers {
            x: wadd(pre.reg.x, 1),
            alu: wadd(pre.reg.x, 1),
            p: post.reg.p,
            ..pre.reg
        }) && transfer_zn_spec(pre, post, wadd(pre.reg.x, 1)),
        Mnemonic::Iny => post.reg == (Registers {
            y: wadd(pre.reg.y, 1),
            alu: wadd(pre.reg.y, 1),
            p: post.reg.p,
            ..pre.reg
        }) && transfer_zn_spec(pre, post, wadd(pre.reg.y, 1)),
        Mnemonic::Dec => unchanged_spec(pre, post),
        Mnemonic::Dex => post.reg == (Registers {
            x: wsub(pre.reg.x, 1),
            alu: wsub(pre.reg.x, 1),
            p: post.reg.p,
            ..pre.reg
        }) && transfer_zn_spec(pre, post, wsub(pre.reg.x, 1)),
        Mnemonic::Dey => post.reg == (Registers {
            y: wsub(pre.reg.y, 1),
            alu: wsub(pre.reg.y, 1),
            p: post.reg.p,
            ..pre.reg
        }) && transfer_zn_spec(pre, post, wsub(pre.reg.y, 1)),
        Mnemonic::Asl => {
            let t = pre.target_value();
            shift_spec(pre, post, t << 1u8, t << 1u8, t & 0x80 != 0)
        },
        Mnemonic::Lsr => {
            let t = pre.target_value();
            shift_spec(pre, post, t >> 1u8, t >> 1u8, t & 1 != 0)
        },
        Mnemonic::Rol => {
            let t = pre.target_value();
            let sh = t << 1u8;
            shift_spec(pre, post, (sh & !1u8) | carry_in(pre.reg.p), sh, t & 0x80 != 0)
        },
        Mnemonic::Ror => {
            let t = pre.target_value();
            let sh = t >> 1u8;
            shift_spec(
                pre,
                post,
                (sh & !(1u8 << 7u8)) | (carry_in(pre.reg.p) << 7u8),
                sh,
                t & 1 != 0,
            )
        },
        Mnemonic::Jmp => unchanged_spec(pre, post),
        Mnemonic::Jsr => unchanged_spec(pre, post),
        Mnemonic::Rts => unchanged_spec(pre, post),
        Mnemonic::Bcc => unchanged_spec(pre, post),
        Mnemonic::Bcs => unchanged_spec(pre, post),
        Mnemonic::Beq => unchanged_spec(pre, post),
        Mnemonic::Bmi => unchanged_spec(pre, post),
        Mnemonic::Bne => unchanged_spec(pre, post),
        Mnemonic::Bpl => unchanged_spec(pre, post),
        Mnemonic::Bvc => unchanged_spec(pre, post),
        Mnemonic::Bvs => unchanged_spec(pre, post),
        Mnemonic::Clc => flag_write_spec(pre, post, FlagPositionOffset::Carry, false),
        Mnemonic::Cld => notice_spec(
            pre,
            post,
            Notice::UnimplementedFeature(Feature::DecimalMode),
        ),
        Mnemonic::Cli => notice_spec(pre, post, Notice::UnsupportedFeature(Feature::Interrupts)),
        Mnemonic::Clv => flag_write_spec(pre, post, FlagPositionOffset::Overflow, false),
        Mnemonic::Sec => flag_write_spec(pre, post, FlagPositionOffset::Carry, true),
        Mnemonic::Sed => notice_spec(
            pre,
            post,
            Notice::UnimplementedFeature(Feature::DecimalMode),
        ),
        Mnemonic::Sei => notice_spec(pre, post, Notice::UnsupportedFeature(Feature::Interrupts)),
        Mnemonic::Brk => unchanged_spec(pre, post),
        Mnemonic::Nop => unchanged_spec(pre, post),
        Mnemonic::Rti => unchanged_spec(pre, post),
    }
}

/* #######################  Load/Store Operations  ####################### */

pub fn lda(inter: &mut CPUInterface)
    ensures
        lda_spec(*old(inter), *final(inter)),
{
    inter.reg.a = inter.mem.data();
    let v = inter.reg.a;
    set_flag_is_zero(inter, v);
    set_flag_is_negative(inter, v);
}

pub fn ldx(inter: &mut CPUInterface)
    ensures
        ldx_spec(*old(inter), *final(inter)),
{
    inter.reg.x = inter.mem.data();
    let v = inter.reg.x;
    set_flag_is_zero(inter, v);
    set_flag_is_negative(inter, v);
}

pub fn ldy(inter: &mut CPUInterface)
    ensures
        ldy_spec(*old(inter), *final(inter)),
{
    inter.reg.y = inter.mem.data();
    let v = inter.reg.y;
    set_flag_is_zero(inter, v);
    set_flag_is_negative(inter, v);
}

pub fn sta(inter: &mut CPUInterface)
    ensures
        store_spec(*old(inter), *final(inter), old(inter).reg.a),
{
    let v = inter.reg.a;
    inter.mem.set_data(v);
}

pub fn sty(inter: &mut CPUInterface)
    ensures
        store_spec(*old(inter), *final(inter), old(inter).reg.y),
{
    let v = inter.reg.y;
    inter.mem.set_data(v);
}

pub fn stx(inter: &mut CPUInterface)
    ensures
        store_spec(*old(inter), *final(inter), old(inter).reg.x),
{
    let v = inter.reg.x;
    inter.mem.set_data(v);
}

/* #######################  Register Transfers  ####################### */

pub fn tax(inter: &mut CPUInterface)
    ensures
        final(inter).reg == (Registers {
            x: old(inter).reg.a,
            p: final(inter).reg.p,
            ..old(inter).reg
        }),
        transfer_zn_spec(*old(inter), *final(inter), old(inter).reg.a),
{
    inter.reg.x = inter.reg.a;
    let v = inter.reg.x;
    set_flag_is_zero(inter, v);
    set_flag_is_negative(inter, v);
}

pub fn tay(inter: &mut CPUInterface)
    ensures
        final(inter).reg == (Registers {
            y: old(inter).reg.a,
            p: final(inter).reg.p,
            ..old(inter).reg
        }),
        transfer_zn_spec(*old(inter), *final(inter), old(inter).reg.a),
{
    inter.reg.y = inter.reg.a;
    let v = inter.reg.y;
    set_flag_is_zero(inter, v);
    set_flag_is_negative(inter, v);
}

pub fn txa(inter: &mut CPUInterface)
    ensures
        final(inter).reg == (Registers {
            a: old(inter).reg.x,
            p: final(inter).reg.p,
            ..old(inter).reg
        }),
        transfer_zn_spec(*old(inter), *final(inter), old(inter).reg.x),
{
    inter.reg.a = inter.reg.x;
    let v = inter.reg.a;
    set_flag_is_zero(inter, v);
    set_flag_is_negative(inter, v);
}

pub fn tya(inter: &mut CPUInterface)
    ensures
        final(inter).reg == (Registers {
            a: old(inter).reg.y,
            p: final(inter).reg.p,
            ..old(inter).reg
        }),
        transfer_zn_spec(*old(inter), *final(inter), old(inter).reg.y),
{
    inter.reg.a = inter.reg.y;
    let v = inter.reg.a;
    set_flag_is_zero(inter, v);
    set_flag_is_negative(inter, v);
}

/* #######################  Stack Operations  ####################### */

pub fn tsx(inter: &mut CPUInterface)
    ensures
        final(inter).reg == (Registers {
            x: old(inter).reg.s,
            p: final(inter).reg.p,
            ..old(inter).reg
        }),
        transfer_zn_spec(*old(inter), *final(inter), old(inter).reg.s),
{
    inter.reg.x = inter.reg.s;
    let v = inter.reg.x;
    set_flag_is_zero(inter, v);
    set_flag_is_negative(inter, v);
}

pub fn txs(inter: &mut CPUInterface)
    ensures
        final(inter).reg == (Registers { s: old(inter).reg.x, ..old(inter).reg }),
        same_env(*old(inter), *final(inter)),
{
    inter.reg.s = inter.reg.x;
}

/// Stack push of the accumulator: a deliberate stub with no effect.
pub fn pha(inter: &mut CPUInterface)
    ensures
        unchanged_spec(*old(inter), *final(inter)),
{
}

/// Stack push of the status flags: a deliberate stub with no effect.
pub fn php(inter: &mut CPUInterface)
    ensures
        unchanged_spec(*old(inter), *final(inter)),
{
}

/// Stack pop into the accumulator: a deliberate stub with no effect.
pub fn pla(inter: &mut CPUInterface)
    ensures
        unchanged_spec(*old(inter), *final(inter)),
{
}

/// Stack pop into the status flags: a deliberate stub with no effect.
pub fn plp(inter: &mut CPUInterface)
    ensures
        unchanged_spec(*old(inter), *final(inter)),
{
}

/* #######################  Logical  ####################### */

pub fn and(inter: &mut CPUInterface)
    ensures
        logic_spec(*old(inter), *final(inter), old(inter).reg.a & old(inter).mem.bus.data),
{
    let v = inter.reg.a & inter.mem.data();
    inter.reg.a = v;
    set_flag_is_zero(inter, v);
    set_flag_is_negative(inter, v);
}

pub fn eor(inter: &mut CPUInterface)
    ensures
        logic_spec(*old(inter), *final(inter), old(inter).reg.a ^ old(inter).mem.bus.data),
{
    let v = inter.reg.a ^ inter.mem.data();
    inter.reg.a = v;
    set_flag_is_zero(inter, v);
    set_flag_is_negative(inter, v);
}

pub fn ora(inter: &mut CPUInterface)
    ensures
        logic_spec(*old(inter), *final(inter), old(inter).reg.a | old(inter).mem.bus.data),
{
    let v = inter.reg.a | inter.mem.data();
    inter.reg.a = v;
    set_flag_is_zero(inter, v);
    set_flag_is_negative(inter, v);
}

pub fn bit(inter: &mut CPUInterface)
    ensures
        bit_spec(*old(inter), *final(inter)),
{
    let pattern = inter.reg.a;
    let value = inter.mem.data();

    let and_rs = value & pattern;
    set_flag_is_zero(inter, and_rs);

    let bit_6 = value & (1u8 << 6);
    proof {
        lemma_bit_masks();
    }
    set_flag_bool(inter, FlagPositionOffset::Overflow, bit_6 != 0);

    set_flag_is_negative(inter, value);
}

/* #######################  Arithmetic  ####################### */

/// Add the operand and the carry flag to the accumulator, wrapping. Carry
/// and overflow follow the engine's non-canonical rules (see `arith_spec`).
pub fn adc(inter: &mut CPUInterface)
    ensures
        arith_spec(
            *old(inter),
            *final(inter),
            adc_sum(*old(inter)),
            old(inter).mem.bus.data,
        ),
{
    let val_1 = inter.reg.a;
    let val_2 = inter.mem.data();

    let carry = inter.reg.p & 1;
    proof {
        lemma_carry_in_bit(inter.reg.p);
    }

    let result = val_1.wrapping_add(val_2).wrapping_add(carry);

    inter.reg.alu = result;
    inter.reg.a = result;

    set_flag_is_zero(inter, result);
    set_flag_is_negative(inter, result);

    set_flag_is_carry(inter, result as i16);
    set_flag_is_overflow(inter, val_1, val_2);
}

/// Subtract the operand and the borrow (one minus the carry flag) from the
/// accumulator, wrapping. Carry and overflow follow the engine's
/// non-canonical rules (see `arith_spec`).
pub fn sbc(inter: &mut CPUInterface)
    ensures
        arith_spec(
            *old(inter),
            *final(inter),
            sbc_diff(*old(inter)),
            old(inter).mem.bus.data,
        ),
{
    let val_1 = inter.reg.a;
    let val_2 = inter.mem.data();

    let carry = inter.reg.p & 1;
    proof {
        lemma_carry_in_bit(inter.reg.p);
    }

    let result = val_1.wrapping_sub(val_2).wrapping_sub(1 - carry);

    inter.reg.alu = result;
    inter.reg.a = result;

    set_flag_is_zero(inter, result);
    set_flag_is_negative(inter, result);

    set_flag_is_carry(inter, result as i16);
    set_flag_is_overflow(inter, val_1, val_2);
}

#[allow(non_snake_case)]
fn __generic_cmp(inter: &mut CPUInterface, reg: u8)
    ensures
        compare_spec(*old(inter), *final(inter), reg),
{
    let val = inter.mem.data();

    if reg >= val {
        set_flag(inter, FlagPositionOffset::Carry);
    } else {
        clear_flag(inter, FlagPositionOffset::Carry);
    }

    if reg == val {
        set_flag(inter, FlagPositionOffset::Zero);
        clear_flag(inter, FlagPositionOffset::Negative);
    } else {
        clear_flag(inter, FlagPositionOffset::Zero);
        set_flag_is_negative(inter, reg);
    }
}

pub fn cmp(inter: &mut CPUInterface)
    ensures
        compare_spec(*old(inter), *final(inter), old(inter).reg.a),
{
    let r = inter.reg.a;
    __generic_cmp(inter, r);
}

pub fn cpx(inter: &mut CPUInterface)
    ensures
        compare_spec(*old(inter), *final(inter), old(inter).reg.x),
{
    let r = inter.reg.x;
    __generic_cmp(inter, r);
}

pub fn cpy(inter: &mut CPUInterface)
    ensures
        compare_spec(*old(inter), *final(inter), old(inter).reg.y),
{
    let r = inter.reg.y;
    __generic_cmp(inter, r);
}

/* #######################  Increments & Decrements  ####################### */

/// Memory increment: a deliberate stub with no effect.
pub fn inc(inter: &mut CPUInterface)
    ensures
        unchanged_spec(*old(inter), *final(inter)),
{
}

pub fn inx(inter: &mut CPUInterface)
    ensures
        final(inter).reg == (Registers {
            x: wadd(old(inter).reg.x, 1),
            alu: wadd(old(inter).reg.x, 1),
            p: final(inter).reg.p,
            ..old(inter).reg
        }),
        transfer_zn_spec(*old(inter), *final(inter), wadd(old(inter).reg.x, 1)),
{
    let x = inter.reg.x;
    let v = alu_add__flag_zn(inter, x, 1);
    inter.reg.x = v;
}

pub fn iny(inter: &mut CPUInterface)
    ensures
        final(inter).reg == (Registers {
            y: wadd(old(inter).reg.y, 1),
            alu: wadd(old(inter).reg.y, 1),
            p: final(inter).reg.p,
            ..old(inter).reg
        }),
        transfer_zn_spec(*old(inter), *final(inter), wadd(old(inter).reg.y, 1)),
{
    let y = inter.reg.y;
    let v = alu_add__flag_zn(inter, y, 1);
    inter.reg.y = v;
}

/// Memory decrement: a deliberate stub with no effect.
pub fn dec(inter: &mut CPUInterface)
    ensures
        unchanged_spec(*old(inter), *final(inter)),
{
}

pub fn dex(inter: &mut CPUInterface)
    ensures
        final(inter).reg == (Registers {
            x: wsub(old(inter).reg.x, 1),
            alu: wsub(old(inter).reg.x, 1),
            p: final(inter).reg.p,
            ..old(inter).reg
        }),
        transfer_zn_spec(*old(inter), *final(inter), wsub(old(inter).reg.x, 1)),
{
    let x = inter.reg.x;
    let v = alu_sub__flag_zn(inter, x, 1);
    inter.reg.x = v;
}

pub fn dey(inter: &mut CPUInterface)
    ensures
        final(inter).reg == (Registers {
            y: wsub(old(inter).reg.y, 1),
            alu: wsub(old(inter).reg.y, 1),
            p: final(inter).reg.p,
            ..old(inter).reg
        }),
        transfer_zn_spec(*old(inter), *final(inter), wsub(old(inter).reg.y, 1)),
{
    let y = inter.reg.y;
    let v = alu_sub__flag_zn(inter, y, 1);
    inter.reg.y = v;
}

/* #######################  Shifts  ####################### */

/// Shift the target left one bit. Zero and negative are recomputed from the
/// accumulator (which in memory mode is untouched); carry takes the bit
/// shifted out.
pub fn asl(inter: &mut CPUInterface)
    ensures
        op_effect(Mnemonic::Asl, *old(inter), *final(inter)),
{
    proof {
        reveal(op_effect);
    }
    let t = inter.target();
    let sh = t << 1;
    inter.set_target(sh);

    let a_now = inter.reg.a;
    set_flag_is_zero(inter, a_now);
    set_flag_is_negative(inter, a_now);

    proof {
        lemma_bit_masks();
    }
    if (t & (1u8 << 7)) != 0 {
        set_flag(inter, FlagPositionOffset::Carry);
    } else {
        clear_flag(inter, FlagPositionOffset::Carry);
    }
}

/// Shift the target right one bit; flags as in `asl`, with carry taking the
/// old low bit.
pub fn lsr(inter: &mut CPUInterface)
    ensures
        op_effect(Mnemonic::Lsr, *old(inter), *final(inter)),
{
    proof {
        reveal(op_effect);
    }
    let t = inter.target();
    let sh = t >> 1;
    inter.set_target(sh);

    let a_now = inter.reg.a;
    set_flag_is_zero(inter, a_now);
    set_flag_is_negative(inter, a_now);

    if (t & 1) != 0 {
        set_flag(inter, FlagPositionOffset::Carry);
    } else {
        clear_flag(inter, FlagPositionOffset::Carry);
    }
}

/// Rotate the target left: shift as `asl`, then put the old carry into the
/// vacated low bit. The flags keep the values `asl` computed.
pub fn rol(inter: &mut CPUInterface)
    ensures
        op_effect(Mnemonic::Rol, *old(inter), *final(inter)),
{
    proof {
        reveal(op_effect);
    }
    let old_carry = inter.reg.p & 1;

    asl(inter);

    let t = inter.target();
    inter.set_target((t & !1u8) | old_carry);
}

/// Rotate the target right: shift as `lsr`, then put the old carry into the
/// vacated high bit. The flags keep the values `lsr` computed.
pub fn ror(inter: &mut CPUInterface)
    ensures
        op_effect(Mnemonic::Ror, *old(inter), *final(inter)),
{
    proof {
        reveal(op_effect);
    }
    let old_carry = inter.reg.p & 1;

    lsr(inter);

    let t = inter.target();
    inter.set_target((t & !(1u8 << 7)) | (old_carry << 7));
}

/* #######################  Jumps & Calls  ####################### */

/// Jump: a deliberate stub with no effect.
pub fn jmp(inter: &mut CPUInterface)
    ensures
        unchanged_spec(*old(inter), *final(inter)),
{
}

/// Jump to subroutine: a deliberate stub with no effect.
pub fn jsr(inter: &mut CPUInterface)
    ensures
        unchanged_spec(*old(inter), *final(inter)),
{
}

/// Return from subroutine: a deliberate stub with no effect.
pub fn rts(inter: &mut CPUInterface)
    ensures
        unchanged_spec(*old(inter), *final(inter)),
{
}

/* #######################  Branches  ####################### */

/// Branch on carry clear: a deliberate stub with no effect.
pub fn bcc(inter: &mut CPUInterface)
    ensures
        unchanged_spec(*old(inter), *final(inter)),
{
}

/// Branch on carry set: a deliberate stub with no effect.
pub fn bcs(inter: &mut CPUInterface)
    ensures
        unchanged_spec(*old(inter), *final(inter)),
{
}

/// Branch on equal: a deliberate stub with no effect.
pub fn beq(inter: &mut CPUInterface)
    ensures
        unchanged_spec(*old(inter), *final(inter)),
{
}

/// Branch on minus: a deliberate stub with no effect.
pub fn bmi(inter: &mut CPUInterface)
    ensures
        unchanged_spec(*old(inter), *final(inter)),
{
}

/// Branch on not equal: a deliberate stub with no effect.
pub fn bne(inter: &mut CPUInterface)
    ensures
        unchanged_spec(*old(inter), *final(inter)),
{
}

/// Branch on plus: a deliberate stub with no effect.
pub fn bpl(inter: &mut CPUInterface)
    ensures
        unchanged_spec(*old(inter), *final(inter)),
{
}

/// Branch on overflow clear: a deliberate stub with no effect.
pub fn bvc(inter: &mut CPUInterface)
    ensures
        unchanged_spec(*old(inter), *final(inter)),
{
}

/// Branch on overflow set: a deliberate stub with no effect.
pub fn bvs(inter: &mut CPUInterface)
    ensures
        unchanged_spec(*old(inter), *final(inter)),
{
}

/* #######################  Status Flag Changes  ####################### */

pub fn clc(inter: &mut CPUInterface)
    ensures
        flag_write_spec(*old(inter), *final(inter), FlagPositionOffset::Carry, false),
{
    clear_flag(inter, FlagPositionOffset::Carry);
}

/// Decimal mode is not implemented: raise a notice and change nothing.
pub fn cld(inter: &mut CPUInterface)
    ensures
        notice_spec(
            *old(inter),
            *final(inter),
            Notice::UnimplementedFeature(Feature::DecimalMode),
        ),
{
    on_unimplemented_feature(inter, Feature::DecimalMode);
}

/// Interrupts are not supported: raise a notice and change nothing.
pub fn cli(inter: &mut CPUInterface)
    ensures
        notice_spec(
            *old(inter),
            *final(inter),
            Notice::UnsupportedFeature(Feature::Interrupts),
        ),
{
    on_unsupported_feature(inter, Feature::Interrupts);
}

pub fn clv(inter: &mut CPUInterface)
    ensures
        flag_write_spec(*old(inter), *final(inter), FlagPositionOffset::Overflow, false),
{
    clear_flag(inter, FlagPositionOffset::Overflow);
}

pub fn sec(inter: &mut CPUInterface)
    ensures
        flag_write_spec(*old(inter), *final(inter), FlagPositionOffset::Carry, true),
{
    set_flag(inter, FlagPositionOffset::Carry);
}

/// Decimal mode is not implemented: raise a notice and change nothing.
pub fn sed(inter: &mut CPUInterface)
    ensures
        notice_spec(
            *old(inter),
            *final(inter),
            Notice::UnimplementedFeature(Feature::DecimalMode),
        ),
{
    on_unimplemented_feature(inter, Feature::DecimalMode);
}

/// Interrupts are not supported: raise a notice and change nothing.
pub fn sei(inter: &mut CPUInterface)
    ensures
        notice_spec(
            *old(inter),
            *final(inter),
            Notice::UnsupportedFeature(Feature::Interrupts),
        ),
{
    on_unsupported_feature(inter, Feature::Interrupts);
}

/* #######################  System Functions  ####################### */

/// Break: a deliberate stub with no effect.
pub fn brk(inter: &mut CPUInterface)
    ensures
        unchanged_spec(*old(inter), *final(inter)),
{
}

pub fn nop(inter: &mut CPUInterface)
    ensures
        unchanged_spec(*old(inter), *final(inter)),
{
}

/// Return from interrupt: a deliberate stub with no effect.
pub fn rti(inter: &mut CPUInterface)
    ensures
        unchanged_spec(*old(inter), *final(inter)),
{
}

/// Dispatch one operation by mnemonic.
pub fn run_operation(inter: &mut CPUInterface, m: Mnemonic)
    ensures
        op_effect(m, *old(inter), *final(inter)),
{
    proof {
        reveal(op_effect);
    }
    match m {
        Mnemonic::Lda => lda(inter),
        Mnemonic::Ldx => ldx(inter),
        Mnemonic::Ldy => ldy(inter),
        Mnemonic::Sta => sta(inter),
        Mnemonic::Sty => sty(inter),
        Mnemonic::Stx => stx(inter),
        Mnemonic::Tax => tax(inter),
        Mnemonic::Tay => tay(inter),
        Mnemonic::Txa => txa(inter),
        Mnemonic::Tya => tya(inter),
        Mnemonic::Tsx => tsx(inter),
        Mnemonic::Txs => txs(inter),
        Mnemonic::Pha => pha(inter),
        Mnemonic::Php => php(inter),
        Mnemonic::Pla => pla(inter),
        Mnemonic::Plp => plp(inter),
        Mnemonic::And => and(inter),
        Mnemonic::Eor => eor(inter),
        Mnemonic::Ora => ora(inter),
        Mnemonic::Bit => bit(inter),
        Mnemonic::Adc => adc(inter),
        Mnemonic::Sbc => sbc(inter),
        Mnemonic::Cmp => cmp(inter),
        Mnemonic::Cpx => cpx(inter),
        Mnemonic::Cpy => cpy(inter),
        Mnemonic::Inc => inc(inter),
        Mnemonic::Inx => inx(inter),
        Mnemonic::Iny => iny(inter),
        Mnemonic::Dec => dec(inter),
        Mnemonic::Dex => dex(inter),
        Mnemonic::Dey => dey(inter),
        Mnemonic::Asl => asl(inter),
        Mnemonic::Lsr => lsr(inter),
        Mnemonic::Rol => rol(inter),
        Mnemonic::Ror => ror(inter),
        Mnemonic::Jmp => jmp(inter),
        Mnemonic::Jsr => jsr(inter),
        Mnemonic::Rts => rts(inter),
        Mnemonic::Bcc => bcc(inter),
        Mnemonic::Bcs => bcs(inter),
        Mnemonic::Beq => beq(inter),
        Mnemonic::Bmi => bmi(inter),
        Mnemonic::Bne => bne(inter),
        Mnemonic::Bpl => bpl(inter),
        Mnemonic::Bvc => bvc(inter),
        Mnemonic::Bvs => bvs(inter),
        Mnemonic::Clc => clc(inter),
        Mnemonic::Cld => cld(inter),
        Mnemonic::Cli => cli(inter),
        Mnemonic::Clv => clv(inter),
        Mnemonic::Sec => sec(inter),
        Mnemonic::Sed => sed(inter),
        Mnemonic::Sei => sei(inter),
        Mnemonic::Brk => brk(inter),
        Mnemonic::Nop => nop(inter),
        Mnemonic::Rti => rti(inter),
    }
}

} // verus!
