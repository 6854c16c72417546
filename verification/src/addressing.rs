use vstd::prelude::*;

use crate::bus::Bus;
use crate::iface::{CPUInterface, Notice};
use crate::mem::{find_covering, MemManager, WriteOutcome};
use crate::opcode::{AddressingModifier, Mnemonic};
use crate::operations::{op_effect, run_operation};
use crate::registers::Registers;

verus! {

/// Addition on 16-bit words, wrapping modulo 65536.
pub open spec fn wadd16(a: u16, b: u16) -> u16 {
    if a + b > 65535 {
        (a + b - 65536) as u16
    } else {
        (a + b) as u16
    }
}

/// A 16-bit address assembled from a high and a low byte.
pub open spec fn addr_from(hi: u8, lo: u8) -> u16 {
    ((hi as u16) << 8u16) | (lo as u16)
}

/// Replacing first the high byte and then the low byte of an address yields
/// exactly the address assembled from the two bytes.
proof fn lemma_addr_hi_lo(a: u16, hi: u8, lo: u8)
    by (bit_vector)
    ensures
        ((((a & 0x00FFu16) | ((hi as u16) << 8u16)) & 0xFF00u16) | (lo as u16)) == (((hi as u16)
            << 8u16) | (lo as u16)),
        (((0u8 as u16) << 8u16) | (lo as u16)) == lo as u16,
{
}

/// The state after one operand fetch: the bus reads the byte at the program
/// counter and the program counter advances by one, wrapping.
pub open spec fn after_read_at_pc_inc(pre: CPUInterface) -> CPUInterface {
    CPUInterface {
        reg: Registers { pc: wadd16(pre.reg.pc, 1), ..pre.reg },
        mem: MemManager {
            bus: Bus { data: pre.mem.read_value(pre.reg.pc), addr: pre.reg.pc, rw: true },
            ..pre.mem
        },
        ..pre
    }
}

/// The state after a read transaction at the bus's current address.
pub open spec fn after_read_at_addr(pre: CPUInterface) -> CPUInterface {
    CPUInterface {
        mem: MemManager {
            bus: Bus {
                data: pre.mem.read_value(pre.mem.bus.addr),
                addr: pre.mem.bus.addr,
                rw: true,
            },
            ..pre.mem
        },
        ..pre
    }
}

/// The state after the first zero-page step: the operand byte fetched at the
/// program counter becomes the low half of the effective address, the high
/// half is zero.
pub open spec fn after_zp_1(pre: CPUInterface) -> CPUInterface {
    let m = after_read_at_pc_inc(pre);
    CPUInterface {
        mem: MemManager {
            bus: Bus { addr: m.mem.bus.data as u16, ..m.mem.bus },
            ..m.mem
        },
        ..m
    }
}

/// The state after the first absolute step: the low address byte is fetched
/// at the program counter and latched in the instruction-data latch.
pub open spec fn after_abs_1(pre: CPUInterface) -> CPUInterface {
    let m = after_read_at_pc_inc(pre);
    CPUInterface { reg: Registers { itr: m.mem.bus.data, ..m.reg }, ..m }
}

/// The state after the second absolute step: the high address byte is fetched
/// at the program counter and combined with the latched low byte into the
/// effective address.
pub open spec fn after_abs_2(pre: CPUInterface) -> CPUInterface {
    let m = after_read_at_pc_inc(pre);
    CPUInterface {
        mem: MemManager {
            bus: Bus { addr: addr_from(m.mem.bus.data, m.reg.itr), ..m.mem.bus },
            ..m.mem
        },
        ..m
    }
}

/// The state after a write transaction at the bus's current address: only the
/// covering device changes, a write to an unmapped address is silently
/// dropped, and a write reaching read-only media is dropped and raises a
/// notice.
pub open spec fn write_back_effect(pre: CPUInterface, post: CPUInterface) -> bool {
    let addr = pre.mem.bus.addr;
    let i = find_covering(pre.mem.devices@, addr);
    &&& post.reg == pre.reg
    &&& post.target_is_mem == pre.target_is_mem
    &&& post.mem.bus == (Bus { rw: false, ..pre.mem.bus })
    &&& post.mem.devices@.len() == pre.mem.devices@.len()
    &&& forall|j: int|
        0 <= j < pre.mem.devices@.len() && j != i ==> #[trigger] post.mem.devices@[j]
            == pre.mem.devices@[j]
    &&& if i == -1 {
        post.mem.devices@ == pre.mem.devices@ && post.notice == pre.notice
    } else if pre.mem.devices@[i].device.writable() {
        let h = pre.mem.devices@[i];
        &&& post.mem.devices@[i].device.contents() == h.device.contents().update(
            addr - h.start,
            pre.mem.bus.data,
        )
        &&& post.mem.devices@[i].device.kind() == h.device.kind()
        &&& post.mem.devices@[i].start == h.start
        &&& post.mem.devices@[i].end == h.end
        &&& post.mem.devices@[i].uid == h.uid
        &&& post.notice == pre.notice
    } else {
        post.mem.devices@ == pre.mem.devices@ && post.notice == Some(Notice::UnsupportedWrite)
    }
}

/// The operation ran between the optional read and the write back: `mid2` is
/// the state right after the operation, before the write transaction.
pub open spec fn op_then_write_back(
    op_fn: Mnemonic,
    mid1: CPUInterface,
    mid2: CPUInterface,
    post: CPUInterface,
) -> bool {
    op_effect(op_fn, mid1, mid2) && write_back_effect(mid2, post)
}

/// The state after the optional read transaction that precedes a read-tagged
/// operation: unchanged when the operation is not tagged read.
pub open spec fn read_stage(op_mod: AddressingModifier, pre: CPUInterface) -> CPUInterface {
    if op_mod.spec_is_read() {
        after_read_at_addr(pre)
    } else {
        pre
    }
}

/// The mode's final micro-step: a bus read at the effective address if the
/// operation is tagged read, then the operation itself, then a bus write at
/// the effective address if it is tagged write.
pub open spec fn final_step_effect(
    op_fn: Mnemonic,
    op_mod: AddressingModifier,
    pre: CPUInterface,
    post: CPUInterface,
) -> bool {
    if op_mod.spec_is_write() {
        exists|mid2: CPUInterface|
            #[trigger] op_then_write_back(op_fn, read_stage(op_mod, pre), mid2, post)
    } else {
        op_effect(op_fn, read_stage(op_mod, pre), post)
    }
}

/// Introduction form of `final_step_effect` for the write-tagged case, with
/// the intermediate state after the operation as an explicit witness.
proof fn lemma_final_step_intro(
    op_fn: Mnemonic,
    op_mod: AddressingModifier,
    pre: CPUInterface,
    mid2: CPUInterface,
    post: CPUInterface,
)
    requires
        op_mod.spec_is_write(),
        op_effect(op_fn, read_stage(op_mod, pre), mid2),
        write_back_effect(mid2, post),
    ensures
        final_step_effect(op_fn, op_mod, pre, post),
{
    assert(op_then_write_back(op_fn, read_stage(op_mod, pre), mid2, post));
}

/// Every operation leaves the device registrations' views unchanged or only
/// rewrites contents of matching length, so well-formedness survives it.
proof fn lemma_op_preserves_wf(m: Mnemonic, pre: CPUInterface, post: CPUInterface)
    requires
        pre.wf(),
        op_effect(m, pre, post),
    ensures
        post.wf(),
{
    reveal(op_effect);
    assert(post.mem.devices@ == pre.mem.devices@);
}

/// Fetch the byte at the program counter onto the bus and advance the
/// program counter by one, wrapping.
pub(crate) fn read_at_pc_inc(inter: &mut CPUInterface)
    requires
        old(inter).wf(),
    ensures
        final(inter).wf(),
        *final(inter) == after_read_at_pc_inc(*old(inter)),
{
    let pc = inter.reg.pc;
    inter.mem.set_addr(pc);
    inter.mem.read_at_addr();
    inter.reg.pc = pc.wrapping_add(1);
}

/* ####### Implied ####### */

/// Implied addressing, single step: the operation runs with no operand.
pub fn imp(inter: &mut CPUInterface, op_fn: Mnemonic, _op_mod: AddressingModifier)
    requires
        old(inter).wf(),
    ensures
        final(inter).wf(),
        op_effect(op_fn, *old(inter), *final(inter)),
{
    run_operation(inter, op_fn);
    proof {
        lemma_op_preserves_wf(op_fn, *old(inter), *inter);
    }
}

/* ####### Immediate ####### */

/// Immediate addressing, single step: the operand byte is fetched at the
/// program counter and the operation runs on it.
pub fn imm(inter: &mut CPUInterface, op_fn: Mnemonic, _op_mod: AddressingModifier)
    requires
        old(inter).wf(),
    ensures
        final(inter).wf(),
        op_effect(op_fn, after_read_at_pc_inc(*old(inter)), *final(inter)),
{
    read_at_pc_inc(inter);
    let ghost mid = *inter;
    run_operation(inter, op_fn);
    proof {
        lemma_op_preserves_wf(op_fn, mid, *inter);
    }
}

/* ####### Accumulator ####### */

/// Accumulator addressing, single step: the operation targets the
/// accumulator instead of memory.
pub fn a__(inter: &mut CPUInterface, op_fn: Mnemonic, _op_mod: AddressingModifier)
    requires
        old(inter).wf(),
    ensures
        final(inter).wf(),
        op_effect(
            op_fn,
            CPUInterface { target_is_mem: false, ..*old(inter) },
            *final(inter),
        ),
{
    inter.target_is_mem = false;
    let ghost mid = *inter;
    run_operation(inter, op_fn);
    proof {
        lemma_op_preserves_wf(op_fn, mid, *inter);
    }
}

/* ####### Zero Page ####### */

/// First zero-page step: fetch the operand byte and make it the low half of
/// the effective address, with a zero high half.
pub fn zp_1(inter: &mut CPUInterface, _op_fn: Mnemonic, _op_mod: AddressingModifier)
    requires
        old(inter).wf(),
    ensures
        final(inter).wf(),
        *final(inter) == after_zp_1(*old(inter)),
{
    read_at_pc_inc(inter);

    let d = inter.mem.data();
    let ghost a1 = inter.mem.bus.addr;
    inter.mem.set_addr_hi(0);
    inter.mem.set_addr_lo(d);
    proof {
        lemma_addr_hi_lo(a1, 0u8, d);
    }
}

/// Final zero-page step: optional read at the effective address, the
/// operation, and an optional write back.
pub fn zp_2(inter: &mut CPUInterface, op_fn: Mnemonic, op_mod: AddressingModifier)
    requires
        old(inter).wf(),
    ensures
        final(inter).wf(),
        final_step_effect(op_fn, op_mod, *old(inter), *final(inter)),
{
    read_op_write(inter, op_fn, op_mod);
}

/* ####### Absolute ####### */

/// First absolute step: fetch the low address byte into the instruction-data
/// latch.
pub fn abs_1(inter: &mut CPUInterface, _op_fn: Mnemonic, _op_mod: AddressingModifier)
    requires
        old(inter).wf(),
    ensures
        final(inter).wf(),
        *final(inter) == after_abs_1(*old(inter)),
{
    read_at_pc_inc(inter);

    inter.reg.itr = inter.mem.data();
}

/// Second absolute step: fetch the high address byte and combine it with the
/// latched low byte into the effective address.
pub fn abs_2(inter: &mut CPUInterface, _op_fn: Mnemonic, _op_mod: AddressingModifier)
    requires
        old(inter).wf(),
    ensures
        final(inter).wf(),
        *final(inter) == after_abs_2(*old(inter)),
{
    read_at_pc_inc(inter);

    let d = inter.mem.data();
    let lo = inter.reg.itr;
    let ghost a1 = inter.mem.bus.addr;
    inter.mem.set_addr_hi(d);
    inter.mem.set_addr_lo(lo);
    proof {
        lemma_addr_hi_lo(a1, d, lo);
    }
}

/// Final absolute step: optional read at the effective address, the
/// operation, and an optional write back.
pub fn abs_3(inter: &mut CPUInterface, op_fn: Mnemonic, op_mod: AddressingModifier)
    requires
        old(inter).wf(),
    ensures
        final(inter).wf(),
        final_step_effect(op_fn, op_mod, *old(inter), *final(inter)),
{
    read_op_write(inter, op_fn, op_mod);
}

/// Shared body of the final micro-step: read if tagged read, run the
/// operation, write back if tagged write, raising a notice when the write
/// hits read-only media.
#[verifier::rlimit(50)]
fn read_op_write(inter: &mut CPUInterface, op_fn: Mnemonic, op_mod: AddressingModifier)
    requires
        old(inter).wf(),
    ensures
        final(inter).wf(),
        final_step_effect(op_fn, op_mod, *old(inter), *final(inter)),
{
    if op_mod.is_read() {
        inter.mem.read_at_addr();
    }
    let ghost mid1 = *inter;
    proof {
        assert(mid1 == read_stage(op_mod, *old(inter)));
    }

    run_operation(inter, op_fn);
    proof {
        lemma_op_preserves_wf(op_fn, mid1, *inter);
    }
    let ghost mid2 = *inter;

    if op_mod.is_write() {
        let out = inter.mem.write_at_addr();
        if let WriteOutcome::Rejected = out {
            inter.notice = Some(Notice::UnsupportedWrite);
        }
        proof {
            assert(write_back_effect(mid2, *inter));
            lemma_final_step_intro(op_fn, op_mod, *old(inter), mid2, *inter);
        }
    } else {
        proof {
            assert(op_effect(op_fn, mid1, mid2));
            assert(final_step_effect(op_fn, op_mod, *old(inter), *inter));
        }
    }
}

} // verus!
