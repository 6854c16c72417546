use vstd::prelude::*;

use crate::addressing::{
    a__, abs_1, abs_2, abs_3, after_abs_1, after_abs_2, after_read_at_addr, after_read_at_pc_inc,
    after_zp_1, imm, imp, op_then_write_back, read_at_pc_inc, read_stage, zp_1, zp_2,
};
use crate::iface::{iface_like, CPUInterface};
use crate::mem::{same_topology, MemManager};
use crate::opcode::{decode, modifier_of, spec_decode, spec_modifier_of, spec_steps_of, steps_of,
    AddressingMode, Mnemonic};
use crate::operations::op_effect;

verus! {

/// The in-flight instruction: its operation, its addressing mode, and the
/// index of the next micro-step to run. Created when a fetch decodes,
/// discarded when the mode's last step completes.
#[derive(Clone, Copy, PartialEq, Eq, Structural, Debug)]
pub struct Progress {
    pub op: Mnemonic,
    pub mode: AddressingMode,
    pub step: u8,
}

/// The CPU drives one micro-step of the in-flight instruction per tick.
/// It owns only the instruction-progress state; registers and memory are
/// handed to it transiently for the duration of each tick call.
pub struct CPU {
    pub progress: Option<Progress>,
}

/// The state a fetch tick leaves behind: the instruction targets memory again
/// and the bus has read the opcode byte at the program counter, which moved
/// on by one.
pub open spec fn after_fetch(pre: CPUInterface) -> CPUInterface {
    after_read_at_pc_inc(CPUInterface { target_is_mem: true, ..pre })
}

/// The progress a fetched byte decodes to: step 0 of the decoded instruction,
/// or nothing when the byte is absent from the opcode table (a decode error
/// is fatal to that single instruction only, and the machine returns to the
/// fetch state).
pub open spec fn decoded_progress(byte: u8) -> Option<Progress> {
    match spec_decode(byte) {
        Some(p) => Some(Progress { op: p.0, mode: p.1, step: 0 }),
        None => None,
    }
}

/// What micro-step `step` of `mode` does to the interface state.
pub open spec fn step_effect(
    op: Mnemonic,
    mode: AddressingMode,
    step: u8,
    pre: CPUInterface,
    post: CPUInterface,
) -> bool {
    match mode {
        AddressingMode::Implied => op_effect(op, pre, post),
        AddressingMode::Immediate => op_effect(op, after_read_at_pc_inc(pre), post),
        AddressingMode::Relative => op_effect(op, after_read_at_pc_inc(pre), post),
        AddressingMode::Accumulator => op_effect(
            op,
            CPUInterface { target_is_mem: false, ..pre },
            post,
        ),
        AddressingMode::ZeroPage => {
            if step == 0 {
                iface_like(post, after_zp_1(pre))
            } else {
                crate::addressing::final_step_effect(op, spec_modifier_of(op), pre, post)
            }
        },
        AddressingMode::Absolute => {
            if step == 0 {
                iface_like(post, after_abs_1(pre))
            } else if step == 1 {
                iface_like(post, after_abs_2(pre))
            } else {
                crate::addressing::final_step_effect(op, spec_modifier_of(op), pre, post)
            }
        },
    }
}

/// One CPU tick, as a relation between the progress state and the interface
/// state before and after. With no instruction in flight the tick is a fetch:
/// the opcode byte at the program counter is read and decoded. Otherwise the
/// in-flight instruction's next micro-step runs and the instruction completes
/// when its mode's last step has run.
pub open spec fn tick_rel(
    pre_p: Option<Progress>,
    post_p: Option<Progress>,
    pre: CPUInterface,
    post: CPUInterface,
) -> bool {
    match pre_p {
        None => {
            &&& iface_like(post, after_fetch(pre))
            &&& post_p == decoded_progress(after_fetch(pre).mem.bus.data)
        },
        Some(pr) => {
            &&& step_effect(pr.op, pr.mode, pr.step, pre, post)
            &&& post_p == (if pr.step + 1 == spec_steps_of(pr.mode) {
                None
            } else {
                Some(Progress { step: (pr.step + 1) as u8, ..pr })
            })
        },
    }
}

/// `n` sequential ticks, as a relation between the progress and interface
/// states before and after: for a non-positive count nothing happens, and
/// otherwise one tick leads to a state from which `n - 1` more ticks lead to
/// the final state.
pub open spec fn ticks_rel(
    n: int,
    pre_p: Option<Progress>,
    post_p: Option<Progress>,
    pre: CPUInterface,
    post: CPUInterface,
) -> bool
    decreases n,
{
    if n <= 0 {
        post_p == pre_p && post == pre
    } else {
        exists|mid_p: Option<Progress>, mid: CPUInterface|
            #[trigger] tick_rel(pre_p, mid_p, pre, mid) && ticks_rel(n - 1, mid_p, post_p, mid, post)
    }
}

/// A run of `n` ticks followed by one more tick is a run of `n + 1` ticks.
pub proof fn lemma_ticks_rel_snoc(
    n: int,
    p0: Option<Progress>,
    p1: Option<Progress>,
    p2: Option<Progress>,
    i0: CPUInterface,
    i1: CPUInterface,
    i2: CPUInterface,
)
    requires
        n >= 0,
        ticks_rel(n, p0, p1, i0, i1),
        tick_rel(p1, p2, i1, i2),
    ensures
        ticks_rel(n + 1, p0, p2, i0, i2),
    decreases n,
{
    if n <= 0 {
        assert(tick_rel(p0, p2, i0, i2) && ticks_rel(n + 1 - 1, p2, p2, i2, i2));
    } else {
        let (mp, mi) = choose|mp: Option<Progress>, mi: CPUInterface|
            #[trigger] tick_rel(p0, mp, i0, mi) && ticks_rel(n - 1, mp, p1, mi, i1);
        lemma_ticks_rel_snoc(n - 1, mp, p1, p2, mi, i1, i2);
        assert(tick_rel(p0, mp, i0, mi) && ticks_rel(n + 1 - 1, mp, p2, mi, i2));
    }
}

/// Two observably equal memory managers read the same byte at every address.
proof fn lemma_like_read_value(a: MemManager, b: MemManager, addr: u16)
    requires
        a.devices@ == b.devices@,
    ensures
        a.read_value(addr) == b.read_value(addr),
{
}

/// The operation effects only look at the observable parts of the
/// pre-state, so they transfer between observably equal pre-states.
#[verifier::rlimit(100)]
proof fn lemma_op_effect_like(
    m: Mnemonic,
    a: CPUInterface,
    b: CPUInterface,
    post: CPUInterface,
)
    requires
        iface_like(a, b),
        op_effect(m, b, post),
    ensures
        op_effect(m, a, post),
{
    reveal(op_effect);
}

/// The fetch and addressing micro-step transformers produce observably equal
/// results from observably equal inputs.
proof fn lemma_like_transformers(a: CPUInterface, b: CPUInterface)
    requires
        iface_like(a, b),
    ensures
        iface_like(after_read_at_pc_inc(a), after_read_at_pc_inc(b)),
        after_read_at_pc_inc(a).mem.bus.data == after_read_at_pc_inc(b).mem.bus.data,
        iface_like(after_fetch(a), after_fetch(b)),
        after_fetch(a).mem.bus.data == after_fetch(b).mem.bus.data,
        iface_like(after_read_at_addr(a), after_read_at_addr(b)),
        iface_like(after_zp_1(a), after_zp_1(b)),
        iface_like(after_abs_1(a), after_abs_1(b)),
        iface_like(after_abs_2(a), after_abs_2(b)),
{
    lemma_like_read_value(a.mem, b.mem, a.reg.pc);
    lemma_like_read_value(a.mem, b.mem, a.mem.bus.addr);
}

/// The tick relation only looks at the observable parts of the pre-state, so
/// it transfers between observably equal pre-states.
pub proof fn lemma_tick_rel_like(
    pre_p: Option<Progress>,
    post_p: Option<Progress>,
    a: CPUInterface,
    b: CPUInterface,
    post: CPUInterface,
)
    requires
        iface_like(a, b),
        tick_rel(pre_p, post_p, b, post),
    ensures
        tick_rel(pre_p, post_p, a, post),
{
    lemma_like_transformers(a, b);
    match pre_p {
        None => {
        },
        Some(pr) => {
            match pr.mode {
                AddressingMode::Implied => {
                    lemma_op_effect_like(pr.op, a, b, post);
                },
                AddressingMode::Immediate => {
                    lemma_op_effect_like(
                        pr.op,
                        after_read_at_pc_inc(a),
                        after_read_at_pc_inc(b),
                        post,
                    );
                },
                AddressingMode::Relative => {
                    lemma_op_effect_like(
                        pr.op,
                        after_read_at_pc_inc(a),
                        after_read_at_pc_inc(b),
                        post,
                    );
                },
                AddressingMode::Accumulator => {
                    lemma_op_effect_like(
                        pr.op,
                        CPUInterface { target_is_mem: false, ..a },
                        CPUInterface { target_is_mem: false, ..b },
                        post,
                    );
                },
                AddressingMode::ZeroPage => {
                    if pr.step != 0 {
                        lemma_final_step_like(pr.op, spec_modifier_of(pr.op), a, b, post);
                    }
                },
                AddressingMode::Absolute => {
                    if pr.step != 0 && pr.step != 1 {
                        lemma_final_step_like(pr.op, spec_modifier_of(pr.op), a, b, post);
                    }
                },
            }
        },
    }
}

/// The final micro-step's relation transfers between observably equal
/// pre-states.
proof fn lemma_final_step_like(
    op: Mnemonic,
    md: crate::opcode::AddressingModifier,
    a: CPUInterface,
    b: CPUInterface,
    post: CPUInterface,
)
    requires
        iface_like(a, b),
        crate::addressing::final_step_effect(op, md, b, post),
    ensures
        crate::addressing::final_step_effect(op, md, a, post),
{
    lemma_like_transformers(a, b);
    assert(iface_like(read_stage(md, a), read_stage(md, b)));
    if md.spec_is_write() {
        let mid2 = choose|mid2: CPUInterface| op_then_write_back(op, read_stage(md, b), mid2, post);
        lemma_op_effect_like(op, read_stage(md, a), read_stage(md, b), mid2);
        assert(op_then_write_back(op, read_stage(md, a), mid2, post));
    } else {
        lemma_op_effect_like(op, read_stage(md, a), read_stage(md, b), post);
    }
}

/// A CPU tick never alters the device map: the registered ranges, uids,
/// kinds and sizes all survive; only registers, the bus, device contents and
/// the notice may change.
pub proof fn lemma_tick_rel_topology(
    pre_p: Option<Progress>,
    post_p: Option<Progress>,
    pre: CPUInterface,
    post: CPUInterface,
)
    requires
        pre.wf(),
        tick_rel(pre_p, post_p, pre, post),
    ensures
        same_topology(pre.mem.devices@, post.mem.devices@),
{
    reveal(op_effect);
    match pre_p {
        None => {
        },
        Some(pr) => {
            match pr.mode {
                AddressingMode::ZeroPage => {
                    if pr.step != 0 {
                        lemma_final_step_topology(pr.op, spec_modifier_of(pr.op), pre, post);
                    }
                },
                AddressingMode::Absolute => {
                    if pr.step != 0 && pr.step != 1 {
                        lemma_final_step_topology(pr.op, spec_modifier_of(pr.op), pre, post);
                    }
                },
                _ => {
                },
            }
        },
    }
}

/// The final micro-step never alters the device map: an accepted write only
/// rewrites one byte of the covering device's contents.
proof fn lemma_final_step_topology(
    op: Mnemonic,
    md: crate::opcode::AddressingModifier,
    pre: CPUInterface,
    post: CPUInterface,
)
    requires
        pre.wf(),
        crate::addressing::final_step_effect(op, md, pre, post),
    ensures
        same_topology(pre.mem.devices@, post.mem.devices@),
{
    reveal(op_effect);
    if md.spec_is_write() {
        let mid2 = choose|mid2: CPUInterface| op_then_write_back(op, read_stage(md, pre), mid2, post);
        assert(op_then_write_back(op, read_stage(md, pre), mid2, post));
        assert(same_topology(pre.mem.devices@, mid2.mem.devices@));
        assert(mid2.mem.devices@ == pre.mem.devices@);
        let i = crate::mem::find_covering(mid2.mem.devices@, mid2.mem.bus.addr);
        crate::mem::lemma_find_covering_props(mid2.mem.devices@, mid2.mem.bus.addr);
        assert forall|j: int| 0 <= j < mid2.mem.devices@.len() implies {
            let h = mid2.mem.devices@[j];
            let g = #[trigger] post.mem.devices@[j];
            &&& g.start == h.start
            &&& g.end == h.end
            &&& g.uid == h.uid
            &&& g.device.kind() == h.device.kind()
            &&& g.device.contents().len() == h.device.contents().len()
        } by {
            if j == i && mid2.mem.devices@[i].device.writable() {
                assert(post.mem.devices@[j].device.contents().len()
                    == mid2.mem.devices@[j].device.contents().update(
                    mid2.mem.bus.addr - mid2.mem.devices@[j].start,
                    mid2.mem.bus.data,
                ).len());
            }
        }
    }
}

/// One tick touches at most the device covering the bus's effective address:
/// every other registered device keeps its exact state, and when no device
/// covers the address (an unmapped read yields the sentinel and an unmapped
/// write is silently dropped), every device is untouched.
pub proof fn lemma_tick_rel_device_isolation(
    pre_p: Option<Progress>,
    post_p: Option<Progress>,
    pre: CPUInterface,
    post: CPUInterface,
)
    requires
        pre.wf(),
        tick_rel(pre_p, post_p, pre, post),
    ensures
        forall|j: int|
            0 <= j < pre.mem.devices@.len() && j != crate::mem::find_covering(
                pre.mem.devices@,
                pre.mem.bus.addr,
            ) ==> #[trigger] post.mem.devices@[j] == pre.mem.devices@[j],
        crate::mem::find_covering(pre.mem.devices@, pre.mem.bus.addr) == -1
            ==> post.mem.devices@ == pre.mem.devices@,
{
    reveal(op_effect);
    match pre_p {
        None => {
        },
        Some(pr) => {
            match pr.mode {
                AddressingMode::ZeroPage => {
                    if pr.step != 0 {
                        lemma_final_step_isolation(pr.op, spec_modifier_of(pr.op), pre, post);
                    }
                },
                AddressingMode::Absolute => {
                    if pr.step != 0 && pr.step != 1 {
                        lemma_final_step_isolation(pr.op, spec_modifier_of(pr.op), pre, post);
                    }
                },
                _ => {
                },
            }
        },
    }
    if crate::mem::find_covering(pre.mem.devices@, pre.mem.bus.addr) == -1 {
        assert(post.mem.devices@ =~= pre.mem.devices@);
    }
}

/// The final micro-step touches at most the device covering the effective
/// address: the optional read changes no device and the optional write back
/// reaches only the covering one.
proof fn lemma_final_step_isolation(
    op: Mnemonic,
    md: crate::opcode::AddressingModifier,
    pre: CPUInterface,
    post: CPUInterface,
)
    requires
        pre.wf(),
        crate::addressing::final_step_effect(op, md, pre, post),
    ensures
        forall|j: int|
            0 <= j < pre.mem.devices@.len() && j != crate::mem::find_covering(
                pre.mem.devices@,
                pre.mem.bus.addr,
            ) ==> #[trigger] post.mem.devices@[j] == pre.mem.devices@[j],
{
    reveal(op_effect);
    if md.spec_is_write() {
        let mid2 = choose|mid2: CPUInterface| op_then_write_back(op, read_stage(md, pre), mid2, post);
        assert(op_then_write_back(op, read_stage(md, pre), mid2, post));
        assert(mid2.mem.devices@ == pre.mem.devices@);
        assert(mid2.mem.bus.addr == pre.mem.bus.addr);
    }
}

impl CPU {
    /// An in-flight step index never runs past its mode's step count.
    pub open spec fn wf(self) -> bool {
        match self.progress {
            Some(pr) => pr.step < spec_steps_of(pr.mode),
            None => true,
        }
    }

    pub fn new() -> (r: CPU)
        ensures
            r.wf(),
            r.progress is None,
    {
        CPU { progress: None }
    }

    /// A reset aborts any in-flight micro-step sequence and returns to the
    /// fetch state.
    pub fn reset(&mut self)
        ensures
            final(self).wf(),
            final(self).progress is None,
    {
        self.progress = None;
    }

    /// Drive one micro-step of the in-flight instruction, or fetch and decode
    /// the next instruction when none is in flight.
    pub fn tick(&mut self, inter: &mut CPUInterface)
        requires
            old(self).wf(),
            old(inter).wf(),
        ensures
            final(self).wf(),
            final(inter).wf(),
            tick_rel(old(self).progress, final(self).progress, *old(inter), *final(inter)),
            same_topology(old(inter).mem.devices@, final(inter).mem.devices@),
    {
        proof {
            reveal(op_effect);
        }
        match self.progress {
            None => {
                inter.target_is_mem = true;
                read_at_pc_inc(inter);
                let b = inter.mem.data();
                match decode(b) {
                    Ok(decoded) => {
                        self.progress = Some(
                            Progress { op: decoded.0, mode: decoded.1, step: 0 },
                        );
                    },
                    Err(_) => {
                        self.progress = None;
                    },
                }
            },
            Some(pr) => {
                let md = modifier_of(pr.op);
                match pr.mode {
                    AddressingMode::Implied => imp(inter, pr.op, md),
                    AddressingMode::Immediate => imm(inter, pr.op, md),
                    AddressingMode::Relative => imm(inter, pr.op, md),
                    AddressingMode::Accumulator => a__(inter, pr.op, md),
                    AddressingMode::ZeroPage => {
                        if pr.step == 0 {
                            zp_1(inter, pr.op, md);
                        } else {
                            zp_2(inter, pr.op, md);
                        }
                    },
                    AddressingMode::Absolute => {
                        if pr.step == 0 {
                            abs_1(inter, pr.op, md);
                        } else if pr.step == 1 {
                            abs_2(inter, pr.op, md);
                        } else {
                            abs_3(inter, pr.op, md);
                        }
                    },
                }
                let next = pr.step + 1;
                if next == steps_of(pr.mode) {
                    self.progress = None;
                } else {
                    self.progress = Some(Progress { op: pr.op, mode: pr.mode, step: next });
                }
            },
        }
    }
}

} // verus!
