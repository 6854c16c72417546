use vstd::prelude::*;

use crate::bus::Bus;
use crate::mem::MemManager;
use crate::registers::Registers;

verus! {

/// A capability the engine does not provide.
#[derive(Clone, Copy, PartialEq, Eq, Structural, Debug)]
pub enum Feature {
    /// Decimal-mode arithmetic (CLD/SED); might be implemented in the future.
    DecimalMode,
    /// Interrupt control (CLI/SEI).
    Interrupts,
}

/// A host-visible notification. Execution continues after raising one: these
/// signal graceful degradation, never a halt.
#[derive(Clone, Copy, PartialEq, Eq, Structural, Debug)]
pub enum Notice {
    /// A feature the engine deliberately does not support was invoked; the
    /// machine state is unchanged.
    UnsupportedFeature(Feature),
    /// A feature that is not yet implemented, but might be in the future, was
    /// invoked; the machine state is unchanged.
    UnimplementedFeature(Feature),
    /// A bus write reached read-only media and was rejected.
    UnsupportedWrite,
}

/// Everything an operation or addressing micro-step may touch during one
/// tick: the CPU registers, the memory manager (bus and devices), the flag
/// saying whether the in-flight instruction targets memory or the
/// accumulator, and the latest host-visible notice.
pub struct CPUInterface {
    pub reg: Registers,
    pub mem: MemManager,
    /// True when the instruction's target is the byte on the bus's data line;
    /// false when it is the accumulator.
    pub target_is_mem: bool,
    /// The latest notification for the host, if any.
    pub notice: Option<Notice>,
}

/// The two memory managers carry the same bus and, device by device, the
/// same registrations.
pub open spec fn mem_like(a: MemManager, b: MemManager) -> bool {
    a.bus == b.bus && a.devices@ == b.devices@
}

/// The two interface states are observably the same.
pub open spec fn iface_like(a: CPUInterface, b: CPUInterface) -> bool {
    &&& a.reg == b.reg
    &&& a.target_is_mem == b.target_is_mem
    &&& a.notice == b.notice
    &&& mem_like(a.mem, b.mem)
}

/// Nothing outside the registers changed: the bus, the devices, the target
/// flag and the notice all kept their values.
pub open spec fn same_env(pre: CPUInterface, post: CPUInterface) -> bool {
    &&& post.mem.bus == pre.mem.bus
    &&& post.mem.devices@ == pre.mem.devices@
    &&& post.target_is_mem == pre.target_is_mem
    &&& post.notice == pre.notice
}

impl CPUInterface {
    pub open spec fn wf(self) -> bool {
        self.mem.wf()
    }

    /// The value the in-flight instruction targets: the bus data byte or the
    /// accumulator.
    pub open spec fn target_value(self) -> u8 {
        if self.target_is_mem {
            self.mem.bus.data
        } else {
            self.reg.a
        }
    }

    pub fn new() -> (r: CPUInterface)
        ensures
            r.wf(),
            r.reg.all_zero(),
            r.mem.bus == (Bus { data: 0u8, addr: 0u16, rw: true }),
            r.mem.devices@.len() == 0,
            r.target_is_mem,
            r.notice is None,
    {
        CPUInterface {
            reg: Registers::new(),
            mem: MemManager::new(),
            target_is_mem: true,
            notice: None,
        }
    }

    /// Read the instruction's target.
    pub fn target(&self) -> (r: u8)
        ensures
            r == self.target_value(),
    {
        if self.target_is_mem {
            self.mem.data()
        } else {
            self.reg.a
        }
    }

    /// Overwrite the instruction's target.
    pub fn set_target(&mut self, v: u8)
        ensures
            old(self).target_is_mem ==> *final(self) == (CPUInterface {
                mem: MemManager { bus: Bus { data: v, ..old(self).mem.bus }, ..old(self).mem },
                ..*old(self)
            }),
            !old(self).target_is_mem ==> *final(self) == (CPUInterface {
                reg: Registers { a: v, ..old(self).reg },
                ..*old(self)
            }),
    {
        if self.target_is_mem {
            self.mem.set_data(v);
        } else {
            self.reg.a = v;
        }
    }
}

} // verus!
