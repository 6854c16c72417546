use vstd::prelude::*;

use crate::bus::Bus;
use crate::cpu::{lemma_tick_rel_like, lemma_tick_rel_topology, lemma_ticks_rel_snoc, tick_rel, ticks_rel, CPU};
use crate::device::{Device, DeviceId};
use crate::factory::{constructed_size, DeviceFactory};
use crate::iface::{iface_like, CPUInterface, Notice};
use crate::mem::{range_free, same_topology, DevHolder, DeviceRepresentation};
use crate::registers::Registers;

verus! {

/// Whether a host request to map `device` over `size` bytes at `start` is
/// accepted: the requested range must not overflow the 16-bit address space,
/// the factory must accept the kind/size pair, the range the constructed
/// device actually occupies must fit as well, and it must not overlap any
/// existing registration.
pub open spec fn add_request_ok(
    devs: Seq<DevHolder>,
    device: DeviceId,
    start: u16,
    size: u16,
) -> bool {
    &&& start + size <= 0xFFFF
    &&& constructed_size(device, size) is Some
    &&& start + constructed_size(device, size).unwrap() <= 0xFFFF
    &&& range_free(devs, start, (start + constructed_size(device, size).unwrap()) as u16)
}

/// The virtual computer: wires the CPU to the memory manager and exposes
/// tick, reset and device management to the host.
pub struct System {
    pub cpu: CPU,
    pub inter: CPUInterface,
}

impl System {
    pub open spec fn wf(self) -> bool {
        self.cpu.wf() && self.inter.wf()
    }

    pub fn new() -> (r: System)
        ensures
            r.wf(),
            r.cpu.progress is None,
            r.inter.reg.all_zero(),
            r.inter.mem.bus == (Bus { data: 0u8, addr: 0u16, rw: true }),
            r.inter.mem.devices@.len() == 0,
            r.inter.target_is_mem,
            r.inter.notice is None,
    {
        System { cpu: CPU::new(), inter: CPUInterface::new() }
    }

    /// Advance the machine one tick: tick the bus and all the devices (none
    /// of which currently has per-tick behaviour), then drive one CPU
    /// micro-step.
    pub fn tick(&mut self)
        requires
            old(self).wf(),
        ensures
            final(self).wf(),
            tick_rel(
                old(self).cpu.progress,
                final(self).cpu.progress,
                old(self).inter,
                final(self).inter,
            ),
            same_topology(old(self).inter.mem.devices@, final(self).inter.mem.devices@),
    {
        self.inter.mem.tick();
        let ghost mid = self.inter;
        self.cpu.tick(&mut self.inter);
        proof {
            assert(iface_like(old(self).inter, mid));
            lemma_tick_rel_like(
                old(self).cpu.progress,
                self.cpu.progress,
                old(self).inter,
                mid,
                self.inter,
            );
            lemma_tick_rel_topology(
                old(self).cpu.progress,
                self.cpu.progress,
                old(self).inter,
                self.inter,
            );
        }
    }

    /// Advance the machine `amm` sequential ticks: the final state is reached
    /// from the starting state by `amm` applications of the single-tick
    /// relation. A non-positive count does nothing.
    pub fn tick_x(&mut self, amm: i32)
        requires
            old(self).wf(),
        ensures
            final(self).wf(),
            ticks_rel(
                amm as int,
                old(self).cpu.progress,
                final(self).cpu.progress,
                old(self).inter,
                final(self).inter,
            ),
            amm <= 0 ==> *final(self) == *old(self),
            same_topology(old(self).inter.mem.devices@, final(self).inter.mem.devices@),
    {
        let mut k: i32 = 0;
        while k < amm
            invariant
                self.wf(),
                0 <= k,
                amm > 0 ==> k <= amm,
                amm <= 0 ==> k == 0 && *self == *old(self),
                ticks_rel(
                    k as int,
                    old(self).cpu.progress,
                    self.cpu.progress,
                    old(self).inter,
                    self.inter,
                ),
                same_topology(old(self).inter.mem.devices@, self.inter.mem.devices@),
            decreases amm - k,
        {
            let ghost (mid_p, mid) = (self.cpu.progress, self.inter);
            self.tick();
            proof {
                lemma_ticks_rel_snoc(
                    k as int,
                    old(self).cpu.progress,
                    mid_p,
                    self.cpu.progress,
                    old(self).inter,
                    mid,
                    self.inter,
                );
            }
            k = k + 1;
        }
        proof {
            if amm > 0 {
                assert(k == amm);
            }
        }
    }

    /// Reset the system, clearing all non-persistent data containers: the
    /// registers and the bus are zeroed, any in-flight instruction is
    /// aborted, volatile device contents are zeroed, and persistent contents
    /// (ROM) survive.
    pub fn reset_system(&mut self)
        requires
            old(self).wf(),
        ensures
            final(self).wf(),
            final(self).cpu.progress is None,
            final(self).inter.reg.all_zero(),
            final(self).inter.mem.bus == (Bus { data: 0u8, addr: 0u16, rw: true }),
            final(self).inter.target_is_mem == old(self).inter.target_is_mem,
            final(self).inter.notice == old(self).inter.notice,
            final(self).inter.mem.devices@.len() == old(self).inter.mem.devices@.len(),
            forall|j: int|
                0 <= j < old(self).inter.mem.devices@.len() ==> {
                    let h = old(self).inter.mem.devices@[j];
                    let g = #[trigger] final(self).inter.mem.devices@[j];
                    &&& g.device.kind() == h.device.kind()
                    &&& g.start == h.start
                    &&& g.end == h.end
                    &&& g.uid == h.uid
                    &&& g.device.contents().len() == h.device.contents().len()
                    &&& (h.device.kind() == DeviceId::Rom ==> g.device.contents()
                        == h.device.contents())
                    &&& (h.device.kind() != DeviceId::Rom ==> forall|k: int|
                        0 <= k < g.device.contents().len() ==> g.device.contents()[k] == 0u8)
                },
    {
        self.cpu.reset();
        self.inter.reg.reset();
        self.inter.mem.reset_bus();
        self.inter.mem.reset_devices();
    }

    /// Reset the system, clearing all data containers, including persistent
    /// ones like the ROM.
    pub fn reset_hard(&mut self)
        requires
            old(self).wf(),
        ensures
            final(self).wf(),
            final(self).cpu.progress is None,
            final(self).inter.reg.all_zero(),
            final(self).inter.mem.bus == (Bus { data: 0u8, addr: 0u16, rw: true }),
            final(self).inter.target_is_mem == old(self).inter.target_is_mem,
            final(self).inter.notice == old(self).inter.notice,
            final(self).inter.mem.devices@.len() == old(self).inter.mem.devices@.len(),
            forall|j: int|
                0 <= j < old(self).inter.mem.devices@.len() ==> {
                    let h = old(self).inter.mem.devices@[j];
                    let g = #[trigger] final(self).inter.mem.devices@[j];
                    &&& g.device.kind() == h.device.kind()
                    &&& g.start == h.start
                    &&& g.end == h.end
                    &&& g.uid == h.uid
                    &&& g.device.contents().len() == h.device.contents().len()
                    &&& forall|k: int|
                        0 <= k < g.device.contents().len() ==> g.device.contents()[k] == 0u8
                },
    {
        self.cpu.reset();
        self.inter.reg.reset();
        self.inter.mem.reset_bus();
        self.inter.mem.reset_devices_hard();
    }

    /// Construct a device of the given kind and size and map it at `start`
    /// with the caller-chosen uid. Returns false, registering nothing, when
    /// the requested or actual range would overflow the address space, when
    /// the factory rejects the kind/size pair, or when the range overlaps an
    /// existing registration.
    pub fn add_device_with_uid(&mut self, device: DeviceId, start: u16, size: u16, uid: u16) -> (r:
        bool)
        requires
            old(self).wf(),
        ensures
            final(self).wf(),
            final(self).cpu == old(self).cpu,
            final(self).inter.reg == old(self).inter.reg,
            final(self).inter.mem.bus == old(self).inter.mem.bus,
            final(self).inter.target_is_mem == old(self).inter.target_is_mem,
            final(self).inter.notice == old(self).inter.notice,
            r == add_request_ok(old(self).inter.mem.devices@, device, start, size),
            !r ==> final(self).inter.mem.devices@ == old(self).inter.mem.devices@,
            r ==> {
                let n = constructed_size(device, size).unwrap();
                let devs = final(self).inter.mem.devices@;
                &&& devs.len() == old(self).inter.mem.devices@.len() + 1
                &&& forall|j: int|
                    0 <= j < old(self).inter.mem.devices@.len() ==> #[trigger] devs[j] == old(
                        self,
                    ).inter.mem.devices@[j]
                &&& devs.last().device.kind() == device
                &&& devs.last().start == start
                &&& devs.last().end == start + n
                &&& devs.last().uid == uid
                &&& devs.last().device.contents().len() == n as int
                &&& forall|k: int|
                    0 <= k < n as int ==> devs.last().device.contents()[k] == 0u8
            },
    {
        if (u16::MAX - size) >= start {
            let result = DeviceFactory::with_size(device, size);

            match result {
                Ok(dev) => {
                    let dsz = dev.size();
                    if (u16::MAX - dsz) >= start {
                        let end = start + dsz;
                        self.inter.mem.add_device(dev, start, end, uid)
                    } else {
                        // The requested size passed the overflow check but the
                        // kind's intrinsic size does not fit at this start.
                        false
                    }
                },
                Err(_) => false,
            }
        } else {
            false
        }
    }

    /// Remove the device registration at `index`; false if the index is
    /// invalid.
    pub fn remove_device_by_index(&mut self, index: usize) -> (r: bool)
        requires
            old(self).wf(),
        ensures
            final(self).wf(),
            final(self).cpu == old(self).cpu,
            final(self).inter.reg == old(self).inter.reg,
            final(self).inter.mem.bus == old(self).inter.mem.bus,
            final(self).inter.target_is_mem == old(self).inter.target_is_mem,
            final(self).inter.notice == old(self).inter.notice,
            r == (index < old(self).inter.mem.devices@.len()),
            r ==> final(self).inter.mem.devices@ == old(self).inter.mem.devices@.remove(
                index as int,
            ),
            !r ==> final(self).inter.mem.devices@ == old(self).inter.mem.devices@,
    {
        self.inter.mem.remove_device_by(index)
    }

    /// A summary of the device registration at `index`, or `None` if it does
    /// not exist.
    pub fn device_representation_by_index(&self, index: usize) -> (r: Option<DeviceRepresentation>)
        requires
            self.wf(),
        ensures
            match r {
                Some(rep) => {
                    let h = self.inter.mem.devices@[index as int];
                    &&& index < self.inter.mem.devices@.len()
                    &&& rep.kind == h.device.kind()
                    &&& rep.start == h.start
                    &&& rep.end == h.end
                    &&& rep.uid == h.uid
                    &&& rep.size as int == h.device.contents().len()
                },
                None => index >= self.inter.mem.devices@.len(),
            },
    {
        if index < self.inter.mem.devices().len() {
            proof {
                assert(self.inter.mem.devices@[index as int].wf());
            }
            Some(DeviceRepresentation::from_dev_holder(&self.inter.mem.devices()[index]))
        } else {
            None
        }
    }

    /// A copy of the backing bytes of the device at `index`, or `None` if it
    /// does not exist. A read-only snapshot for host introspection: the
    /// storage itself never leaves the device.
    pub fn device_data_ptr_by_index(&self, index: usize) -> (r: Option<Vec<u8>>)
        ensures
            match r {
                Some(bytes) => index < self.inter.mem.devices@.len() && bytes@
                    == self.inter.mem.devices@[index as int].device.contents(),
                None => index >= self.inter.mem.devices@.len(),
            },
    {
        self.inter.mem.device_data(index)
    }

    /// Load a program image into the ROM device at `index`, starting at the
    /// beginning of its contents. Returns false, changing nothing, if the
    /// index is invalid, the device is not a ROM, or the image does not fit.
    pub fn load_rom(&mut self, index: usize, image: &Vec<u8>) -> (r: bool)
        requires
            old(self).wf(),
        ensures
            final(self).wf(),
            final(self).cpu == old(self).cpu,
            final(self).inter.reg == old(self).inter.reg,
            final(self).inter.mem.bus == old(self).inter.mem.bus,
            final(self).inter.target_is_mem == old(self).inter.target_is_mem,
            final(self).inter.notice == old(self).inter.notice,
            r == (index < old(self).inter.mem.devices@.len()
                && old(self).inter.mem.devices@[index as int].device.kind() == DeviceId::Rom
                && image@.len() <= old(self).inter.mem.devices@[
                index as int
            ].device.contents().len()),
            !r ==> final(self).inter.mem.devices@ == old(self).inter.mem.devices@,
            r ==> {
                let h = old(self).inter.mem.devices@[index as int];
                let g = final(self).inter.mem.devices@[index as int];
                &&& final(self).inter.mem.devices@.len() == old(self).inter.mem.devices@.len()
                &&& forall|j: int|
                    0 <= j < old(self).inter.mem.devices@.len() && j != index as int
                        ==> #[trigger] final(self).inter.mem.devices@[j] == old(
                        self,
                    ).inter.mem.devices@[j]
                &&& g.device.kind() == h.device.kind()
                &&& g.start == h.start
                &&& g.end == h.end
                &&& g.uid == h.uid
                &&& g.device.contents().len() == h.device.contents().len()
                &&& forall|k: int|
                    0 <= k < image@.len() ==> g.device.contents()[k] == image@[k]
                &&& forall|k: int|
                    image@.len() <= k < g.device.contents().len() ==> g.device.contents()[k]
                        == h.device.contents()[k]
            },
    {
        self.inter.mem.load_rom(index, image)
    }

    /// Point the program counter at an address, standing in for the
    /// reset-vector handling the engine does not yet have: the host uses it
    /// to start execution at a program image's origin.
    pub fn set_pc(&mut self, addr: u16)
        requires
            old(self).wf(),
        ensures
            final(self).wf(),
            *final(self) == (System {
                inter: CPUInterface {
                    reg: Registers { pc: addr, ..old(self).inter.reg },
                    ..old(self).inter
                },
                ..*old(self)
            }),
    {
        self.inter.reg.pc = addr;
    }

    /// The CPU registers, for host introspection.
    pub fn registers(&self) -> (r: Registers)
        ensures
            r == self.inter.reg,
    {
        self.inter.reg
    }

    /// Hand the latest host-visible notice to the host, clearing it.
    pub fn take_notice(&mut self) -> (r: Option<Notice>)
        ensures
            r == old(self).inter.notice,
            *final(self) == (System {
                inter: CPUInterface { notice: None, ..old(self).inter },
                ..*old(self)
            }),
    {
        let n = self.inter.notice;
        self.inter.notice = None;
        n
    }
}

} // verus!
