use vstd::prelude::*;

use crate::bus::Bus;
use crate::device::Device;

verus! {

/// A registered device together with the address range it occupies
/// (`start` inclusive, `end` exclusive) and its caller-chosen identifier.
pub struct DevHolder {
    pub device: Device,
    pub start: u16,
    pub end: u16,
    pub uid: u16,
}

impl DevHolder {
    /// The range is ordered and exactly covers the device's contents.
    pub open spec fn wf(self) -> bool {
        &&& self.start <= self.end
        &&& self.device.wf()
        &&& self.device.contents().len() == self.end - self.start
    }

    /// Whether this device's range covers `addr`.
    pub open spec fn covers(self, addr: u16) -> bool {
        self.start <= addr < self.end
    }

    pub fn device(&self) -> (r: &Device)
        ensures
            r == &self.device,
    {
        &self.device
    }
}

/// A host-facing summary of one device registration.
#[derive(Clone, Copy, PartialEq, Eq, Structural, Debug)]
pub struct DeviceRepresentation {
    pub kind: crate::device::DeviceId,
    pub start: u16,
    pub end: u16,
    pub uid: u16,
    pub size: u16,
}

impl DeviceRepresentation {
    pub fn from_dev_holder(holder: &DevHolder) -> (r: DeviceRepresentation)
        requires
            holder.wf(),
        ensures
            r.kind == holder.device.kind(),
            r.start == holder.start,
            r.end == holder.end,
            r.uid == holder.uid,
            r.size as int == holder.device.contents().len(),
    {
        DeviceRepresentation {
            kind: holder.device.kind_id(),
            start: holder.start,
            end: holder.end,
            uid: holder.uid,
            size: holder.device.size(),
        }
    }
}

/// The two registration sequences map the same device kinds and sizes over
/// the same ranges with the same uids: only contents may differ.
pub open spec fn same_topology(a: Seq<DevHolder>, b: Seq<DevHolder>) -> bool {
    &&& a.len() == b.len()
    &&& forall|i: int|
        0 <= i < a.len() ==> {
            let h = a[i];
            let g = #[trigger] b[i];
            &&& g.start == h.start
            &&& g.end == h.end
            &&& g.uid == h.uid
            &&& g.device.kind() == h.device.kind()
            &&& g.device.contents().len() == h.device.contents().len()
        }
}

/// Whether the range `[start, end)` intersects the range of `h`.
pub open spec fn overlaps(h: DevHolder, start: u16, end: u16) -> bool {
    h.start < end && start < h.end
}

/// Whether the range `[start, end)` is disjoint from every registered range.
pub open spec fn range_free(devs: Seq<DevHolder>, start: u16, end: u16) -> bool {
    forall|i: int| 0 <= i < devs.len() ==> !overlaps(#[trigger] devs[i], start, end)
}

/// Index of the first registered device whose range covers `addr`, or -1 when
/// no device covers it.
pub open spec fn find_covering(devs: Seq<DevHolder>, addr: u16) -> int
    decreases devs.len(),
{
    if devs.len() == 0 {
        -1
    } else if devs[0].covers(addr) {
        0
    } else {
        let r = find_covering(devs.drop_first(), addr);
        if r == -1 {
            -1
        } else {
            r + 1
        }
    }
}

/// What `find_covering` finds: a covering device at an index all of whose
/// predecessors miss, or -1 when every device misses.
pub proof fn lemma_find_covering_props(devs: Seq<DevHolder>, addr: u16)
    ensures
        find_covering(devs, addr) == -1 ==> forall|i: int|
            0 <= i < devs.len() ==> !(#[trigger] devs[i]).covers(addr),
        find_covering(devs, addr) != -1 ==> {
            let r = find_covering(devs, addr);
            &&& 0 <= r < devs.len()
            &&& devs[r].covers(addr)
            &&& forall|i: int| 0 <= i < r ==> !(#[trigger] devs[i]).covers(addr)
        },
    decreases devs.len(),
{
    if devs.len() > 0 && !devs[0].covers(addr) {
        lemma_find_covering_props(devs.drop_first(), addr);
        assert(forall|i: int|
            1 <= i < devs.len() ==> #[trigger] devs[i] == devs.drop_first()[i - 1]);
    }
}

/// If the first `i` devices miss `addr` and device `i` covers it, the lookup
/// finds exactly `i`.
pub proof fn lemma_find_covering_first(devs: Seq<DevHolder>, addr: u16, i: int)
    requires
        0 <= i < devs.len(),
        devs[i].covers(addr),
        forall|j: int| 0 <= j < i ==> !(#[trigger] devs[j]).covers(addr),
    ensures
        find_covering(devs, addr) == i,
    decreases i,
{
    if i == 0 {
    } else {
        assert(forall|j: int|
            0 <= j < devs.drop_first().len() ==> #[trigger] devs.drop_first()[j] == devs[j + 1]);
        lemma_find_covering_first(devs.drop_first(), addr, i - 1);
    }
}

/// If no device covers `addr`, the lookup finds nothing.
pub proof fn lemma_find_covering_none(devs: Seq<DevHolder>, addr: u16)
    requires
        forall|j: int| 0 <= j < devs.len() ==> !(#[trigger] devs[j]).covers(addr),
    ensures
        find_covering(devs, addr) == -1,
    decreases devs.len(),
{
    if devs.len() > 0 {
        assert(forall|j: int|
            0 <= j < devs.drop_first().len() ==> #[trigger] devs.drop_first()[j] == devs[j + 1]);
        lemma_find_covering_none(devs.drop_first(), addr);
    }
}

/// The outcome of a bus write dispatch.
#[derive(Clone, Copy, PartialEq, Eq, Structural, Debug)]
pub enum WriteOutcome {
    /// The covering device accepted the byte.
    Written,
    /// No device covers the address; the write was silently dropped.
    Unmapped,
    /// The covering device is read-only media and rejected the byte.
    Rejected,
}

/// Owns the bus and every registered device; maps addresses to devices and
/// dispatches read/write/tick/reset to them.
pub struct MemManager {
    pub bus: Bus,
    pub devices: Vec<DevHolder>,
}

impl MemManager {
    /// Every registered range is well-formed and no two ranges overlap, so at
    /// most one device covers any address.
    pub open spec fn wf(self) -> bool {
        &&& forall|i: int| 0 <= i < self.devices@.len() ==> (#[trigger] self.devices@[i]).wf()
        &&& forall|i: int, j: int|
            0 <= i < j < self.devices@.len() ==> !overlaps(
                #[trigger] self.devices@[i],
                (#[trigger] self.devices@[j]).start,
                self.devices@[j].end,
            )
    }

    /// The byte a read of `addr` yields: the covering device's byte, or the
    /// sentinel 0 when no device covers the address.
    pub open spec fn read_value(self, addr: u16) -> u8 {
        let i = find_covering(self.devices@, addr);
        if i == -1 {
            0u8
        } else {
            self.devices@[i].device.contents()[addr - self.devices@[i].start]
        }
    }

    pub fn new() -> (r: MemManager)
        ensures
            r.wf(),
            r.bus == (Bus { data: 0u8, addr: 0u16, rw: true }),
            r.devices@.len() == 0,
    {
        MemManager { bus: Bus::new(), devices: Vec::new() }
    }

    /// Register a device over `[start, end)`. The caller has already
    /// validated that the range matches the device's size; a range that
    /// overlaps an existing registration is rejected outright, leaving every
    /// existing registration untouched.
    pub fn add_device(&mut self, device: Device, start: u16, end: u16, uid: u16) -> (r: bool)
        requires
            old(self).wf(),
            device.wf(),
            start <= end,
            device.contents().len() == end - start,
        ensures
            final(self).wf(),
            final(self).bus == old(self).bus,
            r == range_free(old(self).devices@, start, end),
            r ==> final(self).devices@ == old(self).devices@.push(
                DevHolder { device, start, end, uid },
            ),
            !r ==> final(self).devices@ == old(self).devices@,
    {
        let n = self.devices.len();
        let mut i: usize = 0;
        while i < n
            invariant
                i <= n,
                *self == *old(self),
                old(self).wf(),
                self.devices@.len() == n,
                forall|j: int| 0 <= j < i as int ==> !overlaps(#[trigger] self.devices@[j], start, end),
            decreases n - i,
        {
            let h = &self.devices[i];
            if h.start < end && start < h.end {
                proof {
                    assert(overlaps(self.devices@[i as int], start, end));
                }
                return false;
            }
            i = i + 1;
        }
        let holder = DevHolder { device, start, end, uid };
        self.devices.push(holder);
        true
    }

    /// Remove the registration at `index`; false when the index is invalid.
    pub fn remove_device_by(&mut self, index: usize) -> (r: bool)
        requires
            old(self).wf(),
        ensures
            final(self).wf(),
            final(self).bus == old(self).bus,
            r == (index < old(self).devices@.len()),
            r ==> final(self).devices@ == old(self).devices@.remove(index as int),
            !r ==> final(self).devices@ == old(self).devices@,
    {
        if index < self.devices.len() {
            self.devices.remove(index);
            proof {
                assert(forall|k: int|
                    0 <= k < self.devices@.len() ==> #[trigger] self.devices@[k] == if k
                        < index as int {
                        old(self).devices@[k]
                    } else {
                        old(self).devices@[k + 1]
                    });
            }
            true
        } else {
            false
        }
    }

    /// Index of the device covering `addr`, if any.
    fn covering_index(&self, addr: u16) -> (r: Option<usize>)
        ensures
            match r {
                Some(i) => i < self.devices@.len() && find_covering(self.devices@, addr) == i as int
                    && self.devices@[i as int].covers(addr),
                None => find_covering(self.devices@, addr) == -1,
            },
    {
        let n = self.devices.len();
        let mut i: usize = 0;
        while i < n
            invariant
                i <= n,
                self.devices@.len() == n,
                forall|j: int| 0 <= j < i as int ==> !(#[trigger] self.devices@[j]).covers(addr),
            decreases n - i,
        {
            let h = &self.devices[i];
            if h.start <= addr && addr < h.end {
                proof {
                    lemma_find_covering_first(self.devices@, addr, i as int);
                }
                return Some(i);
            }
            i = i + 1;
        }
        proof {
            lemma_find_covering_none(self.devices@, addr);
        }
        None
    }

    /// Route the bus's current address to the covering device, read the byte
    /// at the translated offset, and put it on the bus's data line. An
    /// unmapped address reads as the sentinel 0. No device state changes.
    pub fn dispatch_read(&mut self)
        requires
            old(self).wf(),
        ensures
            final(self).wf(),
            *final(self) == (MemManager {
                bus: Bus { data: old(self).read_value(old(self).bus.addr), ..old(self).bus },
                ..*old(self)
            }),
    {
        let addr = self.bus.addr;
        match self.covering_index(addr) {
            Some(i) => {
                proof {
                    assert(self.devices@[i as int].wf());
                }
                let start = self.devices[i].start;
                let value = self.devices[i].device.read(addr - start);
                self.bus.data = value;
            },
            None => {
                self.bus.data = 0;
            },
        }
    }

    /// Route the bus's current address to the covering device and hand it the
    /// bus's data byte at the translated offset. Only the covering device
    /// changes; a write to an unmapped address is silently dropped, and
    /// read-only media reject the byte.
    pub fn dispatch_write(&mut self) -> (out: WriteOutcome)
        requires
            old(self).wf(),
        ensures
            final(self).wf(),
            final(self).bus == old(self).bus,
            final(self).devices@.len() == old(self).devices@.len(),
            forall|j: int|
                0 <= j < old(self).devices@.len() && j != find_covering(
                    old(self).devices@,
                    old(self).bus.addr,
                ) ==> #[trigger] final(self).devices@[j] == old(self).devices@[j],
            ({
                let i = find_covering(old(self).devices@, old(self).bus.addr);
                if i == -1 {
                    out == WriteOutcome::Unmapped && final(self).devices@ == old(self).devices@
                } else if old(self).devices@[i].device.writable() {
                    let h = old(self).devices@[i];
                    &&& out == WriteOutcome::Written
                    &&& final(self).devices@[i].device.contents() == h.device.contents().update(
                        old(self).bus.addr - h.start,
                        old(self).bus.data,
                    )
                    &&& final(self).devices@[i].device.kind() == h.device.kind()
                    &&& final(self).devices@[i].start == h.start
                    &&& final(self).devices@[i].end == h.end
                    &&& final(self).devices@[i].uid == h.uid
                } else {
                    out == WriteOutcome::Rejected && final(self).devices@ == old(self).devices@
                }
            }),
    {
        let addr = self.bus.addr;
        let data = self.bus.data;
        match self.covering_index(addr) {
            Some(i) => {
                proof {
                    assert(self.devices@[i as int].wf());
                }
                let start = self.devices[i].start;
                let holder = &mut self.devices[i];
                let accepted = holder.device.write(addr - start, data);
                proof {
                    if !accepted {
                        assert(self.devices@ =~= old(self).devices@);
                    }
                }
                if accepted {
                    WriteOutcome::Written
                } else {
                    WriteOutcome::Rejected
                }
            },
            None => {
                WriteOutcome::Unmapped
            },
        }
    }

    /// Tick the bus (a no-op) and then every registered device, in
    /// registration order. No current device kind has per-tick behaviour, so
    /// the observable state is unchanged.
    pub fn tick(&mut self)
        requires
            old(self).wf(),
        ensures
            final(self).wf(),
            final(self).bus == old(self).bus,
            final(self).devices@ == old(self).devices@,
    {
        let n = self.devices.len();
        let mut i: usize = 0;
        while i < n
            invariant
                i <= n,
                self.bus == old(self).bus,
                self.devices@.len() == n,
                old(self).devices@.len() == n,
                forall|j: int| 0 <= j < n as int ==> #[trigger] self.devices@[j] == old(
                    self,
                ).devices@[j],
                old(self).wf(),
            decreases n - i,
        {
            proof {
                assert(self.devices@[i as int].wf());
            }
            let holder = &mut self.devices[i];
            holder.device.tick();
            proof {
                assert(self.devices@ =~= old(self).devices@);
            }
            i = i + 1;
        }
        proof {
            assert(self.devices@ =~= old(self).devices@);
        }
    }

    /// Zero the bus lines.
    pub fn reset_bus(&mut self)
        ensures
            final(self).bus == (Bus { data: 0u8, addr: 0u16, rw: true }),
            final(self).devices == old(self).devices,
    {
        self.bus.reset();
    }

    /// System-reset every device in registration order: volatile contents are
    /// zeroed, persistent contents (ROM) survive. Ranges, uids and kinds are
    /// untouched.
    pub fn reset_devices(&mut self)
        requires
            old(self).wf(),
        ensures
            final(self).wf(),
            final(self).bus == old(self).bus,
            final(self).devices@.len() == old(self).devices@.len(),
            forall|j: int|
                0 <= j < old(self).devices@.len() ==> {
                    let h = old(self).devices@[j];
                    let g = #[trigger] final(self).devices@[j];
                    &&& g.device.contents() == h.device.after_system_reset()
                    &&& g.device.kind() == h.device.kind()
                    &&& g.start == h.start
                    &&& g.end == h.end
                    &&& g.uid == h.uid
                },
    {
        let n = self.devices.len();
        let mut i: usize = 0;
        while i < n
            invariant
                i <= n,
                self.bus == old(self).bus,
                self.devices@.len() == n,
                old(self).devices@.len() == n,
                old(self).wf(),
                forall|j: int|
                    i as int <= j < n as int ==> #[trigger] self.devices@[j] == old(
                        self,
                    ).devices@[j],
                forall|j: int|
                    0 <= j < i as int ==> {
                        let h = old(self).devices@[j];
                        let g = #[trigger] self.devices@[j];
                        &&& g.wf()
                        &&& g.device.contents() == h.device.after_system_reset()
                        &&& g.device.kind() == h.device.kind()
                        &&& g.start == h.start
                        &&& g.end == h.end
                        &&& g.uid == h.uid
                    },
            decreases n - i,
        {
            proof {
                assert(self.devices@[i as int].wf());
            }
            let holder = &mut self.devices[i];
            holder.device.reset_system();
            i = i + 1;
        }
    }

    /// Hard-reset every device: all contents are zeroed, ROM included. Ranges,
    /// uids and kinds are untouched.
    pub fn reset_devices_hard(&mut self)
        requires
            old(self).wf(),
        ensures
            final(self).wf(),
            final(self).bus == old(self).bus,
            final(self).devices@.len() == old(self).devices@.len(),
            forall|j: int|
                0 <= j < old(self).devices@.len() ==> {
                    let h = old(self).devices@[j];
                    let g = #[trigger] final(self).devices@[j];
                    &&& g.device.contents().len() == h.device.contents().len()
                    &&& (forall|k: int|
                        0 <= k < g.device.contents().len() ==> g.device.contents()[k] == 0u8)
                    &&& g.device.kind() == h.device.kind()
                    &&& g.start == h.start
                    &&& g.end == h.end
                    &&& g.uid == h.uid
                },
    {
        let n = self.devices.len();
        let mut i: usize = 0;
        while i < n
            invariant
                i <= n,
                self.bus == old(self).bus,
                self.devices@.len() == n,
                old(self).devices@.len() == n,
                old(self).wf(),
                forall|j: int|
                    i as int <= j < n as int ==> #[trigger] self.devices@[j] == old(
                        self,
                    ).devices@[j],
                forall|j: int|
                    0 <= j < i as int ==> {
                        let h = old(self).devices@[j];
                        let g = #[trigger] self.devices@[j];
                        &&& g.wf()
                        &&& g.device.contents().len() == h.device.contents().len()
                        &&& (forall|k: int|
                            0 <= k < g.device.contents().len() ==> g.device.contents()[k] == 0u8)
                        &&& g.device.kind() == h.device.kind()
                        &&& g.start == h.start
                        &&& g.end == h.end
                        &&& g.uid == h.uid
                    },
            decreases n - i,
        {
            proof {
                assert(self.devices@[i as int].wf());
            }
            let holder = &mut self.devices[i];
            holder.device.reset_hard();
            i = i + 1;
        }
    }

    /// Load a program image into the ROM device at `index`, starting at the
    /// beginning of its contents. Returns false, changing nothing, when the
    /// index is invalid, the device is not a ROM, or the image does not fit.
    pub fn load_rom(&mut self, index: usize, image: &Vec<u8>) -> (r: bool)
        requires
            old(self).wf(),
        ensures
            final(self).wf(),
            final(self).bus == old(self).bus,
            r == (index < old(self).devices@.len() && old(self).devices@[index as int].device.kind()
                == crate::device::DeviceId::Rom && image@.len() <= old(self).devices@[
                index as int
            ].device.contents().len()),
            !r ==> final(self).devices@ == old(self).devices@,
            r ==> {
                let h = old(self).devices@[index as int];
                let g = final(self).devices@[index as int];
                &&& final(self).devices@.len() == old(self).devices@.len()
                &&& forall|j: int|
                    0 <= j < old(self).devices@.len() && j != index as int
                        ==> #[trigger] final(self).devices@[j] == old(self).devices@[j]
                &&& g.device.kind() == h.device.kind()
                &&& g.start == h.start
                &&& g.end == h.end
                &&& g.uid == h.uid
                &&& g.device.contents().len() == h.device.contents().len()
                &&& forall|k: int| 0 <= k < image@.len() ==> g.device.contents()[k] == image@[k]
                &&& forall|k: int|
                    image@.len() <= k < g.device.contents().len() ==> g.device.contents()[k]
                        == h.device.contents()[k]
            },
    {
        if index < self.devices.len() {
            proof {
                assert(self.devices@[index as int].wf());
            }
            let holder = &mut self.devices[index];
            let loaded = holder.device.load_contents(image);
            proof {
                if !loaded {
                    assert(self.devices@ =~= old(self).devices@);
                }
            }
            loaded
        } else {
            false
        }
    }

    /// The registered devices, for host introspection.
    pub fn devices(&self) -> (r: &Vec<DevHolder>)
        ensures
            r == &self.devices,
    {
        &self.devices
    }

    /// A copy of the backing bytes of the device at `index`, for host
    /// introspection; `None` when the index is invalid.
    pub fn device_data(&self, index: usize) -> (r: Option<Vec<u8>>)
        ensures
            match r {
                Some(bytes) => index < self.devices@.len() && bytes@
                    == self.devices@[index as int].device.contents(),
                None => index >= self.devices@.len(),
            },
    {
        if index < self.devices.len() {
            Some(self.devices[index].device.contents_snapshot())
        } else {
            None
        }
    }

    /// The bus's current data byte.
    pub fn data(&self) -> (r: u8)
        ensures
            r == self.bus.data,
    {
        self.bus.data()
    }

    /// Put a byte on the bus's data line.
    pub fn set_data(&mut self, data: u8)
        ensures
            *final(self) == (MemManager { bus: Bus { data, ..old(self).bus }, ..*old(self) }),
    {
        self.bus.set_data(data);
    }

    /// The bus's current address.
    pub fn addr(&self) -> (r: u16)
        ensures
            r == self.bus.addr,
    {
        self.bus.addr()
    }

    /// Put an address on the bus's address line.
    pub fn set_addr(&mut self, addr: u16)
        ensures
            *final(self) == (MemManager { bus: Bus { addr, ..old(self).bus }, ..*old(self) }),
    {
        self.bus.set_addr(addr);
    }

    /// Replace the high byte of the bus's address.
    pub fn set_addr_hi(&mut self, hi: u8)
        ensures
            *final(self) == (MemManager {
                bus: Bus {
                    addr: (old(self).bus.addr & 0x00FFu16) | ((hi as u16) << 8u16),
                    ..old(self).bus
                },
                ..*old(self)
            }),
    {
        let a = self.bus.addr;
        self.bus.set_addr((a & 0x00FF) | ((hi as u16) << 8));
    }

    /// Replace the low byte of the bus's address.
    pub fn set_addr_lo(&mut self, lo: u8)
        ensures
            *final(self) == (MemManager {
                bus: Bus { addr: (old(self).bus.addr & 0xFF00u16) | (lo as u16), ..old(self).bus },
                ..*old(self)
            }),
    {
        let a = self.bus.addr;
        self.bus.set_addr((a & 0xFF00) | (lo as u16));
    }

    /// Perform a read transaction at the bus's current address: mark the bus
    /// as reading and dispatch.
    pub fn read_at_addr(&mut self)
        requires
            old(self).wf(),
        ensures
            final(self).wf(),
            *final(self) == (MemManager {
                bus: Bus {
                    data: old(self).read_value(old(self).bus.addr),
                    rw: true,
                    ..old(self).bus
                },
                ..*old(self)
            }),
    {
        self.bus.set_rw(true);
        self.dispatch_read();
    }

    /// Perform a write transaction at the bus's current address: mark the bus
    /// as writing and dispatch. The contract of `dispatch_write` carries over
    /// with the read/write flag now false.
    pub fn write_at_addr(&mut self) -> (out: WriteOutcome)
        requires
            old(self).wf(),
        ensures
            final(self).wf(),
            final(self).bus == (Bus { rw: false, ..old(self).bus }),
            final(self).devices@.len() == old(self).devices@.len(),
            forall|j: int|
                0 <= j < old(self).devices@.len() && j != find_covering(
                    old(self).devices@,
                    old(self).bus.addr,
                ) ==> #[trigger] final(self).devices@[j] == old(self).devices@[j],
            ({
                let i = find_covering(old(self).devices@, old(self).bus.addr);
                if i == -1 {
                    out == WriteOutcome::Unmapped && final(self).devices@ == old(self).devices@
                } else if old(self).devices@[i].device.writable() {
                    let h = old(self).devices@[i];
                    &&& out == WriteOutcome::Written
                    &&& final(self).devices@[i].device.contents() == h.device.contents().update(
                        old(self).bus.addr - h.start,
                        old(self).bus.data,
                    )
                    &&& final(self).devices@[i].device.kind() == h.device.kind()
                    &&& final(self).devices@[i].start == h.start
                    &&& final(self).devices@[i].end == h.end
                    &&& final(self).devices@[i].uid == h.uid
                } else {
                    out == WriteOutcome::Rejected && final(self).devices@ == old(self).devices@
                }
            }),
    {
        self.bus.set_rw(false);
        self.dispatch_write()
    }
}

} // verus!
