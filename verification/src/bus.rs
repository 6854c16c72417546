use vstd::prelude::*;

verus! {

/// The single shared address/data/read-write transaction line connecting the
/// CPU to the memory-mapped devices. A pure value holder: it is rewritten on
/// every micro-step and carries exactly one transaction at a time.
#[derive(Clone, Copy, PartialEq, Eq, Structural, Debug)]
pub struct Bus {
    pub data: u8,
    pub addr: u16,
    /// Read/write flag: true when the bus was last used to read, false when
    /// it was last used to write.
    pub rw: bool,
}

impl Bus {
    pub fn new() -> (r: Bus)
        ensures
            r == (Bus { data: 0u8, addr: 0u16, rw: true }),
    {
        Bus { data: 0, addr: 0, rw: true }
    }

    /// Zero the data and address lines and mark the bus as reading.
    pub fn reset(&mut self)
        ensures
            *final(self) == (Bus { data: 0u8, addr: 0u16, rw: true }),
    {
        self.data = 0;
        self.addr = 0;
        self.rw = true;
    }

    pub fn set_rw(&mut self, value: bool)
        ensures
            *final(self) == (Bus { rw: value, ..*old(self) }),
    {
        self.rw = value;
    }

    pub fn data(&self) -> (r: u8)
        ensures
            r == self.data,
    {
        self.data
    }

    pub fn set_data(&mut self, data: u8)
        ensures
            *final(self) == (Bus { data: data, ..*old(self) }),
    {
        self.data = data;
    }

    pub fn addr(&self) -> (r: u16)
        ensures
            r == self.addr,
    {
        self.addr
    }

    pub fn set_addr(&mut self, addr: u16)
        ensures
            *final(self) == (Bus { addr: addr, ..*old(self) }),
    {
        self.addr = addr;
    }

    pub fn data_mut_ref(&mut self) -> (r: &mut u8)
        ensures
            *r == old(self).data,
            *final(self) == (Bus { data: *final(r), ..*old(self) }),
    {
        &mut self.data
    }

    pub fn addr_mut_ref(&mut self) -> (r: &mut u16)
        ensures
            *r == old(self).addr,
            *final(self) == (Bus { addr: *final(r), ..*old(self) }),
    {
        &mut self.addr
    }

    pub fn rw(&self) -> (r: bool)
        ensures
            r == self.rw,
    {
        self.rw
    }
}

} // verus!
