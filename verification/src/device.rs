use vstd::prelude::*;

verus! {

/// Intrinsic size of the pixel display peripheral.
pub const PIXEL_SCREEN_SIZE: u16 = 4096;

/// Intrinsic size of the ASCII I/O buffer peripheral.
pub const ASCII_IO_BUFFER_SIZE: u16 = 256;

/// Identifies a device class. RAM and ROM are caller-sized; the two I/O
/// peripherals have an intrinsic size; the CPU itself is not a mappable
/// device kind.
#[derive(Clone, Copy, PartialEq, Eq, Structural, Debug)]
pub enum DeviceId {
    CPU,
    PixelScreen,
    AsciiIOBuffer,
    Rom,
    Ram,
}

impl DeviceId {
    /// The intrinsic size of a fixed-size kind, or `None` for the
    /// caller-sized kinds and for the CPU.
    pub open spec fn spec_fixed_size(self) -> Option<u16> {
        match self {
            DeviceId::PixelScreen => Some(PIXEL_SCREEN_SIZE),
            DeviceId::AsciiIOBuffer => Some(ASCII_IO_BUFFER_SIZE),
            _ => None,
        }
    }

    #[verifier::when_used_as_spec(spec_fixed_size)]
    pub fn fixed_size(self) -> (r: Option<u16>)
        ensures
            r == self.spec_fixed_size(),
    {
        match self {
            DeviceId::PixelScreen => Some(PIXEL_SCREEN_SIZE),
            DeviceId::AsciiIOBuffer => Some(ASCII_IO_BUFFER_SIZE),
            _ => None,
        }
    }
}

/// The capability contract every mappable device meets. A device's state is
/// modelled by its byte contents; its size is fixed at construction.
pub trait DeviceTrait {
    /// The device's backing bytes, the model of its state.
    spec fn contents(&self) -> Seq<u8>;

    /// What the contents become on a system reset: zeroed for volatile
    /// devices, unchanged for persistent ones such as ROM.
    spec fn after_system_reset(&self) -> Seq<u8>;

    /// The contents fit the 16-bit address space.
    spec fn wf(&self) -> bool;

    /// Returns the actual size of the device in the address bus.
    fn size(&self) -> (r: u16)
        requires
            self.wf(),
        ensures
            r as int == self.contents().len(),
    ;

    /// Called on every system tick. The size never changes.
    fn tick(&mut self)
        requires
            old(self).wf(),
        ensures
            final(self).wf(),
            final(self).contents() == old(self).contents(),
            final(self).after_system_reset() == old(self).after_system_reset(),
    ;

    /// Called when a system reset is requested: clears the non-persistent
    /// state.
    fn reset_system(&mut self)
        requires
            old(self).wf(),
        ensures
            final(self).wf(),
            final(self).contents() == old(self).after_system_reset(),
            final(self).contents().len() == old(self).contents().len(),
    ;

    /// Called when a hard reset is requested: afterwards the device looks
    /// brand new, without any data on it.
    fn reset_hard(&mut self)
        requires
            old(self).wf(),
        ensures
            final(self).wf(),
            final(self).contents().len() == old(self).contents().len(),
            forall|i: int|
                0 <= i < final(self).contents().len() ==> final(self).contents()[i] == 0u8,
    ;
}

/// A vector of `len` zero bytes.
fn zeroed_bytes(len: u16) -> (r: Vec<u8>)
    ensures
        r@.len() == len as int,
        forall|i: int| 0 <= i < len as int ==> r@[i] == 0u8,
{
    let mut v: Vec<u8> = Vec::new();
    let mut i: u16 = 0;
    while i < len
        invariant
            i <= len,
            v@.len() == i as int,
            forall|j: int| 0 <= j < i as int ==> v@[j] == 0u8,
        decreases len - i,
    {
        v.push(0);
        i = i + 1;
    }
    v
}

/// Zero every byte of a vector in place.
fn zero_fill(v: &mut Vec<u8>)
    ensures
        final(v)@.len() == old(v)@.len(),
        forall|i: int| 0 <= i < final(v)@.len() ==> final(v)@[i] == 0u8,
{
    let n = v.len();
    let mut i: usize = 0;
    while i < n
        invariant
            i <= n,
            v@.len() == n,
            forall|j: int| 0 <= j < i as int ==> v@[j] == 0u8,
        decreases n - i,
    {
        v[i] = 0;
        i = i + 1;
    }
}

/// Copy of a byte vector's contents.
pub(crate) fn copy_bytes(v: &Vec<u8>) -> (r: Vec<u8>)
    ensures
        r@ == v@,
{
    let mut r: Vec<u8> = Vec::new();
    let n = v.len();
    let mut i: usize = 0;
    while i < n
        invariant
            i <= n,
            v@.len() == n,
            r@ == v@.take(i as int),
        decreases n - i,
    {
        r.push(v[i]);
        proof {
            assert(r@ =~= v@.take(i as int + 1));
        }
        i = i + 1;
    }
    proof {
        assert(r@ =~= v@);
    }
    r
}

/// Volatile caller-sized memory. Both reset levels zero all bytes.
pub struct Ram {
    pub contents: Vec<u8>,
}

impl Ram {
    pub fn with_size(size: u16) -> (r: Ram)
        ensures
            r.wf(),
            r.contents().len() == size as int,
            forall|i: int| 0 <= i < size as int ==> r.contents()[i] == 0u8,
    {
        Ram { contents: zeroed_bytes(size) }
    }
}

impl DeviceTrait for Ram {
    open spec fn contents(&self) -> Seq<u8> {
        self.contents@
    }

    open spec fn after_system_reset(&self) -> Seq<u8> {
        Seq::new(self.contents@.len(), |i: int| 0u8)
    }

    open spec fn wf(&self) -> bool {
        self.contents@.len() <= 0xFFFF
    }

    fn size(&self) -> (r: u16) {
        self.contents.len() as u16
    }

    fn tick(&mut self)
        ensures
            *final(self) == *old(self),
    {
    }

    fn reset_system(&mut self) {
        zero_fill(&mut self.contents);
        proof {
            assert(self.contents@ =~= self.after_system_reset());
        }
    }

    fn reset_hard(&mut self) {
        self.reset_system();
    }
}

/// Persistent caller-sized memory holding a program image. A system reset
/// leaves the contents alone; only a hard reset erases them. Writes through
/// the bus are rejected.
pub struct Rom {
    pub contents: Vec<u8>,
}

impl Rom {
    pub fn with_size(size: u16) -> (r: Rom)
        ensures
            r.wf(),
            r.contents().len() == size as int,
            forall|i: int| 0 <= i < size as int ==> r.contents()[i] == 0u8,
    {
        Rom { contents: zeroed_bytes(size) }
    }

    /// Mutable view of the backing bytes, used once before execution starts
    /// to load a program image.
    pub fn contents_mut(&mut self) -> (r: &mut Vec<u8>)
        ensures
            *r == old(self).contents,
            *final(self) == (Rom { contents: *final(r) }),
    {
        &mut self.contents
    }
}

impl DeviceTrait for Rom {
    open spec fn contents(&self) -> Seq<u8> {
        self.contents@
    }

    open spec fn after_system_reset(&self) -> Seq<u8> {
        self.contents@
    }

    open spec fn wf(&self) -> bool {
        self.contents@.len() <= 0xFFFF
    }

    fn size(&self) -> (r: u16) {
        self.contents.len() as u16
    }

    fn tick(&mut self)
        ensures
            *final(self) == *old(self),
    {
    }

    fn reset_system(&mut self) {
    }

    fn reset_hard(&mut self) {
        zero_fill(&mut self.contents);
    }
}

/// Fixed-size pixel display. Its rendering behaviour is out of scope here:
/// only the read/write/tick/reset contract over its backing bytes matters.
pub struct PixelScreen {
    pub contents: Vec<u8>,
}

impl PixelScreen {
    pub fn new() -> (r: PixelScreen)
        ensures
            r.wf(),
            r.contents().len() == PIXEL_SCREEN_SIZE as int,
            forall|i: int| 0 <= i < r.contents().len() ==> r.contents()[i] == 0u8,
    {
        PixelScreen { contents: zeroed_bytes(PIXEL_SCREEN_SIZE) }
    }
}

impl DeviceTrait for PixelScreen {
    open spec fn contents(&self) -> Seq<u8> {
        self.contents@
    }

    open spec fn after_system_reset(&self) -> Seq<u8> {
        Seq::new(self.contents@.len(), |i: int| 0u8)
    }

    open spec fn wf(&self) -> bool {
        self.contents@.len() <= 0xFFFF
    }

    fn size(&self) -> (r: u16) {
        self.contents.len() as u16
    }

    fn tick(&mut self)
        ensures
            *final(self) == *old(self),
    {
    }

    fn reset_system(&mut self) {
        zero_fill(&mut self.contents);
        proof {
            assert(self.contents@ =~= self.after_system_reset());
        }
    }

    fn reset_hard(&mut self) {
        self.reset_system();
    }
}

/// Fixed-size ASCII input/output buffer. Its host-side behaviour is out of
/// scope here: only the read/write/tick/reset contract matters.
pub struct AsciiIOBuffer {
    pub contents: Vec<u8>,
}

impl AsciiIOBuffer {
    pub fn new() -> (r: AsciiIOBuffer)
        ensures
            r.wf(),
            r.contents().len() == ASCII_IO_BUFFER_SIZE as int,
            forall|i: int| 0 <= i < r.contents().len() ==> r.contents()[i] == 0u8,
    {
        AsciiIOBuffer { contents: zeroed_bytes(ASCII_IO_BUFFER_SIZE) }
    }
}

impl DeviceTrait for AsciiIOBuffer {
    open spec fn contents(&self) -> Seq<u8> {
        self.contents@
    }

    open spec fn after_system_reset(&self) -> Seq<u8> {
        Seq::new(self.contents@.len(), |i: int| 0u8)
    }

    open spec fn wf(&self) -> bool {
        self.contents@.len() <= 0xFFFF
    }

    fn size(&self) -> (r: u16) {
        self.contents.len() as u16
    }

    fn tick(&mut self)
        ensures
            *final(self) == *old(self),
    {
    }

    fn reset_system(&mut self) {
        zero_fill(&mut self.contents);
        proof {
            assert(self.contents@ =~= self.after_system_reset());
        }
    }

    fn reset_hard(&mut self) {
        self.reset_system();
    }
}

/// A registered device: the closed set of device kinds, dispatched by
/// variant. Every kind models its state as byte contents.
pub enum Device {
    Ram(Ram),
    Rom(Rom),
    PixelScreen(PixelScreen),
    AsciiIOBuffer(AsciiIOBuffer),
}

impl Device {
    pub open spec fn contents(&self) -> Seq<u8> {
        match self {
            Device::Ram(d) => d.contents(),
            Device::Rom(d) => d.contents(),
            Device::PixelScreen(d) => d.contents(),
            Device::AsciiIOBuffer(d) => d.contents(),
        }
    }

    pub open spec fn after_system_reset(&self) -> Seq<u8> {
        match self {
            Device::Ram(d) => d.after_system_reset(),
            Device::Rom(d) => d.after_system_reset(),
            Device::PixelScreen(d) => d.after_system_reset(),
            Device::AsciiIOBuffer(d) => d.after_system_reset(),
        }
    }

    pub open spec fn kind(&self) -> DeviceId {
        match self {
            Device::Ram(_) => DeviceId::Ram,
            Device::Rom(_) => DeviceId::Rom,
            Device::PixelScreen(_) => DeviceId::PixelScreen,
            Device::AsciiIOBuffer(_) => DeviceId::AsciiIOBuffer,
        }
    }

    /// Whether bus writes reach the device; false for read-only media.
    pub open spec fn writable(&self) -> bool {
        !(self is Rom)
    }

    pub open spec fn wf(&self) -> bool {
        match self {
            Device::Ram(d) => d.wf(),
            Device::Rom(d) => d.wf(),
            Device::PixelScreen(d) => d.wf(),
            Device::AsciiIOBuffer(d) => d.wf(),
        }
    }

    pub fn size(&self) -> (r: u16)
        requires
            self.wf(),
        ensures
            r as int == self.contents().len(),
    {
        match self {
            Device::Ram(d) => d.size(),
            Device::Rom(d) => d.size(),
            Device::PixelScreen(d) => d.size(),
            Device::AsciiIOBuffer(d) => d.size(),
        }
    }

    /// The kind this device was constructed as.
    pub fn kind_id(&self) -> (r: DeviceId)
        ensures
            r == self.kind(),
    {
        match self {
            Device::Ram(_) => DeviceId::Ram,
            Device::Rom(_) => DeviceId::Rom,
            Device::PixelScreen(_) => DeviceId::PixelScreen,
            Device::AsciiIOBuffer(_) => DeviceId::AsciiIOBuffer,
        }
    }

    pub fn tick(&mut self)
        requires
            old(self).wf(),
        ensures
            *final(self) == *old(self),
    {
        match self {
            Device::Ram(d) => d.tick(),
            Device::Rom(d) => d.tick(),
            Device::PixelScreen(d) => d.tick(),
            Device::AsciiIOBuffer(d) => d.tick(),
        }
    }

    pub fn reset_system(&mut self)
        requires
            old(self).wf(),
        ensures
            final(self).wf(),
            final(self).contents() == old(self).after_system_reset(),
            final(self).contents().len() == old(self).contents().len(),
            final(self).kind() == old(self).kind(),
    {
        match self {
            Device::Ram(d) => d.reset_system(),
            Device::Rom(d) => d.reset_system(),
            Device::PixelScreen(d) => d.reset_system(),
            Device::AsciiIOBuffer(d) => d.reset_system(),
        }
    }

    pub fn reset_hard(&mut self)
        requires
            old(self).wf(),
        ensures
            final(self).wf(),
            final(self).contents().len() == old(self).contents().len(),
            forall|i: int|
                0 <= i < final(self).contents().len() ==> final(self).contents()[i] == 0u8,
            final(self).kind() == old(self).kind(),
    {
        match self {
            Device::Ram(d) => d.reset_hard(),
            Device::Rom(d) => d.reset_hard(),
            Device::PixelScreen(d) => d.reset_hard(),
            Device::AsciiIOBuffer(d) => d.reset_hard(),
        }
    }

    /// Read the byte at `offset`. The offset has already been validated by
    /// the memory manager.
    pub fn read(&self, offset: u16) -> (r: u8)
        requires
            self.wf(),
            (offset as int) < self.contents().len(),
        ensures
            r == self.contents()[offset as int],
    {
        match self {
            Device::Ram(d) => d.contents[offset as usize],
            Device::Rom(d) => d.contents[offset as usize],
            Device::PixelScreen(d) => d.contents[offset as usize],
            Device::AsciiIOBuffer(d) => d.contents[offset as usize],
        }
    }

    /// Write `value` at `offset`, which has already been validated by the
    /// memory manager. Returns false for read-only media, whose contents are
    /// left untouched.
    pub fn write(&mut self, offset: u16, value: u8) -> (accepted: bool)
        requires
            old(self).wf(),
            (offset as int) < old(self).contents().len(),
        ensures
            final(self).wf(),
            final(self).kind() == old(self).kind(),
            accepted == old(self).writable(),
            accepted ==> final(self).contents() == old(self).contents().update(
                offset as int,
                value,
            ),
            !accepted ==> *final(self) == *old(self),
    {
        match self {
            Device::Ram(d) => {
                d.contents[offset as usize] = value;
                true
            },
            Device::Rom(_) => false,
            Device::PixelScreen(d) => {
                d.contents[offset as usize] = value;
                true
            },
            Device::AsciiIOBuffer(d) => {
                d.contents[offset as usize] = value;
                true
            },
        }
    }

    /// Load a program image into a ROM device's contents, starting at the
    /// beginning. Returns false, changing nothing, when the device is not a
    /// ROM or the image does not fit.
    pub fn load_contents(&mut self, image: &Vec<u8>) -> (r: bool)
        requires
            old(self).wf(),
        ensures
            final(self).wf(),
            final(self).kind() == old(self).kind(),
            final(self).contents().len() == old(self).contents().len(),
            r == (old(self).kind() == DeviceId::Rom && image@.len()
                <= old(self).contents().len()),
            !r ==> *final(self) == *old(self),
            r ==> forall|k: int| 0 <= k < image@.len() ==> final(self).contents()[k] == image@[k],
            r ==> forall|k: int|
                image@.len() <= k < final(self).contents().len() ==> final(self).contents()[k]
                    == old(self).contents()[k],
    {
        match self {
            Device::Rom(d) => {
                if image.len() <= d.contents.len() {
                    let n = image.len();
                    let mut i: usize = 0;
                    while i < n
                        invariant
                            i <= n,
                            image@.len() == n,
                            d.contents@.len() == old(self).contents().len(),
                            n <= d.contents@.len(),
                            forall|k: int| 0 <= k < i as int ==> d.contents@[k] == image@[k],
                            forall|k: int|
                                i as int <= k < d.contents@.len() ==> d.contents@[k] == old(
                                    self,
                                ).contents()[k],
                        decreases n - i,
                    {
                        d.contents[i] = image[i];
                        i = i + 1;
                    }
                    true
                } else {
                    false
                }
            },
            _ => false,
        }
    }

    /// A copy of the device's backing bytes, for host introspection. The
    /// storage itself stays owned by the device.
    pub fn contents_snapshot(&self) -> (r: Vec<u8>)
        ensures
            r@ == self.contents(),
    {
        match self {
            Device::Ram(d) => copy_bytes(&d.contents),
            Device::Rom(d) => copy_bytes(&d.contents),
            Device::PixelScreen(d) => copy_bytes(&d.contents),
            Device::AsciiIOBuffer(d) => copy_bytes(&d.contents),
        }
    }
}

} // verus!
