use vstd::prelude::*;

use crate::device::{AsciiIOBuffer, Device, DeviceId, DeviceTrait, PixelScreen, Ram, Rom};

verus! {

/// Why a device could not be constructed.
#[derive(Clone, Copy, PartialEq, Eq, Structural, Debug)]
pub enum ConfigurationError {
    /// A fixed-size kind was requested with a nonzero size, or a caller-sized
    /// kind with size zero.
    InvalidSize,
    /// The CPU is not a mappable device kind.
    NonMappableDevice,
}

/// Whether `size` is a legal request for `kind`: fixed-size kinds must be
/// requested with size 0 (meaning "use the intrinsic size"), caller-sized
/// kinds with a nonzero size.
pub open spec fn size_ok(kind: DeviceId, size: u16) -> bool {
    if kind.spec_fixed_size() is Some {
        size == 0
    } else {
        size != 0
    }
}

/// The size the constructed device will actually occupy, or `None` when the
/// request is rejected.
pub open spec fn constructed_size(kind: DeviceId, size: u16) -> Option<u16> {
    if !size_ok(kind, size) || kind == DeviceId::CPU {
        None
    } else {
        match kind.spec_fixed_size() {
            Some(n) => Some(n),
            None => Some(size),
        }
    }
}

/// Validated construction of devices. (Traits cannot carry constructors, so
/// construction lives here.)
pub struct DeviceFactory {}

impl DeviceFactory {
    /// Create a device of kind `dev_type` with size `size`.
    ///
    /// If the kind has a fixed size, `size` must be 0 and the final size can
    /// be checked with the device's own `size()`. Caller-sized kinds need a
    /// nonzero `size`. Violations fail with a configuration error, as does
    /// the CPU kind, which is not mappable. The new device's bytes are all
    /// zero.
    pub fn with_size(dev_type: DeviceId, size: u16) -> (r: Result<Device, ConfigurationError>)
        ensures
            r is Ok <==> constructed_size(dev_type, size) is Some,
            match r {
                Ok(d) => {
                    &&& d.wf()
                    &&& d.kind() == dev_type
                    &&& d.contents().len() == constructed_size(dev_type, size).unwrap() as int
                    &&& forall|i: int| 0 <= i < d.contents().len() ==> d.contents()[i] == 0u8
                },
                Err(e) => e == if !size_ok(dev_type, size) {
                    ConfigurationError::InvalidSize
                } else {
                    ConfigurationError::NonMappableDevice
                },
            },
    {
        let has_fixed_sz = dev_type.fixed_size().is_some();

        if (size == 0 && !has_fixed_sz) || (size != 0 && has_fixed_sz) {
            Err(ConfigurationError::InvalidSize)
        } else {
            match dev_type {
                DeviceId::CPU => Err(ConfigurationError::NonMappableDevice),
                DeviceId::PixelScreen => Ok(Device::PixelScreen(PixelScreen::new())),
                DeviceId::AsciiIOBuffer => Ok(Device::AsciiIOBuffer(AsciiIOBuffer::new())),
                DeviceId::Rom => Ok(Device::Rom(Rom::with_size(size))),
                DeviceId::Ram => Ok(Device::Ram(Ram::with_size(size))),
            }
        }
    }
}

} // verus!
