//! Errors reported by the transport and the MPSSE driver.

use vstd::prelude::*;

verus! {

/// Every failure this library reports. None of them is retried here.
#[derive(Clone, Copy, Debug, PartialEq, Eq, Structural)]
pub enum Error {
    /// No interface matched a serial-number lookup.
    DeviceNotFound,
    /// An FTDI device reported a version field that maps to no known chip; carries that field.
    UnsupportedDevice(u16),
    /// The chip family has no clock model.
    UnsupportedDeviceType,
    /// The USB interface could not be claimed.
    InterfaceClaimFailed,
    /// A transfer did not complete in time.
    TransferTimeout,
    /// A transfer failed on the bus.
    TransferStalled,
    /// The loopback handshake returned something other than the bad-command echo; carries the two bytes.
    SynchronizationFailed(u8, u8),
    /// The operation is not implemented for these chips.
    NotImplemented,
    /// A requested clock frequency has no 16-bit divisor; carries the frequency.
    InvalidFrequency(u32),
    /// A control-in reply was shorter than the request needs.
    ShortResponse,
}

} // verus!
