//! Errors of the SunPCi host library.
use vstd::prelude::*;

verus! {

/// Errors that can occur while driving the card.
#[derive(Debug, Clone)]
pub enum SunPciError {
    /// The device node is missing: the driver is not loaded.
    DriverNotLoaded,
    /// The device node exists but may not be opened; holds the node's path.
    PermissionDenied(String),
    /// A device that was named does not exist; holds its name.
    DeviceNotFound(String),
    /// A session was started while one is running.
    AlreadyRunning,
    /// A session was stopped or reset while none is running.
    NotRunning,
    /// A request was malformed before any call was made.
    InvalidConfig(String),
    /// An image file is missing or unreadable.
    ImageNotFound,
    /// A floppy image is larger than any floppy format; holds its size.
    ImageTooLarge(u64),
    /// A disk image does not carry the SunPCi header.
    InvalidImage,
    /// The driver returned a record whose length exceeds its buffer.
    ProtocolViolation,
    /// A host I/O call failed with this OS error code.
    Io(i32),
    /// A driver call failed with this error number.
    Ioctl(i32),
}

impl SunPciError {
    /// The low-level error code that this error carries, if any.
    pub fn code(&self) -> (r: Option<i32>)
        ensures
            r == (match self {
                SunPciError::Io(c) => Some(*c),
                SunPciError::Ioctl(c) => Some(*c),
                _ => None,
            }),
    {
        match self {
            SunPciError::Io(c) => Some(*c),
            SunPciError::Ioctl(c) => Some(*c),
            _ => None,
        }
    }
}

} // verus!
