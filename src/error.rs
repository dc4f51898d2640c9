use vstd::prelude::*;

verus! {

/// The operating system's code for a missing file or directory.
pub const ENOENT: i32 = 2;

/// What can go wrong while listing the bus or reading a descriptor.
#[derive(Clone, Copy, Debug, PartialEq, Eq, Structural)]
pub enum UsbError {
    /// A directory or a descriptor file could not be opened; the OS code.
    Open(i32),
    /// Reading a directory or a descriptor file failed; the OS code.
    Read(i32),
    /// A descriptor file held fewer bytes than its record.
    ShortRead { expected: usize, actual: usize },
}

impl UsbError {
    /// The OS code carried by the error, if it carries one.
    pub fn os_code(&self) -> (r: Option<i32>)
        ensures
            r == match *self {
                UsbError::Open(c) => Some(c),
                UsbError::Read(c) => Some(c),
                UsbError::ShortRead { .. } => None::<i32>,
            },
    {
        match *self {
            UsbError::Open(c) => Some(c),
            UsbError::Read(c) => Some(c),
            UsbError::ShortRead { .. } => None,
        }
    }

    /// Whether this is a failure to open something that does not exist.
    pub fn is_not_found(&self) -> (r: bool)
        ensures
            r == (*self == UsbError::Open(ENOENT)),
    {
        match *self {
            UsbError::Open(c) => c == ENOENT,
            _ => false,
        }
    }
}

/// Makes the answer of an open primitive explicit: `opened` is whether it
/// gave a handle, `code` the OS error code as it stood right after the call.
pub fn open_outcome(opened: bool, code: i32) -> (r: Result<(), UsbError>)
    ensures
        opened ==> r is Ok,
        !opened ==> r == Err::<(), UsbError>(UsbError::Open(code)),
{
    if opened {
        Ok(())
    } else {
        Err(UsbError::Open(code))
    }
}

} // verus!
