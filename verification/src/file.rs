//! The host's file objects and the arguments of file callbacks, as typed
//! code sees them.

use vstd::prelude::*;

verus! {

/// `whence` of a seek: the offset counts from the start of the file.
pub const SEEK_SET: i32 = 0;

/// `whence` of a seek: the offset counts from the current position.
pub const SEEK_CUR: i32 = 1;

/// `whence` of a seek: the offset counts from the end of the file.
pub const SEEK_END: i32 = 2;

/// Poll event: there is data to read.
pub const POLLIN: u32 = 0x0001;

/// Poll event: writing will not block.
pub const POLLOUT: u32 = 0x0004;

/// Poll event: an error occurred.
pub const POLLERR: u32 = 0x0008;

/// Poll event: normal data can be read.
pub const POLLRDNORM: u32 = 0x0040;

/// Poll event: normal data can be written.
pub const POLLWRNORM: u32 = 0x0100;

/// The poll events of a file that is always ready to be read and written.
pub const POLL_READY: u32 = 0x0145;

/// [`POLL_READY`] is made of the four events that say "readable" and
/// "writable".
pub proof fn lemma_poll_ready()
    ensures
        POLL_READY == POLLIN | POLLOUT | POLLRDNORM | POLLWRNORM,
{
    assert(0x0145u32 == 0x0001u32 | 0x0004u32 | 0x0040u32 | 0x0100u32) by (bit_vector);
}

/// An open file of the host. The file is not owned: a callback refers to it
/// for as long as it runs.
pub struct File {
    ptr: usize,
}

impl File {
    #[verifier::type_invariant]
    spec fn non_null(self) -> bool {
        self.ptr != 0
    }

    /// The host object that the file refers to.
    pub closed spec fn spec_as_ptr(&self) -> usize {
        self.ptr
    }

    /// The file for the host object at `ptr`.
    pub fn from_ptr(ptr: usize) -> (file: File)
        requires
            ptr != 0,
        ensures
            file.spec_as_ptr() == ptr,
    {
        File { ptr }
    }

    /// The host object that the file refers to. It is never null.
    #[verifier::when_used_as_spec(spec_as_ptr)]
    pub fn as_ptr(&self) -> (ptr: usize)
        ensures
            ptr == self.spec_as_ptr(),
            ptr != 0,
    {
        proof {
            use_type_invariant(self);
        }
        self.ptr
    }
}

/// A position to seek to.
#[derive(Clone, Copy, PartialEq, Eq, Structural, Debug)]
pub enum SeekFrom {
    /// So many bytes from the start of the file.
    Start(u64),
    /// So many bytes from the end of the file.
    End(i64),
    /// So many bytes from the current position.
    Current(i64),
}

/// An I/O control command with its argument.
#[derive(Clone, Copy, PartialEq, Eq, Structural, Debug)]
pub struct IoctlCommand {
    /// The command number.
    pub cmd: u32,
    /// The argument: a value, or the address of a user buffer.
    pub arg: usize,
}

impl IoctlCommand {
    /// The command `cmd` with argument `arg`.
    pub fn new(cmd: u32, arg: usize) -> (command: IoctlCommand)
        ensures
            command == (IoctlCommand { cmd, arg }),
    {
        IoctlCommand { cmd, arg }
    }

    /// The command number and the argument.
    pub fn raw(&self) -> (raw: (u32, usize))
        ensures
            raw == (self.cmd, self.arg),
    {
        (self.cmd, self.arg)
    }
}

/// The wait table that a poll may register with.
#[derive(Clone, Copy, PartialEq, Eq, Structural, Debug)]
pub struct PollTable {
    /// The host's table; 0 where the caller does not want to wait.
    pub ptr: usize,
}

/// A range of a caller's virtual memory that is to be mapped.
#[derive(Clone, Copy, PartialEq, Eq, Structural, Debug)]
pub struct Area {
    /// The first address of the range.
    pub start: usize,
    /// The first address behind the range.
    pub end: usize,
    /// The protection and behaviour flags of the mapping.
    pub flags: usize,
}

/// The access mode bits of a file system entry.
#[derive(Clone, Copy, PartialEq, Eq, Structural, Debug)]
pub struct Mode(u16);

impl Mode {
    /// The mode bits as a number.
    pub closed spec fn spec_as_int(&self) -> u16 {
        self.0
    }

    /// The mode with the given bits.
    pub fn from_int(bits: u16) -> (mode: Mode)
        ensures
            mode.spec_as_int() == bits,
    {
        Mode(bits)
    }

    /// The mode bits as a number.
    #[verifier::when_used_as_spec(spec_as_int)]
    pub fn as_int(&self) -> (bits: u16)
        ensures
            bits == self.spec_as_int(),
    {
        self.0
    }
}

} // verus!
