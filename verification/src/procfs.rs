//! Proc filesystem entries and the callbacks behind a proc file.
//!
//! A typed [`Operations`] implementation is reached by the host through a
//! table of callbacks, [`ProcOps`], in which a slot is filled only for what
//! the implementation provides. The callbacks themselves are the functions
//! of [`OperationsVtable`]: each finds the context of the open file in the
//! file's slot, calls the typed method and encodes what it returned.
//!
//! Calls into the host are not made from here. A function that leads to one
//! returns a description of the call, and a second function takes what the
//! host answered.

use vstd::prelude::*;
use vstd::slice::slice_to_vec;
use crate::error::Error;
use crate::error::ErrorKind;
use crate::error::is_error_code;
use crate::file::Area;
use crate::file::File;
use crate::file::IoctlCommand;
use crate::file::Mode;
use crate::file::PollTable;
use crate::file::SeekFrom;
use crate::file::POLLERR;
use crate::file::POLL_READY;
use crate::file::SEEK_CUR;
use crate::file::SEEK_END;
use crate::file::SEEK_SET;
use crate::handle::ContextSlot;
use crate::handle::Lifecycle;

verus! {

/// Which of the optional operations an implementation provides.
#[derive(Clone, Copy, PartialEq, Eq, Structural, Debug)]
pub struct Capabilities {
    /// [`Operations::read`] is provided.
    pub read: bool,
    /// [`Operations::write`] is provided.
    pub write: bool,
    /// [`Operations::seek`] is provided.
    pub seek: bool,
    /// [`Operations::poll`] is provided.
    pub poll: bool,
    /// [`Operations::ioctl`] is provided.
    pub ioctl: bool,
    /// [`Operations::compat_ioctl`] is provided.
    pub compat_ioctl: bool,
    /// [`Operations::mmap`] is provided.
    pub mmap: bool,
}

/// The callbacks of a proc file, as the host names them in its table.
#[derive(Clone, Copy, PartialEq, Eq, Structural, Debug)]
pub enum ProcCallback {
    /// [`OperationsVtable::open_callback`].
    Open,
    /// [`OperationsVtable::release_callback`].
    Release,
    /// [`OperationsVtable::read_callback`].
    Read,
    /// [`OperationsVtable::read_iter_callback`].
    ReadIter,
    /// [`OperationsVtable::write_callback`].
    Write,
    /// [`OperationsVtable::lseek_callback`].
    Lseek,
    /// [`OperationsVtable::poll_callback`].
    Poll,
    /// [`OperationsVtable::ioctl_callback`].
    Ioctl,
    /// [`OperationsVtable::compat_ioctl_callback`].
    CompatIoctl,
    /// [`OperationsVtable::mmap_callback`].
    Mmap,
}

/// The host's table of callbacks for a proc file.
///
/// A slot that is `None` is absent to the host, which then applies its own
/// behaviour for a file without the operation.
#[derive(Clone, Copy, PartialEq, Eq, Structural, Debug)]
pub struct ProcOps {
    /// Flags of the table; none is used.
    pub proc_flags: u32,
    /// Called when the file is opened.
    pub proc_open: Option<ProcCallback>,
    /// Called to read into a plain buffer.
    pub proc_read: Option<ProcCallback>,
    /// Called to read into a scattered buffer.
    pub proc_read_iter: Option<ProcCallback>,
    /// Called to write.
    pub proc_write: Option<ProcCallback>,
    /// Called to move the file position.
    pub proc_lseek: Option<ProcCallback>,
    /// Called when the last reference to the open file is gone.
    pub proc_release: Option<ProcCallback>,
    /// Called to ask which operations would not block.
    pub proc_poll: Option<ProcCallback>,
    /// Called for an I/O control command.
    pub proc_ioctl: Option<ProcCallback>,
    /// Called for an I/O control command of a 32-bit caller.
    pub proc_compat_ioctl: Option<ProcCallback>,
    /// Called to map the file into memory.
    pub proc_mmap: Option<ProcCallback>,
    /// Called to choose an address for a mapping; never provided.
    pub proc_get_unmapped_area: Option<ProcCallback>,
}

impl Capabilities {
    /// The capabilities of an implementation that provides none of the
    /// optional operations.
    pub open spec fn spec_none() -> Capabilities {
        Capabilities {
            read: false,
            write: false,
            seek: false,
            poll: false,
            ioctl: false,
            compat_ioctl: false,
            mmap: false,
        }
    }

    /// The callbacks that stand for the operations provided. Reading has
    /// two, one for each kind of buffer.
    pub open spec fn callbacks(self) -> Set<ProcCallback> {
        Set::new(
            |c: ProcCallback|
                match c {
                    ProcCallback::Open => false,
                    ProcCallback::Release => false,
                    ProcCallback::Read => self.read,
                    ProcCallback::ReadIter => self.read,
                    ProcCallback::Write => self.write,
                    ProcCallback::Lseek => self.seek,
                    ProcCallback::Poll => self.poll,
                    ProcCallback::Ioctl => self.ioctl,
                    ProcCallback::CompatIoctl => self.compat_ioctl,
                    ProcCallback::Mmap => self.mmap,
                },
        )
    }

    /// The capabilities of an implementation that provides none of the
    /// optional operations.
    #[verifier::when_used_as_spec(spec_none)]
    pub fn none() -> (caps: Capabilities)
        ensures
            caps == Capabilities::spec_none(),
    {
        Capabilities {
            read: false,
            write: false,
            seek: false,
            poll: false,
            ioctl: false,
            compat_ioctl: false,
            mmap: false,
        }
    }
}

/// The slot value for `callback` where `provided` holds, and the absent slot
/// where it does not.
pub open spec fn slot_for(provided: bool, callback: ProcCallback) -> Option<ProcCallback> {
    if provided {
        Some(callback)
    } else {
        None
    }
}

impl ProcOps {
    /// The table for an implementation with the given capabilities: opening
    /// and releasing are always there, every other slot is filled exactly
    /// where the operation is provided.
    pub open spec fn of(caps: Capabilities) -> ProcOps {
        ProcOps {
            proc_flags: 0,
            proc_open: Some(ProcCallback::Open),
            proc_read: slot_for(caps.read, ProcCallback::Read),
            proc_read_iter: slot_for(caps.read, ProcCallback::ReadIter),
            proc_write: slot_for(caps.write, ProcCallback::Write),
            proc_lseek: slot_for(caps.seek, ProcCallback::Lseek),
            proc_release: Some(ProcCallback::Release),
            proc_poll: slot_for(caps.poll, ProcCallback::Poll),
            proc_ioctl: slot_for(caps.ioctl, ProcCallback::Ioctl),
            proc_compat_ioctl: slot_for(caps.compat_ioctl, ProcCallback::CompatIoctl),
            proc_mmap: slot_for(caps.mmap, ProcCallback::Mmap),
            proc_get_unmapped_area: None,
        }
    }

    /// The callbacks that the host finds in the table.
    pub open spec fn populated(self) -> Set<ProcCallback> {
        Set::new(
            |c: ProcCallback|
                {
                    ||| self.proc_open == Some(c)
                    ||| self.proc_read == Some(c)
                    ||| self.proc_read_iter == Some(c)
                    ||| self.proc_write == Some(c)
                    ||| self.proc_lseek == Some(c)
                    ||| self.proc_release == Some(c)
                    ||| self.proc_poll == Some(c)
                    ||| self.proc_ioctl == Some(c)
                    ||| self.proc_compat_ioctl == Some(c)
                    ||| self.proc_mmap == Some(c)
                    ||| self.proc_get_unmapped_area == Some(c)
                },
        )
    }

    /// Whether every filled slot holds the callback that belongs in it.
    pub open spec fn well_placed(self) -> bool {
        &&& self.proc_open is Some ==> self.proc_open == Some(ProcCallback::Open)
        &&& self.proc_read is Some ==> self.proc_read == Some(ProcCallback::Read)
        &&& self.proc_read_iter is Some ==> self.proc_read_iter == Some(ProcCallback::ReadIter)
        &&& self.proc_write is Some ==> self.proc_write == Some(ProcCallback::Write)
        &&& self.proc_lseek is Some ==> self.proc_lseek == Some(ProcCallback::Lseek)
        &&& self.proc_release is Some ==> self.proc_release == Some(ProcCallback::Release)
        &&& self.proc_poll is Some ==> self.proc_poll == Some(ProcCallback::Poll)
        &&& self.proc_ioctl is Some ==> self.proc_ioctl == Some(ProcCallback::Ioctl)
        &&& self.proc_compat_ioctl is Some ==> self.proc_compat_ioctl == Some(
            ProcCallback::CompatIoctl,
        )
        &&& self.proc_mmap is Some ==> self.proc_mmap == Some(ProcCallback::Mmap)
        &&& self.proc_get_unmapped_area is None
    }

    /// Builds the table for an implementation with the given capabilities.
    pub fn for_capabilities(caps: Capabilities) -> (ops: ProcOps)
        ensures
            ops == ProcOps::of(caps),
    {
        ProcOps {
            proc_flags: 0,
            proc_open: Some(ProcCallback::Open),
            proc_read: if caps.read {
                Some(ProcCallback::Read)
            } else {
                None
            },
            proc_read_iter: if caps.read {
                Some(ProcCallback::ReadIter)
            } else {
                None
            },
            proc_write: if caps.write {
                Some(ProcCallback::Write)
            } else {
                None
            },
            proc_lseek: if caps.seek {
                Some(ProcCallback::Lseek)
            } else {
                None
            },
            proc_release: Some(ProcCallback::Release),
            proc_poll: if caps.poll {
                Some(ProcCallback::Poll)
            } else {
                None
            },
            proc_ioctl: if caps.ioctl {
                Some(ProcCallback::Ioctl)
            } else {
                None
            },
            proc_compat_ioctl: if caps.compat_ioctl {
                Some(ProcCallback::CompatIoctl)
            } else {
                None
            },
            proc_mmap: if caps.mmap {
                Some(ProcCallback::Mmap)
            } else {
                None
            },
            proc_get_unmapped_area: None,
        }
    }
}

/// The host finds in a table exactly the callbacks of the operations that
/// the implementation provides, besides opening and releasing, which every
/// table has; and it finds each in the slot where it belongs.
pub proof fn lemma_capability_gating(caps: Capabilities)
    ensures
        ProcOps::of(caps).populated() == caps.callbacks().insert(ProcCallback::Open).insert(
            ProcCallback::Release,
        ),
        ProcOps::of(caps).well_placed(),
{
    assert(ProcOps::of(caps).populated() =~= caps.callbacks().insert(ProcCallback::Open).insert(
        ProcCallback::Release,
    ));
}

/// A table is determined by what it populates: implementations that provide
/// the same operations get the same table, and only they.
pub proof fn lemma_table_determined(a: Capabilities, b: Capabilities)
    ensures
        ProcOps::of(a) == ProcOps::of(b) <==> a == b,
        a.callbacks() == b.callbacks() <==> a == b,
{
    if a.callbacks() == b.callbacks() {
        assert(a.callbacks().contains(ProcCallback::Read) == b.callbacks().contains(
            ProcCallback::Read,
        ));
        assert(a.callbacks().contains(ProcCallback::Write) == b.callbacks().contains(
            ProcCallback::Write,
        ));
        assert(a.callbacks().contains(ProcCallback::Lseek) == b.callbacks().contains(
            ProcCallback::Lseek,
        ));
        assert(a.callbacks().contains(ProcCallback::Poll) == b.callbacks().contains(
            ProcCallback::Poll,
        ));
        assert(a.callbacks().contains(ProcCallback::Ioctl) == b.callbacks().contains(
            ProcCallback::Ioctl,
        ));
        assert(a.callbacks().contains(ProcCallback::CompatIoctl) == b.callbacks().contains(
            ProcCallback::CompatIoctl,
        ));
        assert(a.callbacks().contains(ProcCallback::Mmap) == b.callbacks().contains(
            ProcCallback::Mmap,
        ));
    }
}

/// The operations of a proc file.
///
/// Opening is the one operation that every implementation has. Each of the
/// others has a default that reports it as not provided; an implementation
/// that provides one says so in the constant that goes with it, and only
/// then does the host's table get a callback for it. The constants belong to
/// the type, so an implementation has one table and no more.
pub trait Operations {
    /// The context of one open file: made by [`Operations::open`], lent to
    /// every other operation, given back to [`Operations::release`].
    ///
    /// Operations on one open file may run side by side, so the context is
    /// shared between threads.
    type Data: Send + Sync;

    /// The context of the entry itself, which every open of it sees.
    type OpenData: Sync;

    /// Whether [`Operations::read`] is provided.
    const HAS_READ: bool = false;

    /// Whether [`Operations::write`] is provided.
    const HAS_WRITE: bool = false;

    /// Whether [`Operations::seek`] is provided.
    const HAS_SEEK: bool = false;

    /// Whether [`Operations::poll`] is provided.
    const HAS_POLL: bool = false;

    /// Whether [`Operations::ioctl`] is provided.
    const HAS_IOCTL: bool = false;

    /// Whether [`Operations::compat_ioctl`] is provided.
    const HAS_COMPAT_IOCTL: bool = false;

    /// Whether [`Operations::mmap`] is provided.
    const HAS_MMAP: bool = false;

    /// Creates the context of a file that is being opened.
    fn open(context: &Self::OpenData, file: &File) -> Result<Self::Data, Error>;

    /// Cleans up after the last reference to the open file has gone. The
    /// context is moved in, and is dropped unless the implementation keeps
    /// it.
    fn release(_data: Self::Data, _file: &File) {
    }

    /// Reads at most `len` bytes at `offset` and returns them.
    fn read(_data: &Self::Data, _file: &File, _len: usize, _offset: u64) -> (r: Result<
        Vec<u8>,
        Error,
    >)
        default_ensures
            r is Err && r->Err_0.has_kind(ErrorKind::NotSupported),
    {
        Err(Error::new(ErrorKind::NotSupported))
    }

    /// Writes `bytes` at `offset` and returns how many of them were taken.
    fn write(_data: &Self::Data, _file: &File, _bytes: &[u8], _offset: u64) -> (r: Result<
        usize,
        Error,
    >)
        default_ensures
            r is Err && r->Err_0.has_kind(ErrorKind::NotSupported),
    {
        Err(Error::new(ErrorKind::NotSupported))
    }

    /// Moves the file position and returns the new one.
    fn seek(_data: &Self::Data, _file: &File, _offset: SeekFrom) -> (r: Result<u64, Error>)
        default_ensures
            r is Err && r->Err_0.has_kind(ErrorKind::NotSupported),
    {
        Err(Error::new(ErrorKind::NotSupported))
    }

    /// Performs an I/O control command.
    fn ioctl(_data: &Self::Data, _file: &File, _cmd: &IoctlCommand) -> (r: Result<i32, Error>)
        default_ensures
            r is Err && r->Err_0.has_kind(ErrorKind::NotSupported),
    {
        Err(Error::new(ErrorKind::NotSupported))
    }

    /// Performs an I/O control command of a 32-bit caller.
    fn compat_ioctl(_data: &Self::Data, _file: &File, _cmd: &IoctlCommand) -> (r: Result<
        i32,
        Error,
    >)
        default_ensures
            r is Err && r->Err_0.has_kind(ErrorKind::NotSupported),
    {
        Err(Error::new(ErrorKind::NotSupported))
    }

    /// Maps the file into the caller's memory.
    fn mmap(_data: &Self::Data, _file: &File, _vma: &Area) -> (r: Result<(), Error>)
        default_ensures
            r is Err && r->Err_0.has_kind(ErrorKind::NotSupported),
    {
        Err(Error::new(ErrorKind::NotSupported))
    }

    /// Tells which operations would not block, and may register with
    /// `table` for a change.
    fn poll(_data: &Self::Data, _file: &File, _table: &PollTable) -> (r: Result<u32, Error>)
        default_ensures
            r == Ok::<u32, Error>(POLL_READY),
    {
        Ok(POLL_READY)
    }
}

/// Whether a read or write may start at `offset`: positions are counted from
/// 0 and stay below the largest value the host's position type holds.
pub open spec fn offset_in_range(offset: i64) -> bool {
    0 <= offset < i64::MAX
}

/// What opening leaves behind, given what the implementation returned: an
/// open file that owns the context and the code 0, or an unopened file and
/// the code of the error, which is negative.
pub open spec fn open_outcome<D>(result: Result<D, Error>, ret: i32, private_data: Lifecycle<D>) -> bool {
    match result {
        Ok(data) => ret == 0 && private_data == Lifecycle::Open(data),
        Err(e) => ret == e.code() && is_error_code(ret as int) && private_data is Unopened,
    }
}

/// What a read returns to the host, given what the implementation returned
/// for a buffer of `len` bytes at position `pos`: the value for the caller,
/// the new position, and the bytes for the caller's buffer.
///
/// On success the value is the number of bytes and the position moves on by
/// as many. More bytes than the buffer holds are a bad address. A position
/// in front of the file, and one that the host's type cannot hold, are
/// invalid arguments. As with an error of the implementation, the position
/// then stays and the caller gets no bytes.
pub open spec fn read_outcome(result: Result<Vec<u8>, Error>, len: usize, pos: i64) -> (
    int,
    int,
    Seq<u8>,
) {
    match result {
        Err(e) => (e.code(), pos as int, Seq::empty()),
        Ok(bytes) => if bytes@.len() > len {
            (ErrorKind::BadAddress.code(), pos as int, Seq::empty())
        } else if pos < 0 || pos + bytes@.len() > i64::MAX {
            (ErrorKind::InvalidArgument.code(), pos as int, Seq::empty())
        } else {
            (bytes@.len() as int, pos + bytes@.len(), bytes@)
        },
    }
}

/// What a write returns to the host, given what the implementation returned
/// at position `pos`: the value for the caller and the new position.
///
/// On success the value is the number of bytes taken and the position moves
/// on by as many. A position in front of the file, and one that the host's
/// type cannot hold, are invalid arguments. As with an error of the
/// implementation, the position then stays.
pub open spec fn write_outcome(result: Result<usize, Error>, pos: i64) -> (int, int) {
    match result {
        Err(e) => (e.code(), pos as int),
        Ok(written) => if pos < 0 || pos + written > i64::MAX {
            (ErrorKind::InvalidArgument.code(), pos as int)
        } else {
            (written as int, pos + written)
        },
    }
}

/// A read that succeeds moves the position on by what it returns: where
/// the implementation returns bytes at a position in range, the caller gets
/// their number and the bytes, and the position is behind them. At the end
/// of the data, where no byte is returned, the caller gets 0 and the
/// position stays.
///
/// This holds of every result that the caller can take: the bytes fit the
/// buffer, and the position behind them is one that the host's type holds.
pub proof fn lemma_read_advances(bytes: Vec<u8>, len: usize, pos: i64)
    requires
        offset_in_range(pos),
        bytes@.len() <= len,
        pos + bytes@.len() <= i64::MAX,
    ensures
        read_outcome(Ok(bytes), len, pos) == (bytes@.len() as int, pos + bytes@.len(), bytes@),
        bytes@.len() == 0 ==> read_outcome(Ok(bytes), len, pos).0 == 0 && read_outcome(
            Ok(bytes),
            len,
            pos,
        ).1 == pos,
{
}

/// A write that succeeds moves the position on by what it returns: where
/// the implementation takes `written` bytes at a position in range, the
/// caller gets that number, and the position is behind them.
///
/// This holds wherever the position behind the bytes is one that the host's
/// type holds.
pub proof fn lemma_write_advances(written: usize, pos: i64)
    requires
        offset_in_range(pos),
        pos + written <= i64::MAX,
    ensures
        write_outcome(Ok(written), pos) == (written as int, pos + written),
{
}

/// An error of the implementation leaves the position where it was, and the
/// caller of a read gets no bytes.
pub proof fn lemma_error_keeps_position(e: Error, len: usize, pos: i64)
    ensures
        read_outcome(Err(e), len, pos) == (e.code(), pos as int, Seq::<u8>::empty()),
        write_outcome(Err(e), pos) == (e.code(), pos as int),
{
}

/// The position that the host's `offset` and `whence` ask for. A start in
/// front of the file and an unknown `whence` are invalid arguments.
pub open spec fn seek_target(offset: i64, whence: i32) -> Result<SeekFrom, ErrorKind> {
    if whence == SEEK_SET {
        if offset < 0 {
            Err(ErrorKind::InvalidArgument)
        } else {
            Ok(SeekFrom::Start(offset as u64))
        }
    } else if whence == SEEK_CUR {
        Ok(SeekFrom::Current(offset))
    } else if whence == SEEK_END {
        Ok(SeekFrom::End(offset))
    } else {
        Err(ErrorKind::InvalidArgument)
    }
}

/// What a seek returns to the host, given what the implementation returned:
/// the new position, or the code of the error. A position that the host's
/// type cannot hold is an invalid argument.
pub open spec fn seek_outcome(result: Result<u64, Error>) -> int {
    match result {
        Err(e) => e.code(),
        Ok(pos) => if pos > i64::MAX {
            ErrorKind::InvalidArgument.code()
        } else {
            pos as int
        },
    }
}

/// What an I/O control command returns to the host, given what the
/// implementation returned: its value, or the code of the error.
pub open spec fn ioctl_outcome(result: Result<i32, Error>) -> int {
    match result {
        Err(e) => e.code(),
        Ok(value) => value as int,
    }
}

/// What a mapping returns to the host, given what the implementation
/// returned: 0, or the code of the error.
pub open spec fn mmap_outcome(result: Result<(), Error>) -> int {
    match result {
        Err(e) => e.code(),
        Ok(()) => 0,
    }
}

/// What a poll returns to the host, given what the implementation returned.
/// The host has no way to take an error from a poll: whatever the error, the
/// host is told that the file is in error.
pub open spec fn poll_outcome(result: Result<u32, Error>) -> u32 {
    match result {
        Err(_) => POLLERR,
        Ok(events) => events,
    }
}

/// Checks the position at which a read or write is to start.
pub fn check_offset(offset: i64) -> (r: Result<u64, Error>)
    ensures
        offset_in_range(offset) ==> r == Ok::<u64, Error>(offset as u64),
        !offset_in_range(offset) ==> r is Err && r->Err_0.has_kind(ErrorKind::InvalidArgument),
{
    if offset < 0 || offset == i64::MAX {
        Err(Error::new(ErrorKind::InvalidArgument))
    } else {
        Ok(offset as u64)
    }
}

/// Finds the position that the host's `offset` and `whence` ask for.
pub fn decode_seek(offset: i64, whence: i32) -> (r: Result<SeekFrom, Error>)
    ensures
        match seek_target(offset, whence) {
            Ok(target) => r == Ok::<SeekFrom, Error>(target),
            Err(kind) => r is Err && r->Err_0.has_kind(kind),
        },
{
    if whence == SEEK_SET {
        if offset < 0 {
            Err(Error::new(ErrorKind::InvalidArgument))
        } else {
            Ok(SeekFrom::Start(offset as u64))
        }
    } else if whence == SEEK_CUR {
        Ok(SeekFrom::Current(offset))
    } else if whence == SEEK_END {
        Ok(SeekFrom::End(offset))
    } else {
        Err(Error::new(ErrorKind::InvalidArgument))
    }
}

/// Stores what the implementation returned from opening, and encodes it for
/// the host.
pub fn finish_open<D>(result: Result<D, Error>, private_data: &mut ContextSlot<D>) -> (ret: i32)
    requires
        old(private_data)@ is Unopened,
    ensures
        open_outcome(result, ret, final(private_data)@),
        ret == 0 <==> final(private_data)@ is Open,
        ret == 0 <==> result is Ok,
{
    match result {
        Ok(data) => {
            private_data.store(data);
            0
        },
        Err(e) => e.to_kernel_errno(),
    }
}

/// Encodes what the implementation returned from a read, and moves the
/// position.
pub fn finish_read(result: Result<Vec<u8>, Error>, len: usize, offset: &mut i64) -> (out: (
    i64,
    Vec<u8>,
))
    ensures
        (out.0 as int, *final(offset) as int, out.1@) == read_outcome(result, len, *old(offset)),
        result is Err ==> is_error_code(out.0 as int),
        out.0 < 0 ==> is_error_code(out.0 as int) && *final(offset) == *old(offset) && out.1@.len()
            == 0,
        out.1@.len() <= len,
{
    match result {
        Err(e) => (e.to_kernel_errno() as i64, Vec::new()),
        Ok(bytes) => {
            let read = bytes.len();
            if read > len {
                return (ErrorKind::BadAddress.to_errno() as i64, Vec::new());
            }
            let pos = *offset as i128 + read as i128;
            if *offset < 0 || pos > i64::MAX as i128 {
                return (ErrorKind::InvalidArgument.to_errno() as i64, Vec::new());
            }
            *offset = pos as i64;
            (read as i64, bytes)
        },
    }
}

/// Encodes what the implementation returned from a write, and moves the
/// position.
pub fn finish_write(result: Result<usize, Error>, offset: &mut i64) -> (ret: i64)
    ensures
        (ret as int, *final(offset) as int) == write_outcome(result, *old(offset)),
        result is Err ==> is_error_code(ret as int),
        ret < 0 ==> is_error_code(ret as int) && *final(offset) == *old(offset),
{
    match result {
        Err(e) => e.to_kernel_errno() as i64,
        Ok(written) => {
            let pos = *offset as i128 + written as i128;
            if *offset < 0 || pos > i64::MAX as i128 {
                return ErrorKind::InvalidArgument.to_errno() as i64;
            }
            *offset = pos as i64;
            written as i64
        },
    }
}

/// Encodes what the implementation returned from a seek.
pub fn finish_seek(result: Result<u64, Error>) -> (ret: i64)
    ensures
        ret == seek_outcome(result),
        result is Err ==> is_error_code(ret as int),
        ret < 0 ==> is_error_code(ret as int),
{
    match result {
        Err(e) => e.to_kernel_errno() as i64,
        Ok(pos) => if pos > i64::MAX as u64 {
            ErrorKind::InvalidArgument.to_errno() as i64
        } else {
            pos as i64
        },
    }
}

/// Encodes what the implementation returned from an I/O control command.
pub fn finish_ioctl(result: Result<i32, Error>) -> (ret: i64)
    ensures
        ret == ioctl_outcome(result),
        result is Err ==> is_error_code(ret as int),
{
    match result {
        Err(e) => e.to_kernel_errno() as i64,
        Ok(value) => value as i64,
    }
}

/// Encodes what the implementation returned from a mapping.
pub fn finish_mmap(result: Result<(), Error>) -> (ret: i32)
    ensures
        ret == mmap_outcome(result),
        result is Err ==> is_error_code(ret as int),
        ret == 0 <==> result is Ok,
{
    match result {
        Err(e) => e.to_kernel_errno(),
        Ok(()) => 0,
    }
}

/// Encodes what the implementation returned from a poll.
pub fn finish_poll(result: Result<u32, Error>) -> (events: u32)
    ensures
        events == poll_outcome(result),
{
    match result {
        Err(_) => POLLERR,
        Ok(events) => events,
    }
}

/// The control block of a read into a scattered buffer: the file and the
/// position at which the read takes place.
pub struct Kiocb {
    /// The file that is read.
    pub ki_filp: File,
    /// The position of the read, moved on by what was read.
    pub ki_pos: i64,
}

/// The callbacks that the host calls for a proc file of the implementation
/// `T`.
///
/// `private_data` is the slot of the open file. The host opens a file once,
/// calls the other callbacks only while the file is open, and releases it
/// once, after all other callbacks on it have returned.
pub struct OperationsVtable<T: Operations>(core::marker::PhantomData<T>);

impl<T: Operations> OperationsVtable<T> {
    /// Opens the file: the implementation creates the context from the
    /// context of the entry, and the file's slot takes ownership of it. On
    /// an error the slot stays as it was, and the host sees the error's
    /// code.
    pub fn open_callback(
        open_data: &T::OpenData,
        file: &File,
        private_data: &mut ContextSlot<T::Data>,
    ) -> (ret: i32)
        requires
            old(private_data)@ is Unopened,
        ensures
            exists|result: Result<T::Data, Error>|
                {
                    &&& #[trigger] call_ensures(T::open, (open_data, file), result)
                    &&& open_outcome(result, ret, final(private_data)@)
                },
            ret == 0 <==> final(private_data)@ is Open,
            ret != 0 ==> is_error_code(ret as int) && final(private_data)@ is Unopened,
    {
        let result = T::open(open_data, file);
        finish_open(result, private_data)
    }

    /// Reads into a buffer of `len` bytes at the position `offset`.
    ///
    /// A position out of range is an invalid argument, and the
    /// implementation is not asked. Else the implementation reads, and what
    /// it returns decides the outcome as [`read_outcome`] says.
    pub fn read_callback(
        file: &File,
        private_data: &ContextSlot<T::Data>,
        len: usize,
        offset: &mut i64,
    ) -> (out: (i64, Vec<u8>))
        requires
            private_data@ is Open,
        ensures
            !offset_in_range(*old(offset)) ==> {
                &&& out.0 == ErrorKind::InvalidArgument.code()
                &&& out.1@.len() == 0
                &&& *final(offset) == *old(offset)
            },
            offset_in_range(*old(offset)) ==> exists|result: Result<Vec<u8>, Error>|
                {
                    &&& #[trigger] call_ensures(
                        T::read,
                        (&private_data@->Open_0, file, len, *old(offset) as u64),
                        result,
                    )
                    &&& (out.0 as int, *final(offset) as int, out.1@) == read_outcome(
                        result,
                        len,
                        *old(offset),
                    )
                    &&& result is Err ==> is_error_code(out.0 as int)
                },
            out.0 < 0 ==> is_error_code(out.0 as int) && *final(offset) == *old(offset)
                && out.1@.len() == 0,
            out.1@.len() <= len,
    {
        let data = private_data.borrow();
        let start = match check_offset(*offset) {
            Ok(start) => start,
            Err(e) => {
                return (e.to_kernel_errno() as i64, Vec::new());
            },
        };
        let result = T::read(data, file, len, start);
        finish_read(result, len, offset)
    }

    /// Reads into a scattered buffer of `len` bytes, at the position that
    /// the control block carries. It differs from
    /// [`OperationsVtable::read_callback`] only in where the file and the
    /// position are found.
    pub fn read_iter_callback(
        iocb: &mut Kiocb,
        private_data: &ContextSlot<T::Data>,
        len: usize,
    ) -> (out: (i64, Vec<u8>))
        requires
            private_data@ is Open,
        ensures
            final(iocb).ki_filp == old(iocb).ki_filp,
            !offset_in_range(old(iocb).ki_pos) ==> {
                &&& out.0 == ErrorKind::InvalidArgument.code()
                &&& out.1@.len() == 0
                &&& final(iocb).ki_pos == old(iocb).ki_pos
            },
            offset_in_range(old(iocb).ki_pos) ==> exists|result: Result<Vec<u8>, Error>|
                {
                    &&& #[trigger] call_ensures(
                        T::read,
                        (&private_data@->Open_0, &old(iocb).ki_filp, len, old(iocb).ki_pos as u64),
                        result,
                    )
                    &&& (out.0 as int, final(iocb).ki_pos as int, out.1@) == read_outcome(
                        result,
                        len,
                        old(iocb).ki_pos,
                    )
                    &&& result is Err ==> is_error_code(out.0 as int)
                },
            out.0 < 0 ==> is_error_code(out.0 as int) && final(iocb).ki_pos == old(iocb).ki_pos
                && out.1@.len() == 0,
            out.1@.len() <= len,
    {
        let data = private_data.borrow();
        let start = match check_offset(iocb.ki_pos) {
            Ok(start) => start,
            Err(e) => {
                return (e.to_kernel_errno() as i64, Vec::new());
            },
        };
        let result = T::read(data, &iocb.ki_filp, len, start);
        let mut pos = iocb.ki_pos;
        let out = finish_read(result, len, &mut pos);
        iocb.ki_pos = pos;
        out
    }

    /// Writes `bytes` at the position `offset`.
    ///
    /// A position out of range is an invalid argument, and the
    /// implementation is not asked. Else the implementation writes, and
    /// what it returns decides the outcome as [`write_outcome`] says.
    pub fn write_callback(
        file: &File,
        private_data: &ContextSlot<T::Data>,
        bytes: &[u8],
        offset: &mut i64,
    ) -> (ret: i64)
        requires
            private_data@ is Open,
        ensures
            !offset_in_range(*old(offset)) ==> {
                &&& ret == ErrorKind::InvalidArgument.code()
                &&& *final(offset) == *old(offset)
            },
            offset_in_range(*old(offset)) ==> exists|result: Result<usize, Error>|
                {
                    &&& #[trigger] call_ensures(
                        T::write,
                        (&private_data@->Open_0, file, bytes, *old(offset) as u64),
                        result,
                    )
                    &&& (ret as int, *final(offset) as int) == write_outcome(result, *old(offset))
                    &&& result is Err ==> is_error_code(ret as int)
                },
            ret < 0 ==> is_error_code(ret as int) && *final(offset) == *old(offset),
    {
        let data = private_data.borrow();
        let start = match check_offset(*offset) {
            Ok(start) => start,
            Err(e) => {
                return e.to_kernel_errno() as i64;
            },
        };
        let result = T::write(data, file, bytes, start);
        finish_write(result, offset)
    }

    /// Releases the file: called by the host once, after every other
    /// callback on the file has returned.
    ///
    /// The context leaves the file's slot for good and is given to the
    /// implementation, which drops it unless it keeps it. The host is told
    /// 0.
    pub fn release_callback(file: &File, private_data: &mut ContextSlot<T::Data>) -> (ret: i32)
        requires
            old(private_data)@ is Open,
        ensures
            ret == 0,
            final(private_data)@ is Released,
            call_ensures(T::release, (old(private_data)@->Open_0, file), ()),
    {
        let data = private_data.reclaim();
        T::release(data, file);
        0
    }

    /// Moves the file position as `offset` and `whence` ask.
    ///
    /// Where [`seek_target`] refuses them the implementation is not asked.
    /// Else it seeks, and what it returns decides the outcome as
    /// [`seek_outcome`] says.
    pub fn lseek_callback(
        file: &File,
        private_data: &ContextSlot<T::Data>,
        offset: i64,
        whence: i32,
    ) -> (ret: i64)
        requires
            private_data@ is Open,
        ensures
            match seek_target(offset, whence) {
                Err(kind) => ret == kind.code(),
                Ok(target) => exists|result: Result<u64, Error>|
                    {
                        &&& #[trigger] call_ensures(
                            T::seek,
                            (&private_data@->Open_0, file, target),
                            result,
                        )
                        &&& ret == seek_outcome(result)
                        &&& result is Err ==> is_error_code(ret as int)
                    },
            },
            ret < 0 ==> is_error_code(ret as int),
    {
        let target = match decode_seek(offset, whence) {
            Ok(target) => target,
            Err(e) => {
                return e.to_kernel_errno() as i64;
            },
        };
        let data = private_data.borrow();
        let result = T::seek(data, file, target);
        finish_seek(result)
    }

    /// Performs the I/O control command `cmd` with argument `arg`.
    pub fn ioctl_callback(
        file: &File,
        private_data: &ContextSlot<T::Data>,
        cmd: u32,
        arg: usize,
    ) -> (ret: i64)
        requires
            private_data@ is Open,
        ensures
            exists|result: Result<i32, Error>|
                {
                    &&& #[trigger] call_ensures(
                        T::ioctl,
                        (&private_data@->Open_0, file, &IoctlCommand { cmd, arg }),
                        result,
                    )
                    &&& ret == ioctl_outcome(result)
                    &&& result is Err ==> is_error_code(ret as int)
                },
    {
        let data = private_data.borrow();
        let command = IoctlCommand::new(cmd, arg);
        let result = T::ioctl(data, file, &command);
        finish_ioctl(result)
    }

    /// Performs the I/O control command `cmd` of a 32-bit caller with
    /// argument `arg`.
    pub fn compat_ioctl_callback(
        file: &File,
        private_data: &ContextSlot<T::Data>,
        cmd: u32,
        arg: usize,
    ) -> (ret: i64)
        requires
            private_data@ is Open,
        ensures
            exists|result: Result<i32, Error>|
                {
                    &&& #[trigger] call_ensures(
                        T::compat_ioctl,
                        (&private_data@->Open_0, file, &IoctlCommand { cmd, arg }),
                        result,
                    )
                    &&& ret == ioctl_outcome(result)
                    &&& result is Err ==> is_error_code(ret as int)
                },
    {
        let data = private_data.borrow();
        let command = IoctlCommand::new(cmd, arg);
        let result = T::compat_ioctl(data, file, &command);
        finish_ioctl(result)
    }

    /// Maps the file into the range `vma` of the caller's memory.
    pub fn mmap_callback(file: &File, private_data: &ContextSlot<T::Data>, vma: &Area) -> (ret:
        i32)
        requires
            private_data@ is Open,
        ensures
            exists|result: Result<(), Error>|
                {
                    &&& #[trigger] call_ensures(T::mmap, (&private_data@->Open_0, file, vma), result)
                    &&& ret == mmap_outcome(result)
                    &&& ret == 0 <==> result is Ok
                },
            ret != 0 ==> is_error_code(ret as int),
    {
        let data = private_data.borrow();
        let result = T::mmap(data, file, vma);
        finish_mmap(result)
    }

    /// Asks which operations on the file would not block.
    pub fn poll_callback(file: &File, private_data: &ContextSlot<T::Data>, wait: &PollTable) -> (events:
        u32)
        requires
            private_data@ is Open,
        ensures
            exists|result: Result<u32, Error>|
                {
                    &&& #[trigger] call_ensures(T::poll, (&private_data@->Open_0, file, wait), result)
                    &&& events == poll_outcome(result)
                },
    {
        let data = private_data.borrow();
        let result = T::poll(data, file, wait);
        finish_poll(result)
    }

    /// The optional operations that the implementation declares.
    pub open spec fn declared() -> Capabilities {
        Capabilities {
            read: T::HAS_READ,
            write: T::HAS_WRITE,
            seek: T::HAS_SEEK,
            poll: T::HAS_POLL,
            ioctl: T::HAS_IOCTL,
            compat_ioctl: T::HAS_COMPAT_IOCTL,
            mmap: T::HAS_MMAP,
        }
    }

    /// The one table of the implementation.
    pub open spec fn table() -> ProcOps {
        ProcOps::of(Self::declared())
    }

    /// The optional operations that the implementation declares.
    pub fn capabilities() -> (caps: Capabilities)
        ensures
            caps == Self::declared(),
    {
        Capabilities {
            read: T::HAS_READ,
            write: T::HAS_WRITE,
            seek: T::HAS_SEEK,
            poll: T::HAS_POLL,
            ioctl: T::HAS_IOCTL,
            compat_ioctl: T::HAS_COMPAT_IOCTL,
            mmap: T::HAS_MMAP,
        }
    }

    /// Builds the host's table for the implementation: a callback for
    /// opening, one for releasing, and one for each operation that the
    /// implementation declares.
    pub fn build() -> (ops: ProcOps)
        ensures
            ops == Self::table(),
    {
        ProcOps::for_capabilities(Self::capabilities())
    }
}

/// An implementation has one table: whenever and however often it is built,
/// the table is the same, and the host finds in it exactly the callbacks of
/// the operations that the implementation declares, besides those for
/// opening and releasing, each in the slot where it belongs.
pub proof fn lemma_build_repeatable<T: Operations>(first: ProcOps, second: ProcOps)
    requires
        first == OperationsVtable::<T>::table(),
        second == OperationsVtable::<T>::table(),
    ensures
        first == second,
        first.populated() == OperationsVtable::<T>::declared().callbacks().insert(
            ProcCallback::Open,
        ).insert(ProcCallback::Release),
        first.well_placed(),
{
    lemma_capability_gating(OperationsVtable::<T>::declared());
}

/// A proc filesystem entry that the host has created: a directory, or a
/// file whose operations are those of `T`.
pub struct ProcDirEntry<T = ()> {
    ptr: usize,
    marker: core::marker::PhantomData<T>,
}

/// The call that asks the host for a new directory.
#[derive(Debug, PartialEq, Eq)]
pub struct MkdirCall {
    /// The name of the directory.
    pub name: Vec<u8>,
    /// The access mode bits of the directory.
    pub mode: u16,
    /// The host's entry of the parent directory; 0 for the root.
    pub parent: usize,
}

/// The call that asks the host for a new file.
pub struct CreateCall<T: Operations> {
    /// The name of the file.
    pub name: Vec<u8>,
    /// The access mode bits of the file.
    pub mode: u16,
    /// The host's entry of the parent directory; 0 for the root.
    pub parent: usize,
    /// The callbacks of the file.
    pub proc_ops: ProcOps,
    /// The context of the entry, which every open of the file sees.
    pub data: Box<T::OpenData>,
}

/// The host's entry behind `parent`, and 0 where there is no parent.
pub open spec fn parent_ptr_of(parent: Option<&ProcDirEntry>) -> usize {
    match parent {
        Some(parent) => parent.as_ptr(),
        None => 0,
    }
}

/// What becomes of a call that creates an entry, given the entry that the
/// host returned for it: the entry, or, where the host returned none, the
/// report that it is out of memory.
pub open spec fn created<T>(ptr: usize, r: Result<ProcDirEntry<T>, Error>) -> bool {
    if ptr == 0 {
        r is Err && r->Err_0.has_kind(ErrorKind::OutOfMemory)
    } else {
        r is Ok && r->Ok_0.as_ptr() == ptr
    }
}

impl<T> ProcDirEntry<T> {
    #[verifier::type_invariant]
    spec fn non_null(self) -> bool {
        self.ptr != 0
    }

    /// The host's entry.
    pub closed spec fn spec_as_ptr(&self) -> usize {
        self.ptr
    }

    /// The host's entry. It is never null.
    #[verifier::when_used_as_spec(spec_as_ptr)]
    pub fn as_ptr(&self) -> (ptr: usize)
        ensures
            ptr == self.spec_as_ptr(),
            ptr != 0,
    {
        proof {
            use_type_invariant(self);
        }
        self.ptr
    }

    /// Gives the entry up. The host is to remove the entry returned, with
    /// all that is below it.
    pub fn remove(self) -> (ptr: usize)
        ensures
            ptr == self.as_ptr(),
            ptr != 0,
    {
        proof {
            use_type_invariant(&self);
        }
        self.ptr
    }

    /// The entry for what the host returned from creating it.
    fn from_raw(ptr: usize) -> (r: Result<Self, Error>)
        ensures
            created(ptr, r),
    {
        if ptr == 0 {
            Err(Error::new(ErrorKind::OutOfMemory))
        } else {
            Ok(ProcDirEntry { ptr, marker: core::marker::PhantomData })
        }
    }
}

impl ProcDirEntry {
    /// The host's entry behind `parent`, and null where there is no parent.
    pub fn parent_ptr(parent: Option<&ProcDirEntry>) -> (ptr: usize)
        ensures
            ptr == parent_ptr_of(parent),
    {
        if let Some(parent) = parent {
            parent.as_ptr()
        } else {
            0
        }
    }

    /// Describes the creation of a directory called `name` below `parent`,
    /// with no mode bits set.
    pub fn mkdir(name: &[u8], parent: Option<&ProcDirEntry>) -> (call: MkdirCall)
        ensures
            call.name@ == name@,
            call.mode == 0,
            call.parent == parent_ptr_of(parent),
    {
        Self::mkdir_mode(name, parent, Mode::from_int(0))
    }

    /// Describes the creation of a directory called `name` below `parent`,
    /// with the given mode.
    pub fn mkdir_mode(name: &[u8], parent: Option<&ProcDirEntry>, mode: Mode) -> (call: MkdirCall)
        ensures
            call.name@ == name@,
            call.mode == mode.as_int(),
            call.parent == parent_ptr_of(parent),
    {
        let parent_ptr = ProcDirEntry::parent_ptr(parent);
        MkdirCall { name: slice_to_vec(name), mode: mode.as_int(), parent: parent_ptr }
    }
}

impl MkdirCall {
    /// Takes the entry that the host returned for the call. A null entry
    /// means that the host is out of memory.
    pub fn complete(self, ptr: usize) -> (r: Result<ProcDirEntry, Error>)
        ensures
            created(ptr, r),
    {
        ProcDirEntry::from_raw(ptr)
    }
}

impl<T: Operations> ProcDirEntry<T> {
    /// Describes the creation of a file called `name` below `parent`, whose
    /// operations are those of `T` and whose opens all see `data`.
    pub fn new(name: &[u8], mode: Mode, parent: Option<&ProcDirEntry>, data: Box<T::OpenData>) -> (call:
        CreateCall<T>)
        ensures
            call.name@ == name@,
            call.mode == mode.as_int(),
            call.parent == parent_ptr_of(parent),
            call.data == data,
            call.proc_ops == OperationsVtable::<T>::table(),
    {
        let proc_ops = OperationsVtable::<T>::build();
        let parent_ptr = ProcDirEntry::parent_ptr(parent);
        CreateCall { name: slice_to_vec(name), mode: mode.as_int(), parent: parent_ptr, proc_ops, data }
    }
}

impl<T: Operations> CreateCall<T> {
    /// Takes the entry that the host returned for the call. A null entry
    /// means that the host is out of memory.
    ///
    /// With the entry comes the context that every open of the file sees.
    /// It has to live for as long as the entry does.
    pub fn complete(self, ptr: usize) -> (r: Result<(ProcDirEntry<T>, Box<T::OpenData>), Error>)
        ensures
            ptr == 0 ==> r is Err && r->Err_0.has_kind(ErrorKind::OutOfMemory),
            ptr != 0 ==> r is Ok && r->Ok_0.0.as_ptr() == ptr && r->Ok_0.1 == self.data,
    {
        match ProcDirEntry::from_raw(ptr) {
            Ok(entry) => Ok((entry, self.data)),
            Err(e) => Err(e),
        }
    }
}

} // verus!
