//! A sample for the proc filesystem: a directory below `samples`, and in it
//! the file `test`.
//!
//! The file holds a single byte of value 1. A read at the start of the file
//! returns it; a read anywhere else, or into an empty buffer, returns
//! nothing.

use vstd::prelude::*;
use vstd::slice::slice_to_vec;
use vstd::string::is_ascii_spec_bytes;
use vstd::string::StringSliceAdditionalSpecFns;
use crate::error::Error;
use crate::error::ErrorKind;
use crate::file::File;
use crate::file::Mode;
use crate::procfs::Capabilities;
use crate::procfs::CreateCall;
use crate::procfs::MkdirCall;
use crate::procfs::Operations;
use crate::procfs::OperationsVtable;
use crate::procfs::ProcDirEntry;
use crate::procfs::ProcOps;

verus! {

/// The operations of the sample file.
pub struct Test;

impl Test {
    /// What a read of at most `len` bytes at `offset` returns.
    pub open spec fn content(len: usize, offset: u64) -> Seq<u8> {
        if len == 0 || offset != 0 {
            Seq::empty()
        } else {
            seq![1u8]
        }
    }

    /// The operations that the sample file provides: reading, and nothing
    /// else.
    pub open spec fn provided() -> Capabilities {
        Capabilities {
            read: true,
            write: false,
            seek: false,
            poll: false,
            ioctl: false,
            compat_ioctl: false,
            mmap: false,
        }
    }
}

impl Operations for Test {
    type Data = ();

    type OpenData = ();

    const HAS_READ: bool = true;

    const HAS_WRITE: bool = false;

    const HAS_SEEK: bool = false;

    const HAS_POLL: bool = false;

    const HAS_IOCTL: bool = false;

    const HAS_COMPAT_IOCTL: bool = false;

    const HAS_MMAP: bool = false;

    fn open(_shared: &(), _file: &File) -> (r: Result<(), Error>)
        ensures
            r is Ok,
    {
        Ok(())
    }

    fn read(_data: &(), _file: &File, len: usize, offset: u64) -> (r: Result<Vec<u8>, Error>)
        ensures
            r is Ok,
            r->Ok_0@ == Test::content(len, offset),
    {
        let mut data: Vec<u8> = Vec::new();
        if len == 0 || offset != 0 {
            return Ok(data);
        }
        data.push(1);
        Ok(data)
    }
}

/// The sample file declares reading and nothing else, and its table is the
/// table for that.
pub proof fn lemma_sample_table()
    ensures
        OperationsVtable::<Test>::declared() == Test::provided(),
        OperationsVtable::<Test>::table() == ProcOps::of(Test::provided()),
{
}

/// The sample once it is up: its directory and its file.
pub struct RustProcFS {
    root: ProcDirEntry,
    file: ProcDirEntry<Test>,
    shared: Box<()>,
}

impl RustProcFS {
    /// The bytes of `samples/`, below which every sample has its directory.
    pub open spec fn prefix() -> Seq<u8> {
        seq![0x73u8, 0x61u8, 0x6du8, 0x70u8, 0x6cu8, 0x65u8, 0x73u8, 0x2fu8]
    }

    /// The bytes of `test`, the name of the file.
    pub open spec fn file_name() -> Seq<u8> {
        seq![0x74u8, 0x65u8, 0x73u8, 0x74u8]
    }

    /// The host's entry of the directory.
    pub closed spec fn root_ptr(&self) -> usize {
        self.root.as_ptr()
    }

    /// The host's entry of the file.
    pub closed spec fn file_ptr(&self) -> usize {
        self.file.as_ptr()
    }

    /// Starts the sample of the module called `name`: describes the creation
    /// of its directory, `samples/<name>` below the root.
    pub fn init(name: &[u8]) -> (call: MkdirCall)
        ensures
            call.name@ == RustProcFS::prefix() + name@,
            call.mode == 0,
            call.parent == 0,
    {
        let prefix = "samples/";
        proof {
            reveal_strlit("samples/");
            is_ascii_spec_bytes(prefix);
            assert(prefix.spec_bytes() =~= RustProcFS::prefix());
        }
        let mut root_name = slice_to_vec(prefix.as_bytes());
        let mut i: usize = 0;
        while i < name.len()
            invariant
                i <= name@.len(),
                root_name@ == RustProcFS::prefix() + name@.take(i as int),
            decreases name@.len() - i,
        {
            root_name.push(name[i]);
            assert(name@.take(i + 1) =~= name@.take(i as int).push(name@[i as int]));
            assert(RustProcFS::prefix() + name@.take(i + 1) =~= (RustProcFS::prefix() + name@.take(
                i as int,
            )).push(name@[i as int]));
            i += 1;
        }
        assert(name@.take(i as int) =~= name@);
        ProcDirEntry::mkdir(root_name.as_slice(), None)
    }

    /// Goes on once the host has answered the creation of the directory:
    /// with the directory, describes the creation of the file `test` in it.
    /// Without it the sample has failed.
    pub fn directory_created(call: MkdirCall, ptr: usize) -> (r: Result<
        (ProcDirEntry, CreateCall<Test>),
        Error,
    >)
        ensures
            ptr == 0 ==> r is Err && r->Err_0.has_kind(ErrorKind::OutOfMemory),
            ptr != 0 ==> r is Ok && ({
                let (root, file) = r->Ok_0;
                &&& root.as_ptr() == ptr
                &&& file.name@ == RustProcFS::file_name()
                &&& file.mode == 0
                &&& file.parent == ptr
                &&& file.proc_ops == ProcOps::of(Test::provided())
            }),
    {
        let root = match call.complete(ptr) {
            Ok(root) => root,
            Err(e) => {
                return Err(e);
            },
        };
        let file_name = "test";
        proof {
            reveal_strlit("test");
            is_ascii_spec_bytes(file_name);
            assert(file_name.spec_bytes() =~= RustProcFS::file_name());
        }
        let file = ProcDirEntry::<Test>::new(
            file_name.as_bytes(),
            Mode::from_int(0),
            Some(&root),
            Box::new(()),
        );
        proof {
            lemma_sample_table();
        }
        Ok((root, file))
    }

    /// Ends the start of the sample once the host has answered the creation
    /// of the file. Without the file the sample has failed, and the host is
    /// to remove the directory again, whose entry comes with the error.
    pub fn file_created(root: ProcDirEntry, call: CreateCall<Test>, ptr: usize) -> (r: Result<
        RustProcFS,
        (Error, usize),
    >)
        ensures
            ptr == 0 ==> r is Err && r->Err_0.0.has_kind(ErrorKind::OutOfMemory) && r->Err_0.1
                == root.as_ptr(),
            ptr != 0 ==> r is Ok && r->Ok_0.root_ptr() == root.as_ptr() && r->Ok_0.file_ptr()
                == ptr && r->Ok_0.shared_context() == *call.data,
    {
        match call.complete(ptr) {
            Ok((file, shared)) => Ok(RustProcFS { root, file, shared }),
            Err(e) => Err((e, root.remove())),
        }
    }

    /// The context that every open of the file sees.
    pub fn open_data(&self) -> (data: &())
        ensures
            *data == self.shared_context(),
    {
        &self.shared
    }

    /// Takes the sample down. The host is to remove the two entries
    /// returned: first the file, then the directory. With them comes the
    /// context that every open of the file sees; it is to live until the
    /// host has removed the file.
    pub fn exit(self) -> (parts: (usize, usize, Box<()>))
        ensures
            parts.0 == self.file_ptr(),
            parts.1 == self.root_ptr(),
            parts.0 != 0,
            parts.1 != 0,
    {
        let file = self.file.remove();
        let root = self.root.remove();
        (file, root, self.shared)
    }

    /// The context that the file was created with, which the sample keeps
    /// for as long as it is up.
    pub closed spec fn shared_context(&self) -> () {
        *self.shared
    }
}

} // verus!
