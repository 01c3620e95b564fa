//! I2C devices and drivers.
//!
//! The host's I2C core finds devices, matches them against the identifier
//! table of a driver and calls the driver back. This module is what stands
//! between those callbacks and a typed [`Driver`]: it derives the auxiliary
//! data of a matched record, keeps the driver's per-device context in the
//! device's slot, and encodes results the way the host reads them.
//!
//! Calls into the host are not made from here. A function that leads to one
//! returns a description of the call, and a second function takes what the
//! host answered.

pub mod msg_flags;

use vstd::prelude::*;
use vstd::slice::slice_to_vec;
use crate::error::Error;
use crate::error::ErrorKind;
use crate::error::is_error_code;
use crate::error::to_result;
use crate::handle::ContextSlot;
use crate::handle::Lifecycle;
use crate::id_table::IdTable;
use crate::id_table::Lookup;
use crate::id_table::RawDeviceId;

verus! {

/// The most bytes that a single transfer moves.
pub const MAX_TRANSFER: usize = 0xffff;

/// An I2C client device.
///
/// The client does not own the host's object; it refers to it for the length
/// of one callback.
pub struct Client {
    ptr: usize,
    addr: u16,
}

/// One transfer that the host is to perform on behalf of a client.
///
/// A transfer is neither copied nor cloned, and completing it consumes it:
/// for each transfer that was planned, the host is asked once.
pub struct Transfer {
    client: usize,
    flags: u16,
    count: u16,
}

impl Transfer {
    #[verifier::type_invariant]
    spec fn nonempty(self) -> bool {
        self.count > 0
    }

    /// The host object of the client that the transfer addresses.
    pub closed spec fn spec_client(&self) -> usize {
        self.client
    }

    /// The message flags of the transfer.
    pub closed spec fn spec_flags(&self) -> u16 {
        self.flags
    }

    /// The number of bytes to move.
    pub closed spec fn spec_count(&self) -> u16 {
        self.count
    }

    /// The host object of the client that the transfer addresses.
    #[verifier::when_used_as_spec(spec_client)]
    pub fn client(&self) -> (ptr: usize)
        ensures
            ptr == self.spec_client(),
    {
        self.client
    }

    /// The message flags of the transfer.
    #[verifier::when_used_as_spec(spec_flags)]
    pub fn flags(&self) -> (flags: u16)
        ensures
            flags == self.spec_flags(),
    {
        self.flags
    }

    /// The number of bytes to move: at least one, at most [`MAX_TRANSFER`].
    #[verifier::when_used_as_spec(spec_count)]
    pub fn count(&self) -> (count: u16)
        ensures
            count == self.spec_count(),
            0 < count <= MAX_TRANSFER,
    {
        proof {
            use_type_invariant(self);
        }
        self.count
    }

    /// Ends the transfer with the value that the host returned for it.
    pub fn complete(self, ret: i32) -> (r: Result<usize, Error>)
        ensures
            ret >= 0 ==> r == Ok::<usize, Error>(ret as usize),
            ret < 0 ==> r is Err && r->Err_0.code() == Error::accepted_code(ret as int),
    {
        match to_result(ret) {
            Err(e) => Err(e),
            Ok(()) => Ok(ret as usize),
        }
    }
}

impl Client {
    #[verifier::type_invariant]
    spec fn non_null(self) -> bool {
        self.ptr != 0
    }

    /// The host object that the client refers to.
    pub closed spec fn spec_raw_device(&self) -> usize {
        self.ptr
    }

    /// The address of the chip on its bus.
    pub closed spec fn spec_addr(&self) -> u16 {
        self.addr
    }

    /// Whether `r` is the plan for moving `len` bytes with `flags`: the
    /// refusal of a length that no single transfer moves, and else the one
    /// transfer that moves them.
    pub open spec fn plans(&self, len: nat, flags: u16, r: Result<Transfer, Error>) -> bool {
        &&& r is Err <==> len == 0 || len > MAX_TRANSFER
        &&& r matches Err(e) ==> e.has_kind(ErrorKind::InvalidArgument)
        &&& r matches Ok(t) ==> t.client() == self.raw_device() && t.flags() == flags && t.count()
            == len
    }

    /// A client for the host object at `ptr`, whose chip has address `addr`.
    pub fn from_ptr(ptr: usize, addr: u16) -> (client: Client)
        requires
            ptr != 0,
        ensures
            client.spec_raw_device() == ptr,
            client.spec_addr() == addr,
    {
        Client { ptr, addr }
    }

    /// The address of the chip on its bus.
    #[verifier::when_used_as_spec(spec_addr)]
    pub fn get_addr(&self) -> (addr: u16)
        ensures
            addr == self.spec_addr(),
    {
        self.addr
    }

    /// The host object that the client refers to. It is never null.
    #[verifier::when_used_as_spec(spec_raw_device)]
    pub fn raw_device(&self) -> (ptr: usize)
        ensures
            ptr == self.spec_raw_device(),
            ptr != 0,
    {
        proof {
            use_type_invariant(self);
        }
        self.ptr
    }

    /// Plans the transfer of the whole of `buf` with the given message flags.
    ///
    /// An empty buffer and one of more than [`MAX_TRANSFER`] bytes are
    /// refused as invalid arguments, and then the host is not asked at all.
    pub fn transfer_buffer_flags(&self, buf: &[u8], flags: u16) -> (r: Result<Transfer, Error>)
        ensures
            self.plans(buf@.len(), flags, r),
    {
        let count = buf.len();
        if count > MAX_TRANSFER || count == 0 {
            return Err(Error::new(ErrorKind::InvalidArgument));
        }
        Ok(Transfer { client: self.raw_device(), flags, count: count as u16 })
    }

    /// Plans a single message in master transmit mode: `buf` is written to
    /// the device.
    pub fn master_send(&self, buf: &[u8]) -> (r: Result<Transfer, Error>)
        ensures
            self.plans(buf@.len(), 0, r),
    {
        self.transfer_buffer_flags(buf, 0)
    }

    /// Plans a single message in master receive mode: `buf` is filled from
    /// the device.
    pub fn master_recv(&self, buf: &[u8]) -> (r: Result<Transfer, Error>)
        ensures
            self.plans(buf@.len(), msg_flags::RD, r),
    {
        self.transfer_buffer_flags(buf, msg_flags::RD)
    }
}

/// Cleanup that a context takes part in when its device is removed, after
/// the driver has seen the removal.
pub trait DeviceRemoval {
    /// Cleans up what does not end by dropping the context.
    fn device_remove(&self);
}

impl DeviceRemoval for () {
    fn device_remove(&self) {
    }
}

/// An I2C driver.
pub trait Driver {
    /// The context that the driver keeps for each device it is bound to.
    ///
    /// Callbacks on one device may run side by side, so the context is
    /// shared between threads.
    type Data: DeviceRemoval + Send + Sync;

    /// The auxiliary data that a record of the driver's identifier table
    /// carries.
    type IdInfo;

    /// Called when a device that the driver matches was added or found.
    /// The driver sets the device up and returns its context.
    fn probe(client: &Client, id_info: Option<&Self::IdInfo>) -> Result<Self::Data, Error>;

    /// Called when a device is removed, before its context is given up.
    fn remove(_data: &Self::Data) {
    }
}

/// The callbacks through which a driver is reached, as the host names them
/// in a driver record.
#[derive(Clone, Copy, PartialEq, Eq, Structural, Debug)]
pub enum Callback {
    /// The callback that binds a device: [`Adapter::probe_callback`].
    Probe,
    /// The callback that unbinds a device: [`Adapter::remove_callback`].
    Remove,
}

/// The record with which a driver is registered with the host.
#[derive(Debug, PartialEq, Eq)]
pub struct DriverRecord {
    /// The name of the driver.
    pub name: Vec<u8>,
    /// The callback for a device that matched.
    pub probe_new: Option<Callback>,
    /// The callback for a device that goes away.
    pub remove: Option<Callback>,
    /// The identifier table, closed by its all-zero record; `None` where the
    /// driver has no table.
    pub id_table: Option<Vec<RawDeviceId>>,
}

/// Proof of a registration that the host accepted. Unregistering consumes
/// it, so a driver is unregistered once.
pub struct Registration {
    record: DriverRecord,
}

impl Registration {
    /// The record that was registered.
    pub closed spec fn record(&self) -> DriverRecord {
        self.record
    }
}

/// The adapter between the host's I2C core and the driver `T`.
pub struct Adapter<T: Driver>(core::marker::PhantomData<T>);

impl<T: Driver> Adapter<T> {
    /// Whether `record` registers a driver called `name` with the callbacks
    /// of this adapter and the given raw identifier table.
    pub open spec fn describes(record: DriverRecord, name: Seq<u8>, table: Option<Seq<RawDeviceId>>) -> bool {
        &&& record.name@ == name
        &&& record.probe_new == Some(Callback::Probe)
        &&& record.remove == Some(Callback::Remove)
        &&& match table {
            Some(raw) => record.id_table is Some && record.id_table->0@ == raw,
            None => record.id_table is None,
        }
    }

    /// What `table` holds for a device that the host matched against the
    /// record at position `matched`: nothing where there is no table or no
    /// record of it matched, and else the record's auxiliary data, or that
    /// it has none.
    pub open spec fn found_of<const N: usize>(
        table: Option<&IdTable<T::IdInfo, N>>,
        matched: Option<usize>,
    ) -> Lookup<T::IdInfo> {
        match (table, matched) {
            (Some(table), Some(entry)) => if entry < N {
                match table.info(entry as int) {
                    None => Lookup::NoPayload,
                    Some(info) => Lookup::Payload(info),
                }
            } else {
                Lookup::NotFound
            },
            _ => Lookup::NotFound,
        }
    }

    /// Fills in the record with which the driver is registered under `name`.
    /// The host is to be handed this record.
    pub fn register<const N: usize>(name: &[u8], table: Option<&IdTable<T::IdInfo, N>>) -> (record:
        DriverRecord)
        ensures
            Self::describes(
                record,
                name@,
                match table {
                    Some(t) => Some(t.raw_table()),
                    None => None,
                },
            ),
    {
        let id_table = match table {
            Some(t) => Some(t.to_raw()),
            None => None,
        };
        DriverRecord {
            name: slice_to_vec(name),
            probe_new: Some(Callback::Probe),
            remove: Some(Callback::Remove),
            id_table,
        }
    }

    /// Takes the host's answer to the registration of `record`. On success
    /// the caller holds the registration; on failure nothing is registered.
    pub fn registered(record: DriverRecord, ret: i32) -> (r: Result<Registration, Error>)
        ensures
            ret >= 0 ==> r is Ok && r->Ok_0.record() == record,
            ret < 0 ==> r is Err && r->Err_0.code() == Error::accepted_code(ret as int),
    {
        match to_result(ret) {
            Ok(()) => Ok(Registration { record }),
            Err(e) => Err(e),
        }
    }

    /// Gives the registration up. The host is to delete the driver that the
    /// returned record names; after that it makes no further callbacks.
    pub fn unregister(registration: Registration) -> (record: DriverRecord)
        ensures
            record == registration.record(),
    {
        registration.record
    }

    /// Finds what `table` holds for a device that the host matched against
    /// the record at position `matched`.
    ///
    /// A record that matched and has no auxiliary data is told apart from no
    /// match at all. The data is found through the offset that the matched
    /// record carries; the table is not searched.
    pub fn get_id_info<'a, const N: usize>(
        table: Option<&'a IdTable<T::IdInfo, N>>,
        matched: Option<usize>,
    ) -> (found: Lookup<&'a T::IdInfo>)
        ensures
            found is NotFound <==> (table is None || matched is None || matched->0 >= N),
            found is NoPayload <==> (table is Some && matched is Some && matched->0 < N
                && table->0.info(matched->0 as int) is None),
            found matches Lookup::Payload(data) ==> (table is Some && matched is Some && matched->0
                < N && table->0.info(matched->0 as int) == Some(*data)),
            match found {
                Lookup::NotFound => Self::found_of(table, matched) is NotFound,
                Lookup::NoPayload => Self::found_of(table, matched) is NoPayload,
                Lookup::Payload(data) => Self::found_of(table, matched) == Lookup::Payload(*data),
            },
    {
        let table = match table {
            Some(table) => table,
            None => {
                return Lookup::NotFound;
            },
        };
        let entry = match matched {
            Some(entry) => entry,
            None => {
                return Lookup::NotFound;
            },
        };
        if entry >= table.len() {
            return Lookup::NotFound;
        }
        match table.id_info(entry) {
            Some(info) => Lookup::Payload(info),
            None => Lookup::NoPayload,
        }
    }

    /// What a probe leaves behind, given what the driver returned: a bound
    /// device that owns the driver's context and the code 0, or an unbound
    /// device and the code of the driver's error, which is negative.
    pub open spec fn probe_outcome(
        result: Result<T::Data, Error>,
        ret: i32,
        clientdata: Lifecycle<T::Data>,
    ) -> bool {
        match result {
            Ok(data) => ret == 0 && clientdata == Lifecycle::Open(data),
            Err(e) => ret == e.code() && is_error_code(ret as int) && clientdata is Unopened,
        }
    }

    /// Stores what the driver returned from its probe, and encodes it for
    /// the host. The host is told 0 exactly where the device is now bound.
    pub fn finish_probe(result: Result<T::Data, Error>, clientdata: &mut ContextSlot<T::Data>) -> (ret:
        i32)
        requires
            old(clientdata)@ is Unopened,
        ensures
            Self::probe_outcome(result, ret, final(clientdata)@),
            ret == 0 <==> final(clientdata)@ is Open,
            ret == 0 <==> result is Ok,
    {
        match result {
            Ok(data) => {
                clientdata.store(data);
                0
            },
            Err(e) => e.to_kernel_errno(),
        }
    }

    /// Binds a device: called by the host for a device that matched the
    /// driver, `matched` being the position of the matching record.
    ///
    /// The callback finds what the table holds for the device, as
    /// [`Adapter::found_of`] says: auxiliary data, a match without any, or
    /// no match. The driver's probe is called with the client and with the
    /// data where there is some. What it returns decides the outcome, as
    /// [`Adapter::probe_outcome`] says; the host is told 0 exactly where the
    /// device is now bound, and a negative code where it is not.
    pub fn probe_callback<const N: usize>(
        table: Option<&IdTable<T::IdInfo, N>>,
        matched: Option<usize>,
        client: &Client,
        clientdata: &mut ContextSlot<T::Data>,
    ) -> (ret: i32)
        requires
            old(clientdata)@ is Unopened,
        ensures
            exists|info: Option<&T::IdInfo>, result: Result<T::Data, Error>|
                {
                    &&& info is Some <==> Self::found_of(table, matched) is Payload
                    &&& info matches Some(data) ==> Self::found_of(table, matched)
                        == Lookup::Payload(*data)
                    &&& #[trigger] call_ensures(T::probe, (client, info), result)
                    &&& Self::probe_outcome(result, ret, final(clientdata)@)
                },
            ret == 0 <==> final(clientdata)@ is Open,
            ret != 0 ==> is_error_code(ret as int) && final(clientdata)@ is Unopened,
    {
        let found = Self::get_id_info(table, matched);
        let info = found.payload();
        let result = T::probe(client, info);
        Self::finish_probe(result, clientdata)
    }

    /// Unbinds a device: called by the host once, after every other callback
    /// on the device has returned.
    ///
    /// The context leaves the device's slot for good. The driver sees the
    /// removal first, then the context's own cleanup runs, then the context
    /// is dropped.
    pub fn remove_callback(clientdata: &mut ContextSlot<T::Data>)
        requires
            old(clientdata)@ is Open,
        ensures
            final(clientdata)@ is Released,
            call_ensures(T::remove, (&old(clientdata)@->Open_0,), ()),
            call_ensures(
                <T::Data as DeviceRemoval>::device_remove,
                (&old(clientdata)@->Open_0,),
                (),
            ),
    {
        let data = clientdata.reclaim();
        T::remove(&data);
        data.device_remove();
    }
}

} // verus!
