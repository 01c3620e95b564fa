//! Device identifier tables in the shape the host's matching code expects.

use vstd::prelude::*;
use crate::error::Error;
use crate::error::ErrorKind;

verus! {

/// The width of the name field of a host identifier record, the terminating
/// NUL included.
pub const NAME_SIZE: usize = 20;

/// The length of the C string that `bytes` holds: the number of bytes in
/// front of the first NUL, or all of them where there is none.
pub open spec fn c_len(bytes: Seq<u8>) -> nat
    decreases bytes.len(),
{
    if bytes.len() == 0 || bytes[0] == 0 {
        0
    } else {
        1 + c_len(bytes.drop_first())
    }
}

/// The C string that `bytes` holds: what the host reads when it is handed
/// the bytes as a name.
pub open spec fn c_str(bytes: Seq<u8>) -> Seq<u8> {
    bytes.take(c_len(bytes) as int)
}

/// `c_len` is the position of the first NUL.
pub proof fn lemma_c_len(bytes: Seq<u8>)
    ensures
        c_len(bytes) <= bytes.len(),
        forall|i: int| 0 <= i < c_len(bytes) ==> bytes[i] != 0,
        c_len(bytes) < bytes.len() ==> bytes[c_len(bytes) as int] == 0,
    decreases bytes.len(),
{
    if bytes.len() == 0 || bytes[0] == 0 {
    } else {
        let rest = bytes.drop_first();
        lemma_c_len(rest);
        assert forall|i: int| 0 <= i < c_len(bytes) implies bytes[i] != 0 by {
            if i > 0 {
                assert(rest[i - 1] == bytes[i]);
            }
        }
        if c_len(bytes) < bytes.len() {
            assert(rest[c_len(rest) as int] == bytes[c_len(bytes) as int]);
        }
    }
}

/// A position with no NUL in front of it, and a NUL or the end at it, is
/// `c_len`.
pub proof fn lemma_c_len_is(bytes: Seq<u8>, n: int)
    requires
        0 <= n <= bytes.len(),
        forall|i: int| 0 <= i < n ==> bytes[i] != 0,
        n < bytes.len() ==> bytes[n] == 0,
    ensures
        c_len(bytes) == n,
{
    lemma_c_len(bytes);
    let m = c_len(bytes) as int;
    if m < n {
        assert(bytes[m] == 0);
    } else if n < m {
        assert(bytes[n] == 0);
    }
}

/// An identifier under which a device is known to the bus.
#[derive(Clone, Copy, Debug)]
pub struct DeviceId(pub &'static [u8]);

/// One record of the host's identifier table.
#[derive(Clone, Copy, Debug, PartialEq, Eq)]
pub struct RawDeviceId {
    /// The name, NUL-terminated within the field and zero-filled behind.
    pub name: [u8; NAME_SIZE],
    /// Where the auxiliary data of the record lives; 0 where it has none.
    pub driver_data: isize,
}

impl RawDeviceId {
    /// Whether every byte of the name is zero: the mark of the record that
    /// ends a table.
    pub open spec fn is_zero(self) -> bool {
        &&& self.driver_data == 0
        &&& forall|i: int| 0 <= i < NAME_SIZE ==> self.name@[i] == 0
    }

    /// The record that ends a table.
    pub fn zero() -> (raw: RawDeviceId)
        ensures
            raw.is_zero(),
    {
        RawDeviceId { name: [0u8; NAME_SIZE], driver_data: 0 }
    }
}

impl DeviceId {
    /// Whether the identifier fits the host's name field with its
    /// terminating NUL.
    pub open spec fn fits(self) -> bool {
        self.0@.len() < NAME_SIZE
    }

    /// The name field that stands for the identifier: its bytes, then zeros
    /// up to the width of the field.
    pub open spec fn raw_name(self) -> Seq<u8> {
        Seq::new(NAME_SIZE as nat, |i: int| if i < self.0@.len() { self.0@[i] } else { 0u8 })
    }

    /// Whether the identifier fits the host's name field.
    pub fn check_fits(&self) -> (fits: bool)
        ensures
            fits == self.fits(),
    {
        self.0.len() < NAME_SIZE
    }

    /// The host record for the identifier, with `offset` as the place of its
    /// auxiliary data.
    pub fn to_rawid(&self, offset: isize) -> (raw: RawDeviceId)
        requires
            self.fits(),
        ensures
            raw.name@ == self.raw_name(),
            raw.driver_data == offset,
    {
        let mut id = RawDeviceId::zero();
        let mut i: usize = 0;
        while i < self.0.len()
            invariant
                i <= self.0@.len() < NAME_SIZE,
                forall|j: int| 0 <= j < i ==> id.name@[j] == self.0@[j],
                forall|j: int| i <= j < NAME_SIZE ==> id.name@[j] == 0,
            decreases self.0@.len() - i,
        {
            id.name[i] = self.0[i];
            i += 1;
        }
        id.name[i] = 0;
        id.driver_data = offset;
        assert(id.name@ =~= self.raw_name());
        id
    }
}

/// The host reads from the name field the same C string as from the
/// identifier itself.
pub proof fn lemma_raw_name_c_str(id: DeviceId)
    requires
        id.fits(),
    ensures
        c_str(id.raw_name()) == c_str(id.0@),
        c_len(id.raw_name()) < NAME_SIZE,
{
    let name = id.0@;
    let raw = id.raw_name();
    lemma_c_len(name);
    let n = c_len(name) as int;
    lemma_c_len_is(raw, n);
    assert(raw.take(n) =~= name.take(n));
}


/// Compares a name field with a name as the host does: up to the first NUL
/// of each.
pub fn name_matches(field: &[u8; NAME_SIZE], name: &[u8]) -> (same: bool)
    ensures
        same == (c_str(field@) == c_str(name@)),
{
    proof {
        lemma_c_len(field@);
        lemma_c_len(name@);
    }
    let mut i: usize = 0;
    loop
        invariant
            i <= c_len(field@) <= NAME_SIZE,
            i <= c_len(name@) <= name@.len(),
            forall|j: int| 0 <= j < i ==> field@[j] == name@[j],
            forall|j: int| 0 <= j < c_len(field@) ==> field@[j] != 0,
            forall|j: int| 0 <= j < c_len(name@) ==> name@[j] != 0,
            c_len(field@) < NAME_SIZE ==> field@[c_len(field@) as int] == 0,
            c_len(name@) < name@.len() ==> name@[c_len(name@) as int] == 0,
        decreases NAME_SIZE - i,
    {
        let a = if i < NAME_SIZE {
            field[i]
        } else {
            0
        };
        let b = if i < name.len() {
            name[i]
        } else {
            0
        };
        if a != b {
            proof {
                if a != 0 && b != 0 {
                    assert(c_str(field@)[i as int] == a);
                    assert(c_str(name@)[i as int] == b);
                } else {
                    assert(c_str(field@).len() != c_str(name@).len());
                }
            }
            return false;
        }
        if a == 0 {
            assert(c_str(field@) =~= c_str(name@));
            return true;
        }
        i += 1;
    }
}

/// What a table holds for a name.
#[derive(Debug, PartialEq, Eq)]
pub enum Lookup<T> {
    /// No record of the table carries the name.
    NotFound,
    /// A record carries the name and has no auxiliary data.
    NoPayload,
    /// A record carries the name, with this auxiliary data.
    Payload(T),
}

impl<T> Lookup<T> {
    /// The auxiliary data that was found, where any was.
    pub open spec fn spec_payload(self) -> Option<T> {
        match self {
            Lookup::Payload(data) => Some(data),
            _ => None,
        }
    }

    /// The auxiliary data that was found, where any was.
    #[verifier::when_used_as_spec(spec_payload)]
    pub fn payload(self) -> (data: Option<T>)
        ensures
            data == self.spec_payload(),
    {
        match self {
            Lookup::Payload(data) => Some(data),
            _ => None,
        }
    }
}

/// A table of `N` identifier records, each with its optional auxiliary data.
///
/// The records are followed by an all-zero record, at which the host's scan
/// stops. The auxiliary data lives in a second array, index by index beside
/// the records; a record finds its data through its offset, which is its
/// position in the table counted from one, so that no record with data has
/// offset 0.
pub struct IdTable<U, const N: usize> {
    ids: [RawDeviceId; N],
    sentinel: RawDeviceId,
    id_infos: [Option<U>; N],
}

impl<U, const N: usize> IdTable<U, N> {
    #[verifier::type_invariant]
    spec fn wf(self) -> bool {
        &&& self.sentinel.is_zero()
        &&& forall|i: int|
            0 <= i < N ==> (#[trigger] self.ids@[i]).driver_data == i + 1 && c_len(
                self.ids@[i].name@,
            ) < NAME_SIZE
    }

    /// The record at position `i`.
    pub closed spec fn raw(self, i: int) -> RawDeviceId
        recommends
            0 <= i < N,
    {
        self.ids@[i]
    }

    /// The auxiliary data that belongs to the record at position `i`.
    pub closed spec fn info(self, i: int) -> Option<U>
        recommends
            0 <= i < N,
    {
        self.id_infos@[i]
    }

    /// The table as the host walks it: the records, then the all-zero
    /// record that ends it.
    pub closed spec fn raw_table(self) -> Seq<RawDeviceId> {
        self.ids@.push(self.sentinel)
    }

    /// The C string that the host reads as the name of record `i`.
    pub open spec fn name(self, i: int) -> Seq<u8>
        recommends
            0 <= i < N,
    {
        c_str(self.raw(i).name@)
    }

    /// Whether the table holds exactly the given identifiers with the given
    /// auxiliary data, in this order.
    pub open spec fn holds(self, ids: Seq<DeviceId>, infos: Seq<Option<U>>) -> bool {
        &&& ids.len() == N
        &&& infos.len() == N
        &&& forall|i: int|
            0 <= i < N ==> {
                &&& (#[trigger] ids[i]).fits()
                &&& self.raw(i).name@ == ids[i].raw_name()
                &&& self.raw(i).driver_data == i + 1
                &&& self.info(i) == infos[i]
            }
    }

    /// Whether the host's scan, looking for `key`, stops at record `i` with
    /// a match: the record carries the name, and the scan neither ran into
    /// an empty name nor found the name before it got there.
    pub open spec fn first_match(self, key: Seq<u8>, i: int) -> bool {
        &&& 0 <= i < N
        &&& self.name(i) == c_str(key)
        &&& forall|j: int| 0 <= j <= i ==> (#[trigger] self.name(j)).len() > 0
        &&& forall|j: int| 0 <= j < i ==> #[trigger] self.name(j) != c_str(key)
    }

    /// The position at which the host's scan for `key` stops with a match.
    pub open spec fn match_of(self, key: Seq<u8>) -> Option<int> {
        if exists|i: int| self.first_match(key, i) {
            Some(choose|i: int| self.first_match(key, i))
        } else {
            None
        }
    }

    /// What the table holds for `key`.
    pub open spec fn lookup_of(self, key: Seq<u8>) -> Lookup<U> {
        match self.match_of(key) {
            None => Lookup::NotFound,
            Some(i) => match self.info(i) {
                None => Lookup::NoPayload,
                Some(info) => Lookup::Payload(info),
            },
        }
    }

    /// Builds the table for the given identifiers and their auxiliary data.
    ///
    /// An identifier that does not fit the host's name field is refused, and
    /// so is a table with more records than an offset can number.
    pub fn new(ids: [DeviceId; N], infos: [Option<U>; N]) -> (r: Result<Self, Error>)
        ensures
            r is Err <==> N >= isize::MAX || exists|i: int| 0 <= i < N && !(#[trigger] ids@[i]).fits(),
            r matches Err(e) ==> e.has_kind(ErrorKind::InvalidArgument),
            r matches Ok(table) ==> table.holds(ids@, infos@),
    {
        if N >= isize::MAX as usize {
            return Err(Error::new(ErrorKind::InvalidArgument));
        }
        let mut raw = [RawDeviceId::zero(); N];
        let mut i: usize = 0;
        while i < N
            invariant
                i <= N < isize::MAX,
                forall|j: int| 0 <= j < i ==> (#[trigger] ids@[j]).fits(),
                forall|j: int|
                    0 <= j < i ==> (#[trigger] raw@[j]).name@ == ids@[j].raw_name() && raw@[j].driver_data
                        == j + 1,
            decreases N - i,
        {
            if !ids[i].check_fits() {
                return Err(Error::new(ErrorKind::InvalidArgument));
            }
            raw[i] = ids[i].to_rawid((i + 1) as isize);
            i += 1;
        }
        proof {
            assert forall|j: int| 0 <= j < N implies c_len((#[trigger] raw@[j]).name@)
                < NAME_SIZE by {
                lemma_raw_name_c_str(ids@[j]);
            }
        }
        Ok(IdTable { ids: raw, sentinel: RawDeviceId::zero(), id_infos: infos })
    }

    /// The number of records, the one that ends the table not counted.
    pub fn len(&self) -> (n: usize)
        ensures
            n == N,
    {
        N
    }

    /// The table as the host is handed it: the records in order, then the
    /// all-zero record that ends it.
    pub fn to_raw(&self) -> (raw: Vec<RawDeviceId>)
        ensures
            raw@ == self.raw_table(),
            raw@.len() == N + 1,
            forall|i: int| 0 <= i < N ==> raw@[i] == self.raw(i),
            raw@[N as int].is_zero(),
    {
        proof {
            use_type_invariant(self);
        }
        let mut raw: Vec<RawDeviceId> = Vec::new();
        let mut i: usize = 0;
        while i < N
            invariant
                i <= N,
                raw@ == self.ids@.take(i as int),
            decreases N - i,
        {
            raw.push(self.ids[i]);
            assert(self.ids@.take(i + 1) =~= self.ids@.take(i as int).push(self.ids@[i as int]));
            i += 1;
        }
        assert(self.ids@.take(N as int) =~= self.ids@);
        raw.push(self.sentinel);
        raw
    }

    /// Scans the table for `name` as the host does: record by record, up to
    /// the first record whose name is empty, comparing C strings.
    pub fn match_id(&self, name: &[u8]) -> (found: Option<usize>)
        ensures
            found matches Some(i) ==> self.first_match(name@, i as int),
            found is None ==> forall|i: int| !self.first_match(name@, i),
            match found {
                Some(i) => self.match_of(name@) == Some(i as int),
                None => self.match_of(name@) is None,
            },
    {
        proof {
            use_type_invariant(self);
        }
        let mut i: usize = 0;
        while i < N
            invariant
                i <= N,
                self.wf(),
                forall|j: int| 0 <= j < i ==> (#[trigger] self.name(j)).len() > 0,
                forall|j: int| 0 <= j < i ==> #[trigger] self.name(j) != c_str(name@),
            decreases N - i,
        {
            let id = &self.ids[i];
            proof {
                lemma_c_len(id.name@);
            }
            if id.name[0] == 0 {
                assert(self.name(i as int).len() == 0);
                return None;
            }
            if name_matches(&id.name, name) {
                proof {
                    self.lemma_first_match_unique(name@, i as int);
                }
                return Some(i);
            }
            i += 1;
        }
        None
    }

    /// The auxiliary data of the record at position `entry`, found through
    /// the offset that the record carries. There is none for a position
    /// behind the last record.
    pub fn id_info(&self, entry: usize) -> (info: Option<&U>)
        ensures
            info is Some <==> entry < N && self.info(entry as int) is Some,
            info matches Some(data) ==> Some(*data) == self.info(entry as int),
    {
        proof {
            use_type_invariant(self);
        }
        if entry >= N {
            return None;
        }
        let offset = self.ids[entry].driver_data;
        if offset == 0 {
            return None;
        }
        let slot = (offset - 1) as usize;
        self.id_infos[slot].as_ref()
    }

    /// Looks `name` up: scans for it as the host does and, on a match, finds
    /// the auxiliary data of the matching record.
    pub fn lookup(&self, name: &[u8]) -> (found: Lookup<&U>)
        ensures
            match found {
                Lookup::NotFound => self.lookup_of(name@) is NotFound,
                Lookup::NoPayload => self.lookup_of(name@) is NoPayload,
                Lookup::Payload(data) => self.lookup_of(name@) == Lookup::Payload(*data),
            },
    {
        match self.match_id(name) {
            None => Lookup::NotFound,
            Some(i) => {
                match self.id_info(i) {
                    None => Lookup::NoPayload,
                    Some(info) => Lookup::Payload(info),
                }
            },
        }
    }

    /// The scan stops at one position at most.
    pub proof fn lemma_first_match_unique(self, key: Seq<u8>, i: int)
        requires
            self.first_match(key, i),
        ensures
            self.match_of(key) == Some(i),
    {
        let k = choose|k: int| self.first_match(key, k);
        if k < i {
            assert(self.name(k) != c_str(key));
        } else if i < k {
            assert(self.name(i) != c_str(key));
        }
    }
}

/// A table gives back what was put into it.
///
/// Looking up the identifier of record `i` finds the auxiliary data of that
/// record, or that it has none. This holds of every identifier that the host
/// can find at all: it is not empty as a C string, no record in front of it
/// has an empty name, at which the scan would stop, and no record in front
/// of it carries the same name, which the scan would find first.
pub proof fn lemma_lookup_inserted<U, const N: usize>(
    table: IdTable<U, N>,
    ids: Seq<DeviceId>,
    infos: Seq<Option<U>>,
    i: int,
)
    requires
        table.holds(ids, infos),
        0 <= i < N,
        forall|j: int| 0 <= j <= i ==> c_len(#[trigger] ids[j].0@) > 0,
        forall|j: int| 0 <= j < i ==> c_str(#[trigger] ids[j].0@) != c_str(ids[i].0@),
    ensures
        table.match_of(ids[i].0@) == Some(i),
        table.lookup_of(ids[i].0@) == match infos[i] {
            None => Lookup::<U>::NoPayload,
            Some(info) => Lookup::Payload(info),
        },
{
    let key = ids[i].0@;
    assert forall|j: int| 0 <= j < N implies #[trigger] table.name(j) == c_str(ids[j].0@) by {
        assert(ids[j].fits());
        lemma_raw_name_c_str(ids[j]);
    }
    assert(table.first_match(key, i)) by {
        assert forall|j: int| 0 <= j <= i implies (#[trigger] table.name(j)).len() > 0 by {
            lemma_c_len(ids[j].0@);
        }
        assert forall|j: int| 0 <= j < i implies #[trigger] table.name(j) != c_str(key) by {
            assert(c_str(ids[j].0@) != c_str(ids[i].0@));
        }
    }
    table.lemma_first_match_unique(key, i);
    assert(ids[i].fits());
}

/// A table holds nothing for a name that no record carries.
pub proof fn lemma_lookup_absent<U, const N: usize>(
    table: IdTable<U, N>,
    ids: Seq<DeviceId>,
    infos: Seq<Option<U>>,
    key: Seq<u8>,
)
    requires
        table.holds(ids, infos),
        forall|j: int| 0 <= j < N ==> c_str(#[trigger] ids[j].0@) != c_str(key),
    ensures
        table.match_of(key) is None,
        table.lookup_of(key) is NotFound,
{
    assert forall|i: int| !table.first_match(key, i) by {
        if 0 <= i < N {
            assert(ids[i].fits());
            lemma_raw_name_c_str(ids[i]);
            assert(c_str(ids[i].0@) != c_str(key));
        }
    }
}

} // verus!
