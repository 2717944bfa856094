//! The Object Dictionary: an ordered, binary-searchable directory from
//! `(index, subindex)` pairs to typed storage slots with per-slot access
//! flags.

pub mod datalink;
pub mod object;
pub mod od_cell;

pub use datalink::OdArray;

use vstd::prelude::*;

use crate::objectdictionary::datalink::{
    object_read_bytes, object_write_post, parse_u32, read_agrees, spec_parse_u32, OdObject,
    ReadData, WriteData,
};
use crate::objectdictionary::object::ObjectFlags;
use crate::pdo::{spec_unpack_object_data, unpack_object_data, CobIdUpdate, TPDO};
use crate::sdo::SDOAbortCode;

verus! {

/// The errors an Object Dictionary access can produce. Every variant stands
/// for the same-named SDO abort code, so a failed access propagates to the
/// wire without translation loss.
#[derive(Clone, Copy, PartialEq, Eq, Structural, Debug)]
pub enum ODError {
    ObjectDoesNotExist,
    OutOfMemory,
    UnsupportedAccess,
    WriteOnlyError,
    ReadOnlyError,
    ObjectCannotBeMapped,
    PDOOverflow,
    ParameterIncompatibility,
    InternalIncompatibility,
    HardwareError,
    WrongLength,
    TooLong,
    TooShort,
    SubindexDoesNotExist,
    InvalidValue,
    ValueTooHigh,
    ValueTooLow,
    MaxLessThanMin,
    ResourceNotAvailable,
    GeneralError,
    TransferOrStorageError,
    LocalControlError,
    DeviceStateError,
    DictionaryError,
    NoDataAvailable,
}

impl ODError {
    /// The same-named SDO abort code.
    pub open spec fn spec_abort_code(self) -> SDOAbortCode {
        match self {
            ODError::ObjectDoesNotExist => SDOAbortCode::ObjectDoesNotExist,
            ODError::OutOfMemory => SDOAbortCode::OutOfMemory,
            ODError::UnsupportedAccess => SDOAbortCode::UnsupportedAccess,
            ODError::WriteOnlyError => SDOAbortCode::WriteOnlyError,
            ODError::ReadOnlyError => SDOAbortCode::ReadOnlyError,
            ODError::ObjectCannotBeMapped => SDOAbortCode::ObjectCannotBeMapped,
            ODError::PDOOverflow => SDOAbortCode::PDOOverflow,
            ODError::ParameterIncompatibility => SDOAbortCode::ParameterIncompatibility,
            ODError::InternalIncompatibility => SDOAbortCode::InternalIncompatibility,
            ODError::HardwareError => SDOAbortCode::HardwareError,
            ODError::WrongLength => SDOAbortCode::WrongLength,
            ODError::TooLong => SDOAbortCode::TooLong,
            ODError::TooShort => SDOAbortCode::TooShort,
            ODError::SubindexDoesNotExist => SDOAbortCode::SubindexDoesNotExist,
            ODError::InvalidValue => SDOAbortCode::InvalidValue,
            ODError::ValueTooHigh => SDOAbortCode::ValueTooHigh,
            ODError::ValueTooLow => SDOAbortCode::ValueTooLow,
            ODError::MaxLessThanMin => SDOAbortCode::MaxLessThanMin,
            ODError::ResourceNotAvailable => SDOAbortCode::ResourceNotAvailable,
            ODError::GeneralError => SDOAbortCode::GeneralError,
            ODError::TransferOrStorageError => SDOAbortCode::TransferOrStorageError,
            ODError::LocalControlError => SDOAbortCode::LocalControlError,
            ODError::DeviceStateError => SDOAbortCode::DeviceStateError,
            ODError::DictionaryError => SDOAbortCode::DictionaryError,
            ODError::NoDataAvailable => SDOAbortCode::NoDataAvailable,
        }
    }

    /// Convert a dictionary error into the abort code it is sent as.
    pub fn abort_code(self) -> (r: SDOAbortCode)
        ensures
            r == self.spec_abort_code(),
    {
        match self {
            ODError::ObjectDoesNotExist => SDOAbortCode::ObjectDoesNotExist,
            ODError::OutOfMemory => SDOAbortCode::OutOfMemory,
            ODError::UnsupportedAccess => SDOAbortCode::UnsupportedAccess,
            ODError::WriteOnlyError => SDOAbortCode::WriteOnlyError,
            ODError::ReadOnlyError => SDOAbortCode::ReadOnlyError,
            ODError::ObjectCannotBeMapped => SDOAbortCode::ObjectCannotBeMapped,
            ODError::PDOOverflow => SDOAbortCode::PDOOverflow,
            ODError::ParameterIncompatibility => SDOAbortCode::ParameterIncompatibility,
            ODError::InternalIncompatibility => SDOAbortCode::InternalIncompatibility,
            ODError::HardwareError => SDOAbortCode::HardwareError,
            ODError::WrongLength => SDOAbortCode::WrongLength,
            ODError::TooLong => SDOAbortCode::TooLong,
            ODError::TooShort => SDOAbortCode::TooShort,
            ODError::SubindexDoesNotExist => SDOAbortCode::SubindexDoesNotExist,
            ODError::InvalidValue => SDOAbortCode::InvalidValue,
            ODError::ValueTooHigh => SDOAbortCode::ValueTooHigh,
            ODError::ValueTooLow => SDOAbortCode::ValueTooLow,
            ODError::MaxLessThanMin => SDOAbortCode::MaxLessThanMin,
            ODError::ResourceNotAvailable => SDOAbortCode::ResourceNotAvailable,
            ODError::GeneralError => SDOAbortCode::GeneralError,
            ODError::TransferOrStorageError => SDOAbortCode::TransferOrStorageError,
            ODError::LocalControlError => SDOAbortCode::LocalControlError,
            ODError::DeviceStateError => SDOAbortCode::DeviceStateError,
            ODError::DictionaryError => SDOAbortCode::DictionaryError,
            ODError::NoDataAvailable => SDOAbortCode::NoDataAvailable,
        }
    }
}

/// The position of an entry inside the Object Dictionary's directory.
#[derive(Clone, Copy, PartialEq, Eq, Structural, Debug)]
pub struct OdPosition(pub usize);

/// `(i1, s1)` addresses a strictly earlier slot than `(i2, s2)`.
pub open spec fn addr_lt(i1: u16, s1: u8, i2: u16, s2: u8) -> bool {
    i1 < i2 || (i1 == i2 && s1 < s2)
}

/// The Object Dictionary of one node.
///
/// Four parallel directory columns (`indices`, `subindices`, `flags`,
/// `offsets`) describe the slots; `offsets[i]` names the storage slot in
/// `objects` that entry `i` resolves to. Several entries may share one
/// storage slot (an array occupies one slot under all its subindices). The
/// directory is kept strictly sorted by `(index, subindex)`.
pub struct ObjectDictionary {
    pub indices: Vec<u16>,
    pub subindices: Vec<u8>,
    pub flags: Vec<ObjectFlags>,
    pub offsets: Vec<usize>,
    pub objects: Vec<OdObject>,
}

impl ObjectDictionary {
    /// Number of directory entries.
    pub open spec fn spec_len(self) -> int {
        self.indices@.len() as int
    }

    /// The directory is strictly sorted: indices are non-decreasing and
    /// within a run of one index the subindices strictly increase.
    pub open spec fn spec_sorted(self) -> bool {
        forall|i: int, j: int|
            0 <= i < j < self.spec_len() ==> addr_lt(
                self.indices@[i],
                self.subindices@[i],
                self.indices@[j],
                self.subindices@[j],
            )
    }

    /// The entry's registration is consistent with the slot it resolves to.
    pub open spec fn spec_entry_compatible(self, i: int) -> bool {
        match self.objects@[self.offsets@[i] as int] {
            OdObject::Array(a) => self.subindices@[i] <= a.array@.len(),
            _ => true,
        }
    }

    /// Well-formedness: parallel columns of one length, sorted directory,
    /// offsets inside the storage pool, valid flags, valid slots, and each
    /// entry compatible with its slot.
    pub open spec fn wf(self) -> bool {
        &&& self.subindices@.len() == self.spec_len()
        &&& self.flags@.len() == self.spec_len()
        &&& self.offsets@.len() == self.spec_len()
        &&& self.spec_sorted()
        &&& forall|i: int| 0 <= i < self.spec_len() ==> self.offsets@[i] < self.objects@.len()
        &&& forall|i: int| 0 <= i < self.spec_len() ==> (#[trigger] self.flags@[i]).wf()
        &&& forall|k: int| 0 <= k < self.objects@.len() ==> (#[trigger] self.objects@[k]).wf()
        &&& forall|i: int| 0 <= i < self.spec_len() ==> self.spec_entry_compatible(i)
    }

    /// Some entry carries this index.
    pub open spec fn has_index(self, index: u16) -> bool {
        exists|i: int| 0 <= i < self.spec_len() && self.indices@[i] == index
    }

    /// Some entry carries this `(index, subindex)` pair.
    pub open spec fn has_pair(self, index: u16, subindex: u8) -> bool {
        exists|i: int|
            0 <= i < self.spec_len() && self.indices@[i] == index && self.subindices@[i]
                == subindex
    }

    /// The position of the `(index, subindex)` entry.
    pub open spec fn pos_of(self, index: u16, subindex: u8) -> int {
        choose|i: int|
            0 <= i < self.spec_len() && self.indices@[i] == index && self.subindices@[i]
                == subindex
    }

    /// The storage slot an entry resolves to.
    pub open spec fn object_at(self, i: int) -> OdObject {
        self.objects@[self.offsets@[i] as int]
    }

    /// The directory order law: in a well-formed dictionary the indices
    /// are non-decreasing, and inside every run of equal indices the
    /// subindices strictly increase.
    pub proof fn lemma_directory_ordering(self)
        requires
            self.wf(),
        ensures
            forall|i: int, j: int|
                0 <= i < j < self.spec_len() ==> self.indices@[i] <= self.indices@[j],
            forall|i: int, j: int|
                0 <= i < j < self.spec_len() && self.indices@[i] == self.indices@[j]
                    ==> self.subindices@[i] < self.subindices@[j],
    {
        assert forall|i: int, j: int|
            0 <= i < j < self.spec_len() implies self.indices@[i] <= self.indices@[j] by {
            assert(addr_lt(
                self.indices@[i],
                self.subindices@[i],
                self.indices@[j],
                self.subindices@[j],
            ));
        }
        assert forall|i: int, j: int|
            0 <= i < j < self.spec_len() && self.indices@[i] == self.indices@[j]
            implies self.subindices@[i] < self.subindices@[j] by {
            assert(addr_lt(
                self.indices@[i],
                self.subindices@[i],
                self.indices@[j],
                self.subindices@[j],
            ));
        }
    }

    /// A sorted directory holds each `(index, subindex)` pair at most once.
    pub proof fn lemma_unique_pair(self, i: int, j: int)
        requires
            self.spec_sorted(),
            0 <= i < self.spec_len(),
            0 <= j < self.spec_len(),
            self.indices@[i] == self.indices@[j],
            self.subindices@[i] == self.subindices@[j],
        ensures
            i == j,
    {
        if i < j {
            assert(addr_lt(
                self.indices@[i],
                self.subindices@[i],
                self.indices@[j],
                self.subindices@[j],
            ));
        } else if j < i {
            assert(addr_lt(
                self.indices@[j],
                self.subindices@[j],
                self.indices@[i],
                self.subindices@[i],
            ));
        }
    }

    /// An empty dictionary.
    pub fn new() -> (r: ObjectDictionary)
        ensures
            r.wf(),
            r.spec_len() == 0,
            r.objects@.len() == 0,
    {
        ObjectDictionary {
            indices: Vec::new(),
            subindices: Vec::new(),
            flags: Vec::new(),
            offsets: Vec::new(),
            objects: Vec::new(),
        }
    }

    /// Locate the directory entry of `(index, subindex)`.
    ///
    /// A binary search finds the first entry of `index`; a forward walk over
    /// the run of equal indices compares subindices. A missing index gives
    /// `ObjectDoesNotExist`, a present index without the subindex gives
    /// `SubindexDoesNotExist`.
    #[verifier::loop_isolation(false)]
    pub fn search(&self, index: u16, subindex: u8) -> (r: Result<OdPosition, ODError>)
        requires
            self.wf(),
        ensures
            match r {
                Ok(pos) => pos.0 < self.spec_len() && self.indices@[pos.0 as int] == index
                    && self.subindices@[pos.0 as int] == subindex,
                Err(ODError::ObjectDoesNotExist) => !self.has_index(index),
                Err(ODError::SubindexDoesNotExist) => self.has_index(index) && !self.has_pair(
                    index,
                    subindex,
                ),
                Err(_) => false,
            },
    {
        let n = self.indices.len();
        let mut lo: usize = 0;
        let mut hi: usize = n;
        while lo < hi
            invariant
                lo <= hi <= n,
                forall|i: int| 0 <= i < lo ==> self.indices@[i] < index,
                forall|i: int| hi <= i < n ==> self.indices@[i] >= index,
            decreases hi - lo,
        {
            let mid = lo + (hi - lo) / 2;
            if self.indices[mid] < index {
                proof {
                    assert forall|i: int| 0 <= i < mid + 1 implies self.indices@[i] < index by {
                        if i < mid {
                            assert(addr_lt(
                                self.indices@[i],
                                self.subindices@[i],
                                self.indices@[mid as int],
                                self.subindices@[mid as int],
                            ));
                        }
                    }
                }
                lo = mid + 1;
            } else {
                proof {
                    assert forall|i: int| mid <= i < n implies self.indices@[i] >= index by {
                        if i > mid {
                            assert(addr_lt(
                                self.indices@[mid as int],
                                self.subindices@[mid as int],
                                self.indices@[i],
                                self.subindices@[i],
                            ));
                        }
                    }
                }
                hi = mid;
            }
        }
        if lo == n || self.indices[lo] != index {
            proof {
                assert forall|i: int| 0 <= i < n implies self.indices@[i] != index by {
                    if i >= lo {
                        assert(addr_lt(
                            self.indices@[lo as int],
                            self.subindices@[lo as int],
                            self.indices@[i],
                            self.subindices@[i],
                        ) || i == lo);
                    }
                }
            }
            return Err(ODError::ObjectDoesNotExist);
        }
        let ghost first = lo as int;
        let mut k = lo;
        while k < n
            invariant
                lo <= k <= n,
                forall|i: int|
                    first <= i < k ==> self.indices@[i] == index && self.subindices@[i]
                        != subindex,
            decreases n - k,
        {
            if self.indices[k] != index {
                proof {
                    assert forall|i: int|
                        0 <= i < n implies !(self.indices@[i] == index && self.subindices@[i]
                        == subindex) by {
                        if i >= k {
                            assert(addr_lt(
                                self.indices@[k as int],
                                self.subindices@[k as int],
                                self.indices@[i],
                                self.subindices@[i],
                            ) || i == k);
                        }
                    }
                }
                return Err(ODError::SubindexDoesNotExist);
            }
            if self.subindices[k] == subindex {
                return Ok(OdPosition(k));
            }
            k = k + 1;
        }
        proof {
            assert forall|i: int|
                0 <= i < n implies !(self.indices@[i] == index && self.subindices@[i]
                == subindex) by {}
        }
        Err(ODError::SubindexDoesNotExist)
    }

    /// Dereference a directory position to its storage slot.
    pub fn get(&self, position: OdPosition) -> (r: &OdObject)
        requires
            self.wf(),
            position.0 < self.spec_len(),
        ensures
            r == &self.objects@[self.offsets@[position.0 as int] as int],
    {
        &self.objects[self.offsets[position.0]]
    }

    /// Locate a slot and borrow it.
    pub fn find(&self, index: u16, subindex: u8) -> (r: Result<&OdObject, ODError>)
        requires
            self.wf(),
        ensures
            match r {
                Ok(o) => self.has_pair(index, subindex) && o == &self.object_at(
                    self.pos_of(index, subindex),
                ),
                Err(ODError::ObjectDoesNotExist) => !self.has_index(index),
                Err(ODError::SubindexDoesNotExist) => self.has_index(index) && !self.has_pair(
                    index,
                    subindex,
                ),
                Err(_) => false,
            },
    {
        match self.search(index, subindex) {
            Ok(position) => {
                proof {
                    self.lemma_unique_pair(position.0 as int, self.pos_of(index, subindex));
                }
                Ok(self.get(position))
            },
            Err(e) => Err(e),
        }
    }

    /// What a read of `(index, subindex)` returns.
    pub open spec fn spec_read(self, index: u16, subindex: u8) -> Result<Seq<u8>, ODError> {
        if !self.has_index(index) {
            Err(ODError::ObjectDoesNotExist)
        } else if !self.has_pair(index, subindex) {
            Err(ODError::SubindexDoesNotExist)
        } else {
            object_read_bytes(self.object_at(self.pos_of(index, subindex)), index, subindex)
        }
    }

    /// Locate a slot and read it.
    pub fn read(&self, index: u16, subindex: u8) -> (r: Result<ReadData, ODError>)
        requires
            self.wf(),
        ensures
            read_agrees(r, self.spec_read(index, subindex)),
    {
        match self.find(index, subindex) {
            Ok(o) => o.read(index, subindex),
            Err(e) => Err(e),
        }
    }

    /// The row of directory metadata at a position.
    pub fn get_info(&self, position: OdPosition) -> (r: object::ObjectInfo)
        requires
            self.wf(),
            position.0 < self.spec_len(),
        ensures
            r.index == self.indices@[position.0 as int],
            r.subindex == self.subindices@[position.0 as int],
            r.flags == self.flags@[position.0 as int],
            r.od_position == position,
    {
        object::ObjectInfo {
            index: self.indices[position.0],
            subindex: self.subindices[position.0],
            flags: self.flags[position.0],
            od_position: position,
        }
    }

    /// The directory metadata of `(index, subindex)`, if registered.
    pub fn find_info(&self, index: u16, subindex: u8) -> (r: Option<object::ObjectInfo>)
        requires
            self.wf(),
        ensures
            match r {
                Some(info) => self.has_pair(index, subindex) && info.index == index
                    && info.subindex == subindex && info.od_position.0 == self.pos_of(
                    index,
                    subindex,
                ) && info.flags == self.flags@[self.pos_of(index, subindex)],
                None => !self.has_pair(index, subindex),
            },
    {
        match self.search(index, subindex) {
            Ok(position) => {
                proof {
                    self.lemma_unique_pair(position.0 as int, self.pos_of(index, subindex));
                }
                Some(self.get_info(position))
            },
            Err(_) => None,
        }
    }

    /// Whether a new entry may be appended at `(index, subindex)`.
    pub open spec fn spec_can_append(self, index: u16, subindex: u8) -> bool {
        self.spec_len() == 0 || addr_lt(
            self.indices@[self.spec_len() - 1],
            self.subindices@[self.spec_len() - 1],
            index,
            subindex,
        )
    }

    fn can_append(&self, index: u16, subindex: u8) -> (r: bool)
        requires
            self.wf(),
        ensures
            r == self.spec_can_append(index, subindex),
    {
        let n = self.indices.len();
        if n == 0 {
            true
        } else {
            let li = self.indices[n - 1];
            let ls = self.subindices[n - 1];
            li < index || (li == index && ls < subindex)
        }
    }

    /// Whether a single-entry registration is accepted: ascending order,
    /// consistent flags, a slot within its size bounds, and no array (those
    /// go through [`ObjectDictionary::add_array`]).
    pub open spec fn spec_can_add(
        self,
        index: u16,
        subindex: u8,
        flags: ObjectFlags,
        object: OdObject,
    ) -> bool {
        &&& self.spec_can_append(index, subindex)
        &&& flags.wf()
        &&& object.wf()
        &&& !(object is Array)
        &&& !(object is Tpdo)
    }

    /// Register one slot under one `(index, subindex)` pair.
    ///
    /// Entries must be added in strictly ascending `(index, subindex)`
    /// order; array slots go through [`ObjectDictionary::add_array`]. A
    /// violation leaves the dictionary unchanged and gives
    /// `DictionaryError`.
    pub fn add(&mut self, index: u16, subindex: u8, flags: ObjectFlags, object: OdObject) -> (r:
        Result<(), ODError>)
        requires
            old(self).wf(),
        ensures
            final(self).wf(),
            if old(self).spec_can_add(index, subindex, flags, object) {
                &&& r == Ok::<(), ODError>(())
                &&& final(self).indices@ == old(self).indices@.push(index)
                &&& final(self).subindices@ == old(self).subindices@.push(subindex)
                &&& final(self).flags@ == old(self).flags@.push(flags)
                &&& final(self).offsets@ == old(self).offsets@.push(old(self).objects@.len() as usize)
                &&& final(self).objects@.len() == old(self).objects@.len() + 1
                &&& final(self).objects@[old(self).objects@.len() as int] == object
                &&& forall|k: int|
                    0 <= k < old(self).objects@.len() ==> #[trigger] final(self).objects@[k]
                        == old(self).objects@[k]
            } else {
                r == Err::<(), ODError>(ODError::DictionaryError) && *final(self) == *old(self)
            },
    {
        if !self.can_append(index, subindex) {
            return Err(ODError::DictionaryError);
        }
        if flags.is_read_only() && flags.is_write_only() {
            return Err(ODError::DictionaryError);
        }
        match &object {
            OdObject::Array(_) => {
                return Err(ODError::DictionaryError);
            },
            OdObject::Tpdo(_) => {
                return Err(ODError::DictionaryError);
            },
            OdObject::Bytes(c) => {
                if c.value.len() > 0xFFFF_FFFF {
                    return Err(ODError::DictionaryError);
                }
            },
            OdObject::Str(s) => {
                if s.len() > 0xFFFF_FFFF {
                    return Err(ODError::DictionaryError);
                }
            },
            OdObject::Basic(_) => {},
        }
        let slot = self.objects.len();
        self.indices.push(index);
        self.subindices.push(subindex);
        self.flags.push(flags);
        self.offsets.push(slot);
        self.objects.push(object);
        proof {
            let n = old(self).spec_len();
            assert forall|i: int, j: int| 0 <= i < j < self.spec_len() implies addr_lt(
                self.indices@[i],
                self.subindices@[i],
                self.indices@[j],
                self.subindices@[j],
            ) by {
                if j == n {
                    if i < n - 1 {
                        assert(addr_lt(
                            old(self).indices@[i],
                            old(self).subindices@[i],
                            old(self).indices@[n - 1],
                            old(self).subindices@[n - 1],
                        ));
                    }
                } else {
                    assert(addr_lt(
                        old(self).indices@[i],
                        old(self).subindices@[i],
                        old(self).indices@[j],
                        old(self).subindices@[j],
                    ));
                }
            }
            assert forall|i: int| 0 <= i < self.spec_len() implies self.spec_entry_compatible(
                i,
            ) by {
                if i < n {
                    assert(old(self).spec_entry_compatible(i));
                    assert(self.objects@[self.offsets@[i] as int] == old(self).objects@[old(self).offsets@[i] as int]);
                }
            }
        }
        Ok(())
    }

    /// Whether an array registration is accepted.
    pub open spec fn spec_can_add_array(self, index: u16, flags: ObjectFlags, array: OdArray) -> bool {
        self.spec_can_append(index, 0) && flags.wf() && array.wf()
    }

    /// Register an array slot under `(index, 0..=len)`.
    ///
    /// Subindex 0 reads as the element count; subindex `k` addresses element
    /// `k - 1`. All entries share the same flags and the same storage slot.
    #[verifier::loop_isolation(false)]
    pub fn add_array(&mut self, index: u16, flags: ObjectFlags, array: OdArray) -> (r: Result<
        (),
        ODError,
    >)
        requires
            old(self).wf(),
        ensures
            final(self).wf(),
            if old(self).spec_can_add_array(index, flags, array) {
                &&& r == Ok::<(), ODError>(())
                &&& final(self).spec_len() == old(self).spec_len() + array.array@.len() + 1
                &&& final(self).objects@.len() == old(self).objects@.len() + 1
                &&& forall|i: int|
                    0 <= i < old(self).spec_len() ==> #[trigger] final(self).indices@[i] == old(self).indices@[i] && final(self).subindices@[i] == old(self).subindices@[i]
                &&& forall|j: int|
                    old(self).spec_len() <= j < final(self).spec_len() ==> #[trigger] final(self).indices@[j] == index && final(self).subindices@[j] == (j - old(self).spec_len()) as u8 && final(self).flags@[j] == flags && final(self).offsets@[j]
                        == old(self).objects@.len()
                &&& final(self).objects@[old(self).objects@.len() as int] == OdObject::Array(array)
                &&& forall|k: int|
                    0 <= k < old(self).objects@.len() ==> #[trigger] final(self).objects@[k] == old(self).objects@[k]
            } else {
                r == Err::<(), ODError>(ODError::DictionaryError) && *final(self) == *old(self)
            },
    {
        if !self.can_append(index, 0) {
            return Err(ODError::DictionaryError);
        }
        if flags.is_read_only() && flags.is_write_only() {
            return Err(ODError::DictionaryError);
        }
        if array.array.len() > 255 {
            return Err(ODError::DictionaryError);
        }
        let len = array.array.len();
        let slot = self.objects.len();
        self.objects.push(OdObject::Array(array));
        let mut s: usize = 0;
        while s <= len
            invariant
                s <= len + 1,
                self.indices@ == old(self).indices@ + Seq::new(s as nat, |i: int| index),
                self.subindices@ == old(self).subindices@ + Seq::new(
                    s as nat,
                    |i: int| i as u8,
                ),
                self.flags@ == old(self).flags@ + Seq::new(s as nat, |i: int| flags),
                self.offsets@ == old(self).offsets@ + Seq::new(s as nat, |i: int| slot),
                self.objects@ == old(self).objects@.push(OdObject::Array(array)),
            decreases len + 1 - s,
        {
            self.indices.push(index);
            self.subindices.push(s as u8);
            self.flags.push(flags);
            self.offsets.push(slot);
            proof {
                assert(self.indices@ =~= old(self).indices@ + Seq::new(
                    (s + 1) as nat,
                    |i: int| index,
                ));
                assert(self.subindices@ =~= old(self).subindices@ + Seq::new(
                    (s + 1) as nat,
                    |i: int| i as u8,
                ));
                assert(self.flags@ =~= old(self).flags@ + Seq::new((s + 1) as nat, |i: int| flags));
                assert(self.offsets@ =~= old(self).offsets@ + Seq::new(
                    (s + 1) as nat,
                    |i: int| slot,
                ));
            }
            s = s + 1;
        }
        proof {
            let n = old(self).spec_len();
            let m = len as int;
            assert(self.spec_len() == n + m + 1);
            assert forall|j: int| n <= j < self.spec_len() implies self.indices@[j] == index
                && self.subindices@[j] == (j - n) as u8 && self.flags@[j] == flags
                && self.offsets@[j] == slot by {}
            assert forall|i: int, j: int| 0 <= i < j < self.spec_len() implies addr_lt(
                self.indices@[i],
                self.subindices@[i],
                self.indices@[j],
                self.subindices@[j],
            ) by {
                if j < n {
                    assert(addr_lt(
                        old(self).indices@[i],
                        old(self).subindices@[i],
                        old(self).indices@[j],
                        old(self).subindices@[j],
                    ));
                } else if i < n {
                    if i < n - 1 {
                        assert(addr_lt(
                            old(self).indices@[i],
                            old(self).subindices@[i],
                            old(self).indices@[n - 1],
                            old(self).subindices@[n - 1],
                        ));
                    }
                }
            }
            assert forall|i: int| 0 <= i < self.spec_len() implies self.spec_entry_compatible(
                i,
            ) by {
                if i < n {
                    assert(old(self).spec_entry_compatible(i));
                    assert(self.objects@[self.offsets@[i] as int] == old(self).objects@[old(self).offsets@[i] as int]);
                } else {
                    assert(self.objects@[self.offsets@[i] as int] == OdObject::Array(array));
                }
            }
        }
        Ok(())
    }

    /// The dictionary row a TPDO mapping word in `d` names, if the word
    /// parses and the object is registered.
    pub open spec fn spec_tpdo_target(self, d: WriteData) -> Option<object::ObjectInfo> {
        match spec_parse_u32(d) {
            Ok(v) => {
                let ti = spec_unpack_object_data(v).0;
                let ts = spec_unpack_object_data(v).1;
                if self.has_pair(ti, ts) {
                    Some(
                        object::ObjectInfo {
                            index: ti,
                            subindex: ts,
                            flags: self.flags@[self.pos_of(ti, ts)],
                            od_position: OdPosition(self.pos_of(ti, ts) as usize),
                        },
                    )
                } else {
                    None
                }
            },
            Err(_) => None,
        }
    }

    /// Write one SDO chunk through a directory position.
    ///
    /// The slot's own rules decide the outcome (see
    /// [`datalink::object_write_post`]); for a TPDO slot the named mapping
    /// target is resolved against this dictionary first, and COB-ID changes
    /// go through `policy`. Nothing but the addressed storage slot changes.
    pub fn write<C: CobIdUpdate>(
        &mut self,
        position: OdPosition,
        data: &WriteData,
        policy: &mut C,
    ) -> (r: Result<(), ODError>)
        requires
            old(self).wf(),
            position.0 < old(self).spec_len(),
        ensures
            final(self).wf(),
            final(self).indices@ == old(self).indices@,
            final(self).subindices@ == old(self).subindices@,
            final(self).flags@ == old(self).flags@,
            final(self).offsets@ == old(self).offsets@,
            final(self).objects@.len() == old(self).objects@.len(),
            forall|k: int|
                0 <= k < old(self).objects@.len() && k != old(self).offsets@[position.0 as int]
                    ==> #[trigger] final(self).objects@[k] == old(self).objects@[k],
            object_write_post(
                old(self).object_at(position.0 as int),
                *data,
                old(self).spec_tpdo_target(*data),
                final(self).object_at(position.0 as int),
                r,
            ),
    {
        let off = self.offsets[position.0];
        let target = match parse_u32(data) {
            Ok(v) => {
                let (ti, ts, _) = unpack_object_data(v);
                self.find_info(ti, ts)
            },
            Err(_) => None,
        };
        let obj = &mut self.objects[off];
        let r = obj.write(data, target, policy);
        proof {
            assert forall|i: int| 0 <= i < self.spec_len() implies self.spec_entry_compatible(
                i,
            ) by {
                assert(old(self).spec_entry_compatible(i));
                if self.offsets@[i] != off {
                    assert(self.objects@[self.offsets@[i] as int] == old(self).objects@[old(
                        self,
                    ).offsets@[i] as int]);
                } else {
                    match old(self).objects@[off as int] {
                        OdObject::Array(a) => {
                            assert(self.objects@[off as int] matches OdObject::Array(a2)
                                && a2.array@.len() == a.array@.len());
                        },
                        _ => {},
                    }
                }
            }
        }
        r
    }

    /// Whether the slot behind a position still holds its transfer lock;
    /// slots that cannot be mutated between segments count as held.
    pub fn transfer_locked(&self, position: OdPosition) -> (r: bool)
        requires
            self.wf(),
            position.0 < self.spec_len(),
        ensures
            r == self.object_at(position.0 as int).spec_transfer_locked(),
    {
        self.objects[self.offsets[position.0]].transfer_locked()
    }

    /// `post` is `pre` with the transfer lock taken on a byte-array slot.
    pub open spec fn obj_locked_of(pre: OdObject, post: OdObject) -> bool {
        match pre {
            OdObject::Bytes(c) => post matches OdObject::Bytes(c2) && c2.value == c.value
                && c2.locked,
            _ => post == pre,
        }
    }

    /// `post` is `pre` with the transfer lock released.
    pub open spec fn obj_unlocked_of(pre: OdObject, post: OdObject) -> bool {
        match pre {
            OdObject::Bytes(c) => post matches OdObject::Bytes(c2) && c2.value == c.value
                && !c2.locked,
            _ => post == pre,
        }
    }

    /// The directory is unchanged and at most the slot behind `position`
    /// differs between `pre` and `post`.
    pub open spec fn spec_step(pre: ObjectDictionary, post: ObjectDictionary, pos: int) -> bool {
        &&& post.indices@ == pre.indices@
        &&& post.subindices@ == pre.subindices@
        &&& post.flags@ == pre.flags@
        &&& post.offsets@ == pre.offsets@
        &&& post.objects@.len() == pre.objects@.len()
        &&& forall|k: int|
            0 <= k < pre.objects@.len() && k != pre.offsets@[pos] ==> #[trigger] post.objects@[k]
                == pre.objects@[k]
    }

    /// Nothing at all differs between `pre` and `post`.
    pub open spec fn spec_same(pre: ObjectDictionary, post: ObjectDictionary) -> bool {
        &&& post.indices@ == pre.indices@
        &&& post.subindices@ == pre.subindices@
        &&& post.flags@ == pre.flags@
        &&& post.offsets@ == pre.offsets@
        &&& post.objects@ == pre.objects@
    }

    /// Take the transfer lock on the slot behind `position` ahead of a
    /// segmented upload.
    pub fn transfer_lock(&mut self, position: OdPosition)
        requires
            old(self).wf(),
            position.0 < old(self).spec_len(),
        ensures
            final(self).wf(),
            ObjectDictionary::spec_step(*old(self), *final(self), position.0 as int),
            ObjectDictionary::obj_locked_of(
                old(self).object_at(position.0 as int),
                final(self).object_at(position.0 as int),
            ),
    {
        let off = self.offsets[position.0];
        let obj = &mut self.objects[off];
        obj.transfer_lock();
        proof {
            assert forall|i: int| 0 <= i < self.spec_len() implies self.spec_entry_compatible(
                i,
            ) by {
                assert(old(self).spec_entry_compatible(i));
                if self.offsets@[i] != off {
                    assert(self.objects@[self.offsets@[i] as int] == old(self).objects@[old(self).offsets@[i] as int]);
                }
            }
        }
    }

    /// Release the transfer lock after the last segment of an upload.
    pub fn transfer_unlock(&mut self, position: OdPosition)
        requires
            old(self).wf(),
            position.0 < old(self).spec_len(),
        ensures
            final(self).wf(),
            ObjectDictionary::spec_step(*old(self), *final(self), position.0 as int),
            ObjectDictionary::obj_unlocked_of(
                old(self).object_at(position.0 as int),
                final(self).object_at(position.0 as int),
            ),
    {
        let off = self.offsets[position.0];
        let obj = &mut self.objects[off];
        obj.transfer_unlock();
        proof {
            assert forall|i: int| 0 <= i < self.spec_len() implies self.spec_entry_compatible(
                i,
            ) by {
                assert(old(self).spec_entry_compatible(i));
                if self.offsets@[i] != off {
                    assert(self.objects@[self.offsets@[i] as int] == old(self).objects@[old(self).offsets@[i] as int]);
                }
            }
        }
    }

    /// Append one storage slot without any directory row.
    fn push_object(&mut self, object: OdObject) -> (slot: usize)
        requires
            old(self).wf(),
            object.wf(),
        ensures
            final(self).wf(),
            slot == old(self).objects@.len(),
            final(self).objects@ == old(self).objects@.push(object),
            final(self).indices@ == old(self).indices@,
            final(self).subindices@ == old(self).subindices@,
            final(self).flags@ == old(self).flags@,
            final(self).offsets@ == old(self).offsets@,
    {
        let slot = self.objects.len();
        self.objects.push(object);
        proof {
            assert forall|i: int| 0 <= i < self.spec_len() implies self.spec_entry_compatible(
                i,
            ) by {
                assert(old(self).spec_entry_compatible(i));
                assert(self.objects@[self.offsets@[i] as int] == old(self).objects@[old(
                    self,
                ).offsets@[i] as int]);
            }
        }
        slot
    }

    /// Append one directory row pointing at an existing storage slot.
    fn push_entry(&mut self, index: u16, subindex: u8, flags: ObjectFlags, slot: usize)
        requires
            old(self).wf(),
            old(self).spec_can_append(index, subindex),
            flags.wf(),
            slot < old(self).objects@.len(),
            match old(self).objects@[slot as int] {
                OdObject::Array(a) => subindex <= a.array@.len(),
                _ => true,
            },
        ensures
            final(self).wf(),
            final(self).indices@ == old(self).indices@.push(index),
            final(self).subindices@ == old(self).subindices@.push(subindex),
            final(self).flags@ == old(self).flags@.push(flags),
            final(self).offsets@ == old(self).offsets@.push(slot),
            final(self).objects@ == old(self).objects@,
    {
        self.indices.push(index);
        self.subindices.push(subindex);
        self.flags.push(flags);
        self.offsets.push(slot);
        proof {
            let n = old(self).spec_len();
            assert forall|i: int, j: int| 0 <= i < j < self.spec_len() implies addr_lt(
                self.indices@[i],
                self.subindices@[i],
                self.indices@[j],
                self.subindices@[j],
            ) by {
                if j == n {
                    if i < n - 1 {
                        assert(addr_lt(
                            old(self).indices@[i],
                            old(self).subindices@[i],
                            old(self).indices@[n - 1],
                            old(self).subindices@[n - 1],
                        ));
                    }
                } else {
                    assert(addr_lt(
                        old(self).indices@[i],
                        old(self).subindices@[i],
                        old(self).indices@[j],
                        old(self).subindices@[j],
                    ));
                }
            }
            assert forall|i: int| 0 <= i < self.spec_len() implies self.spec_entry_compatible(
                i,
            ) by {
                if i < n {
                    assert(old(self).spec_entry_compatible(i));
                }
            }
        }
    }

    /// Whether a TPDO registration is accepted: the communication record
    /// index lies in `0x1800..=0x19FF`, both records extend the directory in
    /// order, and the TPDO itself is well-formed.
    pub open spec fn spec_can_add_tpdo(self, comm_index: u16, flags: ObjectFlags, tpdo: TPDO) -> bool {
        &&& 0x1800 <= comm_index <= 0x19FF
        &&& self.spec_can_append(comm_index, 1)
        &&& flags.wf()
        &&& tpdo.wf()
    }

    /// Register a TPDO: its communication record at `comm_index` (subindices
    /// 1, 2, 3, 5 and 6) and its mapping record at `comm_index + 0x200`
    /// (subindices 0 to 8), all sharing one storage slot.
    pub fn add_tpdo(&mut self, comm_index: u16, flags: ObjectFlags, tpdo: TPDO) -> (r: Result<
        (),
        ODError,
    >)
        requires
            old(self).wf(),
        ensures
            final(self).wf(),
            if old(self).spec_can_add_tpdo(comm_index, flags, tpdo) {
                &&& r == Ok::<(), ODError>(())
                &&& final(self).spec_len() == old(self).spec_len() + 14
                &&& final(self).objects@ == old(self).objects@.push(OdObject::Tpdo(tpdo))
                &&& final(self).indices@ == old(self).indices@ + Seq::new(5, |i: int| comm_index)
                    + Seq::new(9, |i: int| (comm_index + 0x200) as u16)
                &&& final(self).subindices@ == old(self).subindices@ + seq![
                    1u8,
                    2u8,
                    3u8,
                    5u8,
                    6u8,
                    0u8,
                    1u8,
                    2u8,
                    3u8,
                    4u8,
                    5u8,
                    6u8,
                    7u8,
                    8u8,
                ]
                &&& final(self).flags@ == old(self).flags@ + Seq::new(14, |i: int| flags)
                &&& final(self).offsets@ == old(self).offsets@ + Seq::new(
                    14,
                    |i: int| old(self).objects@.len() as usize,
                )
            } else {
                r == Err::<(), ODError>(ODError::DictionaryError) && *final(self) == *old(self)
            },
    {
        if comm_index < 0x1800 || comm_index > 0x19FF {
            return Err(ODError::DictionaryError);
        }
        if !self.can_append(comm_index, 1) {
            return Err(ODError::DictionaryError);
        }
        if flags.is_read_only() && flags.is_write_only() {
            return Err(ODError::DictionaryError);
        }
        if !tpdo_wf_check(&tpdo) {
            return Err(ODError::DictionaryError);
        }
        let map_index = comm_index + 0x200;
        let slot = self.push_object(OdObject::Tpdo(tpdo));
        self.push_entry(comm_index, 1, flags, slot);
        self.push_entry(comm_index, 2, flags, slot);
        self.push_entry(comm_index, 3, flags, slot);
        self.push_entry(comm_index, 5, flags, slot);
        self.push_entry(comm_index, 6, flags, slot);
        self.push_entry(map_index, 0, flags, slot);
        self.push_entry(map_index, 1, flags, slot);
        self.push_entry(map_index, 2, flags, slot);
        self.push_entry(map_index, 3, flags, slot);
        self.push_entry(map_index, 4, flags, slot);
        self.push_entry(map_index, 5, flags, slot);
        self.push_entry(map_index, 6, flags, slot);
        self.push_entry(map_index, 7, flags, slot);
        self.push_entry(map_index, 8, flags, slot);
        proof {
            assert(self.indices@ =~= old(self).indices@ + Seq::new(5, |i: int| comm_index)
                + Seq::new(9, |i: int| (comm_index + 0x200) as u16));
            assert(self.subindices@ =~= old(self).subindices@ + seq![
                1u8,
                2u8,
                3u8,
                5u8,
                6u8,
                0u8,
                1u8,
                2u8,
                3u8,
                4u8,
                5u8,
                6u8,
                7u8,
                8u8,
            ]);
            assert(self.flags@ =~= old(self).flags@ + Seq::new(14, |i: int| flags));
            assert(self.offsets@ =~= old(self).offsets@ + Seq::new(
                14,
                |i: int| old(self).objects@.len() as usize,
            ));
        }
        Ok(())
    }
}

/// Whether a TPDO value meets its own invariant.
fn tpdo_wf_check(t: &TPDO) -> (r: bool)
    ensures
        r == t.wf(),
{
    if t.map.map.len() != 8 {
        return false;
    }
    if t.map.num_mapped_objects > 8 {
        return false;
    }
    let mut k: usize = 0;
    while k < 8
        invariant
            k <= 8,
            t.map.map@.len() == 8,
            forall|j: int|
                0 <= j < k ==> (#[trigger] t.map.map@[j] matches Some(info)
                    ==> info.flags.pdo_size is Some),
        decreases 8 - k,
    {
        match t.map.map[k] {
            Some(info) => {
                match info.flags.pdo_size() {
                    Some(_) => {},
                    None => {
                        return false;
                    },
                }
            },
            None => {},
        }
        k = k + 1;
    }
    true
}

} // verus!
