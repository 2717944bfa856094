//! The TPDO producer: communication and mapping parameter records, their
//! behaviour as Object Dictionary slots, and serialisation of mapped object
//! values into one process-data frame.

use vstd::prelude::*;

use crate::frame::{CanFrame, CanId};
use crate::node::NodeId;
use crate::objectdictionary::datalink::{
    le_bytes_u16, le_bytes_u32, object_read_bytes, parse_u16, parse_u32, parse_u8, spec_parse_u16,
    spec_parse_u32, spec_parse_u8, ReadData, WriteData,
};
use crate::objectdictionary::object::{ObjectInfo, PdoSize};
use crate::objectdictionary::{ODError, ObjectDictionary};
use crate::sdo::SDOAbortCode;

verus! {

/// A communication object identifier with its two CiA 301 marker bits.
///
/// On the wire the triple packs into 32 bits: bit 31 carries the valid flag
/// with inverted polarity (set meaning *not* valid, i.e. inactive), bit 30
/// the RTR flag, bit 29 marks an extended identifier, and the low bits hold
/// the identifier itself.
pub struct CobId {
    pub valid: bool,
    /// Only meaningful for a TPDO.
    pub rtr: bool,
    pub id: CanId,
}

/// The packed 32-bit form of a COB-ID. The valid flag inverts its on-wire
/// polarity per CiA 301: a valid (active) COB-ID packs with bit 31 clear,
/// an invalid (inactive) one with bit 31 set.
pub open spec fn spec_pack_cob_id(c: CobId) -> u32 {
    (spec_cob_id_base(c.id) + (if c.rtr {
        0x4000_0000int
    } else {
        0int
    }) + (if c.valid {
        0int
    } else {
        0x8000_0000int
    })) as u32
}

/// The identifier bits of the packed form, with bit 29 marking extended ids.
pub open spec fn spec_cob_id_base(id: CanId) -> int {
    match id {
        CanId::Standard(x) => x as int,
        CanId::Extended(x) => 0x2000_0000 + x,
    }
}

/// The COB-ID a packed 32-bit word denotes.
pub open spec fn spec_unpack_cob_id(v: u32) -> CobId {
    CobId {
        valid: (v / 0x8000_0000) % 2 == 0,
        rtr: (v / 0x4000_0000) % 2 == 1,
        id: if (v / 0x2000_0000) % 2 == 1 {
            CanId::Extended((v % 0x2000_0000) as u32)
        } else {
            CanId::Standard((v % 0x800) as u16)
        },
    }
}

/// Whether a packed COB-ID marks its PDO active: the valid flag inverts on
/// the wire, so bit 31 clear means valid (active) and bit 31 set means not
/// valid (inactive).
pub open spec fn spec_cob_id_active(v: u32) -> bool {
    v / 0x8000_0000 == 0
}

impl CobId {
    /// Pack into the 32-bit wire form.
    pub fn to_u32(&self) -> (r: u32)
        requires
            self.id.wf(),
        ensures
            r == spec_pack_cob_id(*self),
    {
        let base: u32 = match self.id {
            CanId::Standard(x) => x as u32,
            CanId::Extended(x) => 0x2000_0000 + x,
        };
        let with_rtr: u32 = if self.rtr {
            base + 0x4000_0000
        } else {
            base
        };
        if self.valid {
            with_rtr
        } else {
            with_rtr + 0x8000_0000
        }
    }

    /// Unpack from the 32-bit wire form; the result always carries a valid
    /// identifier.
    pub fn from_u32(v: u32) -> (r: CobId)
        ensures
            r == spec_unpack_cob_id(v),
            r.id.wf(),
    {
        let valid = (v / 0x8000_0000) % 2 == 0;
        let rtr = (v / 0x4000_0000) % 2 == 1;
        let id = if (v / 0x2000_0000) % 2 == 1 {
            CanId::Extended(v % 0x2000_0000)
        } else {
            CanId::Standard((v % 0x800) as u16)
        };
        CobId { valid, rtr, id }
    }
}

/// Rejection of a proposed COB-ID by the application's update hook.
pub struct InvalidCobId;

/// The application's gate for COB-ID changes: a write to the COB-ID subindex
/// passes the current and the proposed value through `update`, and only an
/// accepted value is stored.
pub trait CobIdUpdate {
    fn update(&mut self, current: CobId, new: CobId) -> Result<CobId, InvalidCobId>;
}

/// The permissive hook: every proposed COB-ID is accepted unchanged.
pub struct AcceptNewCobId;

impl CobIdUpdate for AcceptNewCobId {
    fn update(&mut self, current: CobId, new: CobId) -> Result<CobId, InvalidCobId> {
        Ok(new)
    }
}

/// The transmission-type byte of the communication record.
#[derive(Clone, Copy, PartialEq, Eq, Structural, Debug)]
pub enum TPDOTransmissionType {
    SynchronousAcyclic,
    /// Every n-th SYNC, n in `1..=240`.
    SynchronousEveryNSync(u8),
    SynchronousRtrOnly,
    EventDrivenRtrOnly,
    EventDrivenManufacturerSpecific,
    EventDrivenProfileSpecific,
}

impl TPDOTransmissionType {
    /// The on-wire byte of each transmission type.
    pub open spec fn spec_as_u8(self) -> u8 {
        match self {
            TPDOTransmissionType::SynchronousAcyclic => 0u8,
            TPDOTransmissionType::SynchronousEveryNSync(n) => n,
            TPDOTransmissionType::SynchronousRtrOnly => 0xFCu8,
            TPDOTransmissionType::EventDrivenRtrOnly => 0xFDu8,
            TPDOTransmissionType::EventDrivenManufacturerSpecific => 0xFEu8,
            TPDOTransmissionType::EventDrivenProfileSpecific => 0xFFu8,
        }
    }

    pub fn as_u8(self) -> (r: u8)
        ensures
            r == self.spec_as_u8(),
    {
        match self {
            TPDOTransmissionType::SynchronousAcyclic => 0,
            TPDOTransmissionType::SynchronousEveryNSync(n) => n,
            TPDOTransmissionType::SynchronousRtrOnly => 0xFC,
            TPDOTransmissionType::EventDrivenRtrOnly => 0xFD,
            TPDOTransmissionType::EventDrivenManufacturerSpecific => 0xFE,
            TPDOTransmissionType::EventDrivenProfileSpecific => 0xFF,
        }
    }
}

/// An inhibit time as a multiple of 100 microseconds; 0 disables it.
pub struct InhibitTime(pub u16);

impl InhibitTime {
    /// The inhibit time in microseconds, `None` when disabled.
    pub fn us(&self) -> (r: Option<u32>)
        ensures
            self.0 == 0 ==> r is None,
            self.0 != 0 ==> r == Some((100 * self.0) as u32),
    {
        if self.0 == 0 {
            None
        } else {
            Some(100 * (self.0 as u32))
        }
    }
}

/// The communication parameter record of one TPDO, held at an index in
/// `0x1800..=0x19FF`.
pub struct PDOCommunicationParameter {
    /// Subindex 1: the packed COB-ID.
    pub cob_id: u32,
    /// Subindex 2.
    pub transmission_type: u8,
    /// Subindex 3, a multiple of 100 us.
    pub inhibit_time: u16,
    /// Subindex 5, a multiple of 1 ms.
    pub event_timer: u16,
    /// Subindex 6.
    pub sync_start_value: u8,
}

impl PDOCommunicationParameter {
    /// A fresh record: the given COB-ID, everything else zero.
    pub fn new(cob_id: CobId) -> (r: PDOCommunicationParameter)
        requires
            cob_id.id.wf(),
        ensures
            r.cob_id == spec_pack_cob_id(cob_id),
            r.transmission_type == 0,
            r.inhibit_time == 0,
            r.event_timer == 0,
            r.sync_start_value == 0,
    {
        PDOCommunicationParameter {
            cob_id: cob_id.to_u32(),
            transmission_type: 0,
            inhibit_time: 0,
            event_timer: 0,
            sync_start_value: 0,
        }
    }

    /// The stored COB-ID, unpacked.
    pub fn cob_id(&self) -> (r: CobId)
        ensures
            r == spec_unpack_cob_id(self.cob_id),
            r.id.wf(),
    {
        CobId::from_u32(self.cob_id)
    }

    /// The stored inhibit time.
    pub fn inhibit_time(&self) -> (r: InhibitTime)
        ensures
            r.0 == self.inhibit_time,
    {
        InhibitTime(self.inhibit_time)
    }
}

/// The mapping word of one mapped object: `(index << 16) | (subindex << 8) |
/// num_bits`.
pub open spec fn spec_pack_object_data(index: u16, subindex: u8, num_bits: u8) -> u32 {
    (index * 0x1_0000 + subindex * 0x100 + num_bits) as u32
}

pub fn pack_object_data(index: u16, subindex: u8, num_bits: u8) -> (r: u32)
    ensures
        r == spec_pack_object_data(index, subindex, num_bits),
{
    (index as u32) * 0x1_0000 + (subindex as u32) * 0x100 + (num_bits as u32)
}

/// The `(index, subindex, num_bits)` triple of a mapping word.
pub open spec fn spec_unpack_object_data(val: u32) -> (u16, u8, u8) {
    ((val / 0x1_0000) as u16, ((val / 0x100) % 0x100) as u8, (val % 0x100) as u8)
}

pub fn unpack_object_data(val: u32) -> (r: (u16, u8, u8))
    ensures
        r == spec_unpack_object_data(val),
{
    ((val / 0x1_0000) as u16, ((val / 0x100) % 0x100) as u8, (val % 0x100) as u8)
}

/// The mapping parameter record of one TPDO, held at an index in
/// `0x1A00..=0x1BFF`: how many objects are mapped, and which.
pub struct TPDOMappingParameters {
    /// Subindex 0: the number of mapped objects, `0..=8`.
    pub num_mapped_objects: u8,
    /// Subindices 1 to 8: the mapped objects; entries above
    /// `num_mapped_objects` may hold stale data and are never serialised.
    pub map: Vec<Option<ObjectInfo>>,
}

impl TPDOMappingParameters {
    /// Eight map slots, a count of at most eight, and every cached entry
    /// mappable (its flags carry a PDO size).
    pub open spec fn wf(self) -> bool {
        &&& self.map@.len() == 8
        &&& self.num_mapped_objects <= 8
        &&& forall|k: int|
            0 <= k < 8 ==> (#[trigger] self.map@[k] matches Some(info) ==> info.flags.pdo_size
                is Some)
    }

    /// An empty mapping.
    pub fn new() -> (r: TPDOMappingParameters)
        ensures
            r.wf(),
            r.num_mapped_objects == 0,
            forall|k: int| 0 <= k < 8 ==> r.map@[k] is None,
    {
        TPDOMappingParameters { num_mapped_objects: 0, map: vec![None, None, None, None, None, None, None, None] }
    }

    /// Whether a mapping word is accepted for an object: a whole number of
    /// bytes that equals the object's declared PDO size.
    pub open spec fn spec_map_ok(info: ObjectInfo, num_bits: u8) -> bool {
        &&& num_bits % 8 == 0
        &&& info.flags.pdo_size matches Some(n) && n.spec_get() == num_bits / 8
    }

    /// Cache a validated object in map slot `slot` (0-based).
    pub fn map_object(&mut self, slot: usize, info: ObjectInfo, num_bits: u8) -> (r: Result<
        (),
        ODError,
    >)
        requires
            old(self).wf(),
            slot < 8,
        ensures
            final(self).wf(),
            if TPDOMappingParameters::spec_map_ok(info, num_bits) {
                &&& r == Ok::<(), ODError>(())
                &&& final(self).map@ == old(self).map@.update(slot as int, Some(info))
                &&& final(self).num_mapped_objects == old(self).num_mapped_objects
            } else {
                r == Err::<(), ODError>(ODError::ObjectCannotBeMapped) && *final(self) == *old(
                    self,
                )
            },
    {
        if num_bits % 8 != 0 {
            return Err(ODError::ObjectCannotBeMapped);
        }
        let declared = info.flags.pdo_size();
        let wanted = PdoSize::new(num_bits / 8);
        let matches_declared = match (declared, wanted) {
            (Some(a), Some(b)) => a.get() == b.get(),
            _ => false,
        };
        if !matches_declared {
            return Err(ODError::ObjectCannotBeMapped);
        }
        self.map[slot] = Some(info);
        Ok(())
    }

    /// The packed mapping word of map subindex `num` (1-based); an empty
    /// slot reads as zero.
    pub open spec fn spec_map_data_packed(self, num: u8) -> u32 {
        match self.map@[num - 1] {
            Some(info) => spec_pack_object_data(
                info.index,
                info.subindex,
                (info.flags.pdo_size->0.spec_get() * 8) as u8,
            ),
            None => 0,
        }
    }

    pub fn get_map_data_packed(&self, num: u8) -> (r: u32)
        requires
            self.wf(),
            1 <= num <= 8,
        ensures
            r == self.spec_map_data_packed(num),
    {
        match self.map[(num - 1) as usize] {
            Some(info) => {
                let size = match info.flags.pdo_size() {
                    Some(n) => n.get(),
                    None => 0,  // unreachable under wf; the flags always carry a size
                };
                pack_object_data(info.index, info.subindex, size * 8)
            },
            None => 0,
        }
    }
}

/// One TPDO instance: its communication record and its mapping record.
pub struct TPDO {
    /// Held at an index in `0x1800..=0x19FF`.
    pub com: PDOCommunicationParameter,
    /// Held at the index `0x200` above the communication record.
    pub map: TPDOMappingParameters,
}

/// What a read of a TPDO slot returns for a given `(index, subindex)`.
pub open spec fn tpdo_read_bytes(t: TPDO, index: u16, subindex: u8) -> Result<Seq<u8>, ODError> {
    if 0x1800 <= index <= 0x19FF {
        match subindex {
            1u8 => Ok(le_bytes_u32(t.com.cob_id)),
            2u8 => Ok(seq![t.com.transmission_type]),
            3u8 => Ok(le_bytes_u16(t.com.inhibit_time)),
            5u8 => Ok(le_bytes_u16(t.com.event_timer)),
            6u8 => Ok(seq![t.com.sync_start_value]),
            _ => Err(ODError::SubindexDoesNotExist),
        }
    } else if 0x1A00 <= index <= 0x1BFF {
        if subindex == 0 {
            Ok(seq![t.map.num_mapped_objects])
        } else if subindex <= 8 {
            Ok(le_bytes_u32(t.map.spec_map_data_packed(subindex)))
        } else {
            Err(ODError::SubindexDoesNotExist)
        }
    } else {
        Err(ODError::ObjectDoesNotExist)
    }
}

/// The effect of a write to a TPDO slot.
///
/// `target` is the dictionary's lookup of the object a mapping word names;
/// it is only consulted for writes to map subindices 1 to 8.
///
/// While the stored COB-ID marks the PDO active (wire bit 31 clear, since
/// the valid flag inverts on the wire), every write except to the COB-ID
/// subindex itself fails with `DeviceStateError`.
/// Mapping words are likewise refused while `num_mapped_objects` is nonzero.
/// The COB-ID write passes through the application hook, so this relation
/// leaves the accepted value open; every other accepted write stores the
/// parsed value exactly.
pub open spec fn tpdo_write_post(
    pre: TPDO,
    d: WriteData,
    target: Option<ObjectInfo>,
    post: TPDO,
    r: Result<(), ODError>,
) -> bool {
    if spec_cob_id_active(pre.com.cob_id) && (d.index > 0x19FF || d.subindex != 1) {
        r == Err::<(), ODError>(ODError::DeviceStateError) && post == pre
    } else if 0x1800 <= d.index <= 0x19FF {
        match d.subindex {
            1u8 => match spec_parse_u32(d) {
                Ok(v) => (r == Ok::<(), ODError>(()) && post.map == pre.map && exists|c: CobId|
                    c.id.wf() && post.com == (PDOCommunicationParameter {
                        cob_id: spec_pack_cob_id(c),
                        ..pre.com
                    })) || (r == Err::<(), ODError>(ODError::InvalidValue) && post == pre),
                Err(e) => r == Err::<(), ODError>(e) && post == pre,
            },
            2u8 => match spec_parse_u8(d) {
                Ok(v) => r == Ok::<(), ODError>(()) && post.map == pre.map && post.com
                    == (PDOCommunicationParameter { transmission_type: v, ..pre.com }),
                Err(e) => r == Err::<(), ODError>(e) && post == pre,
            },
            3u8 => match spec_parse_u16(d) {
                Ok(v) => r == Ok::<(), ODError>(()) && post.map == pre.map && post.com
                    == (PDOCommunicationParameter { inhibit_time: v, ..pre.com }),
                Err(e) => r == Err::<(), ODError>(e) && post == pre,
            },
            5u8 => match spec_parse_u16(d) {
                Ok(v) => r == Ok::<(), ODError>(()) && post.map == pre.map && post.com
                    == (PDOCommunicationParameter { event_timer: v, ..pre.com }),
                Err(e) => r == Err::<(), ODError>(e) && post == pre,
            },
            6u8 => match spec_parse_u8(d) {
                Ok(v) => r == Ok::<(), ODError>(()) && post.map == pre.map && post.com
                    == (PDOCommunicationParameter { sync_start_value: v, ..pre.com }),
                Err(e) => r == Err::<(), ODError>(e) && post == pre,
            },
            _ => r == Err::<(), ODError>(ODError::SubindexDoesNotExist) && post == pre,
        }
    } else if 0x1A00 <= d.index <= 0x1BFF {
        if d.subindex == 0 {
            match spec_parse_u8(d) {
                Ok(v) => if v <= 8 {
                    r == Ok::<(), ODError>(()) && post.com == pre.com && post.map
                        == (TPDOMappingParameters { num_mapped_objects: v, ..pre.map })
                } else {
                    r == Err::<(), ODError>(ODError::InvalidValue) && post == pre
                },
                Err(e) => r == Err::<(), ODError>(e) && post == pre,
            }
        } else if d.subindex <= 8 {
            if pre.map.num_mapped_objects > 0 {
                r == Err::<(), ODError>(ODError::DeviceStateError) && post == pre
            } else {
                match spec_parse_u32(d) {
                    Ok(v) => match target {
                        Some(info) => if TPDOMappingParameters::spec_map_ok(
                            info,
                            spec_unpack_object_data(v).2,
                        ) {
                            r == Ok::<(), ODError>(()) && post.com == pre.com && post.map.map@
                                == pre.map.map@.update(d.subindex - 1, Some(info))
                                && post.map.num_mapped_objects == pre.map.num_mapped_objects
                        } else {
                            r == Err::<(), ODError>(ODError::ObjectCannotBeMapped) && post == pre
                        },
                        None => r == Err::<(), ODError>(ODError::ObjectDoesNotExist) && post
                            == pre,
                    },
                    // a mapping word that does not parse as a u32 is ignored
                    Err(_) => r == Ok::<(), ODError>(()) && post == pre,
                }
            }
        } else {
            r == Err::<(), ODError>(ODError::SubindexDoesNotExist) && post == pre
        }
    } else {
        r == Err::<(), ODError>(ODError::ObjectDoesNotExist) && post == pre
    }
}

/// The mapping guard law: while any objects are mapped
/// (`num_mapped_objects > 0`), a write that targets a mapping word (map
/// subindices 1 to 8) fails with `DeviceStateError` — whether because the
/// active COB-ID blocks every write but its own, or because mapping
/// updates demand an empty mapping first.
pub proof fn lemma_mapping_locked_while_used(
    pre: TPDO,
    d: WriteData,
    target: Option<ObjectInfo>,
    post: TPDO,
    r: Result<(), ODError>,
)
    requires
        tpdo_write_post(pre, d, target, post, r),
        pre.map.num_mapped_objects > 0,
        0x1A00 <= d.index <= 0x1BFF,
        1 <= d.subindex <= 8,
    ensures
        r == Err::<(), ODError>(ODError::DeviceStateError),
        post == pre,
{
}

impl TPDO {
    pub open spec fn wf(self) -> bool {
        self.map.wf()
    }

    pub fn new(com: PDOCommunicationParameter, map: TPDOMappingParameters) -> (r: TPDO)
        ensures
            r.com == com,
            r.map == map,
    {
        TPDO { com, map }
    }

    /// Read a subindex of the communication or mapping record; see
    /// [`tpdo_read_bytes`].
    pub fn read(&self, index: u16, subindex: u8) -> (r: Result<ReadData, ODError>)
        requires
            self.wf(),
        ensures
            crate::objectdictionary::datalink::read_agrees(
                r,
                tpdo_read_bytes(*self, index, subindex),
            ),
    {
        if 0x1800 <= index && index <= 0x19FF {
            match subindex {
                1 => Ok(ReadData::B4(crate::objectdictionary::datalink::encode_u32_bytes(
                    self.com.cob_id,
                ))),
                2 => {
                    let rd = ReadData::B1([self.com.transmission_type]);
                    proof {
                        assert(rd@ =~= seq![self.com.transmission_type]);
                    }
                    Ok(rd)
                },
                3 => Ok(ReadData::B2(crate::objectdictionary::datalink::encode_u16_bytes(
                    self.com.inhibit_time,
                ))),
                5 => Ok(ReadData::B2(crate::objectdictionary::datalink::encode_u16_bytes(
                    self.com.event_timer,
                ))),
                6 => {
                    let rd = ReadData::B1([self.com.sync_start_value]);
                    proof {
                        assert(rd@ =~= seq![self.com.sync_start_value]);
                    }
                    Ok(rd)
                },
                _ => Err(ODError::SubindexDoesNotExist),
            }
        } else if 0x1A00 <= index && index <= 0x1BFF {
            if subindex == 0 {
                let rd = ReadData::B1([self.map.num_mapped_objects]);
                proof {
                    assert(rd@ =~= seq![self.map.num_mapped_objects]);
                }
                Ok(rd)
            } else if subindex <= 8 {
                Ok(ReadData::B4(crate::objectdictionary::datalink::encode_u32_bytes(
                    self.map.get_map_data_packed(subindex),
                )))
            } else {
                Err(ODError::SubindexDoesNotExist)
            }
        } else {
            Err(ODError::ObjectDoesNotExist)
        }
    }

    /// Write a subindex of the communication or mapping record; see
    /// [`tpdo_write_post`]. The caller resolves the object a mapping word
    /// names and passes it as `target`; COB-ID changes go through the
    /// application's `policy`.
    pub fn write<C: CobIdUpdate>(
        &mut self,
        data: &WriteData,
        target: Option<ObjectInfo>,
        policy: &mut C,
    ) -> (r: Result<(), ODError>)
        requires
            old(self).wf(),
        ensures
            final(self).wf(),
            tpdo_write_post(*old(self), *data, target, *final(self), r),
    {
        let currently_active = self.com.cob_id < 0x8000_0000;
        if currently_active && (data.index > 0x19FF || data.subindex != 1) {
            return Err(ODError::DeviceStateError);
        }
        if 0x1800 <= data.index && data.index <= 0x19FF {
            match data.subindex {
                1 => {
                    let v = parse_u32(data)?;
                    let proposed = CobId::from_u32(v);
                    match policy.update(self.com.cob_id(), proposed) {
                        Ok(accepted) => {
                            if !cob_id_wf(&accepted) {
                                return Err(ODError::InvalidValue);
                            }
                            self.com.cob_id = accepted.to_u32();
                            Ok(())
                        },
                        Err(InvalidCobId) => Err(ODError::InvalidValue),
                    }
                },
                2 => {
                    let v = parse_u8(data)?;
                    self.com.transmission_type = v;
                    Ok(())
                },
                3 => {
                    let v = parse_u16(data)?;
                    self.com.inhibit_time = v;
                    Ok(())
                },
                5 => {
                    let v = parse_u16(data)?;
                    self.com.event_timer = v;
                    Ok(())
                },
                6 => {
                    let v = parse_u8(data)?;
                    self.com.sync_start_value = v;
                    Ok(())
                },
                _ => Err(ODError::SubindexDoesNotExist),
            }
        } else if 0x1A00 <= data.index && data.index <= 0x1BFF {
            if data.subindex == 0 {
                let v = parse_u8(data)?;
                if v > 8 {
                    return Err(ODError::InvalidValue);
                }
                self.map.num_mapped_objects = v;
                Ok(())
            } else if data.subindex <= 8 {
                if self.map.num_mapped_objects > 0 {
                    return Err(ODError::DeviceStateError);
                }
                match parse_u32(data) {
                    Ok(v) => {
                        let (_, _, num_bits) = unpack_object_data(v);
                        match target {
                            Some(info) => self.map.map_object(
                                (data.subindex - 1) as usize,
                                info,
                                num_bits,
                            ),
                            None => Err(ODError::ObjectDoesNotExist),
                        }
                    },
                    Err(_) => Ok(()),
                }
            } else {
                Err(ODError::SubindexDoesNotExist)
            }
        } else {
            Err(ODError::ObjectDoesNotExist)
        }
    }

    /// The payload that serialising this TPDO against `od` yields: the byte
    /// concatenation of the first `i` map slots, or the first error.
    pub open spec fn spec_frame_bytes(self, od: ObjectDictionary, i: int) -> Result<
        Seq<u8>,
        SDOAbortCode,
    >
        decreases i,
    {
        if i <= 0 {
            Ok(Seq::empty())
        } else {
            match self.spec_frame_bytes(od, i - 1) {
                Err(e) => Err(e),
                Ok(pre) => match self.map.map@[i - 1] {
                    None => Ok(pre),
                    Some(info) => if info.od_position.0 >= od.spec_len() {
                        Err(SDOAbortCode::GeneralError)
                    } else {
                        match object_read_bytes(
                            od.object_at(info.od_position.0 as int),
                            info.index,
                            info.subindex,
                        ) {
                            Err(e) => Err(e.spec_abort_code()),
                            Ok(b) => if pre.len() + b.len() > 8 {
                                Err(SDOAbortCode::PDOOverflow)
                            } else {
                                Ok(pre + b)
                            },
                        }
                    },
                },
            }
        }
    }

    /// Once a serialisation step fails, every longer prefix fails the same
    /// way.
    pub proof fn lemma_frame_bytes_err_persists(self, od: ObjectDictionary, i: int, j: int)
        requires
            0 <= i <= j,
            self.spec_frame_bytes(od, i) is Err,
        ensures
            self.spec_frame_bytes(od, j) == self.spec_frame_bytes(od, i),
        decreases j - i,
    {
        if j > i {
            self.lemma_frame_bytes_err_persists(od, i, j - 1);
        }
    }

    /// Serialise the mapped objects into one frame with the TPDO's COB-ID.
    ///
    /// Fails with `PDOOverflow` when the mapped values exceed 8 bytes, and
    /// with `GeneralError` when a cached map entry points outside `od`.
    #[verifier::loop_isolation(false)]
    pub fn create_frame(&self, od: &ObjectDictionary) -> (r: Result<CanFrame, SDOAbortCode>)
        requires
            self.wf(),
            od.wf(),
        ensures
            match r {
                Ok(f) => self.spec_frame_bytes(*od, self.map.num_mapped_objects as int) matches Ok(
                    b,
                ) && f.data@ == b && f.id == spec_unpack_cob_id(self.com.cob_id).id && !f.is_remote
                    && f.wf(),
                Err(e) => self.spec_frame_bytes(*od, self.map.num_mapped_objects as int) == Err::<
                    Seq<u8>,
                    SDOAbortCode,
                >(e),
            },
    {
        let mut buf: Vec<u8> = Vec::new();
        let n = self.map.num_mapped_objects;
        let mut i: usize = 0;
        while i < n as usize
            invariant
                i <= n,
                self.spec_frame_bytes(*od, i as int) == Ok::<Seq<u8>, SDOAbortCode>(buf@),
                buf@.len() <= 8,
            decreases n - i,
        {
            match self.map.map[i] {
                None => {},
                Some(info) => {
                    if info.od_position.0 >= self.od_len(od) {
                        proof {
                            assert(self.spec_frame_bytes(*od, i + 1) == Err::<Seq<u8>, SDOAbortCode>(
                                SDOAbortCode::GeneralError,
                            ));
                            self.lemma_frame_bytes_err_persists(*od, i + 1, n as int);
                        }
                        return Err(SDOAbortCode::GeneralError);
                    }
                    match od.get(info.od_position).read(info.index, info.subindex) {
                        Err(e) => {
                            proof {
                                assert(self.spec_frame_bytes(*od, i + 1) == Err::<
                                    Seq<u8>,
                                    SDOAbortCode,
                                >(e.spec_abort_code()));
                                self.lemma_frame_bytes_err_persists(*od, i + 1, n as int);
                            }
                            return Err(e.abort_code());
                        },
                        Ok(rd) => {
                            let bytes = rd.as_bytes();
                            if bytes.len() > 8 - buf.len() {
                                proof {
                                    assert(self.spec_frame_bytes(*od, i + 1) == Err::<
                                        Seq<u8>,
                                        SDOAbortCode,
                                    >(SDOAbortCode::PDOOverflow));
                                    self.lemma_frame_bytes_err_persists(*od, i + 1, n as int);
                                }
                                return Err(SDOAbortCode::PDOOverflow);
                            }
                            let mut j: usize = 0;
                            let ghost pre = buf@;
                            while j < bytes.len()
                                invariant
                                    j <= bytes@.len(),
                                    buf@ == pre + bytes@.subrange(0, j as int),
                                decreases bytes@.len() - j,
                            {
                                buf.push(bytes[j]);
                                proof {
                                    assert(buf@ =~= pre + bytes@.subrange(0, j + 1 as int));
                                }
                                j = j + 1;
                            }
                            proof {
                                assert(buf@ =~= pre + bytes@);
                                assert(self.spec_frame_bytes(*od, i + 1) == Ok::<
                                    Seq<u8>,
                                    SDOAbortCode,
                                >(buf@));
                            }
                        },
                    }
                },
            }
            i = i + 1;
        }
        let id = CobId::from_u32(self.com.cob_id).id;
        Ok(CanFrame { id, data: buf, is_remote: false })
    }

    fn od_len(&self, od: &ObjectDictionary) -> (r: usize)
        ensures
            r == od.spec_len(),
    {
        od.indices.len()
    }
}

/// Whether a COB-ID carries a representable identifier.
fn cob_id_wf(c: &CobId) -> (r: bool)
    ensures
        r == c.id.wf(),
{
    match c.id {
        CanId::Standard(x) => x <= 0x7FF,
        CanId::Extended(x) => x <= 0x1FFF_FFFF,
    }
}

/// The four default TPDOs of the predefined connection set.
#[derive(Clone, Copy, PartialEq, Eq, Structural, Debug)]
pub enum DefaultTPDO {
    TPDO1,
    TPDO2,
    TPDO3,
    TPDO4,
}

impl DefaultTPDO {
    /// The zero-based number of this TPDO.
    pub open spec fn spec_number(self) -> u16 {
        match self {
            DefaultTPDO::TPDO1 => 0u16,
            DefaultTPDO::TPDO2 => 1u16,
            DefaultTPDO::TPDO3 => 2u16,
            DefaultTPDO::TPDO4 => 3u16,
        }
    }

    /// The default COB-ID: `0x180 + 0x100 * number + node_id`.
    pub fn cob_id(self, node_id: NodeId, valid: bool, rtr: bool) -> (r: CobId)
        ensures
            r.valid == valid,
            r.rtr == rtr,
            r.id == CanId::Standard(
                (0x180 + 0x100 * self.spec_number() + node_id.spec_raw()) as u16,
            ),
            r.id.wf(),
    {
        let number: u16 = match self {
            DefaultTPDO::TPDO1 => 0,
            DefaultTPDO::TPDO2 => 1,
            DefaultTPDO::TPDO3 => 2,
            DefaultTPDO::TPDO4 => 3,
        };
        let raw: u16 = 0x180 + 0x100 * number + (node_id.raw() as u16);
        CobId { valid, rtr, id: CanId::Standard(raw) }
    }

    /// A fresh TPDO with the default COB-ID (inactive) and no mapped
    /// objects.
    pub fn new(self, node_id: NodeId) -> (r: TPDO)
        ensures
            r.wf(),
            r.com.cob_id == spec_pack_cob_id(
                CobId {
                    valid: false,
                    rtr: false,
                    id: CanId::Standard(
                        (0x180 + 0x100 * self.spec_number() + node_id.spec_raw()) as u16,
                    ),
                },
            ),
            r.map.num_mapped_objects == 0,
            forall|k: int| 0 <= k < 8 ==> r.map.map@[k] is None,
    {
        TPDO::new(
            PDOCommunicationParameter::new(self.cob_id(node_id, false, false)),
            TPDOMappingParameters::new(),
        )
    }
}

} // verus!
