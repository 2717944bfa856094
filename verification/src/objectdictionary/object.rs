use vstd::prelude::*;

use crate::objectdictionary::OdPosition;

verus! {

/// The number of bytes a slot occupies when mapped into a PDO: 1, 2 or 4.
#[derive(Clone, Copy, PartialEq, Eq, Structural, Debug)]
pub enum PdoSize {
    One,
    Two,
    Four,
}

impl PdoSize {
    /// The byte count of a mapping width, `None` for any other value.
    pub open spec fn spec_new(val: u8) -> Option<PdoSize> {
        match val {
            1u8 => Some(PdoSize::One),
            2u8 => Some(PdoSize::Two),
            4u8 => Some(PdoSize::Four),
            _ => None,
        }
    }

    pub fn new(val: u8) -> (r: Option<PdoSize>)
        ensures
            r == PdoSize::spec_new(val),
    {
        match val {
            1 => Some(PdoSize::One),
            2 => Some(PdoSize::Two),
            4 => Some(PdoSize::Four),
            _ => None,
        }
    }

    pub open spec fn spec_get(self) -> u8 {
        match self {
            PdoSize::One => 1u8,
            PdoSize::Two => 2u8,
            PdoSize::Four => 4u8,
        }
    }

    pub fn get(self) -> (r: u8)
        ensures
            r == self.spec_get(),
    {
        match self {
            PdoSize::One => 1,
            PdoSize::Two => 2,
            PdoSize::Four => 4,
        }
    }
}

/// Per-slot access capabilities: read-only or write-only marks (mutually
/// exclusive) and the optional width with which the slot may be mapped into
/// a PDO.
#[derive(Clone, Copy, Debug)]
pub struct ObjectFlags {
    pub read_only: bool,
    pub write_only: bool,
    pub pdo_size: Option<PdoSize>,
}

impl ObjectFlags {
    /// Read-only and write-only exclude each other.
    pub open spec fn wf(self) -> bool {
        !(self.read_only && self.write_only)
    }

    /// Flags with no marks: readable, writable, not mappable.
    pub fn empty() -> (r: ObjectFlags)
        ensures
            !r.read_only,
            !r.write_only,
            r.pdo_size is None,
            r.wf(),
    {
        ObjectFlags { read_only: false, write_only: false, pdo_size: None }
    }

    /// Mark the slot read-only; it must not already be write-only.
    pub fn set_read_only(self) -> (r: ObjectFlags)
        requires
            !self.write_only,
        ensures
            r == (ObjectFlags { read_only: true, ..self }),
            r.wf(),
    {
        ObjectFlags { read_only: true, ..self }
    }

    /// Mark the slot write-only; it must not already be read-only.
    pub fn set_write_only(self) -> (r: ObjectFlags)
        requires
            !self.read_only,
        ensures
            r == (ObjectFlags { write_only: true, ..self }),
            r.wf(),
    {
        ObjectFlags { write_only: true, ..self }
    }

    /// Declare the width with which this slot may be mapped into a PDO.
    pub fn set_pdo_size(self, size: PdoSize) -> (r: ObjectFlags)
        ensures
            r == (ObjectFlags { pdo_size: Some(size), ..self }),
            self.wf() ==> r.wf(),
    {
        ObjectFlags { pdo_size: Some(size), ..self }
    }

    pub fn is_read_only(&self) -> (r: bool)
        ensures
            r == self.read_only,
    {
        self.read_only
    }

    pub fn is_write_only(&self) -> (r: bool)
        ensures
            r == self.write_only,
    {
        self.write_only
    }

    pub fn pdo_size(&self) -> (r: Option<PdoSize>)
        ensures
            r == self.pdo_size,
    {
        self.pdo_size
    }
}

/// The directory row of one slot: its address, its flags, and its position
/// in the Object Dictionary.
#[derive(Clone, Copy, Debug)]
pub struct ObjectInfo {
    pub index: u16,
    pub subindex: u8,
    pub flags: ObjectFlags,
    pub od_position: OdPosition,
}

} // verus!
