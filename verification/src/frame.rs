use vstd::prelude::*;

verus! {

/// An 11-bit or 29-bit CAN identifier.
#[derive(Clone, Copy, PartialEq, Eq, Structural, Debug)]
pub enum CanId {
    /// Base frame format identifier, at most `0x7FF`.
    Standard(u16),
    /// Extended frame format identifier, at most `0x1FFF_FFFF`.
    Extended(u32),
}

impl CanId {
    /// The identifier fits the bit width of its frame format.
    pub open spec fn wf(self) -> bool {
        match self {
            CanId::Standard(id) => id <= 0x7FF,
            CanId::Extended(id) => id <= 0x1FFF_FFFF,
        }
    }
}

/// A minimal view of a CAN frame: identifier, 0 to 8 payload bytes, remote flag.
///
/// Every service of this crate consumes and produces frames through this type
/// alone; a hardware driver converts between it and its own frame layout.
pub struct CanFrame {
    pub id: CanId,
    pub data: Vec<u8>,
    pub is_remote: bool,
}

impl CanFrame {
    /// The identifier is valid and the payload fits a classic CAN frame.
    pub open spec fn wf(self) -> bool {
        self.id.wf() && self.data@.len() <= 8
    }

    /// Build a data frame; fails when the payload is longer than 8 bytes.
    pub fn new(id: CanId, data: Vec<u8>) -> (r: Option<CanFrame>)
        requires
            id.wf(),
        ensures
            match r {
                Some(f) => data@.len() <= 8 && f.id == id && f.data@ == data@ && !f.is_remote
                    && f.wf(),
                None => data@.len() > 8,
            },
    {
        if data.len() > 8 {
            None
        } else {
            Some(CanFrame { id, data, is_remote: false })
        }
    }

    pub fn id(&self) -> (r: CanId)
        ensures
            r == self.id,
    {
        self.id
    }

    pub fn data(&self) -> (r: &Vec<u8>)
        ensures
            r == &self.data,
    {
        &self.data
    }

    pub fn is_remote(&self) -> (r: bool)
        ensures
            r == self.is_remote,
    {
        self.is_remote
    }
}

} // verus!
