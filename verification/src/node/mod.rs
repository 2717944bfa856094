mod local_node;

pub use local_node::CanOpenNode;

use vstd::prelude::*;

verus! {

/// Error returned when a raw byte is outside the CiA 301 node-id range `1..=127`.
#[derive(Clone, Copy, PartialEq, Eq, Structural, Debug)]
pub struct InvalidNodeId;

/// A validated CANopen node-id in the range `1..=127`.
///
/// The node-id determines the COB-IDs of the node's predefined communication
/// objects (SDO channels, default TPDOs, the boot-up message).
#[derive(Clone, Copy, PartialEq, Eq, Structural, Debug)]
pub struct NodeId(u8);

impl NodeId {
    /// Validate a raw byte as a node-id; ids outside `1..=127` are rejected.
    pub fn new(node_id: u8) -> (r: Result<Self, InvalidNodeId>)
        ensures
            1 <= node_id <= 127 ==> (r matches Ok(id) && id.spec_raw() == node_id),
            !(1 <= node_id <= 127) ==> r == Err::<NodeId, InvalidNodeId>(InvalidNodeId),
    {
        if 1 <= node_id && node_id <= 127 {
            Ok(NodeId(node_id))
        } else {
            Err(InvalidNodeId)
        }
    }

    /// The raw id, always in `1..=127`.
    pub fn raw(&self) -> (r: u8)
        ensures
            r == self.spec_raw(),
    {
        self.0
    }

    /// The id byte of a node-id value.
    pub closed spec fn spec_raw(self) -> u8 {
        self.0
    }

    /// Every constructed node-id lies in `1..=127`.
    pub open spec fn wf(self) -> bool {
        1 <= self.spec_raw() <= 127
    }

    /// COB-ID on which this node's SDO server receives requests: `0x600 + id`.
    pub fn sdo_rx_cobid(&self) -> (r: u16)
        ensures
            r == 0x600 + self.spec_raw(),
    {
        0x600 + self.0 as u16
    }

    /// COB-ID on which this node's SDO server sends responses: `0x580 + id`.
    pub fn sdo_tx_cobid(&self) -> (r: u16)
        ensures
            r == 0x580 + self.spec_raw(),
    {
        0x580 + self.0 as u16
    }

    /// COB-ID of the boot-up / heartbeat object: `0x700 + id`.
    pub fn boot_up_cobid(&self) -> (r: u16)
        ensures
            r == 0x700 + self.spec_raw(),
    {
        0x700 + self.0 as u16
    }
}

} // verus!
