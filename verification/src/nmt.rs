//! The NMT slave: network-management command frames on COB-ID 0 drive the
//! node's coarse lifecycle state through a user callback.

use vstd::prelude::*;

use crate::frame::{CanFrame, CanId};
use crate::node::NodeId;

verus! {

/// The NMT commands a slave recognises.
#[derive(Clone, Copy, PartialEq, Eq, Structural, Debug)]
pub enum NmtRequest {
    StartRemoteNode,
    StopRemoteNode,
    EnterPreOperational,
    ResetNode,
    ResetCommunication,
}

/// The coarse lifecycle state of a node.
#[derive(Clone, Copy, PartialEq, Eq, Structural, Debug)]
pub enum NmtState {
    Initialisation,
    PreOperational,
    Operational,
    Stopped,
}

/// The command a code byte denotes, if any.
pub open spec fn spec_nmt_from_u8(value: u8) -> Option<NmtRequest> {
    match value {
        0x01u8 => Some(NmtRequest::StartRemoteNode),
        0x02u8 => Some(NmtRequest::StopRemoteNode),
        0x80u8 => Some(NmtRequest::EnterPreOperational),
        0x81u8 => Some(NmtRequest::ResetNode),
        0x82u8 => Some(NmtRequest::ResetCommunication),
        _ => None,
    }
}

impl NmtRequest {
    /// Parse a command code byte.
    pub fn from_u8(value: u8) -> (r: Option<NmtRequest>)
        ensures
            r == spec_nmt_from_u8(value),
    {
        match value {
            0x01 => Some(NmtRequest::StartRemoteNode),
            0x02 => Some(NmtRequest::StopRemoteNode),
            0x80 => Some(NmtRequest::EnterPreOperational),
            0x81 => Some(NmtRequest::ResetNode),
            0x82 => Some(NmtRequest::ResetCommunication),
            _ => None,
        }
    }

    /// The state each command demands per CiA 301.
    pub open spec fn spec_next_state(self) -> NmtState {
        match self {
            NmtRequest::StartRemoteNode => NmtState::Operational,
            NmtRequest::StopRemoteNode => NmtState::Stopped,
            NmtRequest::EnterPreOperational => NmtState::PreOperational,
            NmtRequest::ResetNode => NmtState::Initialisation,
            NmtRequest::ResetCommunication => NmtState::Initialisation,
        }
    }

    pub fn next_state(self) -> (r: NmtState)
        ensures
            r == self.spec_next_state(),
    {
        match self {
            NmtRequest::StartRemoteNode => NmtState::Operational,
            NmtRequest::StopRemoteNode => NmtState::Stopped,
            NmtRequest::EnterPreOperational => NmtState::PreOperational,
            NmtRequest::ResetNode => NmtState::Initialisation,
            NmtRequest::ResetCommunication => NmtState::Initialisation,
        }
    }
}

/// The application's view of NMT transitions. A plain implementation
/// returns [`NmtRequest::next_state`]; a node that must run extra work on a
/// transition does it here.
pub trait NmtCallback {
    fn on_nmt_request(&mut self, nmt_request: NmtRequest) -> NmtState;
}

/// The callback that follows the CiA 301 state table without side effects.
pub struct DefaultNmtTransitions;

impl NmtCallback for DefaultNmtTransitions {
    fn on_nmt_request(&mut self, nmt_request: NmtRequest) -> NmtState {
        nmt_request.next_state()
    }
}

/// The NMT slave of one node.
pub struct Nmt {
    pub node_id: NodeId,
    pub state: NmtState,
}

/// Whether an NMT command frame addresses this node: a two-byte payload
/// whose target is 0 (broadcast) or the node's own id.
pub open spec fn spec_nmt_addressed(data: Seq<u8>, node_id: NodeId) -> bool {
    data.len() == 2 && (data[1] == 0 || data[1] == node_id.spec_raw())
}

impl Nmt {
    /// A fresh slave in the `Initialisation` state.
    pub fn new(node_id: NodeId) -> (r: Nmt)
        ensures
            r.node_id == node_id,
            r.state == NmtState::Initialisation,
    {
        Nmt { node_id, state: NmtState::Initialisation }
    }

    /// Handle one frame: only a frame on COB-ID 0 whose two-byte payload
    /// addresses this node is processed; NMT never answers.
    pub fn on_message<T: NmtCallback>(&mut self, frame: &CanFrame, callback: &mut T) -> (r:
        Option<CanFrame>)
        ensures
            r is None,
            final(self).node_id == old(self).node_id,
            !(frame.id == CanId::Standard(0) && spec_nmt_addressed(
                frame.data@,
                old(self).node_id,
            )) ==> *final(self) == *old(self),
            frame.id == CanId::Standard(0) && spec_nmt_addressed(frame.data@, old(self).node_id)
                && spec_nmt_from_u8(frame.data@[0]) is None ==> *final(self) == *old(self),
    {
        match frame.id() {
            CanId::Standard(id) => {
                if id != 0 {
                    return None;
                }
            },
            CanId::Extended(_) => {
                return None;
            },
        }
        if frame.data().len() != 2 {
            return None;
        }
        let command_code = frame.data()[0];
        let target = frame.data()[1];
        if target != 0 && target != self.node_id.raw() {
            return None;
        }
        self.on_request(command_code, callback)
    }

    /// Apply one command code: an unknown code is ignored, a known one sets
    /// the state to whatever the callback decides. No response is produced.
    pub fn on_request<T: NmtCallback>(&mut self, command_code: u8, callback: &mut T) -> (r:
        Option<CanFrame>)
        ensures
            r is None,
            final(self).node_id == old(self).node_id,
            spec_nmt_from_u8(command_code) is None ==> *final(self) == *old(self),
    {
        let nmt_request = match NmtRequest::from_u8(command_code) {
            Some(nr) => nr,
            None => {
                return None;
            },
        };
        self.state = callback.on_nmt_request(nmt_request);
        None
    }

    /// The boot-up announcement: one zero byte on COB-ID `0x700 + id`.
    pub fn boot_up_message(&self) -> (r: CanFrame)
        requires
            self.node_id.wf(),
        ensures
            r.id == CanId::Standard((0x700 + self.node_id.spec_raw()) as u16),
            r.data@ == seq![0u8],
            !r.is_remote,
            r.wf(),
    {
        let data: Vec<u8> = vec![0x00];
        proof {
            assert(data@ =~= seq![0u8]);
        }
        CanFrame { id: CanId::Standard(self.node_id.boot_up_cobid()), data, is_remote: false }
    }
}

} // verus!
