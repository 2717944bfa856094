use vstd::prelude::*;

use crate::frame::{CanFrame, CanId};
use crate::lss::{self, Lss, LssCallback};
use crate::nmt::{Nmt, NmtCallback};
use crate::node::NodeId;
use crate::objectdictionary::ObjectDictionary;
use crate::pdo::{CobIdUpdate, DefaultTPDO, TPDO};
use crate::sdo::server::{spec_on_request, SdoServer};

verus! {

/// One CANopen slave node: its SDO server, its LSS slave and its NMT slave,
/// with a dispatcher that routes each inbound frame to exactly one of them.
pub struct CanOpenNode {
    pub node_id: NodeId,
    pub sdo_server: SdoServer,
    pub lss_slave: Lss,
    pub nmt_slave: Nmt,
}

impl CanOpenNode {
    /// The services agree on the node-id and its derived COB-IDs.
    pub open spec fn wf(self) -> bool {
        &&& self.node_id.wf()
        &&& self.sdo_server.rx_cobid == 0x600 + self.node_id.spec_raw()
        &&& self.sdo_server.tx_cobid == 0x580 + self.node_id.spec_raw()
        &&& self.nmt_slave.node_id == self.node_id
    }

    /// Assemble a node from its id and a prepared LSS slave.
    pub fn new(node_id: NodeId, lss_slave: Lss) -> (r: CanOpenNode)
        requires
            node_id.wf(),
        ensures
            r.wf(),
            r.node_id == node_id,
            r.lss_slave == lss_slave,
            r.sdo_server.state is Idle,
    {
        CanOpenNode {
            node_id,
            sdo_server: SdoServer::new(node_id),
            lss_slave,
            nmt_slave: Nmt::new(node_id),
        }
    }

    /// Route one inbound frame to the service its identifier names.
    ///
    /// A frame reaches the NMT slave on COB-ID 0 with a two-byte payload
    /// addressing this node, the SDO server on `0x600 + id` with an 8-byte
    /// payload, and the LSS slave on `0x7E5` with an 8-byte payload. Every
    /// other frame — any extended identifier included — is ignored and
    /// changes nothing.
    pub fn on_message<CB: NmtCallback + LssCallback + CobIdUpdate>(
        &mut self,
        frame: &CanFrame,
        od: &mut ObjectDictionary,
        callbacks: &mut CB,
    ) -> (r: Option<CanFrame>)
        requires
            old(self).wf(),
            old(od).wf(),
        ensures
            final(self).wf(),
            final(od).wf(),
            final(self).node_id == old(self).node_id,
            !(frame.id matches CanId::Standard(id) && (id == 0 || id == old(
                self,
            ).sdo_server.rx_cobid || id == lss::LSS_REQUEST_ID)) ==> r is None && *final(self)
                == *old(self) && ObjectDictionary::spec_same(*old(od), *final(od)),
            frame.id == CanId::Standard(0) ==> r is None && final(self).sdo_server == old(
                self,
            ).sdo_server && final(self).lss_slave == old(self).lss_slave
                && ObjectDictionary::spec_same(*old(od), *final(od)),
            frame.id == CanId::Standard(old(self).sdo_server.rx_cobid) && frame.data@.len() != 8
                ==> r is None && *final(self) == *old(self) && ObjectDictionary::spec_same(
                *old(od),
                *final(od),
            ),
            frame.id == CanId::Standard(lss::LSS_REQUEST_ID) && frame.data@.len() != 8 ==> r
                is None && *final(self) == *old(self) && ObjectDictionary::spec_same(
                *old(od),
                *final(od),
            ),
            frame.id == CanId::Standard(old(self).sdo_server.rx_cobid) && frame.data@.len() == 8
                ==> spec_on_request(
                old(self).sdo_server,
                *old(od),
                frame.data@,
                final(self).sdo_server,
                *final(od),
                r,
            ) && final(self).lss_slave == old(self).lss_slave && final(self).nmt_slave == old(
                self,
            ).nmt_slave,
            frame.id == CanId::Standard(lss::LSS_REQUEST_ID) && frame.data@.len() == 8 ==> exists|
                resp: Option<Seq<u8>>,
            |
                #[trigger] lss::spec_lss_step(
                    old(self).lss_slave,
                    frame.data@,
                    final(self).lss_slave,
                    resp,
                ) && lss::spec_lss_wire(resp, r) && final(self).sdo_server == old(self).sdo_server
                && final(self).nmt_slave == old(self).nmt_slave && ObjectDictionary::spec_same(
                *old(od),
                *final(od),
            ),
    {
        let id = match frame.id() {
            CanId::Standard(id) => id,
            CanId::Extended(_) => {
                return None;
            },
        };
        if id == 0 {
            return self.nmt_slave.on_message(frame, callbacks);
        }
        if id == self.sdo_server.rx_cobid {
            if frame.data().len() == 8 {
                return self.sdo_server.on_request(frame.data().as_slice(), od, callbacks);
            }
            return None;
        }
        if id == lss::LSS_REQUEST_ID {
            if frame.data().len() == 8 {
                return self.lss_slave.on_request(frame.data().as_slice(), callbacks);
            }
            return None;
        }
        None
    }

    /// The first default TPDO of the predefined connection set.
    pub fn tpdo1(&self) -> (r: TPDO)
        requires
            self.wf(),
        ensures
            r.wf(),
            r.map.num_mapped_objects == 0,
    {
        DefaultTPDO::TPDO1.new(self.node_id)
    }

    /// The second default TPDO.
    pub fn tpdo2(&self) -> (r: TPDO)
        requires
            self.wf(),
        ensures
            r.wf(),
            r.map.num_mapped_objects == 0,
    {
        DefaultTPDO::TPDO2.new(self.node_id)
    }

    /// The third default TPDO.
    pub fn tpdo3(&self) -> (r: TPDO)
        requires
            self.wf(),
        ensures
            r.wf(),
            r.map.num_mapped_objects == 0,
    {
        DefaultTPDO::TPDO3.new(self.node_id)
    }

    /// The fourth default TPDO.
    pub fn tpdo4(&self) -> (r: TPDO)
        requires
            self.wf(),
        ensures
            r.wf(),
            r.map.num_mapped_objects == 0,
    {
        DefaultTPDO::TPDO4.new(self.node_id)
    }
}

} // verus!
