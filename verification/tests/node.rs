use canopen::frame::{CanFrame, CanId};
use canopen::lss::{Lss, LssCallback, StoreConfigurationError};
use canopen::nmt::{NmtRequest, NmtState, NmtCallback};
use canopen::objectdictionary::datalink::{BasicValue, OdObject};
use canopen::objectdictionary::object::ObjectFlags;
use canopen::objectdictionary::ObjectDictionary;
use canopen::pdo::{CobId, CobIdUpdate, InvalidCobId};
use canopen::sdo::client::{
    download_request, parse_download_response, parse_upload_response, segmented_upload_request,
    upload_request, ProtocolError,
};
use canopen::{CanOpenNode, NodeId};

/// A plain application: table-driven NMT, no persistence, permissive
/// COB-ID updates.
struct App;

impl NmtCallback for App {
    fn on_nmt_request(&mut self, nmt_request: NmtRequest) -> NmtState {
        nmt_request.next_state()
    }
}

impl LssCallback for App {
    fn store_configuration(&mut self, _node_id: NodeId) -> Result<(), StoreConfigurationError> {
        Err(StoreConfigurationError::NotSupported)
    }

    fn on_new_node_id(&mut self, _node_id: NodeId) {}
}

impl CobIdUpdate for App {
    fn update(&mut self, _current: CobId, new: CobId) -> Result<CobId, InvalidCobId> {
        Ok(new)
    }
}

fn demo_node() -> (CanOpenNode, ObjectDictionary) {
    let node_id = NodeId::new(2).unwrap();
    let lss = Lss::new(Some(node_id), 1, 2, 3, 4);
    let node = CanOpenNode::new(node_id, lss);
    let mut od = ObjectDictionary::new();
    od.add(0x2000, 0, ObjectFlags::empty(), OdObject::Basic(BasicValue::U32(0x04030201)))
        .unwrap();
    (node, od)
}

#[test]
fn test_dispatch_routes_sdo() {
    let (mut node, mut od) = demo_node();
    let mut app = App;

    let frame = CanFrame::new(
        CanId::Standard(0x602),
        vec![0x40, 0x00, 0x20, 0x00, 0, 0, 0, 0],
    )
    .unwrap();
    let response = node.on_message(&frame, &mut od, &mut app).unwrap();
    assert_eq!(response.id, CanId::Standard(0x582));
    assert_eq!(
        response.data.as_slice(),
        &[0x43, 0x00, 0x20, 0x00, 0x01, 0x02, 0x03, 0x04]
    );
}

#[test]
fn test_dispatch_routes_nmt() {
    let (mut node, mut od) = demo_node();
    let mut app = App;

    let frame = CanFrame::new(CanId::Standard(0), vec![0x01, 0x02]).unwrap();
    assert!(node.on_message(&frame, &mut od, &mut app).is_none());
    assert_eq!(node.nmt_slave.state, NmtState::Operational);
}

#[test]
fn test_dispatch_routes_lss() {
    let (mut node, mut od) = demo_node();
    let mut app = App;

    // switch to configuration mode, then inquire the node id
    let frame = CanFrame::new(
        CanId::Standard(0x7E5),
        vec![0x04, 0x01, 0, 0, 0, 0, 0, 0],
    )
    .unwrap();
    assert!(node.on_message(&frame, &mut od, &mut app).is_none());
    let frame = CanFrame::new(
        CanId::Standard(0x7E5),
        vec![0x5E, 0x00, 0, 0, 0, 0, 0, 0],
    )
    .unwrap();
    let response = node.on_message(&frame, &mut od, &mut app).unwrap();
    assert_eq!(response.id, CanId::Standard(0x7E4));
    assert_eq!(response.data.as_slice(), &[0x5E, 0x02, 0, 0, 0, 0, 0, 0]);
}

#[test]
fn test_dispatch_ignores_foreign_frames() {
    let (mut node, mut od) = demo_node();
    let mut app = App;

    // an unrelated standard identifier
    let frame = CanFrame::new(
        CanId::Standard(0x345),
        vec![0x40, 0x00, 0x20, 0x00, 0, 0, 0, 0],
    )
    .unwrap();
    assert!(node.on_message(&frame, &mut od, &mut app).is_none());

    // another node's SDO channel
    let frame = CanFrame::new(
        CanId::Standard(0x603),
        vec![0x40, 0x00, 0x20, 0x00, 0, 0, 0, 0],
    )
    .unwrap();
    assert!(node.on_message(&frame, &mut od, &mut app).is_none());

    // extended identifiers are always ignored
    let frame = CanFrame::new(
        CanId::Extended(0x602),
        vec![0x40, 0x00, 0x20, 0x00, 0, 0, 0, 0],
    )
    .unwrap();
    assert!(node.on_message(&frame, &mut od, &mut app).is_none());

    // a short payload on the SDO channel is ignored too
    let frame = CanFrame::new(CanId::Standard(0x602), vec![0x40]).unwrap();
    assert!(node.on_message(&frame, &mut od, &mut app).is_none());
}

#[test]
fn test_upload_response() {
    let data = [0x40, 0, 0, 0, 1, 0, 0, 0];
    assert_eq!(parse_upload_response(&data, 0, 0), Ok(1u32));
    assert_eq!(
        parse_upload_response::<u32>(&data, 1, 0),
        Err(ProtocolError::IndexMismatch)
    );
}

#[test]
fn test_download_response_parsing() {
    let ok = [0x60, 0x00, 0x20, 0x00, 0, 0, 0, 0];
    assert_eq!(parse_download_response(&ok, 0x2000, 0), Ok(()));
    assert_eq!(
        parse_download_response(&ok, 0x2000, 1),
        Err(ProtocolError::SubindexMismatch)
    );
    let abort = [0x80, 0x00, 0x20, 0x00, 0x00, 0x00, 0x02, 0x06];
    assert_eq!(
        parse_download_response(&abort, 0x2000, 0),
        Err(ProtocolError::Abort(
            canopen::sdo::SDOAbortCode::ObjectDoesNotExist
        ))
    );
}

#[test]
fn test_request_builders() {
    assert_eq!(
        upload_request(0x2000, 5).as_slice(),
        &[0x40, 0x00, 0x20, 0x05, 0, 0, 0, 0]
    );
    assert_eq!(
        download_request(0x2000, 0, 0x04030201u32).as_slice(),
        &[0x23, 0x00, 0x20, 0x00, 0x01, 0x02, 0x03, 0x04]
    );
    assert_eq!(
        download_request(0x2000, 0, 0xABu8).as_slice(),
        &[0x2F, 0x00, 0x20, 0x00, 0xAB, 0x00, 0x00, 0x00]
    );
    assert_eq!(
        segmented_upload_request(true).as_slice(),
        &[0x70, 0, 0, 0, 0, 0, 0, 0]
    );
}

#[test]
fn test_signed_client_values() {
    let req = download_request(0x2000, 0, -2i16);
    assert_eq!(req.as_slice(), &[0x2B, 0x00, 0x20, 0x00, 0xFE, 0xFF, 0x00, 0x00]);
    let resp = [0x43, 0x00, 0x20, 0x00, 0xFE, 0xFF, 0xFF, 0xFF];
    assert_eq!(parse_upload_response::<i32>(&resp, 0x2000, 0), Ok(-2i32));
}
