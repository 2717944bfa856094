use canopen::frame::{CanFrame, CanId};
use canopen::objectdictionary::datalink::{BasicValue, OdObject};
use canopen::objectdictionary::object::ObjectFlags;
use canopen::objectdictionary::od_cell::OdCell;
use canopen::objectdictionary::ObjectDictionary;
use canopen::pdo::AcceptNewCobId;
use canopen::sdo::client::{segmented_upload_request, upload_request, ReadInto};
use canopen::sdo::SdoServer;
use canopen::NodeId;

fn on_sdo_message(server: &mut SdoServer, od: &mut ObjectDictionary, data: [u8; 8]) -> Option<CanFrame> {
    let frame = CanFrame::new(CanId::Standard(server.rx_cobid), data.to_vec()).unwrap();
    server.on_message(&frame, od, &mut AcceptNewCobId)
}

#[test]
fn test_expedited_download() {
    let mut od = ObjectDictionary::new();
    od.add(1, 0, ObjectFlags::empty(), OdObject::Bytes(OdCell::new(vec![0; 4])))
        .unwrap();
    od.add(2, 0, ObjectFlags::empty(), OdObject::Bytes(OdCell::new(vec![0; 3])))
        .unwrap();

    let mut sdo_server = SdoServer::new(NodeId::new(2).unwrap());

    // size not specified
    let response_0 = on_sdo_message(
        &mut sdo_server,
        &mut od,
        [0x22, 0x01, 0x00, 0x00, 0x01, 0x02, 0x03, 0x04],
    );
    // size specified
    let response_1 = on_sdo_message(
        &mut sdo_server,
        &mut od,
        [0x27, 0x02, 0x00, 0x00, 0x01, 0x02, 0x03, 0x04],
    );

    assert_eq!(
        response_0.unwrap().data().as_slice(),
        &[0x60, 0x01, 0x00, 0x00, 0x00, 0x00, 0x00, 0x00]
    );
    assert_eq!(
        response_1.unwrap().data().as_slice(),
        &[0x60, 0x02, 0x00, 0x00, 0x00, 0x00, 0x00, 0x00]
    );

    assert_eq!(od.read(1, 0).unwrap().as_bytes(), &[1, 2, 3, 4]);
    assert_eq!(od.read(2, 0).unwrap().as_bytes(), &[1, 2, 3]);
}

#[test]
fn test_segmented_download() {
    let mut od = ObjectDictionary::new();
    od.add(1, 0, ObjectFlags::empty(), OdObject::Bytes(OdCell::new(vec![0; 13])))
        .unwrap();

    let mut sdo_server = SdoServer::new(NodeId::new(2).unwrap());

    // initiate download, size specified, len=13
    let response_0 = on_sdo_message(
        &mut sdo_server,
        &mut od,
        [0x21, 0x01, 0x00, 0x00, 0x0d, 0x00, 0x00, 0x00],
    );
    // segment, toggle 0
    let response_1 = on_sdo_message(
        &mut sdo_server,
        &mut od,
        [0x00, 0x41, 0x20, 0x6c, 0x6f, 0x6e, 0x67, 0x20],
    );
    // segment, toggle 1, no more data, one unused byte
    let response_2 = on_sdo_message(
        &mut sdo_server,
        &mut od,
        [0x13, 0x73, 0x74, 0x72, 0x69, 0x6e, 0x67, 0x00],
    );

    assert_eq!(
        response_0.unwrap().data().as_slice(),
        &[0x60, 0x01, 0x00, 0x00, 0x00, 0x00, 0x00, 0x00]
    );
    assert_eq!(
        response_1.unwrap().data().as_slice(),
        &[0x20, 0x00, 0x00, 0x00, 0x00, 0x00, 0x00, 0x00]
    );
    assert_eq!(
        response_2.unwrap().data().as_slice(),
        &[0x30, 0x00, 0x00, 0x00, 0x00, 0x00, 0x00, 0x00]
    );

    assert_eq!(od.read(1, 0).unwrap().as_bytes(), b"A long string");
}

fn read<B: ReadInto>(index: u16, subindex: u8, server: &mut SdoServer, od: &mut ObjectDictionary, buf: &mut B) {
    let request = upload_request(index, subindex);
    let response = server
        .on_request(request.as_slice(), od, &mut AcceptNewCobId)
        .unwrap();
    let first = response.data().clone();
    assert_eq!(first[0] & 0xE0, 0x40);
    if first[0] & 0x02 != 0 {
        // expedited: the unused count names how many trailing bytes to drop
        let unused = ((first[0] >> 2) & 0x3) as usize;
        buf.read_into(&first[4..8 - unused]).ok().unwrap();
        return;
    }
    let mut toggle = false;
    loop {
        let request = segmented_upload_request(toggle);
        let response = server
            .on_request(request.as_slice(), od, &mut AcceptNewCobId)
            .unwrap();
        let data = response.data().clone();
        let unused = ((data[0] >> 1) & 0x7) as usize;
        buf.read_into(&data[1..8 - unused]).ok().unwrap();
        if data[0] & 0x01 != 0 {
            break;
        }
        toggle = !toggle;
    }
}

#[test]
fn test_expedited_upload() {
    let mut od = ObjectDictionary::new();
    od.add(1, 0, ObjectFlags::empty(), OdObject::Basic(BasicValue::U32(0x04030201)))
        .unwrap();

    let mut sdo_server = SdoServer::new(NodeId::new(2).unwrap());

    let mut data = 0_u32;
    read(1, 0, &mut sdo_server, &mut od, &mut data);

    assert_eq!(data, 0x04030201);
}

#[test]
fn test_segmented_upload() {
    let mut od = ObjectDictionary::new();
    od.add(
        1,
        0,
        ObjectFlags::empty(),
        OdObject::Bytes(OdCell::new(vec![1, 2, 3, 4, 5, 6, 7, 8, 9])),
    )
    .unwrap();

    let mut sdo_server = SdoServer::new(NodeId::new(2).unwrap());

    let mut data = Vec::new();
    read(1, 0, &mut sdo_server, &mut od, &mut data);

    assert_eq!(data, [1, 2, 3, 4, 5, 6, 7, 8, 9]);
}

#[test]
fn test_segmented_upload_with_known_size() {
    let mut od = ObjectDictionary::new();
    od.add(
        1,
        0,
        ObjectFlags::empty().set_read_only(),
        OdObject::Str(b"A long string".to_vec()),
    )
    .unwrap();

    let mut sdo_server = SdoServer::new(NodeId::new(2).unwrap());

    let mut data = Vec::new();
    read(1, 0, &mut sdo_server, &mut od, &mut data);

    assert_eq!(data, b"A long string");
}

#[test]
fn test_abort() {
    let mut od = ObjectDictionary::new();
    od.add(1, 0, ObjectFlags::empty(), OdObject::Basic(BasicValue::U8(0)))
        .unwrap();

    let mut sdo_server = SdoServer::new(NodeId::new(2).unwrap());

    // invalid command specifier
    let response_0 = on_sdo_message(
        &mut sdo_server,
        &mut od,
        [0xe0, 0x00, 0x00, 0x00, 0x00, 0x00, 0x00, 0x00],
    );
    // upload of a missing index
    let response_1 = on_sdo_message(
        &mut sdo_server,
        &mut od,
        [0x40, 0x00, 0x00, 0x00, 0x00, 0x00, 0x00, 0x00],
    );
    // upload of a missing subindex
    let response_2 = on_sdo_message(
        &mut sdo_server,
        &mut od,
        [0x40, 0x01, 0x00, 0x01, 0x00, 0x00, 0x00, 0x00],
    );
    assert_eq!(
        response_0.unwrap().data().as_slice(),
        &[0x80, 0x00, 0x00, 0x00, 0x01, 0x00, 0x04, 0x05]
    );
    assert_eq!(
        response_1.unwrap().data().as_slice(),
        &[0x80, 0x00, 0x00, 0x00, 0x00, 0x00, 0x02, 0x06]
    );
    assert_eq!(
        response_2.unwrap().data().as_slice(),
        &[0x80, 0x01, 0x00, 0x01, 0x11, 0x00, 0x09, 0x06]
    );
}

#[test]
fn test_toggle_bit_not_alternated() {
    let mut od = ObjectDictionary::new();
    od.add(1, 0, ObjectFlags::empty(), OdObject::Bytes(OdCell::new(vec![0; 13])))
        .unwrap();

    let mut sdo_server = SdoServer::new(NodeId::new(2).unwrap());

    let response_0 = on_sdo_message(
        &mut sdo_server,
        &mut od,
        [0x21, 0x01, 0x00, 0x00, 0x0d, 0x00, 0x00, 0x00],
    );
    assert_eq!(
        response_0.unwrap().data().as_slice(),
        &[0x60, 0x01, 0x00, 0x00, 0x00, 0x00, 0x00, 0x00]
    );
    // first segment must carry toggle 0; a replayed toggle 1 aborts
    let response_1 = on_sdo_message(
        &mut sdo_server,
        &mut od,
        [0x10, 0x41, 0x20, 0x6c, 0x6f, 0x6e, 0x67, 0x20],
    );
    assert_eq!(
        response_1.unwrap().data().as_slice(),
        &[0x80, 0x01, 0x00, 0x00, 0x00, 0x00, 0x03, 0x05]
    );
}

#[test]
fn test_abort_request_is_silent() {
    let mut od = ObjectDictionary::new();
    od.add(1, 0, ObjectFlags::empty(), OdObject::Basic(BasicValue::U8(0)))
        .unwrap();

    let mut sdo_server = SdoServer::new(NodeId::new(2).unwrap());

    let response = on_sdo_message(
        &mut sdo_server,
        &mut od,
        [0x80, 0x00, 0x00, 0x00, 0x00, 0x00, 0x00, 0x00],
    );
    assert!(response.is_none());
}

#[test]
fn test_write_to_read_only_slot_aborts() {
    let mut od = ObjectDictionary::new();
    od.add(
        0x2000,
        0,
        ObjectFlags::empty().set_read_only(),
        OdObject::Basic(BasicValue::U8(7)),
    )
    .unwrap();

    let mut sdo_server = SdoServer::new(NodeId::new(2).unwrap());

    let response = on_sdo_message(
        &mut sdo_server,
        &mut od,
        [0x2F, 0x00, 0x20, 0x00, 0x05, 0x00, 0x00, 0x00],
    );
    // ReadOnlyError, 0x0601_0001
    assert_eq!(
        response.unwrap().data().as_slice(),
        &[0x80, 0x00, 0x20, 0x00, 0x01, 0x00, 0x01, 0x06]
    );
    assert_eq!(od.read(0x2000, 0).unwrap().as_bytes(), &[7]);
}

#[test]
fn test_read_of_write_only_slot_aborts() {
    let mut od = ObjectDictionary::new();
    od.add(
        0x2000,
        0,
        ObjectFlags::empty().set_write_only(),
        OdObject::Basic(BasicValue::U8(7)),
    )
    .unwrap();

    let mut sdo_server = SdoServer::new(NodeId::new(2).unwrap());

    let response = on_sdo_message(
        &mut sdo_server,
        &mut od,
        [0x40, 0x00, 0x20, 0x00, 0x00, 0x00, 0x00, 0x00],
    );
    // WriteOnlyError, 0x0601_0002
    assert_eq!(
        response.unwrap().data().as_slice(),
        &[0x80, 0x00, 0x20, 0x00, 0x02, 0x00, 0x01, 0x06]
    );
}

#[test]
fn test_expedited_scenario_u32() {
    // download 0x04030201 to 0x2000, then upload it again
    let mut od = ObjectDictionary::new();
    od.add(0x2000, 0, ObjectFlags::empty(), OdObject::Basic(BasicValue::U32(0)))
        .unwrap();

    let mut sdo_server = SdoServer::new(NodeId::new(2).unwrap());

    let response_0 = on_sdo_message(
        &mut sdo_server,
        &mut od,
        [0x23, 0x00, 0x20, 0x00, 0x01, 0x02, 0x03, 0x04],
    );
    assert_eq!(
        response_0.unwrap().data().as_slice(),
        &[0x60, 0x00, 0x20, 0x00, 0x00, 0x00, 0x00, 0x00]
    );
    let response_1 = on_sdo_message(
        &mut sdo_server,
        &mut od,
        [0x40, 0x00, 0x20, 0x00, 0x00, 0x00, 0x00, 0x00],
    );
    assert_eq!(
        response_1.unwrap().data().as_slice(),
        &[0x43, 0x00, 0x20, 0x00, 0x01, 0x02, 0x03, 0x04]
    );
}

#[test]
fn test_segmented_upload_nine_bytes_wire() {
    // a 9-byte array uploads as a size announcement and two segments
    let mut od = ObjectDictionary::new();
    od.add(
        0x2000,
        0,
        ObjectFlags::empty(),
        OdObject::Bytes(OdCell::new(vec![1, 2, 3, 4, 5, 6, 7, 8, 9])),
    )
    .unwrap();

    let mut sdo_server = SdoServer::new(NodeId::new(2).unwrap());

    let response_0 = on_sdo_message(
        &mut sdo_server,
        &mut od,
        [0x40, 0x00, 0x20, 0x00, 0x00, 0x00, 0x00, 0x00],
    );
    assert_eq!(
        response_0.unwrap().data().as_slice(),
        &[0x41, 0x00, 0x20, 0x00, 0x09, 0x00, 0x00, 0x00]
    );
    let response_1 = on_sdo_message(
        &mut sdo_server,
        &mut od,
        [0x60, 0x00, 0x00, 0x00, 0x00, 0x00, 0x00, 0x00],
    );
    assert_eq!(
        response_1.unwrap().data().as_slice(),
        &[0x00, 1, 2, 3, 4, 5, 6, 7]
    );
    let response_2 = on_sdo_message(
        &mut sdo_server,
        &mut od,
        [0x70, 0x00, 0x00, 0x00, 0x00, 0x00, 0x00, 0x00],
    );
    assert_eq!(
        response_2.unwrap().data().as_slice(),
        &[0x1B, 8, 9, 0, 0, 0, 0, 0]
    );
}

#[test]
fn test_lost_lock_aborts_segmented_download() {
    let mut od = ObjectDictionary::new();
    od.add(1, 0, ObjectFlags::empty(), OdObject::Bytes(OdCell::new(vec![0; 13])))
        .unwrap();

    let mut sdo_server = SdoServer::new(NodeId::new(2).unwrap());

    on_sdo_message(
        &mut sdo_server,
        &mut od,
        [0x21, 0x01, 0x00, 0x00, 0x0d, 0x00, 0x00, 0x00],
    );
    on_sdo_message(
        &mut sdo_server,
        &mut od,
        [0x00, 0x41, 0x20, 0x6c, 0x6f, 0x6e, 0x67, 0x20],
    );
    // the application takes the slot in the middle of the transfer,
    // which clears the transfer lock
    match &mut od.objects[0] {
        OdObject::Bytes(cell) => {
            cell.get_mut()[0] = 0xAA;
        }
        _ => unreachable!(),
    }
    let response = on_sdo_message(
        &mut sdo_server,
        &mut od,
        [0x13, 0x73, 0x74, 0x72, 0x69, 0x6e, 0x67, 0x00],
    );
    // LocalControlError, 0x0800_0021
    assert_eq!(
        response.unwrap().data().as_slice(),
        &[0x80, 0x01, 0x00, 0x00, 0x21, 0x00, 0x00, 0x08]
    );
}
