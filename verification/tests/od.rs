use canopen::frame::{CanFrame, CanId};
use canopen::nmt::{DefaultNmtTransitions, Nmt, NmtState};
use canopen::objectdictionary::datalink::{BasicValue, OdArray, OdObject, WriteData};
use canopen::objectdictionary::object::{ObjectFlags, PdoSize};
use canopen::objectdictionary::{ODError, ObjectDictionary, OdPosition};
use canopen::objectdictionary::od_cell::OdCell;
use canopen::pdo::AcceptNewCobId;
use canopen::sdo::SDOAbortCode;
use canopen::NodeId;

#[test]
fn test_node_id_range() {
    assert!(NodeId::new(0).is_err());
    assert!(NodeId::new(128).is_err());
    let id = NodeId::new(127).unwrap();
    assert_eq!(id.raw(), 127);
    assert_eq!(id.sdo_rx_cobid(), 0x67F);
    assert_eq!(id.sdo_tx_cobid(), 0x5FF);
    assert_eq!(id.boot_up_cobid(), 0x77F);
}

#[test]
fn test_frame_payload_limit() {
    assert!(CanFrame::new(CanId::Standard(0x123), vec![0; 9]).is_none());
    let frame = CanFrame::new(CanId::Standard(0x123), vec![1, 2, 3]).unwrap();
    assert_eq!(frame.id(), CanId::Standard(0x123));
    assert_eq!(frame.data().as_slice(), &[1, 2, 3]);
    assert!(!frame.is_remote());
}

#[test]
fn test_search_and_errors() {
    let mut od = ObjectDictionary::new();
    od.add(0x1000, 0, ObjectFlags::empty(), OdObject::Basic(BasicValue::U32(0x12345678)))
        .unwrap();
    od.add(0x1003, 0, ObjectFlags::empty(), OdObject::Basic(BasicValue::U8(1)))
        .unwrap();
    od.add(0x1003, 1, ObjectFlags::empty(), OdObject::Basic(BasicValue::U32(0)))
        .unwrap();
    od.add(0x2000, 0, ObjectFlags::empty(), OdObject::Basic(BasicValue::I16(-2)))
        .unwrap();

    assert!(od.search(0x1000, 0).is_ok());
    assert_eq!(od.search(0x1003, 1), Ok(OdPosition(2)));
    assert_eq!(od.search(0x1001, 0), Err(ODError::ObjectDoesNotExist));
    assert_eq!(od.search(0x1003, 2), Err(ODError::SubindexDoesNotExist));
    assert_eq!(od.read(0x2000, 0).unwrap().as_bytes(), &[0xFE, 0xFF]);
}

#[test]
fn test_add_out_of_order_is_refused() {
    let mut od = ObjectDictionary::new();
    od.add(0x2000, 1, ObjectFlags::empty(), OdObject::Basic(BasicValue::U8(0)))
        .unwrap();
    // same address again
    assert_eq!(
        od.add(0x2000, 1, ObjectFlags::empty(), OdObject::Basic(BasicValue::U8(0))),
        Err(ODError::DictionaryError)
    );
    // an earlier address
    assert_eq!(
        od.add(0x1000, 0, ObjectFlags::empty(), OdObject::Basic(BasicValue::U8(0))),
        Err(ODError::DictionaryError)
    );
    // a later one is fine
    assert!(od
        .add(0x2000, 2, ObjectFlags::empty(), OdObject::Basic(BasicValue::U8(0)))
        .is_ok());
}

#[test]
fn test_array_slot() {
    let mut od = ObjectDictionary::new();
    od.add_array(
        0x3004,
        ObjectFlags::empty(),
        OdArray::new(vec![BasicValue::U16(0x1122), BasicValue::U16(0x3344)]),
    )
    .unwrap();

    // subindex 0 is the element count
    assert_eq!(od.read(0x3004, 0).unwrap().as_bytes(), &[2]);
    assert_eq!(od.read(0x3004, 1).unwrap().as_bytes(), &[0x22, 0x11]);
    assert_eq!(od.read(0x3004, 2).unwrap().as_bytes(), &[0x44, 0x33]);
    assert!(matches!(od.read(0x3004, 3), Err(ODError::SubindexDoesNotExist)));

    // the count is read-only
    let pos = od.search(0x3004, 0).unwrap();
    let wd = WriteData {
        index: 0x3004,
        subindex: 0,
        new_data: vec![9],
        offset: 0,
        promised_size: None,
        is_last_segment: true,
    };
    assert_eq!(od.write(pos, &wd, &mut AcceptNewCobId), Err(ODError::ReadOnlyError));

    // elements are writable
    let pos = od.search(0x3004, 2).unwrap();
    let wd = WriteData {
        index: 0x3004,
        subindex: 2,
        new_data: vec![0x66, 0x55],
        offset: 0,
        promised_size: None,
        is_last_segment: true,
    };
    assert_eq!(od.write(pos, &wd, &mut AcceptNewCobId), Ok(()));
    assert_eq!(od.read(0x3004, 2).unwrap().as_bytes(), &[0x66, 0x55]);
}

fn write_value(od: &mut ObjectDictionary, index: u16, data: Vec<u8>) -> Result<(), ODError> {
    let pos = od.search(index, 0).unwrap();
    let wd = WriteData {
        index,
        subindex: 0,
        new_data: data,
        offset: 0,
        promised_size: None,
        is_last_segment: true,
    };
    od.write(pos, &wd, &mut AcceptNewCobId)
}

#[test]
fn test_primitive_round_trips() {
    let mut od = ObjectDictionary::new();
    od.add(1, 0, ObjectFlags::empty(), OdObject::Basic(BasicValue::Bool(false)))
        .unwrap();
    od.add(2, 0, ObjectFlags::empty(), OdObject::Basic(BasicValue::U8(0)))
        .unwrap();
    od.add(3, 0, ObjectFlags::empty(), OdObject::Basic(BasicValue::I8(0)))
        .unwrap();
    od.add(4, 0, ObjectFlags::empty(), OdObject::Basic(BasicValue::U16(0)))
        .unwrap();
    od.add(5, 0, ObjectFlags::empty(), OdObject::Basic(BasicValue::I16(0)))
        .unwrap();
    od.add(6, 0, ObjectFlags::empty(), OdObject::Basic(BasicValue::U32(0)))
        .unwrap();
    od.add(7, 0, ObjectFlags::empty(), OdObject::Basic(BasicValue::I32(0)))
        .unwrap();

    let cases: [(u16, Vec<u8>); 7] = [
        (1, vec![1]),
        (2, vec![0xAB]),
        (3, vec![0x80]),
        (4, vec![0x34, 0x12]),
        (5, vec![0xFE, 0xFF]),
        (6, vec![0x78, 0x56, 0x34, 0x12]),
        (7, vec![0xFF, 0xFF, 0xFF, 0x7F]),
    ];
    for (index, bytes) in cases {
        write_value(&mut od, index, bytes.clone()).unwrap();
        assert_eq!(od.read(index, 0).unwrap().as_bytes(), bytes.as_slice());
    }
}

#[test]
fn test_primitive_write_size_checks() {
    let mut od = ObjectDictionary::new();
    od.add(1, 0, ObjectFlags::empty(), OdObject::Basic(BasicValue::U16(7)))
        .unwrap();
    od.add(2, 0, ObjectFlags::empty(), OdObject::Basic(BasicValue::Bool(false)))
        .unwrap();

    assert_eq!(write_value(&mut od, 1, vec![1]), Err(ODError::TooShort));
    assert_eq!(write_value(&mut od, 1, vec![1, 2, 3]), Err(ODError::TooLong));
    assert_eq!(od.read(1, 0).unwrap().as_bytes(), &[7, 0]);
    assert_eq!(write_value(&mut od, 2, vec![2]), Err(ODError::InvalidValue));
    assert_eq!(write_value(&mut od, 2, vec![1]), Ok(()));
    assert_eq!(od.read(2, 0).unwrap().as_bytes(), &[1]);
}

#[test]
fn test_od_cell_lock_discipline() {
    let mut cell = OdCell::new(vec![0u8; 4]);
    assert!(!cell.is_locked());
    assert_eq!(cell.get().as_slice(), &[0, 0, 0, 0]);
    // the application's mutable access clears any pending lock
    cell.get_mut()[0] = 5;
    assert!(!cell.is_locked());
    assert_eq!(cell.get().as_slice(), &[5, 0, 0, 0]);
}

#[test]
fn test_object_flags() {
    let flags = ObjectFlags::empty();
    assert!(!flags.is_read_only());
    assert!(!flags.is_write_only());
    assert!(flags.pdo_size().is_none());

    let flags = ObjectFlags::empty().set_read_only().set_pdo_size(PdoSize::Two);
    assert!(flags.is_read_only());
    assert!(!flags.is_write_only());
    assert_eq!(flags.pdo_size(), Some(PdoSize::Two));
    assert_eq!(PdoSize::new(2), Some(PdoSize::Two));
    assert_eq!(PdoSize::new(3), None);
    assert_eq!(PdoSize::Four.get(), 4);
}

#[test]
fn test_abort_code_values() {
    assert_eq!(SDOAbortCode::ToggleBitNotAlternated.code(), 0x0503_0000);
    assert_eq!(SDOAbortCode::CommandSpecifierError.code(), 0x0504_0001);
    assert_eq!(SDOAbortCode::ObjectDoesNotExist.code(), 0x0602_0000);
    assert_eq!(SDOAbortCode::DeviceStateError.code(), 0x0800_0022);
    assert_eq!(
        SDOAbortCode::from_code(0x0609_0011),
        SDOAbortCode::SubindexDoesNotExist
    );
    assert_eq!(SDOAbortCode::from_code(0xDEAD_BEEF), SDOAbortCode::UnknownAbortCode);
    assert_eq!(ODError::LocalControlError.abort_code(), SDOAbortCode::LocalControlError);
}

#[test]
fn test_nmt_transitions() {
    let mut nmt = Nmt::new(NodeId::new(2).unwrap());
    assert_eq!(nmt.state, NmtState::Initialisation);
    let mut cb = DefaultNmtTransitions;

    // broadcast start
    let frame = CanFrame::new(CanId::Standard(0), vec![0x01, 0x00]).unwrap();
    assert!(nmt.on_message(&frame, &mut cb).is_none());
    assert_eq!(nmt.state, NmtState::Operational);

    // addressed stop
    let frame = CanFrame::new(CanId::Standard(0), vec![0x02, 0x02]).unwrap();
    nmt.on_message(&frame, &mut cb);
    assert_eq!(nmt.state, NmtState::Stopped);

    // another node's command is ignored
    let frame = CanFrame::new(CanId::Standard(0), vec![0x01, 0x03]).unwrap();
    nmt.on_message(&frame, &mut cb);
    assert_eq!(nmt.state, NmtState::Stopped);

    // an unknown command is ignored
    let frame = CanFrame::new(CanId::Standard(0), vec![0x55, 0x00]).unwrap();
    nmt.on_message(&frame, &mut cb);
    assert_eq!(nmt.state, NmtState::Stopped);

    let boot = nmt.boot_up_message();
    assert_eq!(boot.id, CanId::Standard(0x702));
    assert_eq!(boot.data.as_slice(), &[0x00]);
}

#[test]
fn test_abort_code_description() {
    assert_eq!(
        SDOAbortCode::ToggleBitNotAlternated.description(),
        "Toggle bit not alternated"
    );
    assert_eq!(
        SDOAbortCode::ObjectDoesNotExist.description(),
        "Object does not exist in the object dictionary"
    );
}
