use canopen::frame::{CanFrame, CanId};
use canopen::objectdictionary::datalink::{BasicValue, OdObject};
use canopen::objectdictionary::object::{ObjectFlags, PdoSize};
use canopen::objectdictionary::ObjectDictionary;
use canopen::pdo::{
    pack_object_data, unpack_object_data, AcceptNewCobId, CobId, DefaultTPDO, InhibitTime,
    InvalidCobId,
};
use canopen::sdo::SdoServer;
use canopen::NodeId;

fn on_sdo_message(server: &mut SdoServer, od: &mut ObjectDictionary, data: [u8; 8]) -> Option<CanFrame> {
    let frame = CanFrame::new(CanId::Standard(server.rx_cobid), data.to_vec()).unwrap();
    server.on_message(&frame, od, &mut AcceptNewCobId)
}

#[test]
fn tpdo() {
    let mut od = ObjectDictionary::new();
    od.add_tpdo(
        0x1800,
        ObjectFlags::empty(),
        DefaultTPDO::TPDO1.new(NodeId::new(1).unwrap()),
    )
    .unwrap();

    // COB-ID 0x181, inactive: the valid flag inverts on the wire, so the
    // stored word carries bit 31 set
    assert_eq!(od.read(0x1800, 0x01).unwrap().as_bytes(), &[0x81, 0x01, 0, 0x80]);
    assert_eq!(od.read(0x1800, 0x02).unwrap().as_bytes(), &[0]);
    assert_eq!(od.read(0x1A00, 0x00).unwrap().as_bytes(), &[0]);
    assert_eq!(od.read(0x1A00, 0x01).unwrap().as_bytes(), &[0, 0, 0, 0]);
}

#[test]
fn test_mapping_write_while_active() {
    let mut od = ObjectDictionary::new();
    od.add_tpdo(
        0x1800,
        ObjectFlags::empty(),
        DefaultTPDO::TPDO1.new(NodeId::new(1).unwrap()),
    )
    .unwrap();
    od.add(
        0x2000,
        0,
        ObjectFlags::empty().set_pdo_size(PdoSize::Four),
        OdObject::Basic(BasicValue::U32(0xAABBCCDD)),
    )
    .unwrap();

    let mut server = SdoServer::new(NodeId::new(1).unwrap());

    // activate the PDO: write a COB-ID with wire bit 31 clear (valid)
    let response = on_sdo_message(
        &mut server,
        &mut od,
        [0x23, 0x00, 0x18, 0x01, 0x81, 0x01, 0x00, 0x00],
    );
    assert_eq!(
        response.unwrap().data().as_slice(),
        &[0x60, 0x00, 0x18, 0x01, 0, 0, 0, 0]
    );

    // while active, a write to the transmission type is refused with
    // DeviceStateError (0x0800_0022)
    let refused = on_sdo_message(
        &mut server,
        &mut od,
        [0x2F, 0x00, 0x18, 0x02, 0x01, 0x00, 0x00, 0x00],
    );
    assert_eq!(
        refused.unwrap().data().as_slice(),
        &[0x80, 0x00, 0x18, 0x02, 0x22, 0x00, 0x00, 0x08]
    );

    // deactivating through subindex 1 must be allowed: set wire bit 31
    let cleared = on_sdo_message(
        &mut server,
        &mut od,
        [0x23, 0x00, 0x18, 0x01, 0x81, 0x01, 0x00, 0x80],
    );
    assert_eq!(
        cleared.unwrap().data().as_slice(),
        &[0x60, 0x00, 0x18, 0x01, 0, 0, 0, 0]
    );

    // now the transmission type is writable again
    let accepted = on_sdo_message(
        &mut server,
        &mut od,
        [0x2F, 0x00, 0x18, 0x02, 0x01, 0x00, 0x00, 0x00],
    );
    assert_eq!(
        accepted.unwrap().data().as_slice(),
        &[0x60, 0x00, 0x18, 0x02, 0, 0, 0, 0]
    );
    assert_eq!(od.read(0x1800, 2).unwrap().as_bytes(), &[1]);
}

#[test]
fn test_mapping_word_write_and_serialisation() {
    let mut od = ObjectDictionary::new();
    od.add_tpdo(
        0x1800,
        ObjectFlags::empty(),
        DefaultTPDO::TPDO1.new(NodeId::new(1).unwrap()),
    )
    .unwrap();
    od.add(
        0x2000,
        0,
        ObjectFlags::empty().set_pdo_size(PdoSize::Four),
        OdObject::Basic(BasicValue::U32(0xAABBCCDD)),
    )
    .unwrap();

    let mut server = SdoServer::new(NodeId::new(1).unwrap());

    // map 0x2000:00 with 32 bits into slot 1
    let word = pack_object_data(0x2000, 0, 32);
    let bytes = word.to_le_bytes();
    let map_write = on_sdo_message(
        &mut server,
        &mut od,
        [0x23, 0x00, 0x1A, 0x01, bytes[0], bytes[1], bytes[2], bytes[3]],
    );
    assert_eq!(
        map_write.unwrap().data().as_slice(),
        &[0x60, 0x00, 0x1A, 0x01, 0, 0, 0, 0]
    );
    // one object is now mapped
    let count = on_sdo_message(
        &mut server,
        &mut od,
        [0x2F, 0x00, 0x1A, 0x00, 0x01, 0x00, 0x00, 0x00],
    );
    assert_eq!(
        count.unwrap().data().as_slice(),
        &[0x60, 0x00, 0x1A, 0x00, 0, 0, 0, 0]
    );
    // the mapping word reads back as written
    assert_eq!(od.read(0x1A00, 1).unwrap().as_bytes(), &bytes);

    // a second mapping word is refused while objects are mapped
    let refused = on_sdo_message(
        &mut server,
        &mut od,
        [0x23, 0x00, 0x1A, 0x02, bytes[0], bytes[1], bytes[2], bytes[3]],
    );
    assert_eq!(
        refused.unwrap().data().as_slice(),
        &[0x80, 0x00, 0x1A, 0x02, 0x22, 0x00, 0x00, 0x08]
    );

    // serialising the mapped objects yields the value's bytes on the
    // TPDO's identifier
    let tpdo = match &od.objects[0] {
        OdObject::Tpdo(t) => t,
        _ => unreachable!(),
    };
    let frame = tpdo.create_frame(&od).unwrap();
    assert_eq!(frame.id, CanId::Standard(0x181));
    assert_eq!(frame.data.as_slice(), &[0xDD, 0xCC, 0xBB, 0xAA]);
}

#[test]
fn test_mapping_word_size_mismatch() {
    let mut od = ObjectDictionary::new();
    od.add_tpdo(
        0x1800,
        ObjectFlags::empty(),
        DefaultTPDO::TPDO1.new(NodeId::new(1).unwrap()),
    )
    .unwrap();
    od.add(
        0x2000,
        0,
        ObjectFlags::empty().set_pdo_size(PdoSize::Four),
        OdObject::Basic(BasicValue::U32(0)),
    )
    .unwrap();

    let mut server = SdoServer::new(NodeId::new(1).unwrap());

    // 16 declared bits for a 4-byte object: ObjectCannotBeMapped
    // (0x0604_0041)
    let word = pack_object_data(0x2000, 0, 16);
    let bytes = word.to_le_bytes();
    let refused = on_sdo_message(
        &mut server,
        &mut od,
        [0x23, 0x00, 0x1A, 0x01, bytes[0], bytes[1], bytes[2], bytes[3]],
    );
    assert_eq!(
        refused.unwrap().data().as_slice(),
        &[0x80, 0x00, 0x1A, 0x01, 0x41, 0x00, 0x04, 0x06]
    );
}

#[test]
fn test_cob_id_packing() {
    // valid (active) packs with wire bit 31 clear
    let cob = CobId { valid: true, rtr: false, id: CanId::Standard(0x181) };
    assert_eq!(cob.to_u32(), 0x0000_0181);
    let back = CobId::from_u32(0x0000_0181);
    assert!(back.valid);
    assert!(!back.rtr);
    assert_eq!(back.id, CanId::Standard(0x181));

    // not valid (inactive) packs with wire bit 31 set
    let inactive = CobId { valid: false, rtr: false, id: CanId::Standard(0x181) };
    assert_eq!(inactive.to_u32(), 0x8000_0181);
    assert!(!CobId::from_u32(0x8000_0181).valid);

    let ext = CobId { valid: false, rtr: true, id: CanId::Extended(0x1234_5678) };
    assert_eq!(ext.to_u32(), 0xF234_5678);
    let back = CobId::from_u32(0xF234_5678);
    assert!(!back.valid);
    assert!(back.rtr);
    assert_eq!(back.id, CanId::Extended(0x1234_5678));
}

#[test]
fn test_default_tpdo_cob_ids() {
    let node = NodeId::new(0x7F).unwrap();
    let c1 = DefaultTPDO::TPDO1.cob_id(node, false, false);
    let c4 = DefaultTPDO::TPDO4.cob_id(node, false, false);
    assert_eq!(c1.id, CanId::Standard(0x1FF));
    assert_eq!(c4.id, CanId::Standard(0x4FF));
}

#[test]
fn test_cob_id_update_hook_rejection() {
    struct RejectAll;

    impl canopen::pdo::CobIdUpdate for RejectAll {
        fn update(&mut self, _current: CobId, _new: CobId) -> Result<CobId, InvalidCobId> {
            Err(InvalidCobId)
        }
    }

    let mut od = ObjectDictionary::new();
    od.add_tpdo(
        0x1800,
        ObjectFlags::empty(),
        DefaultTPDO::TPDO1.new(NodeId::new(1).unwrap()),
    )
    .unwrap();

    let mut server = SdoServer::new(NodeId::new(1).unwrap());
    let frame = CanFrame::new(
        CanId::Standard(server.rx_cobid),
        vec![0x23, 0x00, 0x18, 0x01, 0x82, 0x01, 0x00, 0x00],
    )
    .unwrap();
    let refused = server.on_message(&frame, &mut od, &mut RejectAll);
    // InvalidValue, 0x0609_0030
    assert_eq!(
        refused.unwrap().data().as_slice(),
        &[0x80, 0x00, 0x18, 0x01, 0x30, 0x00, 0x09, 0x06]
    );
    // the stored COB-ID is unchanged (still inactive, wire bit 31 set)
    assert_eq!(od.read(0x1800, 1).unwrap().as_bytes(), &[0x81, 0x01, 0, 0x80]);
}

#[test]
fn test_create_frame_overflow() {
    let mut od = ObjectDictionary::new();
    od.add_tpdo(
        0x1800,
        ObjectFlags::empty(),
        DefaultTPDO::TPDO1.new(NodeId::new(1).unwrap()),
    )
    .unwrap();
    od.add(
        0x2000,
        0,
        ObjectFlags::empty().set_pdo_size(PdoSize::Four),
        OdObject::Basic(BasicValue::U32(1)),
    )
    .unwrap();

    let mut server = SdoServer::new(NodeId::new(1).unwrap());

    // map the same 4-byte object into three slots: 12 bytes exceed a frame
    let word = pack_object_data(0x2000, 0, 32);
    let bytes = word.to_le_bytes();
    for sub in 1..=3u8 {
        let ok = on_sdo_message(
            &mut server,
            &mut od,
            [0x23, 0x00, 0x1A, sub, bytes[0], bytes[1], bytes[2], bytes[3]],
        );
        assert_eq!(ok.unwrap().data()[0], 0x60);
    }
    on_sdo_message(
        &mut server,
        &mut od,
        [0x2F, 0x00, 0x1A, 0x00, 0x03, 0x00, 0x00, 0x00],
    );

    let tpdo = match &od.objects[0] {
        OdObject::Tpdo(t) => t,
        _ => unreachable!(),
    };
    assert_eq!(
        tpdo.create_frame(&od).err(),
        Some(canopen::sdo::SDOAbortCode::PDOOverflow)
    );
}

#[test]
fn test_inhibit_time_and_mapping_words() {
    assert_eq!(InhibitTime(0).us(), None);
    assert_eq!(InhibitTime(25).us(), Some(2500));

    let word = pack_object_data(0x2000, 3, 16);
    assert_eq!(word, 0x2000_0310);
    assert_eq!(unpack_object_data(word), (0x2000, 3, 16));
}
