use canopen::frame::CanFrame;
use canopen::lss::{Lss, LssCallback, LssMode, NoLssCallback, StoreConfigurationError};
use canopen::NodeId;

struct IdentifyRequest {
    vendor_id: u8,
    product_code: u8,
    revision_low: u8,
    revision_high: u8,
    serial_low: u8,
    serial_high: u8,
}

fn test_identify_request(lss: &mut Lss, req: IdentifyRequest) -> Option<CanFrame> {
    let mut cb = NoLssCallback;
    let mut request = [0x46, req.vendor_id, 0, 0, 0, 0, 0, 0];
    assert!(lss.on_request(&request, &mut cb).is_none());

    request[0] = 0x47;
    request[1] = req.product_code;
    assert!(lss.on_request(&request, &mut cb).is_none());

    request[0] = 0x48;
    request[1] = req.revision_low;
    assert!(lss.on_request(&request, &mut cb).is_none());

    request[0] = 0x49;
    request[1] = req.revision_high;
    assert!(lss.on_request(&request, &mut cb).is_none());

    request[0] = 0x4A;
    request[1] = req.serial_low;
    assert!(lss.on_request(&request, &mut cb).is_none());

    request[0] = 0x4B;
    request[1] = req.serial_high;
    lss.on_request(&request, &mut cb)
}

#[test]
fn test_identify() {
    let mut lss = Lss::new(None, 1, 2, 3, 4);

    let exact = IdentifyRequest {
        vendor_id: 1,
        product_code: 2,
        revision_low: 3,
        revision_high: 3,
        serial_low: 4,
        serial_high: 4,
    };
    assert!(test_identify_request(&mut lss, exact).is_some());

    let lower_bound = IdentifyRequest {
        vendor_id: 1,
        product_code: 2,
        revision_low: 3,
        revision_high: 42,
        serial_low: 4,
        serial_high: 42,
    };
    assert!(test_identify_request(&mut lss, lower_bound).is_some());

    let upper_bound = IdentifyRequest {
        vendor_id: 1,
        product_code: 2,
        revision_low: 0,
        revision_high: 3,
        serial_low: 1,
        serial_high: 4,
    };
    assert!(test_identify_request(&mut lss, upper_bound).is_some());

    let wrong_vendor = IdentifyRequest {
        vendor_id: 0,
        product_code: 2,
        revision_low: 3,
        revision_high: 3,
        serial_low: 4,
        serial_high: 4,
    };
    assert!(test_identify_request(&mut lss, wrong_vendor).is_none());

    let wrong_product_code = IdentifyRequest {
        vendor_id: 1,
        product_code: 0,
        revision_low: 3,
        revision_high: 3,
        serial_low: 4,
        serial_high: 4,
    };
    assert!(test_identify_request(&mut lss, wrong_product_code).is_none());

    let revision_too_low = IdentifyRequest {
        vendor_id: 1,
        product_code: 2,
        revision_low: 1,
        revision_high: 2,
        serial_low: 4,
        serial_high: 4,
    };
    assert!(test_identify_request(&mut lss, revision_too_low).is_none());

    let revision_too_high = IdentifyRequest {
        vendor_id: 1,
        product_code: 2,
        revision_low: 4,
        revision_high: 6,
        serial_low: 4,
        serial_high: 4,
    };
    assert!(test_identify_request(&mut lss, revision_too_high).is_none());
}

#[test]
fn test_switch_selective() {
    let mut lss = Lss::new(None, 1, 2, 3, 4);
    let mut cb = NoLssCallback;

    assert!(lss
        .on_request(&[0x40, 1, 0, 0, 0, 0, 0, 0], &mut cb)
        .is_none());
    assert!(lss
        .on_request(&[0x41, 2, 0, 0, 0, 0, 0, 0], &mut cb)
        .is_none());
    assert!(lss
        .on_request(&[0x42, 3, 0, 0, 0, 0, 0, 0], &mut cb)
        .is_none());
    let response = lss
        .on_request(&[0x43, 4, 0, 0, 0, 0, 0, 0], &mut cb)
        .unwrap();
    assert_eq!(response.data().as_slice(), &[0x44, 0, 0, 0, 0, 0, 0, 0]);
    assert_eq!(lss.mode, LssMode::Configuration);
}

#[test]
fn test_switch_selective_out_of_order_is_silent() {
    let mut lss = Lss::new(None, 1, 2, 3, 4);
    let mut cb = NoLssCallback;

    // product code without the vendor step first: the sequence resets
    assert!(lss
        .on_request(&[0x41, 2, 0, 0, 0, 0, 0, 0], &mut cb)
        .is_none());
    assert!(lss
        .on_request(&[0x43, 4, 0, 0, 0, 0, 0, 0], &mut cb)
        .is_none());
    assert_eq!(lss.mode, LssMode::Wait);
}

#[test]
fn test_configure_node_id() {
    let mut lss = Lss::new(None, 1, 2, 3, 4);
    let mut cb = NoLssCallback;

    // ignored while waiting
    assert!(lss
        .on_request(&[0x11, 10, 0, 0, 0, 0, 0, 0], &mut cb)
        .is_none());

    // enter configuration mode
    assert!(lss
        .on_request(&[0x04, 0x01, 0, 0, 0, 0, 0, 0], &mut cb)
        .is_none());

    let ok = lss
        .on_request(&[0x11, 10, 0, 0, 0, 0, 0, 0], &mut cb)
        .unwrap();
    assert_eq!(ok.data().as_slice(), &[0x11, 0x00, 0, 0, 0, 0, 0, 0]);
    assert_eq!(lss.node_id, Some(NodeId::new(10).unwrap()));

    // out of range: generic error, nothing stored
    let err = lss
        .on_request(&[0x11, 200, 0, 0, 0, 0, 0, 0], &mut cb)
        .unwrap();
    assert_eq!(err.data().as_slice(), &[0x11, 0x01, 0, 0, 0, 0, 0, 0]);
    assert_eq!(lss.node_id, Some(NodeId::new(10).unwrap()));

    let inquired = lss
        .on_request(&[0x5E, 0, 0, 0, 0, 0, 0, 0], &mut cb)
        .unwrap();
    assert_eq!(inquired.data().as_slice(), &[0x5E, 10, 0, 0, 0, 0, 0, 0]);
}

#[test]
fn test_inquire_address() {
    let mut lss = Lss::new(None, 0x11223344, 2, 3, 4);
    let mut cb = NoLssCallback;

    assert!(lss
        .on_request(&[0x5A, 0, 0, 0, 0, 0, 0, 0], &mut cb)
        .is_none());

    lss.on_request(&[0x04, 0x01, 0, 0, 0, 0, 0, 0], &mut cb);
    let vendor = lss
        .on_request(&[0x5A, 0, 0, 0, 0, 0, 0, 0], &mut cb)
        .unwrap();
    assert_eq!(
        vendor.data().as_slice(),
        &[0x5A, 0x44, 0x33, 0x22, 0x11, 0, 0, 0]
    );
    let serial = lss
        .on_request(&[0x5D, 0, 0, 0, 0, 0, 0, 0], &mut cb)
        .unwrap();
    assert_eq!(serial.data().as_slice(), &[0x5D, 4, 0, 0, 0, 0, 0, 0]);
}

struct RecordingCallback {
    stored: Option<u8>,
    announced: Option<u8>,
    outcome: Result<(), StoreConfigurationError>,
}

impl LssCallback for RecordingCallback {
    fn store_configuration(&mut self, node_id: NodeId) -> Result<(), StoreConfigurationError> {
        self.stored = Some(node_id.raw());
        self.outcome
    }

    fn on_new_node_id(&mut self, node_id: NodeId) {
        self.announced = Some(node_id.raw());
    }
}

#[test]
fn test_store_configuration() {
    let mut lss = Lss::new(None, 1, 2, 3, 4);
    let mut cb = RecordingCallback { stored: None, announced: None, outcome: Ok(()) };

    lss.on_request(&[0x04, 0x01, 0, 0, 0, 0, 0, 0], &mut cb);

    // no node id configured yet: generic error
    let err = lss
        .on_request(&[0x17, 0, 0, 0, 0, 0, 0, 0], &mut cb)
        .unwrap();
    assert_eq!(err.data().as_slice(), &[0x17, 0x01, 0, 0, 0, 0, 0, 0]);

    lss.on_request(&[0x11, 42, 0, 0, 0, 0, 0, 0], &mut cb);
    let ok = lss
        .on_request(&[0x17, 0, 0, 0, 0, 0, 0, 0], &mut cb)
        .unwrap();
    assert_eq!(ok.data().as_slice(), &[0x17, 0x00, 0, 0, 0, 0, 0, 0]);
    assert_eq!(cb.stored, Some(42));

    cb.outcome = Err(StoreConfigurationError::Failed);
    let failed = lss
        .on_request(&[0x17, 0, 0, 0, 0, 0, 0, 0], &mut cb)
        .unwrap();
    assert_eq!(failed.data().as_slice(), &[0x17, 0x02, 0, 0, 0, 0, 0, 0]);

    // switching back to waiting mode announces the new node id
    lss.on_request(&[0x04, 0x00, 0, 0, 0, 0, 0, 0], &mut cb);
    assert_eq!(cb.announced, Some(42));
}

#[test]
fn test_fast_scan() {
    let mut lss = Lss::new(None, 0x0000_0001, 0x0000_0002, 0x0000_0003, 0x0000_0004, );
    let mut cb = NoLssCallback;

    // initial probe: 128 unchecked bits
    let hello = lss
        .on_request(&[0x51, 0, 0, 0, 0, 128, 0, 0], &mut cb)
        .unwrap();
    assert_eq!(hello.data().as_slice(), &[0x4F, 0, 0, 0, 0, 0, 0, 0]);

    // all upper bits of the vendor id match with the low bit masked out
    let probe = lss
        .on_request(&[0x51, 0, 0, 0, 0, 1, 0, 1], &mut cb)
        .unwrap();
    assert_eq!(probe.data().as_slice(), &[0x4F, 0, 0, 0, 0, 0, 0, 0]);

    // a probe for the wrong word is silent
    assert!(lss
        .on_request(&[0x51, 0, 0, 0, 0, 1, 3, 3], &mut cb)
        .is_none());
    assert_eq!(lss.mode, LssMode::Wait);
}

#[test]
fn test_bit_timing_answers_generic_error() {
    let mut lss = Lss::new(None, 1, 2, 3, 4);
    let mut cb = NoLssCallback;
    lss.on_request(&[0x04, 0x01, 0, 0, 0, 0, 0, 0], &mut cb);

    let configure = lss
        .on_request(&[0x13, 0, 0, 0, 0, 0, 0, 0], &mut cb)
        .unwrap();
    assert_eq!(configure.data().as_slice(), &[0x13, 0x01, 0, 0, 0, 0, 0, 0]);
    let activate = lss
        .on_request(&[0x15, 0, 0, 0, 0, 0, 0, 0], &mut cb)
        .unwrap();
    assert_eq!(activate.data().as_slice(), &[0x15, 0x01, 0, 0, 0, 0, 0, 0]);
}
