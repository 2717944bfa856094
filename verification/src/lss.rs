//! The LSS slave (CiA 305): runtime node-id configuration over the two
//! well-known COB-IDs 0x7E5 (request) and 0x7E4 (response).

use vstd::prelude::*;

use crate::frame::{CanFrame, CanId};
use crate::node::NodeId;
use crate::objectdictionary::datalink::{le_bytes_u32, u32_from_le};

verus! {

pub const SWITCH_GLOBAL: u8 = 0x04;

pub const CONFIGURE_NODE_ID: u8 = 0x11;

pub const CONFIGURE_BIT_TIMING: u8 = 0x13;

pub const ACTIVATE_BIT_TIMING: u8 = 0x15;

pub const STORE_CONFIGURATION: u8 = 0x17;

pub const SWITCH_SELECTIVE_VENDOR_ID: u8 = 0x40;

pub const SWITCH_SELECTIVE_PRODUCT_CODE: u8 = 0x41;

pub const SWITCH_SELECTIVE_REVISION_NUMBER: u8 = 0x42;

pub const SWITCH_SELECTIVE_SERIAL_NUMBER: u8 = 0x43;

pub const SWITCH_SELECTIVE_SERIAL_RESPONSE: u8 = 0x44;

pub const IDENTIFY_VENDOR_ID: u8 = 0x46;

pub const IDENTIFY_PRODUCT_CODE: u8 = 0x47;

pub const IDENTIFY_REVISION_NUMBER_LOW: u8 = 0x48;

pub const IDENTIFY_REVISION_NUMBER_HIGH: u8 = 0x49;

pub const IDENTIFY_SERIAL_NUMBER_LOW: u8 = 0x4A;

pub const IDENTIFY_SERIAL_NUMBER_HIGH: u8 = 0x4B;

pub const IDENTIFY_RESPONSE: u8 = 0x4F;

pub const FAST_SCAN: u8 = 0x51;

pub const INQUIRE_VENDOR_ID: u8 = 0x5A;

pub const INQUIRE_PRODUCT_CODE: u8 = 0x5B;

pub const INQUIRE_REVISION_NUMBER: u8 = 0x5C;

pub const INQUIRE_SERIAL_NUMBER: u8 = 0x5D;

pub const INQUIRE_NODE_ID: u8 = 0x5E;

pub const LSS_OK: u8 = 0x00;

pub const LSS_GENERIC_ERROR: u8 = 0x01;

pub const LSS_STORE_FAILED: u8 = 0x02;

/// The COB-ID on which LSS requests arrive.
pub const LSS_REQUEST_ID: u16 = 0x7E5;

/// The COB-ID on which LSS responses leave.
pub const LSS_RESPONSE_ID: u16 = 0x7E4;

/// The two LSS modes: only switch and identify services run in `Wait`;
/// everything else demands `Configuration`.
#[derive(Clone, Copy, PartialEq, Eq, Structural, Debug)]
pub enum LssMode {
    Configuration,
    Wait,
}

/// The position inside a multi-message switch-selective or identify
/// sequence; any message that does not extend the sequence resets it.
#[derive(Clone, Copy, PartialEq, Eq, Structural, Debug)]
pub enum PartialCommandState {
    Init,
    IdentifyVendorIdMatched,
    IdentifyProductCodeMatched,
    IdentifyRevisionNumberLowCodeMatched,
    IdentifyRevisionNumberHighCodeMatched,
    IdentifySerialNumberLowCodeMatched,
    SwitchVendorIdMatched,
    SwitchProductCodeMatched,
    SwitchRevisionNumberCodeMatched,
}

/// The application hooks of the LSS slave.
pub trait LssCallback {
    /// A "store configuration" command arrived in configuration mode.
    fn store_configuration(&mut self, node_id: NodeId) -> Result<(), StoreConfigurationError>;

    /// The slave returned to waiting mode after its node-id changed; this
    /// may be the moment to reset the node.
    fn on_new_node_id(&mut self, node_id: NodeId);
}

/// Why a store-configuration request failed.
#[derive(Clone, Copy, PartialEq, Eq, Structural, Debug)]
pub enum StoreConfigurationError {
    NotSupported,
    Failed,
}

/// The hook of a device without persistent storage: nothing is stored and
/// nothing happens on a new node-id.
pub struct NoLssCallback;

impl LssCallback for NoLssCallback {
    fn store_configuration(&mut self, node_id: NodeId) -> Result<(), StoreConfigurationError> {
        Err(StoreConfigurationError::NotSupported)
    }

    fn on_new_node_id(&mut self, node_id: NodeId) {
    }
}

/// The LSS slave of one node: its (possibly unconfigured) node-id, its
/// LSS address `(vendor, product, revision, serial)`, and the protocol
/// state.
pub struct Lss {
    pub node_id: Option<NodeId>,
    pub lss_address: [u32; 4],
    pub mode: LssMode,
    pub partial_command_state: PartialCommandState,
    /// The next address word a fast-scan probe must name.
    pub expected_lss_sub: u8,
    pub node_id_changed: bool,
}

/// An LSS response payload with `cs` and one status byte.
pub open spec fn spec_lss_status_bytes(cs: u8, status: u8) -> Seq<u8> {
    seq![cs, status, 0u8, 0u8, 0u8, 0u8, 0u8, 0u8]
}

/// The bare affirmative response of identify and fast-scan.
pub open spec fn spec_lss_ok_bytes(cs: u8) -> Seq<u8> {
    seq![cs, 0u8, 0u8, 0u8, 0u8, 0u8, 0u8, 0u8]
}

/// An inquire response: the address word little-endian after `cs`.
pub open spec fn spec_lss_inquire_bytes(cs: u8, word: u32) -> Seq<u8> {
    seq![cs] + le_bytes_u32(word) + seq![0u8, 0u8, 0u8]
}

/// The 32-bit word in bytes 1 to 4 of an LSS request.
pub open spec fn spec_lss_word(req: Seq<u8>) -> u32 {
    u32_from_le(req[1], req[2], req[3], req[4])
}

/// The effect of a switch-selective message: the four address words must
/// arrive in order and all match; the last match enters configuration mode
/// and is the only answered message.
pub open spec fn spec_switch_selective(pre: Lss, req: Seq<u8>, post: Lss, resp: Option<Seq<u8>>) -> bool {
    let cs = req[0];
    let word = spec_lss_word(req);
    if cs == SWITCH_SELECTIVE_VENDOR_ID && word == pre.lss_address@[0] {
        post == (Lss { partial_command_state: PartialCommandState::SwitchVendorIdMatched, ..pre })
            && resp is None
    } else if cs == SWITCH_SELECTIVE_PRODUCT_CODE && pre.partial_command_state
        == PartialCommandState::SwitchVendorIdMatched && word == pre.lss_address@[1] {
        post == (Lss { partial_command_state: PartialCommandState::SwitchProductCodeMatched, ..pre })
            && resp is None
    } else if cs == SWITCH_SELECTIVE_REVISION_NUMBER && pre.partial_command_state
        == PartialCommandState::SwitchProductCodeMatched && word == pre.lss_address@[2] {
        post == (Lss {
            partial_command_state: PartialCommandState::SwitchRevisionNumberCodeMatched,
            ..pre
        }) && resp is None
    } else if cs == SWITCH_SELECTIVE_SERIAL_NUMBER && pre.partial_command_state
        == PartialCommandState::SwitchRevisionNumberCodeMatched && word == pre.lss_address@[3] {
        post == (Lss {
            partial_command_state: PartialCommandState::Init,
            mode: LssMode::Configuration,
            ..pre
        }) && resp == Some(spec_lss_ok_bytes(SWITCH_SELECTIVE_SERIAL_RESPONSE))
    } else {
        post == (Lss { partial_command_state: PartialCommandState::Init, ..pre }) && resp is None
    }
}

/// The effect of an identify message: vendor and product must match
/// exactly, the revision and serial must lie inside the requested bounds,
/// in order; the final bound check answers `0x4F`.
pub open spec fn spec_identify(pre: Lss, req: Seq<u8>, post: Lss, resp: Option<Seq<u8>>) -> bool {
    let cs = req[0];
    let word = spec_lss_word(req);
    if cs == IDENTIFY_VENDOR_ID && word == pre.lss_address@[0] {
        post == (Lss { partial_command_state: PartialCommandState::IdentifyVendorIdMatched, ..pre })
            && resp is None
    } else if cs == IDENTIFY_PRODUCT_CODE && pre.partial_command_state
        == PartialCommandState::IdentifyVendorIdMatched && word == pre.lss_address@[1] {
        post == (Lss {
            partial_command_state: PartialCommandState::IdentifyProductCodeMatched,
            ..pre
        }) && resp is None
    } else if cs == IDENTIFY_REVISION_NUMBER_LOW && pre.partial_command_state
        == PartialCommandState::IdentifyProductCodeMatched && word <= pre.lss_address@[2] {
        post == (Lss {
            partial_command_state: PartialCommandState::IdentifyRevisionNumberLowCodeMatched,
            ..pre
        }) && resp is None
    } else if cs == IDENTIFY_REVISION_NUMBER_HIGH && pre.partial_command_state
        == PartialCommandState::IdentifyRevisionNumberLowCodeMatched && word
        >= pre.lss_address@[2] {
        post == (Lss {
            partial_command_state: PartialCommandState::IdentifyRevisionNumberHighCodeMatched,
            ..pre
        }) && resp is None
    } else if cs == IDENTIFY_SERIAL_NUMBER_LOW && pre.partial_command_state
        == PartialCommandState::IdentifyRevisionNumberHighCodeMatched && word
        <= pre.lss_address@[3] {
        post == (Lss {
            partial_command_state: PartialCommandState::IdentifySerialNumberLowCodeMatched,
            ..pre
        }) && resp is None
    } else if cs == IDENTIFY_SERIAL_NUMBER_HIGH && pre.partial_command_state
        == PartialCommandState::IdentifySerialNumberLowCodeMatched && word
        >= pre.lss_address@[3] {
        post == (Lss { partial_command_state: PartialCommandState::Init, ..pre }) && resp == Some(
            spec_lss_ok_bytes(IDENTIFY_RESPONSE),
        )
    } else {
        post == (Lss { partial_command_state: PartialCommandState::Init, ..pre }) && resp is None
    }
}

/// The effect of a fast-scan probe. The initial probe (128 unchecked bits)
/// resets the cursor and is answered; a later probe is answered when it
/// names the expected address word and the checked upper bits match; the
/// final probe (bit 0, wrapping cursor) enters configuration mode. Failed
/// probes are silent and change nothing.
pub open spec fn spec_fast_scan(pre: Lss, req: Seq<u8>, post: Lss, resp: Option<Seq<u8>>) -> bool {
    if pre.mode == LssMode::Configuration {
        post == pre && resp is None
    } else {
        let id_number = spec_lss_word(req);
        let bit_checked = req[5];
        let lss_sub = req[6];
        let lss_next = req[7];
        if bit_checked == 128 {
            post == (Lss { expected_lss_sub: 0, ..pre }) && resp == Some(
                spec_lss_ok_bytes(IDENTIFY_RESPONSE),
            )
        } else if lss_sub == pre.expected_lss_sub && lss_sub < 4 && bit_checked < 32 {
            if (pre.lss_address@[lss_sub as int] ^ id_number) & (u32::MAX << bit_checked) == 0 {
                post == (Lss {
                    expected_lss_sub: lss_next,
                    mode: if bit_checked == 0 && lss_next < lss_sub {
                        LssMode::Configuration
                    } else {
                        pre.mode
                    },
                    ..pre
                }) && resp == Some(spec_lss_ok_bytes(IDENTIFY_RESPONSE))
            } else {
                post == pre && resp is None
            }
        } else {
            post == pre && resp is None
        }
    }
}

/// The node-id byte reported over the wire: `0xFF` means unconfigured.
pub open spec fn spec_lss_node_id_byte(pre: Lss) -> u8 {
    match pre.node_id {
        Some(id) => id.spec_raw(),
        None => 0xFFu8,
    }
}

/// The complete effect of one LSS request.
///
/// Switch, identify and fast-scan run in either mode; all other services
/// are silently ignored in waiting mode. Configuring a node-id accepts
/// `1..=127` and otherwise answers a generic error; the deferred bit-timing
/// services answer a generic error rather than pretending success; the
/// store service answers with whatever status the application hook
/// produced. Returning to waiting mode clears the pending node-id-changed
/// mark (after notifying the hook).
pub open spec fn spec_lss_step(pre: Lss, req: Seq<u8>, post: Lss, resp: Option<Seq<u8>>) -> bool {
    let cs = req[0];
    if cs == SWITCH_GLOBAL {
        resp is None && (if req[1] == 0 {
            post == (Lss {
                partial_command_state: PartialCommandState::Init,
                mode: LssMode::Wait,
                node_id_changed: false,
                ..pre
            })
        } else if req[1] == 1 {
            post == (Lss {
                partial_command_state: PartialCommandState::Init,
                mode: LssMode::Configuration,
                ..pre
            })
        } else {
            post == (Lss { partial_command_state: PartialCommandState::Init, ..pre })
        })
    } else if SWITCH_SELECTIVE_VENDOR_ID <= cs <= SWITCH_SELECTIVE_SERIAL_NUMBER {
        spec_switch_selective(pre, req, post, resp)
    } else if IDENTIFY_VENDOR_ID <= cs <= IDENTIFY_SERIAL_NUMBER_HIGH {
        spec_identify(pre, req, post, resp)
    } else if cs == FAST_SCAN {
        spec_fast_scan(pre, req, post, resp)
    } else {
        let gated = Lss { partial_command_state: PartialCommandState::Init, ..pre };
        if pre.mode == LssMode::Wait {
            post == gated && resp is None
        } else if cs == CONFIGURE_NODE_ID {
            if 1 <= req[1] <= 127 {
                &&& post.node_id matches Some(id) && id.spec_raw() == req[1]
                &&& post.node_id_changed == (spec_lss_node_id_byte(pre) != req[1])
                &&& post.lss_address == pre.lss_address
                &&& post.mode == pre.mode
                &&& post.partial_command_state == PartialCommandState::Init
                &&& post.expected_lss_sub == pre.expected_lss_sub
                &&& resp == Some(spec_lss_status_bytes(CONFIGURE_NODE_ID, LSS_OK))
            } else {
                post == gated && resp == Some(
                    spec_lss_status_bytes(CONFIGURE_NODE_ID, LSS_GENERIC_ERROR),
                )
            }
        } else if cs == CONFIGURE_BIT_TIMING || cs == ACTIVATE_BIT_TIMING {
            post == gated && resp == Some(spec_lss_status_bytes(cs, LSS_GENERIC_ERROR))
        } else if cs == STORE_CONFIGURATION {
            post == gated && exists|status: u8|
                (status == LSS_OK || status == LSS_GENERIC_ERROR || status == LSS_STORE_FAILED)
                    && resp == Some(#[trigger] spec_lss_status_bytes(STORE_CONFIGURATION, status))
        } else if INQUIRE_VENDOR_ID <= cs <= INQUIRE_SERIAL_NUMBER {
            post == gated && resp == Some(
                spec_lss_inquire_bytes(cs, pre.lss_address@[cs - INQUIRE_VENDOR_ID]),
            )
        } else if cs == INQUIRE_NODE_ID {
            post == gated && resp == Some(
                spec_lss_status_bytes(INQUIRE_NODE_ID, spec_lss_node_id_byte(pre)),
            )
        } else {
            post == gated && resp is None
        }
    }
}

/// An LSS response travels on COB-ID `0x7E4`.
pub open spec fn spec_lss_wire(resp: Option<Seq<u8>>, r: Option<CanFrame>) -> bool {
    match resp {
        None => r is None,
        Some(bytes) => r matches Some(f) && f.id == CanId::Standard(LSS_RESPONSE_ID) && f.data@
            == bytes && !f.is_remote,
    }
}

impl Lss {
    /// A fresh slave in waiting mode with the given LSS address.
    pub fn new(
        node_id: Option<NodeId>,
        vendor_id: u32,
        product_code: u32,
        revision_number: u32,
        serial_number: u32,
    ) -> (r: Lss)
        ensures
            r.node_id == node_id,
            r.lss_address@ == seq![vendor_id, product_code, revision_number, serial_number],
            r.mode == LssMode::Wait,
            r.partial_command_state == PartialCommandState::Init,
            r.expected_lss_sub == 0,
            !r.node_id_changed,
    {
        let r = Lss {
            node_id,
            lss_address: [vendor_id, product_code, revision_number, serial_number],
            mode: LssMode::Wait,
            partial_command_state: PartialCommandState::Init,
            expected_lss_sub: 0,
            node_id_changed: false,
        };
        proof {
            assert(r.lss_address@ =~= seq![
                vendor_id,
                product_code,
                revision_number,
                serial_number,
            ]);
        }
        r
    }

    /// Handle one frame: only an 8-byte data frame on COB-ID `0x7E5` is
    /// processed, everything else is ignored.
    pub fn on_message<C: LssCallback>(&mut self, frame: &CanFrame, callback: &mut C) -> (r:
        Option<CanFrame>)
        ensures
            frame.id != CanId::Standard(LSS_REQUEST_ID) || frame.data@.len() != 8 ==> r is None
                && *final(self) == *old(self),
            frame.id == CanId::Standard(LSS_REQUEST_ID) && frame.data@.len() == 8 ==> exists|
                resp: Option<Seq<u8>>,
            |
                #[trigger] spec_lss_step(*old(self), frame.data@, *final(self), resp)
                    && spec_lss_wire(resp, r),
    {
        match frame.id() {
            CanId::Standard(id) => {
                if id != LSS_REQUEST_ID {
                    return None;
                }
            },
            CanId::Extended(_) => {
                return None;
            },
        }
        if frame.data().len() != 8 {
            return None;
        }
        self.on_request(frame.data().as_slice(), callback)
    }

    /// Dispatch one 8-byte LSS request; see [`spec_lss_step`].
    pub fn on_request<C: LssCallback>(&mut self, request: &[u8], callback: &mut C) -> (r: Option<
        CanFrame,
    >)
        requires
            request@.len() == 8,
        ensures
            exists|resp: Option<Seq<u8>>|
                #[trigger] spec_lss_step(*old(self), request@, *final(self), resp)
                    && spec_lss_wire(resp, r),
    {
        let command_specifier = request[0];
        if command_specifier == SWITCH_GLOBAL {
            self.partial_command_state = PartialCommandState::Init;
            if request[1] == 0x00 {
                self.mode = LssMode::Wait;
                if self.node_id_changed {
                    match self.node_id {
                        Some(node_id) => {
                            callback.on_new_node_id(node_id);
                        },
                        None => {},
                    }
                }
                self.node_id_changed = false;
            } else if request[1] == 0x01 {
                self.mode = LssMode::Configuration;
            }
            proof {
                assert(spec_lss_step(
                    *old(self),
                    request@,
                    *self,
                    Option::<Seq<u8>>::None,
                ));
            }
            return None;
        }
        if SWITCH_SELECTIVE_VENDOR_ID <= command_specifier && command_specifier
            <= SWITCH_SELECTIVE_SERIAL_NUMBER {
            let resp = self.switch_selective(request);
            proof {
                let rb = choose|rb: Option<Seq<u8>>|
                    #[trigger] spec_switch_selective(*old(self), request@, *self, rb)
                        && resp_agrees(resp, rb);
                assert(spec_lss_step(*old(self), request@, *self, rb));
            }
            return wire(resp);
        }
        if IDENTIFY_VENDOR_ID <= command_specifier && command_specifier
            <= IDENTIFY_SERIAL_NUMBER_HIGH {
            let resp = self.identify(request);
            proof {
                let rb = choose|rb: Option<Seq<u8>>|
                    #[trigger] spec_identify(*old(self), request@, *self, rb) && resp_agrees(
                        resp,
                        rb,
                    );
                assert(spec_lss_step(*old(self), request@, *self, rb));
            }
            return wire(resp);
        }
        if command_specifier == FAST_SCAN {
            let resp = self.fast_scan(request);
            proof {
                let rb = choose|rb: Option<Seq<u8>>|
                    #[trigger] spec_fast_scan(*old(self), request@, *self, rb) && resp_agrees(
                        resp,
                        rb,
                    );
                assert(spec_lss_step(*old(self), request@, *self, rb));
            }
            return wire(resp);
        }
        self.partial_command_state = PartialCommandState::Init;
        if self.mode == LssMode::Wait {
            proof {
                assert(spec_lss_step(*old(self), request@, *self, Option::<Seq<u8>>::None));
            }
            return None;
        }
        let result: Option<Vec<u8>> = if command_specifier == CONFIGURE_NODE_ID {
            self.set_node_id(request[1])
        } else if command_specifier == CONFIGURE_BIT_TIMING {
            self.set_bit_timing(request)
        } else if command_specifier == ACTIVATE_BIT_TIMING {
            Some(status_response(ACTIVATE_BIT_TIMING, LSS_GENERIC_ERROR))
        } else if command_specifier == STORE_CONFIGURATION {
            self.store_configuration(callback)
        } else if INQUIRE_VENDOR_ID <= command_specifier && command_specifier
            <= INQUIRE_SERIAL_NUMBER {
            self.inquire(command_specifier)
        } else if command_specifier == INQUIRE_NODE_ID {
            Some(status_response(INQUIRE_NODE_ID, self.lss_node_id()))
        } else {
            None
        };
        proof {
            let rb: Option<Seq<u8>> = if result is Some {
                Some(result->0@)
            } else {
                None
            };
            assert(spec_lss_step(*old(self), request@, *self, rb));
        }
        wire(result)
    }

    /// The node-id byte reported over the wire (`0xFF` when unconfigured).
    fn lss_node_id(&self) -> (r: u8)
        ensures
            r == spec_lss_node_id_byte(*self),
    {
        match self.node_id {
            Some(id) => id.raw(),
            None => 0xFF,
        }
    }

    /// Store a candidate node-id; outside `1..=127` nothing is stored and a
    /// generic error is answered.
    fn set_node_id(&mut self, candidate: u8) -> (resp: Option<Vec<u8>>)
        ensures
            if 1 <= candidate <= 127 {
                &&& final(self).node_id matches Some(id) && id.spec_raw() == candidate
                &&& final(self).node_id_changed == (spec_lss_node_id_byte(*old(self)) != candidate)
                &&& final(self).lss_address == old(self).lss_address
                &&& final(self).mode == old(self).mode
                &&& final(self).partial_command_state == old(self).partial_command_state
                &&& final(self).expected_lss_sub == old(self).expected_lss_sub
                &&& resp matches Some(v) && v@ == spec_lss_status_bytes(CONFIGURE_NODE_ID, LSS_OK)
            } else {
                *final(self) == *old(self) && (resp matches Some(v) && v@
                    == spec_lss_status_bytes(CONFIGURE_NODE_ID, LSS_GENERIC_ERROR))
            },
    {
        match NodeId::new(candidate) {
            Ok(node_id) => {
                let changed = self.lss_node_id() != candidate;
                self.node_id_changed = changed;
                self.node_id = Some(node_id);
                Some(status_response(CONFIGURE_NODE_ID, LSS_OK))
            },
            Err(_) => Some(status_response(CONFIGURE_NODE_ID, LSS_GENERIC_ERROR)),
        }
    }

    /// Ask the application hook to persist the configuration and report its
    /// outcome.
    fn store_configuration<C: LssCallback>(&mut self, callback: &mut C) -> (resp: Option<Vec<u8>>)
        ensures
            *final(self) == *old(self),
            exists|status: u8|
                (status == LSS_OK || status == LSS_GENERIC_ERROR || status == LSS_STORE_FAILED)
                    && (resp matches Some(v) && v@ == #[trigger] spec_lss_status_bytes(
                    STORE_CONFIGURATION,
                    status,
                )),
    {
        let status: u8 = match self.node_id {
            Some(node_id) => match callback.store_configuration(node_id) {
                Ok(()) => LSS_OK,
                Err(StoreConfigurationError::NotSupported) => LSS_GENERIC_ERROR,
                Err(StoreConfigurationError::Failed) => LSS_STORE_FAILED,
            },
            None => LSS_GENERIC_ERROR,
        };
        Some(status_response(STORE_CONFIGURATION, status))
    }

    /// The deferred bit-timing configuration: parsed but answered with a
    /// generic error rather than a silent success.
    fn set_bit_timing(&mut self, request: &[u8]) -> (resp: Option<Vec<u8>>)
        requires
            request@.len() == 8,
        ensures
            *final(self) == *old(self),
            resp matches Some(v) && v@ == spec_lss_status_bytes(
                CONFIGURE_BIT_TIMING,
                LSS_GENERIC_ERROR,
            ),
    {
        let _table_selector = request[1];
        let _table_index = request[2];
        Some(status_response(CONFIGURE_BIT_TIMING, LSS_GENERIC_ERROR))
    }

    /// Answer one word of the LSS address.
    fn inquire(&self, command_specifier: u8) -> (resp: Option<Vec<u8>>)
        requires
            INQUIRE_VENDOR_ID <= command_specifier <= INQUIRE_SERIAL_NUMBER,
        ensures
            resp matches Some(v) && v@ == spec_lss_inquire_bytes(
                command_specifier,
                self.lss_address@[command_specifier - INQUIRE_VENDOR_ID],
            ),
    {
        let address_data = self.lss_address[(command_specifier - INQUIRE_VENDOR_ID) as usize];
        let word = crate::objectdictionary::datalink::encode_u32_bytes(address_data);
        let resp: Vec<u8> = vec![command_specifier, word[0], word[1], word[2], word[3], 0, 0, 0];
        proof {
            assert(resp@ =~= spec_lss_inquire_bytes(command_specifier, address_data));
        }
        Some(resp)
    }

    /// One step of the switch-selective sequence; see
    /// [`spec_switch_selective`].
    fn switch_selective(&mut self, request: &[u8]) -> (resp: Option<Vec<u8>>)
        requires
            request@.len() == 8,
            SWITCH_SELECTIVE_VENDOR_ID <= request@[0] <= SWITCH_SELECTIVE_SERIAL_NUMBER,
        ensures
            exists|rb: Option<Seq<u8>>|
                #[trigger] spec_switch_selective(*old(self), request@, *final(self), rb)
                    && resp_agrees(resp, rb),
    {
        let command_specifier = request[0];
        let address_data = word_of(request);
        if command_specifier == SWITCH_SELECTIVE_VENDOR_ID {
            if address_data == self.lss_address[0] {
                self.partial_command_state = PartialCommandState::SwitchVendorIdMatched;
                proof {
                    assert(spec_switch_selective(*old(self), request@, *self, Option::<Seq<u8>>::None));
                }
                return None;
            }
        } else if command_specifier == SWITCH_SELECTIVE_PRODUCT_CODE && self.partial_command_state
            == PartialCommandState::SwitchVendorIdMatched {
            if address_data == self.lss_address[1] {
                self.partial_command_state = PartialCommandState::SwitchProductCodeMatched;
                proof {
                    assert(spec_switch_selective(*old(self), request@, *self, Option::<Seq<u8>>::None));
                }
                return None;
            }
        } else if command_specifier == SWITCH_SELECTIVE_REVISION_NUMBER
            && self.partial_command_state == PartialCommandState::SwitchProductCodeMatched {
            if address_data == self.lss_address[2] {
                self.partial_command_state = PartialCommandState::SwitchRevisionNumberCodeMatched;
                proof {
                    assert(spec_switch_selective(*old(self), request@, *self, Option::<Seq<u8>>::None));
                }
                return None;
            }
        } else if command_specifier == SWITCH_SELECTIVE_SERIAL_NUMBER && self.partial_command_state
            == PartialCommandState::SwitchRevisionNumberCodeMatched {
            if address_data == self.lss_address[3] {
                self.partial_command_state = PartialCommandState::Init;
                self.mode = LssMode::Configuration;
                proof {
                    assert(spec_switch_selective(
                        *old(self),
                        request@,
                        *self,
                        Some(spec_lss_ok_bytes(SWITCH_SELECTIVE_SERIAL_RESPONSE)),
                    ));
                }
                return Some(ok_response(SWITCH_SELECTIVE_SERIAL_RESPONSE));
            }
        }
        self.partial_command_state = PartialCommandState::Init;
        proof {
            assert(spec_switch_selective(*old(self), request@, *self, Option::<Seq<u8>>::None));
        }
        None
    }

    /// One step of the identify sequence; see [`spec_identify`].
    fn identify(&mut self, request: &[u8]) -> (resp: Option<Vec<u8>>)
        requires
            request@.len() == 8,
            IDENTIFY_VENDOR_ID <= request@[0] <= IDENTIFY_SERIAL_NUMBER_HIGH,
        ensures
            exists|rb: Option<Seq<u8>>|
                #[trigger] spec_identify(*old(self), request@, *final(self), rb) && resp_agrees(
                    resp,
                    rb,
                ),
    {
        let command_specifier = request[0];
        let address_data = word_of(request);
        if command_specifier == IDENTIFY_VENDOR_ID {
            if address_data == self.lss_address[0] {
                self.partial_command_state = PartialCommandState::IdentifyVendorIdMatched;
                proof {
                    assert(spec_identify(*old(self), request@, *self, Option::<Seq<u8>>::None));
                }
                return None;
            }
        } else if command_specifier == IDENTIFY_PRODUCT_CODE && self.partial_command_state
            == PartialCommandState::IdentifyVendorIdMatched {
            if address_data == self.lss_address[1] {
                self.partial_command_state = PartialCommandState::IdentifyProductCodeMatched;
                proof {
                    assert(spec_identify(*old(self), request@, *self, Option::<Seq<u8>>::None));
                }
                return None;
            }
        } else if command_specifier == IDENTIFY_REVISION_NUMBER_LOW && self.partial_command_state
            == PartialCommandState::IdentifyProductCodeMatched {
            if address_data <= self.lss_address[2] {
                self.partial_command_state =
                PartialCommandState::IdentifyRevisionNumberLowCodeMatched;
                proof {
                    assert(spec_identify(*old(self), request@, *self, Option::<Seq<u8>>::None));
                }
                return None;
            }
        } else if command_specifier == IDENTIFY_REVISION_NUMBER_HIGH && self.partial_command_state
            == PartialCommandState::IdentifyRevisionNumberLowCodeMatched {
            if address_data >= self.lss_address[2] {
                self.partial_command_state =
                PartialCommandState::IdentifyRevisionNumberHighCodeMatched;
                proof {
                    assert(spec_identify(*old(self), request@, *self, Option::<Seq<u8>>::None));
                }
                return None;
            }
        } else if command_specifier == IDENTIFY_SERIAL_NUMBER_LOW && self.partial_command_state
            == PartialCommandState::IdentifyRevisionNumberHighCodeMatched {
            if address_data <= self.lss_address[3] {
                self.partial_command_state =
                PartialCommandState::IdentifySerialNumberLowCodeMatched;
                proof {
                    assert(spec_identify(*old(self), request@, *self, Option::<Seq<u8>>::None));
                }
                return None;
            }
        } else if command_specifier == IDENTIFY_SERIAL_NUMBER_HIGH && self.partial_command_state
            == PartialCommandState::IdentifySerialNumberLowCodeMatched {
            if address_data >= self.lss_address[3] {
                self.partial_command_state = PartialCommandState::Init;
                proof {
                    assert(spec_identify(
                        *old(self),
                        request@,
                        *self,
                        Some(spec_lss_ok_bytes(IDENTIFY_RESPONSE)),
                    ));
                }
                return Some(ok_response(IDENTIFY_RESPONSE));
            }
        }
        self.partial_command_state = PartialCommandState::Init;
        proof {
            assert(spec_identify(*old(self), request@, *self, Option::<Seq<u8>>::None));
        }
        None
    }

    /// One fast-scan probe; see [`spec_fast_scan`].
    fn fast_scan(&mut self, request: &[u8]) -> (resp: Option<Vec<u8>>)
        requires
            request@.len() == 8,
        ensures
            exists|rb: Option<Seq<u8>>|
                #[trigger] spec_fast_scan(*old(self), request@, *final(self), rb) && resp_agrees(
                    resp,
                    rb,
                ),
    {
        if self.mode == LssMode::Configuration {
            proof {
                assert(spec_fast_scan(*old(self), request@, *self, Option::<Seq<u8>>::None));
            }
            return None;
        }
        let id_number = word_of(request);
        let bit_checked = request[5];
        let lss_sub = request[6];
        let lss_next = request[7];
        if bit_checked == 128 {
            self.expected_lss_sub = 0;
            proof {
                assert(spec_fast_scan(
                    *old(self),
                    request@,
                    *self,
                    Some(spec_lss_ok_bytes(IDENTIFY_RESPONSE)),
                ));
            }
            return Some(ok_response(IDENTIFY_RESPONSE));
        } else if lss_sub == self.expected_lss_sub && lss_sub < 4 && bit_checked < 32 {
            let bit_mask = u32::MAX << bit_checked;
            if (self.lss_address[lss_sub as usize] ^ id_number) & bit_mask == 0 {
                self.expected_lss_sub = lss_next;
                if bit_checked == 0 && lss_next < lss_sub {
                    self.mode = LssMode::Configuration;
                }
                proof {
                    assert(spec_fast_scan(
                        *old(self),
                        request@,
                        *self,
                        Some(spec_lss_ok_bytes(IDENTIFY_RESPONSE)),
                    ));
                }
                return Some(ok_response(IDENTIFY_RESPONSE));
            }
        }
        proof {
            assert(spec_fast_scan(*old(self), request@, *self, Option::<Seq<u8>>::None));
        }
        None
    }
}

/// Agreement between an executable response and its byte-level meaning.
pub open spec fn resp_agrees(resp: Option<Vec<u8>>, rb: Option<Seq<u8>>) -> bool {
    match resp {
        None => rb is None,
        Some(v) => rb matches Some(b) && v@ == b,
    }
}

/// The 32-bit word in bytes 1 to 4 of a request.
fn word_of(request: &[u8]) -> (r: u32)
    requires
        request@.len() == 8,
    ensures
        r == spec_lss_word(request@),
{
    crate::objectdictionary::datalink::decode_u32(request[1], request[2], request[3], request[4])
}

/// A response with `cs` and one status byte.
fn status_response(cs: u8, status: u8) -> (r: Vec<u8>)
    ensures
        r@ == spec_lss_status_bytes(cs, status),
{
    let r: Vec<u8> = vec![cs, status, 0, 0, 0, 0, 0, 0];
    proof {
        assert(r@ =~= spec_lss_status_bytes(cs, status));
    }
    r
}

/// The bare affirmative response.
fn ok_response(cs: u8) -> (r: Vec<u8>)
    ensures
        r@ == spec_lss_ok_bytes(cs),
{
    let r: Vec<u8> = vec![cs, 0, 0, 0, 0, 0, 0, 0];
    proof {
        assert(r@ =~= spec_lss_ok_bytes(cs));
    }
    r
}

/// Put a response payload on the LSS response COB-ID.
fn wire(resp: Option<Vec<u8>>) -> (r: Option<CanFrame>)
    ensures
        match resp {
            None => r is None,
            Some(v) => r matches Some(f) && f.id == CanId::Standard(LSS_RESPONSE_ID) && f.data@
                == v@ && !f.is_remote,
        },
{
    match resp {
        None => None,
        Some(data) => Some(
            CanFrame { id: CanId::Standard(LSS_RESPONSE_ID), data, is_remote: false },
        ),
    }
}

} // verus!
