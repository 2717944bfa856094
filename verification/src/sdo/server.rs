use vstd::prelude::*;

use crate::frame::{CanFrame, CanId};
use crate::node::NodeId;
use crate::objectdictionary::datalink::{
    object_write_post, spliced, u16_from_le, u32_from_le, OdObject, WriteData,
};
use crate::objectdictionary::{ObjectDictionary, OdPosition};
use crate::pdo::CobIdUpdate;
use crate::sdo::errors::SDOAbortCode;
use crate::sdo::{
    EXPEDITED, NO_MORE_DATA, REQUEST_ABORTED, REQUEST_DOWNLOAD, REQUEST_SEGMENT_DOWNLOAD,
    REQUEST_SEGMENT_UPLOAD, REQUEST_UPLOAD, RESPONSE_ABORTED, RESPONSE_DOWNLOAD,
    RESPONSE_SEGMENT_DOWNLOAD, RESPONSE_SEGMENT_UPLOAD, RESPONSE_UPLOAD, SIZE_SPECIFIED,
    TOGGLE_BIT,
};

verus! {

/// The transfer the SDO server is currently in, if any.
#[derive(Clone, Copy, PartialEq, Eq, Structural, Debug)]
pub enum State {
    Idle,
    SegmentedDownload { toggle: bool, od_position: OdPosition, bytes_downloaded: usize },
    SegmentedUpload { toggle: bool, od_position: OdPosition, bytes_uploaded: usize },
}

/// The SDO server of one node: it answers requests on the node's SDO
/// receive COB-ID with responses on the transmit COB-ID, reading and
/// writing the Object Dictionary handed to each request.
pub struct SdoServer {
    pub rx_cobid: u16,
    pub tx_cobid: u16,
    pub last_index: u16,
    pub last_subindex: u8,
    pub state: State,
}

// ---------------------------------------------------------------------------
// Byte-level shapes of requests and responses.
// ---------------------------------------------------------------------------
/// The `(index, subindex)` an initiate request addresses: bytes 1 and 2 are
/// the index little-endian, byte 3 the subindex.
pub open spec fn spec_request_index(req: Seq<u8>) -> u16 {
    u16_from_le(req[1], req[2])
}

pub open spec fn spec_request_subindex(req: Seq<u8>) -> u8 {
    req[3]
}

/// The payload length of an expedited download: 4 bytes, minus the unused
/// count when the size bit is set.
pub open spec fn spec_expedited_len(cmd: u8) -> int {
    if cmd & SIZE_SPECIFIED == 0 {
        4
    } else {
        4 - ((cmd >> 2) & 0x3)
    }
}

/// The write chunk an initiate-download request denotes, addressed to
/// `(li, ls)`: an expedited request carries its payload whole; a segmented
/// one opens the transfer with an empty chunk, promising the announced
/// size when one is given.
pub open spec fn spec_init_download_chunk(req: Seq<u8>, li: u16, ls: u8, wd: WriteData) -> bool {
    let cmd = req[0];
    &&& wd.index == li
    &&& wd.subindex == ls
    &&& wd.offset == 0
    &&& if cmd & EXPEDITED != 0 {
        &&& wd.new_data@ == req.subrange(4, 4 + spec_expedited_len(cmd))
        &&& wd.promised_size == Some(spec_expedited_len(cmd) as usize)
        &&& wd.is_last_segment
    } else if cmd & SIZE_SPECIFIED != 0 {
        &&& wd.new_data@ == Seq::<u8>::empty()
        &&& wd.promised_size == Some(u32_from_le(req[4], req[5], req[6], req[7]) as usize)
        &&& !wd.is_last_segment
    } else {
        &&& wd.new_data@ == Seq::<u8>::empty()
        &&& wd.promised_size == Option::<usize>::None
        &&& !wd.is_last_segment
    }
}

/// The payload length carried by one download segment: 7 minus the unused
/// count in the command byte.
pub open spec fn spec_segment_len(cmd: u8) -> int {
    7 - ((cmd >> 1) & 0x7)
}

/// The write chunk one download segment denotes at download offset `offset`.
pub open spec fn spec_segment_chunk(
    req: Seq<u8>,
    li: u16,
    ls: u8,
    offset: usize,
    wd: WriteData,
) -> bool {
    let cmd = req[0];
    &&& wd.index == li
    &&& wd.subindex == ls
    &&& wd.offset == offset
    &&& wd.new_data@ == req.subrange(1, 1 + spec_segment_len(cmd))
    &&& wd.promised_size == Option::<usize>::None
    &&& wd.is_last_segment == (cmd & NO_MORE_DATA != 0)
}

/// Whether the toggle bit of a segment command matches the server's state.
pub open spec fn spec_toggle_matches(cmd: u8, toggle: bool) -> bool {
    (cmd & TOGGLE_BIT) == (if toggle {
        TOGGLE_BIT
    } else {
        0u8
    })
}

/// An abort frame payload: command 0x80, the echoed address, and the abort
/// code little-endian.
pub open spec fn spec_abort_bytes(index: u16, subindex: u8, code: SDOAbortCode) -> Seq<u8> {
    seq![RESPONSE_ABORTED, (index % 256) as u8, (index / 256) as u8, subindex]
        + crate::objectdictionary::datalink::le_bytes_u32(code.spec_code())
}

/// The acknowledgement of an initiate download: command 0x60 and the echoed
/// address bytes.
pub open spec fn spec_download_response(req: Seq<u8>) -> Seq<u8> {
    seq![RESPONSE_DOWNLOAD, req[1], req[2], req[3], 0u8, 0u8, 0u8, 0u8]
}

/// The acknowledgement of one download segment: command 0x20 with the
/// acknowledged toggle bit.
pub open spec fn spec_segment_download_response(toggle: bool) -> Seq<u8> {
    seq![
        if toggle {
            (RESPONSE_SEGMENT_DOWNLOAD + TOGGLE_BIT) as u8
        } else {
            RESPONSE_SEGMENT_DOWNLOAD
        },
        0u8,
        0u8,
        0u8,
        0u8,
        0u8,
        0u8,
        0u8,
    ]
}

/// An expedited upload response: the value's bytes inline after the echoed
/// address, the unused count in the command byte.
pub open spec fn spec_expedited_upload_response(req: Seq<u8>, b: Seq<u8>) -> Seq<u8> {
    seq![
        (RESPONSE_UPLOAD + SIZE_SPECIFIED + EXPEDITED + 4 * (4 - b.len())) as u8,
        req[1],
        req[2],
        req[3],
    ] + b + Seq::new((4 - b.len()) as nat, |i: int| 0u8)
}

/// The opening response of a segmented upload: the total size announced
/// little-endian after the echoed address.
pub open spec fn spec_segmented_upload_init_response(req: Seq<u8>, len: int) -> Seq<u8> {
    seq![(RESPONSE_UPLOAD + SIZE_SPECIFIED) as u8, req[1], req[2], req[3]]
        + crate::objectdictionary::datalink::le_bytes_u32(len as u32)
}

/// One upload segment: the chunk after the command byte, which carries the
/// toggle bit, the unused count, and the no-more-data mark.
pub open spec fn spec_segment_upload_response(toggle: bool, chunk: Seq<u8>, no_more: bool) -> Seq<
    u8,
> {
    seq![
        ((if toggle {
            TOGGLE_BIT as int
        } else {
            0int
        }) + 2 * (7 - chunk.len()) + (if no_more {
            1int
        } else {
            0int
        })) as u8,
    ] + chunk + Seq::new((7 - chunk.len()) as nat, |i: int| 0u8)
}

// ---------------------------------------------------------------------------
// The effect of each request, one relation per handler.
// ---------------------------------------------------------------------------
/// A handler's outcome: no response, a response payload, or an abort code.
pub type HandlerResult = Result<Option<Seq<u8>>, SDOAbortCode>;

/// The expedited download size law: the chunk an expedited initiate
/// request denotes starts at offset 0, closes the transfer, and promises
/// exactly as many bytes as it carries.
pub proof fn lemma_expedited_download_promised(req: Seq<u8>, li: u16, ls: u8, wd: WriteData)
    requires
        req.len() == 8,
        spec_init_download_chunk(req, li, ls, wd),
        req[0] & EXPEDITED != 0,
    ensures
        wd.offset == 0,
        wd.is_last_segment,
        wd.promised_size == Some(wd.new_data@.len() as usize),
{
    lemma_cs_bits(req[0]);
}

/// `pre` with the addressed object recorded and no transfer in flight, as
/// every initiate request finds the server.
pub open spec fn spec_with_addr(srv: SdoServer, req: Seq<u8>) -> SdoServer {
    SdoServer {
        last_index: spec_request_index(req),
        last_subindex: spec_request_subindex(req),
        state: State::Idle,
        ..srv
    }
}

/// The effect of an initiate-download request on a server whose address is
/// already recorded (see [`spec_with_addr`]): locate the slot, refuse a
/// read-only one, write the request's chunk through the slot's own rules,
/// and open a segmented transfer unless the chunk was expedited.
pub open spec fn spec_init_download(
    pre: SdoServer,
    od_pre: ObjectDictionary,
    req: Seq<u8>,
    post: SdoServer,
    od_post: ObjectDictionary,
    hr: HandlerResult,
) -> bool {
    let li = pre.last_index;
    let ls = pre.last_subindex;
    if !od_pre.has_index(li) {
        hr == Err::<Option<Seq<u8>>, SDOAbortCode>(SDOAbortCode::ObjectDoesNotExist) && post == pre
            && ObjectDictionary::spec_same(od_pre, od_post)
    } else if !od_pre.has_pair(li, ls) {
        hr == Err::<Option<Seq<u8>>, SDOAbortCode>(SDOAbortCode::SubindexDoesNotExist) && post
            == pre && ObjectDictionary::spec_same(od_pre, od_post)
    } else {
        let pos = od_pre.pos_of(li, ls);
        if od_pre.flags@[pos].read_only {
            hr == Err::<Option<Seq<u8>>, SDOAbortCode>(SDOAbortCode::ReadOnlyError) && post == pre
                && ObjectDictionary::spec_same(od_pre, od_post)
        } else {
            exists|wd: WriteData, wres: Result<(), crate::objectdictionary::ODError>|
                {
                    &&& spec_init_download_chunk(req, li, ls, wd)
                    &&& ObjectDictionary::spec_step(od_pre, od_post, pos)
                    &&& #[trigger] object_write_post(
                        od_pre.object_at(pos),
                        wd,
                        od_pre.spec_tpdo_target(wd),
                        od_post.object_at(pos),
                        wres,
                    )
                    &&& match wres {
                        Ok(()) => hr == Ok::<Option<Seq<u8>>, SDOAbortCode>(
                            Some(spec_download_response(req)),
                        ) && post == (SdoServer {
                            state: if wd.is_last_segment {
                                State::Idle
                            } else {
                                State::SegmentedDownload {
                                    toggle: false,
                                    od_position: OdPosition(pos as usize),
                                    bytes_downloaded: 0,
                                }
                            },
                            ..pre
                        }),
                        Err(e) => hr == Err::<Option<Seq<u8>>, SDOAbortCode>(e.spec_abort_code())
                            && post == pre,
                    }
                }
        }
    }
}

/// The effect of one download segment: only valid mid-download, with the
/// expected toggle bit; the segment's bytes are written at the running
/// offset through the slot's own rules (which abort with
/// `LocalControlError` when the transfer lock was lost), the offset
/// advances, the toggle flips, and the last segment closes the transfer.
pub open spec fn spec_segmented_download(
    pre: SdoServer,
    od_pre: ObjectDictionary,
    req: Seq<u8>,
    post: SdoServer,
    od_post: ObjectDictionary,
    hr: HandlerResult,
) -> bool {
    match pre.state {
        State::SegmentedDownload { toggle, od_position, bytes_downloaded } => {
            let cmd = req[0];
            if !spec_toggle_matches(cmd, toggle) {
                hr == Err::<Option<Seq<u8>>, SDOAbortCode>(SDOAbortCode::ToggleBitNotAlternated)
                    && post == pre && ObjectDictionary::spec_same(od_pre, od_post)
            } else if od_position.0 >= od_pre.spec_len() || bytes_downloaded + 7
                > usize::MAX {
                hr == Err::<Option<Seq<u8>>, SDOAbortCode>(SDOAbortCode::GeneralError) && post
                    == pre && ObjectDictionary::spec_same(od_pre, od_post)
            } else {
                let pos = od_position.0 as int;
                exists|wd: WriteData, wres: Result<(), crate::objectdictionary::ODError>|
                    {
                        &&& spec_segment_chunk(
                            req,
                            pre.last_index,
                            pre.last_subindex,
                            bytes_downloaded,
                            wd,
                        )
                        &&& ObjectDictionary::spec_step(od_pre, od_post, pos)
                        &&& #[trigger] object_write_post(
                            od_pre.object_at(pos),
                            wd,
                            od_pre.spec_tpdo_target(wd),
                            od_post.object_at(pos),
                            wres,
                        )
                        &&& match wres {
                            Ok(()) => hr == Ok::<Option<Seq<u8>>, SDOAbortCode>(
                                Some(spec_segment_download_response(toggle)),
                            ) && post == (SdoServer {
                                state: if cmd & NO_MORE_DATA != 0 {
                                    State::Idle
                                } else {
                                    State::SegmentedDownload {
                                        toggle: !toggle,
                                        od_position,
                                        bytes_downloaded: (bytes_downloaded + spec_segment_len(
                                            cmd,
                                        )) as usize,
                                    }
                                },
                                ..pre
                            }),
                            Err(e) => hr == Err::<Option<Seq<u8>>, SDOAbortCode>(
                                e.spec_abort_code(),
                            ) && post == pre,
                        }
                    }
            }
        },
        _ => hr == Err::<Option<Seq<u8>>, SDOAbortCode>(SDOAbortCode::CommandSpecifierError)
            && post == pre && ObjectDictionary::spec_same(od_pre, od_post),
    }
}

/// The effect of an initiate-upload request on a server whose address is
/// already recorded: locate the slot, refuse a write-only one, and read it.
/// A value of up to 4 bytes is answered expedited; a longer one announces
/// its size, takes the transfer lock, and opens a segmented upload.
pub open spec fn spec_init_upload(
    pre: SdoServer,
    od_pre: ObjectDictionary,
    req: Seq<u8>,
    post: SdoServer,
    od_post: ObjectDictionary,
    hr: HandlerResult,
) -> bool {
    let li = pre.last_index;
    let ls = pre.last_subindex;
    if !od_pre.has_index(li) {
        hr == Err::<Option<Seq<u8>>, SDOAbortCode>(SDOAbortCode::ObjectDoesNotExist) && post == pre
            && ObjectDictionary::spec_same(od_pre, od_post)
    } else if !od_pre.has_pair(li, ls) {
        hr == Err::<Option<Seq<u8>>, SDOAbortCode>(SDOAbortCode::SubindexDoesNotExist) && post
            == pre && ObjectDictionary::spec_same(od_pre, od_post)
    } else {
        let pos = od_pre.pos_of(li, ls);
        if od_pre.flags@[pos].write_only {
            hr == Err::<Option<Seq<u8>>, SDOAbortCode>(SDOAbortCode::WriteOnlyError) && post == pre
                && ObjectDictionary::spec_same(od_pre, od_post)
        } else {
            match crate::objectdictionary::datalink::object_read_bytes(
                od_pre.object_at(pos),
                li,
                ls,
            ) {
                Err(e) => hr == Err::<Option<Seq<u8>>, SDOAbortCode>(e.spec_abort_code()) && post
                    == pre && ObjectDictionary::spec_same(od_pre, od_post),
                Ok(b) => if b.len() <= 4 {
                    hr == Ok::<Option<Seq<u8>>, SDOAbortCode>(
                        Some(spec_expedited_upload_response(req, b)),
                    ) && post == pre && ObjectDictionary::spec_same(od_pre, od_post)
                } else {
                    &&& hr == Ok::<Option<Seq<u8>>, SDOAbortCode>(
                        Some(spec_segmented_upload_init_response(req, b.len() as int)),
                    )
                    &&& post == (SdoServer {
                        state: State::SegmentedUpload {
                            toggle: false,
                            od_position: OdPosition(pos as usize),
                            bytes_uploaded: 0,
                        },
                        ..pre
                    })
                    &&& ObjectDictionary::spec_step(od_pre, od_post, pos)
                    &&& ObjectDictionary::obj_locked_of(
                        od_pre.object_at(pos),
                        od_post.object_at(pos),
                    )
                },
            }
        }
    }
}

/// The effect of one upload segment: only valid mid-upload, with the
/// expected toggle bit and the transfer lock still held. Up to 7 of the
/// remaining bytes are sent, the toggle flips, and the last segment
/// releases the lock and closes the transfer.
pub open spec fn spec_segmented_upload(
    pre: SdoServer,
    od_pre: ObjectDictionary,
    cmd: u8,
    post: SdoServer,
    od_post: ObjectDictionary,
    hr: HandlerResult,
) -> bool {
    match pre.state {
        State::SegmentedUpload { toggle, od_position, bytes_uploaded } => {
            if !spec_toggle_matches(cmd, toggle) {
                hr == Err::<Option<Seq<u8>>, SDOAbortCode>(SDOAbortCode::ToggleBitNotAlternated)
                    && post == pre && ObjectDictionary::spec_same(od_pre, od_post)
            } else if od_position.0 >= od_pre.spec_len() {
                hr == Err::<Option<Seq<u8>>, SDOAbortCode>(SDOAbortCode::GeneralError) && post
                    == pre && ObjectDictionary::spec_same(od_pre, od_post)
            } else {
                let pos = od_position.0 as int;
                if !od_pre.object_at(pos).spec_transfer_locked() {
                    hr == Err::<Option<Seq<u8>>, SDOAbortCode>(SDOAbortCode::LocalControlError)
                        && post == pre && ObjectDictionary::spec_same(od_pre, od_post)
                } else {
                    match crate::objectdictionary::datalink::object_read_bytes(
                        od_pre.object_at(pos),
                        pre.last_index,
                        pre.last_subindex,
                    ) {
                        Err(e) => hr == Err::<Option<Seq<u8>>, SDOAbortCode>(e.spec_abort_code())
                            && post == pre && ObjectDictionary::spec_same(od_pre, od_post),
                        Ok(b) => {
                            let unread = if bytes_uploaded <= b.len() {
                                b.len() - bytes_uploaded
                            } else {
                                0int
                            };
                            let csize = if unread <= 7 {
                                unread
                            } else {
                                7int
                            };
                            let chunk = if bytes_uploaded <= b.len() {
                                b.subrange(bytes_uploaded as int, bytes_uploaded + csize)
                            } else {
                                Seq::<u8>::empty()
                            };
                            let no_more = unread <= 7;
                            &&& hr == Ok::<Option<Seq<u8>>, SDOAbortCode>(
                                Some(spec_segment_upload_response(toggle, chunk, no_more)),
                            )
                            &&& post == (SdoServer {
                                state: if no_more {
                                    State::Idle
                                } else {
                                    State::SegmentedUpload {
                                        toggle: !toggle,
                                        od_position,
                                        bytes_uploaded: (bytes_uploaded + csize) as usize,
                                    }
                                },
                                ..pre
                            })
                            &&& if no_more {
                                ObjectDictionary::spec_step(od_pre, od_post, pos)
                                    && ObjectDictionary::obj_unlocked_of(
                                    od_pre.object_at(pos),
                                    od_post.object_at(pos),
                                )
                            } else {
                                ObjectDictionary::spec_same(od_pre, od_post)
                            }
                        },
                    }
                }
            }
        },
        _ => hr == Err::<Option<Seq<u8>>, SDOAbortCode>(SDOAbortCode::CommandSpecifierError)
            && post == pre && ObjectDictionary::spec_same(od_pre, od_post),
    }
}

/// How a handler outcome leaves the server and becomes the outgoing frame:
/// a payload is sent on the transmit COB-ID as is; an abort code resets the
/// transfer and is sent as an abort frame echoing the recorded address.
pub open spec fn spec_wrap(mid: SdoServer, hr: HandlerResult, post: SdoServer, r: Option<
    CanFrame,
>) -> bool {
    match hr {
        Ok(opt) => post == mid && (match opt {
            None => r is None,
            Some(bytes) => r matches Some(f) && f.id == CanId::Standard(mid.tx_cobid) && f.data@
                == bytes && !f.is_remote,
        }),
        Err(code) => post == (SdoServer { state: State::Idle, ..mid }) && (r matches Some(f)
            && f.id == CanId::Standard(mid.tx_cobid) && f.data@ == spec_abort_bytes(
            mid.last_index,
            mid.last_subindex,
            code,
        ) && !f.is_remote),
    }
}

impl SdoServer {
    /// The COB-IDs are 11-bit identifiers.
    pub open spec fn wf(self) -> bool {
        self.rx_cobid <= 0x7FF && self.tx_cobid <= 0x7FF
    }

    /// The server of a node, listening on `0x600 + id` and answering on
    /// `0x580 + id`, idle.
    pub fn new(node_id: NodeId) -> (r: SdoServer)
        requires
            node_id.wf(),
        ensures
            r.rx_cobid == 0x600 + node_id.spec_raw(),
            r.tx_cobid == 0x580 + node_id.spec_raw(),
            r.last_index == 0,
            r.last_subindex == 0,
            r.state == State::Idle,
            r.wf(),
    {
        SdoServer {
            rx_cobid: node_id.sdo_rx_cobid(),
            tx_cobid: node_id.sdo_tx_cobid(),
            last_index: 0,
            last_subindex: 0,
            state: State::Idle,
        }
    }

    /// Handle one frame: only an 8-byte data frame on the server's receive
    /// COB-ID is processed, everything else is ignored.
    pub fn on_message<C: CobIdUpdate>(
        &mut self,
        frame: &CanFrame,
        od: &mut ObjectDictionary,
        policy: &mut C,
    ) -> (r: Option<CanFrame>)
        requires
            old(self).wf(),
            old(od).wf(),
        ensures
            final(self).wf(),
            final(od).wf(),
            frame.id != CanId::Standard(old(self).rx_cobid) || frame.data@.len() != 8 ==> r
                is None && *final(self) == *old(self) && ObjectDictionary::spec_same(
                *old(od),
                *final(od),
            ),
            frame.id == CanId::Standard(old(self).rx_cobid) && frame.data@.len() == 8
                ==> spec_on_request(*old(self), *old(od), frame.data@, *final(self), *final(od), r),
            final(self).rx_cobid == old(self).rx_cobid,
            final(self).tx_cobid == old(self).tx_cobid,
    {
        if !id_eq(frame.id(), CanId::Standard(self.rx_cobid)) {
            return None;
        }
        if frame.data().len() != 8 {
            return None;
        }
        self.on_request(frame.data().as_slice(), od, policy)
    }

    /// Record the `(index, subindex)` an initiate request addresses, for
    /// the response and for any later abort.
    fn set_index(&mut self, request: &[u8])
        requires
            request@.len() == 8,
        ensures
            *final(self) == (SdoServer {
                last_index: spec_request_index(request@),
                last_subindex: spec_request_subindex(request@),
                ..*old(self)
            }),
    {
        self.last_index = (request[1] as u16) + (request[2] as u16) * 256;
        self.last_subindex = request[3];
    }

    /// Dispatch one 8-byte SDO request and produce at most one response.
    ///
    /// The command specifier's high three bits pick the service; an
    /// initiate request records the addressed object and resets any
    /// transfer; an abort request silently resets; anything else is
    /// answered with a `CommandSpecifierError` abort. Every handler error
    /// becomes an abort frame echoing the recorded address (see
    /// [`spec_wrap`] and the per-service relations).
    pub fn on_request<C: CobIdUpdate>(
        &mut self,
        data: &[u8],
        od: &mut ObjectDictionary,
        policy: &mut C,
    ) -> (r: Option<CanFrame>)
        requires
            data@.len() == 8,
            old(self).wf(),
            old(od).wf(),
        ensures
            final(self).wf(),
            final(od).wf(),
            final(self).rx_cobid == old(self).rx_cobid,
            final(self).tx_cobid == old(self).tx_cobid,
            spec_on_request(*old(self), *old(od), data@, *final(self), *final(od), r),
    {
        let ccs = data[0] & 0xE0;
        let result: Result<Option<Vec<u8>>, SDOAbortCode> = if ccs == REQUEST_DOWNLOAD {
            self.state = State::Idle;
            self.set_index(data);
            self.init_download(data, od, policy)
        } else if ccs == REQUEST_SEGMENT_DOWNLOAD {
            self.segmented_download(data, od, policy)
        } else if ccs == REQUEST_UPLOAD {
            self.state = State::Idle;
            self.set_index(data);
            self.init_upload(data, od)
        } else if ccs == REQUEST_SEGMENT_UPLOAD {
            self.segmented_upload(data[0], od)
        } else if ccs == REQUEST_ABORTED {
            self.state = State::Idle;
            return None;
        } else {
            Err(SDOAbortCode::CommandSpecifierError)
        };
        match result {
            Ok(None) => None,
            Ok(Some(response)) => Some(
                CanFrame {
                    id: CanId::Standard(self.tx_cobid),
                    data: response,
                    is_remote: false,
                },
            ),
            Err(abort_code) => {
                self.state = State::Idle;
                Some(self.abort(abort_code))
            },
        }
    }

    fn init_download<C: CobIdUpdate>(
        &mut self,
        request: &[u8],
        od: &mut ObjectDictionary,
        policy: &mut C,
    ) -> (hr: Result<Option<Vec<u8>>, SDOAbortCode>)
        requires
            request@.len() == 8,
            old(self).wf(),
            old(self).state is Idle,
            old(od).wf(),
        ensures
            final(self).wf(),
            final(od).wf(),
            exists|h: HandlerResult|
                #[trigger] spec_init_download(
                    *old(self),
                    *old(od),
                    request@,
                    *final(self),
                    *final(od),
                    h,
                ) && hres_agrees(hr, h),
    {
        let od_position = match od.search(self.last_index, self.last_subindex) {
            Ok(p) => p,
            Err(e) => {
                proof {
                    assert(spec_init_download(
                        *old(self),
                        *old(od),
                        request@,
                        *self,
                        *od,
                        Err(e.spec_abort_code()),
                    ));
                }
                return Err(e.abort_code());
            },
        };
        proof {
            assert(od.has_pair(self.last_index, self.last_subindex));
            od.lemma_unique_pair(
                od_position.0 as int,
                od.pos_of(self.last_index, self.last_subindex),
            );
        }
        if od.flags[od_position.0].is_read_only() {
            proof {
                assert(spec_init_download(
                    *old(self),
                    *old(od),
                    request@,
                    *self,
                    *od,
                    Err(SDOAbortCode::ReadOnlyError),
                ));
            }
            return Err(SDOAbortCode::ReadOnlyError);
        }
        let stream = unpack_init_download_request(request, self.last_index, self.last_subindex);
        let wres = od.write(od_position, &stream, policy);
        match wres {
            Ok(()) => {},
            Err(e) => {
                proof {
                    assert(object_write_post(
                        old(od).object_at(od_position.0 as int),
                        stream,
                        old(od).spec_tpdo_target(stream),
                        od.object_at(od_position.0 as int),
                        Err::<(), crate::objectdictionary::ODError>(e),
                    ));
                    assert(spec_init_download(
                        *old(self),
                        *old(od),
                        request@,
                        *self,
                        *od,
                        Err(e.spec_abort_code()),
                    ));
                }
                return Err(e.abort_code());
            },
        }
        if !stream.is_last_segment {
            self.state = State::SegmentedDownload {
                toggle: false,
                bytes_downloaded: 0,
                od_position,
            };
        }
        let mut response: Vec<u8> = vec![RESPONSE_DOWNLOAD, 0, 0, 0, 0, 0, 0, 0];
        response[1] = request[1];
        response[2] = request[2];
        response[3] = request[3];
        proof {
            assert(response@ =~= spec_download_response(request@));
            assert(object_write_post(
                old(od).object_at(od_position.0 as int),
                stream,
                old(od).spec_tpdo_target(stream),
                od.object_at(od_position.0 as int),
                Ok::<(), crate::objectdictionary::ODError>(()),
            ));
            assert(spec_init_download(
                *old(self),
                *old(od),
                request@,
                *self,
                *od,
                Ok(Some(spec_download_response(request@))),
            ));
        }
        Ok(Some(response))
    }

    fn segmented_download<C: CobIdUpdate>(
        &mut self,
        request: &[u8],
        od: &mut ObjectDictionary,
        policy: &mut C,
    ) -> (hr: Result<Option<Vec<u8>>, SDOAbortCode>)
        requires
            request@.len() == 8,
            old(self).wf(),
            old(od).wf(),
        ensures
            final(self).wf(),
            final(od).wf(),
            exists|h: HandlerResult|
                #[trigger] spec_segmented_download(
                    *old(self),
                    *old(od),
                    request@,
                    *final(self),
                    *final(od),
                    h,
                ) && hres_agrees(hr, h),
    {
        let (toggle, od_position, bytes_downloaded) = match self.state {
            State::SegmentedDownload { toggle, od_position, bytes_downloaded } => (
                toggle,
                od_position,
                bytes_downloaded,
            ),
            _ => {
                proof {
                    assert(spec_segmented_download(
                        *old(self),
                        *old(od),
                        request@,
                        *self,
                        *od,
                        Err(SDOAbortCode::CommandSpecifierError),
                    ));
                }
                return Err(SDOAbortCode::CommandSpecifierError);
            },
        };
        let command = request[0];
        let expected: u8 = if toggle {
            TOGGLE_BIT
        } else {
            0
        };
        if command & TOGGLE_BIT != expected {
            proof {
                assert(spec_segmented_download(
                    *old(self),
                    *old(od),
                    request@,
                    *self,
                    *od,
                    Err(SDOAbortCode::ToggleBitNotAlternated),
                ));
            }
            return Err(SDOAbortCode::ToggleBitNotAlternated);
        }
        if od_position.0 >= od.indices.len() || bytes_downloaded > usize::MAX - 7 {
            proof {
                assert(spec_segmented_download(
                    *old(self),
                    *old(od),
                    request@,
                    *self,
                    *od,
                    Err(SDOAbortCode::GeneralError),
                ));
            }
            return Err(SDOAbortCode::GeneralError);
        }
        proof {
            lemma_cs_bits(command);
        }
        let seg_len: usize = (7 - ((command >> 1) & 0x7)) as usize;
        let no_more_data = command & NO_MORE_DATA != 0;
        let mut new_data: Vec<u8> = Vec::new();
        let mut k: usize = 0;
        while k < seg_len
            invariant
                k <= seg_len,
                seg_len < 8,
                request@.len() == 8,
                new_data@ == request@.subrange(1, 1 + k as int),
            decreases seg_len - k,
        {
            new_data.push(request[1 + k]);
            proof {
                assert(new_data@ =~= request@.subrange(1, 1 + (k + 1)));
            }
            k = k + 1;
        }
        let stream = WriteData {
            index: self.last_index,
            subindex: self.last_subindex,
            promised_size: None,
            new_data,
            offset: bytes_downloaded,
            is_last_segment: no_more_data,
        };
        let wres = od.write(od_position, &stream, policy);
        match wres {
            Ok(()) => {},
            Err(e) => {
                proof {
                    assert(object_write_post(
                        old(od).object_at(od_position.0 as int),
                        stream,
                        old(od).spec_tpdo_target(stream),
                        od.object_at(od_position.0 as int),
                        Err::<(), crate::objectdictionary::ODError>(e),
                    ));
                    assert(spec_segmented_download(
                        *old(self),
                        *old(od),
                        request@,
                        *self,
                        *od,
                        Err(e.spec_abort_code()),
                    ));
                }
                return Err(e.abort_code());
            },
        }
        let response: Vec<u8> = vec![
            if toggle {
                RESPONSE_SEGMENT_DOWNLOAD + TOGGLE_BIT
            } else {
                RESPONSE_SEGMENT_DOWNLOAD
            },
            0,
            0,
            0,
            0,
            0,
            0,
            0,
        ];
        if no_more_data {
            self.state = State::Idle;
        } else {
            self.state = State::SegmentedDownload {
                toggle: !toggle,
                od_position,
                bytes_downloaded: bytes_downloaded + seg_len,
            };
        }
        proof {
            assert(response@ =~= spec_segment_download_response(toggle));
            assert(object_write_post(
                old(od).object_at(od_position.0 as int),
                stream,
                old(od).spec_tpdo_target(stream),
                od.object_at(od_position.0 as int),
                Ok::<(), crate::objectdictionary::ODError>(()),
            ));
            assert(spec_segmented_download(
                *old(self),
                *old(od),
                request@,
                *self,
                *od,
                Ok(Some(spec_segment_download_response(toggle))),
            ));
        }
        Ok(Some(response))
    }

    fn init_upload(&mut self, request: &[u8], od: &mut ObjectDictionary) -> (hr: Result<
        Option<Vec<u8>>,
        SDOAbortCode,
    >)
        requires
            request@.len() == 8,
            old(self).wf(),
            old(self).state is Idle,
            old(od).wf(),
        ensures
            final(self).wf(),
            final(od).wf(),
            exists|h: HandlerResult|
                #[trigger] spec_init_upload(
                    *old(self),
                    *old(od),
                    request@,
                    *final(self),
                    *final(od),
                    h,
                ) && hres_agrees(hr, h),
    {
        let od_position = match od.search(self.last_index, self.last_subindex) {
            Ok(p) => p,
            Err(e) => {
                proof {
                    assert(spec_init_upload(
                        *old(self),
                        *old(od),
                        request@,
                        *self,
                        *od,
                        Err(e.spec_abort_code()),
                    ));
                }
                return Err(e.abort_code());
            },
        };
        proof {
            assert(od.has_pair(self.last_index, self.last_subindex));
            od.lemma_unique_pair(
                od_position.0 as int,
                od.pos_of(self.last_index, self.last_subindex),
            );
        }
        if od.flags[od_position.0].is_write_only() {
            proof {
                assert(spec_init_upload(
                    *old(self),
                    *old(od),
                    request@,
                    *self,
                    *od,
                    Err(SDOAbortCode::WriteOnlyError),
                ));
            }
            return Err(SDOAbortCode::WriteOnlyError);
        }
        let rd = match od.get(od_position).read(self.last_index, self.last_subindex) {
            Ok(rd) => rd,
            Err(e) => {
                proof {
                    assert(spec_init_upload(
                        *old(self),
                        *old(od),
                        request@,
                        *self,
                        *od,
                        Err(e.spec_abort_code()),
                    ));
                }
                return Err(e.abort_code());
            },
        };
        let bytes = rd.as_bytes();
        let len = bytes.len();
        if len <= 4 {
            let unused: u8 = (4 - len) as u8;
            let mut response: Vec<u8> = vec![
                RESPONSE_UPLOAD + SIZE_SPECIFIED + EXPEDITED + 4 * unused,
                request[1],
                request[2],
                request[3],
                0,
                0,
                0,
                0,
            ];
            let mut k: usize = 0;
            while k < len
                invariant
                    k <= len,
                    len == bytes@.len() <= 4,
                    response@.len() == 8,
                    response@[0] == (RESPONSE_UPLOAD + SIZE_SPECIFIED + EXPEDITED + 4 * (4
                        - len)) as u8,
                    response@[1] == request@[1],
                    response@[2] == request@[2],
                    response@[3] == request@[3],
                    forall|j: int| 4 <= j < 4 + k ==> #[trigger] response@[j] == bytes@[j - 4],
                    forall|j: int| 4 + k <= j < 8 ==> #[trigger] response@[j] == 0u8,
                decreases len - k,
            {
                response[4 + k] = bytes[k];
                k = k + 1;
            }
            proof {
                assert(response@ =~= spec_expedited_upload_response(request@, bytes@));
                assert(spec_init_upload(
                    *old(self),
                    *old(od),
                    request@,
                    *self,
                    *od,
                    Ok(Some(spec_expedited_upload_response(request@, bytes@))),
                ));
            }
            Ok(Some(response))
        } else {
            let size_bytes = crate::objectdictionary::datalink::encode_u32_bytes(len as u32);
            let response: Vec<u8> = vec![
                RESPONSE_UPLOAD + SIZE_SPECIFIED,
                request[1],
                request[2],
                request[3],
                size_bytes[0],
                size_bytes[1],
                size_bytes[2],
                size_bytes[3],
            ];
            od.transfer_lock(od_position);
            self.state = State::SegmentedUpload {
                toggle: false,
                bytes_uploaded: 0,
                od_position,
            };
            proof {
                assert(response@ =~= spec_segmented_upload_init_response(
                    request@,
                    bytes@.len() as int,
                ));
                assert(spec_init_upload(
                    *old(self),
                    *old(od),
                    request@,
                    *self,
                    *od,
                    Ok(Some(spec_segmented_upload_init_response(request@, bytes@.len() as int))),
                ));
            }
            Ok(Some(response))
        }
    }

    fn segmented_upload(&mut self, command: u8, od: &mut ObjectDictionary) -> (hr: Result<
        Option<Vec<u8>>,
        SDOAbortCode,
    >)
        requires
            old(self).wf(),
            old(od).wf(),
        ensures
            final(self).wf(),
            final(od).wf(),
            exists|h: HandlerResult|
                #[trigger] spec_segmented_upload(
                    *old(self),
                    *old(od),
                    command,
                    *final(self),
                    *final(od),
                    h,
                ) && hres_agrees(hr, h),
    {
        let (toggle, od_position, bytes_uploaded) = match self.state {
            State::SegmentedUpload { toggle, od_position, bytes_uploaded } => (
                toggle,
                od_position,
                bytes_uploaded,
            ),
            _ => {
                proof {
                    assert(spec_segmented_upload(
                        *old(self),
                        *old(od),
                        command,
                        *self,
                        *od,
                        Err(SDOAbortCode::CommandSpecifierError),
                    ));
                }
                return Err(SDOAbortCode::CommandSpecifierError);
            },
        };
        let expected: u8 = if toggle {
            TOGGLE_BIT
        } else {
            0
        };
        if command & TOGGLE_BIT != expected {
            proof {
                assert(spec_segmented_upload(
                    *old(self),
                    *old(od),
                    command,
                    *self,
                    *od,
                    Err(SDOAbortCode::ToggleBitNotAlternated),
                ));
            }
            return Err(SDOAbortCode::ToggleBitNotAlternated);
        }
        if od_position.0 >= od.indices.len() {
            proof {
                assert(spec_segmented_upload(
                    *old(self),
                    *old(od),
                    command,
                    *self,
                    *od,
                    Err(SDOAbortCode::GeneralError),
                ));
            }
            return Err(SDOAbortCode::GeneralError);
        }
        if !od.transfer_locked(od_position) {
            proof {
                assert(spec_segmented_upload(
                    *old(self),
                    *old(od),
                    command,
                    *self,
                    *od,
                    Err(SDOAbortCode::LocalControlError),
                ));
            }
            return Err(SDOAbortCode::LocalControlError);
        }
        let rd = match od.get(od_position).read(self.last_index, self.last_subindex) {
            Ok(rd) => rd,
            Err(e) => {
                proof {
                    assert(spec_segmented_upload(
                        *old(self),
                        *old(od),
                        command,
                        *self,
                        *od,
                        Err(e.spec_abort_code()),
                    ));
                }
                return Err(e.abort_code());
            },
        };
        let bytes = rd.as_bytes();
        let unread: usize = if bytes_uploaded <= bytes.len() {
            bytes.len() - bytes_uploaded
        } else {
            0
        };
        let csize: usize = if unread <= 7 {
            unread
        } else {
            7
        };
        let no_more = unread <= 7;
        let cs: u8 = (if toggle {
            TOGGLE_BIT
        } else {
            0
        }) + 2 * ((7 - csize) as u8) + (if no_more {
            1
        } else {
            0
        });
        let ghost chunk = if bytes_uploaded <= bytes@.len() {
            bytes@.subrange(bytes_uploaded as int, bytes_uploaded + csize as int)
        } else {
            Seq::<u8>::empty()
        };
        let mut response: Vec<u8> = vec![cs, 0, 0, 0, 0, 0, 0, 0];
        let mut k: usize = 0;
        while k < csize
            invariant
                k <= csize,
                csize <= 7,
                csize > 0 ==> bytes_uploaded + csize <= bytes@.len(),
                bytes_uploaded + csize <= usize::MAX,
                response@.len() == 8,
                response@[0] == cs,
                forall|j: int|
                    1 <= j < 1 + k ==> #[trigger] response@[j] == bytes@[bytes_uploaded + j - 1],
                forall|j: int| 1 + k <= j < 8 ==> #[trigger] response@[j] == 0u8,
            decreases csize - k,
        {
            response[1 + k] = bytes[bytes_uploaded + k];
            k = k + 1;
        }
        if no_more {
            od.transfer_unlock(od_position);
            self.state = State::Idle;
        } else {
            self.state = State::SegmentedUpload {
                toggle: !toggle,
                od_position,
                bytes_uploaded: bytes_uploaded + csize,
            };
        }
        proof {
            assert(response@ =~= spec_segment_upload_response(toggle, chunk, no_more));
            assert(spec_segmented_upload(
                *old(self),
                *old(od),
                command,
                *self,
                *od,
                Ok(Some(spec_segment_upload_response(toggle, chunk, no_more))),
            ));
        }
        Ok(Some(response))
    }

    /// The abort frame for `abort_error`, echoing the recorded address.
    fn abort(&self, abort_error: SDOAbortCode) -> (r: CanFrame)
        requires
            self.wf(),
        ensures
            r.id == CanId::Standard(self.tx_cobid),
            r.data@ == spec_abort_bytes(self.last_index, self.last_subindex, abort_error),
            !r.is_remote,
            r.wf(),
    {
        let index_lo = (self.last_index % 256) as u8;
        let index_hi = (self.last_index / 256) as u8;
        let code = crate::objectdictionary::datalink::encode_u32_bytes(abort_error.code());
        let data: Vec<u8> = vec![
            RESPONSE_ABORTED,
            index_lo,
            index_hi,
            self.last_subindex,
            code[0],
            code[1],
            code[2],
            code[3],
        ];
        proof {
            assert(data@ =~= spec_abort_bytes(
                self.last_index,
                self.last_subindex,
                abort_error,
            ));
        }
        CanFrame { id: CanId::Standard(self.tx_cobid), data, is_remote: false }
    }
}

/// The toggle alternation law for downloads: a segment whose toggle bit
/// does not match the transfer's expectation is answered with
/// `ToggleBitNotAlternated` and changes nothing, and an accepted segment
/// that continues the transfer flips the expectation. The expectation
/// starts at 0 when the transfer opens (see [`spec_init_download`]).
pub proof fn lemma_download_toggle_alternates(
    pre: SdoServer,
    od_pre: ObjectDictionary,
    req: Seq<u8>,
    post: SdoServer,
    od_post: ObjectDictionary,
    hr: HandlerResult,
    toggle: bool,
)
    requires
        spec_segmented_download(pre, od_pre, req, post, od_post, hr),
        pre.state matches State::SegmentedDownload { toggle: t, .. } && t == toggle,
    ensures
        !spec_toggle_matches(req[0], toggle) ==> hr == Err::<Option<Seq<u8>>, SDOAbortCode>(
            SDOAbortCode::ToggleBitNotAlternated,
        ) && post == pre && ObjectDictionary::spec_same(od_pre, od_post),
        hr is Ok ==> (post.state matches State::SegmentedDownload { toggle: t2, .. } ==> t2
            == !toggle),
{
    if spec_toggle_matches(req[0], toggle) && hr is Ok {
        if post.state is SegmentedDownload {
            let (wd, wres) = choose|wd: WriteData, wres: Result<
                (),
                crate::objectdictionary::ODError,
            >|
                {
                    &&& spec_segment_chunk(
                        req,
                        pre.last_index,
                        pre.last_subindex,
                        pre.state->SegmentedDownload_bytes_downloaded,
                        wd,
                    )
                    &&& ObjectDictionary::spec_step(
                        od_pre,
                        od_post,
                        pre.state->SegmentedDownload_od_position.0 as int,
                    )
                    &&& #[trigger] object_write_post(
                        od_pre.object_at(pre.state->SegmentedDownload_od_position.0 as int),
                        wd,
                        od_pre.spec_tpdo_target(wd),
                        od_post.object_at(pre.state->SegmentedDownload_od_position.0 as int),
                        wres,
                    )
                    &&& match wres {
                        Ok(()) => hr == Ok::<Option<Seq<u8>>, SDOAbortCode>(
                            Some(spec_segment_download_response(toggle)),
                        ) && post == (SdoServer {
                            state: if req[0] & NO_MORE_DATA != 0 {
                                State::Idle
                            } else {
                                State::SegmentedDownload {
                                    toggle: !toggle,
                                    od_position: pre.state->SegmentedDownload_od_position,
                                    bytes_downloaded: (pre.state->SegmentedDownload_bytes_downloaded
                                        + spec_segment_len(req[0])) as usize,
                                }
                            },
                            ..pre
                        }),
                        Err(e) => hr == Err::<Option<Seq<u8>>, SDOAbortCode>(e.spec_abort_code())
                            && post == pre,
                    }
                };
        }
    }
}

/// The toggle alternation law for uploads, the mirror image of
/// [`lemma_download_toggle_alternates`]; the expectation starts at 0 when
/// the transfer opens (see [`spec_init_upload`]).
pub proof fn lemma_upload_toggle_alternates(
    pre: SdoServer,
    od_pre: ObjectDictionary,
    cmd: u8,
    post: SdoServer,
    od_post: ObjectDictionary,
    hr: HandlerResult,
    toggle: bool,
)
    requires
        spec_segmented_upload(pre, od_pre, cmd, post, od_post, hr),
        pre.state matches State::SegmentedUpload { toggle: t, .. } && t == toggle,
    ensures
        !spec_toggle_matches(cmd, toggle) ==> hr == Err::<Option<Seq<u8>>, SDOAbortCode>(
            SDOAbortCode::ToggleBitNotAlternated,
        ) && post == pre && ObjectDictionary::spec_same(od_pre, od_post),
        hr is Ok ==> (post.state matches State::SegmentedUpload { toggle: t2, .. } ==> t2
            == !toggle),
{
}

/// A segmented download into a byte-array slot that has accepted exactly
/// the bytes `sent` so far: the transfer counter equals their number, the
/// slot still holds its transfer lock, and the slot stores the sent bytes
/// contiguously from offset 0.
pub open spec fn download_in_progress(srv: SdoServer, od: ObjectDictionary, sent: Seq<u8>) -> bool {
    srv.state matches State::SegmentedDownload { od_position, bytes_downloaded, .. }
        && bytes_downloaded == sent.len() && od_position.0 < od.spec_len() && (od.object_at(
        od_position.0 as int,
    ) matches OdObject::Bytes(c) && c.locked && sent.len() <= c.value@.len()
        && c.value@.subrange(0, sent.len() as int) == sent)
}

/// Opening a segmented download into a byte-array slot starts the count at
/// zero: nothing is written yet, the slot is locked, and the transfer
/// cursor stands at offset 0.
pub proof fn lemma_download_opens_at_zero(
    pre: SdoServer,
    od_pre: ObjectDictionary,
    req: Seq<u8>,
    post: SdoServer,
    od_post: ObjectDictionary,
    hr: HandlerResult,
)
    requires
        spec_init_download(pre, od_pre, req, post, od_post, hr),
        hr is Ok,
        req.len() == 8,
        req[0] & EXPEDITED == 0,
        od_pre.wf(),
        od_pre.has_pair(pre.last_index, pre.last_subindex),
        od_pre.object_at(od_pre.pos_of(pre.last_index, pre.last_subindex)) is Bytes,
    ensures
        download_in_progress(post, od_post, Seq::<u8>::empty()),
{
    let pos = od_pre.pos_of(pre.last_index, pre.last_subindex);
    vstd::std_specs::vec::axiom_spec_len(&od_pre.indices);
    assert(0 <= pos < od_pre.spec_len());
    let (wd, wres) = choose|wd: WriteData, wres: Result<(), crate::objectdictionary::ODError>|
        {
            &&& spec_init_download_chunk(req, pre.last_index, pre.last_subindex, wd)
            &&& ObjectDictionary::spec_step(od_pre, od_post, pos)
            &&& #[trigger] object_write_post(
                od_pre.object_at(pos),
                wd,
                od_pre.spec_tpdo_target(wd),
                od_post.object_at(pos),
                wres,
            )
            &&& match wres {
                Ok(()) => hr == Ok::<Option<Seq<u8>>, SDOAbortCode>(
                    Some(spec_download_response(req)),
                ) && post == (SdoServer {
                    state: if wd.is_last_segment {
                        State::Idle
                    } else {
                        State::SegmentedDownload {
                            toggle: false,
                            od_position: OdPosition(pos as usize),
                            bytes_downloaded: 0,
                        }
                    },
                    ..pre
                }),
                Err(e) => hr == Err::<Option<Seq<u8>>, SDOAbortCode>(e.spec_abort_code()) && post
                    == pre,
            }
        };
    let c = od_pre.object_at(pos)->Bytes_0;
    let c2 = od_post.object_at(pos)->Bytes_0;
    assert(c2.value@ == spliced(c.value@, wd.new_data@, 0));
    assert(c2.value@ =~= c.value@);
    assert(c2.value@.subrange(0, 0) =~= Seq::<u8>::empty());
}

/// Each accepted middle segment of a download lands at exactly the running
/// offset: after it, the slot holds the previously sent bytes followed by
/// the new chunk, still contiguously from offset 0.
pub proof fn lemma_download_stays_contiguous(
    pre: SdoServer,
    od_pre: ObjectDictionary,
    req: Seq<u8>,
    post: SdoServer,
    od_post: ObjectDictionary,
    hr: HandlerResult,
    sent: Seq<u8>,
)
    requires
        download_in_progress(pre, od_pre, sent),
        spec_segmented_download(pre, od_pre, req, post, od_post, hr),
        hr is Ok,
        req.len() == 8,
        req[0] & NO_MORE_DATA == 0,
    ensures
        download_in_progress(post, od_post, sent + req.subrange(1, 1 + spec_segment_len(req[0]))),
{
    let od_position = pre.state->SegmentedDownload_od_position;
    let toggle = pre.state->SegmentedDownload_toggle;
    let bytes_downloaded = pre.state->SegmentedDownload_bytes_downloaded;
    let pos = od_position.0 as int;
    lemma_cs_bits(req[0]);
    assert(spec_toggle_matches(req[0], toggle));
    let (wd, wres) = choose|wd: WriteData, wres: Result<(), crate::objectdictionary::ODError>|
        {
            &&& spec_segment_chunk(req, pre.last_index, pre.last_subindex, bytes_downloaded, wd)
            &&& ObjectDictionary::spec_step(od_pre, od_post, pos)
            &&& #[trigger] object_write_post(
                od_pre.object_at(pos),
                wd,
                od_pre.spec_tpdo_target(wd),
                od_post.object_at(pos),
                wres,
            )
            &&& match wres {
                Ok(()) => hr == Ok::<Option<Seq<u8>>, SDOAbortCode>(
                    Some(spec_segment_download_response(toggle)),
                ) && post == (SdoServer {
                    state: if req[0] & NO_MORE_DATA != 0 {
                        State::Idle
                    } else {
                        State::SegmentedDownload {
                            toggle: !toggle,
                            od_position,
                            bytes_downloaded: (bytes_downloaded + spec_segment_len(
                                req[0],
                            )) as usize,
                        }
                    },
                    ..pre
                }),
                Err(e) => hr == Err::<Option<Seq<u8>>, SDOAbortCode>(e.spec_abort_code()) && post
                    == pre,
            }
        };
    let chunk = req.subrange(1, 1 + spec_segment_len(req[0]));
    let c = od_pre.object_at(pos)->Bytes_0;
    let c2 = od_post.object_at(pos)->Bytes_0;
    assert(c2.value@ == spliced(c.value@, chunk, bytes_downloaded as int));
    assert(c2.value@.len() == c.value@.len());
    assert(c2.value@.subrange(0, sent.len() as int) =~= sent);
    assert(c2.value@.subrange(0, (sent + chunk).len() as int) =~= sent + chunk);
}

/// The complete effect of one SDO request on the server, the dictionary,
/// and the wire; the command specifier's high three bits pick the service.
pub open spec fn spec_on_request(
    pre: SdoServer,
    od_pre: ObjectDictionary,
    data: Seq<u8>,
    post: SdoServer,
    od_post: ObjectDictionary,
    r: Option<CanFrame>,
) -> bool {
    let ccs = data[0] & 0xE0;
    &&& post.rx_cobid == pre.rx_cobid
    &&& post.tx_cobid == pre.tx_cobid
    &&& ccs == REQUEST_DOWNLOAD ==> exists|mid: SdoServer, hr: HandlerResult|
        #[trigger] spec_init_download(
            spec_with_addr(pre, data),
            od_pre,
            data,
            mid,
            od_post,
            hr,
        ) && spec_wrap(mid, hr, post, r)
    &&& ccs == REQUEST_SEGMENT_DOWNLOAD ==> exists|mid: SdoServer, hr: HandlerResult|
        #[trigger] spec_segmented_download(pre, od_pre, data, mid, od_post, hr) && spec_wrap(
            mid,
            hr,
            post,
            r,
        )
    &&& ccs == REQUEST_UPLOAD ==> exists|mid: SdoServer, hr: HandlerResult|
        #[trigger] spec_init_upload(
            spec_with_addr(pre, data),
            od_pre,
            data,
            mid,
            od_post,
            hr,
        ) && spec_wrap(mid, hr, post, r)
    &&& ccs == REQUEST_SEGMENT_UPLOAD ==> exists|mid: SdoServer, hr: HandlerResult|
        #[trigger] spec_segmented_upload(pre, od_pre, data[0], mid, od_post, hr) && spec_wrap(
            mid,
            hr,
            post,
            r,
        )
    &&& ccs == REQUEST_ABORTED ==> r is None && post == (SdoServer {
        state: State::Idle,
        ..pre
    }) && ObjectDictionary::spec_same(od_pre, od_post)
    &&& (ccs != REQUEST_DOWNLOAD && ccs != REQUEST_SEGMENT_DOWNLOAD && ccs != REQUEST_UPLOAD
        && ccs != REQUEST_SEGMENT_UPLOAD && ccs != REQUEST_ABORTED) ==> ObjectDictionary::spec_same(
        od_pre,
        od_post,
    ) && spec_wrap(pre, Err(SDOAbortCode::CommandSpecifierError), post, r)
}

/// Agreement between an executable handler outcome and its byte-level
/// meaning.
pub open spec fn hres_agrees(hr: Result<Option<Vec<u8>>, SDOAbortCode>, h: HandlerResult) -> bool {
    match hr {
        Ok(None) => h == Ok::<Option<Seq<u8>>, SDOAbortCode>(None),
        Ok(Some(v)) => h matches Ok(Some(b)) && v@ == b,
        Err(e) => h == Err::<Option<Seq<u8>>, SDOAbortCode>(e),
    }
}

/// The bit fields inside a segment command byte stay below their width.
proof fn lemma_cs_bits(cmd: u8)
    by (bit_vector)
    ensures
        ((cmd >> 2) & 0x3) < 4,
        ((cmd >> 1) & 0x7) < 8,
{
}

/// Decode an initiate-download request into the write chunk it denotes; see
/// [`spec_init_download_chunk`].
fn unpack_init_download_request(request: &[u8], li: u16, ls: u8) -> (wd: WriteData)
    requires
        request@.len() == 8,
    ensures
        spec_init_download_chunk(request@, li, ls, wd),
{
    let command = request[0];
    let mut new_data: Vec<u8> = Vec::new();
    let mut promised_size: Option<usize> = None;
    let mut is_last_segment = false;
    if command & EXPEDITED != 0 {
        proof {
            lemma_cs_bits(command);
        }
        let size: usize = if command & SIZE_SPECIFIED == 0 {
            4
        } else {
            (4 - ((command >> 2) & 0x3)) as usize
        };
        let mut k: usize = 0;
        while k < size
            invariant
                k <= size,
                size <= 4,
                request@.len() == 8,
                new_data@ == request@.subrange(4, 4 + k as int),
            decreases size - k,
        {
            new_data.push(request[4 + k]);
            proof {
                assert(new_data@ =~= request@.subrange(4, 4 + (k + 1)));
            }
            k = k + 1;
        }
        promised_size = Some(size);
        is_last_segment = true;
    } else if command & SIZE_SPECIFIED != 0 {
        let announced = crate::objectdictionary::datalink::parse_size(request);
        promised_size = Some(announced);
    }
    WriteData { index: li, subindex: ls, new_data, offset: 0, promised_size, is_last_segment }
}

/// Identifier equality, decided structurally.
fn id_eq(a: CanId, b: CanId) -> (r: bool)
    ensures
        r == (a == b),
{
    match (a, b) {
        (CanId::Standard(x), CanId::Standard(y)) => x == y,
        (CanId::Extended(x), CanId::Extended(y)) => x == y,
        _ => false,
    }
}

} // verus!
