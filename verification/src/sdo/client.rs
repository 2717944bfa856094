//! Client-side SDO helpers: request builders and response parsers for the
//! counterpart of the server protocol.

use vstd::prelude::*;

use crate::objectdictionary::datalink::{le_bytes_u32, u16_from_le, u32_from_le};
use crate::sdo::errors::SDOAbortCode;
use crate::sdo::{
    EXPEDITED, NO_MORE_DATA, REQUEST_DOWNLOAD, REQUEST_SEGMENT_UPLOAD, REQUEST_UPLOAD,
    RESPONSE_ABORTED, RESPONSE_DOWNLOAD, RESPONSE_UPLOAD, SIZE_SPECIFIED, TOGGLE_BIT,
};

verus! {

/// A parse failure while reading a value out of response bytes.
#[derive(Clone, Copy, PartialEq, Eq, Structural, Debug)]
pub struct ParseError;

/// Why a response could not be accepted.
#[derive(Clone, Copy, PartialEq, Eq, Structural, Debug)]
pub enum ProtocolError {
    /// The response was malformed.
    ParseError,
    /// The response named a different index than the request.
    IndexMismatch,
    /// The response named a different subindex than the request.
    SubindexMismatch,
    /// The server answered with an abort code.
    Abort(SDOAbortCode),
}

/// What a polling client should do next.
pub enum ReadResult<F> {
    /// Send this request and poll again.
    NextRequest(F),
    /// No response yet; poll again later.
    Waiting,
    /// The transfer is complete.
    Done,
}

/// A value small enough for an expedited SDO transfer.
pub trait SdoValue: Sized {
    /// The little-endian bytes of this value.
    spec fn sdo_bytes(self) -> Seq<u8>;

    /// Whether `bytes` decodes as a value of this type: exactly the type's
    /// width, and for `bool` additionally one of the encodings 0 and 1.
    spec fn sdo_decodable(bytes: Seq<u8>) -> bool;

    /// Encode as 1 to 4 little-endian bytes; the encoding always decodes
    /// back.
    fn to_bytes(self) -> (r: Vec<u8>)
        ensures
            r@ == self.sdo_bytes(),
            1 <= r@.len() <= 4,
            Self::sdo_decodable(r@),
    ;

    /// Decode from little-endian bytes of exactly the value's width;
    /// succeeds if and only if the bytes are decodable.
    fn from_bytes(bytes: &[u8]) -> (r: Result<Self, ParseError>)
        ensures
            r is Ok <==> Self::sdo_decodable(bytes@),
            r matches Ok(v) ==> v.sdo_bytes() == bytes@,
    ;
}

/// A sink for the payload bytes of an upload.
pub trait ReadInto {
    fn read_into(&mut self, buf: &[u8]) -> Result<(), ParseError>;
}

/// The upload request for `(index, sub_index)`.
pub open spec fn spec_upload_request(index: u16, sub_index: u8) -> Seq<u8> {
    seq![
        REQUEST_UPLOAD,
        (index % 256) as u8,
        (index / 256) as u8,
        sub_index,
        0u8,
        0u8,
        0u8,
        0u8,
    ]
}

/// Build the upload request for `(index, sub_index)`.
pub fn upload_request(index: u16, sub_index: u8) -> (r: Vec<u8>)
    ensures
        r@ == spec_upload_request(index, sub_index),
{
    let r: Vec<u8> = vec![
        REQUEST_UPLOAD,
        (index % 256) as u8,
        (index / 256) as u8,
        sub_index,
        0,
        0,
        0,
        0,
    ];
    proof {
        assert(r@ =~= spec_upload_request(index, sub_index));
    }
    r
}

/// An expedited download request of `data` (1 to 4 bytes) to
/// `(index, sub_index)`.
pub open spec fn spec_download_request(index: u16, sub_index: u8, data: Seq<u8>) -> Seq<u8> {
    seq![
        (REQUEST_DOWNLOAD + EXPEDITED + SIZE_SPECIFIED + 4 * (4 - data.len())) as u8,
        (index % 256) as u8,
        (index / 256) as u8,
        sub_index,
    ] + data + Seq::new((4 - data.len()) as nat, |i: int| 0u8)
}

/// Build an expedited download request carrying `val`.
pub fn download_request<T: SdoValue>(index: u16, sub_index: u8, val: T) -> (r: Vec<u8>)
    ensures
        r@ == spec_download_request(index, sub_index, val.sdo_bytes()),
{
    let data = val.to_bytes();
    let len = data.len();
    let unused: u8 = (4 - len) as u8;
    let mut r: Vec<u8> = vec![
        REQUEST_DOWNLOAD + EXPEDITED + SIZE_SPECIFIED + 4 * unused,
        (index % 256) as u8,
        (index / 256) as u8,
        sub_index,
        0,
        0,
        0,
        0,
    ];
    let mut k: usize = 0;
    while k < len
        invariant
            k <= len,
            1 <= len == data@.len() <= 4,
            r@.len() == 8,
            r@[0] == (REQUEST_DOWNLOAD + EXPEDITED + SIZE_SPECIFIED + 4 * (4 - len)) as u8,
            r@[1] == (index % 256) as u8,
            r@[2] == (index / 256) as u8,
            r@[3] == sub_index,
            forall|j: int| 4 <= j < 4 + k ==> #[trigger] r@[j] == data@[j - 4],
            forall|j: int| 4 + k <= j < 8 ==> #[trigger] r@[j] == 0u8,
        decreases len - k,
    {
        r[4 + k] = data[k];
        k = k + 1;
    }
    proof {
        assert(r@ =~= spec_download_request(index, sub_index, data@));
    }
    r
}

/// The request for the next upload segment with the given toggle bit.
pub open spec fn spec_segmented_upload_request(toggle_bit: bool) -> Seq<u8> {
    seq![
        if toggle_bit {
            (REQUEST_SEGMENT_UPLOAD + TOGGLE_BIT) as u8
        } else {
            REQUEST_SEGMENT_UPLOAD
        },
        0u8,
        0u8,
        0u8,
        0u8,
        0u8,
        0u8,
        0u8,
    ]
}

/// Build the request for the next upload segment.
pub fn segmented_upload_request(toggle_bit: bool) -> (r: Vec<u8>)
    ensures
        r@ == spec_segmented_upload_request(toggle_bit),
{
    let cs: u8 = if toggle_bit {
        REQUEST_SEGMENT_UPLOAD + TOGGLE_BIT
    } else {
        REQUEST_SEGMENT_UPLOAD
    };
    let r: Vec<u8> = vec![cs, 0, 0, 0, 0, 0, 0, 0];
    proof {
        assert(r@ =~= spec_segmented_upload_request(toggle_bit));
    }
    r
}

/// The command-specifier class of a response.
pub open spec fn spec_response_css(response: Seq<u8>) -> u8 {
    response[0] & 0xE0
}

fn response_css(response: &[u8]) -> (r: u8)
    requires
        response@.len() == 8,
    ensures
        r == spec_response_css(response@),
{
    response[0] & 0xE0
}

/// The abort code carried in bytes 4 to 7 of an abort response.
pub open spec fn spec_response_abort_code(response: Seq<u8>) -> SDOAbortCode {
    SDOAbortCode::spec_from_code(
        u32_from_le(response[4], response[5], response[6], response[7]),
    )
}

fn to_abort_code(response: &[u8]) -> (r: SDOAbortCode)
    requires
        response@.len() == 8,
    ensures
        r == spec_response_abort_code(response@),
{
    SDOAbortCode::from_code(
        crate::objectdictionary::datalink::decode_u32(
            response[4],
            response[5],
            response[6],
            response[7],
        ),
    )
}

fn check_response_index(response: &[u8], expected_index: u16, expected_subindex: u8) -> (r:
    Result<(), ProtocolError>)
    requires
        response@.len() == 8,
    ensures
        u16_from_le(response@[1], response@[2]) != expected_index ==> r == Err::<
            (),
            ProtocolError,
        >(ProtocolError::IndexMismatch),
        u16_from_le(response@[1], response@[2]) == expected_index && response@[3]
            != expected_subindex ==> r == Err::<(), ProtocolError>(
            ProtocolError::SubindexMismatch,
        ),
        u16_from_le(response@[1], response@[2]) == expected_index && response@[3]
            == expected_subindex ==> r == Ok::<(), ProtocolError>(()),
{
    let got = crate::objectdictionary::datalink::decode_u16(response[1], response[2]);
    if got != expected_index {
        Err(ProtocolError::IndexMismatch)
    } else if response[3] != expected_subindex {
        Err(ProtocolError::SubindexMismatch)
    } else {
        Ok(())
    }
}

/// The inline payload of an expedited upload response: bytes 4 up to 8
/// minus the unused count.
pub open spec fn spec_expedited_payload(response: Seq<u8>) -> Seq<u8> {
    response.subrange(4, 8 - ((response[0] >> 2) & 0x3))
}

/// Parse the response to an expedited upload of `(expected_index,
/// expected_subindex)`.
///
/// An abort response gives `Abort`, an upload response whose address
/// disagrees gives the mismatch error, any other class gives `ParseError`;
/// otherwise the inline payload is decoded as a `T`.
pub fn parse_upload_response<T: SdoValue>(
    response: &[u8],
    expected_index: u16,
    expected_subindex: u8,
) -> (r: Result<T, ProtocolError>)
    requires
        response@.len() == 8,
    ensures
        spec_response_css(response@) == RESPONSE_ABORTED ==> r == Err::<T, ProtocolError>(
            ProtocolError::Abort(spec_response_abort_code(response@)),
        ),
        spec_response_css(response@) == RESPONSE_UPLOAD ==> {
            let idx = u16_from_le(response@[1], response@[2]);
            &&& idx != expected_index ==> r == Err::<T, ProtocolError>(
                ProtocolError::IndexMismatch,
            )
            &&& idx == expected_index && response@[3] != expected_subindex ==> r == Err::<
                T,
                ProtocolError,
            >(ProtocolError::SubindexMismatch)
            &&& idx == expected_index && response@[3] == expected_subindex ==> {
                &&& (r is Ok <==> T::sdo_decodable(spec_expedited_payload(response@)))
                &&& !T::sdo_decodable(spec_expedited_payload(response@)) ==> r == Err::<
                    T,
                    ProtocolError,
                >(ProtocolError::ParseError)
                &&& (r matches Ok(v) ==> v.sdo_bytes() == spec_expedited_payload(response@))
            }
        },
        spec_response_css(response@) != RESPONSE_ABORTED && spec_response_css(response@)
            != RESPONSE_UPLOAD ==> r == Err::<T, ProtocolError>(ProtocolError::ParseError),
{
    let css = response_css(response);
    if css == RESPONSE_ABORTED {
        return Err(ProtocolError::Abort(to_abort_code(response)));
    }
    if css != RESPONSE_UPLOAD {
        return Err(ProtocolError::ParseError);
    }
    match check_response_index(response, expected_index, expected_subindex) {
        Ok(()) => {},
        Err(e) => {
            return Err(e);
        },
    }
    proof {
        lemma_response_bits(response@[0]);
    }
    let n = (response[0] >> 2) & 0x3;
    let mut data: Vec<u8> = Vec::new();
    let end: usize = 8 - (n as usize);
    let mut k: usize = 4;
    while k < end
        invariant
            4 <= k <= end <= 8,
            response@.len() == 8,
            data@ == response@.subrange(4, k as int),
        decreases end - k,
    {
        data.push(response[k]);
        proof {
            assert(data@ =~= response@.subrange(4, k + 1 as int));
        }
        k = k + 1;
    }
    match T::from_bytes(data.as_slice()) {
        Ok(v) => Ok(v),
        Err(ParseError) => Err(ProtocolError::ParseError),
    }
}

/// Parse the response to an expedited download of `(expected_index,
/// expected_subindex)`.
pub fn parse_download_response(
    response: &[u8],
    expected_index: u16,
    expected_subindex: u8,
) -> (r: Result<(), ProtocolError>)
    requires
        response@.len() == 8,
    ensures
        spec_response_css(response@) == RESPONSE_ABORTED ==> r == Err::<(), ProtocolError>(
            ProtocolError::Abort(spec_response_abort_code(response@)),
        ),
        spec_response_css(response@) == RESPONSE_DOWNLOAD ==> {
            let idx = u16_from_le(response@[1], response@[2]);
            &&& idx != expected_index ==> r == Err::<(), ProtocolError>(
                ProtocolError::IndexMismatch,
            )
            &&& idx == expected_index && response@[3] != expected_subindex ==> r == Err::<
                (),
                ProtocolError,
            >(ProtocolError::SubindexMismatch)
            &&& idx == expected_index && response@[3] == expected_subindex ==> r == Ok::<
                (),
                ProtocolError,
            >(())
        },
        spec_response_css(response@) != RESPONSE_ABORTED && spec_response_css(response@)
            != RESPONSE_DOWNLOAD ==> r == Err::<(), ProtocolError>(ProtocolError::ParseError),
{
    let css = response_css(response);
    if css == RESPONSE_ABORTED {
        return Err(ProtocolError::Abort(to_abort_code(response)));
    }
    if css != RESPONSE_DOWNLOAD {
        return Err(ProtocolError::ParseError);
    }
    check_response_index(response, expected_index, expected_subindex)
}

/// The payload of one upload segment: bytes 1 up to 8 minus the unused
/// count, with the no-more-data mark in bit 0.
pub open spec fn spec_segment_payload(response: Seq<u8>) -> Seq<u8> {
    response.subrange(1, 8 - ((response[0] >> 1) & 0x7))
}

/// Read the payload of one upload segment into `buf`, telling whether the
/// server marked it as the last one.
pub fn parse_segment_response<B: ReadInto>(response: &[u8], buf: &mut B) -> (r: Result<
    bool,
    ParseError,
>)
    requires
        response@.len() == 8,
    ensures
        r matches Ok(no_more) ==> no_more == (response@[0] & NO_MORE_DATA != 0),
{
    proof {
        lemma_response_bits(response@[0]);
    }
    let n = (response[0] >> 1) & 0x7;
    let end: usize = 8 - (n as usize);
    let mut data: Vec<u8> = Vec::new();
    let mut k: usize = 1;
    while k < end
        invariant
            1 <= k <= end <= 8,
            response@.len() == 8,
            data@ == response@.subrange(1, k as int),
        decreases end - k,
    {
        data.push(response[k]);
        proof {
            assert(data@ =~= response@.subrange(1, k + 1 as int));
        }
        k = k + 1;
    }
    match buf.read_into(data.as_slice()) {
        Ok(()) => Ok(response[0] & NO_MORE_DATA != 0),
        Err(ParseError) => Err(ParseError),
    }
}

/// The bit fields of a response command byte stay below their width.
proof fn lemma_response_bits(cmd: u8)
    by (bit_vector)
    ensures
        ((cmd >> 2) & 0x3) < 4,
        ((cmd >> 1) & 0x7) < 8,
{
}

impl SdoValue for bool {
    open spec fn sdo_bytes(self) -> Seq<u8> {
        seq![
            if self {
                1u8
            } else {
                0u8
            },
        ]
    }

    open spec fn sdo_decodable(bytes: Seq<u8>) -> bool {
        bytes.len() == 1 && (bytes[0] == 0 || bytes[0] == 1)
    }

    fn to_bytes(self) -> (r: Vec<u8>) {
        let r: Vec<u8> = vec![
            if self {
                1
            } else {
                0
            },
        ];
        proof {
            assert(r@ =~= self.sdo_bytes());
        }
        r
    }

    fn from_bytes(bytes: &[u8]) -> (r: Result<Self, ParseError>) {
        if bytes.len() != 1 {
            return Err(ParseError);
        }
        if bytes[0] == 0 {
            proof {
                assert(false.sdo_bytes() =~= bytes@);
            }
            Ok(false)
        } else if bytes[0] == 1 {
            proof {
                assert(true.sdo_bytes() =~= bytes@);
            }
            Ok(true)
        } else {
            Err(ParseError)
        }
    }
}

impl SdoValue for u8 {
    open spec fn sdo_bytes(self) -> Seq<u8> {
        seq![self]
    }

    open spec fn sdo_decodable(bytes: Seq<u8>) -> bool {
        bytes.len() == 1
    }

    fn to_bytes(self) -> (r: Vec<u8>) {
        let r: Vec<u8> = vec![self];
        proof {
            assert(r@ =~= self.sdo_bytes());
        }
        r
    }

    fn from_bytes(bytes: &[u8]) -> (r: Result<Self, ParseError>) {
        if bytes.len() != 1 {
            return Err(ParseError);
        }
        proof {
            assert(bytes@[0].sdo_bytes() =~= bytes@);
        }
        Ok(bytes[0])
    }
}

impl SdoValue for u16 {
    open spec fn sdo_bytes(self) -> Seq<u8> {
        crate::objectdictionary::datalink::le_bytes_u16(self)
    }

    open spec fn sdo_decodable(bytes: Seq<u8>) -> bool {
        bytes.len() == 2
    }

    fn to_bytes(self) -> (r: Vec<u8>) {
        let b = crate::objectdictionary::datalink::encode_u16_bytes(self);
        let r: Vec<u8> = vec![b[0], b[1]];
        proof {
            assert(r@ =~= self.sdo_bytes());
        }
        r
    }

    fn from_bytes(bytes: &[u8]) -> (r: Result<Self, ParseError>) {
        if bytes.len() != 2 {
            return Err(ParseError);
        }
        let v = crate::objectdictionary::datalink::decode_u16(bytes[0], bytes[1]);
        proof {
            crate::objectdictionary::datalink::lemma_u16_le_round(bytes@[0], bytes@[1]);
            assert(v.sdo_bytes() =~= bytes@);
        }
        Ok(v)
    }
}

impl SdoValue for u32 {
    open spec fn sdo_bytes(self) -> Seq<u8> {
        le_bytes_u32(self)
    }

    open spec fn sdo_decodable(bytes: Seq<u8>) -> bool {
        bytes.len() == 4
    }

    fn to_bytes(self) -> (r: Vec<u8>) {
        let b = crate::objectdictionary::datalink::encode_u32_bytes(self);
        let r: Vec<u8> = vec![b[0], b[1], b[2], b[3]];
        proof {
            assert(r@ =~= self.sdo_bytes());
        }
        r
    }

    fn from_bytes(bytes: &[u8]) -> (r: Result<Self, ParseError>) {
        if bytes.len() != 4 {
            return Err(ParseError);
        }
        let v = crate::objectdictionary::datalink::decode_u32(
            bytes[0],
            bytes[1],
            bytes[2],
            bytes[3],
        );
        proof {
            crate::objectdictionary::datalink::lemma_u32_le_round(bytes@[0], bytes@[1], bytes@[2], bytes@[3]);
            assert(v.sdo_bytes() =~= bytes@);
        }
        Ok(v)
    }
}

impl SdoValue for i8 {
    open spec fn sdo_bytes(self) -> Seq<u8> {
        seq![crate::objectdictionary::datalink::u8_rep_i8(self)]
    }

    open spec fn sdo_decodable(bytes: Seq<u8>) -> bool {
        bytes.len() == 1
    }

    fn to_bytes(self) -> (r: Vec<u8>) {
        let b: u8 = if self >= 0 {
            self as u8
        } else {
            ((self as i16) + 256) as u8
        };
        let r: Vec<u8> = vec![b];
        proof {
            assert(r@ =~= self.sdo_bytes());
        }
        r
    }

    fn from_bytes(bytes: &[u8]) -> (r: Result<Self, ParseError>) {
        if bytes.len() != 1 {
            return Err(ParseError);
        }
        let b = bytes[0];
        let v: i8 = if b < 128 {
            b as i8
        } else {
            ((b as i16) - 256) as i8
        };
        proof {
            crate::objectdictionary::datalink::lemma_i8_rep_round(b);
            assert(v.sdo_bytes() =~= bytes@);
        }
        Ok(v)
    }
}

impl SdoValue for i16 {
    open spec fn sdo_bytes(self) -> Seq<u8> {
        crate::objectdictionary::datalink::le_bytes_u16(
            crate::objectdictionary::datalink::u16_rep_i16(self),
        )
    }

    open spec fn sdo_decodable(bytes: Seq<u8>) -> bool {
        bytes.len() == 2
    }

    fn to_bytes(self) -> (r: Vec<u8>) {
        let u: u16 = if self >= 0 {
            self as u16
        } else {
            ((self as i32) + 0x1_0000) as u16
        };
        let b = crate::objectdictionary::datalink::encode_u16_bytes(u);
        let r: Vec<u8> = vec![b[0], b[1]];
        proof {
            assert(r@ =~= self.sdo_bytes());
        }
        r
    }

    fn from_bytes(bytes: &[u8]) -> (r: Result<Self, ParseError>) {
        if bytes.len() != 2 {
            return Err(ParseError);
        }
        let u = crate::objectdictionary::datalink::decode_u16(bytes[0], bytes[1]);
        let v: i16 = if u < 0x8000 {
            u as i16
        } else {
            ((u as i32) - 0x1_0000) as i16
        };
        proof {
            crate::objectdictionary::datalink::lemma_i16_rep_round(u);
            crate::objectdictionary::datalink::lemma_u16_le_round(bytes@[0], bytes@[1]);
            assert(v.sdo_bytes() =~= bytes@);
        }
        Ok(v)
    }
}

impl SdoValue for i32 {
    open spec fn sdo_bytes(self) -> Seq<u8> {
        crate::objectdictionary::datalink::le_bytes_u32(
            crate::objectdictionary::datalink::u32_rep_i32(self),
        )
    }

    open spec fn sdo_decodable(bytes: Seq<u8>) -> bool {
        bytes.len() == 4
    }

    fn to_bytes(self) -> (r: Vec<u8>) {
        let u: u32 = if self >= 0 {
            self as u32
        } else {
            ((self as i64) + 0x1_0000_0000) as u32
        };
        let b = crate::objectdictionary::datalink::encode_u32_bytes(u);
        let r: Vec<u8> = vec![b[0], b[1], b[2], b[3]];
        proof {
            assert(r@ =~= self.sdo_bytes());
        }
        r
    }

    fn from_bytes(bytes: &[u8]) -> (r: Result<Self, ParseError>) {
        if bytes.len() != 4 {
            return Err(ParseError);
        }
        let u = crate::objectdictionary::datalink::decode_u32(
            bytes[0],
            bytes[1],
            bytes[2],
            bytes[3],
        );
        let v: i32 = if u < 0x8000_0000 {
            u as i32
        } else {
            ((u as i64) - 0x1_0000_0000) as i32
        };
        proof {
            crate::objectdictionary::datalink::lemma_i32_rep_round(u);
            crate::objectdictionary::datalink::lemma_u32_le_round(
                bytes@[0],
                bytes@[1],
                bytes@[2],
                bytes@[3],
            );
            assert(v.sdo_bytes() =~= bytes@);
        }
        Ok(v)
    }
}

impl ReadInto for Vec<u8> {
    fn read_into(&mut self, buf: &[u8]) -> Result<(), ParseError> {
        let n = buf.len();
        let mut i: usize = 0;
        while i < n
            invariant
                i <= n,
                n == buf@.len(),
            decreases n - i,
        {
            self.push(buf[i]);
            i = i + 1;
        }
        Ok(())
    }
}

impl ReadInto for u8 {
    fn read_into(&mut self, buf: &[u8]) -> Result<(), ParseError> {
        match u8::from_bytes(buf) {
            Ok(v) => {
                *self = v;
                Ok(())
            },
            Err(ParseError) => Err(ParseError),
        }
    }
}

impl ReadInto for u16 {
    fn read_into(&mut self, buf: &[u8]) -> Result<(), ParseError> {
        match u16::from_bytes(buf) {
            Ok(v) => {
                *self = v;
                Ok(())
            },
            Err(ParseError) => Err(ParseError),
        }
    }
}

impl ReadInto for u32 {
    fn read_into(&mut self, buf: &[u8]) -> Result<(), ParseError> {
        match u32::from_bytes(buf) {
            Ok(v) => {
                *self = v;
                Ok(())
            },
            Err(ParseError) => Err(ParseError),
        }
    }
}

impl ReadInto for bool {
    fn read_into(&mut self, buf: &[u8]) -> Result<(), ParseError> {
        match bool::from_bytes(buf) {
            Ok(v) => {
                *self = v;
                Ok(())
            },
            Err(ParseError) => Err(ParseError),
        }
    }
}

impl ReadInto for i8 {
    fn read_into(&mut self, buf: &[u8]) -> Result<(), ParseError> {
        match i8::from_bytes(buf) {
            Ok(v) => {
                *self = v;
                Ok(())
            },
            Err(ParseError) => Err(ParseError),
        }
    }
}

impl ReadInto for i16 {
    fn read_into(&mut self, buf: &[u8]) -> Result<(), ParseError> {
        match i16::from_bytes(buf) {
            Ok(v) => {
                *self = v;
                Ok(())
            },
            Err(ParseError) => Err(ParseError),
        }
    }
}

impl ReadInto for i32 {
    fn read_into(&mut self, buf: &[u8]) -> Result<(), ParseError> {
        match i32::from_bytes(buf) {
            Ok(v) => {
                *self = v;
                Ok(())
            },
            Err(ParseError) => Err(ParseError),
        }
    }
}

} // verus!
