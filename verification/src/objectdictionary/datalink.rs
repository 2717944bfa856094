use vstd::prelude::*;

use crate::objectdictionary::od_cell::OdCell;
use crate::objectdictionary::object::ObjectInfo;
use crate::objectdictionary::ODError;
use crate::pdo::{tpdo_read_bytes, tpdo_write_post, CobIdUpdate, TPDO};

verus! {

// ---------------------------------------------------------------------------
// Little-endian byte encodings of the primitive slot types.
// ---------------------------------------------------------------------------
/// The two's-complement byte of an `i8`.
pub open spec fn u8_rep_i8(v: i8) -> u8 {
    if v >= 0 {
        v as u8
    } else {
        (v + 256) as u8
    }
}

/// The two's-complement 16-bit word of an `i16`.
pub open spec fn u16_rep_i16(v: i16) -> u16 {
    if v >= 0 {
        v as u16
    } else {
        (v + 0x1_0000) as u16
    }
}

/// The two's-complement 32-bit word of an `i32`.
pub open spec fn u32_rep_i32(v: i32) -> u32 {
    if v >= 0 {
        v as u32
    } else {
        (v + 0x1_0000_0000) as u32
    }
}

/// A `u16` as two little-endian bytes.
pub open spec fn le_bytes_u16(v: u16) -> Seq<u8> {
    seq![(v % 256) as u8, (v / 256) as u8]
}

/// A `u32` as four little-endian bytes.
pub open spec fn le_bytes_u32(v: u32) -> Seq<u8> {
    seq![
        (v % 256) as u8,
        ((v / 256) % 256) as u8,
        ((v / 0x1_0000) % 256) as u8,
        (v / 0x100_0000) as u8,
    ]
}

/// The `u16` denoted by two little-endian bytes.
pub open spec fn u16_from_le(b0: u8, b1: u8) -> u16 {
    (b0 + b1 * 256) as u16
}

/// The `u32` denoted by four little-endian bytes.
pub open spec fn u32_from_le(b0: u8, b1: u8, b2: u8, b3: u8) -> u32 {
    (b0 + b1 * 256 + b2 * 0x1_0000 + b3 * 0x100_0000) as u32
}

/// The `i8` whose two's-complement byte is `b`.
pub open spec fn i8_from_byte(b: u8) -> i8 {
    if b < 128 {
        b as i8
    } else {
        (b - 256) as i8
    }
}

/// The `i16` whose two's-complement word is `u`.
pub open spec fn i16_from_u16(u: u16) -> i16 {
    if u < 0x8000 {
        u as i16
    } else {
        (u - 0x1_0000) as i16
    }
}

/// The `i32` whose two's-complement word is `u`.
pub open spec fn i32_from_u32(u: u32) -> i32 {
    if u < 0x8000_0000 {
        u as i32
    } else {
        (u - 0x1_0000_0000) as i32
    }
}

// ---------------------------------------------------------------------------
// The value of a primitive slot.
// ---------------------------------------------------------------------------
/// The current value of a primitive (fixed-width) slot.
///
/// Reads return the value's little-endian bytes; writes accept exactly the
/// declared width and, for `Bool`, only the encodings 0 and 1.
#[derive(Clone, Copy, PartialEq, Eq, Structural, Debug)]
pub enum BasicValue {
    Bool(bool),
    U8(u8),
    I8(i8),
    U16(u16),
    I16(i16),
    U32(u32),
    I32(i32),
}

/// The byte width of a primitive slot.
pub open spec fn basic_width(v: BasicValue) -> int {
    match v {
        BasicValue::Bool(_) => 1,
        BasicValue::U8(_) => 1,
        BasicValue::I8(_) => 1,
        BasicValue::U16(_) => 2,
        BasicValue::I16(_) => 2,
        BasicValue::U32(_) => 4,
        BasicValue::I32(_) => 4,
    }
}

/// The little-endian bytes a read of a primitive slot returns.
pub open spec fn basic_bytes(v: BasicValue) -> Seq<u8> {
    match v {
        BasicValue::Bool(b) => seq![if b { 1u8 } else { 0u8 }],
        BasicValue::U8(x) => seq![x],
        BasicValue::I8(x) => seq![u8_rep_i8(x)],
        BasicValue::U16(x) => le_bytes_u16(x),
        BasicValue::I16(x) => le_bytes_u16(u16_rep_i16(x)),
        BasicValue::U32(x) => le_bytes_u32(x),
        BasicValue::I32(x) => le_bytes_u32(u32_rep_i32(x)),
    }
}

/// The outcome of writing `data` into a primitive slot holding `v`.
///
/// A write must be expedited (offset 0, last segment). The payload and, when
/// given, the promised total size must equal the declared width: shorter is
/// `TooShort`, longer is `TooLong`. A `Bool` additionally rejects bytes other
/// than 0 and 1 with `InvalidValue`. On success the slot holds the decoded
/// value.
pub open spec fn basic_write(
    v: BasicValue,
    data: Seq<u8>,
    offset: int,
    promised_size: Option<usize>,
    is_last_segment: bool,
) -> Result<BasicValue, ODError> {
    let w = basic_width(v);
    if offset != 0 {
        Err(ODError::TooLong)
    } else if !is_last_segment {
        Err(ODError::TooShort)
    } else if data.len() < w {
        Err(ODError::TooShort)
    } else if data.len() > w {
        Err(ODError::TooLong)
    } else if promised_size matches Some(s) && s < w {
        Err(ODError::TooShort)
    } else if promised_size matches Some(s) && s > w {
        Err(ODError::TooLong)
    } else {
        match v {
            BasicValue::Bool(_) => if data[0] == 0 {
                Ok(BasicValue::Bool(false))
            } else if data[0] == 1 {
                Ok(BasicValue::Bool(true))
            } else {
                Err(ODError::InvalidValue)
            },
            BasicValue::U8(_) => Ok(BasicValue::U8(data[0])),
            BasicValue::I8(_) => Ok(BasicValue::I8(i8_from_byte(data[0]))),
            BasicValue::U16(_) => Ok(BasicValue::U16(u16_from_le(data[0], data[1]))),
            BasicValue::I16(_) => Ok(
                BasicValue::I16(i16_from_u16(u16_from_le(data[0], data[1]))),
            ),
            BasicValue::U32(_) => Ok(
                BasicValue::U32(u32_from_le(data[0], data[1], data[2], data[3])),
            ),
            BasicValue::I32(_) => Ok(
                BasicValue::I32(i32_from_u32(u32_from_le(data[0], data[1], data[2], data[3]))),
            ),
        }
    }
}

/// Re-encoding the `u16` read from two little-endian bytes gives the same
/// bytes back.
pub proof fn lemma_u16_le_round(b0: u8, b1: u8)
    by (bit_vector)
    ensures
        (b0 + b1 * 256) % 256 == b0,
        (b0 + b1 * 256) / 256 == b1,
{
}

/// Re-encoding the `u32` read from four little-endian bytes gives the same
/// bytes back.
pub proof fn lemma_u32_le_round(b0: u8, b1: u8, b2: u8, b3: u8)
    by (bit_vector)
    ensures
        (b0 + b1 * 256 + b2 * 0x1_0000 + b3 * 0x100_0000) % 256 == b0,
        ((b0 + b1 * 256 + b2 * 0x1_0000 + b3 * 0x100_0000) / 256) % 256 == b1,
        ((b0 + b1 * 256 + b2 * 0x1_0000 + b3 * 0x100_0000) / 0x1_0000) % 256 == b2,
        (b0 + b1 * 256 + b2 * 0x1_0000 + b3 * 0x100_0000) / 0x100_0000 == b3,
{
}

/// Re-encoding the `i8` read from a two's-complement byte gives the byte
/// back.
pub proof fn lemma_i8_rep_round(b: u8)
    ensures
        u8_rep_i8(i8_from_byte(b)) == b,
{
}

/// Re-encoding the `i16` read from a two's-complement word gives the word
/// back.
pub proof fn lemma_i16_rep_round(u: u16)
    ensures
        u16_rep_i16(i16_from_u16(u)) == u,
{
}

/// Re-encoding the `i32` read from a two's-complement word gives the word
/// back.
pub proof fn lemma_i32_rep_round(u: u32)
    ensures
        u32_rep_i32(i32_from_u32(u)) == u,
{
}

/// The primitive round-trip law: a write of width-exact little-endian
/// bytes that a primitive slot accepts stores a value whose read returns
/// exactly those bytes.
pub proof fn lemma_basic_round_trip(
    v: BasicValue,
    data: Seq<u8>,
    promised_size: Option<usize>,
    v2: BasicValue,
)
    requires
        basic_write(v, data, 0, promised_size, true) == Ok::<BasicValue, ODError>(v2),
    ensures
        basic_bytes(v2) == data,
{
    match v {
        BasicValue::Bool(_) => {
            assert(basic_bytes(v2) =~= data);
        },
        BasicValue::U8(_) => {
            assert(basic_bytes(v2) =~= data);
        },
        BasicValue::I8(_) => {
            assert(basic_bytes(v2) =~= data);
        },
        BasicValue::U16(_) => {
            lemma_u16_le_round(data[0], data[1]);
            assert(basic_bytes(v2) =~= data);
        },
        BasicValue::I16(_) => {
            lemma_u16_le_round(data[0], data[1]);
            assert(basic_bytes(v2) =~= data);
        },
        BasicValue::U32(_) => {
            lemma_u32_le_round(data[0], data[1], data[2], data[3]);
            assert(basic_bytes(v2) =~= data);
        },
        BasicValue::I32(_) => {
            lemma_u32_le_round(data[0], data[1], data[2], data[3]);
            assert(basic_bytes(v2) =~= data);
        },
    }
}

/// The download placement law: a chunk a byte-array slot accepts lands at
/// exactly its offset, and every byte outside the chunk keeps its value.
pub proof fn lemma_download_chunk_placement(c: OdCell<Vec<u8>>, d: WriteData, post: OdObject)
    requires
        object_write_post(OdObject::Bytes(c), d, None, post, Ok::<(), ODError>(())),
    ensures
        post matches OdObject::Bytes(c2) && c2.value@.len() == c.value@.len()
            && c2.value@.subrange(d.offset as int, d.offset + d.new_data@.len())
            == d.new_data@ && (forall|j: int|
            0 <= j < c.value@.len() && !(d.offset <= j < d.offset + d.new_data@.len())
                ==> c2.value@[j] == c.value@[j]),
{
    let c2 = post->Bytes_0;
    assert(c2.value@ == spliced(c.value@, d.new_data@, d.offset as int));
    assert(c2.value@.subrange(d.offset as int, d.offset + d.new_data@.len()) =~= d.new_data@);
    assert forall|j: int|
        0 <= j < c.value@.len() && !(d.offset <= j < d.offset + d.new_data@.len())
        implies c2.value@[j] == c.value@[j] by {}
}

impl BasicValue {
    /// Read the slot as its little-endian bytes, in the inline variant of
    /// the slot's width.
    pub fn read(&self) -> (r: ReadData)
        ensures
            r@ == basic_bytes(*self),
            match r {
                ReadData::B1(_) => basic_width(*self) == 1,
                ReadData::B2(_) => basic_width(*self) == 2,
                ReadData::B4(_) => basic_width(*self) == 4,
                ReadData::Bytes(_) => false,
            },
    {
        match *self {
            BasicValue::Bool(b) => ReadData::B1([if b { 1 } else { 0 }]),
            BasicValue::U8(x) => ReadData::B1([x]),
            BasicValue::I8(x) => ReadData::B1([encode_i8(x)]),
            BasicValue::U16(x) => ReadData::B2(encode_u16_bytes(x)),
            BasicValue::I16(x) => ReadData::B2(encode_u16_bytes(encode_i16(x))),
            BasicValue::U32(x) => ReadData::B4(encode_u32_bytes(x)),
            BasicValue::I32(x) => ReadData::B4(encode_u32_bytes(encode_i32(x))),
        }
    }

    /// Overwrite the slot from an SDO write; see [`basic_write`].
    pub fn write(&mut self, data: &WriteData) -> (r: Result<(), ODError>)
        ensures
            match basic_write(
                *old(self),
                data.new_data@,
                data.offset as int,
                data.promised_size,
                data.is_last_segment,
            ) {
                Ok(v) => r == Ok::<(), ODError>(()) && *final(self) == v,
                Err(e) => r == Err::<(), ODError>(e) && *final(self) == *old(self),
            },
    {
        let w: usize = match *self {
            BasicValue::Bool(_) => 1,
            BasicValue::U8(_) => 1,
            BasicValue::I8(_) => 1,
            BasicValue::U16(_) => 2,
            BasicValue::I16(_) => 2,
            BasicValue::U32(_) => 4,
            BasicValue::I32(_) => 4,
        };
        if data.offset != 0 {
            return Err(ODError::TooLong);
        }
        if !data.is_last_segment {
            return Err(ODError::TooShort);
        }
        check_size(data.new_data.len(), w)?;
        if let Some(s) = data.promised_size {
            check_size(s, w)?;
        }
        let d = &data.new_data;
        match *self {
            BasicValue::Bool(_) => {
                if d[0] == 0 {
                    *self = BasicValue::Bool(false);
                } else if d[0] == 1 {
                    *self = BasicValue::Bool(true);
                } else {
                    return Err(ODError::InvalidValue);
                }
            },
            BasicValue::U8(_) => {
                *self = BasicValue::U8(d[0]);
            },
            BasicValue::I8(_) => {
                *self = BasicValue::I8(decode_i8(d[0]));
            },
            BasicValue::U16(_) => {
                *self = BasicValue::U16(decode_u16(d[0], d[1]));
            },
            BasicValue::I16(_) => {
                *self = BasicValue::I16(decode_i16(decode_u16(d[0], d[1])));
            },
            BasicValue::U32(_) => {
                *self = BasicValue::U32(decode_u32(d[0], d[1], d[2], d[3]));
            },
            BasicValue::I32(_) => {
                *self = BasicValue::I32(decode_i32(decode_u32(d[0], d[1], d[2], d[3])));
            },
        }
        Ok(())
    }
}

/// Compare a payload length against the slot's declared width.
pub fn check_size(given: usize, expected: usize) -> (r: Result<(), ODError>)
    ensures
        given < expected ==> r == Err::<(), ODError>(ODError::TooShort),
        given > expected ==> r == Err::<(), ODError>(ODError::TooLong),
        given == expected ==> r == Ok::<(), ODError>(()),
{
    if given < expected {
        Err(ODError::TooShort)
    } else if given > expected {
        Err(ODError::TooLong)
    } else {
        Ok(())
    }
}

/// The common admission checks of a fixed-width value carried in one SDO
/// chunk: expedited shape and exact width `w`.
pub open spec fn spec_parse_err(d: WriteData, w: int) -> Option<ODError> {
    if d.offset != 0 {
        Some(ODError::TooLong)
    } else if !d.is_last_segment {
        Some(ODError::TooShort)
    } else if d.new_data@.len() < w {
        Some(ODError::TooShort)
    } else if d.new_data@.len() > w {
        Some(ODError::TooLong)
    } else if d.promised_size matches Some(s) && s < w {
        Some(ODError::TooShort)
    } else if d.promised_size matches Some(s) && s > w {
        Some(ODError::TooLong)
    } else {
        None
    }
}

/// The `u8` carried in one SDO chunk.
pub open spec fn spec_parse_u8(d: WriteData) -> Result<u8, ODError> {
    match spec_parse_err(d, 1) {
        Some(e) => Err(e),
        None => Ok(d.new_data@[0]),
    }
}

/// The little-endian `u16` carried in one SDO chunk.
pub open spec fn spec_parse_u16(d: WriteData) -> Result<u16, ODError> {
    match spec_parse_err(d, 2) {
        Some(e) => Err(e),
        None => Ok(u16_from_le(d.new_data@[0], d.new_data@[1])),
    }
}

/// The little-endian `u32` carried in one SDO chunk.
pub open spec fn spec_parse_u32(d: WriteData) -> Result<u32, ODError> {
    match spec_parse_err(d, 4) {
        Some(e) => Err(e),
        None => Ok(u32_from_le(d.new_data@[0], d.new_data@[1], d.new_data@[2], d.new_data@[3])),
    }
}

fn parse_checks(d: &WriteData, w: usize) -> (r: Result<(), ODError>)
    ensures
        match spec_parse_err(*d, w as int) {
            Some(e) => r == Err::<(), ODError>(e),
            None => r == Ok::<(), ODError>(()),
        },
{
    if d.offset != 0 {
        return Err(ODError::TooLong);
    }
    if !d.is_last_segment {
        return Err(ODError::TooShort);
    }
    check_size(d.new_data.len(), w)?;
    if let Some(s) = d.promised_size {
        check_size(s, w)?;
    }
    Ok(())
}

/// Take a `u8` out of one SDO chunk.
pub fn parse_u8(d: &WriteData) -> (r: Result<u8, ODError>)
    ensures
        r == spec_parse_u8(*d),
{
    parse_checks(d, 1)?;
    Ok(d.new_data[0])
}

/// Take a little-endian `u16` out of one SDO chunk.
pub fn parse_u16(d: &WriteData) -> (r: Result<u16, ODError>)
    ensures
        r == spec_parse_u16(*d),
{
    parse_checks(d, 2)?;
    Ok(decode_u16(d.new_data[0], d.new_data[1]))
}

/// Take a little-endian `u32` out of one SDO chunk.
pub fn parse_u32(d: &WriteData) -> (r: Result<u32, ODError>)
    ensures
        r == spec_parse_u32(*d),
{
    parse_checks(d, 4)?;
    Ok(decode_u32(d.new_data[0], d.new_data[1], d.new_data[2], d.new_data[3]))
}

/// Read the little-endian size field in bytes 4 to 7 of an 8-byte frame.
pub(crate) fn parse_size(request: &[u8]) -> (r: usize)
    requires
        request@.len() == 8,
    ensures
        r == u32_from_le(request@[4], request@[5], request@[6], request@[7]) as usize,
{
    decode_u32(request[4], request[5], request[6], request[7]) as usize
}

fn encode_i8(v: i8) -> (r: u8)
    ensures
        r == u8_rep_i8(v),
{
    if v >= 0 {
        v as u8
    } else {
        ((v as i16) + 256) as u8
    }
}

fn encode_i16(v: i16) -> (r: u16)
    ensures
        r == u16_rep_i16(v),
{
    if v >= 0 {
        v as u16
    } else {
        ((v as i32) + 0x1_0000) as u16
    }
}

fn encode_i32(v: i32) -> (r: u32)
    ensures
        r == u32_rep_i32(v),
{
    if v >= 0 {
        v as u32
    } else {
        ((v as i64) + 0x1_0000_0000) as u32
    }
}

pub(crate) fn encode_u16_bytes(v: u16) -> (r: [u8; 2])
    ensures
        r@ == le_bytes_u16(v),
{
    let r = [(v % 256) as u8, (v / 256) as u8];
    proof {
        assert(r@ =~= le_bytes_u16(v));
    }
    r
}

pub(crate) fn encode_u32_bytes(v: u32) -> (r: [u8; 4])
    ensures
        r@ == le_bytes_u32(v),
{
    let r = [(v % 256) as u8, ((v / 256) % 256) as u8, ((v / 0x1_0000) % 256) as u8, (v
        / 0x100_0000) as u8];
    proof {
        assert(r@ =~= le_bytes_u32(v));
    }
    r
}

pub(crate) fn decode_u16(b0: u8, b1: u8) -> (r: u16)
    ensures
        r == u16_from_le(b0, b1),
{
    (b0 as u16) + (b1 as u16) * 256
}

pub(crate) fn decode_u32(b0: u8, b1: u8, b2: u8, b3: u8) -> (r: u32)
    ensures
        r == u32_from_le(b0, b1, b2, b3),
{
    (b0 as u32) + (b1 as u32) * 256 + (b2 as u32) * 0x1_0000 + (b3 as u32) * 0x100_0000
}

fn decode_i8(b: u8) -> (r: i8)
    ensures
        r == i8_from_byte(b),
{
    if b < 128 {
        b as i8
    } else {
        ((b as i16) - 256) as i8
    }
}

fn decode_i16(u: u16) -> (r: i16)
    ensures
        r == i16_from_u16(u),
{
    if u < 0x8000 {
        u as i16
    } else {
        ((u as i32) - 0x1_0000) as i16
    }
}

fn decode_i32(u: u32) -> (r: i32)
    ensures
        r == i32_from_u32(u),
{
    if u < 0x8000_0000 {
        u as i32
    } else {
        ((u as i64) - 0x1_0000_0000) as i32
    }
}

// ---------------------------------------------------------------------------
// Read and write views.
// ---------------------------------------------------------------------------
/// The bytes a slot read produced: a 1, 2 or 4 byte inline value, or an
/// owned byte string.
pub enum ReadData {
    B1([u8; 1]),
    B2([u8; 2]),
    B4([u8; 4]),
    Bytes(Vec<u8>),
}

impl View for ReadData {
    type V = Seq<u8>;

    open spec fn view(&self) -> Seq<u8> {
        match self {
            ReadData::B1(a) => a@,
            ReadData::B2(a) => a@,
            ReadData::B4(a) => a@,
            ReadData::Bytes(v) => v@,
        }
    }
}

impl ReadData {
    /// The returned bytes, whatever the variant.
    pub fn as_bytes(&self) -> (r: &[u8])
        ensures
            r@ == self@,
    {
        match self {
            ReadData::B1(a) => a.as_slice(),
            ReadData::B2(a) => a.as_slice(),
            ReadData::B4(a) => a.as_slice(),
            ReadData::Bytes(v) => v.as_slice(),
        }
    }
}

/// One chunk of an SDO download.
///
/// An expedited transfer arrives as a single chunk with `offset == 0` and
/// `is_last_segment`; a segmented transfer arrives as a series of chunks
/// whose `offset` is the number of bytes already written.
pub struct WriteData {
    pub index: u16,
    pub subindex: u8,
    pub new_data: Vec<u8>,
    pub offset: usize,
    pub promised_size: Option<usize>,
    pub is_last_segment: bool,
}

/// How far a buffer write has progressed.
pub enum WriteStatus {
    InProgress { bytes_written: usize },
    Done { bytes_written: usize },
}

/// `buf` with `data` spliced in at `offset`.
pub open spec fn spliced(buf: Seq<u8>, data: Seq<u8>, offset: int) -> Seq<u8> {
    buf.subrange(0, offset).add(data).add(buf.subrange(offset + data.len(), buf.len() as int))
}

/// Whether a chunk fits a buffer of `buf_len` bytes: the promised total (if
/// any) and the chunk's end must both lie within the buffer.
pub open spec fn chunk_fits(d: WriteData, buf_len: int) -> Result<(), ODError> {
    if d.promised_size matches Some(p) && p > buf_len {
        Err(ODError::TooLong)
    } else if d.offset + d.new_data@.len() > buf_len {
        Err(ODError::TooLong)
    } else {
        Ok(())
    }
}

impl WriteData {
    /// A chunk at offset 0 opens a transfer.
    pub fn is_first_segment(&self) -> (r: bool)
        ensures
            r == (self.offset == 0),
    {
        self.offset == 0
    }

    /// Copy this chunk into a fixed-size buffer at `offset`.
    ///
    /// The buffer keeps its length; a chunk or a promised size that would
    /// reach past its end is refused whole with `TooLong`.
    pub fn write_into(&self, buf: &mut Vec<u8>) -> (r: Result<WriteStatus, ODError>)
        ensures
            match chunk_fits(*self, old(buf)@.len() as int) {
                Ok(()) => {
                    &&& final(buf)@ == spliced(old(buf)@, self.new_data@, self.offset as int)
                    &&& final(buf)@.len() == old(buf)@.len()
                    &&& r matches Ok(st) && (match st {
                        WriteStatus::Done { bytes_written } => self.is_last_segment
                            && bytes_written == self.offset + self.new_data@.len(),
                        WriteStatus::InProgress { bytes_written } => !self.is_last_segment
                            && bytes_written == self.offset + self.new_data@.len(),
                    })
                },
                Err(e) => r == Err::<WriteStatus, ODError>(e) && final(buf)@ == old(buf)@,
            },
    {
        if let Some(promised_size) = self.promised_size {
            if promised_size > buf.len() {
                return Err(ODError::TooLong);
            }
        }
        if self.offset > buf.len() || self.new_data.len() > buf.len() - self.offset {
            return Err(ODError::TooLong);
        }
        let n = self.new_data.len();
        let mut i: usize = 0;
        while i < n
            invariant
                i <= n,
                self.offset + n <= buf@.len(),
                self.offset + n <= usize::MAX,
                n == self.new_data@.len(),
                buf@.len() == old(buf)@.len(),
                forall|j: int| 0 <= j < i ==> buf@[self.offset + j] == self.new_data@[j],
                forall|j: int|
                    0 <= j < buf@.len() && !(self.offset <= j < self.offset + i) ==> buf@[j]
                        == old(buf)@[j],
            decreases n - i,
        {
            let b = self.new_data[i];
            buf[self.offset + i] = b;
            i = i + 1;
        }
        proof {
            assert(buf@ =~= spliced(old(buf)@, self.new_data@, self.offset as int));
        }
        let bytes_written = self.offset + n;
        if self.is_last_segment {
            Ok(WriteStatus::Done { bytes_written })
        } else {
            Ok(WriteStatus::InProgress { bytes_written })
        }
    }
}

// ---------------------------------------------------------------------------
// Whole-slot storage.
// ---------------------------------------------------------------------------
/// An array slot: subindex 0 reads as the element count, subindex `k` in
/// `1..=len` addresses element `k - 1`. The count is read-only.
pub struct OdArray {
    pub array: Vec<BasicValue>,
}

impl OdArray {
    /// At most 255 elements, so that the count fits the subindex-0 byte.
    pub open spec fn wf(self) -> bool {
        self.array@.len() <= 255
    }

    pub fn new(array: Vec<BasicValue>) -> (r: OdArray)
        ensures
            r.array == array,
    {
        OdArray { array }
    }
}

/// What a read of an array slot returns for a given subindex.
pub open spec fn array_read_bytes(a: OdArray, subindex: u8) -> Result<Seq<u8>, ODError> {
    if subindex == 0 {
        Ok(seq![a.array@.len() as u8])
    } else if subindex <= a.array@.len() {
        Ok(basic_bytes(a.array@[subindex - 1]))
    } else {
        Err(ODError::SubindexDoesNotExist)
    }
}

/// The storage of one Object Dictionary slot, with the dispatch by slot kind
/// that a directory lookup resolves to.
pub enum OdObject {
    /// A primitive value of fixed width.
    Basic(BasicValue),
    /// A writable byte array behind a transfer lock.
    Bytes(OdCell<Vec<u8>>),
    /// A read-only byte string.
    Str(Vec<u8>),
    /// An array of primitive values addressed by subindex.
    Array(OdArray),
    /// A TPDO whose communication and mapping records are addressable as
    /// dictionary slots.
    Tpdo(TPDO),
}

/// What a read of a slot returns.
pub open spec fn object_read_bytes(o: OdObject, index: u16, subindex: u8) -> Result<
    Seq<u8>,
    ODError,
> {
    match o {
        OdObject::Basic(v) => Ok(basic_bytes(v)),
        OdObject::Bytes(c) => Ok(c.value@),
        OdObject::Str(s) => Ok(s@),
        OdObject::Array(a) => array_read_bytes(a, subindex),
        OdObject::Tpdo(t) => tpdo_read_bytes(t, index, subindex),
    }
}

/// The effect of writing one SDO chunk into a slot.
///
/// Primitive slots follow [`basic_write`]. A byte string is read-only. An
/// array routes the chunk to the element its subindex names; its count
/// (subindex 0) is read-only. A byte-array slot follows the transfer-lock
/// discipline: the chunk at offset 0 takes the lock, a later chunk that
/// finds the lock lost aborts with `LocalControlError`, and the last chunk
/// releases it; the bytes are spliced in at the chunk's offset. A TPDO slot
/// follows [`tpdo_write_post`].
pub open spec fn object_write_post(
    pre: OdObject,
    d: WriteData,
    target: Option<ObjectInfo>,
    post: OdObject,
    r: Result<(), ODError>,
) -> bool {
    match pre {
        OdObject::Basic(v) => match basic_write(
            v,
            d.new_data@,
            d.offset as int,
            d.promised_size,
            d.is_last_segment,
        ) {
            Ok(v2) => r == Ok::<(), ODError>(()) && post == OdObject::Basic(v2),
            Err(e) => r == Err::<(), ODError>(e) && post == pre,
        },
        OdObject::Str(_) => r == Err::<(), ODError>(ODError::ReadOnlyError) && post == pre,
        OdObject::Array(a) => if d.subindex == 0 {
            r == Err::<(), ODError>(ODError::ReadOnlyError) && post == pre
        } else if d.subindex <= a.array@.len() {
            match basic_write(
                a.array@[d.subindex - 1],
                d.new_data@,
                d.offset as int,
                d.promised_size,
                d.is_last_segment,
            ) {
                Ok(v2) => r == Ok::<(), ODError>(()) && (post matches OdObject::Array(a2)
                    && a2.array@ == a.array@.update(d.subindex - 1, v2)),
                Err(e) => r == Err::<(), ODError>(e) && post == pre,
            }
        } else {
            r == Err::<(), ODError>(ODError::SubindexDoesNotExist) && post == pre
        },
        OdObject::Bytes(c) => {
            if d.offset != 0 && !c.locked {
                r == Err::<(), ODError>(ODError::LocalControlError) && post == pre
            } else {
                let locked2 = if d.is_last_segment {
                    false
                } else if d.offset == 0 {
                    true
                } else {
                    c.locked
                };
                match chunk_fits(d, c.value@.len() as int) {
                    Ok(()) => r == Ok::<(), ODError>(()) && (post matches OdObject::Bytes(c2)
                        && c2.value@ == spliced(c.value@, d.new_data@, d.offset as int)
                        && c2.locked == locked2),
                    Err(e) => r == Err::<(), ODError>(e) && (post matches OdObject::Bytes(c2)
                        && c2.value@ == c.value@ && c2.locked == locked2),
                }
            }
        },
        OdObject::Tpdo(t) => post matches OdObject::Tpdo(t2) && tpdo_write_post(
            t,
            d,
            target,
            t2,
            r,
        ),
    }
}

/// Agreement between an executable read result and its byte-level meaning.
pub open spec fn read_agrees(r: Result<ReadData, ODError>, m: Result<Seq<u8>, ODError>) -> bool {
    match r {
        Ok(rd) => m matches Ok(b) && rd@ == b,
        Err(e) => m == Err::<Seq<u8>, ODError>(e),
    }
}

impl OdObject {
    /// Slot-level size bounds: counts fit a byte, lengths fit a `u32`.
    pub open spec fn wf(self) -> bool {
        match self {
            OdObject::Basic(_) => true,
            OdObject::Bytes(c) => c.value@.len() <= 0xFFFF_FFFF,
            OdObject::Str(s) => s@.len() <= 0xFFFF_FFFF,
            OdObject::Array(a) => a.wf(),
            OdObject::Tpdo(t) => t.wf(),
        }
    }

    /// Read the slot; see [`object_read_bytes`].
    pub fn read(&self, index: u16, subindex: u8) -> (r: Result<ReadData, ODError>)
        requires
            self.wf(),
        ensures
            read_agrees(r, object_read_bytes(*self, index, subindex)),
    {
        match self {
            OdObject::Basic(v) => {
                let rd = v.read();
                proof {
                    assert(rd@ == basic_bytes(*v));
                    assert(object_read_bytes(*self, index, subindex) matches Ok(b) && b
                        == basic_bytes(*v));
                }
                Ok(rd)
            },
            OdObject::Bytes(c) => Ok(ReadData::Bytes(copy_bytes(&c.value))),
            OdObject::Str(s) => Ok(ReadData::Bytes(copy_bytes(s))),
            OdObject::Array(a) => {
                if subindex == 0 {
                    let rd = ReadData::B1([a.array.len() as u8]);
                    proof {
                        assert(rd@ =~= seq![a.array@.len() as u8]);
                    }
                    Ok(rd)
                } else if (subindex as usize) <= a.array.len() {
                    let rd = a.array[(subindex - 1) as usize].read();
                    proof {
                        assert(rd@ == basic_bytes(a.array@[subindex - 1]));
                    }
                    Ok(rd)
                } else {
                    Err(ODError::SubindexDoesNotExist)
                }
            },
            OdObject::Tpdo(t) => t.read(index, subindex),
        }
    }

    /// The lock a segmented transfer relies on; slots that cannot be mutated
    /// between segments count as held.
    pub open spec fn spec_transfer_locked(self) -> bool {
        match self {
            OdObject::Bytes(c) => c.locked,
            _ => true,
        }
    }

    /// Overwrite the slot from one SDO chunk; see [`object_write_post`].
    ///
    /// `target` and `policy` are only consulted by TPDO slots: `target` is
    /// the dictionary lookup of the object a mapping word names, `policy`
    /// the application's COB-ID gate.
    pub fn write<C: CobIdUpdate>(
        &mut self,
        data: &WriteData,
        target: Option<ObjectInfo>,
        policy: &mut C,
    ) -> (r: Result<(), ODError>)
        requires
            old(self).wf(),
        ensures
            final(self).wf(),
            object_write_post(*old(self), *data, target, *final(self), r),
    {
        match self {
            OdObject::Basic(v) => v.write(data),
            OdObject::Str(_) => Err(ODError::ReadOnlyError),
            OdObject::Array(a) => {
                if data.subindex == 0 {
                    Err(ODError::ReadOnlyError)
                } else if (data.subindex as usize) <= a.array.len() {
                    let k = (data.subindex - 1) as usize;
                    let mut v = a.array[k];
                    match v.write(data) {
                        Ok(()) => {
                            a.array[k] = v;
                            Ok(())
                        },
                        Err(e) => Err(e),
                    }
                } else {
                    Err(ODError::SubindexDoesNotExist)
                }
            },
            OdObject::Bytes(c) => {
                if data.offset == 0 {
                    c.lock();
                } else if !c.is_locked() {
                    return Err(ODError::LocalControlError);
                }
                if data.is_last_segment {
                    c.unlock();
                }
                let buf = c.get_mut_unchecked();
                match data.write_into(buf) {
                    Ok(_) => Ok(()),
                    Err(e) => Err(e),
                }
            },
            OdObject::Tpdo(t) => t.write(data, target, policy),
        }
    }

    /// Whether a segmented transfer may still trust this slot.
    pub fn transfer_locked(&self) -> (r: bool)
        ensures
            r == self.spec_transfer_locked(),
    {
        match self {
            OdObject::Bytes(c) => c.is_locked(),
            _ => true,
        }
    }

    /// Take the transfer lock ahead of a segmented upload.
    pub fn transfer_lock(&mut self)
        ensures
            match *old(self) {
                OdObject::Bytes(c) => *final(self) matches OdObject::Bytes(c2) && c2.value
                    == c.value && c2.locked,
                _ => *final(self) == *old(self),
            },
    {
        match self {
            OdObject::Bytes(c) => c.lock(),
            _ => {},
        }
    }

    /// Release the transfer lock after the last segment of an upload.
    pub fn transfer_unlock(&mut self)
        ensures
            match *old(self) {
                OdObject::Bytes(c) => *final(self) matches OdObject::Bytes(c2) && c2.value
                    == c.value && !c2.locked,
                _ => *final(self) == *old(self),
            },
    {
        match self {
            OdObject::Bytes(c) => c.unlock(),
            _ => {},
        }
    }
}

/// A copy of a byte vector.
pub(crate) fn copy_bytes(v: &Vec<u8>) -> (r: Vec<u8>)
    ensures
        r@ == v@,
{
    let mut r: Vec<u8> = Vec::new();
    let n = v.len();
    let mut i: usize = 0;
    while i < n
        invariant
            i <= n,
            n == v@.len(),
            r@ == v@.subrange(0, i as int),
        decreases n - i,
    {
        r.push(v[i]);
        proof {
            assert(r@ =~= v@.subrange(0, i + 1 as int));
        }
        i = i + 1;
    }
    proof {
        assert(r@ =~= v@);
    }
    r
}

} // verus!
