//! A single length-prefixed, checksummed record: in-memory construction,
//! serialization to the wire form, strict decoding from bytes, and the
//! streaming decoder that walks a buffer of concatenated records.

use crate::checksum::crc32_checksum;
use crate::checksum::crc32_of;
use crate::chunk_type::spec_valid_type_bytes;
use crate::chunk_type::ChunkType;
use crate::chunk_type::ChunkTypeDecodeError;
use crate::text::utf8_to_string;
use crate::wire::lemma_u32_be_round_trip;
use crate::wire::spec_u32_from_be_bytes;
use crate::wire::spec_u32_to_be_bytes;
use crate::wire::u32_from_be_bytes;
use crate::wire::u32_to_be_bytes;
use vstd::prelude::*;
use vstd::slice::slice_to_vec;
use vstd::utf8::decode_utf8;
use vstd::utf8::valid_utf8;

verus! {

/// The largest payload length the 4-byte declared-length field may carry:
/// the signed 32-bit maximum.
pub const MAX_LEN: usize = 0x7FFF_FFFF;

/// The smallest possible record: 4 length bytes, 4 type bytes, 4 checksum
/// bytes, and an empty payload.
pub const MIN_CHUNK_SIZE: usize = 12;

/// Why a candidate record slice was rejected.
#[derive(Debug)]
pub enum ChunkDecodeError {
    /// The slice is shorter than the 12-byte minimum (or, from the streaming
    /// decoder, the buffer is shorter than the declared record size);
    /// carries the actual size.
    InvalidChunkSize(usize),
    /// The candidate payload is longer than the declared-length field can
    /// represent; carries that length.
    DataExceedMaximumLength(usize),
    /// The declared length field disagrees with the actual payload size.
    LengthMismatch { data_length: usize, given_length: usize },
    /// The checksum computed over type and payload disagrees with the
    /// trailing four bytes; carries both values.
    CrcMismatch { expected_crc: u32, given_crc: u32 },
    /// The four type bytes do not form a valid chunk type.
    ChunkTypeDecode(ChunkTypeDecodeError),
}

/// The payload was requested as text but is not valid UTF-8.
#[derive(Debug)]
pub struct PayloadNotText;

/// A validated record: a chunk type and a payload of at most `MAX_LEN`
/// bytes. The wire checksum is always recomputed from these two fields and
/// never stored.
#[derive(Debug, Clone)]
pub struct Chunk {
    chunk_type: ChunkType,
    data: Vec<u8>,
}

/// The wire form of a record: declared length (4 bytes, big-endian), the 4
/// type bytes, the payload, and the CRC-32 of type and payload (4 bytes,
/// big-endian).
pub open spec fn spec_serialize(t: Seq<u8>, d: Seq<u8>) -> Seq<u8>
    recommends
        t.len() == 4,
        d.len() <= MAX_LEN,
{
    spec_u32_to_be_bytes(d.len() as u32) + t + d + spec_u32_to_be_bytes(crc32_of(t + d))
}

/// The type and payload bytes a strict decode of `bytes` yields, or `None`
/// if any of the five checks (size, payload maximum, declared length, type
/// validity, checksum) fails.
pub open spec fn spec_decode_ok(bytes: Seq<u8>) -> Option<(Seq<u8>, Seq<u8>)> {
    let n = bytes.len() as int;
    if n < 12 {
        None
    } else {
        let declared = spec_u32_from_be_bytes(bytes.subrange(0, 4));
        let t = bytes.subrange(4, 8);
        let d = bytes.subrange(8, n - 4);
        let given = spec_u32_from_be_bytes(bytes.subrange(n - 4, n));
        if n - 12 <= MAX_LEN && n - 12 == declared as int && spec_valid_type_bytes(t) && given
            == crc32_of(t + d) {
            Some((t, d))
        } else {
            None
        }
    }
}

/// Which error a strict decode of `bytes` reports, and with which carried
/// values. The checks are ordered: size, then payload maximum, then declared
/// length, then type validity, then checksum.
pub open spec fn spec_decode_err(bytes: Seq<u8>, e: ChunkDecodeError) -> bool {
    let n = bytes.len() as int;
    match e {
        ChunkDecodeError::InvalidChunkSize(sz) => n < 12 && sz as int == n,
        ChunkDecodeError::DataExceedMaximumLength(l) => n >= 12 && l as int == n - 12 && n - 12
            > MAX_LEN,
        ChunkDecodeError::LengthMismatch { data_length, given_length } => n >= 12 && n - 12
            <= MAX_LEN && data_length as int == n - 12 && given_length as int
            == spec_u32_from_be_bytes(bytes.subrange(0, 4)) as int && n - 12
            != spec_u32_from_be_bytes(bytes.subrange(0, 4)) as int,
        ChunkDecodeError::ChunkTypeDecode(te) => n >= 12 && n - 12 <= MAX_LEN && n - 12
            == spec_u32_from_be_bytes(bytes.subrange(0, 4)) as int && !spec_valid_type_bytes(
            bytes.subrange(4, 8),
        ) && (te matches ChunkTypeDecodeError::InputNotAscii(b) && b@ == bytes.subrange(4, 8)),
        ChunkDecodeError::CrcMismatch { expected_crc, given_crc } => n >= 12 && n - 12 <= MAX_LEN
            && n - 12 == spec_u32_from_be_bytes(bytes.subrange(0, 4)) as int
            && spec_valid_type_bytes(bytes.subrange(4, 8)) && expected_crc == crc32_of(
            bytes.subrange(4, 8) + bytes.subrange(8, n - 4),
        ) && given_crc == spec_u32_from_be_bytes(bytes.subrange(n - 4, n)) && expected_crc
            != given_crc,
    }
}

/// Extracts an array of fixed size 4 from a 4-byte slice.
fn segment4(bytes: &[u8]) -> (r: [u8; 4])
    requires
        bytes@.len() == 4,
    ensures
        r@ == bytes@,
{
    let r = [bytes[0], bytes[1], bytes[2], bytes[3]];
    proof {
        assert(r@ =~= bytes@);
    }
    r
}

impl Chunk {
    /// The record's invariant: a valid type tag and a payload that fits the
    /// declared-length field.
    pub open spec fn wf(&self) -> bool {
        spec_valid_type_bytes(self.spec_type_bytes()) && self.spec_data().len() <= MAX_LEN
    }

    /// The four type-tag bytes of this record.
    pub closed spec fn spec_type_bytes(&self) -> Seq<u8> {
        self.chunk_type@
    }

    /// The payload bytes of this record.
    pub closed spec fn spec_data(&self) -> Seq<u8> {
        self.data@
    }

    /// In-memory construction from a type and a payload. A payload longer
    /// than `MAX_LEN` is a caller bug: the format cannot represent it, so
    /// the precondition excludes it.
    pub fn new(chunk_type: ChunkType, data: Vec<u8>) -> (c: Chunk)
        requires
            chunk_type.wf(),
            data@.len() <= MAX_LEN,
        ensures
            c.spec_type_bytes() == chunk_type@,
            c.spec_data() == data@,
            c.wf(),
    {
        Chunk { chunk_type, data }
    }

    /// The length of the payload portion of this record, as the wire's
    /// unsigned 32-bit value.
    pub fn length(&self) -> (n: u32)
        requires
            self.wf(),
        ensures
            n as int == self.spec_data().len() as int,
    {
        self.data.len() as u32
    }

    /// The chunk type of this record.
    pub fn chunk_type(&self) -> (t: &ChunkType)
        ensures
            t@ == self.spec_type_bytes(),
    {
        &self.chunk_type
    }

    /// The raw payload bytes of this record.
    pub fn data(&self) -> (d: &[u8])
        ensures
            d@ == self.spec_data(),
    {
        self.data.as_slice()
    }

    /// The checksum of this record: the CRC-32 of the four type bytes
    /// followed by the payload, recomputed on demand.
    pub fn crc(&self) -> (c: u32)
        ensures
            c == crc32_of(self.spec_type_bytes() + self.spec_data()),
    {
        let tb = self.chunk_type.bytes();
        let mut v: Vec<u8> = Vec::new();
        v.push(tb[0]);
        v.push(tb[1]);
        v.push(tb[2]);
        v.push(tb[3]);
        proof {
            assert(v@ =~= self.spec_type_bytes() + self.spec_data().subrange(0, 0));
        }
        let mut i: usize = 0;
        while i < self.data.len()
            invariant
                i <= self.data@.len(),
                v@ == self.spec_type_bytes() + self.spec_data().subrange(0, i as int),
            decreases self.data@.len() - i,
        {
            v.push(self.data[i]);
            proof {
                assert(v@ =~= self.spec_type_bytes() + self.spec_data().subrange(0, i + 1));
            }
            i += 1;
        }
        proof {
            assert(v@ =~= self.spec_type_bytes() + self.spec_data());
        }
        crc32_checksum(v.as_slice())
    }

    /// The payload interpreted as UTF-8 text; fails if and only if the
    /// stored bytes are not valid UTF-8.
    pub fn data_as_string(&self) -> (r: Result<String, PayloadNotText>)
        ensures
            match r {
                Ok(s) => valid_utf8(self.spec_data()) && s@ == decode_utf8(self.spec_data()),
                Err(_) => !valid_utf8(self.spec_data()),
            },
    {
        match utf8_to_string(self.data.as_slice()) {
            Some(s) => Ok(s),
            None => Err(PayloadNotText),
        }
    }

    /// Serializes this record to its wire form: declared length, type
    /// bytes, payload, and checksum, in that order.
    pub fn as_bytes(&self) -> (out: Vec<u8>)
        requires
            self.wf(),
        ensures
            out@ == spec_serialize(self.spec_type_bytes(), self.spec_data()),
    {
        let mut out = u32_to_be_bytes(self.length());
        let tb = self.chunk_type.bytes();
        out.push(tb[0]);
        out.push(tb[1]);
        out.push(tb[2]);
        out.push(tb[3]);
        proof {
            assert(out@ =~= spec_u32_to_be_bytes(self.spec_data().len() as u32)
                + self.spec_type_bytes() + self.spec_data().subrange(0, 0));
        }
        let mut i: usize = 0;
        while i < self.data.len()
            invariant
                i <= self.data@.len(),
                out@ == spec_u32_to_be_bytes(self.spec_data().len() as u32)
                    + self.spec_type_bytes() + self.spec_data().subrange(0, i as int),
            decreases self.data@.len() - i,
        {
            out.push(self.data[i]);
            proof {
                assert(out@ =~= spec_u32_to_be_bytes(self.spec_data().len() as u32)
                    + self.spec_type_bytes() + self.spec_data().subrange(0, i + 1));
            }
            i += 1;
        }
        let c = self.crc();
        let mut tail = u32_to_be_bytes(c);
        out.append(&mut tail);
        proof {
            assert(out@ =~= spec_serialize(self.spec_type_bytes(), self.spec_data()));
        }
        out
    }

    /// Strict decode of one complete record from a byte slice. The five
    /// checks run in order (slice size, payload maximum, declared length,
    /// type validity, checksum); the result, success or error, is exactly
    /// what `spec_decode_ok` and `spec_decode_err` state of the input bytes.
    pub fn try_from(bytes: &[u8]) -> (r: Result<Chunk, ChunkDecodeError>)
        ensures
            match r {
                Ok(c) => c.wf() && spec_decode_ok(bytes@) == Some(
                    (c.spec_type_bytes(), c.spec_data()),
                ),
                Err(e) => spec_decode_ok(bytes@) is None && spec_decode_err(bytes@, e),
            },
    {
        let size = bytes.len();
        if size < MIN_CHUNK_SIZE {
            return Err(ChunkDecodeError::InvalidChunkSize(size));
        }
        let declared = u32_from_be_bytes(&bytes[0..4]);
        let data_len = size - 12;
        if data_len > MAX_LEN {
            return Err(ChunkDecodeError::DataExceedMaximumLength(data_len));
        }
        if data_len != declared as usize {
            return Err(
                ChunkDecodeError::LengthMismatch {
                    data_length: data_len,
                    given_length: declared as usize,
                },
            );
        }
        let type_arr = segment4(&bytes[4..8]);
        let chunk_type = match ChunkType::try_from(type_arr) {
            Ok(t) => t,
            Err(e) => return Err(ChunkDecodeError::ChunkTypeDecode(e)),
        };
        let data: Vec<u8> = slice_to_vec(&bytes[8..size - 4]);
        let chunk = Chunk { chunk_type, data };
        let expected_crc = chunk.crc();
        let given_crc = u32_from_be_bytes(&bytes[size - 4..size]);
        if expected_crc != given_crc {
            return Err(ChunkDecodeError::CrcMismatch { expected_crc, given_crc });
        }
        Ok(chunk)
    }
}

/// Round trip: strictly decoding the serialized wire form of any valid type
/// tag and any payload that fits the length field yields exactly that type
/// and payload (and so an identical checksum).
pub proof fn lemma_round_trip(t: Seq<u8>, d: Seq<u8>)
    requires
        spec_valid_type_bytes(t),
        d.len() <= MAX_LEN,
    ensures
        spec_decode_ok(spec_serialize(t, d)) == Some((t, d)),
{
    let bytes = spec_serialize(t, d);
    assert(bytes.len() == 12 + d.len());
    lemma_u32_be_round_trip(d.len() as u32);
    lemma_u32_be_round_trip(crc32_of(t + d));
    let n = bytes.len() as int;
    assert(bytes.subrange(0, 4) =~= spec_u32_to_be_bytes(d.len() as u32));
    assert(bytes.subrange(4, 8) =~= t);
    assert(bytes.subrange(8, n - 4) =~= d);
    assert(bytes.subrange(n - 4, n) =~= spec_u32_to_be_bytes(crc32_of(t + d)));
}

/// Where the record at the head of `rem` declares its end: 12 bytes of
/// framing plus the payload length read from the first four bytes.
pub open spec fn spec_frame_end(rem: Seq<u8>) -> int
    recommends
        rem.len() >= 4,
{
    12 + spec_u32_from_be_bytes(rem.subrange(0, 4)) as int
}

/// A sequential decoder over a caller-owned byte buffer. It yields one
/// record per request, splitting the buffer by each record's declared
/// length; the first corrupt record latches the decoder, which from then on
/// reports exhaustion forever.
#[derive(Debug)]
pub struct ChunkIter<'a> {
    cur: &'a [u8],
    corrupted: bool,
}

impl<'a> ChunkIter<'a> {
    /// The bytes not yet consumed.
    pub closed spec fn remaining(&self) -> Seq<u8> {
        self.cur@
    }

    /// The one-way latch: set when a record failed to decode.
    pub closed spec fn is_corrupted(&self) -> bool {
        self.corrupted
    }

    /// Starts a decoder at the beginning of `cur`, with the latch clear.
    pub fn new(cur: &'a [u8]) -> (it: ChunkIter<'a>)
        ensures
            it.remaining() == cur@,
            !it.is_corrupted(),
    {
        ChunkIter { cur, corrupted: false }
    }

    /// Produces the next item: a record, the error that latched the
    /// decoder, or `None` for exhaustion (an empty buffer or a latched
    /// decoder — the two are indistinguishable afterwards). On success the
    /// cursor moves past the record; if the buffer is shorter than the
    /// declared record size, the decoder latches with `InvalidChunkSize`
    /// carrying the remaining length, and the trailing bytes are never
    /// examined.
    pub fn next(&mut self) -> (r: Option<Result<Chunk, ChunkDecodeError>>)
        ensures
            match r {
                None => {
                    &&& old(self).is_corrupted() || old(self).remaining().len() == 0
                    &&& final(self).remaining() == old(self).remaining()
                    &&& final(self).is_corrupted() == old(self).is_corrupted()
                },
                Some(item) => !old(self).is_corrupted() && old(self).remaining().len() > 0 && ({
                    let rem = old(self).remaining();
                    if rem.len() >= 4 && rem.len() >= spec_frame_end(rem) {
                        let end = spec_frame_end(rem);
                        &&& final(self).remaining() == rem.skip(end)
                        &&& match item {
                            Ok(c) => !final(self).is_corrupted() && c.wf() && spec_decode_ok(
                                rem.take(end),
                            ) == Some((c.spec_type_bytes(), c.spec_data())),
                            Err(e) => final(self).is_corrupted() && spec_decode_ok(rem.take(end))
                                is None && spec_decode_err(rem.take(end), e),
                        }
                    } else {
                        &&& final(self).is_corrupted()
                        &&& final(self).remaining() == rem
                        &&& (item matches Err(ChunkDecodeError::InvalidChunkSize(sz)) && sz as int
                            == rem.len() as int)
                    }
                }),
            },
    {
        if self.corrupted || self.cur.len() == 0 {
            return None;
        }
        let cur = self.cur;
        let n = cur.len();
        if n < 4 {
            self.corrupted = true;
            return Some(Err(ChunkDecodeError::InvalidChunkSize(n)));
        }
        let declared = u32_from_be_bytes(&cur[0..4]);
        let end64: u64 = 12u64 + declared as u64;
        if (n as u64) < end64 {
            self.corrupted = true;
            return Some(Err(ChunkDecodeError::InvalidChunkSize(n)));
        }
        let end = end64 as usize;
        let bytes: &'a [u8] = &cur[0..end];
        self.cur = &cur[end..n];
        proof {
            assert(bytes@ =~= cur@.take(end as int));
            assert(self.cur@ =~= cur@.skip(end as int));
        }
        match Chunk::try_from(bytes) {
            Ok(c) => Some(Ok(c)),
            Err(e) => {
                self.corrupted = true;
                Some(Err(e))
            },
        }
    }
}

} // verus!
