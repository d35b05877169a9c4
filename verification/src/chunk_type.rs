//! The validated 4-byte chunk type tag and its derived per-byte properties.

use crate::text::utf8_to_string;
use vstd::prelude::*;
use vstd::string::StringSliceAdditionalSpecFns;
use vstd::utf8::decode_utf8;
use vstd::utf8::valid_utf8;

verus! {

/// The byte is an ASCII letter (`A`-`Z` or `a`-`z`).
pub open spec fn spec_is_alphabetic(b: u8) -> bool {
    spec_is_uppercase(b) || spec_is_lowercase(b)
}

/// The byte is an ASCII capital letter (`A`-`Z`).
pub open spec fn spec_is_uppercase(b: u8) -> bool {
    65 <= b && b <= 90
}

/// The byte is an ASCII small letter (`a`-`z`).
pub open spec fn spec_is_lowercase(b: u8) -> bool {
    97 <= b && b <= 122
}

/// Exactly four bytes, each an ASCII letter: the invariant of `ChunkType`.
pub open spec fn spec_valid_type_bytes(s: Seq<u8>) -> bool {
    s.len() == 4 && forall|i: int| 0 <= i < 4 ==> spec_is_alphabetic(#[trigger] s[i])
}

/// A validated chunk type tag: four bytes, each an ASCII letter.
///
/// Constructible only through the validating factories `try_from` and
/// `from_str`, so no instance ever holds a non-alphabetic byte.
#[derive(Debug, Clone, PartialEq, Eq)]
pub struct ChunkType {
    bytes: [u8; 4],
}

impl View for ChunkType {
    type V = Seq<u8>;

    closed spec fn view(&self) -> Seq<u8> {
        self.bytes@
    }
}

/// Why a candidate chunk type was rejected.
#[derive(Debug)]
pub enum ChunkTypeDecodeError {
    /// Some byte of the 4-byte candidate is not an ASCII letter; carries the
    /// offending bytes.
    InputNotAscii([u8; 4]),
    /// A textual candidate whose byte length is not 4; carries that length.
    LengthNot4(usize),
}

impl ChunkType {
    /// The type's invariant: all four bytes are ASCII letters.
    pub open spec fn wf(&self) -> bool {
        spec_valid_type_bytes(self@)
    }

    /// Valid bytes are the characters `A`-`Z` or `a`-`z`.
    fn is_valid_byte(byte: u8) -> (r: bool)
        ensures
            r == spec_is_alphabetic(byte),
    {
        (65 <= byte && byte <= 90) || (97 <= byte && byte <= 122)
    }

    /// All four stored bytes are the characters `A`-`Z` or `a`-`z`.
    fn is_valid_bytes(&self) -> (r: bool)
        ensures
            r == spec_valid_type_bytes(self@),
    {
        Self::is_valid_byte(self.bytes[0]) && Self::is_valid_byte(self.bytes[1])
            && Self::is_valid_byte(self.bytes[2]) && Self::is_valid_byte(self.bytes[3])
    }

    /// Returns the raw bytes of this chunk type, unchanged.
    pub fn bytes(&self) -> (r: [u8; 4])
        ensures
            r@ == self@,
    {
        self.bytes
    }

    /// All four bytes are letters and the reserved bit (case of the third
    /// byte) is valid. Always true of a constructed value with a valid
    /// reserved bit; kept as a query for defense in depth.
    pub fn is_valid(&self) -> (r: bool)
        ensures
            r == (spec_valid_type_bytes(self@) && spec_is_uppercase(self@[2])),
    {
        self.is_valid_bytes() && self.is_reserved_bit_valid()
    }

    /// The first byte is a capital letter: the chunk is critical.
    pub fn is_critical(&self) -> (r: bool)
        ensures
            r == spec_is_uppercase(self@[0]),
    {
        65 <= self.bytes[0] && self.bytes[0] <= 90
    }

    /// The second byte is a capital letter: the chunk is public.
    pub fn is_public(&self) -> (r: bool)
        ensures
            r == spec_is_uppercase(self@[1]),
    {
        65 <= self.bytes[1] && self.bytes[1] <= 90
    }

    /// The third byte is a capital letter: the reserved bit is valid.
    pub fn is_reserved_bit_valid(&self) -> (r: bool)
        ensures
            r == spec_is_uppercase(self@[2]),
    {
        65 <= self.bytes[2] && self.bytes[2] <= 90
    }

    /// The fourth byte is a small letter: the chunk is safe to copy.
    pub fn is_safe_to_copy(&self) -> (r: bool)
        ensures
            r == spec_is_lowercase(self@[3]),
    {
        97 <= self.bytes[3] && self.bytes[3] <= 122
    }

    /// Validating factory from four raw bytes: succeeds exactly when every
    /// byte is an ASCII letter, and then stores the input unchanged.
    pub fn try_from(bytes: [u8; 4]) -> (r: Result<ChunkType, ChunkTypeDecodeError>)
        ensures
            match r {
                Ok(t) => spec_valid_type_bytes(bytes@) && t@ == bytes@ && t.wf(),
                Err(e) => !spec_valid_type_bytes(bytes@) && e
                    == (ChunkTypeDecodeError::InputNotAscii(bytes)),
            },
    {
        let c = Self { bytes };
        if !c.is_valid_bytes() {
            Err(ChunkTypeDecodeError::InputNotAscii(bytes))
        } else {
            Ok(c)
        }
    }

    /// Validating factory from text: rejects any text whose byte length is
    /// not 4 (raw byte length, not character count), then validates the
    /// bytes as `try_from` does.
    pub fn from_str(s: &str) -> (r: Result<ChunkType, ChunkTypeDecodeError>)
        ensures
            match r {
                Ok(t) => spec_valid_type_bytes(s.spec_bytes()) && t@ == s.spec_bytes() && t.wf(),
                Err(e) => match e {
                    ChunkTypeDecodeError::LengthNot4(n) => s.spec_bytes().len() != 4 && n as int
                        == s.spec_bytes().len() as int,
                    ChunkTypeDecodeError::InputNotAscii(b) => s.spec_bytes().len() == 4 && b@
                        == s.spec_bytes() && !spec_valid_type_bytes(s.spec_bytes()),
                },
            },
    {
        let b: &[u8] = s.as_bytes();
        if b.len() != 4 {
            return Err(ChunkTypeDecodeError::LengthNot4(b.len()));
        }
        let arr: [u8; 4] = [b[0], b[1], b[2], b[3]];
        proof {
            assert(arr@ =~= b@);
        }
        Self::try_from(arr)
    }

    /// Renders the four bytes as text. The contract surfaces the case of
    /// bytes that are not valid UTF-8 rather than substituting data, and
    /// also says that the case never arises for a well-formed value: four
    /// ASCII letters are always text.
    pub fn to_text(&self) -> (r: Option<String>)
        ensures
            match r {
                Some(s) => valid_utf8(self@) && s@ == decode_utf8(self@),
                None => !valid_utf8(self@),
            },
            self.wf() ==> r is Some,
    {
        proof {
            if self.wf() {
                lemma_valid_type_bytes_are_text(self@);
            }
        }
        let bytes = self.bytes();
        utf8_to_string(bytes.as_slice())
    }
}

/// Four ASCII letters are valid UTF-8: a well-formed chunk type always
/// renders as text.
pub proof fn lemma_valid_type_bytes_are_text(t: Seq<u8>)
    requires
        spec_valid_type_bytes(t),
    ensures
        valid_utf8(t),
{
    assert(valid_utf8(t.subrange(0, 0)));
    vstd::utf8::partial_valid_utf8_extend_ascii_block(t, 0, 4);
    assert(t.subrange(0, 4) =~= t);
}

} // verus!
