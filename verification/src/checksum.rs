//! The 32-bit cyclic redundancy check (ISO-HDLC variant) over a record's
//! type and payload bytes.

use vstd::prelude::*;

verus! {

/// The CRC-32 (ISO-HDLC variant) of a byte sequence. It is a deterministic
/// function of the bytes alone; its value is left unspecified here and is
/// computed by the `crc` crate.
pub uninterp spec fn crc32_of(bytes: Seq<u8>) -> u32;

/// Relies on `crc::Crc::<u32>::checksum` with the `CRC_32_ISO_HDLC` catalog
/// algorithm: a deterministic checksum of the input bytes alone.
#[verifier::external_body]
pub(crate) fn crc32_checksum(bytes: &[u8]) -> (r: u32)
    ensures
        r == crc32_of(bytes@),
{
    crc::Crc::<u32>::new(&crc::CRC_32_ISO_HDLC).checksum(bytes)
}

} // verus!
