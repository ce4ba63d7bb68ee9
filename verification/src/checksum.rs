//! Checksums of the framed control protocol.
//!
//! The envelope carries a CRC-16 over the header bytes and a CRC-32 over the
//! whole frame up to the checksum itself.  Both are computed by outside
//! crates; the library names their results and states nothing further about
//! the checksum mathematics.

use vstd::prelude::*;

verus! {

/// What the MCRF4XX CRC-16 with the protocol's initial value returns for a
/// byte sequence.
pub uninterp spec fn crc16_of(data: Seq<u8>) -> u16;

/// What the IEEE CRC-32 with the protocol's initial value returns for a byte
/// sequence.
pub uninterp spec fn crc32_of(data: Seq<u8>) -> u32;

/// Initial value of the header CRC-16.
pub const CRC16_INIT: u16 = 0x9232;

/// Initial value of the frame CRC-32.
pub const CRC32_INIT: u32 = 0x564f580a;

/// Relies on `crc::Crc::<u16>::digest_with_initial` with the
/// `CRC_16_MCRF4XX` algorithm and initial value 0x9232: the result is a
/// function of the input bytes alone.
#[verifier::external_body]
pub(crate) fn crc16_mcrf4xx(data: &[u8]) -> (r: u16)
    ensures
        r == crc16_of(data@),
{
    let crc = crc::Crc::<u16>::new(&crc::CRC_16_MCRF4XX);
    let mut digest = crc.digest_with_initial(CRC16_INIT);
    digest.update(data);
    digest.finalize()
}

/// Relies on `crc32fast::Hasher::new_with_initial` with initial value
/// 0x564f580a: the result is a function of the input bytes alone.
#[verifier::external_body]
pub(crate) fn crc32_frame(data: &[u8]) -> (r: u32)
    ensures
        r == crc32_of(data@),
{
    let mut hasher = crc32fast::Hasher::new_with_initial(CRC32_INIT);
    hasher.update(data);
    hasher.finalize()
}

} // verus!
