//! The checksum engine: CRC-32 (ISO-HDLC) over a byte slice, supplied by the
//! `crc` crate behind a trusted wrapper.

use vstd::prelude::*;

verus! {

/// The CRC-32 (ISO-HDLC) value of a byte sequence: polynomial 0x04C11DB7,
/// reflected input and output, initial value 0xFFFFFFFF, final xor
/// 0xFFFFFFFF — the checksum used by zlib, gzip and PNG. The function is
/// left uninterpreted: the `crc` crate computes it, and contracts speak of
/// it by name.
pub uninterp spec fn crc32_of(bytes: Seq<u8>) -> u32;

/// Relies on crc's `Crc::<u32>::checksum` with `CRC_32_ISO_HDLC`: `new` and
/// `checksum` are `const fn`s whose result depends only on the input bytes
/// and the fixed algorithm parameters. On an empty input `checksum` returns
/// `init ^ xorout`, and `CRC_32_ISO_HDLC` has `init == xorout == 0xFFFFFFFF`
/// with `refin == refout`, so the result is zero.
#[verifier::external_body]
fn crc32_iso_hdlc(bytes: &[u8]) -> (r: u32)
    ensures
        r == crc32_of(bytes@),
        bytes@.len() == 0 ==> r == 0,
{
    crc::Crc::<u32>::new(&crc::CRC_32_ISO_HDLC).checksum(bytes)
}

/// CRC-32 (ISO-HDLC) of `bytes`. The result is a function of the byte
/// sequence alone — same bytes, same value, on every call — and is zero on
/// the empty sequence.
pub fn checksum(bytes: &[u8]) -> (r: u32)
    ensures
        r == crc32_of(bytes@),
        bytes@.len() == 0 ==> r == 0,
{
    crc32_iso_hdlc(bytes)
}

} // verus!
