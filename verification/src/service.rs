//! The range checksum service: the single operation "compute the CRC-32 of a
//! byte range", composing the byte-range reader and the checksum engine.

use crate::checksum::{checksum, crc32_of};
use crate::range::{range_valid, read_range, resolved_length, spec_read_range, RangeError};
use vstd::prelude::*;

verus! {

/// What `compute_checksum` returns, as a function of the file's bytes and
/// the raw request: on a valid range, the CRC-32 of the resolved byte slice;
/// otherwise the range error.
pub open spec fn spec_compute_checksum(data: Seq<u8>, offset: int, length: int) -> Result<
    u32,
    RangeError,
> {
    if range_valid(offset, length, data.len() as int) {
        Ok(crc32_of(spec_read_range(data, offset, length)))
    } else {
        Err(RangeError::RangeExceedsFile)
    }
}

/// Compute the CRC-32 (ISO-HDLC) checksum of the requested byte range of
/// `data`. A zero `length` means "from `offset` to the end", but the bound
/// check uses the raw `length` as supplied; reading nothing — `length == 0`
/// at the very end of the data — succeeds with the checksum of the empty
/// sequence, which is zero.
pub fn compute_checksum(data: &Vec<u8>, offset: u64, length: u64) -> (r: Result<u32, RangeError>)
    ensures
        r == spec_compute_checksum(data@, offset as int, length as int),
        length == 0 && offset == data@.len() ==> r == Ok::<u32, RangeError>(0u32),
{
    match read_range(data, offset, length) {
        Ok(bytes) => Ok(checksum(bytes.as_slice())),
        Err(e) => Err(e),
    }
}

/// Law: asking for the rest of the file through the zero-length sentinel and
/// asking for it with the explicit remaining count give the same result, for
/// every store and every offset within it.
pub proof fn lemma_zero_length_round_trip(data: Seq<u8>, offset: u64)
    requires
        offset <= data.len(),
        data.len() <= u64::MAX,
    ensures
        spec_compute_checksum(data, offset as int, 0) == spec_compute_checksum(
            data,
            offset as int,
            data.len() - offset,
        ),
{
    assert(resolved_length(offset as int, 0, data.len() as int) == resolved_length(
        offset as int,
        data.len() - offset,
        data.len() as int,
    ));
}

} // verus!
