//! The byte-range reader: validating a requested `(offset, length)` pair
//! against a file's total size, resolving the zero-length sentinel, and
//! extracting the range from a byte store.

use vstd::prelude::*;

verus! {

/// Why a range checksum request failed.
#[derive(Debug)]
pub enum RangeError {
    /// The file could not be opened for reading; carries the operating
    /// system's error text verbatim.
    OpenFailed(String),
    /// The requested span `offset + length` (with `length` exactly as
    /// supplied, before the zero-sentinel substitution) reaches past the end
    /// of the file.
    RangeExceedsFile,
    /// The file was opened and the range was valid, but seeking or reading
    /// failed mid-way; carries the underlying I/O error text.
    ReadFailed(String),
}

impl RangeError {
    /// The human-readable description of the failure.
    pub open spec fn message_spec(self) -> Seq<char> {
        match self {
            RangeError::OpenFailed(m) => m@,
            RangeError::RangeExceedsFile => "offset + length > filesize"@,
            RangeError::ReadFailed(m) => m@,
        }
    }

    /// The human-readable description of the failure, for printing to an
    /// error stream.
    pub fn message(&self) -> (r: &str)
        ensures
            r@ == self.message_spec(),
    {
        match self {
            RangeError::OpenFailed(m) => m.as_str(),
            RangeError::RangeExceedsFile => "offset + length > filesize",
            RangeError::ReadFailed(m) => m.as_str(),
        }
    }
}

/// A requested range is within bounds when the raw span `offset + length`
/// fits in the file. The check uses `length` exactly as supplied: a zero
/// `length` is checked as zero, so it only requires `offset <= total_size`.
pub open spec fn range_valid(offset: int, length: int, total_size: int) -> bool {
    offset + length <= total_size
}

/// The byte count actually read for a valid request: a zero `length` means
/// "from `offset` to the end of the file".
pub open spec fn resolved_length(offset: int, length: int, total_size: int) -> int {
    if length == 0 {
        total_size - offset
    } else {
        length
    }
}

/// Validate a requested range against the file's total size, and resolve the
/// zero-length sentinel into the count of bytes to read.
pub fn resolve_range(offset: u64, length: u64, total_size: u64) -> (r: Result<u64, RangeError>)
    ensures
        range_valid(offset as int, length as int, total_size as int) ==> (r matches Ok(c)
            && c == resolved_length(offset as int, length as int, total_size as int)),
        !range_valid(offset as int, length as int, total_size as int) ==> r == Err::<
            u64,
            RangeError,
        >(RangeError::RangeExceedsFile),
        length == 0 && offset <= total_size ==> (r matches Ok(c) && c == total_size - offset),
{
    if length > u64::MAX - offset || offset + length > total_size {
        Err(RangeError::RangeExceedsFile)
    } else if length == 0 {
        Ok(total_size - offset)
    } else {
        Ok(length)
    }
}

/// What `read_range` extracts on a valid request: the bytes from `offset` to
/// the end of the resolved range.
pub open spec fn spec_read_range(data: Seq<u8>, offset: int, length: int) -> Seq<u8> {
    data.subrange(offset, offset + resolved_length(offset, length, data.len() as int))
}

/// Extract the requested byte range from an in-memory byte store, validating
/// and resolving it exactly as `resolve_range` does against the store's
/// size.
pub fn read_range(data: &Vec<u8>, offset: u64, length: u64) -> (r: Result<Vec<u8>, RangeError>)
    ensures
        range_valid(offset as int, length as int, data@.len() as int) ==> (r matches Ok(bytes)
            && bytes@ == spec_read_range(data@, offset as int, length as int)),
        !range_valid(offset as int, length as int, data@.len() as int) ==> r == Err::<
            Vec<u8>,
            RangeError,
        >(RangeError::RangeExceedsFile),
{
    let total_size = data.len() as u64;
    match resolve_range(offset, length, total_size) {
        Ok(count) => {
            let start = offset as usize;
            let end = (offset + count) as usize;
            let bytes = vstd::slice::slice_to_vec(
                vstd::slice::slice_subrange(data.as_slice(), start, end),
            );
            Ok(bytes)
        },
        Err(e) => Err(e),
    }
}

} // verus!
