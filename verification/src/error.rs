//! Errors that the codecs report.
use vstd::prelude::*;

verus! {

/// Why a codec refused the bytes it was given.
#[derive(Debug, Clone, Copy, PartialEq, Eq)]
pub enum CodecError {
    /// A frame did not hold what the codec reads (an `InvalidData` I/O error).
    InvalidData,
    /// A line was not valid UTF-8 (an I/O error of kind `Other`, "bad utf8").
    BadUtf8,
    /// A frame did not fit in the buffer's spare capacity (an I/O error of
    /// kind `WriteZero`, "failed to write whole buffer").
    WriteZero,
}

} // verus!
