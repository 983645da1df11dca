//! The ways in which combining clips can fail.

use vstd::prelude::*;

verus! {

/// Why audio data could not be decoded or encoded.
#[derive(Clone, Copy, Debug, PartialEq, Eq, Structural)]
pub enum WavFailure {
    /// The data ended early, or the underlying reader or writer failed.
    Io,
    /// The data is not well-formed WAVE data.
    Format,
    /// A sample has more bits than its destination.
    TooWide,
    /// The number of samples is not a multiple of the number of channels.
    UnfinishedSample,
    /// The format is not supported.
    Unsupported,
    /// The samples are floats where integers were asked for.
    InvalidSampleFormat,
    /// There is more data than the 32-bit length fields of a WAVE file can
    /// describe.
    TooLong,
}

/// Why a combination was refused or given up.
#[derive(Clone, Copy, Debug, PartialEq, Eq, Structural)]
pub enum CombineError {
    /// The two clip sequences and the two label sequences are not all of the
    /// same length.
    LengthMismatch,
    /// There are no clips.
    EmptyInput,
    /// The clip at this position differs in its audio properties from the
    /// first clip. Positions count through the first sequence and then
    /// through the second.
    SpecMismatch(usize),
    /// The clips are of a kind that cannot be copied.
    UnsupportedBitDepth,
    /// Audio data could not be decoded or encoded.
    Io(WavFailure),
}

} // verus!
