//! The error types of the decoder.

use vstd::prelude::*;

verus! {

/// The closed set of ways a decode can fail.  Every failure carries the
/// context needed to point at the offending place in the input buffer; a
/// failure anywhere aborts the whole decode.
#[derive(Debug, Clone, Copy, PartialEq, Eq, Structural)]
#[allow(inconsistent_fields)]
pub enum MIDIParsingError {
    /// The input ended before a read of `tried_to_read` bytes at `position`
    /// could be satisfied.
    EOFError { position: usize, tried_to_read: usize, buffer_size: usize },
    /// A status byte that the format leaves reserved or undefined.
    UndefinedMidiEvent { position: usize, code: u8 },
    /// A header format word other than 0, 1 or 2.
    UndefinedMidiFileFormat { found: u16 },
    /// A header chunk whose declared body length is not exactly 6 bytes.
    WrongHeaderSize { expected: usize, found: usize },
    /// The SMPTE division encoding (high bit of the division word set),
    /// which this decoder does not support.
    UnsupportedDivision,
}

/// An error of the auxiliary key/scale conversions, carrying a short
/// description of what went wrong.
#[derive(Debug)]
pub struct ConvertionError(pub String);

} // verus!
