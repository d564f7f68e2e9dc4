//! A chunk seen as a value of its own: a header chunk (MThd) or a track
//! chunk (MTrk).

use vstd::prelude::*;

use crate::midi_file::{Division, MidiFileFormat, TrackEvent};

verus! {

/// One chunk of a MIDI file.  The format defines two chunk types: the
/// header chunk and the track chunk.
#[derive(Debug, PartialEq)]
pub enum Chunk {
    /// A header chunk.
    MThd { format: MidiFileFormat, number_of_tracks: u16, division: Division },
    /// A track chunk.
    MTrk(Vec<TrackEvent>),
}

impl Chunk {
    /// Returns a default configuration for a header chunk: a single
    /// track, declared once, at 96 ticks per quarter note.
    pub fn default_header() -> (r: Self)
        ensures
            r == (Chunk::MThd {
                format: MidiFileFormat::SingleTrack,
                number_of_tracks: 1,
                division: Division::TicksPerQuarterNote(96),
            }),
    {
        Self::MThd {
            format: MidiFileFormat::SingleTrack,
            number_of_tracks: 1,
            division: Division::TicksPerQuarterNote(96),
        }
    }
}

} // verus!
