//! The structured representation a decode produces: a header plus an
//! ordered list of tracks, each an ordered list of timed events.

use vstd::prelude::*;

use crate::meta_event::{MetaEvent, MetaEventV};
use crate::midi_event::{MidiEvent, MidiEventV};

verus! {

/// The exact byte length of an MThd chunk body.
pub const MTHD_LENGTH: usize = 6;

/// The file format declared in the header: one track, several
/// simultaneous tracks, or several sequential tracks.
#[derive(Debug, Clone, Copy, PartialEq, Eq, Structural)]
pub enum MidiFileFormat {
    SingleTrack,
    SimultaneousTracks,
    SequentialTracks,
}

impl Default for MidiFileFormat {
    fn default() -> (r: Self)
        ensures
            r == MidiFileFormat::SingleTrack,
    {
        Self::SingleTrack
    }
}

/// How ticks relate to musical time.  Only the ticks-per-quarter-note
/// form is supported; the SMPTE form exists in the data model but a file
/// that selects it is rejected during decoding.
#[derive(Debug, Clone, Copy, PartialEq, Eq, Structural)]
pub enum Division {
    /// The value delta-times are counted in, per quarter note.
    TicksPerQuarterNote(u16),
    /// Not supported.
    SMPTE { format: u8, ticks_per_frame: u8 },
}

impl Default for Division {
    fn default() -> (r: Self)
        ensures
            r == Division::TicksPerQuarterNote(96),
    {
        Self::TicksPerQuarterNote(96)
    }
}

/// The payload of a track event: a wire-protocol message or a meta-event.
#[derive(Debug, PartialEq)]
pub enum TrackEventType {
    Midi(MidiEvent),
    Meta(MetaEvent),
}

/// The mathematical value of a [`TrackEventType`].
#[verifier::ext_equal]
pub enum TrackEventTypeV {
    Midi(MidiEventV),
    Meta(MetaEventV),
}

impl View for TrackEventType {
    type V = TrackEventTypeV;

    open spec fn view(&self) -> TrackEventTypeV {
        match *self {
            TrackEventType::Midi(ev) => TrackEventTypeV::Midi(ev@),
            TrackEventType::Meta(me) => TrackEventTypeV::Meta(me@),
        }
    }
}

/// One event of a track: the ticks elapsed since the previous event of
/// the same track, and the payload.
#[derive(Debug, PartialEq)]
pub struct TrackEvent {
    pub delta_time: u32,
    pub event: TrackEventType,
}

/// The mathematical value of a [`TrackEvent`].
#[verifier::ext_equal]
pub struct TrackEventV {
    pub delta_time: u32,
    pub event: TrackEventTypeV,
}

impl View for TrackEvent {
    type V = TrackEventV;

    open spec fn view(&self) -> TrackEventV {
        TrackEventV { delta_time: self.delta_time, event: self.event@ }
    }
}

/// The decoded MThd body: format, declared track count (informational
/// only — not enforced against the number of MTrk chunks found), and
/// division.
#[derive(Debug, Clone, Copy, PartialEq, Eq, Structural)]
pub struct Header {
    pub format: MidiFileFormat,
    pub number_of_tracks: u16,
    pub division: Division,
}

/// The header a decode starts from, used when the buffer holds no MThd
/// chunk: single track, no declared tracks, 96 ticks per quarter note.
pub open spec fn spec_default_header() -> Header {
    Header {
        format: MidiFileFormat::SingleTrack,
        number_of_tracks: 0,
        division: Division::TicksPerQuarterNote(96),
    }
}

impl Default for Header {
    fn default() -> (r: Self)
        ensures
            r == spec_default_header(),
    {
        Header {
            format: MidiFileFormat::SingleTrack,
            number_of_tracks: 0,
            division: Division::TicksPerQuarterNote(96),
        }
    }
}

/// One decoded MTrk body: the events of the track in playback order.
#[derive(Debug, PartialEq)]
pub struct Track(pub Vec<TrackEvent>);

impl View for Track {
    type V = Seq<TrackEventV>;

    open spec fn view(&self) -> Seq<TrackEventV> {
        self.0@.map_values(|e: TrackEvent| e@)
    }
}

/// A whole decoded file: the (last) header found and every track, in file
/// order.
#[derive(Debug, PartialEq)]
pub struct MidiFile {
    pub header: Header,
    pub tracks: Vec<Track>,
}

/// The mathematical value of a [`MidiFile`].
#[verifier::ext_equal]
pub struct MidiFileV {
    pub header: Header,
    pub tracks: Seq<Seq<TrackEventV>>,
}

impl View for MidiFile {
    type V = MidiFileV;

    open spec fn view(&self) -> MidiFileV {
        MidiFileV { header: self.header, tracks: self.tracks@.map_values(|t: Track| t@) }
    }
}

} // verus!
