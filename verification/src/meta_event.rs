//! The meta-events a track can hold: `0xFF`-prefixed, type-tagged,
//! length-prefixed annotations such as tempo, text and key signature.

use vstd::prelude::*;

verus! {

/// One decoded meta-event.  A type code outside the known set decodes to
/// the [`MetaEvent::Alien`] catch-all instead of failing, keeping the
/// decoder forward-compatible with the open meta-event space.
#[derive(Debug, PartialEq)]
pub enum MetaEvent {
    SequenceNumber { number: u16 },
    TextEvent { text: String },
    CopyrightNotice { notice: String },
    TrackName { name: String },
    InstrumentName { name: String },
    Lyric { text: String },
    Marker { name: String },
    CuePoint { text: String },
    MIDIChannelPrefix { channel: u8 },
    EndOfTrack,
    SetTempo { microseconds_per_midi_quarter_note: u64 },
    SMPTEOffset { hour: u8, minute: u8, second: u8, frame: u8, fractional_frames: u8 },
    TimeSignature {
        numerator: u8,
        denominator: u8,
        midi_clocks_per_metronome_click: u8,
        thirty_second_notes_per_midi_quarter_note: u8,
    },
    KeySignature { sf: u8, mi: bool },
    SequencerSpecific { data: Vec<u8> },
    /// A meta-event whose type code the format does not define.
    Alien { code: u8, data: Vec<u8> },
}

/// The mathematical value of a [`MetaEvent`]: texts abstracted to
/// character sequences and payloads to byte sequences.
#[verifier::ext_equal]
pub enum MetaEventV {
    SequenceNumber { number: u16 },
    TextEvent { text: Seq<char> },
    CopyrightNotice { notice: Seq<char> },
    TrackName { name: Seq<char> },
    InstrumentName { name: Seq<char> },
    Lyric { text: Seq<char> },
    Marker { name: Seq<char> },
    CuePoint { text: Seq<char> },
    MIDIChannelPrefix { channel: u8 },
    EndOfTrack,
    SetTempo { microseconds_per_midi_quarter_note: u64 },
    SMPTEOffset { hour: u8, minute: u8, second: u8, frame: u8, fractional_frames: u8 },
    TimeSignature {
        numerator: u8,
        denominator: u8,
        midi_clocks_per_metronome_click: u8,
        thirty_second_notes_per_midi_quarter_note: u8,
    },
    KeySignature { sf: u8, mi: bool },
    SequencerSpecific { data: Seq<u8> },
    Alien { code: u8, data: Seq<u8> },
}

impl View for MetaEvent {
    type V = MetaEventV;

    open spec fn view(&self) -> MetaEventV {
        match *self {
            MetaEvent::SequenceNumber { number } => MetaEventV::SequenceNumber { number },
            MetaEvent::TextEvent { text } => MetaEventV::TextEvent { text: text@ },
            MetaEvent::CopyrightNotice { notice } => MetaEventV::CopyrightNotice {
                notice: notice@,
            },
            MetaEvent::TrackName { name } => MetaEventV::TrackName { name: name@ },
            MetaEvent::InstrumentName { name } => MetaEventV::InstrumentName { name: name@ },
            MetaEvent::Lyric { text } => MetaEventV::Lyric { text: text@ },
            MetaEvent::Marker { name } => MetaEventV::Marker { name: name@ },
            MetaEvent::CuePoint { text } => MetaEventV::CuePoint { text: text@ },
            MetaEvent::MIDIChannelPrefix { channel } => MetaEventV::MIDIChannelPrefix { channel },
            MetaEvent::EndOfTrack => MetaEventV::EndOfTrack,
            MetaEvent::SetTempo { microseconds_per_midi_quarter_note } => MetaEventV::SetTempo {
                microseconds_per_midi_quarter_note,
            },
            MetaEvent::SMPTEOffset { hour, minute, second, frame, fractional_frames } => {
                MetaEventV::SMPTEOffset { hour, minute, second, frame, fractional_frames }
            },
            MetaEvent::TimeSignature {
                numerator,
                denominator,
                midi_clocks_per_metronome_click,
                thirty_second_notes_per_midi_quarter_note,
            } => MetaEventV::TimeSignature {
                numerator,
                denominator,
                midi_clocks_per_metronome_click,
                thirty_second_notes_per_midi_quarter_note,
            },
            MetaEvent::KeySignature { sf, mi } => MetaEventV::KeySignature { sf, mi },
            MetaEvent::SequencerSpecific { data } => MetaEventV::SequencerSpecific { data: data@ },
            MetaEvent::Alien { code, data } => MetaEventV::Alien { code, data: data@ },
        }
    }
}

} // verus!
