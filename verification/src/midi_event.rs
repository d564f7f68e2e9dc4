//! The channel voice, channel mode and system common/real-time messages of
//! the MIDI wire protocol.

use vstd::prelude::*;

verus! {

/// One decoded MIDI message.  Channel voice and channel mode messages carry
/// a 4-bit channel number; system messages are not channel-scoped.
#[derive(Debug, PartialEq)]
pub enum MidiEvent {
    // Channel voice messages
    NoteOff { channel: u8, key: u8, velocity: u8 },
    NoteOn { channel: u8, key: u8, velocity: u8 },
    PolyphonicKeyPressure { channel: u8, key: u8, pressure_value: u8 },
    ControlChange { channel: u8, controller_number: u8, new_value: u8 },
    ProgramChange { channel: u8, new_program_number: u8 },
    ChannelPressure { channel: u8, pressure_value: u8 },
    PitchWheelChange { channel: u8, pitch_wheel_value: u16 },
    // Channel mode messages (encoded as fixed ControlChange pairs)
    LocalControlOff { channel: u8 },
    LocalControlOn { channel: u8 },
    AllNotesOff { channel: u8 },
    OmniModeOff { channel: u8 },
    OmniModeOn { channel: u8 },
    MonoModeOn { channel: u8, number_of_channels: u8 },
    PolyModeOn { channel: u8 },
    // System common messages
    SystemExclusive { manufacturer_id: u8, data: Vec<u8> },
    SongPositionPointer { midi_beats_since_start: u16 },
    SongSelect { song: u8 },
    TuneRequest,
    // System real-time messages
    TimingClock,
    Start,
    Continue,
    Stop,
    ActiveSensing,
    Reset,
}

/// The mathematical value of a [`MidiEvent`]: the same message with the
/// system-exclusive payload abstracted to a byte sequence.
#[verifier::ext_equal]
pub enum MidiEventV {
    NoteOff { channel: u8, key: u8, velocity: u8 },
    NoteOn { channel: u8, key: u8, velocity: u8 },
    PolyphonicKeyPressure { channel: u8, key: u8, pressure_value: u8 },
    ControlChange { channel: u8, controller_number: u8, new_value: u8 },
    ProgramChange { channel: u8, new_program_number: u8 },
    ChannelPressure { channel: u8, pressure_value: u8 },
    PitchWheelChange { channel: u8, pitch_wheel_value: u16 },
    LocalControlOff { channel: u8 },
    LocalControlOn { channel: u8 },
    AllNotesOff { channel: u8 },
    OmniModeOff { channel: u8 },
    OmniModeOn { channel: u8 },
    MonoModeOn { channel: u8, number_of_channels: u8 },
    PolyModeOn { channel: u8 },
    SystemExclusive { manufacturer_id: u8, data: Seq<u8> },
    SongPositionPointer { midi_beats_since_start: u16 },
    SongSelect { song: u8 },
    TuneRequest,
    TimingClock,
    Start,
    Continue,
    Stop,
    ActiveSensing,
    Reset,
}

impl View for MidiEvent {
    type V = MidiEventV;

    open spec fn view(&self) -> MidiEventV {
        match *self {
            MidiEvent::NoteOff { channel, key, velocity } => MidiEventV::NoteOff {
                channel,
                key,
                velocity,
            },
            MidiEvent::NoteOn { channel, key, velocity } => MidiEventV::NoteOn {
                channel,
                key,
                velocity,
            },
            MidiEvent::PolyphonicKeyPressure { channel, key, pressure_value } => {
                MidiEventV::PolyphonicKeyPressure { channel, key, pressure_value }
            },
            MidiEvent::ControlChange { channel, controller_number, new_value } => {
                MidiEventV::ControlChange { channel, controller_number, new_value }
            },
            MidiEvent::ProgramChange { channel, new_program_number } => {
                MidiEventV::ProgramChange { channel, new_program_number }
            },
            MidiEvent::ChannelPressure { channel, pressure_value } => {
                MidiEventV::ChannelPressure { channel, pressure_value }
            },
            MidiEvent::PitchWheelChange { channel, pitch_wheel_value } => {
                MidiEventV::PitchWheelChange { channel, pitch_wheel_value }
            },
            MidiEvent::LocalControlOff { channel } => MidiEventV::LocalControlOff { channel },
            MidiEvent::LocalControlOn { channel } => MidiEventV::LocalControlOn { channel },
            MidiEvent::AllNotesOff { channel } => MidiEventV::AllNotesOff { channel },
            MidiEvent::OmniModeOff { channel } => MidiEventV::OmniModeOff { channel },
            MidiEvent::OmniModeOn { channel } => MidiEventV::OmniModeOn { channel },
            MidiEvent::MonoModeOn { channel, number_of_channels } => MidiEventV::MonoModeOn {
                channel,
                number_of_channels,
            },
            MidiEvent::PolyModeOn { channel } => MidiEventV::PolyModeOn { channel },
            MidiEvent::SystemExclusive { manufacturer_id, data } => MidiEventV::SystemExclusive {
                manufacturer_id,
                data: data@,
            },
            MidiEvent::SongPositionPointer { midi_beats_since_start } => {
                MidiEventV::SongPositionPointer { midi_beats_since_start }
            },
            MidiEvent::SongSelect { song } => MidiEventV::SongSelect { song },
            MidiEvent::TuneRequest => MidiEventV::TuneRequest,
            MidiEvent::TimingClock => MidiEventV::TimingClock,
            MidiEvent::Start => MidiEventV::Start,
            MidiEvent::Continue => MidiEventV::Continue,
            MidiEvent::Stop => MidiEventV::Stop,
            MidiEvent::ActiveSensing => MidiEventV::ActiveSensing,
            MidiEvent::Reset => MidiEventV::Reset,
        }
    }
}

} // verus!
