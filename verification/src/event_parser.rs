//! Decoders for the messages and meta-events a track can hold.
//!
//! A message decode starts from one status byte; its top nibble selects a
//! channel voice message (`0x8`–`0xE`) or, for `0xF`, a system
//! common/real-time message.  A meta-event decode is a non-destructive
//! probe: it only advances the cursor when a whole, length-validated
//! meta-event is present.

use vstd::prelude::*;
use vstd::slice::slice_to_vec;

use crate::err::MIDIParsingError;
use crate::meta_event::{MetaEvent, MetaEventV};
use crate::midi_event::{MidiEvent, MidiEventV};
use crate::util::{parse_variable_length_at, read_bytes_at, spec_parse_vlq};

verus! {

/// The channel mode message a ControlChange with the given controller
/// number and value re-tags to, if any.  Controller 126 selects MonoModeOn
/// whatever the value; the other mode messages need an exact pair.
pub open spec fn spec_channel_mode(channel: u8, controller_number: u8, new_value: u8) -> Option<
    MidiEventV,
> {
    if controller_number == 126 {
        Some(MidiEventV::MonoModeOn { channel, number_of_channels: new_value })
    } else if controller_number == 122 && new_value == 0 {
        Some(MidiEventV::LocalControlOff { channel })
    } else if controller_number == 122 && new_value == 127 {
        Some(MidiEventV::LocalControlOn { channel })
    } else if controller_number == 123 && new_value == 0 {
        Some(MidiEventV::AllNotesOff { channel })
    } else if controller_number == 124 && new_value == 0 {
        Some(MidiEventV::OmniModeOff { channel })
    } else if controller_number == 125 && new_value == 0 {
        Some(MidiEventV::OmniModeOn { channel })
    } else if controller_number == 127 && new_value == 0 {
        Some(MidiEventV::PolyModeOn { channel })
    } else {
        None
    }
}

/// Re-tags a decoded ControlChange as the channel mode message its
/// controller/value pair stands for, or returns `None` when the pair is an
/// ordinary controller change.
pub fn try_construct_channel_mode_message(channel: u8, controller_number: u8, new_value: u8) -> (r:
    Option<MidiEvent>)
    ensures
        match r {
            Some(ev) => spec_channel_mode(channel, controller_number, new_value) == Some(ev@),
            None => spec_channel_mode(channel, controller_number, new_value) is None,
        },
{
    if controller_number == 126 {
        return Some(MidiEvent::MonoModeOn { channel, number_of_channels: new_value });
    }
    match (controller_number, new_value) {
        (122, 0) => Some(MidiEvent::LocalControlOff { channel }),
        (122, 127) => Some(MidiEvent::LocalControlOn { channel }),
        (123, 0) => Some(MidiEvent::AllNotesOff { channel }),
        (124, 0) => Some(MidiEvent::OmniModeOff { channel }),
        (125, 0) => Some(MidiEvent::OmniModeOn { channel }),
        (127, 0) => Some(MidiEvent::PolyModeOn { channel }),
        _ => None,
    }
}

/// What decoding a channel voice message yields, given the status byte
/// `code` and the position `i` of its first operand byte.  The low nibble
/// of the status is the channel; the top nibble fixes the operand count.
/// A status byte below `0x80` (a data byte where a status byte is owed)
/// is an undefined-message error carrying the masked top nibble.
pub open spec fn spec_parse_channel_voice(data: Seq<u8>, i: int, code: u8) -> Result<
    (MidiEventV, int),
    MIDIParsingError,
> {
    let channel = code & 0x0f;
    let kind = code & 0xf0;
    if kind == 0x80 {
        match spec_read_two(data, i) {
            Ok((key, velocity)) => Ok((MidiEventV::NoteOff { channel, key, velocity }, i + 2)),
            Err(e) => Err(e),
        }
    } else if kind == 0x90 {
        match spec_read_two(data, i) {
            Ok((key, velocity)) => Ok((MidiEventV::NoteOn { channel, key, velocity }, i + 2)),
            Err(e) => Err(e),
        }
    } else if kind == 0xa0 {
        match spec_read_two(data, i) {
            Ok((key, pressure_value)) => Ok(
                (MidiEventV::PolyphonicKeyPressure { channel, key, pressure_value }, i + 2),
            ),
            Err(e) => Err(e),
        }
    } else if kind == 0xb0 {
        match spec_read_two(data, i) {
            Ok((controller_number, new_value)) => {
                match spec_channel_mode(channel, controller_number, new_value) {
                    Some(mode) => Ok((mode, i + 2)),
                    None => Ok(
                        (MidiEventV::ControlChange { channel, controller_number, new_value }, i + 2),
                    ),
                }
            },
            Err(e) => Err(e),
        }
    } else if kind == 0xc0 {
        match spec_read_one(data, i) {
            Ok(new_program_number) => Ok(
                (MidiEventV::ProgramChange { channel, new_program_number }, i + 1),
            ),
            Err(e) => Err(e),
        }
    } else if kind == 0xd0 {
        match spec_read_one(data, i) {
            Ok(pressure_value) => Ok((MidiEventV::ChannelPressure { channel, pressure_value }, i + 1)),
            Err(e) => Err(e),
        }
    } else if kind == 0xe0 {
        if i + 2 <= data.len() {
            let pitch_wheel_value = ((data[i + 1] as u16) << 7) | (data[i] as u16);
            Ok((MidiEventV::PitchWheelChange { channel, pitch_wheel_value }, i + 2))
        } else {
            Err(
                MIDIParsingError::EOFError {
                    position: i as usize,
                    tried_to_read: 2,
                    buffer_size: data.len() as usize,
                },
            )
        }
    } else {
        Err(MIDIParsingError::UndefinedMidiEvent { position: i as usize, code: kind })
    }
}

/// One operand byte at `i`, or the end-of-file error of a one-byte read
/// there.
pub open spec fn spec_read_one(data: Seq<u8>, i: int) -> Result<u8, MIDIParsingError> {
    if i + 1 <= data.len() {
        Ok(data[i])
    } else {
        Err(
            MIDIParsingError::EOFError {
                position: i as usize,
                tried_to_read: 1,
                buffer_size: data.len() as usize,
            },
        )
    }
}

/// Two operand bytes read one at a time starting at `i`, or the positioned
/// end-of-file error of whichever one-byte read fails first.
pub open spec fn spec_read_two(data: Seq<u8>, i: int) -> Result<(u8, u8), MIDIParsingError> {
    match spec_read_one(data, i) {
        Ok(a) => match spec_read_one(data, i + 1) {
            Ok(b) => Ok((a, b)),
            Err(e) => Err(e),
        },
        Err(e) => Err(e),
    }
}

/// The position of the first End-of-Exclusive byte (`0xF7`) at or after
/// `j`, if one occurs before the buffer ends.
pub open spec fn spec_sysex_end(data: Seq<u8>, j: int) -> Option<int>
    decreases data.len() - j,
{
    if j < 0 || j >= data.len() {
        None
    } else if data[j] == 0xf7 {
        Some(j)
    } else {
        spec_sysex_end(data, j + 1)
    }
}

/// What decoding a system common or real-time message yields, given the
/// full status byte `code` (top nibble `0xF`) and the position `i` just
/// after it.  A SystemExclusive collects every byte between the
/// manufacturer id and the required `0xF7` terminator; the codes the
/// format leaves undefined (`0xF1`, `0xF4`, `0xF5`, `0xF9`, `0xFD`) and a
/// stray terminator (`0xF7`) are undefined-message errors.
pub open spec fn spec_parse_system(data: Seq<u8>, i: int, code: u8) -> Result<
    (MidiEventV, int),
    MIDIParsingError,
> {
    if code == 0xf0 {
        match spec_read_one(data, i) {
            Err(e) => Err(e),
            Ok(manufacturer_id) => match spec_sysex_end(data, i + 1) {
                Some(end) => Ok(
                    (
                        MidiEventV::SystemExclusive {
                            manufacturer_id,
                            data: data.subrange(i + 1, end),
                        },
                        end + 1,
                    ),
                ),
                None => Err(
                    MIDIParsingError::EOFError {
                        position: data.len() as usize,
                        tried_to_read: 1,
                        buffer_size: data.len() as usize,
                    },
                ),
            },
        }
    } else if code == 0xf2 {
        if i + 2 <= data.len() {
            let midi_beats_since_start = ((data[i + 1] as u16) << 7) | (data[i] as u16);
            Ok((MidiEventV::SongPositionPointer { midi_beats_since_start }, i + 2))
        } else {
            Err(
                MIDIParsingError::EOFError {
                    position: i as usize,
                    tried_to_read: 2,
                    buffer_size: data.len() as usize,
                },
            )
        }
    } else if code == 0xf3 {
        match spec_read_one(data, i) {
            Ok(song) => Ok((MidiEventV::SongSelect { song }, i + 1)),
            Err(e) => Err(e),
        }
    } else if code == 0xf6 {
        Ok((MidiEventV::TuneRequest, i))
    } else if code == 0xf8 {
        Ok((MidiEventV::TimingClock, i))
    } else if code == 0xfa {
        Ok((MidiEventV::Start, i))
    } else if code == 0xfb {
        Ok((MidiEventV::Continue, i))
    } else if code == 0xfc {
        Ok((MidiEventV::Stop, i))
    } else if code == 0xfe {
        Ok((MidiEventV::ActiveSensing, i))
    } else if code == 0xff {
        Ok((MidiEventV::Reset, i))
    } else {
        Err(MIDIParsingError::UndefinedMidiEvent { position: i as usize, code })
    }
}

fn parse_midi_event_system_common_or_real_time_message_at(data: &[u8], i: &mut usize, event_code: u8)
    -> (r: Result<MidiEvent, MIDIParsingError>)
    ensures
        match r {
            Ok(ev) => spec_parse_system(data@, *old(i) as int, event_code) matches Ok((sv, sj))
                && ev@ == sv && *final(i) as int == sj && *old(i) <= *final(i) && (*final(i)
                <= data@.len() || *final(i) == *old(i)),
            Err(e) => spec_parse_system(data@, *old(i) as int, event_code) == Err::<
                (MidiEventV, int),
                _,
            >(e) && *old(i) <= *final(i) && (*final(i) == *old(i) || *final(i) <= data@.len()),
        },
{
    if event_code == 0xf0 {
        let manufacturer_id = match read_bytes_at(data, i, 1) {
            Ok(id) => id[0],
            Err(e) => { return Err(e) },
        };
        let ghost scan_start = *i as int;
        let mut event_data = Vec::<u8>::new();
        proof {
            assert(event_data@ =~= data@.subrange(scan_start, scan_start));
        }
        loop
            invariant_except_break
                event_code == 0xf0,
                scan_start == *old(i) + 1,
                0 <= scan_start <= *i as int <= data@.len(),
                event_data@ == data@.subrange(scan_start, *i as int),
                spec_sysex_end(data@, scan_start) == spec_sysex_end(data@, *i as int),
            ensures
                scan_start < *i as int <= data@.len(),
                spec_sysex_end(data@, scan_start) == Some(*i as int - 1),
                event_data@ == data@.subrange(scan_start, *i as int - 1),
            decreases data@.len() - *i,
        {
            let byte = match read_bytes_at(data, i, 1) {
                Ok(b) => b[0],
                Err(e) => { return Err(e) },
            };
            if byte == 0xf7 {
                proof {
                    assert(spec_sysex_end(data@, *i as int - 1) == Some(*i as int - 1));
                }
                break ;
            }
            event_data.push(byte);
            proof {
                assert(event_data@ =~= data@.subrange(scan_start, *i as int));
            }
        }
        Ok(MidiEvent::SystemExclusive { manufacturer_id, data: event_data })
    } else if event_code == 0xf2 {
        let midi_beats_since_start = match read_bytes_at(data, i, 2) {
            Ok(b) => ((b[1] as u16) << 7) | (b[0] as u16),
            Err(e) => { return Err(e) },
        };
        Ok(MidiEvent::SongPositionPointer { midi_beats_since_start })
    } else if event_code == 0xf3 {
        let song = match read_bytes_at(data, i, 1) {
            Ok(s) => s[0],
            Err(e) => { return Err(e) },
        };
        Ok(MidiEvent::SongSelect { song })
    } else if event_code == 0xf6 {
        Ok(MidiEvent::TuneRequest)
    } else if event_code == 0xf8 {
        Ok(MidiEvent::TimingClock)
    } else if event_code == 0xfa {
        Ok(MidiEvent::Start)
    } else if event_code == 0xfb {
        Ok(MidiEvent::Continue)
    } else if event_code == 0xfc {
        Ok(MidiEvent::Stop)
    } else if event_code == 0xfe {
        Ok(MidiEvent::ActiveSensing)
    } else if event_code == 0xff {
        Ok(MidiEvent::Reset)
    } else {
        Err(MIDIParsingError::UndefinedMidiEvent { position: *i, code: event_code })
    }
}

fn parse_midi_event_channel_voice_message_at(data: &[u8], i: &mut usize, event_code: u8) -> (r:
    Result<MidiEvent, MIDIParsingError>)
    ensures
        match r {
            Ok(ev) => spec_parse_channel_voice(data@, *old(i) as int, event_code) matches Ok(
                (sv, sj),
            ) && ev@ == sv && *final(i) as int == sj && *old(i) <= *final(i) <= data@.len(),
            Err(e) => spec_parse_channel_voice(data@, *old(i) as int, event_code) == Err::<
                (MidiEventV, int),
                _,
            >(e) && *old(i) <= *final(i) && (*final(i) == *old(i) || *final(i) <= data@.len()),
        },
{
    let channel = event_code & 0x0f;
    let kind = event_code & 0xf0;
    if kind == 0x80 {
        let key = match read_bytes_at(data, i, 1) {
            Ok(k) => k[0],
            Err(e) => { return Err(e) },
        };
        let velocity = match read_bytes_at(data, i, 1) {
            Ok(v) => v[0],
            Err(e) => { return Err(e) },
        };
        Ok(MidiEvent::NoteOff { channel, key, velocity })
    } else if kind == 0x90 {
        let key = match read_bytes_at(data, i, 1) {
            Ok(k) => k[0],
            Err(e) => { return Err(e) },
        };
        let velocity = match read_bytes_at(data, i, 1) {
            Ok(v) => v[0],
            Err(e) => { return Err(e) },
        };
        Ok(MidiEvent::NoteOn { channel, key, velocity })
    } else if kind == 0xa0 {
        let key = match read_bytes_at(data, i, 1) {
            Ok(k) => k[0],
            Err(e) => { return Err(e) },
        };
        let pressure_value = match read_bytes_at(data, i, 1) {
            Ok(p) => p[0],
            Err(e) => { return Err(e) },
        };
        Ok(MidiEvent::PolyphonicKeyPressure { channel, key, pressure_value })
    } else if kind == 0xb0 {
        let controller_number = match read_bytes_at(data, i, 1) {
            Ok(c) => c[0],
            Err(e) => { return Err(e) },
        };
        let new_value = match read_bytes_at(data, i, 1) {
            Ok(v) => v[0],
            Err(e) => { return Err(e) },
        };
        if let Some(msg) = try_construct_channel_mode_message(channel, controller_number, new_value) {
            return Ok(msg);
        }
        Ok(MidiEvent::ControlChange { channel, controller_number, new_value })
    } else if kind == 0xc0 {
        let new_program_number = match read_bytes_at(data, i, 1) {
            Ok(p) => p[0],
            Err(e) => { return Err(e) },
        };
        Ok(MidiEvent::ProgramChange { channel, new_program_number })
    } else if kind == 0xd0 {
        let pressure_value = match read_bytes_at(data, i, 1) {
            Ok(p) => p[0],
            Err(e) => { return Err(e) },
        };
        Ok(MidiEvent::ChannelPressure { channel, pressure_value })
    } else if kind == 0xe0 {
        let pitch_wheel_value = match read_bytes_at(data, i, 2) {
            Ok(w) => ((w[1] as u16) << 7) | (w[0] as u16),
            Err(e) => { return Err(e) },
        };
        Ok(MidiEvent::PitchWheelChange { channel, pitch_wheel_value })
    } else {
        Err(MIDIParsingError::UndefinedMidiEvent { position: *i, code: kind })
    }
}

/// What decoding one message at position `i` yields: the status byte is
/// read at `i`, and its top nibble routes to the channel voice or the
/// system decoder.  An empty remainder is an end-of-file error at `i`.
pub open spec fn spec_parse_midi_event(data: Seq<u8>, i: int) -> Result<
    (MidiEventV, int),
    MIDIParsingError,
> {
    match spec_read_one(data, i) {
        Err(e) => Err(e),
        Ok(code) => if code & 0xf0 != 0xf0 {
            spec_parse_channel_voice(data, i + 1, code)
        } else {
            spec_parse_system(data, i + 1, code)
        },
    }
}

/// Decodes one channel voice/mode or system common/real-time message at
/// `*i`, advancing `*i` past it on success.  On failure the decode of the
/// surrounding track is abandoned, so only the error value is specified,
/// together with bounds on where the cursor can rest.
pub fn parse_midi_event_at(data: &[u8], i: &mut usize) -> (r: Result<MidiEvent, MIDIParsingError>)
    ensures
        match r {
            Ok(ev) => spec_parse_midi_event(data@, *old(i) as int) matches Ok((sv, sj)) && ev@ == sv
                && *final(i) as int == sj && *old(i) < *final(i) <= data@.len(),
            Err(e) => spec_parse_midi_event(data@, *old(i) as int) == Err::<(MidiEventV, int), _>(e)
                && *old(i) <= *final(i) && (*final(i) <= data@.len() || *final(i) == *old(i)),
        },
{
    let event_code = match read_bytes_at(data, i, 1) {
        Ok(c) => c[0],
        Err(e) => { return Err(e) },
    };
    if event_code & 0xf0 != 0xf0 {
        return parse_midi_event_channel_voice_message_at(data, i, event_code);
    }
    parse_midi_event_system_common_or_real_time_message_at(data, i, event_code)
}

/// The character sequence that lossy UTF-8 decoding turns a byte sequence
/// into.  The bytes alone determine it; beyond that it is left
/// uninterpreted here, except that ASCII bytes decode to themselves (see
/// [`utf8_lossy`]).
pub uninterp spec fn utf8_lossy_of(bytes: Seq<u8>) -> Seq<char>;

/// Relies on `String::from_utf8_lossy`: the result is a function of the
/// bytes alone, and on a buffer of ASCII bytes — valid UTF-8, which the
/// conversion keeps losslessly — it is exactly those bytes as characters.
#[verifier::external_body]
fn utf8_lossy(bytes: &[u8]) -> (r: String)
    ensures
        r@ == utf8_lossy_of(bytes@),
        (forall|k: int| 0 <= k < bytes@.len() ==> bytes@[k] < 0x80) ==> r@ == Seq::new(
            bytes@.len(),
            |k: int| bytes@[k] as char,
        ),
{
    String::from_utf8_lossy(bytes).into_owned()
}

/// The meta-event a known type `code` with a `dlen`-byte `payload` stands
/// for, paired with the commit position `end`, or `None` when the declared
/// length does not fit the type.  An unknown code is collected as
/// [`MetaEventV::Alien`] rather than rejected.
pub open spec fn spec_meta_event(code: u8, dlen: u32, payload: Seq<u8>, end: int) -> Option<
    (MetaEventV, int),
> {
    if code == 0x00 {
        if dlen != 2 {
            None
        } else {
            Some(
                (
                    MetaEventV::SequenceNumber {
                        number: ((payload[0] as u16) << 8) | (payload[1] as u16),
                    },
                    end,
                ),
            )
        }
    } else if code == 0x01 {
        Some((MetaEventV::TextEvent { text: utf8_lossy_of(payload) }, end))
    } else if code == 0x02 {
        Some((MetaEventV::CopyrightNotice { notice: utf8_lossy_of(payload) }, end))
    } else if code == 0x03 {
        Some((MetaEventV::TrackName { name: utf8_lossy_of(payload) }, end))
    } else if code == 0x04 {
        Some((MetaEventV::InstrumentName { name: utf8_lossy_of(payload) }, end))
    } else if code == 0x05 {
        Some((MetaEventV::Lyric { text: utf8_lossy_of(payload) }, end))
    } else if code == 0x06 {
        Some((MetaEventV::Marker { name: utf8_lossy_of(payload) }, end))
    } else if code == 0x07 {
        Some((MetaEventV::CuePoint { text: utf8_lossy_of(payload) }, end))
    } else if code == 0x20 {
        if dlen != 1 {
            None
        } else {
            Some((MetaEventV::MIDIChannelPrefix { channel: payload[0] }, end))
        }
    } else if code == 0x2f {
        if dlen != 0 {
            None
        } else {
            Some((MetaEventV::EndOfTrack, end))
        }
    } else if code == 0x51 {
        if dlen != 3 {
            None
        } else {
            Some(
                (
                    MetaEventV::SetTempo {
                        microseconds_per_midi_quarter_note: ((payload[0] as u64) << 16) | ((
                        payload[1] as u64) << 8) | (payload[2] as u64),
                    },
                    end,
                ),
            )
        }
    } else if code == 0x54 {
        if dlen != 5 {
            None
        } else {
            Some(
                (
                    MetaEventV::SMPTEOffset {
                        hour: payload[0],
                        minute: payload[1],
                        second: payload[2],
                        frame: payload[3],
                        fractional_frames: payload[4],
                    },
                    end,
                ),
            )
        }
    } else if code == 0x58 {
        if dlen != 4 {
            None
        } else {
            Some(
                (
                    MetaEventV::TimeSignature {
                        numerator: payload[0],
                        denominator: payload[1],
                        midi_clocks_per_metronome_click: payload[2],
                        thirty_second_notes_per_midi_quarter_note: payload[3],
                    },
                    end,
                ),
            )
        }
    } else if code == 0x59 {
        if dlen != 2 {
            None
        } else {
            Some((MetaEventV::KeySignature { sf: payload[0], mi: payload[1] == 1 }, end))
        }
    } else if code == 0x7f {
        Some((MetaEventV::SequencerSpecific { data: payload }, end))
    } else {
        Some((MetaEventV::Alien { code, data: payload }, end))
    }
}

/// What the non-destructive meta-event probe at position `i` yields: the
/// event and the position just past its payload, or `None` when anything —
/// a missing `0xFF` prefix, a malformed length, a short payload, a length
/// that does not fit the type — rules a meta-event out at `i`.
pub open spec fn spec_try_meta(data: Seq<u8>, i: int) -> Option<(MetaEventV, int)> {
    if i + 2 > data.len() || data[i] != 0xff {
        None
    } else {
        let code = data[i + 1];
        match spec_parse_vlq(data, i + 2) {
            Err(_) => None,
            Ok((dlen, p)) => {
                if p + dlen > data.len() {
                    None
                } else {
                    spec_meta_event(code, dlen, data.subrange(p, p + dlen), p + dlen)
                }
            },
        }
    }
}

/// Attempts to decode one meta-event at `*i`.  The probe works on a copy
/// of the cursor: only when a whole, length-validated meta-event is
/// present does `*i` advance past it; on any shortfall `*i` is untouched
/// and `None` is returned so that message decoding can be tried instead.
pub fn try_parse_meta_event(data: &[u8], i: &mut usize) -> (r: Option<MetaEvent>)
    ensures
        match r {
            Some(me) => spec_try_meta(data@, *old(i) as int) matches Some((mv, mj)) && me@ == mv
                && *final(i) as int == mj && *old(i) <= *final(i) <= data@.len(),
            None => spec_try_meta(data@, *old(i) as int) is None && *final(i) == *old(i),
        },
{
    // The actual cursor only moves forward once the value is fully decoded.
    let mut i_copy: usize = *i;
    let header = match read_bytes_at(data, &mut i_copy, 2) {
        Ok(h) => h,
        Err(_) => { return None },
    };
    if header[0] != 0xff {
        return None;
    }
    let event_code = header[1];
    let data_length = match parse_variable_length_at(data, &mut i_copy) {
        Ok(v) => v,
        Err(_) => { return None },
    };
    let payload = match read_bytes_at(data, &mut i_copy, data_length as usize) {
        Ok(d) => d,
        Err(_) => { return None },
    };
    match event_code {
        0x00 => {
            if data_length != 2 {
                return None;
            }
            let number = ((payload[0] as u16) << 8) | (payload[1] as u16);
            *i = i_copy;
            Some(MetaEvent::SequenceNumber { number })
        },
        0x01 => {
            let text = utf8_lossy(payload);
            *i = i_copy;
            Some(MetaEvent::TextEvent { text })
        },
        0x02 => {
            let notice = utf8_lossy(payload);
            *i = i_copy;
            Some(MetaEvent::CopyrightNotice { notice })
        },
        0x03 => {
            let name = utf8_lossy(payload);
            *i = i_copy;
            Some(MetaEvent::TrackName { name })
        },
        0x04 => {
            let name = utf8_lossy(payload);
            *i = i_copy;
            Some(MetaEvent::InstrumentName { name })
        },
        0x05 => {
            let text = utf8_lossy(payload);
            *i = i_copy;
            Some(MetaEvent::Lyric { text })
        },
        0x06 => {
            let name = utf8_lossy(payload);
            *i = i_copy;
            Some(MetaEvent::Marker { name })
        },
        0x07 => {
            let text = utf8_lossy(payload);
            *i = i_copy;
            Some(MetaEvent::CuePoint { text })
        },
        0x20 => {
            if data_length != 1 {
                return None;
            }
            let channel = payload[0];
            *i = i_copy;
            Some(MetaEvent::MIDIChannelPrefix { channel })
        },
        0x2f => {
            if data_length != 0 {
                return None;
            }
            *i = i_copy;
            Some(MetaEvent::EndOfTrack)
        },
        0x51 => {
            if data_length != 3 {
                return None;
            }
            let microseconds_per_midi_quarter_note = ((payload[0] as u64) << 16) | ((payload[1]
                as u64) << 8) | (payload[2] as u64);
            *i = i_copy;
            Some(MetaEvent::SetTempo { microseconds_per_midi_quarter_note })
        },
        0x54 => {
            if data_length != 5 {
                return None;
            }
            let hour = payload[0];
            let minute = payload[1];
            let second = payload[2];
            let frame = payload[3];
            let fractional_frames = payload[4];
            *i = i_copy;
            Some(MetaEvent::SMPTEOffset { hour, minute, second, frame, fractional_frames })
        },
        0x58 => {
            if data_length != 4 {
                return None;
            }
            let numerator = payload[0];
            let denominator = payload[1];
            let midi_clocks_per_metronome_click = payload[2];
            let thirty_second_notes_per_midi_quarter_note = payload[3];
            *i = i_copy;
            Some(
                MetaEvent::TimeSignature {
                    numerator,
                    denominator,
                    midi_clocks_per_metronome_click,
                    thirty_second_notes_per_midi_quarter_note,
                },
            )
        },
        0x59 => {
            if data_length != 2 {
                return None;
            }
            let sf = payload[0];
            let mi = payload[1] == 1;
            *i = i_copy;
            Some(MetaEvent::KeySignature { sf, mi })
        },
        0x7f => {
            let collected = slice_to_vec(payload);
            *i = i_copy;
            Some(MetaEvent::SequencerSpecific { data: collected })
        },
        code => {
            let collected = slice_to_vec(payload);
            *i = i_copy;
            Some(MetaEvent::Alien { code, data: collected })
        },
    }
}

/// The structural law of the channel voice messages: for every channel
/// and any operand bytes `a` and `b`, a status byte with nibble `0x8`
/// decodes to NoteOff with exactly those fields, and likewise `0x9` to
/// NoteOn, `0xA` to PolyphonicKeyPressure, `0xB` to ControlChange (when
/// the pair is not a channel mode pair), `0xC` to ProgramChange and
/// `0xD` to ChannelPressure (one operand each), and `0xE` to
/// PitchWheelChange with the operands combined as `(b << 7) | a`.
pub proof fn lemma_channel_voice_messages(channel: u8, a: u8, b: u8)
    requires
        channel < 16,
    ensures
        spec_parse_midi_event(seq![(0x80 + channel) as u8, a, b], 0) == Ok::<_, MIDIParsingError>(
            (MidiEventV::NoteOff { channel, key: a, velocity: b }, 3int),
        ),
        spec_parse_midi_event(seq![(0x90 + channel) as u8, a, b], 0) == Ok::<_, MIDIParsingError>(
            (MidiEventV::NoteOn { channel, key: a, velocity: b }, 3int),
        ),
        spec_parse_midi_event(seq![(0xa0 + channel) as u8, a, b], 0) == Ok::<_, MIDIParsingError>(
            (MidiEventV::PolyphonicKeyPressure { channel, key: a, pressure_value: b }, 3int),
        ),
        spec_channel_mode(channel, a, b) is None ==> spec_parse_midi_event(
            seq![(0xb0 + channel) as u8, a, b],
            0,
        ) == Ok::<_, MIDIParsingError>(
            (MidiEventV::ControlChange { channel, controller_number: a, new_value: b }, 3int),
        ),
        spec_parse_midi_event(seq![(0xc0 + channel) as u8, a], 0) == Ok::<_, MIDIParsingError>(
            (MidiEventV::ProgramChange { channel, new_program_number: a }, 2int),
        ),
        spec_parse_midi_event(seq![(0xd0 + channel) as u8, a], 0) == Ok::<_, MIDIParsingError>(
            (MidiEventV::ChannelPressure { channel, pressure_value: a }, 2int),
        ),
        spec_parse_midi_event(seq![(0xe0 + channel) as u8, a, b], 0) == Ok::<_, MIDIParsingError>(
            (
                MidiEventV::PitchWheelChange {
                    channel,
                    pitch_wheel_value: ((b as u16) << 7) | (a as u16),
                },
                3int,
            ),
        ),
{
    assert(((0x80 + channel) as u8) & 0xf0 == 0x80 && ((0x80 + channel) as u8) & 0x0f == channel)
        by (bit_vector)
        requires
            channel < 16,
    ;
    assert(((0x90 + channel) as u8) & 0xf0 == 0x90 && ((0x90 + channel) as u8) & 0x0f == channel)
        by (bit_vector)
        requires
            channel < 16,
    ;
    assert(((0xa0 + channel) as u8) & 0xf0 == 0xa0 && ((0xa0 + channel) as u8) & 0x0f == channel)
        by (bit_vector)
        requires
            channel < 16,
    ;
    assert(((0xb0 + channel) as u8) & 0xf0 == 0xb0 && ((0xb0 + channel) as u8) & 0x0f == channel)
        by (bit_vector)
        requires
            channel < 16,
    ;
    assert(((0xc0 + channel) as u8) & 0xf0 == 0xc0 && ((0xc0 + channel) as u8) & 0x0f == channel)
        by (bit_vector)
        requires
            channel < 16,
    ;
    assert(((0xd0 + channel) as u8) & 0xf0 == 0xd0 && ((0xd0 + channel) as u8) & 0x0f == channel)
        by (bit_vector)
        requires
            channel < 16,
    ;
    assert(((0xe0 + channel) as u8) & 0xf0 == 0xe0 && ((0xe0 + channel) as u8) & 0x0f == channel)
        by (bit_vector)
        requires
            channel < 16,
    ;
}

/// A ControlChange pair of controller 123 with value 0 decodes as
/// AllNotesOff for every channel, never as a literal ControlChange.
pub proof fn lemma_all_notes_off(channel: u8)
    requires
        channel < 16,
    ensures
        spec_parse_midi_event(seq![(0xb0 + channel) as u8, 123, 0], 0) == Ok::<
            _,
            MIDIParsingError,
        >((MidiEventV::AllNotesOff { channel }, 3int)),
        spec_parse_midi_event(seq![(0xb0 + channel) as u8, 123, 0], 0) matches Ok((ev, j)) ==> !(ev
            is ControlChange),
{
    assert(((0xb0 + channel) as u8) & 0xf0 == 0xb0 && ((0xb0 + channel) as u8) & 0x0f == channel)
        by (bit_vector)
        requires
            channel < 16,
    ;
}

/// A meta-event `0xFF 0x51 0x03 t2 t1 t0` decodes to SetTempo with the
/// three payload bytes combined big-endian into the
/// microseconds-per-quarter-note value, consuming all six bytes.
pub proof fn lemma_set_tempo_meta(t2: u8, t1: u8, t0: u8)
    ensures
        spec_try_meta(seq![0xffu8, 0x51, 0x03, t2, t1, t0], 0) == Some(
            (
                MetaEventV::SetTempo {
                    microseconds_per_midi_quarter_note: ((t2 as u64) << 16) | ((t1 as u64) << 8) | (
                    t0 as u64),
                },
                6int,
            ),
        ),
{
    let s = seq![0xffu8, 0x51, 0x03, t2, t1, t0];
    assert((0u32 << 7) | ((0x03u8 & 0x7f) as u32) == 3 && 0x03u8 & 0x80 == 0) by (bit_vector);
    assert(spec_parse_vlq(s, 2) == Ok::<_, MIDIParsingError>((3u32, 3int)));
    assert(s.subrange(3, 6) =~= seq![t2, t1, t0]);
}

/// A declared length other than 3 on meta-type `0x51` is rejected by the
/// probe: with the length given in one byte and its payload present, no
/// meta-event is recognised, whatever the payload holds.
pub proof fn lemma_set_tempo_wrong_length_rejected(data: Seq<u8>, i: int)
    requires
        0 <= i,
        i + 3 <= data.len(),
        data[i] == 0xff,
        data[i + 1] == 0x51,
        data[i + 2] < 0x80,
        data[i + 2] != 3,
        i + 3 + data[i + 2] <= data.len(),
    ensures
        spec_try_meta(data, i) is None,
{
    let l = data[i + 2];
    assert((0u32 << 7) | ((l & 0x7f) as u32) == l as u32 && l & 0x80 == 0) by (bit_vector)
        requires
            l < 0x80,
    ;
    assert(spec_parse_vlq(data, i + 2) == Ok::<_, MIDIParsingError>((l as u32, i + 3)));
}

} // verus!
