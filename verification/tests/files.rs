use midi_parser::err::MIDIParsingError;
use midi_parser::meta_event::MetaEvent;
use midi_parser::midi_event::MidiEvent;
use midi_parser::midi_file::{Division, MidiFileFormat, TrackEventType};
use midi_parser::parser::parse_midi_file;

#[test]
fn single_track_file_decodes() {
    // MThd, length 6, format 0, 1 track, division 0x0060, then an MTrk
    // holding one NoteOn and one EndOfTrack meta-event.
    let data: Vec<u8> = vec![
        0x4D, 0x54, 0x68, 0x64, // MThd
        0x00, 0x00, 0x00, 0x06, // length 6
        0x00, 0x00, // format 0
        0x00, 0x01, // 1 track
        0x00, 0x60, // division 96
        0x4D, 0x54, 0x72, 0x6B, // MTrk
        0x00, 0x00, 0x00, 0x08, // length 8
        0x00, 0x90, 0x30, 0x40, // delta 0, NoteOn ch 0 key 48 vel 64
        0x00, 0xFF, 0x2F, 0x00, // delta 0, EndOfTrack
    ];
    let file = parse_midi_file(&data).unwrap();
    assert_eq!(file.header.format, MidiFileFormat::SingleTrack);
    assert_eq!(file.header.number_of_tracks, 1);
    assert_eq!(file.header.division, Division::TicksPerQuarterNote(96));
    assert_eq!(file.tracks.len(), 1);
    let events = &file.tracks[0].0;
    assert_eq!(events.len(), 2);
    assert_eq!(events[0].delta_time, 0);
    assert!(matches!(
        events[0].event,
        TrackEventType::Midi(MidiEvent::NoteOn { channel: 0, key: 0x30, velocity: 0x40 })
    ));
    assert_eq!(events[1].delta_time, 0);
    assert!(matches!(events[1].event, TrackEventType::Meta(MetaEvent::EndOfTrack)));
}

#[test]
fn track_length_bounds_event_count() {
    // A track whose declared length is exactly consumed by three events
    // decodes to exactly three events.
    let data: Vec<u8> = vec![
        0x4D, 0x54, 0x72, 0x6B, // MTrk
        0x00, 0x00, 0x00, 0x0B, // length 11
        0x00, 0x80, 0x30, 0x40, // delta 0, NoteOff
        0x10, 0x90, 0x30, 0x40, // delta 16, NoteOn
        0x00, 0xC0, 0x05, // delta 0, ProgramChange
    ];
    let file = parse_midi_file(&data).unwrap();
    assert_eq!(file.tracks.len(), 1);
    assert_eq!(file.tracks[0].0.len(), 3);
    assert_eq!(file.tracks[0].0[1].delta_time, 16);
}

#[test]
fn truncated_track_fails_at_offset() {
    // The track ends in the middle of a NoteOn: the decode fails with the
    // end-of-file error of the missing velocity byte.
    let data: Vec<u8> = vec![
        0x4D, 0x54, 0x72, 0x6B, // MTrk
        0x00, 0x00, 0x00, 0x04, // length 4
        0x00, 0x90, 0x30, // delta 0, NoteOn missing its velocity
    ];
    let err = parse_midi_file(&data).unwrap_err();
    assert_eq!(
        err,
        MIDIParsingError::EOFError { position: 11, tried_to_read: 1, buffer_size: 11 }
    );
}

#[test]
fn unknown_chunks_are_skipped() {
    let data: Vec<u8> = vec![
        0x58, 0x59, 0x5A, 0x21, // an unrecognised tag
        0x00, 0x00, 0x00, 0x02, // length 2
        0xAA, 0xBB, // uninterpreted body
        0x4D, 0x54, 0x72, 0x6B, // MTrk
        0x00, 0x00, 0x00, 0x04, // length 4
        0x00, 0xFF, 0x2F, 0x00, // delta 0, EndOfTrack
    ];
    let file = parse_midi_file(&data).unwrap();
    assert_eq!(file.tracks.len(), 1);
    assert_eq!(file.tracks[0].0.len(), 1);
}

#[test]
fn empty_buffer_gives_default_header() {
    let file = parse_midi_file(&[]).unwrap();
    assert_eq!(file.header.format, MidiFileFormat::SingleTrack);
    assert_eq!(file.header.number_of_tracks, 0);
    assert_eq!(file.header.division, Division::TicksPerQuarterNote(96));
    assert_eq!(file.tracks.len(), 0);
}

#[test]
fn wrong_header_length_is_rejected() {
    let data: Vec<u8> = vec![
        0x4D, 0x54, 0x68, 0x64, // MThd
        0x00, 0x00, 0x00, 0x05, // declared length 5, not 6
        0x00, 0x00, 0x00, 0x01, 0x00,
    ];
    let err = parse_midi_file(&data).unwrap_err();
    assert_eq!(err, MIDIParsingError::WrongHeaderSize { expected: 6, found: 5 });
}

#[test]
fn undefined_file_format_is_rejected() {
    let data: Vec<u8> = vec![
        0x4D, 0x54, 0x68, 0x64, // MThd
        0x00, 0x00, 0x00, 0x06, // length 6
        0x00, 0x03, // format 3 is undefined
        0x00, 0x01, 0x00, 0x60,
    ];
    let err = parse_midi_file(&data).unwrap_err();
    assert_eq!(err, MIDIParsingError::UndefinedMidiFileFormat { found: 3 });
}

#[test]
fn smpte_division_is_rejected() {
    let data: Vec<u8> = vec![
        0x4D, 0x54, 0x68, 0x64, // MThd
        0x00, 0x00, 0x00, 0x06, // length 6
        0x00, 0x00, // format 0
        0x00, 0x01, // 1 track
        0xE8, 0x50, // high bit set: the SMPTE division encoding
    ];
    let err = parse_midi_file(&data).unwrap_err();
    assert_eq!(err, MIDIParsingError::UnsupportedDivision);
}

#[test]
fn truncated_chunk_header_is_rejected() {
    let data: Vec<u8> = vec![0x4D, 0x54, 0x72];
    let err = parse_midi_file(&data).unwrap_err();
    assert_eq!(err, MIDIParsingError::EOFError { position: 0, tried_to_read: 4, buffer_size: 3 });
}

#[test]
fn last_header_wins() {
    let data: Vec<u8> = vec![
        0x4D, 0x54, 0x68, 0x64, 0x00, 0x00, 0x00, 0x06, // MThd
        0x00, 0x00, 0x00, 0x01, 0x00, 0x60, // format 0
        0x4D, 0x54, 0x68, 0x64, 0x00, 0x00, 0x00, 0x06, // MThd again
        0x00, 0x01, 0x00, 0x02, 0x00, 0x30, // format 1, 2 tracks, division 48
    ];
    let file = parse_midi_file(&data).unwrap();
    assert_eq!(file.header.format, MidiFileFormat::SimultaneousTracks);
    assert_eq!(file.header.number_of_tracks, 2);
    assert_eq!(file.header.division, Division::TicksPerQuarterNote(48));
}

#[test]
fn undefined_status_byte_fails_track() {
    let data: Vec<u8> = vec![
        0x4D, 0x54, 0x72, 0x6B, // MTrk
        0x00, 0x00, 0x00, 0x02, // length 2
        0x00, 0xF4, // delta 0, reserved status byte
    ];
    let err = parse_midi_file(&data).unwrap_err();
    assert_eq!(err, MIDIParsingError::UndefinedMidiEvent { position: 10, code: 0xF4 });
}
