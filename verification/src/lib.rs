//! A decoder for Standard MIDI Files (SMF).
//!
//! The input is a raw byte buffer holding the whole file image; the result is
//! either a structured [`midi_file::MidiFile`] or a positioned
//! [`err::MIDIParsingError`].  Every decoding function is specified against a
//! mathematical model of the byte format and verified to match it.

pub mod chunk;
pub mod err;
pub mod event_parser;
pub mod key_signature;
pub mod keyname;
pub mod meta_event;
pub mod midi_event;
pub mod midi_file;
pub mod parser;
pub mod util;
