use midi_parser::event_parser::parse_midi_event_at;
use midi_parser::midi_event::MidiEvent;

#[test]
fn test_note_off() {
    // 1000nnnn	0kkkkkkk 0vvvvvvv

    let mut i: usize = 0;

    let data1: [u8; 3] = [0b10000000, 0b00110000, 0b01111111];
    let result1 = match parse_midi_event_at(&data1, &mut i) {
        Ok(r) => r,
        Err(e) => panic!("{e:?}"),
    };
    if let MidiEvent::NoteOff { channel, key, velocity } = result1 {
        if !(channel == 0 && key == 48 && velocity == 127) {
            panic!("1. fail: wrong parameters");
        }
    } else {
        panic!("1. fail: wrong enum variant");
    }
    i = 0;

    let data2: [u8; 3] = [0b10000011, 0b00110100, 0b01111011];
    let result2 = match parse_midi_event_at(&data2, &mut i) {
        Ok(r) => r,
        Err(e) => panic!("{e:?}"),
    };
    if let MidiEvent::NoteOff { channel, key, velocity } = result2 {
        if !(channel == 3 && key == 52 && velocity == 123) {
            panic!("2. fail: wrong parameters");
        }
    } else {
        panic!("2. fail: wrong enum variant");
    }
    i = 0;

    let data3: [u8; 3] = [0b10001011, 0b00110110, 0b00000011];
    let result3 = match parse_midi_event_at(&data3, &mut i) {
        Ok(r) => r,
        Err(e) => panic!("{e:?}"),
    };
    if let MidiEvent::NoteOff { channel, key, velocity } = result3 {
        if !(channel == 11 && key == 54 && velocity == 3) {
            panic!("3. fail: wrong parameters");
        }
    } else {
        panic!("3. fail: wrong enum variant");
    }
}

#[test]
fn test_note_on() {
    // 1001nnnn	0kkkkkkk 0vvvvvvv

    let mut i: usize = 0;

    let data1: [u8; 3] = [0b10010000, 0b00110000, 0b01111111];
    let result1 = match parse_midi_event_at(&data1, &mut i) {
        Ok(r) => r,
        Err(e) => panic!("{e:?}"),
    };
    if let MidiEvent::NoteOn { channel, key, velocity } = result1 {
        if !(channel == 0 && key == 48 && velocity == 127) {
            panic!("1. fail: wrong parameters");
        }
    } else {
        panic!("1. fail: wrong enum variant");
    }
    i = 0;

    let data2: [u8; 3] = [0b10010011, 0b00110100, 0b01111011];
    let result2 = match parse_midi_event_at(&data2, &mut i) {
        Ok(r) => r,
        Err(e) => panic!("{e:?}"),
    };
    if let MidiEvent::NoteOn { channel, key, velocity } = result2 {
        if !(channel == 3 && key == 52 && velocity == 123) {
            panic!("2. fail: wrong parameters");
        }
    } else {
        panic!("2. fail: wrong enum variant");
    }
    i = 0;

    let data3: [u8; 3] = [0b10011011, 0b00110110, 0b00000011];
    let result3 = match parse_midi_event_at(&data3, &mut i) {
        Ok(r) => r,
        Err(e) => panic!("{e:?}"),
    };
    if let MidiEvent::NoteOn { channel, key, velocity } = result3 {
        if !(channel == 11 && key == 54 && velocity == 3) {
            panic!("3. fail: wrong parameters");
        }
    } else {
        panic!("3. fail: wrong enum variant");
    }
}

#[test]
fn test_polyphonic_pressure() {
    // 1010nnnn	0kkkkkkk 0vvvvvvv

    let mut i: usize = 0;

    let data1: [u8; 3] = [0b10100000, 0b00110000, 0b01111111];
    let result1 = match parse_midi_event_at(&data1, &mut i) {
        Ok(r) => r,
        Err(e) => panic!("{e:?}"),
    };
    if let MidiEvent::PolyphonicKeyPressure { channel, key, pressure_value } = result1 {
        if !(channel == 0 && key == 48 && pressure_value == 127) {
            panic!("1. fail: wrong parameters");
        }
    } else {
        panic!("1. fail: wrong enum variant");
    }
    i = 0;

    let data2: [u8; 3] = [0b10100011, 0b00110100, 0b01111011];
    let result2 = match parse_midi_event_at(&data2, &mut i) {
        Ok(r) => r,
        Err(e) => panic!("{e:?}"),
    };
    if let MidiEvent::PolyphonicKeyPressure { channel, key, pressure_value } = result2 {
        if !(channel == 3 && key == 52 && pressure_value == 123) {
            panic!("2. fail: wrong parameters");
        }
    } else {
        panic!("2. fail: wrong enum variant");
    }
    i = 0;

    let data3: [u8; 3] = [0b10101011, 0b00110110, 0b00000011];
    let result3 = match parse_midi_event_at(&data3, &mut i) {
        Ok(r) => r,
        Err(e) => panic!("{e:?}"),
    };
    if let MidiEvent::PolyphonicKeyPressure { channel, key, pressure_value } = result3 {
        if !(channel == 11 && key == 54 && pressure_value == 3) {
            panic!("3. fail: wrong parameters");
        }
    } else {
        panic!("3. fail: wrong enum variant");
    }
}

#[test]
fn test_control_change() {
    // 1011nnnn	0ccccccc 0vvvvvvv

    let mut i: usize = 0;

    let data1: [u8; 3] = [0b10110000, 0b00110000, 0b01111111];
    let result1 = match parse_midi_event_at(&data1, &mut i) {
        Ok(r) => r,
        Err(e) => panic!("{e:?}"),
    };
    if let MidiEvent::ControlChange { channel, controller_number, new_value } = result1 {
        if !(channel == 0 && controller_number == 48 && new_value == 127) {
            panic!("1. fail: wrong parameters");
        }
    } else {
        panic!("1. fail: wrong enum variant");
    }
    i = 0;

    let data2: [u8; 3] = [0b10110011, 0b00110100, 0b01111011];
    let result2 = match parse_midi_event_at(&data2, &mut i) {
        Ok(r) => r,
        Err(e) => panic!("{e:?}"),
    };
    if let MidiEvent::ControlChange { channel, controller_number, new_value } = result2 {
        if !(channel == 3 && controller_number == 52 && new_value == 123) {
            panic!("2. fail: wrong parameters");
        }
    } else {
        panic!("2. fail: wrong enum variant");
    }
    i = 0;

    let data3: [u8; 3] = [0b10111011, 0b00110110, 0b00000011];
    let result3 = match parse_midi_event_at(&data3, &mut i) {
        Ok(r) => r,
        Err(e) => panic!("{e:?}"),
    };
    if let MidiEvent::ControlChange { channel, controller_number, new_value } = result3 {
        if !(channel == 11 && controller_number == 54 && new_value == 3) {
            panic!("3. fail: wrong parameters");
        }
    } else {
        panic!("3. fail: wrong enum variant");
    }
}

#[test]
fn test_program_change() {
    // 1100nnnn	0ppppppp

    let mut i: usize = 0;

    let data1: [u8; 2] = [0b11000000, 0b00110000];
    let result1 = match parse_midi_event_at(&data1, &mut i) {
        Ok(r) => r,
        Err(e) => panic!("{e:?}"),
    };
    if let MidiEvent::ProgramChange { channel, new_program_number } = result1 {
        if !(channel == 0 && new_program_number == 48) {
            panic!("1. fail: wrong parameters");
        }
    } else {
        panic!("1. fail: wrong enum variant");
    }
    i = 0;

    let data2: [u8; 2] = [0b11000011, 0b00110100];
    let result2 = match parse_midi_event_at(&data2, &mut i) {
        Ok(r) => r,
        Err(e) => panic!("{e:?}"),
    };
    if let MidiEvent::ProgramChange { channel, new_program_number } = result2 {
        if !(channel == 3 && new_program_number == 52) {
            panic!("2. fail: wrong parameters");
        }
    } else {
        panic!("2. fail: wrong enum variant");
    }
    i = 0;

    let data3: [u8; 2] = [0b11001011, 0b00110110];
    let result3 = match parse_midi_event_at(&data3, &mut i) {
        Ok(r) => r,
        Err(e) => panic!("{e:?}"),
    };
    if let MidiEvent::ProgramChange { channel, new_program_number } = result3 {
        if !(channel == 11 && new_program_number == 54) {
            panic!("3. fail: wrong parameters");
        }
    } else {
        panic!("3. fail: wrong enum variant");
    }
}

#[test]
fn test_channel_pressure() {
    // 1100nnnn	0vvvvvvv

    let mut i: usize = 0;

    let data1: [u8; 2] = [0b11010000, 0b00110000];
    let result1 = match parse_midi_event_at(&data1, &mut i) {
        Ok(r) => r,
        Err(e) => panic!("{e:?}"),
    };
    if let MidiEvent::ChannelPressure { channel, pressure_value } = result1 {
        if !(channel == 0 && pressure_value == 48) {
            panic!("1. fail: wrong parameters");
        }
    } else {
        panic!("1. fail: wrong enum variant");
    }
    i = 0;

    let data2: [u8; 2] = [0b11010011, 0b00110100];
    let result2 = match parse_midi_event_at(&data2, &mut i) {
        Ok(r) => r,
        Err(e) => panic!("{e:?}"),
    };
    if let MidiEvent::ChannelPressure { channel, pressure_value } = result2 {
        if !(channel == 3 && pressure_value == 52) {
            panic!("2. fail: wrong parameters");
        }
    } else {
        panic!("2. fail: wrong enum variant");
    }
    i = 0;

    let data3: [u8; 2] = [0b11011011, 0b00110110];
    let result3 = match parse_midi_event_at(&data3, &mut i) {
        Ok(r) => r,
        Err(e) => panic!("{e:?}"),
    };
    if let MidiEvent::ChannelPressure { channel, pressure_value } = result3 {
        if !(channel == 11 && pressure_value == 54) {
            panic!("3. fail: wrong parameters");
        }
    } else {
        panic!("3. fail: wrong enum variant");
    }
}

#[test]
fn test_pitch_wheel_change() {
    // 1110nnnn	0lllllll 0mmmmmmm

    let mut i: usize = 0;

    let data1: [u8; 3] = [0b11100000, 0b00110000, 0b01111111];
    let result1 = match parse_midi_event_at(&data1, &mut i) {
        Ok(r) => r,
        Err(e) => panic!("{e:?}"),
    };
    if let MidiEvent::PitchWheelChange { channel, pitch_wheel_value } = result1 {
        if !(channel == 0 && pitch_wheel_value == 16304) {
            panic!("1. fail: wrong parameters");
        }
    } else {
        panic!("1. fail: wrong enum variant");
    }
    i = 0;

    let data2: [u8; 3] = [0b11100011, 0b00110100, 0b01111011];
    let result2 = match parse_midi_event_at(&data2, &mut i) {
        Ok(r) => r,
        Err(e) => panic!("{e:?}"),
    };
    if let MidiEvent::PitchWheelChange { channel, pitch_wheel_value } = result2 {
        if !(channel == 3 && pitch_wheel_value == 15796) {
            panic!("2. fail: wrong parameters");
        }
    } else {
        panic!("2. fail: wrong enum variant");
    }
    i = 0;

    let data3: [u8; 3] = [0b11101011, 0b00110110, 0b00000011];
    let result3 = match parse_midi_event_at(&data3, &mut i) {
        Ok(r) => r,
        Err(e) => panic!("{e:?}"),
    };
    if let MidiEvent::PitchWheelChange { channel, pitch_wheel_value } = result3 {
        if !(channel == 11 && pitch_wheel_value == 438) {
            panic!("3. fail: wrong parameters");
        }
    } else {
        panic!("3. fail: wrong enum variant");
    }
}

#[test]
fn test_song_position_pointer() {
    // 11110010	0lllllll 0mmmmmmm

    let mut i: usize = 0;

    let data1: [u8; 3] = [0b11110010, 0b00110000, 0b01111111];
    let result1 = match parse_midi_event_at(&data1, &mut i) {
        Ok(r) => r,
        Err(e) => panic!("{e:?}"),
    };
    if let MidiEvent::SongPositionPointer { midi_beats_since_start } = result1 {
        if !(midi_beats_since_start == 16304) {
            panic!("1. fail: wrong parameters");
        }
    } else {
        panic!("1. fail: wrong enum variant");
    }
    i = 0;

    let data2: [u8; 3] = [0b11110010, 0b00110100, 0b01111011];
    let result2 = match parse_midi_event_at(&data2, &mut i) {
        Ok(r) => r,
        Err(e) => panic!("{e:?}"),
    };
    if let MidiEvent::SongPositionPointer { midi_beats_since_start } = result2 {
        if !(midi_beats_since_start == 15796) {
            panic!("2. fail: wrong parameters");
        }
    } else {
        panic!("2. fail: wrong enum variant");
    }
    i = 0;

    let data3: [u8; 3] = [0b11110010, 0b00110110, 0b00000011];
    let result3 = match parse_midi_event_at(&data3, &mut i) {
        Ok(r) => r,
        Err(e) => panic!("{e:?}"),
    };
    if let MidiEvent::SongPositionPointer { midi_beats_since_start } = result3 {
        if !(midi_beats_since_start == 438) {
            panic!("3. fail: wrong parameters");
        }
    } else {
        panic!("3. fail: wrong enum variant");
    }
}

#[test]
fn test_song_select() {
    // 11110011	0sssssss

    let mut i: usize = 0;

    let data1: [u8; 2] = [0b11110011, 0b00110000];
    let result1 = match parse_midi_event_at(&data1, &mut i) {
        Ok(r) => r,
        Err(e) => panic!("{e:?}"),
    };
    if let MidiEvent::SongSelect { song } = result1 {
        if !(song == 48) {
            panic!("1. fail: wrong parameters");
        }
    } else {
        panic!("1. fail: wrong enum variant");
    }
    i = 0;

    let data2: [u8; 2] = [0b11110011, 0b00110100];
    let result2 = match parse_midi_event_at(&data2, &mut i) {
        Ok(r) => r,
        Err(e) => panic!("{e:?}"),
    };
    if let MidiEvent::SongSelect { song } = result2 {
        if !(song == 52) {
            panic!("2. fail: wrong parameters");
        }
    } else {
        panic!("2. fail: wrong enum variant");
    }
    i = 0;

    let data3: [u8; 2] = [0b11110011, 0b00110110];
    let result3 = match parse_midi_event_at(&data3, &mut i) {
        Ok(r) => r,
        Err(e) => panic!("{e:?}"),
    };
    if let MidiEvent::SongSelect { song } = result3 {
        if !(song == 54) {
            panic!("3. fail: wrong parameters");
        }
    } else {
        panic!("3. fail: wrong enum variant");
    }
}

#[test]
fn test_tune_request() {
    // 11110110

    let mut i: usize = 0;

    let data1: [u8; 1] = [0b11110110];
    let result1 = match parse_midi_event_at(&data1, &mut i) {
        Ok(r) => r,
        Err(e) => panic!("{e:?}"),
    };
    if let MidiEvent::TuneRequest = result1 {
        // Empty block
    } else {
        panic!("1. fail: wrong enum variant");
    }
}

#[test]
fn test_timing_clock() {
    // 11111000

    let mut i: usize = 0;

    let data1: [u8; 1] = [0b11111000];
    let result1 = match parse_midi_event_at(&data1, &mut i) {
        Ok(r) => r,
        Err(e) => panic!("{e:?}"),
    };
    if let MidiEvent::TimingClock = result1 {
        // Empty block
    } else {
        panic!("1. fail: wrong enum variant");
    }
}

#[test]
fn test_start() {
    // 11111010

    let mut i: usize = 0;

    let data1: [u8; 1] = [0b11111010];
    let result1 = match parse_midi_event_at(&data1, &mut i) {
        Ok(r) => r,
        Err(e) => panic!("{e:?}"),
    };
    if let MidiEvent::Start = result1 {
        // Empty block
    } else {
        panic!("1. fail: wrong enum variant");
    }
}

#[test]
fn test_stop() {
    // 11111100

    let mut i: usize = 0;

    let data1: [u8; 1] = [0b11111100];
    let result1 = match parse_midi_event_at(&data1, &mut i) {
        Ok(r) => r,
        Err(e) => panic!("{e:?}"),
    };
    if let MidiEvent::Stop = result1 {
        // Empty block
    } else {
        panic!("1. fail: wrong enum variant");
    }
}

#[test]
fn test_active_sensing() {
    // 11111110

    let mut i: usize = 0;

    let data1: [u8; 1] = [0b11111110];
    let result1 = match parse_midi_event_at(&data1, &mut i) {
        Ok(r) => r,
        Err(e) => panic!("{e:?}"),
    };
    if let MidiEvent::ActiveSensing = result1 {
        // Empty block
    } else {
        panic!("1. fail: wrong enum variant");
    }
}

#[test]
fn test_reset() {
    // 11111111

    let mut i: usize = 0;

    let data1: [u8; 1] = [0b11111111];
    let result1 = match parse_midi_event_at(&data1, &mut i) {
        Ok(r) => r,
        Err(e) => panic!("{e:?}"),
    };
    if let MidiEvent::Reset = result1 {
        // Empty block
    } else {
        panic!("1. fail: wrong enum variant");
    }
}
