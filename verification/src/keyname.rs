//! The twelve keys of twelve-tone equal temperament, with conversions
//! between key names, chromatic indices and MIDI key codes.

use vstd::prelude::*;
use vstd::string::StrSliceExecFns;

use crate::err::ConvertionError;

verus! {

/// Total number of keys in twelve-tone equal temperament.
pub const NUMBER_OF_KEYS: u8 = 12;

/// One of the twelve keys.  The black keys are named as sharps (CSharp),
/// never as flats.
#[derive(Debug, Clone, Copy, PartialEq, Eq, Structural)]
pub enum KeyName {
    C,
    CSharp,
    D,
    DSharp,
    E,
    F,
    FSharp,
    G,
    GSharp,
    A,
    ASharp,
    B,
}

/// The chromatic index of a key: C is 0, B is 11.
pub open spec fn spec_key_index(k: KeyName) -> int {
    match k {
        KeyName::C => 0,
        KeyName::CSharp => 1,
        KeyName::D => 2,
        KeyName::DSharp => 3,
        KeyName::E => 4,
        KeyName::F => 5,
        KeyName::FSharp => 6,
        KeyName::G => 7,
        KeyName::GSharp => 8,
        KeyName::A => 9,
        KeyName::ASharp => 10,
        KeyName::B => 11,
    }
}

/// The key at a chromatic index below 12; indices 12 and up fold back
/// (only ever applied to reduced indices).
pub open spec fn spec_key_of_index(idx: int) -> KeyName {
    if idx == 0 {
        KeyName::C
    } else if idx == 1 {
        KeyName::CSharp
    } else if idx == 2 {
        KeyName::D
    } else if idx == 3 {
        KeyName::DSharp
    } else if idx == 4 {
        KeyName::E
    } else if idx == 5 {
        KeyName::F
    } else if idx == 6 {
        KeyName::FSharp
    } else if idx == 7 {
        KeyName::G
    } else if idx == 8 {
        KeyName::GSharp
    } else if idx == 9 {
        KeyName::A
    } else if idx == 10 {
        KeyName::ASharp
    } else {
        KeyName::B
    }
}

/// The key a spelled name stands for, or `None` for anything else.  Both
/// sharp and flat spellings are accepted, including the enharmonic
/// E#/Fb/B# spellings.
pub open spec fn spec_key_of_name(s: Seq<char>) -> Option<KeyName> {
    if s.len() == 1 {
        if s[0] == 'C' {
            Some(KeyName::C)
        } else if s[0] == 'D' {
            Some(KeyName::D)
        } else if s[0] == 'E' {
            Some(KeyName::E)
        } else if s[0] == 'F' {
            Some(KeyName::F)
        } else if s[0] == 'G' {
            Some(KeyName::G)
        } else if s[0] == 'A' {
            Some(KeyName::A)
        } else if s[0] == 'B' {
            Some(KeyName::B)
        } else {
            None
        }
    } else if s.len() == 2 && s[1] == '#' {
        if s[0] == 'B' {
            Some(KeyName::C)
        } else if s[0] == 'C' {
            Some(KeyName::CSharp)
        } else if s[0] == 'D' {
            Some(KeyName::DSharp)
        } else if s[0] == 'E' {
            Some(KeyName::F)
        } else if s[0] == 'F' {
            Some(KeyName::FSharp)
        } else if s[0] == 'G' {
            Some(KeyName::GSharp)
        } else if s[0] == 'A' {
            Some(KeyName::ASharp)
        } else {
            None
        }
    } else if s.len() == 2 && s[1] == 'b' {
        if s[0] == 'D' {
            Some(KeyName::CSharp)
        } else if s[0] == 'E' {
            Some(KeyName::DSharp)
        } else if s[0] == 'F' {
            Some(KeyName::E)
        } else if s[0] == 'G' {
            Some(KeyName::FSharp)
        } else if s[0] == 'A' {
            Some(KeyName::GSharp)
        } else if s[0] == 'B' {
            Some(KeyName::ASharp)
        } else {
            None
        }
    } else {
        None
    }
}

/// The canonical spelling of a key: the plain letter, or the letter with
/// a sharp sign for the black keys.
pub open spec fn spec_name_of_key(k: KeyName) -> Seq<char> {
    match k {
        KeyName::C => seq!['C'],
        KeyName::CSharp => seq!['C', '#'],
        KeyName::D => seq!['D'],
        KeyName::DSharp => seq!['D', '#'],
        KeyName::E => seq!['E'],
        KeyName::F => seq!['F'],
        KeyName::FSharp => seq!['F', '#'],
        KeyName::G => seq!['G'],
        KeyName::GSharp => seq!['G', '#'],
        KeyName::A => seq!['A'],
        KeyName::ASharp => seq!['A', '#'],
        KeyName::B => seq!['B'],
    }
}

impl KeyName {
    /// Converts a chromatic index into the key at that index; indices 12
    /// and up name no key.
    ///
    /// For the opposite operation, see [`KeyName::into_index`].
    pub fn try_from_index(idx: u8) -> (r: Option<Self>)
        ensures
            r == (if idx < 12 {
                Some(spec_key_of_index(idx as int))
            } else {
                None::<KeyName>
            }),
    {
        match idx {
            0 => Some(Self::C),
            1 => Some(Self::CSharp),
            2 => Some(Self::D),
            3 => Some(Self::DSharp),
            4 => Some(Self::E),
            5 => Some(Self::F),
            6 => Some(Self::FSharp),
            7 => Some(Self::G),
            8 => Some(Self::GSharp),
            9 => Some(Self::A),
            10 => Some(Self::ASharp),
            11 => Some(Self::B),
            _ => None,
        }
    }

    /// Converts the key into its chromatic index.
    ///
    /// For the opposite operation, see [`KeyName::try_from_index`].
    pub fn into_index(&self) -> (r: usize)
        ensures
            r == spec_key_index(*self),
    {
        match *self {
            Self::C => 0,
            Self::CSharp => 1,
            Self::D => 2,
            Self::DSharp => 3,
            Self::E => 4,
            Self::F => 5,
            Self::FSharp => 6,
            Self::G => 7,
            Self::GSharp => 8,
            Self::A => 9,
            Self::ASharp => 10,
            Self::B => 11,
        }
    }

    /// Converts a spelled key name (e.g. `G`, `F#`, `Ab`) into the key it
    /// stands for.
    ///
    /// For the opposite operation, see [`KeyName::into_str`].
    pub fn try_from_name(name: &str) -> (r: Option<Self>)
        ensures
            r == spec_key_of_name(name@),
    {
        let n = name.unicode_len();
        if n == 1 {
            let c0 = name.get_char(0);
            match c0 {
                'C' => Some(Self::C),
                'D' => Some(Self::D),
                'E' => Some(Self::E),
                'F' => Some(Self::F),
                'G' => Some(Self::G),
                'A' => Some(Self::A),
                'B' => Some(Self::B),
                _ => None,
            }
        } else if n == 2 {
            let c0 = name.get_char(0);
            let c1 = name.get_char(1);
            if c1 == '#' {
                match c0 {
                    'B' => Some(Self::C),
                    'C' => Some(Self::CSharp),
                    'D' => Some(Self::DSharp),
                    'E' => Some(Self::F),
                    'F' => Some(Self::FSharp),
                    'G' => Some(Self::GSharp),
                    'A' => Some(Self::ASharp),
                    _ => None,
                }
            } else if c1 == 'b' {
                match c0 {
                    'D' => Some(Self::CSharp),
                    'E' => Some(Self::DSharp),
                    'F' => Some(Self::E),
                    'G' => Some(Self::FSharp),
                    'A' => Some(Self::GSharp),
                    'B' => Some(Self::ASharp),
                    _ => None,
                }
            } else {
                None
            }
        } else {
            None
        }
    }

    /// Converts the key into its canonical spelling.
    ///
    /// For the opposite operation, see [`KeyName::try_from_name`].
    pub fn into_str(&self) -> (r: &'static str)
        ensures
            r@ == spec_name_of_key(*self),
    {
        match *self {
            Self::C => {
                let s = "C";
                proof {
                    reveal_strlit("C");
                    assert(s@ =~= spec_name_of_key(KeyName::C));
                }
                s
            },
            Self::CSharp => {
                let s = "C#";
                proof {
                    reveal_strlit("C#");
                    assert(s@ =~= spec_name_of_key(KeyName::CSharp));
                }
                s
            },
            Self::D => {
                let s = "D";
                proof {
                    reveal_strlit("D");
                    assert(s@ =~= spec_name_of_key(KeyName::D));
                }
                s
            },
            Self::DSharp => {
                let s = "D#";
                proof {
                    reveal_strlit("D#");
                    assert(s@ =~= spec_name_of_key(KeyName::DSharp));
                }
                s
            },
            Self::E => {
                let s = "E";
                proof {
                    reveal_strlit("E");
                    assert(s@ =~= spec_name_of_key(KeyName::E));
                }
                s
            },
            Self::F => {
                let s = "F";
                proof {
                    reveal_strlit("F");
                    assert(s@ =~= spec_name_of_key(KeyName::F));
                }
                s
            },
            Self::FSharp => {
                let s = "F#";
                proof {
                    reveal_strlit("F#");
                    assert(s@ =~= spec_name_of_key(KeyName::FSharp));
                }
                s
            },
            Self::G => {
                let s = "G";
                proof {
                    reveal_strlit("G");
                    assert(s@ =~= spec_name_of_key(KeyName::G));
                }
                s
            },
            Self::GSharp => {
                let s = "G#";
                proof {
                    reveal_strlit("G#");
                    assert(s@ =~= spec_name_of_key(KeyName::GSharp));
                }
                s
            },
            Self::A => {
                let s = "A";
                proof {
                    reveal_strlit("A");
                    assert(s@ =~= spec_name_of_key(KeyName::A));
                }
                s
            },
            Self::ASharp => {
                let s = "A#";
                proof {
                    reveal_strlit("A#");
                    assert(s@ =~= spec_name_of_key(KeyName::ASharp));
                }
                s
            },
            Self::B => {
                let s = "B";
                proof {
                    reveal_strlit("B");
                    assert(s@ =~= spec_name_of_key(KeyName::B));
                }
                s
            },
        }
    }

    /// Converts a MIDI key code (0–127) into the key and the octave it
    /// lies on, octave −1 holding code 0.
    ///
    /// For the opposite operation, see [`KeyName::try_into_midi_keycode`].
    pub fn try_from_midi_keycode(value: u8) -> (r: Result<(Self, i8), ConvertionError>)
        ensures
            value <= 127 ==> (r matches Ok((k, octave)) && k == spec_key_of_index(
                value as int % 12,
            ) && octave as int == value as int / 12 - 1),
            value > 127 ==> r is Err,
    {
        if value > 127 {
            return Err(ConvertionError(String::new()));
        }
        let keyname = match KeyName::try_from_index(value % 12) {
            Some(k) => k,
            None => { return Err(ConvertionError(String::new())) },
        };
        let octave = (value / NUMBER_OF_KEYS) as i8 - 1;
        Ok((keyname, octave))
    }

    /// Converts the key on a given octave into its MIDI key code.  Octaves
    /// run from −1 to 9, and on octave 9 only keys up to G fit below code
    /// 128.
    ///
    /// For the opposite operation, see [`KeyName::try_from_midi_keycode`].
    pub fn try_into_midi_keycode(&self, octave: i8) -> (r: Result<u8, ConvertionError>)
        ensures
            (-1 <= octave <= 9 && !(octave == 9 && spec_key_index(*self) > 7)) ==> (r matches Ok(
                code,
            ) && code as int == (octave + 1) * 12 + spec_key_index(*self)),
            (octave < -1 || octave > 9 || (octave == 9 && spec_key_index(*self) > 7)) ==> r is Err,
    {
        if octave < -1 || octave > 9 || (octave == 9 && self.into_index() > Self::G.into_index()) {
            return Err(ConvertionError(String::new()));
        }
        Ok(((octave + 1) as u8) * NUMBER_OF_KEYS + (self.into_index() as u8))
    }
}

} // verus!
