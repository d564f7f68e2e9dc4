//! The key signature (scale) of a song or a section of one.  Only major
//! and minor scales are represented.

use vstd::prelude::*;

use crate::err::ConvertionError;
use crate::keyname::KeyName;

verus! {

/// A key signature: a root key and whether the scale is minor.
#[derive(Debug, Clone, Copy, PartialEq, Eq, Structural)]
pub struct KeySignature {
    /// The root key of the scale.
    pub key: KeyName,
    /// `false` for major, `true` for minor.
    pub minor: bool,
}

/// The root key on the circle of fifths for a sharps/flats count between
/// −6 and 6 (negative counts are flats), for the major or the minor
/// scale.
pub open spec fn spec_key_sig_root(sf: int, minor: bool) -> KeyName {
    if !minor {
        if sf == -6 {
            KeyName::FSharp
        } else if sf == -5 {
            KeyName::CSharp
        } else if sf == -4 {
            KeyName::GSharp
        } else if sf == -3 {
            KeyName::DSharp
        } else if sf == -2 {
            KeyName::ASharp
        } else if sf == -1 {
            KeyName::F
        } else if sf == 0 {
            KeyName::C
        } else if sf == 1 {
            KeyName::G
        } else if sf == 2 {
            KeyName::D
        } else if sf == 3 {
            KeyName::A
        } else if sf == 4 {
            KeyName::E
        } else if sf == 5 {
            KeyName::B
        } else {
            KeyName::FSharp
        }
    } else {
        if sf == -6 {
            KeyName::DSharp
        } else if sf == -5 {
            KeyName::ASharp
        } else if sf == -4 {
            KeyName::F
        } else if sf == -3 {
            KeyName::C
        } else if sf == -2 {
            KeyName::G
        } else if sf == -1 {
            KeyName::D
        } else if sf == 0 {
            KeyName::A
        } else if sf == 1 {
            KeyName::E
        } else if sf == 2 {
            KeyName::B
        } else if sf == 3 {
            KeyName::FSharp
        } else if sf == 4 {
            KeyName::CSharp
        } else if sf == 5 {
            KeyName::GSharp
        } else {
            KeyName::DSharp
        }
    }
}

impl KeySignature {
    /// Converts the payload of a key-signature meta-event — a signed
    /// sharps/flats count and a scale-type byte — into a `KeySignature`.
    /// Scale types other than 0 (major) and 1 (minor), and counts
    /// outside the circle of fifths, are conversion errors.  Counts of
    /// seven sharps or seven flats, though the format allows them, have
    /// no root defined here and are left out.
    pub fn try_from_midi_msg(value: [u8; 2]) -> (r: Result<Self, ConvertionError>)
        requires
            value@[0] != 7 && value@[0] != 249,
        ensures
            ({
                let sf = value@[0] as i8;
                let scale_type = value@[1];
                if scale_type > 1 {
                    r is Err
                } else if -6 <= sf <= 6 {
                    r == Ok::<_, ConvertionError>(
                        KeySignature {
                            key: spec_key_sig_root(sf as int, scale_type == 1),
                            minor: scale_type == 1,
                        },
                    )
                } else {
                    r is Err
                }
            }),
    {
        let sharps_flats = value[0] as i8;
        let minor = match value[1] {
            0 => false,
            1 => true,
            _ => { return Err(ConvertionError(String::new())) },
        };
        let root = match (sharps_flats, minor) {
            (-6, false) => KeyName::FSharp,
            (-6, true) => KeyName::DSharp,
            (-5, false) => KeyName::CSharp,
            (-5, true) => KeyName::ASharp,
            (-4, false) => KeyName::GSharp,
            (-4, true) => KeyName::F,
            (-3, false) => KeyName::DSharp,
            (-3, true) => KeyName::C,
            (-2, false) => KeyName::ASharp,
            (-2, true) => KeyName::G,
            (-1, false) => KeyName::F,
            (-1, true) => KeyName::D,
            (0, false) => KeyName::C,
            (0, true) => KeyName::A,
            (1, false) => KeyName::G,
            (1, true) => KeyName::E,
            (2, false) => KeyName::D,
            (2, true) => KeyName::B,
            (3, false) => KeyName::A,
            (3, true) => KeyName::FSharp,
            (4, false) => KeyName::E,
            (4, true) => KeyName::CSharp,
            (5, false) => KeyName::B,
            (5, true) => KeyName::GSharp,
            (6, false) => KeyName::FSharp,
            (6, true) => KeyName::DSharp,
            _ => { return Err(ConvertionError(String::new())) },
        };
        Ok(Self { key: root, minor })
    }
}

} // verus!
