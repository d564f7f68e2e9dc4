use midi_parser::err::MIDIParsingError;
use midi_parser::util::{parse_variable_length_at, read_bytes_at};

#[test]
fn read_bytes_advances_and_bounds() {
    let data: [u8; 5] = [10, 20, 30, 40, 50];
    let mut i: usize = 1;
    let got = read_bytes_at(&data, &mut i, 3).unwrap();
    assert_eq!(got, &[20, 30, 40]);
    assert_eq!(i, 4);
    let err = read_bytes_at(&data, &mut i, 2).unwrap_err();
    assert_eq!(err, MIDIParsingError::EOFError { position: 4, tried_to_read: 2, buffer_size: 5 });
    assert_eq!(i, 4);
}

#[test]
fn variable_length_single_byte() {
    let data: [u8; 1] = [0x40];
    let mut i: usize = 0;
    assert_eq!(parse_variable_length_at(&data, &mut i).unwrap(), 0x40);
    assert_eq!(i, 1);
}

#[test]
fn variable_length_multi_byte() {
    // The classic reference values of the encoding.
    let cases: [(&[u8], u32); 6] = [
        (&[0x00], 0x00000000),
        (&[0x7F], 0x0000007F),
        (&[0x81, 0x00], 0x00000080),
        (&[0xC0, 0x00], 0x00002000),
        (&[0xFF, 0x7F], 0x00003FFF),
        (&[0xFF, 0xFF, 0xFF, 0x7F], 0x0FFFFFFF),
    ];
    for (bytes, value) in cases {
        let mut i: usize = 0;
        assert_eq!(parse_variable_length_at(bytes, &mut i).unwrap(), value);
        assert_eq!(i, bytes.len());
    }
}

#[test]
fn variable_length_stops_at_terminator() {
    // Only the first quantity is consumed.
    let data: [u8; 4] = [0x81, 0x01, 0x7F, 0x00];
    let mut i: usize = 0;
    assert_eq!(parse_variable_length_at(&data, &mut i).unwrap(), 0x81);
    assert_eq!(i, 2);
    assert_eq!(parse_variable_length_at(&data, &mut i).unwrap(), 0x7F);
    assert_eq!(i, 3);
}

#[test]
fn variable_length_unterminated_fails() {
    // Five continuation bytes: no terminator within four bytes.
    let data: [u8; 5] = [0x81, 0x82, 0x83, 0x84, 0x85];
    let mut i: usize = 0;
    let err = parse_variable_length_at(&data, &mut i).unwrap_err();
    assert_eq!(err, MIDIParsingError::EOFError { position: 0, tried_to_read: 4, buffer_size: 5 });
    assert_eq!(i, 0);
}

#[test]
fn variable_length_truncated_fails() {
    // The buffer ends while the quantity still continues.
    let data: [u8; 2] = [0x81, 0x82];
    let mut i: usize = 0;
    let err = parse_variable_length_at(&data, &mut i).unwrap_err();
    assert_eq!(err, MIDIParsingError::EOFError { position: 0, tried_to_read: 4, buffer_size: 2 });
    assert_eq!(i, 0);
}
