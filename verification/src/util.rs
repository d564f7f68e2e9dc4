//! The cursor primitives every decoder is built on: a bounded read of `n`
//! bytes, and the variable-length-quantity decode used for delta-times and
//! meta-event payload lengths.

use vstd::prelude::*;
use vstd::slice::slice_subrange;

use crate::err::MIDIParsingError;

verus! {

/// Longest encoding of a variable-length quantity: four bytes.
pub const MAX_VARIABLE_LENGTH_VALUE_SIZE: usize = 4;

/// Returns the next `count` bytes of `data` starting at `*i` and advances
/// `*i` past them, or fails with a positioned end-of-file error, leaving `*i`
/// unchanged, when fewer than `count` bytes remain.
pub fn read_bytes_at<'a>(data: &'a [u8], i: &mut usize, count: usize) -> (r: Result<
    &'a [u8],
    MIDIParsingError,
>)
    ensures
        match r {
            Ok(bytes) => *old(i) + count <= data@.len() && bytes@ == data@.subrange(
                *old(i) as int,
                *old(i) + count,
            ) && *final(i) == *old(i) + count,
            Err(e) => *old(i) + count > data@.len() && e == (MIDIParsingError::EOFError {
                position: *old(i),
                tried_to_read: count,
                buffer_size: data@.len() as usize,
            }) && *final(i) == *old(i),
        },
{
    if count > data.len() || *i > data.len() - count {
        return Err(
            MIDIParsingError::EOFError {
                position: *i,
                tried_to_read: count,
                buffer_size: data.len(),
            },
        );
    }
    let res = slice_subrange(data, *i, *i + count);
    *i = *i + count;
    Ok(res)
}

/// One step of the variable-length-quantity decode: with `k` bytes already
/// folded into `acc`, reads the byte at `start + k`.  A byte with the high
/// bit clear ends the quantity; four continuation bytes, or the end of the
/// buffer, end it in a truncation error positioned at `start`.
pub open spec fn spec_parse_vlq_loop(data: Seq<u8>, start: int, k: int, acc: u32) -> Result<
    (u32, int),
    MIDIParsingError,
>
    decreases 4 - k,
{
    if k >= 4 || start + k >= data.len() {
        Err(
            MIDIParsingError::EOFError {
                position: start as usize,
                tried_to_read: 4,
                buffer_size: data.len() as usize,
            },
        )
    } else {
        let b = data[start + k];
        let acc2 = (acc << 7) | ((b & 0x7f) as u32);
        if b & 0x80 == 0 {
            Ok((acc2, start + k + 1))
        } else {
            spec_parse_vlq_loop(data, start, k + 1, acc2)
        }
    }
}

/// What decoding a variable-length quantity at position `i` of `data`
/// yields: the value and the position just past it, or a truncation error.
pub open spec fn spec_parse_vlq(data: Seq<u8>, i: int) -> Result<(u32, int), MIDIParsingError> {
    spec_parse_vlq_loop(data, i, 0, 0)
}

/// Decodes a big-endian base-128 quantity at `*i`: each byte contributes its
/// low seven bits; a set high bit signals continuation.  On success `*i` is
/// advanced past the quantity; on failure (no terminating byte within four,
/// or the buffer ends first) `*i` is unchanged.
pub fn parse_variable_length_at(data: &[u8], i: &mut usize) -> (r: Result<u32, MIDIParsingError>)
    ensures
        match r {
            Ok(v) => spec_parse_vlq(data@, *old(i) as int) matches Ok((sv, sj)) && v == sv
                && *final(i) as int == sj && *old(i) < *final(i) <= data@.len(),
            Err(e) => spec_parse_vlq(data@, *old(i) as int) == Err::<(u32, int), _>(e) && *final(i)
                == *old(i),
        },
{
    let mut res: u32 = 0;
    let mut k: usize = 0;
    if *i >= data.len() {
        return Err(
            MIDIParsingError::EOFError {
                position: *i,
                tried_to_read: MAX_VARIABLE_LENGTH_VALUE_SIZE,
                buffer_size: data.len(),
            },
        );
    }
    while k < MAX_VARIABLE_LENGTH_VALUE_SIZE
        invariant
            k <= 4,
            *i == *old(i),
            *i < data@.len(),
            spec_parse_vlq(data@, *i as int) == spec_parse_vlq_loop(data@, *i as int, k as int, res),
        decreases 4 - k,
    {
        if k >= data.len() - *i {
            return Err(
                MIDIParsingError::EOFError {
                    position: *i,
                    tried_to_read: MAX_VARIABLE_LENGTH_VALUE_SIZE,
                    buffer_size: data.len(),
                },
            );
        }
        let b = data[*i + k];
        res = (res << 7) | ((b & 0x7f) as u32);
        if b & 0x80 == 0 {
            *i = *i + k + 1;
            return Ok(res);
        }
        k = k + 1;
    }
    Err(
        MIDIParsingError::EOFError {
            position: *i,
            tried_to_read: MAX_VARIABLE_LENGTH_VALUE_SIZE,
            buffer_size: data.len(),
        },
    )
}

/// The shortest variable-length encoding of `v`: the seven-bit groups of
/// `v`, big-endian, with the continuation bit set on every byte but the
/// last.  Meaningful for values up to 28 bits (four groups).
pub open spec fn spec_vlq_encode(v: u32) -> Seq<u8> {
    if v < 0x80 {
        seq![v as u8]
    } else if v < 0x4000 {
        seq![((v >> 7) as u8 | 0x80) as u8, (v as u8 & 0x7f) as u8]
    } else if v < 0x200000 {
        seq![
            ((v >> 14) as u8 | 0x80) as u8,
            (((v >> 7) as u8 & 0x7f) | 0x80) as u8,
            (v as u8 & 0x7f) as u8,
        ]
    } else {
        seq![
            ((v >> 21) as u8 | 0x80) as u8,
            (((v >> 14) as u8 & 0x7f) | 0x80) as u8,
            (((v >> 7) as u8 & 0x7f) | 0x80) as u8,
            (v as u8 & 0x7f) as u8,
        ]
    }
}

/// Every value representable in 28 bits decodes back from its
/// variable-length encoding: the encoding takes one to four bytes, and
/// decoding it from the start of a buffer holding exactly those bytes
/// yields the value again, consuming the whole buffer.
pub proof fn lemma_vlq_round_trip(v: u32)
    requires
        v < 0x10000000,
    ensures
        1 <= spec_vlq_encode(v).len() <= 4,
        spec_parse_vlq(spec_vlq_encode(v), 0) == Ok::<_, MIDIParsingError>(
            (v, spec_vlq_encode(v).len() as int),
        ),
{
    let s = spec_vlq_encode(v);
    if v < 0x80 {
        assert(v as u8 & 0x80 == 0 && ((0u32 << 7) | ((v as u8 & 0x7f) as u32)) == v)
            by (bit_vector)
            requires
                v < 0x80,
        ;
    } else if v < 0x4000 {
        let b0 = ((v >> 7) as u8 | 0x80) as u8;
        let b1 = (v as u8 & 0x7f) as u8;
        let a1 = (0u32 << 7) | ((b0 & 0x7f) as u32);
        assert(b0 & 0x80 != 0 && b1 & 0x80 == 0 && ((a1 << 7) | ((b1 & 0x7f) as u32)) == v)
            by (bit_vector)
            requires
                0x80 <= v < 0x4000 && b0 == ((v >> 7) as u8 | 0x80) as u8 && b1 == (v as u8 & 0x7f)
                    as u8 && a1 == ((0u32 << 7) | ((b0 & 0x7f) as u32)),
        ;
        assert(spec_parse_vlq_loop(s, 0, 0, 0) == spec_parse_vlq_loop(s, 0, 1, a1));
        assert(spec_parse_vlq_loop(s, 0, 1, a1) == Ok::<_, MIDIParsingError>((v, 2int)));
    } else if v < 0x200000 {
        let b0 = ((v >> 14) as u8 | 0x80) as u8;
        let b1 = (((v >> 7) as u8 & 0x7f) | 0x80) as u8;
        let b2 = (v as u8 & 0x7f) as u8;
        let a1 = (0u32 << 7) | ((b0 & 0x7f) as u32);
        let a2 = (a1 << 7) | ((b1 & 0x7f) as u32);
        assert(b0 & 0x80 != 0 && b1 & 0x80 != 0 && b2 & 0x80 == 0 && ((a2 << 7) | ((b2 & 0x7f)
            as u32)) == v)
            by (bit_vector)
            requires
                0x4000 <= v < 0x200000 && b0 == ((v >> 14) as u8 | 0x80) as u8 && b1 == (((v >> 7)
                    as u8 & 0x7f) | 0x80) as u8 && b2 == (v as u8 & 0x7f) as u8 && a1 == ((0u32
                    << 7) | ((b0 & 0x7f) as u32)) && a2 == ((a1 << 7) | ((b1 & 0x7f) as u32)),
        ;
        assert(spec_parse_vlq_loop(s, 0, 0, 0) == spec_parse_vlq_loop(s, 0, 1, a1));
        assert(spec_parse_vlq_loop(s, 0, 1, a1) == spec_parse_vlq_loop(s, 0, 2, a2));
        assert(spec_parse_vlq_loop(s, 0, 2, a2) == Ok::<_, MIDIParsingError>((v, 3int)));
    } else {
        let b0 = ((v >> 21) as u8 | 0x80) as u8;
        let b1 = (((v >> 14) as u8 & 0x7f) | 0x80) as u8;
        let b2 = (((v >> 7) as u8 & 0x7f) | 0x80) as u8;
        let b3 = (v as u8 & 0x7f) as u8;
        let a1 = (0u32 << 7) | ((b0 & 0x7f) as u32);
        let a2 = (a1 << 7) | ((b1 & 0x7f) as u32);
        let a3 = (a2 << 7) | ((b2 & 0x7f) as u32);
        assert(b0 & 0x80 != 0 && b1 & 0x80 != 0 && b2 & 0x80 != 0 && b3 & 0x80 == 0 && ((a3 << 7) | (
        (b3 & 0x7f) as u32)) == v)
            by (bit_vector)
            requires
                0x200000 <= v < 0x10000000 && b0 == ((v >> 21) as u8 | 0x80) as u8 && b1 == (((v
                    >> 14) as u8 & 0x7f) | 0x80) as u8 && b2 == (((v >> 7) as u8 & 0x7f) | 0x80)
                    as u8 && b3 == (v as u8 & 0x7f) as u8 && a1 == ((0u32 << 7) | ((b0 & 0x7f)
                    as u32)) && a2 == ((a1 << 7) | ((b1 & 0x7f) as u32)) && a3 == ((a2 << 7) | ((b2
                    & 0x7f) as u32)),
        ;
        assert(s[0] == b0 && s[1] == b1 && s[2] == b2 && s[3] == b3);
        assert(spec_parse_vlq_loop(s, 0, 0, 0) == spec_parse_vlq_loop(s, 0, 1, a1));
        assert(spec_parse_vlq_loop(s, 0, 1, a1) == spec_parse_vlq_loop(s, 0, 2, a2));
        assert(spec_parse_vlq_loop(s, 0, 2, a2) == spec_parse_vlq_loop(s, 0, 3, a3));
        assert(spec_parse_vlq_loop(s, 0, 3, a3) == Ok::<_, MIDIParsingError>((v, 4int)));
    }
}

/// A quantity with no terminating byte fails as truncated: whenever none of
/// the (up to four) bytes at `i` has its high bit clear — because they are
/// all continuation bytes, or because the buffer ends first — the decode
/// yields the end-of-file error positioned at `i`.
pub proof fn lemma_vlq_unterminated_fails(data: Seq<u8>, i: int)
    requires
        0 <= i,
        forall|k: int| 0 <= k < 4 && i + k < data.len() ==> #[trigger] data[i + k] >= 0x80,
    ensures
        spec_parse_vlq(data, i) == Err::<(u32, int), _>(
            MIDIParsingError::EOFError {
                position: i as usize,
                tried_to_read: 4,
                buffer_size: data.len() as usize,
            },
        ),
{
    lemma_vlq_loop_unterminated(data, i, 0, 0);
}

proof fn lemma_vlq_loop_unterminated(data: Seq<u8>, i: int, k: int, acc: u32)
    requires
        0 <= i,
        0 <= k <= 4,
        forall|m: int| k <= m < 4 && i + m < data.len() ==> #[trigger] data[i + m] >= 0x80,
    ensures
        spec_parse_vlq_loop(data, i, k, acc) == Err::<(u32, int), _>(
            MIDIParsingError::EOFError {
                position: i as usize,
                tried_to_read: 4,
                buffer_size: data.len() as usize,
            },
        ),
    decreases 4 - k,
{
    if k >= 4 || i + k >= data.len() {
    } else {
        let b = data[i + k];
        assert(b >= 0x80 ==> b & 0x80 != 0) by (bit_vector);
        lemma_vlq_loop_unterminated(data, i, k + 1, (acc << 7) | ((b & 0x7f) as u32));
    }
}

} // verus!
