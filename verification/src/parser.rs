//! The chunk-level decoders: header body, track event, track body, and the
//! top-level chunk scanner that turns a whole buffer into a
//! [`MidiFile`].

use vstd::prelude::*;

use crate::err::MIDIParsingError;
use crate::event_parser::{
    parse_midi_event_at, spec_parse_midi_event, spec_try_meta, try_parse_meta_event,
};
use crate::midi_file::{
    spec_default_header, Division, Header, MidiFile, MidiFileFormat, MidiFileV, Track, TrackEvent,
    TrackEventType, TrackEventTypeV, TrackEventV, MTHD_LENGTH,
};
use crate::util::{parse_variable_length_at, read_bytes_at, spec_parse_vlq};

verus! {

/// What decoding the six-byte MThd body at position `i` yields: the
/// format word must be 0, 1 or 2; the division word must have its high
/// bit clear (the SMPTE encoding is unsupported); the full division word
/// is then the tick count.  On success the position lands at `i + 6`.
pub open spec fn spec_parse_header(data: Seq<u8>, i: int) -> Result<
    (Header, int),
    MIDIParsingError,
> {
    if i + 2 > data.len() {
        Err(
            MIDIParsingError::EOFError {
                position: i as usize,
                tried_to_read: 2,
                buffer_size: data.len() as usize,
            },
        )
    } else {
        let format_raw = ((data[i] as u16) << 8) | (data[i + 1] as u16);
        if format_raw > 2 {
            Err(MIDIParsingError::UndefinedMidiFileFormat { found: format_raw })
        } else if i + 4 > data.len() {
            Err(
                MIDIParsingError::EOFError {
                    position: (i + 2) as usize,
                    tried_to_read: 2,
                    buffer_size: data.len() as usize,
                },
            )
        } else if i + 6 > data.len() {
            Err(
                MIDIParsingError::EOFError {
                    position: (i + 4) as usize,
                    tried_to_read: 2,
                    buffer_size: data.len() as usize,
                },
            )
        } else {
            let number_of_tracks = ((data[i + 2] as u16) << 8) | (data[i + 3] as u16);
            let division_word = ((data[i + 4] as u16) << 8) | (data[i + 5] as u16);
            if division_word & 0x8000 != 0 {
                Err(MIDIParsingError::UnsupportedDivision)
            } else {
                let format = if format_raw == 0 {
                    MidiFileFormat::SingleTrack
                } else if format_raw == 1 {
                    MidiFileFormat::SimultaneousTracks
                } else {
                    MidiFileFormat::SequentialTracks
                };
                Ok(
                    (
                        Header {
                            format,
                            number_of_tracks,
                            division: Division::TicksPerQuarterNote(division_word),
                        },
                        i + 6,
                    ),
                )
            }
        }
    }
}

/// Decodes the MThd body at `*i`: a 16-bit format code, a 16-bit track
/// count and a 16-bit division word, all big-endian.  On success `*i` is
/// advanced past the six bytes.
pub fn parse_header_at(data: &[u8], i: &mut usize) -> (r: Result<Header, MIDIParsingError>)
    ensures
        match r {
            Ok(h) => spec_parse_header(data@, *old(i) as int) matches Ok((sh, sj)) && h == sh
                && *final(i) as int == sj && *old(i) < *final(i) <= data@.len(),
            Err(e) => spec_parse_header(data@, *old(i) as int) == Err::<(Header, int), _>(e) && *old(
                i,
            ) <= *final(i) && (*final(i) <= data@.len() || *final(i) == *old(i)),
        },
{
    let format_raw = match read_bytes_at(data, i, 2) {
        Ok(f) => f,
        Err(e) => { return Err(e) },
    };
    let format_idx = ((format_raw[0] as u16) << 8) | (format_raw[1] as u16);
    let format = match format_idx {
        0 => MidiFileFormat::SingleTrack,
        1 => MidiFileFormat::SimultaneousTracks,
        2 => MidiFileFormat::SequentialTracks,
        _ => { return Err(MIDIParsingError::UndefinedMidiFileFormat { found: format_idx }) },
    };
    let tracks_raw = match read_bytes_at(data, i, 2) {
        Ok(n) => n,
        Err(e) => { return Err(e) },
    };
    let number_of_tracks = ((tracks_raw[0] as u16) << 8) | (tracks_raw[1] as u16);
    let division_raw = match read_bytes_at(data, i, 2) {
        Ok(d) => d,
        Err(e) => { return Err(e) },
    };
    let division_word = ((division_raw[0] as u16) << 8) | (division_raw[1] as u16);
    if division_word & 0x8000 != 0 {
        return Err(MIDIParsingError::UnsupportedDivision);
    }
    Ok(Header { format, number_of_tracks, division: Division::TicksPerQuarterNote(division_word) })
}

/// What decoding one track event at position `i` yields: a delta-time
/// (variable-length quantity), then the meta-event probe, then — only
/// when the probe says no meta-event starts there — one message.
pub open spec fn spec_parse_track_event(data: Seq<u8>, i: int) -> Result<
    (TrackEventV, int),
    MIDIParsingError,
> {
    match spec_parse_vlq(data, i) {
        Err(e) => Err(e),
        Ok((delta_time, j)) => match spec_try_meta(data, j) {
            Some((me, k)) => Ok((TrackEventV { delta_time, event: TrackEventTypeV::Meta(me) }, k)),
            None => match spec_parse_midi_event(data, j) {
                Ok((ev, k)) => Ok(
                    (TrackEventV { delta_time, event: TrackEventTypeV::Midi(ev) }, k),
                ),
                Err(e) => Err(e),
            },
        },
    }
}

/// A successful track-event decode always moves forward — the delta-time
/// takes at least one byte and the payload at least one more — and lands
/// inside the buffer.
pub proof fn lemma_track_event_advances(data: Seq<u8>, i: int)
    requires
        spec_parse_track_event(data, i) matches Ok((ev, j)),
    ensures
        spec_parse_track_event(data, i) matches Ok((ev, j)) ==> i + 2 <= j <= data.len(),
{
    lemma_vlq_advances(data, i, 0, 0);
    match spec_parse_vlq(data, i) {
        Err(_) => {},
        Ok((dt, j)) => match spec_try_meta(data, j) {
            Some(_) => {
                lemma_vlq_advances(data, j + 2, 0, 0);
            },
            None => {
                lemma_sysex_end_bounds(data, j + 2);
            },
        },
    }
}

/// A found End-of-Exclusive terminator lies at or after the scan start
/// and inside the buffer.
proof fn lemma_sysex_end_bounds(data: Seq<u8>, j: int)
    ensures
        crate::event_parser::spec_sysex_end(data, j) matches Some(e) ==> j <= e < data.len(),
    decreases (if j < data.len() { data.len() - j } else { 0 }),
{
    if j < 0 || j >= data.len() {
    } else if data[j] == 0xf7 {
    } else {
        lemma_sysex_end_bounds(data, j + 1);
    }
}

/// Each step of a successful variable-length decode lands strictly past
/// the byte it read, inside the buffer.
proof fn lemma_vlq_advances(data: Seq<u8>, start: int, k: int, acc: u32)
    requires
        crate::util::spec_parse_vlq_loop(data, start, k, acc) matches Ok((v, j)),
    ensures
        crate::util::spec_parse_vlq_loop(data, start, k, acc) matches Ok((v, j)) ==> start + k < j
            <= data.len(),
    decreases 4 - k,
{
    if k >= 4 || start + k >= data.len() {
    } else {
        let b = data[start + k];
        if b & 0x80 == 0 {
        } else {
            lemma_vlq_advances(data, start, k + 1, (acc << 7) | ((b & 0x7f) as u32));
        }
    }
}

/// Decodes one track event at `*i`.  On success `*i` is advanced past
/// the event; on failure the error of whichever stage failed is returned
/// unchanged.
pub fn parse_track_event_at(data: &[u8], i: &mut usize) -> (r: Result<TrackEvent, MIDIParsingError>)
    ensures
        match r {
            Ok(te) => spec_parse_track_event(data@, *old(i) as int) matches Ok((sv, sj)) && te@
                == sv && *final(i) as int == sj && *old(i) < *final(i) <= data@.len(),
            Err(e) => spec_parse_track_event(data@, *old(i) as int) == Err::<(TrackEventV, int), _>(
                e,
            ) && *old(i) <= *final(i) && (*final(i) <= data@.len() || *final(i) == *old(i)),
        },
{
    let delta_time = match parse_variable_length_at(data, i) {
        Ok(dt) => dt,
        Err(e) => { return Err(e) },
    };
    if let Some(meta_event) = try_parse_meta_event(data, i) {
        return Ok(TrackEvent { delta_time, event: TrackEventType::Meta(meta_event) });
    }
    match parse_midi_event_at(data, i) {
        Ok(event) => Ok(TrackEvent { delta_time, event: TrackEventType::Midi(event) }),
        Err(e) => Err(e),
    }
}

/// What decoding track events from `i` up to the declared boundary `end`
/// yields: events are decoded one after another while the position is
/// short of `end`; the final position is reported as well (an event may
/// overrun `end`, and the loop is position-bound, so it can land past it).
pub open spec fn spec_parse_track_events(data: Seq<u8>, i: int, end: int) -> Result<
    (Seq<TrackEventV>, int),
    MIDIParsingError,
>
    decreases (if i < end { end - i } else { 0 }),
{
    if i >= end {
        Ok((Seq::empty(), i))
    } else {
        match spec_parse_track_event(data, i) {
            Err(e) => Err(e),
            Ok((ev, j)) => {
                if j <= i {
                    // Unreachable: a successful event decode always advances
                    // (`lemma_track_event_advances`); this branch only
                    // bounds the recursion.
                    Ok((Seq::empty(), i))
                } else {
                    match spec_parse_track_events(data, j, end) {
                        Err(e) => Err(e),
                        Ok((rest, p)) => Ok((rest.insert(0, ev), p)),
                    }
                }
            },
        }
    }
}

/// Decodes one MTrk body at `*i` with declared byte length `length`:
/// events are decoded until `*i` reaches `*old(i) + length`.  On success
/// the track holds the decoded events in order and `*i` rests where the
/// last event ended.
pub fn parse_track_at(data: &[u8], i: &mut usize, length: usize) -> (r: Result<
    Track,
    MIDIParsingError,
>)
    ensures
        match r {
            Ok(trk) => spec_parse_track_events(data@, *old(i) as int, *old(i) + length) matches Ok(
                (evs, sj),
            ) && trk@ == evs && *final(i) as int == sj && *old(i) <= *final(i) && (*final(i)
                <= data@.len() || *final(i) == *old(i)),
            Err(e) => spec_parse_track_events(data@, *old(i) as int, *old(i) + length) == Err::<
                (Seq<TrackEventV>, int),
                _,
            >(e) && *old(i) <= *final(i) && (*final(i) <= data@.len() || *final(i) == *old(i)),
        },
{
    let i_at_chunk_data_start: usize = *i;
    let ghost end = *i + length;
    let mut events = Vec::<TrackEvent>::new();
    proof {
        assert(events@.map_values(|e: TrackEvent| e@) =~= Seq::<TrackEventV>::empty());
    }
    while *i - i_at_chunk_data_start < length
        invariant
            i_at_chunk_data_start == *old(i),
            end == *old(i) + length,
            *old(i) <= *i,
            *i <= data@.len() || *i == *old(i),
            match spec_parse_track_events(data@, *old(i) as int, end) {
                Ok((all, p)) => spec_parse_track_events(data@, *i as int, end) matches Ok(
                    (rest, p2),
                ) && all == events@.map_values(|e: TrackEvent| e@) + rest && p == p2,
                Err(e) => spec_parse_track_events(data@, *i as int, end) == Err::<
                    (Seq<TrackEventV>, int),
                    _,
                >(e),
            },
        decreases (if (*i as int) < end { end - *i } else { 0 }),
    {
        let ghost i_pre = *i as int;
        let event = match parse_track_event_at(data, i) {
            Ok(ev) => ev,
            Err(e) => {
                proof {
                    assert(spec_parse_track_events(data@, i_pre, end) == Err::<
                        (Seq<TrackEventV>, int),
                        _,
                    >(e));
                }
                return Err(e);
            },
        };
        proof {
            lemma_track_event_advances(data@, i_pre);
        }
        let ghost pre_map = events@.map_values(|e: TrackEvent| e@);
        events.push(event);
        proof {
            assert(events@.map_values(|e: TrackEvent| e@) =~= pre_map.push(event@));
            match spec_parse_track_events(data@, *i as int, end) {
                Ok((rest, p2)) => {
                    assert(spec_parse_track_events(data@, i_pre, end) matches Ok((r0, q0)) && r0
                        == rest.insert(0, event@) && q0 == p2);
                    assert(pre_map.push(event@) + rest =~= pre_map + rest.insert(0, event@));
                },
                Err(_) => {},
            }
        }
    }
    proof {
        assert(spec_parse_track_events(data@, *i as int, end) == Ok::<_, MIDIParsingError>(
            (Seq::<TrackEventV>::empty(), *i as int),
        ));
        if spec_parse_track_events(data@, *old(i) as int, end) matches Ok((all, p)) {
            assert(events@.map_values(|e: TrackEvent| e@) + Seq::<TrackEventV>::empty()
                =~= events@.map_values(|e: TrackEvent| e@));
        }
    }
    let trk = Track(events);
    Ok(trk)
}

/// The 32-bit big-endian word at position `i`.
pub open spec fn spec_be32(data: Seq<u8>, i: int) -> u32 {
    ((data[i] as u32) << 24) | ((data[i + 1] as u32) << 16) | ((data[i + 2] as u32) << 8) | (data[i
        + 3] as u32)
}

/// Whether the four bytes at `i` spell the header chunk tag `MThd`.
pub open spec fn spec_is_mthd(data: Seq<u8>, i: int) -> bool {
    data[i] == 0x4d && data[i + 1] == 0x54 && data[i + 2] == 0x68 && data[i + 3] == 0x64
}

/// Whether the four bytes at `i` spell the track chunk tag `MTrk`.
pub open spec fn spec_is_mtrk(data: Seq<u8>, i: int) -> bool {
    data[i] == 0x4d && data[i + 1] == 0x54 && data[i + 2] == 0x72 && data[i + 3] == 0x6b
}

/// What scanning chunks from position `i` yields, with `header` and
/// `tracks` the results collected so far.  Each chunk is a 4-byte tag, a
/// 4-byte big-endian length, and a body: an `MThd` body must be declared
/// exactly 6 bytes long and replaces the header (last one wins); an
/// `MTrk` body is decoded as track events; any other chunk is skipped by
/// its declared length uninterpreted.  The scan ends at the end of the
/// buffer.
pub open spec fn spec_parse_chunks(
    data: Seq<u8>,
    i: int,
    header: Header,
    tracks: Seq<Seq<TrackEventV>>,
) -> Result<MidiFileV, MIDIParsingError>
    decreases (if i < data.len() { data.len() - i } else { 0 }),
{
    if i >= data.len() {
        Ok(MidiFileV { header, tracks })
    } else if i + 4 > data.len() {
        Err(
            MIDIParsingError::EOFError {
                position: i as usize,
                tried_to_read: 4,
                buffer_size: data.len() as usize,
            },
        )
    } else if i + 8 > data.len() {
        Err(
            MIDIParsingError::EOFError {
                position: (i + 4) as usize,
                tried_to_read: 4,
                buffer_size: data.len() as usize,
            },
        )
    } else {
        let length = spec_be32(data, i + 4) as int;
        let body = i + 8;
        if spec_is_mthd(data, i) {
            if length != MTHD_LENGTH {
                Err(MIDIParsingError::WrongHeaderSize { expected: MTHD_LENGTH, found: length as usize })
            } else {
                match spec_parse_header(data, body) {
                    Err(e) => Err(e),
                    Ok((h, j)) => spec_parse_chunks(data, j, h, tracks),
                }
            }
        } else if spec_is_mtrk(data, i) {
            match spec_parse_track_events(data, body, body + length) {
                Err(e) => Err(e),
                Ok((evs, j)) => {
                    if j <= i {
                        // Unreachable: a decoded track body starts past the
                        // 8 tag/length bytes (`lemma_track_events_lower_bound`);
                        // this branch only bounds the recursion.
                        Ok(MidiFileV { header, tracks })
                    } else {
                        spec_parse_chunks(data, j, header, tracks.push(evs))
                    }
                },
            }
        } else {
            spec_parse_chunks(data, body + length, header, tracks)
        }
    }
}

/// A successful run of track-event decodes never ends before its
/// starting position.
pub proof fn lemma_track_events_lower_bound(data: Seq<u8>, start: int, end: int)
    ensures
        spec_parse_track_events(data, start, end) matches Ok((evs, p)) ==> p >= start,
    decreases (if start < end { end - start } else { 0 }),
{
    if start >= end {
    } else {
        match spec_parse_track_event(data, start) {
            Err(_) => {},
            Ok((ev, j)) => {
                if j > start {
                    lemma_track_events_lower_bound(data, j, end);
                }
            },
        }
    }
}

/// Past the end of the buffer the scan is complete: what was collected
/// is the result.
proof fn lemma_chunks_at_end(data: Seq<u8>, i: int, header: Header, tracks: Seq<Seq<TrackEventV>>)
    requires
        i >= data.len(),
    ensures
        spec_parse_chunks(data, i, header, tracks) == Ok::<_, MIDIParsingError>(
            MidiFileV { header, tracks },
        ),
{
}

/// A buffer that ends inside a chunk's tag or length fails with the
/// end-of-file error of the four-byte read that cannot be satisfied.
proof fn lemma_chunks_eof(data: Seq<u8>, i: int, header: Header, tracks: Seq<Seq<TrackEventV>>)
    requires
        i < data.len(),
        i + 8 > data.len(),
    ensures
        spec_parse_chunks(data, i, header, tracks) == Err::<MidiFileV, _>(
            MIDIParsingError::EOFError {
                position: (if i + 4 > data.len() {
                    i
                } else {
                    i + 4
                }) as usize,
                tried_to_read: 4,
                buffer_size: data.len() as usize,
            },
        ),
{
}

/// One scan step over an `MThd` chunk: a declared length other than 6 is
/// the wrong-header-size error, a failing body decode is its error, and
/// a decoded header replaces the one in force.
proof fn lemma_chunks_step_mthd(
    data: Seq<u8>,
    i: int,
    header: Header,
    tracks: Seq<Seq<TrackEventV>>,
)
    requires
        0 <= i,
        i + 8 <= data.len(),
        spec_is_mthd(data, i),
    ensures
        ({
            let length = spec_be32(data, i + 4) as int;
            if length != MTHD_LENGTH {
                spec_parse_chunks(data, i, header, tracks) == Err::<MidiFileV, _>(
                    MIDIParsingError::WrongHeaderSize {
                        expected: MTHD_LENGTH,
                        found: length as usize,
                    },
                )
            } else {
                match spec_parse_header(data, i + 8) {
                    Err(e) => spec_parse_chunks(data, i, header, tracks) == Err::<MidiFileV, _>(e),
                    Ok((h, j)) => spec_parse_chunks(data, i, header, tracks) == spec_parse_chunks(
                        data,
                        j,
                        h,
                        tracks,
                    ),
                }
            }
        }),
{
}

/// One scan step over an `MTrk` chunk: a failing body decode is its
/// error, and a decoded body appends one track.
proof fn lemma_chunks_step_mtrk(
    data: Seq<u8>,
    i: int,
    header: Header,
    tracks: Seq<Seq<TrackEventV>>,
)
    requires
        0 <= i,
        i + 8 <= data.len(),
        !spec_is_mthd(data, i),
        spec_is_mtrk(data, i),
    ensures
        ({
            let end = i + 8 + spec_be32(data, i + 4);
            match spec_parse_track_events(data, i + 8, end) {
                Err(e) => spec_parse_chunks(data, i, header, tracks) == Err::<MidiFileV, _>(e),
                Ok((evs, j)) => spec_parse_chunks(data, i, header, tracks) == spec_parse_chunks(
                    data,
                    j,
                    header,
                    tracks.push(evs),
                ),
            }
        }),
{
    lemma_track_events_lower_bound(data, i + 8, i + 8 + spec_be32(data, i + 4));
}

/// One scan step over a chunk of unrecognised type: its declared length
/// is skipped without interpretation.
proof fn lemma_chunks_step_skip(
    data: Seq<u8>,
    i: int,
    header: Header,
    tracks: Seq<Seq<TrackEventV>>,
)
    requires
        0 <= i,
        i + 8 <= data.len(),
        !spec_is_mthd(data, i),
        !spec_is_mtrk(data, i),
    ensures
        spec_parse_chunks(data, i, header, tracks) == spec_parse_chunks(
            data,
            i + 8 + spec_be32(data, i + 4),
            header,
            tracks,
        ),
{
}

/// What decoding a whole buffer yields: chunks scanned from the start,
/// with the default header in force until an `MThd` chunk replaces it and
/// no tracks collected yet.
pub open spec fn spec_parse_midi_file(data: Seq<u8>) -> Result<MidiFileV, MIDIParsingError> {
    spec_parse_chunks(data, 0, spec_default_header(), Seq::empty())
}

/// Decodes the contents of a Standard MIDI File image into a
/// [`MidiFile`], or fails with the positioned error of the first thing
/// wrong with it.  A pure function of the buffer: no partial result is
/// ever returned.
pub fn parse_midi_file(data: &[u8]) -> (r: Result<MidiFile, MIDIParsingError>)
    ensures
        match r {
            Ok(f) => spec_parse_midi_file(data@) == Ok::<_, MIDIParsingError>(f@),
            Err(e) => spec_parse_midi_file(data@) == Err::<MidiFileV, _>(e),
        },
{
    let mut i: usize = 0;
    let mut header: Header = Header::default();
    let mut tracks = Vec::<Track>::new();
    proof {
        assert(tracks@.map_values(|t: Track| t@) =~= Seq::<Seq<TrackEventV>>::empty());
    }
    while i < data.len()
        invariant
            i <= data@.len(),
            spec_parse_midi_file(data@) == spec_parse_chunks(
                data@,
                i as int,
                header,
                tracks@.map_values(|t: Track| t@),
            ),
        decreases data@.len() - i,
    {
        let ghost i0 = i as int;
        let ghost header0 = header;
        let ghost tracks0 = tracks@.map_values(|t: Track| t@);
        let chunk_type_raw = match read_bytes_at(data, &mut i, 4) {
            Ok(t) => t,
            Err(e) => {
                proof {
                    lemma_chunks_eof(data@, i0, header0, tracks0);
                }
                return Err(e);
            },
        };
        let chunk_length_raw = match read_bytes_at(data, &mut i, 4) {
            Ok(l) => l,
            Err(e) => {
                proof {
                    lemma_chunks_eof(data@, i0, header0, tracks0);
                }
                return Err(e);
            },
        };
        let chunk_length = ((chunk_length_raw[0] as u32) << 24) | ((chunk_length_raw[1] as u32)
            << 16) | ((chunk_length_raw[2] as u32) << 8) | (chunk_length_raw[3] as u32);
        proof {
            assert(chunk_length == spec_be32(data@, i0 + 4));
        }
        if chunk_type_raw[0] == 0x4d && chunk_type_raw[1] == 0x54 && chunk_type_raw[2] == 0x68
            && chunk_type_raw[3] == 0x64 {
            // MThd
            proof {
                assert(spec_is_mthd(data@, i0));
                lemma_chunks_step_mthd(data@, i0, header0, tracks0);
            }
            if chunk_length as usize != MTHD_LENGTH {
                return Err(
                    MIDIParsingError::WrongHeaderSize {
                        expected: MTHD_LENGTH,
                        found: chunk_length as usize,
                    },
                );
            }
            header = match parse_header_at(data, &mut i) {
                Ok(h) => h,
                Err(e) => { return Err(e) },
            };
        } else if chunk_type_raw[0] == 0x4d && chunk_type_raw[1] == 0x54 && chunk_type_raw[2]
            == 0x72 && chunk_type_raw[3] == 0x6b {
            // MTrk
            proof {
                assert(!spec_is_mthd(data@, i0) && spec_is_mtrk(data@, i0));
                lemma_chunks_step_mtrk(data@, i0, header0, tracks0);
            }
            let track = match parse_track_at(data, &mut i, chunk_length as usize) {
                Ok(trk) => trk,
                Err(e) => { return Err(e) },
            };
            proof {
                let pre = tracks@.map_values(|t: Track| t@);
                assert((tracks@.push(track)).map_values(|t: Track| t@) =~= pre.push(track@));
            }
            tracks.push(track);
        } else {
            // Skip unknown chunk types by their declared length.
            proof {
                assert(!spec_is_mthd(data@, i0) && !spec_is_mtrk(data@, i0));
                lemma_chunks_step_skip(data@, i0, header0, tracks0);
            }
            if chunk_length as usize > data.len() - i {
                i = data.len();
                proof {
                    lemma_chunks_at_end(data@, i0 + 8 + chunk_length, header0, tracks0);
                    lemma_chunks_at_end(data@, i as int, header0, tracks0);
                }
            } else {
                i = i + chunk_length as usize;
            }
        }
    }
    let file = MidiFile { header, tracks };
    proof {
        assert(file@ =~= (MidiFileV {
            header,
            tracks: tracks@.map_values(|t: Track| t@),
        }));
    }
    Ok(file)
}

/// Whether exactly `n` whole track events decode one after another from
/// position `i` and land exactly on `end`.
pub open spec fn spec_events_span(data: Seq<u8>, i: int, end: int, n: nat) -> bool
    decreases n,
{
    if n == 0 {
        i == end
    } else {
        match spec_parse_track_event(data, i) {
            Ok((ev, j)) => spec_events_span(data, j, end, (n - 1) as nat),
            Err(_) => false,
        }
    }
}

/// A span of whole events never runs backwards.
proof fn lemma_events_span_bounds(data: Seq<u8>, i: int, end: int, n: nat)
    requires
        spec_events_span(data, i, end, n),
    ensures
        i <= end,
    decreases n,
{
    if n == 0 {
    } else {
        match spec_parse_track_event(data, i) {
            Ok((ev, j)) => {
                lemma_track_event_advances(data, i);
                lemma_events_span_bounds(data, j, end, (n - 1) as nat);
            },
            Err(_) => {},
        }
    }
}

/// A track chunk whose declared length is exactly consumed by `n` whole
/// events decodes to exactly `n` track events, ending on the boundary.
pub proof fn lemma_track_event_count(data: Seq<u8>, start: int, end: int, n: nat)
    requires
        spec_events_span(data, start, end, n),
    ensures
        spec_parse_track_events(data, start, end) matches Ok((evs, p)) && evs.len() == n && p
            == end,
    decreases n,
{
    if n == 0 {
    } else {
        match spec_parse_track_event(data, start) {
            Ok((ev, j)) => {
                lemma_track_event_advances(data, start);
                lemma_events_span_bounds(data, j, end, (n - 1) as nat);
                lemma_track_event_count(data, j, end, (n - 1) as nat);
            },
            Err(_) => {},
        }
    }
}

/// A track chunk that ends mid-event fails with exactly the error of the
/// incomplete decode: when `n` whole events reach position `i` short of
/// the boundary and the next event decode fails, the whole track decode
/// fails with that error — which carries the byte offset of the
/// incomplete read.
pub proof fn lemma_track_truncated_event_fails(
    data: Seq<u8>,
    start: int,
    i: int,
    end: int,
    n: nat,
    e: MIDIParsingError,
)
    requires
        spec_events_span(data, start, i, n),
        i < end,
        spec_parse_track_event(data, i) == Err::<(TrackEventV, int), _>(e),
    ensures
        spec_parse_track_events(data, start, end) == Err::<(Seq<TrackEventV>, int), _>(e),
    decreases n,
{
    if n == 0 {
    } else {
        match spec_parse_track_event(data, start) {
            Ok((ev, j)) => {
                lemma_track_event_advances(data, start);
                lemma_events_span_bounds(data, j, i, (n - 1) as nat);
                lemma_track_truncated_event_fails(data, j, i, end, (n - 1) as nat, e);
            },
            Err(_) => {},
        }
    }
}

} // verus!

