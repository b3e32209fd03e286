//! Standard MIDI files: importing a file as a `ser`-style note of atoms and
//! rests, and building the tracks that export writes.
//!
//! The library sees a MIDI file through plain track items (delta ticks and
//! the few messages it reads or writes); `midly` parses and encodes the
//! bytes.

use vstd::prelude::*;
use std::collections::HashMap;
use midly::{Format, Header, Smf, Timing, TrackEvent};
use midly::TrackEventKind::{Meta, Midi};
use midly::MidiMessage::{NoteOn, NoteOff, ProgramChange};
use midly::MetaMessage::{EndOfTrack, Tempo};
use crate::text::str_eq;
use crate::note::{Note, NoteV, ParamValue, ParamValueV, ParamsV, params_view, notes_view, no_params, TICKS_PER_WHOLE};
use crate::text::to_owned_string;

verus! {

broadcast use vstd::std_specs::hash::group_hash_axioms;

// ---------------------------------------------------------------------------
// Plain MIDI data
// ---------------------------------------------------------------------------

/// A MIDI message, as far as this library reads or writes them. A
/// `NoteOff` is written with release velocity 0; when reading, the release
/// velocity is not kept.
#[derive(Clone, Copy, Debug, PartialEq, Eq, Structural)]
pub enum TrackMessage {
    NoteOn { channel: u8, key: u8, vel: u8 },
    NoteOff { channel: u8, key: u8 },
    ProgramChange { channel: u8, program: u8 },
    Tempo(u32),
    EndOfTrack,
    Other,
}

/// A track event: ticks since the previous event, and the message.
#[derive(Clone, Copy, Debug, PartialEq, Eq, Structural)]
pub struct TrackItem {
    pub delta: u32,
    pub message: TrackMessage,
}

/// The timing of a file: ticks per quarter note, or SMPTE time code.
#[derive(Clone, Copy, Debug, PartialEq, Eq, Structural)]
pub enum SmfTiming {
    Metrical(u16),
    Timecode,
}

/// The tracks by their items.
pub open spec fn tracks_view(t: Seq<Vec<TrackItem>>) -> Seq<Seq<TrackItem>> {
    Seq::new(t.len(), |i: int| t[i]@)
}

/// What `midly::Smf::parse` makes of the bytes, as timing and plain track
/// items, or the message `"SMF parse: <error>"`.
pub uninterp spec fn parsed_smf(bytes: Seq<u8>) -> Result<(SmfTiming, Seq<Seq<TrackItem>>), Seq<char>>;

/// `midly::Smf::parse`, for the file's timing; the error as
/// `"SMF parse: <error>"`.
#[verifier::external_body]
fn smf_timing(bytes: &[u8]) -> (r: Result<SmfTiming, String>)
    ensures
        match r {
            Ok(t) => parsed_smf(bytes@) is Ok && parsed_smf(bytes@)->Ok_0.0 == t,
            Err(e) => parsed_smf(bytes@) == Err::<(SmfTiming, Seq<Seq<TrackItem>>), Seq<char>>(e@),
        },
{
    match Smf::parse(bytes) {
        Ok(smf) => Ok(match smf.header.timing {
            Timing::Metrical(t) => SmfTiming::Metrical(t.as_int()),
            Timing::Timecode(..) => SmfTiming::Timecode,
        }),
        Err(e) => Err(format!("SMF parse: {e:?}")),
    }
}

/// `midly::Smf::parse`, for the file's tracks, each event turned into a
/// plain track item: note on (channel, key, velocity), note off (channel,
/// key); anything else is `Other`.
#[verifier::external_body]
fn smf_tracks(bytes: &[u8]) -> (r: Vec<Vec<TrackItem>>)
    requires
        parsed_smf(bytes@) is Ok,
    ensures
        tracks_view(r@) == parsed_smf(bytes@)->Ok_0.1,
{
    let smf = Smf::parse(bytes).unwrap();
    smf.tracks.iter().map(|t| t.iter().map(|e| TrackItem { delta: e.delta.as_int(), message: match e.kind {
        Midi { channel: c, message: NoteOn { key: k, vel: v } } =>
            TrackMessage::NoteOn { channel: c.as_int(), key: k.as_int(), vel: v.as_int() },
        Midi { channel: c, message: NoteOff { key: k, .. } } =>
            TrackMessage::NoteOff { channel: c.as_int(), key: k.as_int() },
        _ => TrackMessage::Other,
    } }).collect()).collect()
}

// ---------------------------------------------------------------------------
// Import
// ---------------------------------------------------------------------------

/// A sounded note: start tick, length in ticks, key, velocity.
pub type Sounded = (u32, u32, u8, u8);

/// The slot of a (channel, key) pair among open notes.
pub open spec fn slot(channel: u8, key: u8) -> u16 {
    (channel * 256 + key) as u16
}

/// Reading a track: the current tick, the open notes by slot (start tick
/// and velocity), and the notes closed so far.
pub ghost struct ReadState {
    pub tick: int,
    pub open: Map<u16, (u32, u8)>,
    pub closed: Seq<Sounded>,
}

/// One track event: a note-on with positive velocity opens its slot; a
/// note-off, or a note-on with velocity 0, closes an open slot.
pub open spec fn read_step(s: ReadState, it: TrackItem) -> ReadState {
    let tick = s.tick + it.delta;
    match it.message {
        TrackMessage::NoteOn { channel, key, vel } if vel > 0 =>
            ReadState { tick, open: s.open.insert(slot(channel, key), (tick as u32, vel)), closed: s.closed },
        TrackMessage::NoteOn { channel, key, .. } => close_slot(s, tick, channel, key),
        TrackMessage::NoteOff { channel, key } => close_slot(s, tick, channel, key),
        _ => ReadState { tick, ..s },
    }
}

/// Closing the slot of (channel, key) at `tick`, if it is open.
pub open spec fn close_slot(s: ReadState, tick: int, channel: u8, key: u8) -> ReadState {
    let k = slot(channel, key);
    if s.open.contains_key(k) {
        let (start, vel) = s.open[k];
        ReadState {
            tick,
            open: s.open.remove(k),
            closed: s.closed.push((start, (tick - start) as u32, key, vel)),
        }
    } else {
        ReadState { tick, ..s }
    }
}

/// Reading the items of one track from tick 0 with nothing open.
pub open spec fn read_track(items: Seq<TrackItem>) -> ReadState
    decreases items.len(),
{
    if items.len() == 0 {
        ReadState { tick: 0, open: Map::empty(), closed: Seq::empty() }
    } else {
        read_step(read_track(items.drop_last()), items.last())
    }
}

/// The notes of all tracks, track by track.
pub open spec fn sounded_notes(tracks: Seq<Seq<TrackItem>>) -> Seq<Sounded>
    decreases tracks.len(),
{
    if tracks.len() == 0 {
        Seq::empty()
    } else {
        sounded_notes(tracks.drop_last()) + read_track(tracks.last()).closed
    }
}

/// The sum of the deltas of a track: its last tick.
pub open spec fn track_length(items: Seq<TrackItem>) -> int
    decreases items.len(),
{
    if items.len() == 0 { 0 } else { track_length(items.drop_last()) + items.last().delta }
}

/// Every track ends by tick `u32::MAX`, so tick counts fit in `u32`.
pub open spec fn ticks_fit(tracks: Seq<Seq<TrackItem>>) -> bool {
    forall|i: int| 0 <= i < tracks.len() ==> track_length(#[trigger] tracks[i]) <= u32::MAX
}

/// Lexicographic order on sounded notes.
pub open spec fn sounded_le(a: Sounded, b: Sounded) -> bool {
    a.0 < b.0 || (a.0 == b.0 && (a.1 < b.1 || (a.1 == b.1 && (a.2 < b.2 || (a.2 == b.2 && a.3 <= b.3)))))
}

/// Where `x` goes in `s`: before the first element it is below.
pub open spec fn sounded_slot(s: Seq<Sounded>, x: Sounded) -> int
    decreases s.len(),
{
    if s.len() == 0 {
        0
    } else if !sounded_le(s[0], x) {
        0
    } else {
        1 + sounded_slot(s.drop_first(), x)
    }
}

/// Insertion sort of sounded notes.
pub open spec fn sort_sounded(s: Seq<Sounded>) -> Seq<Sounded>
    decreases s.len(),
{
    if s.len() == 0 {
        s
    } else {
        let sorted = sort_sounded(s.drop_last());
        let k = sounded_slot(sorted, s.last());
        sorted.take(k).push(s.last()) + sorted.skip(k)
    }
}

/// Ticks of a file (`tpq` per quarter note) as score ticks, rounded down.
pub open spec fn score_ticks(t: int, tpq: u16) -> u64 {
    ((t * TICKS_PER_WHOLE) / (4 * tpq)) as u64
}

/// The exponent of the highest power of two not above `n`.
pub open spec fn ilog2(n: nat) -> nat
    decreases n,
{
    if n < 2 { 0 } else { 1 + ilog2(n / 2) }
}

/// `2^e`.
pub open spec fn two_pow(e: nat) -> nat
    decreases e,
{
    if e == 0 { 1 } else { 2 * two_pow((e - 1) as nat) }
}

/// The IEEE-754 single-precision bit pattern of a whole number below 2^24:
/// biased exponent and the bits below the leading one.
pub open spec fn f32_bits_of_int(n: nat) -> u32 {
    if n == 0 {
        0
    } else {
        let e = ilog2(n);
        ((127 + e) * 0x80_0000 + (n - two_pow(e)) * two_pow((23 - e) as nat)) as u32
    }
}

/// The parameters of an imported note: its velocity when it is not 100.
pub open spec fn velocity_params(vel: u8) -> ParamsV {
    if vel != 100 {
        seq![("velocity"@, ParamValueV::Number(f32_bits_of_int(vel as nat)))]
    } else {
        Seq::empty()
    }
}

/// The items of the imported sequence after `notes`, from `cursor`: a rest
/// for each gap, then an atom per note (at least one file tick long).
pub open spec fn import_items(notes: Seq<Sounded>, tpq: u16) -> (Seq<NoteV>, int)
    decreases notes.len(),
{
    if notes.len() == 0 {
        (Seq::empty(), 0)
    } else {
        let (items, cursor) = import_items(notes.drop_last(), tpq);
        let (start, dur, key, vel) = notes.last();
        let items = if start > cursor {
            items.push(NoteV::Rest { duration: score_ticks(start - cursor, tpq), parameters: Seq::empty() })
        } else {
            items
        };
        let len = if dur < 1 { 1int } else { dur as int };
        (items.push(NoteV::Atom { midi: key, duration: score_ticks(len, tpq), parameters: velocity_params(vel) }),
            start + dur)
    }
}

/// The note a parsed file imports as.
pub open spec fn import_spec(timing: SmfTiming, tracks: Seq<Seq<TrackItem>>) -> Result<NoteV, Seq<char>> {
    match timing {
        SmfTiming::Timecode => Err("timecode timing unsupported"@),
        SmfTiming::Metrical(tpq) => if tpq == 0 {
            Err("zero ticks per quarter note"@)
        } else {
            Ok(NoteV::Serial(import_items(sort_sounded(sounded_notes(tracks)), tpq).0))
        },
    }
}

proof fn lemma_ilog2(n: nat, e: nat)
    requires
        two_pow(e) <= n < 2 * two_pow(e),
    ensures
        ilog2(n) == e,
    decreases e,
{
    if e > 0 {
        assert(two_pow(e) == 2 * two_pow((e - 1) as nat));
        lemma_ilog2(n / 2, (e - 1) as nat);
    }
}

/// The bit pattern of a velocity as a single-precision number.
fn velocity_bits(n: u8) -> (r: u32)
    ensures
        r == f32_bits_of_int(n as nat),
{
    proof {
        reveal_with_fuel(two_pow, 24);
    }
    let v = n as u32;
    if v == 0 {
        return 0;
    }
    if v < 2 {
        proof {
            assert(two_pow(0) == 1 && two_pow(23) == 8388608);
            lemma_ilog2(v as nat, 0);
        }
        return 127 * 0x80_0000 + (v - 1) * 0x800000;
    }
    if v < 4 {
        proof {
            assert(two_pow(1) == 2 && two_pow(22) == 4194304);
            lemma_ilog2(v as nat, 1);
        }
        return 128 * 0x80_0000 + (v - 2) * 0x400000;
    }
    if v < 8 {
        proof {
            assert(two_pow(2) == 4 && two_pow(21) == 2097152);
            lemma_ilog2(v as nat, 2);
        }
        return 129 * 0x80_0000 + (v - 4) * 0x200000;
    }
    if v < 16 {
        proof {
            assert(two_pow(3) == 8 && two_pow(20) == 1048576);
            lemma_ilog2(v as nat, 3);
        }
        return 130 * 0x80_0000 + (v - 8) * 0x100000;
    }
    if v < 32 {
        proof {
            assert(two_pow(4) == 16 && two_pow(19) == 524288);
            lemma_ilog2(v as nat, 4);
        }
        return 131 * 0x80_0000 + (v - 16) * 0x80000;
    }
    if v < 64 {
        proof {
            assert(two_pow(5) == 32 && two_pow(18) == 262144);
            lemma_ilog2(v as nat, 5);
        }
        return 132 * 0x80_0000 + (v - 32) * 0x40000;
    }
    if v < 128 {
        proof {
            assert(two_pow(6) == 64 && two_pow(17) == 131072);
            lemma_ilog2(v as nat, 6);
        }
        return 133 * 0x80_0000 + (v - 64) * 0x20000;
    }
    {
        proof {
            assert(two_pow(7) == 128 && two_pow(16) == 65536);
            lemma_ilog2(v as nat, 7);
        }
        return 134 * 0x80_0000 + (v - 128) * 0x10000;
    }
}

proof fn lemma_track_length_prefix(items: Seq<TrackItem>, i: int)
    requires
        0 <= i <= items.len(),
    ensures
        track_length(items.take(i)) <= track_length(items),
    decreases items.len() - i,
{
    if i < items.len() {
        lemma_track_length_prefix(items, i + 1);
        assert(items.take(i + 1).drop_last() =~= items.take(i));
    } else {
        assert(items.take(i) =~= items);
    }
}

/// Reads one track, appending the notes it closes to `notes`.
fn read_track_into(items: &Vec<TrackItem>, notes: &mut Vec<Sounded>)
    requires
        track_length(items@) <= u32::MAX,
    ensures
        final(notes)@ == old(notes)@ + read_track(items@).closed,
{
    let ghost base = notes@;
    let mut tick: u32 = 0;
    let mut open: HashMap<u16, (u32, u8)> = HashMap::new();
    let n = items.len();
    assert(items@.take(0) =~= Seq::<TrackItem>::empty());
    for i in 0..n
        invariant
            n == items@.len(),
            track_length(items@) <= u32::MAX,
            read_track(items@.take(i as int)).tick == tick,
            read_track(items@.take(i as int)).open == open@,
            notes@ == base + read_track(items@.take(i as int)).closed,
            track_length(items@.take(i as int)) == tick,
            forall|k: u16| #[trigger] open@.contains_key(k) ==> open@[k].0 <= tick,
    {
        let it = items[i];
        proof {
            assert(items@.take(i + 1).drop_last() =~= items@.take(i as int));
            lemma_track_length_prefix(items@, i + 1);
        }
        tick = tick + it.delta;
        match it.message {
            TrackMessage::NoteOn { channel, key, vel } if vel > 0 => {
                open.insert(channel as u16 * 256 + key as u16, (tick, vel));
            },
            TrackMessage::NoteOn { channel, key, .. } | TrackMessage::NoteOff { channel, key } => {
                let k: u16 = channel as u16 * 256 + key as u16;
                match open.remove(&k) {
                    Some((start, vel)) => {
                        notes.push((start, tick - start, key, vel));
                        proof {
                            assert(notes@ =~= base + read_track(items@.take(i + 1)).closed);
                        }
                    },
                    None => {},
                }
            },
            _ => {},
        }
    }
    assert(items@.take(n as int) =~= items@);
}

/// The notes of all tracks, track by track.
fn read_tracks(tracks: &Vec<Vec<TrackItem>>) -> (r: Vec<Sounded>)
    requires
        ticks_fit(tracks_view(tracks@)),
    ensures
        r@ == sounded_notes(tracks_view(tracks@)),
{
    let mut notes: Vec<Sounded> = Vec::new();
    let n = tracks.len();
    let ghost tv = tracks_view(tracks@);
    for i in 0..n
        invariant
            n == tracks@.len(),
            tv == tracks_view(tracks@),
            ticks_fit(tv),
            notes@ == sounded_notes(tv.take(i as int)),
    {
        proof {
            assert(tv.take(i + 1).drop_last() =~= tv.take(i as int));
            assert(tv[i as int] == tracks@[i as int]@);
        }
        read_track_into(&tracks[i], &mut notes);
        assert(tv.take(i + 1).last() == tracks@[i as int]@);
    }
    assert(tv.take(n as int) =~= tv);
    notes
}

fn le_sounded(a: Sounded, b: Sounded) -> (r: bool)
    ensures
        r == sounded_le(a, b),
{
    a.0 < b.0 || (a.0 == b.0 && (a.1 < b.1 || (a.1 == b.1 && (a.2 < b.2 || (a.2 == b.2 && a.3 <= b.3)))))
}

/// The index where `x` is inserted into `s`.
fn find_slot(s: &Vec<Sounded>, x: Sounded) -> (k: usize)
    ensures
        k == sounded_slot(s@, x),
        k <= s@.len(),
{
    let mut i: usize = 0;
    assert(s@.skip(0) =~= s@);
    while i < s.len() && le_sounded(s[i], x)
        invariant
            i <= s@.len(),
            sounded_slot(s@, x) == i + sounded_slot(s@.skip(i as int), x),
        decreases s@.len() - i,
    {
        assert(s@.skip(i as int).drop_first() =~= s@.skip(i + 1));
        i = i + 1;
    }
    if i < s.len() {
        assert(s@.skip(i as int)[0] == s@[i as int]);
    } else {
        assert(s@.skip(i as int).len() == 0);
    }
    i
}

/// Insertion sort of sounded notes, in lexicographic order.
fn sort_notes(s: &Vec<Sounded>) -> (r: Vec<Sounded>)
    ensures
        r@ == sort_sounded(s@),
{
    let mut sorted: Vec<Sounded> = Vec::new();
    let n = s.len();
    assert(s@.take(0) =~= Seq::<Sounded>::empty());
    for i in 0..n
        invariant
            n == s@.len(),
            sorted@ == sort_sounded(s@.take(i as int)),
    {
        let x = s[i];
        let k = find_slot(&sorted, x);
        let ghost before = sorted@;
        sorted.insert(k, x);
        proof {
            let t = s@.take(i + 1);
            assert(t.drop_last() =~= s@.take(i as int));
            assert(t.last() == x);
            assert(sorted@ =~= before.take(k as int).push(x) + before.skip(k as int));
        }
    }
    assert(s@.take(n as int) =~= s@);
    sorted
}

/// File ticks as score ticks, rounded down.
fn to_score_ticks(t: u64, tpq: u16) -> (r: u64)
    requires
        tpq > 0,
        t <= u32::MAX,
    ensures
        r == score_ticks(t as int, tpq),
{
    assert(t * TICKS_PER_WHOLE <= u32::MAX * TICKS_PER_WHOLE) by (nonlinear_arith)
        requires t <= u32::MAX;
    (t * TICKS_PER_WHOLE) / (4 * tpq as u64)
}

/// The parameters of an imported note.
fn velocity_parameters(vel: u8) -> (r: Vec<(String, ParamValue)>)
    ensures
        params_view(r@) == velocity_params(vel),
{
    let mut p: Vec<(String, ParamValue)> = Vec::new();
    if vel != 100 {
        p.push((to_owned_string("velocity"), ParamValue::Number(velocity_bits(vel))));
    }
    assert(params_view(p@) =~= velocity_params(vel));
    p
}

/// The items of the imported sequence: rests for gaps, atoms for notes.
fn import_notes(notes: &Vec<Sounded>, tpq: u16) -> (r: Vec<Note>)
    requires
        tpq > 0,
    ensures
        notes_view(r@) == import_items(notes@, tpq).0,
{
    let mut items: Vec<Note> = Vec::new();
    let mut cursor: u64 = 0;
    let n = notes.len();
    assert(notes@.take(0) =~= Seq::<Sounded>::empty());
    for i in 0..n
        invariant
            n == notes@.len(),
            tpq > 0,
            notes_view(items@) == import_items(notes@.take(i as int), tpq).0,
            cursor == import_items(notes@.take(i as int), tpq).1,
            cursor <= 2 * (u32::MAX as int),
    {
        let (start, dur, key, vel) = notes[i];
        proof {
            assert(notes@.take(i + 1).drop_last() =~= notes@.take(i as int));
        }
        let ghost before = items@;
        if start as u64 > cursor {
            let d = to_score_ticks(start as u64 - cursor, tpq);
            items.push(Note::Rest { duration: d, parameters: no_params() });
        }
        let len: u64 = if dur < 1 { 1 } else { dur as u64 };
        let d = to_score_ticks(len, tpq);
        items.push(Note::Atom { midi: key, duration: d, parameters: velocity_parameters(vel) });
        cursor = start as u64 + dur as u64;
        proof {
            assert(notes_view(items@) =~= import_items(notes@.take(i + 1), tpq).0);
        }
    }
    assert(notes@.take(n as int) =~= notes@);
    items
}

/// The note a parsed file imports as: its notes sorted by start tick (then
/// length, key and velocity), a rest before each gap, and an atom per
/// note with its velocity unless it is 100. Durations are score ticks,
/// rounded down.
pub fn import_tracks(timing: SmfTiming, tracks: &Vec<Vec<TrackItem>>) -> (r: Result<Note, String>)
    requires
        ticks_fit(tracks_view(tracks@)),
    ensures
        match r {
            Ok(n) => import_spec(timing, tracks_view(tracks@)) == Ok::<NoteV, Seq<char>>(n@),
            Err(e) => import_spec(timing, tracks_view(tracks@)) == Err::<NoteV, Seq<char>>(e@),
        },
{
    let tpq = match timing {
        SmfTiming::Timecode => return Err(to_owned_string("timecode timing unsupported")),
        SmfTiming::Metrical(t) => t,
    };
    if tpq == 0 {
        return Err(to_owned_string("zero ticks per quarter note"));
    }
    let notes = read_tracks(tracks);
    let sorted = sort_notes(&notes);
    Ok(Note::Serial(import_notes(&sorted, tpq)))
}

/// Whether every track of the file ends by tick `u32::MAX`.
pub open spec fn smf_ticks_fit(bytes: Seq<u8>) -> bool {
    match parsed_smf(bytes) {
        Ok((_, tracks)) => ticks_fit(tracks),
        Err(_) => true,
    }
}

/// What importing the bytes gives: the parse error, or the imported note.
pub open spec fn smf_import_spec(bytes: Seq<u8>) -> Result<NoteV, Seq<char>> {
    match parsed_smf(bytes) {
        Ok((timing, tracks)) => import_spec(timing, tracks),
        Err(e) => Err(e),
    }
}

fn tracks_fit(tracks: &Vec<Vec<TrackItem>>) -> (r: bool)
    ensures
        r == ticks_fit(tracks_view(tracks@)),
{
    let ghost tv = tracks_view(tracks@);
    let mut i: usize = 0;
    while i < tracks.len()
        invariant
            i <= tracks@.len(),
            tv == tracks_view(tracks@),
            forall|j: int| 0 <= j < i ==> track_length(#[trigger] tv[j]) <= u32::MAX,
        decreases tracks@.len() - i,
    {
        let t = &tracks[i];
        let mut sum: u64 = 0;
        let mut j: usize = 0;
        assert(t@.take(0) =~= Seq::<TrackItem>::empty());
        while j < t.len()
            invariant
                i < tracks@.len(),
                tv == tracks_view(tracks@),
                t@ == tracks@[i as int]@,
                j <= t@.len(),
                sum == track_length(t@.take(j as int)),
                sum <= u32::MAX,
            decreases t@.len() - j,
        {
            assert(t@.take(j + 1).drop_last() =~= t@.take(j as int));
            sum = sum + t[j].delta as u64;
            if sum > u32::MAX as u64 {
                proof {
                    lemma_track_length_prefix(t@, j + 1);
                    assert(tv[i as int] == t@);
                }
                return false;
            }
            j = j + 1;
        }
        assert(t@.take(t@.len() as int) =~= t@);
        assert(tv[i as int] == t@);
        i = i + 1;
    }
    true
}

/// Import a Standard MIDI File as a `ser`-style note: atoms for notes (with
/// `velocity` when it differs from 100), rests for gaps.
pub fn smf_to_note(bytes: &[u8]) -> (r: Result<Note, String>)
    requires
        smf_ticks_fit(bytes@),
    ensures
        match r {
            Ok(n) => smf_import_spec(bytes@) == Ok::<NoteV, Seq<char>>(n@),
            Err(e) => smf_import_spec(bytes@) == Err::<NoteV, Seq<char>>(e@),
        },
{
    let timing = smf_timing(bytes)?;
    let tracks = smf_tracks(bytes);
    import_tracks(timing, &tracks)
}

/// `smf_to_note` without a precondition: `None` when a track of the file
/// runs past tick `u32::MAX`.
pub fn try_smf_to_note(bytes: &[u8]) -> (r: Option<Result<Note, String>>)
    ensures
        match r {
            None => !smf_ticks_fit(bytes@),
            Some(Ok(n)) => smf_import_spec(bytes@) == Ok::<NoteV, Seq<char>>(n@),
            Some(Err(e)) => smf_import_spec(bytes@) == Err::<NoteV, Seq<char>>(e@),
        },
{
    let fits = match smf_timing(bytes) {
        Ok(_) => tracks_fit(&smf_tracks(bytes)),
        Err(_) => true,
    };
    if fits {
        Some(smf_to_note(bytes))
    } else {
        None
    }
}

// ---------------------------------------------------------------------------
// Export
// ---------------------------------------------------------------------------

#[verifier::external_type_specification]
#[verifier::external_body]
pub struct ExSmf<'a>(Smf<'a>);

/// The tracks an `Smf` under construction holds, as plain items.
pub uninterp spec fn smf_contents(s: Smf<'static>) -> Seq<Seq<TrackItem>>;

/// The header an `Smf` under construction holds: whether its format is
/// parallel (else single-track), and its ticks per quarter note as stored
/// (15 bits).
pub uninterp spec fn smf_header(s: Smf<'static>) -> (bool, u16);

/// A track item as `midly` holds it: the channel in 4 bits, key,
/// velocity and program in 7, a tempo in 24 and the delta in 28 (higher
/// bits are dropped); anything but a note, program change or tempo is an
/// end of track.
pub open spec fn held_item(item: TrackItem) -> TrackItem {
    TrackItem {
        delta: item.delta & 0x0FFF_FFFF,
        message: match item.message {
            TrackMessage::NoteOn { channel, key, vel } =>
                TrackMessage::NoteOn { channel: channel & 15, key: key & 127, vel: vel & 127 },
            TrackMessage::NoteOff { channel, key } =>
                TrackMessage::NoteOff { channel: channel & 15, key: key & 127 },
            TrackMessage::ProgramChange { channel, program } =>
                TrackMessage::ProgramChange { channel: channel & 15, program: program & 127 },
            TrackMessage::Tempo(t) => TrackMessage::Tempo(t & 0xFF_FFFF),
            _ => TrackMessage::EndOfTrack,
        },
    }
}

/// Tracks as `midly` holds them.
pub open spec fn held_tracks(tracks: Seq<Seq<TrackItem>>) -> Seq<Seq<TrackItem>> {
    tracks.map_values(|t: Seq<TrackItem>| t.map_values(|item: TrackItem| held_item(item)))
}

/// What reading a written item gives back: notes on and off as they were
/// (the release velocity is not kept), anything else as `Other`.
pub open spec fn read_back_item(item: TrackItem) -> TrackItem {
    TrackItem {
        delta: item.delta,
        message: match item.message {
            TrackMessage::NoteOn { channel, key, vel } => TrackMessage::NoteOn { channel, key, vel },
            TrackMessage::NoteOff { channel, key } => TrackMessage::NoteOff { channel, key },
            _ => TrackMessage::Other,
        },
    }
}

/// What reading written tracks gives back.
pub open spec fn read_back(tracks: Seq<Seq<TrackItem>>) -> Seq<Seq<TrackItem>> {
    tracks.map_values(|t: Seq<TrackItem>| t.map_values(|item: TrackItem| read_back_item(item)))
}

/// Whether every item is one this library writes (a note, a program
/// change, a tempo or an end of track).
pub open spec fn writable(tracks: Seq<Seq<TrackItem>>) -> bool {
    forall|i: int, j: int| 0 <= i < tracks.len() && 0 <= j < tracks[i].len() ==> !(#[trigger] tracks[i][j].message is Other)
}

/// Whether reading `bytes` gives a file with metrical timing `tpq` and the
/// tracks as written.
pub open spec fn reads_back(bytes: Seq<u8>, tpq: u16, tracks: Seq<Seq<TrackItem>>) -> bool {
    parsed_smf(bytes) == Ok::<(SmfTiming, Seq<Seq<TrackItem>>), Seq<char>>((SmfTiming::Metrical(tpq), read_back(tracks)))
}

/// The bytes `midly` encodes a file with this header and these tracks as.
pub uninterp spec fn smf_written(parallel: bool, tpq: u16, tracks: Seq<Seq<TrackItem>>) -> Seq<u8>;

/// `midly::Smf::new` with a metrical header: no tracks yet; the ticks
/// per quarter note keep their low 15 bits.
#[verifier::external_body]
fn smf_new(parallel: bool, tpq: u16) -> (r: Smf<'static>)
    ensures
        smf_contents(r) == Seq::<Seq<TrackItem>>::empty(),
        smf_header(r) == (parallel, tpq & 0x7FFF),
{
    let format = if parallel { Format::Parallel } else { Format::SingleTrack };
    Smf::new(Header::new(format, Timing::Metrical(tpq.into())))
}

/// `Vec::push` on `Smf::tracks`: a new, empty track.
#[verifier::external_body]
fn smf_add_track(s: &mut Smf<'static>)
    ensures
        smf_contents(*final(s)) == smf_contents(*old(s)).push(Seq::empty()),
        smf_header(*final(s)) == smf_header(*old(s)),
{
    s.tracks.push(Vec::new());
}

/// Appends an item to the last track, as a `midly::TrackEvent` (note off
/// with release velocity 0; `Other` becomes an end of track), its fields
/// cut to midly's widths.
#[verifier::external_body]
fn smf_add_event(s: &mut Smf<'static>, item: TrackItem)
    requires
        smf_contents(*old(s)).len() > 0,
    ensures
        smf_contents(*final(s)) == smf_contents(*old(s)).update(
            smf_contents(*old(s)).len() - 1,
            smf_contents(*old(s)).last().push(held_item(item)),
        ),
        smf_header(*final(s)) == smf_header(*old(s)),
{
    let kind = match item.message {
        TrackMessage::NoteOn { channel: c, key: k, vel: v } =>
            Midi { channel: c.into(), message: NoteOn { key: k.into(), vel: v.into() } },
        TrackMessage::NoteOff { channel: c, key: k } =>
            Midi { channel: c.into(), message: NoteOff { key: k.into(), vel: 0.into() } },
        TrackMessage::ProgramChange { channel: c, program: p } =>
            Midi { channel: c.into(), message: ProgramChange { program: p.into() } },
        TrackMessage::Tempo(t) => Meta(Tempo(t.into())),
        _ => Meta(EndOfTrack),
    };
    s.tracks.last_mut().unwrap().push(TrackEvent { delta: item.delta.into(), kind });
}

/// `midly::Smf::write` into a byte vector. Writing fails only on more than
/// 65535 tracks or a track chunk over 4 GiB; an item takes at most 10
/// bytes, so a track of up to 0x1999_9999 items stays within that limit.
/// `midly::Smf::parse`
/// reads such a file back: the header's metrical timing, each track chunk
/// in order, and every event of a chunk (running status undone), notes,
/// program changes, tempos and ends of track alike.
#[verifier::external_body]
fn smf_write(s: &Smf<'static>) -> (r: Vec<u8>)
    requires
        smf_contents(*s).len() <= 65535,
        forall|i: int| 0 <= i < smf_contents(*s).len() ==> (#[trigger] smf_contents(*s)[i]).len() <= 0x1999_9999,
    ensures
        r@ == smf_written(smf_header(*s).0, smf_header(*s).1, smf_contents(*s)),
        writable(smf_contents(*s)) ==> reads_back(r@, smf_header(*s).1, smf_contents(*s)),
{
    let mut out = Vec::new();
    s.write(&mut out).expect("SMF write");
    out
}

/// The bytes of a file with these tracks.
fn write_tracks(parallel: bool, tpq: u16, tracks: &Vec<Vec<TrackItem>>) -> (r: Vec<u8>)
    requires
        tracks@.len() <= 65535,
        forall|i: int| 0 <= i < tracks@.len() ==> (#[trigger] tracks@[i])@.len() <= 0x1999_9999,
    ensures
        r@ == smf_written(parallel, tpq & 0x7FFF, held_tracks(tracks_view(tracks@))),
        reads_back(r@, tpq & 0x7FFF, held_tracks(tracks_view(tracks@))),
{
    let mut smf = smf_new(parallel, tpq);
    let n = tracks.len();
    assert(tracks_view(tracks@.take(0)) =~= Seq::<Seq<TrackItem>>::empty());
    for i in 0..n
        invariant
            n == tracks@.len(),
            smf_header(smf) == (parallel, tpq & 0x7FFF),
            smf_contents(smf) == held_tracks(tracks_view(tracks@.take(i as int))),
    {
        smf_add_track(&mut smf);
        let t = &tracks[i];
        let m = t.len();
        assert(t@.take(0) =~= Seq::<TrackItem>::empty());
        assert(t@.take(0).map_values(|item: TrackItem| held_item(item)) =~= Seq::<TrackItem>::empty());
        for j in 0..m
            invariant
                m == t@.len(),
                t@ == tracks@[i as int]@,
                smf_header(smf) == (parallel, tpq & 0x7FFF),
                smf_contents(smf) == held_tracks(tracks_view(tracks@.take(i as int))).push(
                    t@.take(j as int).map_values(|item: TrackItem| held_item(item)),
                ),
        {
            let ghost before = smf_contents(smf);
            smf_add_event(&mut smf, t[j]);
            proof {
                assert(t@.take(j + 1) =~= t@.take(j as int).push(t@[j as int]));
                assert(t@.take(j + 1).map_values(|item: TrackItem| held_item(item))
                    =~= t@.take(j as int).map_values(|item: TrackItem| held_item(item)).push(held_item(t@[j as int])));
                assert(smf_contents(smf) =~= held_tracks(tracks_view(tracks@.take(i as int))).push(
                    t@.take(j + 1).map_values(|item: TrackItem| held_item(item)),
                ));
            }
        }
        proof {
            assert(t@.take(m as int) =~= t@);
            assert(tracks_view(tracks@.take(i + 1)) =~= tracks_view(tracks@.take(i as int)).push(t@));
            assert(held_tracks(tracks_view(tracks@.take(i + 1))) =~= held_tracks(tracks_view(tracks@.take(i as int))).push(
                t@.map_values(|item: TrackItem| held_item(item)),
            ));
        }
    }
    proof {
        assert(tracks@.take(n as int) =~= tracks@);
        assert forall|i: int| 0 <= i < smf_contents(smf).len() implies (#[trigger] smf_contents(smf)[i]).len() <= 0x1999_9999 by {
            assert(smf_contents(smf)[i].len() == tracks@[i]@.len());
        }
        let h = held_tracks(tracks_view(tracks@));
        assert forall|i: int, j: int| 0 <= i < h.len() && 0 <= j < h[i].len() implies !(#[trigger] h[i][j].message is Other) by {
            assert(h[i][j] == held_item(tracks@[i]@[j]));
        }
    }
    smf_write(&smf)
}

/// General MIDI program guessed for a patch name (lead-ish voices).
pub open spec fn program_of(patch: Seq<char>) -> u8 {
    if patch == "sine"@ { 80 }
    else if patch == "square"@ { 81 }
    else if patch == "triangle"@ { 80 }
    else if patch == "sawtooth"@ { 82 }
    else if patch == "noise"@ { 127 }
    else { 81 }
}

/// GM program guess for our patch names (lead-ish voices).
pub fn patch_program(patch: &str) -> (r: u8)
    ensures
        r == program_of(patch@),
{
    if str_eq(patch, "sine") { 80 }
    else if str_eq(patch, "square") { 81 }
    else if str_eq(patch, "triangle") { 80 }
    else if str_eq(patch, "sawtooth") { 82 }
    else if str_eq(patch, "noise") { 127 }
    else { 81 }
}

/// A sounding event of a performance, placed at a tick of the file: a note
/// on (its id, pitch, velocity 0–127 and `patch` parameter when it is a
/// string), a note off (the id of its note on), or anything else.
pub enum ExportKind {
    NoteOn { note_id: u64, pitch: u8, velocity: u8, patch: Option<String> },
    NoteOff { note_id: u64 },
    Other,
}

/// An event to export: its tick, what it is, and its instrument.
pub struct ExportEvent {
    pub tick: u32,
    pub kind: ExportKind,
    pub instrument: String,
}

pub ghost enum ExportKindV {
    NoteOn { note_id: u64, pitch: u8, velocity: u8, patch: Option<Seq<char>> },
    NoteOff { note_id: u64 },
    Other,
}

pub ghost struct ExportEventV {
    pub tick: u32,
    pub kind: ExportKindV,
    pub instrument: Seq<char>,
}

impl ExportEvent {
    pub open spec fn view(&self) -> ExportEventV {
        ExportEventV {
            tick: self.tick,
            kind: match &self.kind {
                ExportKind::NoteOn { note_id, pitch, velocity, patch } => ExportKindV::NoteOn {
                    note_id: *note_id,
                    pitch: *pitch,
                    velocity: *velocity,
                    patch: match patch { Some(p) => Some(p@), None => None },
                },
                ExportKind::NoteOff { note_id } => ExportKindV::NoteOff { note_id: *note_id },
                ExportKind::Other => ExportKindV::Other,
            },
            instrument: self.instrument@,
        }
    }
}

/// The events by their models.
pub open spec fn exports_view(s: Seq<ExportEvent>) -> Seq<ExportEventV> {
    Seq::new(s.len(), |i: int| s[i].view())
}

/// The pitch of each note id, from its note on (the last one wins).
pub open spec fn pitch_index(s: Seq<ExportEventV>) -> Map<u64, u8>
    decreases s.len(),
{
    if s.len() == 0 {
        Map::empty()
    } else {
        let m = pitch_index(s.drop_last());
        match s.last().kind {
            ExportKindV::NoteOn { note_id, pitch, .. } => m.insert(note_id, pitch),
            _ => m,
        }
    }
}

/// Map NoteOff id -> pitch from its paired NoteOn.
pub fn index_pitches(events: &[ExportEvent]) -> (r: HashMap<u64, u8>)
    ensures
        r@ == pitch_index(exports_view(events@)),
{
    let mut map: HashMap<u64, u8> = HashMap::new();
    let n = events.len();
    let ghost ev = exports_view(events@);
    assert(ev.take(0) =~= Seq::<ExportEventV>::empty());
    for i in 0..n
        invariant
            n == events@.len(),
            ev == exports_view(events@),
            map@ == pitch_index(ev.take(i as int)),
    {
        assert(ev.take(i + 1).drop_last() =~= ev.take(i as int));
        assert(ev.take(i + 1).last() == events@[i as int].view());
        match &events[i].kind {
            ExportKind::NoteOn { note_id, pitch, .. } => {
                map.insert(*note_id, *pitch);
            },
            _ => {},
        }
    }
    assert(ev.take(n as int) =~= ev);
    map
}

/// A MIDI message waiting for its place in a track.
#[derive(Clone, Copy, Debug, PartialEq, Eq, Structural)]
pub enum Outgoing {
    Off(u8),
    On(u8, u8),
    Program(u8),
}

/// An outgoing message at its tick; the middle number orders messages of
/// one tick: program change, note offs, then note ons.
pub type Queued = (u32, u8, Outgoing);

/// The messages of a track's events, in event order, and whether the
/// program was sent: the first note on is preceded by a program change
/// for its patch (`"square"` when it has none); a note off is sent only
/// for an id whose pitch is known.
pub open spec fn queue_events(s: Seq<ExportEventV>, pitches: Map<u64, u8>) -> (Seq<Queued>, bool)
    decreases s.len(),
{
    if s.len() == 0 {
        (Seq::empty(), false)
    } else {
        let (q, sent) = queue_events(s.drop_last(), pitches);
        let e = s.last();
        match e.kind {
            ExportKindV::NoteOn { pitch, velocity, patch, .. } => {
                let q = if sent {
                    q
                } else {
                    let name = match patch { Some(p) => p, None => "square"@ };
                    q.push((e.tick, 0u8, Outgoing::Program(program_of(name))))
                };
                (q.push((e.tick, 2u8, Outgoing::On(pitch, velocity))), true)
            },
            ExportKindV::NoteOff { note_id } => if pitches.contains_key(note_id) {
                (q.push((e.tick, 1u8, Outgoing::Off(pitches[note_id]))), sent)
            } else {
                (q, sent)
            },
            ExportKindV::Other => (q, sent),
        }
    }
}

/// Whether `a` goes no later than `b`: by tick, then by order.
pub open spec fn queued_le(a: Queued, b: Queued) -> bool {
    a.0 < b.0 || (a.0 == b.0 && a.1 <= b.1)
}

/// Where `x` goes in `s`: before the first element that goes after it.
pub open spec fn queued_slot(s: Seq<Queued>, x: Queued) -> int
    decreases s.len(),
{
    if s.len() == 0 {
        0
    } else if !queued_le(s[0], x) {
        0
    } else {
        1 + queued_slot(s.drop_first(), x)
    }
}

/// Stable insertion sort by tick and order.
pub open spec fn sort_queued(s: Seq<Queued>) -> Seq<Queued>
    decreases s.len(),
{
    if s.len() == 0 {
        s
    } else {
        let sorted = sort_queued(s.drop_last());
        let k = queued_slot(sorted, s.last());
        sorted.take(k).push(s.last()) + sorted.skip(k)
    }
}

/// `a` or 127, whichever is smaller.
pub open spec fn min127(a: u8) -> u8 {
    if a < 127 { a } else { 127 }
}

/// The track message of an outgoing message on `channel`.
pub open spec fn outgoing_message(o: Outgoing, channel: u8) -> TrackMessage {
    match o {
        Outgoing::On(key, vel) => TrackMessage::NoteOn { channel, key: min127(key), vel: min127(vel) },
        Outgoing::Off(key) => TrackMessage::NoteOff { channel, key: min127(key) },
        Outgoing::Program(p) => TrackMessage::ProgramChange { channel, program: min127(p) },
    }
}

/// The items of sorted messages, each with the ticks since the previous
/// one (none before tick 0), and the last tick.
pub open spec fn delta_items(q: Seq<Queued>, channel: u8) -> (Seq<TrackItem>, u32)
    decreases q.len(),
{
    if q.len() == 0 {
        (Seq::empty(), 0)
    } else {
        let (items, last) = delta_items(q.drop_last(), channel);
        let (tick, _, o) = q.last();
        let delta = if tick > last { (tick - last) as u32 } else { 0u32 };
        (items.push(TrackItem { delta, message: outgoing_message(o, channel) }), tick)
    }
}

/// A track of events on `channel`: a tempo first when one is given, the
/// sorted messages, and the end of the track.
pub open spec fn track_spec(s: Seq<ExportEventV>, pitches: Map<u64, u8>, channel: u8, tempo: Option<u32>) -> Seq<TrackItem> {
    let head = match tempo {
        Some(m) => seq![TrackItem { delta: 0, message: TrackMessage::Tempo(m) }],
        None => Seq::empty(),
    };
    head + delta_items(sort_queued(queue_events(s, pitches).0), channel).0
        + seq![TrackItem { delta: 0, message: TrackMessage::EndOfTrack }]
}

fn le_queued(a: Queued, b: Queued) -> (r: bool)
    ensures
        r == queued_le(a, b),
{
    a.0 < b.0 || (a.0 == b.0 && a.1 <= b.1)
}

fn find_queued_slot(s: &Vec<Queued>, x: Queued) -> (k: usize)
    ensures
        k == queued_slot(s@, x),
        k <= s@.len(),
{
    let mut i: usize = 0;
    assert(s@.skip(0) =~= s@);
    while i < s.len() && le_queued(s[i], x)
        invariant
            i <= s@.len(),
            queued_slot(s@, x) == i + queued_slot(s@.skip(i as int), x),
        decreases s@.len() - i,
    {
        assert(s@.skip(i as int).drop_first() =~= s@.skip(i + 1));
        i = i + 1;
    }
    if i < s.len() {
        assert(s@.skip(i as int)[0] == s@[i as int]);
    } else {
        assert(s@.skip(i as int).len() == 0);
    }
    i
}

/// Messages sorted by tick, then order; equal keys keep their order.
fn sort_messages(s: &Vec<Queued>) -> (r: Vec<Queued>)
    ensures
        r@ == sort_queued(s@),
{
    let mut sorted: Vec<Queued> = Vec::new();
    let n = s.len();
    assert(s@.take(0) =~= Seq::<Queued>::empty());
    for i in 0..n
        invariant
            n == s@.len(),
            sorted@ == sort_queued(s@.take(i as int)),
    {
        let x = s[i];
        let k = find_queued_slot(&sorted, x);
        let ghost before = sorted@;
        sorted.insert(k, x);
        proof {
            let t = s@.take(i + 1);
            assert(t.drop_last() =~= s@.take(i as int));
            assert(sorted@ =~= before.take(k as int).push(x) + before.skip(k as int));
        }
    }
    assert(s@.take(n as int) =~= s@);
    sorted
}

fn min_127(a: u8) -> (r: u8)
    ensures
        r == min127(a),
{
    if a < 127 { a } else { 127 }
}

/// The events of a track, as SMF items on `channel`, with a tempo first
/// when one is given (microseconds per quarter note).
pub fn build_track(events: &[ExportEvent], pitches: &HashMap<u64, u8>, channel: u8, tempo: Option<u32>) -> (r: Vec<TrackItem>)
    ensures
        r@ == track_spec(exports_view(events@), pitches@, channel, tempo),
{
    let ghost ev = exports_view(events@);
    let mut queued: Vec<Queued> = Vec::new();
    let mut program_sent = false;
    let n = events.len();
    assert(ev.take(0) =~= Seq::<ExportEventV>::empty());
    for i in 0..n
        invariant
            n == events@.len(),
            ev == exports_view(events@),
            (queued@, program_sent) == queue_events(ev.take(i as int), pitches@),
    {
        assert(ev.take(i + 1).drop_last() =~= ev.take(i as int));
        assert(ev.take(i + 1).last() == events@[i as int].view());
        let e = &events[i];
        match &e.kind {
            ExportKind::NoteOn { pitch, velocity, patch, .. } => {
                if !program_sent {
                    let program = match patch {
                        Some(p) => patch_program(p.as_str()),
                        None => patch_program("square"),
                    };
                    queued.push((e.tick, 0, Outgoing::Program(program)));
                    program_sent = true;
                }
                queued.push((e.tick, 2, Outgoing::On(*pitch, *velocity)));
            },
            ExportKind::NoteOff { note_id } => {
                match pitches.get(note_id) {
                    Some(p) => queued.push((e.tick, 1, Outgoing::Off(*p))),
                    None => {},
                }
            },
            ExportKind::Other => {},
        }
    }
    assert(ev.take(n as int) =~= ev);
    let ordered = sort_messages(&queued);
    let mut track: Vec<TrackItem> = Vec::new();
    match tempo {
        Some(m) => track.push(TrackItem { delta: 0, message: TrackMessage::Tempo(m) }),
        None => {},
    }
    let ghost head = track@;
    let mut last_tick: u32 = 0;
    let m = ordered.len();
    assert(ordered@.take(0) =~= Seq::<Queued>::empty());
    for j in 0..m
        invariant
            m == ordered@.len(),
            track@ == head + delta_items(ordered@.take(j as int), channel).0,
            last_tick == delta_items(ordered@.take(j as int), channel).1,
    {
        assert(ordered@.take(j + 1).drop_last() =~= ordered@.take(j as int));
        let (tick, _, out) = ordered[j];
        let delta: u32 = if tick > last_tick { tick - last_tick } else { 0 };
        last_tick = tick;
        let message = match out {
            Outgoing::On(key, vel) => TrackMessage::NoteOn { channel, key: min_127(key), vel: min_127(vel) },
            Outgoing::Off(key) => TrackMessage::NoteOff { channel, key: min_127(key) },
            Outgoing::Program(p) => TrackMessage::ProgramChange { channel, program: min_127(p) },
        };
        track.push(TrackItem { delta, message });
        assert(track@ =~= head + delta_items(ordered@.take(j + 1), channel).0);
    }
    assert(ordered@.take(m as int) =~= ordered@);
    track.push(TrackItem { delta: 0, message: TrackMessage::EndOfTrack });
    track
}

proof fn lemma_queue_len(s: Seq<ExportEventV>, pitches: Map<u64, u8>)
    ensures
        queue_events(s, pitches).0.len() + (if queue_events(s, pitches).1 { 0int } else { 1int }) <= s.len() + 1,
    decreases s.len(),
{
    if s.len() > 0 {
        lemma_queue_len(s.drop_last(), pitches);
    }
}

proof fn lemma_sort_queued_len(s: Seq<Queued>)
    ensures
        sort_queued(s).len() == s.len(),
    decreases s.len(),
{
    if s.len() > 0 {
        lemma_sort_queued_len(s.drop_last());
        let sorted = sort_queued(s.drop_last());
        let k = queued_slot(sorted, s.last());
        lemma_queued_slot_bound(sorted, s.last());
        assert((sorted.take(k).push(s.last()) + sorted.skip(k)).len() == sorted.len() + 1);
    }
}

proof fn lemma_queued_slot_bound(s: Seq<Queued>, x: Queued)
    ensures
        0 <= queued_slot(s, x) <= s.len(),
    decreases s.len(),
{
    if s.len() > 0 {
        lemma_queued_slot_bound(s.drop_first(), x);
    }
}

proof fn lemma_delta_items_len(q: Seq<Queued>, channel: u8)
    ensures
        delta_items(q, channel).0.len() == q.len(),
    decreases q.len(),
{
    if q.len() > 0 {
        lemma_delta_items_len(q.drop_last(), channel);
    }
}

/// A track of `n` events has at most `n + 3` items.
proof fn lemma_track_len(s: Seq<ExportEventV>, pitches: Map<u64, u8>, channel: u8, tempo: Option<u32>)
    ensures
        track_spec(s, pitches, channel, tempo).len() <= s.len() + 3,
{
    lemma_queue_len(s, pitches);
    lemma_sort_queued_len(queue_events(s, pitches).0);
    lemma_delta_items_len(sort_queued(queue_events(s, pitches).0), channel);
}

/// The one track of a single-track export.
pub open spec fn single_track_file(events: Seq<ExportEventV>, tpq: u16, tempo: u32) -> Seq<u8> {
    smf_written(false, tpq & 0x7FFF, held_tracks(seq![track_spec(events, pitch_index(events), 0, Some(tempo))]))
}

/// Export events to Standard MIDI File bytes: one track on channel 0,
/// starting with the tempo (microseconds per quarter note).
pub fn events_to_smf(events: &[ExportEvent], ticks_per_quarter: u16, tempo: u32) -> (r: Vec<u8>)
    requires
        events@.len() <= 0x0CCC_CCC0,
    ensures
        r@ == single_track_file(exports_view(events@), ticks_per_quarter, tempo),
        reads_back(r@, ticks_per_quarter & 0x7FFF, held_tracks(seq![track_spec(exports_view(events@), pitch_index(exports_view(events@)), 0, Some(tempo))])),
{
    let indexed = index_pitches(events);
    let track = build_track(events, &indexed, 0, Some(tempo));
    proof {
        lemma_track_len(exports_view(events@), indexed@, 0, Some(tempo));
    }
    let mut tracks: Vec<Vec<TrackItem>> = Vec::new();
    tracks.push(track);
    let r = write_tracks(false, ticks_per_quarter, &tracks);
    assert(tracks_view(tracks@) =~= seq![track_spec(exports_view(events@), pitch_index(exports_view(events@)), 0, Some(tempo))]);
    r
}

/// The tempo track of a multi-track export.
pub open spec fn tempo_track_spec(tempo: u32) -> Seq<TrackItem> {
    seq![
        TrackItem { delta: 0, message: TrackMessage::Tempo(tempo) },
        TrackItem { delta: 0, message: TrackMessage::EndOfTrack },
    ]
}

fn tempo_track(tempo: u32) -> (r: Vec<TrackItem>)
    ensures
        r@ == tempo_track_spec(tempo),
{
    let mut t: Vec<TrackItem> = Vec::new();
    t.push(TrackItem { delta: 0, message: TrackMessage::Tempo(tempo) });
    t.push(TrackItem { delta: 0, message: TrackMessage::EndOfTrack });
    assert(t@ =~= tempo_track_spec(tempo));
    t
}

/// A note on or a note off.
pub open spec fn sounding(e: ExportEventV) -> bool {
    e.kind is NoteOn || e.kind is NoteOff
}

/// `a` sorts before `b`: code point by code point, a proper prefix first
/// (the order of `str`).
pub open spec fn name_lt(a: Seq<char>, b: Seq<char>) -> bool
    decreases a.len(),
{
    if a.len() == 0 {
        b.len() > 0
    } else if b.len() == 0 {
        false
    } else if (a[0] as u32) < (b[0] as u32) {
        true
    } else if a[0] == b[0] {
        name_lt(a.drop_first(), b.drop_first())
    } else {
        false
    }
}

/// The instruments of the sounding events, each once, in order of first
/// appearance.
pub open spec fn instruments_in(s: Seq<ExportEventV>) -> Seq<Seq<char>>
    decreases s.len(),
{
    if s.len() == 0 {
        Seq::empty()
    } else {
        let names = instruments_in(s.drop_last());
        if sounding(s.last()) && !names.contains(s.last().instrument) {
            names.push(s.last().instrument)
        } else {
            names
        }
    }
}

/// Where name `x` goes in `s`: before the first name after it.
pub open spec fn name_slot(s: Seq<Seq<char>>, x: Seq<char>) -> int
    decreases s.len(),
{
    if s.len() == 0 {
        0
    } else if name_lt(x, s[0]) {
        0
    } else {
        1 + name_slot(s.drop_first(), x)
    }
}

/// Insertion sort of names.
pub open spec fn sort_names(s: Seq<Seq<char>>) -> Seq<Seq<char>>
    decreases s.len(),
{
    if s.len() == 0 {
        s
    } else {
        let sorted = sort_names(s.drop_last());
        let k = name_slot(sorted, s.last());
        sorted.take(k).push(s.last()) + sorted.skip(k)
    }
}

/// The sounding events of one instrument, in order.
pub open spec fn of_instrument(s: Seq<ExportEventV>, name: Seq<char>) -> Seq<ExportEventV>
    decreases s.len(),
{
    if s.len() == 0 {
        Seq::empty()
    } else {
        let rest = of_instrument(s.drop_last(), name);
        if sounding(s.last()) && s.last().instrument == name { rest.push(s.last()) } else { rest }
    }
}

/// The tracks of a multi-track export: the tempo track, then one track per
/// instrument in name order, on channels 0, 1, … 15, 0, ….
pub open spec fn multi_tracks(s: Seq<ExportEventV>, tempo: u32) -> Seq<Seq<TrackItem>> {
    let names = sort_names(instruments_in(s));
    seq![tempo_track_spec(tempo)] + Seq::new(names.len(), |i: int|
        track_spec(of_instrument(s, names[i]), pitch_index(s), (i % 16) as u8, None))
}

fn name_before(a: &str, b: &str) -> (r: bool)
    ensures
        r == name_lt(a@, b@),
{
    let x = crate::text::chars_of(a);
    let y = crate::text::chars_of(b);
    let mut i: usize = 0;
    assert(x@.skip(0) =~= x@ && y@.skip(0) =~= y@);
    loop
        invariant
            i <= x@.len(),
            i <= y@.len(),
            x@ == a@,
            y@ == b@,
            name_lt(a@, b@) == name_lt(x@.skip(i as int), y@.skip(i as int)),
        decreases x@.len() - i,
    {
        if i == x.len() {
            return i < y.len();
        }
        if i == y.len() {
            return false;
        }
        assert(x@.skip(i as int)[0] == x@[i as int] && y@.skip(i as int)[0] == y@[i as int]);
        if (x[i] as u32) < (y[i] as u32) {
            return true;
        }
        if x[i] != y[i] {
            return false;
        }
        assert(x@.skip(i as int).drop_first() =~= x@.skip(i + 1));
        assert(y@.skip(i as int).drop_first() =~= y@.skip(i + 1));
        i = i + 1;
    }
}

/// The event model of the items of `names`, by their characters.
pub open spec fn names_view(names: Seq<&str>) -> Seq<Seq<char>> {
    Seq::new(names.len(), |i: int| names[i]@)
}

/// The instruments of the sounding events, sorted.
fn sorted_instruments<'a>(events: &'a [ExportEvent]) -> (r: Vec<&'a str>)
    ensures
        names_view(r@) == sort_names(instruments_in(exports_view(events@))),
{
    let ghost ev = exports_view(events@);
    let mut seen: Vec<&str> = Vec::new();
    let n = events.len();
    assert(ev.take(0) =~= Seq::<ExportEventV>::empty());
    for i in 0..n
        invariant
            n == events@.len(),
            ev == exports_view(events@),
            names_view(seen@) == instruments_in(ev.take(i as int)),
    {
        assert(ev.take(i + 1).drop_last() =~= ev.take(i as int));
        assert(ev.take(i + 1).last() == events@[i as int].view());
        let e = &events[i];
        let is_sounding = match &e.kind {
            ExportKind::NoteOn { .. } | ExportKind::NoteOff { .. } => true,
            ExportKind::Other => false,
        };
        if is_sounding {
            let mut found = false;
            let mut j: usize = 0;
            while j < seen.len()
                invariant
                    j <= seen@.len(),
                    found == exists|k: int| 0 <= k < j && names_view(seen@)[k] == e.instrument@,
                decreases seen@.len() - j,
            {
                if crate::text::str_eq(seen[j], e.instrument.as_str()) {
                    found = true;
                }
                assert(names_view(seen@)[j as int] == seen@[j as int]@);
                j = j + 1;
            }
            proof {
                if names_view(seen@).contains(e.instrument@) {
                    let k = choose|k: int| 0 <= k < names_view(seen@).len() && names_view(seen@)[k] == e.instrument@;
                    assert(found);
                }
            }
            if !found {
                seen.push(e.instrument.as_str());
                assert(names_view(seen@) =~= instruments_in(ev.take(i + 1)));
            }
        }
    }
    assert(ev.take(n as int) =~= ev);
    let ghost unsorted = names_view(seen@);
    let mut sorted: Vec<&str> = Vec::new();
    let m = seen.len();
    assert(unsorted.take(0) =~= Seq::<Seq<char>>::empty());
    for i in 0..m
        invariant
            m == seen@.len(),
            unsorted == names_view(seen@),
            names_view(sorted@) == sort_names(unsorted.take(i as int)),
    {
        let x = seen[i];
        let mut k: usize = 0;
        let ghost sv = names_view(sorted@);
        assert(sv.skip(0) =~= sv);
        while k < sorted.len() && !name_before(x, sorted[k])
            invariant
                k <= sorted@.len(),
                sv == names_view(sorted@),
                name_slot(sv, x@) == k + name_slot(sv.skip(k as int), x@),
            decreases sorted@.len() - k,
        {
            assert(sv.skip(k as int).drop_first() =~= sv.skip(k + 1));
            assert(sv.skip(k as int)[0] == sorted@[k as int]@);
            k = k + 1;
        }
        proof {
            if k < sorted@.len() {
                assert(sv.skip(k as int)[0] == sorted@[k as int]@);
            } else {
                assert(sv.skip(k as int).len() == 0);
            }
            assert(unsorted.take(i + 1).drop_last() =~= unsorted.take(i as int));
            assert(unsorted.take(i + 1).last() == x@);
        }
        sorted.insert(k, x);
        assert(names_view(sorted@) =~= sv.take(k as int).push(x@) + sv.skip(k as int));
    }
    assert(unsorted.take(m as int) =~= unsorted);
    sorted
}

impl ExportEvent {
    /// A copy with the same model.
    pub fn duplicate(&self) -> (r: ExportEvent)
        ensures
            r.view() == self.view(),
    {
        let kind = match &self.kind {
            ExportKind::NoteOn { note_id, pitch, velocity, patch } => ExportKind::NoteOn {
                note_id: *note_id,
                pitch: *pitch,
                velocity: *velocity,
                patch: match patch { Some(p) => Some(crate::note::copy_string(p)), None => None },
            },
            ExportKind::NoteOff { note_id } => ExportKind::NoteOff { note_id: *note_id },
            ExportKind::Other => ExportKind::Other,
        };
        ExportEvent { tick: self.tick, kind, instrument: crate::note::copy_string(&self.instrument) }
    }
}

/// The sounding events of one instrument, copied in order.
fn select_instrument(events: &[ExportEvent], name: &str) -> (r: Vec<ExportEvent>)
    ensures
        exports_view(r@) == of_instrument(exports_view(events@), name@),
{
    let ghost ev = exports_view(events@);
    let mut out: Vec<ExportEvent> = Vec::new();
    let n = events.len();
    assert(ev.take(0) =~= Seq::<ExportEventV>::empty());
    for i in 0..n
        invariant
            n == events@.len(),
            ev == exports_view(events@),
            exports_view(out@) == of_instrument(ev.take(i as int), name@),
    {
        assert(ev.take(i + 1).drop_last() =~= ev.take(i as int));
        assert(ev.take(i + 1).last() == events@[i as int].view());
        let e = &events[i];
        let is_sounding = match &e.kind {
            ExportKind::NoteOn { .. } | ExportKind::NoteOff { .. } => true,
            ExportKind::Other => false,
        };
        if is_sounding && crate::text::str_eq(e.instrument.as_str(), name) {
            out.push(e.duplicate());
            assert(exports_view(out@) =~= of_instrument(ev.take(i + 1), name@));
        } else {
            assert(exports_view(out@) =~= of_instrument(ev.take(i + 1), name@));
        }
    }
    assert(ev.take(n as int) =~= ev);
    out
}

proof fn lemma_of_instrument_len(s: Seq<ExportEventV>, name: Seq<char>)
    ensures
        of_instrument(s, name).len() <= s.len(),
    decreases s.len(),
{
    if s.len() > 0 {
        lemma_of_instrument_len(s.drop_last(), name);
    }
}

proof fn lemma_name_slot_bound(s: Seq<Seq<char>>, x: Seq<char>)
    ensures
        0 <= name_slot(s, x) <= s.len(),
    decreases s.len(),
{
    if s.len() > 0 {
        lemma_name_slot_bound(s.drop_first(), x);
    }
}

proof fn lemma_sort_names_len(s: Seq<Seq<char>>)
    ensures
        sort_names(s).len() == s.len(),
    decreases s.len(),
{
    if s.len() > 0 {
        lemma_sort_names_len(s.drop_last());
        lemma_name_slot_bound(sort_names(s.drop_last()), s.last());
    }
}

/// The bytes of a multi-track export.
pub open spec fn multi_track_file(events: Seq<ExportEventV>, tpq: u16, tempo: u32) -> Seq<u8> {
    smf_written(true, tpq & 0x7FFF, held_tracks(multi_tracks(events, tempo)))
}

/// Export one track per instrument (sorted by name, channels rotate
/// 0..15) after a tempo track, as a parallel-format file.
pub fn events_to_smf_multi(events: &[ExportEvent], ticks_per_quarter: u16, tempo: u32) -> (r: Vec<u8>)
    requires
        events@.len() <= 0x0CCC_CCC0,
        instruments_in(exports_view(events@)).len() < 65535,
    ensures
        r@ == multi_track_file(exports_view(events@), ticks_per_quarter, tempo),
        reads_back(r@, ticks_per_quarter & 0x7FFF, held_tracks(multi_tracks(exports_view(events@), tempo))),
{
    let ghost ev = exports_view(events@);
    let indexed = index_pitches(events);
    let names = sorted_instruments(events);
    let ghost nv = names_view(names@);
    proof {
        lemma_sort_names_len(instruments_in(ev));
    }
    let mut tracks: Vec<Vec<TrackItem>> = Vec::new();
    tracks.push(tempo_track(tempo));
    let n = names.len();
    for i in 0..n
        invariant
            n == names@.len(),
            nv == names_view(names@),
            nv == sort_names(instruments_in(ev)),
            ev == exports_view(events@),
            indexed@ == pitch_index(ev),
            events@.len() <= 0x0CCC_CCC0,
            tracks_view(tracks@) == multi_tracks(ev, tempo).take(i + 1),
            forall|j: int| 0 <= j < tracks@.len() ==> (#[trigger] tracks@[j])@.len() <= 0x1999_9999,
    {
        let selected = select_instrument(events, names[i]);
        let channel: u8 = (i % 16) as u8;
        let sel = selected.as_slice();
        let track = build_track(sel, &indexed, channel, None);
        proof {
            lemma_of_instrument_len(ev, nv[i as int]);
            lemma_track_len(exports_view(selected@), indexed@, channel, None);
        }
        proof {
            assert(sel@ == selected@);
            assert(names@[i as int]@ == nv[i as int]);
            assert(exports_view(sel@) == of_instrument(ev, nv[i as int]));
            assert(track@ == multi_tracks(ev, tempo)[i + 1]);
        }
        let ghost old_view = tracks_view(tracks@);
        tracks.push(track);
        proof {
            assert(tracks_view(tracks@) =~= old_view.push(tracks@[i + 1]@));
            assert(multi_tracks(ev, tempo).take(i + 2) =~= multi_tracks(ev, tempo).take(i + 1).push(multi_tracks(ev, tempo)[i + 1]));
        }
    }
    assert(multi_tracks(ev, tempo).take(n + 1) =~= multi_tracks(ev, tempo));
    write_tracks(true, ticks_per_quarter, &tracks)
}

} // verus!
