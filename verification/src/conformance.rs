//! The conformance song: one composition in which every implemented
//! feature of the language appears at least once, and the registry of
//! compiled-in songs that can be played by name.
//!
//! Each section of the song is a spec function that spells out its tree,
//! built by the same resolutions (`ser`, `par`, parameter setters, per-note
//! attributes) that the executable constructors are proved to perform.
//! Numbers are single-precision bit patterns.

use vstd::prelude::*;
use crate::note::{
    Envelope, EnvelopePoint, EnvelopeV, DurationV, InterpolationType, Note, NoteV, ParamValue, ParamValueV,
    TimeUnit, notes_view, params_view,
};
use crate::compose::{ser_defined, ser_items, par_defined, par_items, try_ser, try_par, try_forkseq};
use crate::params::{setter_spec, try_create_param_setter};
use crate::edit::with_param;
use crate::text::{str_eq, to_owned_string};

verus! {

pub const WHOLE: u64 = 1_290_240u64;
pub const HALF: u64 = 645_120u64;
pub const QUARTER: u64 = 322_560u64;
pub const DOTTED_QUARTER: u64 = 483_840u64;
pub const EIGHTH: u64 = 161_280u64;
pub const SIXTEENTH: u64 = 80_640u64;

// ---------------------------------------------------------------------------
// Building blocks
// ---------------------------------------------------------------------------

/// What a block whose items do not resolve plays: an empty parallel block.
pub open spec fn silent_v() -> NoteV {
    NoteV::Parallel(Seq::empty())
}

/// A sounding note without attributes.
pub open spec fn atom_v(midi: u8, duration: u64) -> NoteV {
    NoteV::Atom { midi, duration, parameters: Seq::empty() }
}

/// A rest without attributes.
pub open spec fn rest_v(duration: u64) -> NoteV {
    NoteV::Rest { duration, parameters: Seq::empty() }
}

/// A note whose duration comes from the one before it.
pub open spec fn implicit_v(midi: u8) -> NoteV {
    NoteV::AtomImplicitDuration { midi, parameters: Seq::empty() }
}

/// The previous pitch again, for the previous duration.
pub open spec fn previous_v() -> NoteV {
    NoteV::PreviousPitch { optional_duration: None, parameters: Seq::empty() }
}

/// A number value.
pub open spec fn num(bits: u32) -> ParamValueV {
    ParamValueV::Number(bits)
}

/// `ser`, or silence where the items do not resolve.
pub open spec fn ser_v(items: Seq<NoteV>) -> NoteV {
    if ser_defined(items, false) { NoteV::Serial(ser_items(items, false)) } else { silent_v() }
}

/// `forkseq`, or silence where the items do not resolve.
pub open spec fn forkseq_v(items: Seq<NoteV>) -> NoteV {
    if ser_defined(items, true) { NoteV::ForkSequence(ser_items(items, true)) } else { silent_v() }
}

/// `par`, or silence where the items do not resolve.
pub open spec fn par_v(items: Seq<NoteV>) -> NoteV {
    if par_defined(items) { NoteV::Parallel(par_items(items)) } else { silent_v() }
}

/// `parmin`, or silence where the items do not resolve.
pub open spec fn parmin_v(items: Seq<NoteV>) -> NoteV {
    if par_defined(items) { NoteV::ParallelMin(par_items(items)) } else { silent_v() }
}

/// `forkpar`, or silence where the items do not resolve.
pub open spec fn forkpar_v(items: Seq<NoteV>) -> NoteV {
    if par_defined(items) { NoteV::ForkParallel(par_items(items)) } else { silent_v() }
}

/// A parameter setter (key resolved by prefix), or silence where it
/// cannot be built.
pub open spec fn set_v(key: Seq<char>, value: ParamValueV) -> NoteV {
    match setter_spec(key, value, None) {
        Ok(n) => n,
        Err(_) => silent_v(),
    }
}

/// `n` with a per-note attribute (key and value resolved as by a setter),
/// or silence where the setter cannot be built.
pub open spec fn with_v(n: NoteV, key: Seq<char>, value: ParamValueV) -> NoteV {
    match setter_spec(key, value, None) {
        Ok(NoteV::ParamSetter { key: k, value: v }) => with_param(n, k, v),
        _ => silent_v(),
    }
}

/// An envelope written as a note, before a setter targets it.
pub open spec fn env_v(points: Seq<(u32, DurationV)>, interpolation: InterpolationType) -> ParamValueV {
    ParamValueV::Note(Box::new(NoteV::Envelope(EnvelopeV { target: Seq::empty(), points, interpolation })))
}

/// A point reached after a note value.
pub open spec fn at_note(value: u32, code: Seq<char>) -> (u32, DurationV) {
    (value, DurationV::Note(code))
}

/// A point at a percentage of the note.
pub open spec fn at_percent(value: u32, percent: u32) -> (u32, DurationV) {
    (value, DurationV::Time(percent, TimeUnit::Percent))
}

/// The points of an envelope, as the model holds them.
pub open spec fn points_of(p: Seq<EnvelopePoint>) -> Seq<(u32, DurationV)> {
    Seq::new(p.len(), |i: int| (p[i].value, p[i].duration.view()))
}

// ---------------------------------------------------------------------------
// The song, section by section
// ---------------------------------------------------------------------------

/// Global setup: several pairs in one setter group, with shortened keys.
pub open spec fn setup_v() -> NoteV {
    NoteV::Serial(seq![
        set_v("tempo"@, num(0x42F0_0000)),
        set_v("time_b"@, num(0x4080_0000)),
        set_v("time_n"@, num(0x4080_0000)),
        set_v("patch"@, ParamValueV::String("square"@)),
    ])
}

/// Key, gate and volume.
pub open spec fn tone_v() -> NoteV {
    NoteV::Serial(seq![
        set_v("key"@, ParamValueV::String("Cmaj"@)),
        set_v("gate"@, num(0x3F66_6666)),
        set_v("volume"@, num(0x3F4C_CCCD)),
    ])
}

/// A simple melody: atoms, a dotted rhythm, a rest.
pub open spec fn melody_v() -> NoteV {
    ser_v(seq![atom_v(60, QUARTER), atom_v(62, QUARTER), atom_v(64, DOTTED_QUARTER), rest_v(QUARTER), atom_v(67, HALF)])
}

/// Implicit durations, the previous pitch and a tie.
pub open spec fn implicit_section_v() -> NoteV {
    ser_v(seq![atom_v(60, QUARTER), implicit_v(62), previous_v(), atom_v(64, QUARTER), NoteV::DurationTie { duration: QUARTER }, rest_v(QUARTER)])
}

/// Accidentals: sharp, flat, double sharp, double flat, natural.
pub open spec fn accidentals_v() -> NoteV {
    ser_v(seq![atom_v(61, QUARTER), atom_v(61, QUARTER), atom_v(67, EIGHTH), atom_v(65, EIGHTH), atom_v(71, QUARTER)])
}

/// A chord.
pub open spec fn chord_v() -> NoteV {
    par_v(seq![atom_v(60, HALF), atom_v(64, HALF), atom_v(67, HALF)])
}

/// A chord that advances by its shortest voice.
pub open spec fn chord_min_v() -> NoteV {
    parmin_v(seq![atom_v(60, HALF), atom_v(64, QUARTER)])
}

/// A forked sequence between two notes.
pub open spec fn fork_seq_section_v() -> NoteV {
    ser_v(seq![atom_v(60, QUARTER), forkseq_v(seq![atom_v(64, QUARTER), atom_v(67, QUARTER)]), atom_v(62, QUARTER)])
}

/// A forked chord between two notes.
pub open spec fn fork_par_section_v() -> NoteV {
    ser_v(seq![atom_v(60, QUARTER), forkpar_v(seq![atom_v(64, QUARTER), atom_v(67, QUARTER)]), atom_v(62, QUARTER)])
}

/// A note and two more hits of it.
pub open spec fn repeat_section_v() -> NoteV {
    ser_v(seq![atom_v(69, EIGHTH), NoteV::RepeatMarker(2)])
}

/// Per-note attributes and their unsetting; a scoped parameter.
pub open spec fn attrs_section_v() -> NoteV {
    ser_v(seq![
        set_v("duty"@, num(0x3E80_0000)),
        with_v(atom_v(72, QUARTER), "velocity"@, num(0x42DC_0000)),
        with_v(atom_v(74, QUARTER), "duty"@, ParamValueV::Unset),
        set_v("duty"@, ParamValueV::Unset),
        atom_v(76, QUARTER),
    ])
}

/// Transpose and an overlapping gate, set and unset.
pub open spec fn transpose_section_v() -> NoteV {
    ser_v(seq![
        NoteV::Serial(seq![set_v("transpose"@, num(0x4000_0000)), set_v("gate"@, num(0x3F8C_CCCD))]),
        atom_v(60, QUARTER),
        atom_v(62, QUARTER),
        NoteV::Serial(seq![set_v("transpose"@, ParamValueV::Unset), set_v("gate"@, ParamValueV::Unset)]),
    ])
}

/// The arpeggio that the ornament macro plays on each note.
pub open spec fn ornament_v() -> NoteV {
    ser_v(seq![atom_v(60, SIXTEENTH), atom_v(64, SIXTEENTH), atom_v(67, SIXTEENTH), atom_v(72, SIXTEENTH)])
}

/// An ornament macro, set and unset.
pub open spec fn macro_section_v() -> NoteV {
    ser_v(seq![
        set_v("macro"@, ParamValueV::Note(Box::new(ornament_v()))),
        atom_v(60, HALF),
        atom_v(67, QUARTER),
        set_v("macro"@, ParamValueV::Unset),
        atom_v(72, HALF),
    ])
}

/// The attack shape: cosine, from nothing to 0.9 in the first tenth.
pub open spec fn attack_v() -> ParamValueV {
    env_v(seq![at_percent(0, 0), at_percent(0x3F66_6666, 0x4120_0000)], InterpolationType::Cosine)
}

/// The release shape: cosine, from 0.9 to nothing over the release.
pub open spec fn release_v() -> ParamValueV {
    env_v(seq![at_percent(0x3F66_6666, 0), at_percent(0, 0x42C8_0000)], InterpolationType::Cosine)
}

/// A whole note with attack and release envelopes.
pub open spec fn adsr_section_v() -> NoteV {
    ser_v(adsr_section_v_items())
}

/// The items of the envelope-shaped note's block.
pub open spec fn adsr_section_v_items() -> Seq<NoteV> {
    seq![
        with_v(
            with_v(with_v(atom_v(60, WHOLE), "attack_envelope"@, attack_v()), "release_envelope"@, release_v()),
            "release_duration"@,
            num(0x3E19_999A),
        ),
    ]
}

/// Block-level envelopes with all four interpolations, set and unset.
pub open spec fn envelopes_section_v() -> NoteV {
    ser_v(envelopes_section_v_items())
}

/// The items of the envelope block.
pub open spec fn envelopes_section_v_items() -> Seq<NoteV> {
    seq![
        set_v("volume"@, env_v(seq![at_note(0, "q"@), at_note(0x3F80_0000, "e"@), at_note(0x3F00_0000, "h"@), at_note(0, "q"@)], InterpolationType::Linear)),
        set_v("pitch"@, env_v(seq![at_note(0, "q"@), at_note(0x4000_0000, "e"@), at_note(0, "q"@)], InterpolationType::Linear)),
        set_v("duty"@, env_v(seq![at_note(0x3E4C_CCCD, "q"@), at_note(0x3F4C_CCCD, "q"@)], InterpolationType::Cubic)),
        set_v("note"@, env_v(seq![at_note(0x3C23_D70A, "q"@), at_note(0x3F80_0000, "q"@)], InterpolationType::Exponential)),
        atom_v(60, HALF),
        NoteV::Serial(seq![
            set_v("volume"@, ParamValueV::Unset),
            set_v("pitch"@, ParamValueV::Unset),
            set_v("duty"@, ParamValueV::Unset),
            set_v("note"@, ParamValueV::Unset),
        ]),
    ]
}

/// The conformance song: every section in sequence, after its title.
pub open spec fn all_features_score() -> NoteV {
    ser_v(all_features_items())
}

/// The song's sections, after its title.
pub open spec fn all_features_items() -> Seq<NoteV> {
    seq![
        NoteV::Comment("mmlx all-features conformance song"@),
        setup_v(),
        tone_v(),
        melody_v(),
        implicit_section_v(),
        accidentals_v(),
        chord_v(),
        chord_min_v(),
        fork_seq_section_v(),
        fork_par_section_v(),
        repeat_section_v(),
        attrs_section_v(),
        transpose_section_v(),
        macro_section_v(),
        adsr_section_v(),
        envelopes_section_v(),
    ]
}

fn silent() -> (r: Note)
    ensures
        r@ == silent_v(),
{
    let v: Vec<Note> = Vec::new();
    assert(notes_view(v@) =~= Seq::<NoteV>::empty());
    Note::Parallel(v)
}

fn atom(midi: u8, duration: u64) -> (r: Note)
    ensures
        r@ == atom_v(midi, duration),
{
    let p: Vec<(String, ParamValue)> = Vec::new();
    assert(params_view(p@) =~= Seq::empty());
    Note::Atom { midi, duration, parameters: p }
}

fn rest(duration: u64) -> (r: Note)
    ensures
        r@ == rest_v(duration),
{
    let p: Vec<(String, ParamValue)> = Vec::new();
    assert(params_view(p@) =~= Seq::empty());
    Note::Rest { duration, parameters: p }
}

fn implicit(midi: u8) -> (r: Note)
    ensures
        r@ == implicit_v(midi),
{
    let p: Vec<(String, ParamValue)> = Vec::new();
    assert(params_view(p@) =~= Seq::empty());
    Note::AtomImplicitDuration { midi, parameters: p }
}

fn previous() -> (r: Note)
    ensures
        r@ == previous_v(),
{
    let p: Vec<(String, ParamValue)> = Vec::new();
    assert(params_view(p@) =~= Seq::empty());
    Note::PreviousPitch { optional_duration: None, parameters: p }
}

fn ser_or_silent(items: Vec<Note>) -> (r: Note)
    ensures
        r@ == ser_v(notes_view(items@)),
{
    match try_ser(items) {
        Some(n) => n,
        None => silent(),
    }
}

fn forkseq_or_silent(items: Vec<Note>) -> (r: Note)
    ensures
        r@ == forkseq_v(notes_view(items@)),
{
    match try_forkseq(items) {
        Some(n) => n,
        None => silent(),
    }
}

/// The resolved items of a parallel block, where they resolve.
fn par_parts(items: Vec<Note>) -> (r: Option<Vec<Note>>)
    ensures
        match r {
            Some(v) => par_defined(notes_view(items@)) && notes_view(v@) == par_items(notes_view(items@)),
            None => !par_defined(notes_view(items@)),
        },
{
    match try_par(items) {
        Some(Note::Parallel(v)) => Some(v),
        Some(_) => None,
        None => None,
    }
}

fn par_or_silent(items: Vec<Note>) -> (r: Note)
    ensures
        r@ == par_v(notes_view(items@)),
{
    match par_parts(items) {
        Some(v) => Note::Parallel(v),
        None => silent(),
    }
}

fn parmin_or_silent(items: Vec<Note>) -> (r: Note)
    ensures
        r@ == parmin_v(notes_view(items@)),
{
    match par_parts(items) {
        Some(v) => Note::ParallelMin(v),
        None => silent(),
    }
}

fn forkpar_or_silent(items: Vec<Note>) -> (r: Note)
    ensures
        r@ == forkpar_v(notes_view(items@)),
{
    match par_parts(items) {
        Some(v) => Note::ForkParallel(v),
        None => silent(),
    }
}

fn set(key: &str, value: ParamValue) -> (r: Note)
    ensures
        r@ == set_v(key@, value.view()),
{
    match try_create_param_setter(key, value, None) {
        Ok(n) => n,
        Err(_) => silent(),
    }
}

fn with(n: Note, key: &str, value: ParamValue) -> (r: Note)
    ensures
        r@ == with_v(n@, key@, value.view()),
{
    match try_create_param_setter(key, value, None) {
        Ok(Note::ParamSetter { key: k, value: v }) => n.param(k, v),
        _ => silent(),
    }
}

fn envelope(points: Vec<EnvelopePoint>, interpolation: InterpolationType) -> (r: ParamValue)
    ensures
        r.view() == env_v(points_of(points@), interpolation),
{
    let e = Envelope::with_interpolation("", points, interpolation);
    proof {
        reveal_strlit("");
        assert(e.view().points =~= points_of(points@));
        assert(e.view().target =~= Seq::<char>::empty());
    }
    ParamValue::Note(Box::new(Note::Envelope(e)))
}

fn setup() -> (r: Note)
    ensures
        r@ == setup_v(),
{
    let v = vec![
        set("tempo", ParamValue::Number(0x42F0_0000)),
        set("time_b", ParamValue::Number(0x4080_0000)),
        set("time_n", ParamValue::Number(0x4080_0000)),
        set("patch", ParamValue::String(to_owned_string("square"))),
    ];
    assert(notes_view(v@) =~= setup_v()->Serial_0);
    Note::Serial(v)
}

fn tone() -> (r: Note)
    ensures
        r@ == tone_v(),
{
    let v = vec![
        set("key", ParamValue::String(to_owned_string("Cmaj"))),
        set("gate", ParamValue::Number(0x3F66_6666)),
        set("volume", ParamValue::Number(0x3F4C_CCCD)),
    ];
    assert(notes_view(v@) =~= tone_v()->Serial_0);
    Note::Serial(v)
}

fn melody() -> (r: Note)
    ensures
        r@ == melody_v(),
{
    let v = vec![atom(60, QUARTER), atom(62, QUARTER), atom(64, DOTTED_QUARTER), rest(QUARTER), atom(67, HALF)];
    assert(notes_view(v@) =~= seq![atom_v(60, QUARTER), atom_v(62, QUARTER), atom_v(64, DOTTED_QUARTER), rest_v(QUARTER), atom_v(67, HALF)]);
    ser_or_silent(v)
}

fn implicit_section() -> (r: Note)
    ensures
        r@ == implicit_section_v(),
{
    let v = vec![atom(60, QUARTER), implicit(62), previous(), atom(64, QUARTER), Note::DurationTie { duration: QUARTER }, rest(QUARTER)];
    assert(notes_view(v@) =~= seq![atom_v(60, QUARTER), implicit_v(62), previous_v(), atom_v(64, QUARTER), NoteV::DurationTie { duration: QUARTER }, rest_v(QUARTER)]);
    ser_or_silent(v)
}

fn accidentals() -> (r: Note)
    ensures
        r@ == accidentals_v(),
{
    let v = vec![atom(61, QUARTER), atom(61, QUARTER), atom(67, EIGHTH), atom(65, EIGHTH), atom(71, QUARTER)];
    assert(notes_view(v@) =~= seq![atom_v(61, QUARTER), atom_v(61, QUARTER), atom_v(67, EIGHTH), atom_v(65, EIGHTH), atom_v(71, QUARTER)]);
    ser_or_silent(v)
}

fn chord() -> (r: Note)
    ensures
        r@ == chord_v(),
{
    let v = vec![atom(60, HALF), atom(64, HALF), atom(67, HALF)];
    assert(notes_view(v@) =~= seq![atom_v(60, HALF), atom_v(64, HALF), atom_v(67, HALF)]);
    par_or_silent(v)
}

fn chord_min() -> (r: Note)
    ensures
        r@ == chord_min_v(),
{
    let v = vec![atom(60, HALF), atom(64, QUARTER)];
    assert(notes_view(v@) =~= seq![atom_v(60, HALF), atom_v(64, QUARTER)]);
    parmin_or_silent(v)
}

fn fork_seq_section() -> (r: Note)
    ensures
        r@ == fork_seq_section_v(),
{
    let inner = vec![atom(64, QUARTER), atom(67, QUARTER)];
    assert(notes_view(inner@) =~= seq![atom_v(64, QUARTER), atom_v(67, QUARTER)]);
    let f = forkseq_or_silent(inner);
    let v = vec![atom(60, QUARTER), f, atom(62, QUARTER)];
    assert(notes_view(v@) =~= seq![atom_v(60, QUARTER), forkseq_v(seq![atom_v(64, QUARTER), atom_v(67, QUARTER)]), atom_v(62, QUARTER)]);
    ser_or_silent(v)
}

fn fork_par_section() -> (r: Note)
    ensures
        r@ == fork_par_section_v(),
{
    let inner = vec![atom(64, QUARTER), atom(67, QUARTER)];
    assert(notes_view(inner@) =~= seq![atom_v(64, QUARTER), atom_v(67, QUARTER)]);
    let f = forkpar_or_silent(inner);
    let v = vec![atom(60, QUARTER), f, atom(62, QUARTER)];
    assert(notes_view(v@) =~= seq![atom_v(60, QUARTER), forkpar_v(seq![atom_v(64, QUARTER), atom_v(67, QUARTER)]), atom_v(62, QUARTER)]);
    ser_or_silent(v)
}

fn repeat_section() -> (r: Note)
    ensures
        r@ == repeat_section_v(),
{
    let v = vec![atom(69, EIGHTH), Note::RepeatMarker(2)];
    assert(notes_view(v@) =~= seq![atom_v(69, EIGHTH), NoteV::RepeatMarker(2)]);
    ser_or_silent(v)
}

fn attrs_section() -> (r: Note)
    ensures
        r@ == attrs_section_v(),
{
    let v = vec![
        set("duty", ParamValue::Number(0x3E80_0000)),
        with(atom(72, QUARTER), "velocity", ParamValue::Number(0x42DC_0000)),
        with(atom(74, QUARTER), "duty", ParamValue::Unset),
        set("duty", ParamValue::Unset),
        atom(76, QUARTER),
    ];
    assert(notes_view(v@) =~= seq![
        set_v("duty"@, num(0x3E80_0000)),
        with_v(atom_v(72, QUARTER), "velocity"@, num(0x42DC_0000)),
        with_v(atom_v(74, QUARTER), "duty"@, ParamValueV::Unset),
        set_v("duty"@, ParamValueV::Unset),
        atom_v(76, QUARTER),
    ]);
    ser_or_silent(v)
}

fn transpose_section() -> (r: Note)
    ensures
        r@ == transpose_section_v(),
{
    let on = vec![set("transpose", ParamValue::Number(0x4000_0000)), set("gate", ParamValue::Number(0x3F8C_CCCD))];
    assert(notes_view(on@) =~= seq![set_v("transpose"@, num(0x4000_0000)), set_v("gate"@, num(0x3F8C_CCCD))]);
    let off = vec![set("transpose", ParamValue::Unset), set("gate", ParamValue::Unset)];
    assert(notes_view(off@) =~= seq![set_v("transpose"@, ParamValueV::Unset), set_v("gate"@, ParamValueV::Unset)]);
    let v = vec![Note::Serial(on), atom(60, QUARTER), atom(62, QUARTER), Note::Serial(off)];
    assert(notes_view(v@) =~= seq![
        NoteV::Serial(seq![set_v("transpose"@, num(0x4000_0000)), set_v("gate"@, num(0x3F8C_CCCD))]),
        atom_v(60, QUARTER),
        atom_v(62, QUARTER),
        NoteV::Serial(seq![set_v("transpose"@, ParamValueV::Unset), set_v("gate"@, ParamValueV::Unset)]),
    ]);
    ser_or_silent(v)
}

fn ornament() -> (r: Note)
    ensures
        r@ == ornament_v(),
{
    let v = vec![atom(60, SIXTEENTH), atom(64, SIXTEENTH), atom(67, SIXTEENTH), atom(72, SIXTEENTH)];
    assert(notes_view(v@) =~= seq![atom_v(60, SIXTEENTH), atom_v(64, SIXTEENTH), atom_v(67, SIXTEENTH), atom_v(72, SIXTEENTH)]);
    ser_or_silent(v)
}

fn macro_section() -> (r: Note)
    ensures
        r@ == macro_section_v(),
{
    let v = vec![
        set("macro", ParamValue::Note(Box::new(ornament()))),
        atom(60, HALF),
        atom(67, QUARTER),
        set("macro", ParamValue::Unset),
        atom(72, HALF),
    ];
    assert(notes_view(v@) =~= seq![
        set_v("macro"@, ParamValueV::Note(Box::new(ornament_v()))),
        atom_v(60, HALF),
        atom_v(67, QUARTER),
        set_v("macro"@, ParamValueV::Unset),
        atom_v(72, HALF),
    ]);
    ser_or_silent(v)
}

fn attack() -> (r: ParamValue)
    ensures
        r.view() == attack_v(),
{
    let p = vec![EnvelopePoint::new_percent(0, 0), EnvelopePoint::new_percent(0x3F66_6666, 0x4120_0000)];
    assert(points_of(p@) =~= seq![at_percent(0, 0), at_percent(0x3F66_6666, 0x4120_0000)]);
    envelope(p, InterpolationType::Cosine)
}

fn release() -> (r: ParamValue)
    ensures
        r.view() == release_v(),
{
    let p = vec![EnvelopePoint::new_percent(0x3F66_6666, 0), EnvelopePoint::new_percent(0, 0x42C8_0000)];
    assert(points_of(p@) =~= seq![at_percent(0x3F66_6666, 0), at_percent(0, 0x42C8_0000)]);
    envelope(p, InterpolationType::Cosine)
}

fn adsr_section() -> (r: Note)
    ensures
        r@ == adsr_section_v(),
{
    let n = with(atom(60, WHOLE), "attack_envelope", attack());
    let n = with(n, "release_envelope", release());
    let n = with(n, "release_duration", ParamValue::Number(0x3E19_999A));
    let v = vec![n];
    assert(notes_view(v@) =~= adsr_section_v_items());
    ser_or_silent(v)
}

fn volume_envelope() -> (r: ParamValue)
    ensures
        r.view() == env_v(seq![at_note(0, "q"@), at_note(0x3F80_0000, "e"@), at_note(0x3F00_0000, "h"@), at_note(0, "q"@)], InterpolationType::Linear),
{
    let p = vec![
        EnvelopePoint::new_note(0, "q"),
        EnvelopePoint::new_note(0x3F80_0000, "e"),
        EnvelopePoint::new_note(0x3F00_0000, "h"),
        EnvelopePoint::new_note(0, "q"),
    ];
    assert(points_of(p@) =~= seq![at_note(0, "q"@), at_note(0x3F80_0000, "e"@), at_note(0x3F00_0000, "h"@), at_note(0, "q"@)]);
    envelope(p, InterpolationType::Linear)
}

fn pitch_envelope() -> (r: ParamValue)
    ensures
        r.view() == env_v(seq![at_note(0, "q"@), at_note(0x4000_0000, "e"@), at_note(0, "q"@)], InterpolationType::Linear),
{
    let p = vec![EnvelopePoint::new_note(0, "q"), EnvelopePoint::new_note(0x4000_0000, "e"), EnvelopePoint::new_note(0, "q")];
    assert(points_of(p@) =~= seq![at_note(0, "q"@), at_note(0x4000_0000, "e"@), at_note(0, "q"@)]);
    envelope(p, InterpolationType::Linear)
}

fn duty_envelope() -> (r: ParamValue)
    ensures
        r.view() == env_v(seq![at_note(0x3E4C_CCCD, "q"@), at_note(0x3F4C_CCCD, "q"@)], InterpolationType::Cubic),
{
    let p = vec![EnvelopePoint::new_note(0x3E4C_CCCD, "q"), EnvelopePoint::new_note(0x3F4C_CCCD, "q")];
    assert(points_of(p@) =~= seq![at_note(0x3E4C_CCCD, "q"@), at_note(0x3F4C_CCCD, "q"@)]);
    envelope(p, InterpolationType::Cubic)
}

fn note_envelope() -> (r: ParamValue)
    ensures
        r.view() == env_v(seq![at_note(0x3C23_D70A, "q"@), at_note(0x3F80_0000, "q"@)], InterpolationType::Exponential),
{
    let p = vec![EnvelopePoint::new_note(0x3C23_D70A, "q"), EnvelopePoint::new_note(0x3F80_0000, "q")];
    assert(points_of(p@) =~= seq![at_note(0x3C23_D70A, "q"@), at_note(0x3F80_0000, "q"@)]);
    envelope(p, InterpolationType::Exponential)
}

fn envelopes_section() -> (r: Note)
    ensures
        r@ == envelopes_section_v(),
{
    let off = vec![
        set("volume", ParamValue::Unset),
        set("pitch", ParamValue::Unset),
        set("duty", ParamValue::Unset),
        set("note", ParamValue::Unset),
    ];
    assert(notes_view(off@) =~= seq![
        set_v("volume"@, ParamValueV::Unset),
        set_v("pitch"@, ParamValueV::Unset),
        set_v("duty"@, ParamValueV::Unset),
        set_v("note"@, ParamValueV::Unset),
    ]);
    let v = vec![
        set("volume", volume_envelope()),
        set("pitch", pitch_envelope()),
        set("duty", duty_envelope()),
        set("note", note_envelope()),
        atom(60, HALF),
        Note::Serial(off),
    ];
    assert(notes_view(v@) =~= envelopes_section_v_items());
    ser_or_silent(v)
}

/// The conformance song, in which every implemented feature of the
/// language appears at least once.
#[verifier::rlimit(60)]
pub fn all_features() -> (r: Note)
    ensures
        r@ == all_features_score(),
{
    let v = vec![
        Note::Comment(to_owned_string("mmlx all-features conformance song")),
        setup(),
        tone(),
        melody(),
        implicit_section(),
        accidentals(),
        chord(),
        chord_min(),
        fork_seq_section(),
        fork_par_section(),
        repeat_section(),
        attrs_section(),
        transpose_section(),
        macro_section(),
        adsr_section(),
        envelopes_section(),
    ];
    assert(notes_view(v@) =~= all_features_items());
    ser_or_silent(v)
}

/// The compiled-in songs that play by name.
pub open spec fn song_score(name: Seq<char>) -> Option<NoteV> {
    if name == "all_features"@ { Some(all_features_score()) } else { None }
}

/// The compiled-in song called `name`, ready to play; `None` for a name
/// that no compiled-in song has.
pub fn song_by_name(name: &str) -> (r: Option<Note>)
    ensures
        r is Some <==> name@ == "all_features"@,
        match r {
            Some(n) => song_score(name@) == Some(n@),
            None => song_score(name@) is None,
        },
{
    if str_eq(name, "all_features") { Some(all_features()) } else { None }
}

} // verus!
