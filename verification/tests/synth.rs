//! The basic synthesizer's integer core: pitches, envelope phases, noise.

use mmlx::synth::{
    effective_midi, initial_lfsr_state, initial_rng_state, note_pitch, periodic_step, xorshift32, NotePhase,
    PhaseClock,
};

#[test]
fn note_on_pitches_transpose_and_clamp() {
    assert_eq!(note_pitch(60, None, 0), Some(60));
    assert_eq!(note_pitch(61, None, 2), Some(63));
    assert_eq!(note_pitch(120, None, 20), Some(127));
    assert_eq!(note_pitch(5, None, -10), Some(0));
    // A readable key leaves these pitches where they are.
    assert_eq!(note_pitch(60, Some("Cmaj"), 0), Some(60));
    assert_eq!(note_pitch(61, Some("amin"), 1), Some(62));
    // An unreadable key only matters where the key would apply.
    assert_eq!(note_pitch(60, Some("xyz"), 0), None);
    assert_eq!(note_pitch(62, Some("xyz"), 0), Some(62));
}

#[test]
fn block_offsets_hold_to_midi_range() {
    assert_eq!(effective_midi(60, 2, -1), 61);
    assert_eq!(effective_midi(0, -5, 0), 0);
    assert_eq!(effective_midi(127, 1, 0), 127);
    assert_eq!(effective_midi(100, 100, 100), 127);
}

#[test]
fn phases_attack_sustain_release_off() {
    let mut c = PhaseClock::new();
    assert_eq!(c.phase, NotePhase::Attack);
    assert!(c.take_update(64));
    c.advance(Some(2), Some(3), None);
    assert_eq!((c.phase, c.samples), (NotePhase::Attack, 1));
    assert!(!c.take_update(64));
    c.advance(Some(2), Some(3), None);
    assert_eq!((c.phase, c.samples), (NotePhase::Sustain, 0));
    for _ in 0..3 {
        c.advance(Some(2), Some(3), None);
    }
    // The sustain loop started over.
    assert_eq!((c.phase, c.samples), (NotePhase::Sustain, 0));
    c.advance(Some(2), Some(3), None);
    c.note_off(true);
    assert_eq!(c, PhaseClock { phase: NotePhase::Release, samples: 0, last_update: 0 });
    assert_eq!(c.since_note_on(100), 100);
    c.advance(None, None, Some(1));
    assert_eq!(c.phase, NotePhase::Off);
    // A finished voice ignores note-offs.
    c.note_off(true);
    assert_eq!(c.phase, NotePhase::Off);
    let mut d = PhaseClock::new();
    d.note_off(false);
    assert_eq!(d.phase, NotePhase::Off);
    assert_eq!(PhaseClock::new().since_note_on(u64::MAX), 0);
}

#[test]
fn envelope_updates_every_interval() {
    let mut c = PhaseClock::new();
    let mut due = Vec::new();
    for _ in 0..10 {
        due.push(c.take_update(4));
        c.advance(None, None, None);
    }
    assert_eq!(due, vec![true, false, false, false, true, false, false, false, true, false]);
}

#[test]
fn noise_registers() {
    assert_eq!(xorshift32(1), 0x42021);
    assert_eq!(xorshift32(0x12345), 0xa95bbf51);
    assert_eq!(xorshift32(0), 0);
    assert_eq!(periodic_step(0xACE1), (0x5670, 0));
    assert_eq!(periodic_step(1), (0x8000, 1));
    assert_eq!(periodic_step(0), (1, 0));
    assert_eq!(initial_rng_state(60, 0), 0x1237D);
    assert_eq!(initial_rng_state(1, 0xFFFF_FFFF), 0x12345);
    assert_eq!(initial_lfsr_state(0), 0xACE1);
    assert_eq!(initial_lfsr_state(1), 0x59C3);
    assert_eq!(initial_lfsr_state(60), 0x1ACE);
    assert_eq!(initial_lfsr_state(16), 0xACE1);
}
