//! The integer core of the basic synthesizer's voices: the pitch a
//! note-on sounds at, the envelope phases a voice walks through sample by
//! sample, and the registers of its noise generators.

use vstd::prelude::*;
use crate::keysig::{adjustment, base_and_offset, get_base_midi_and_offset, key_of, try_key_signature_adjustment};
use crate::text::lowercase;

verus! {

/// `u8::saturating_add_signed`: the sum, held to 0..=255.
pub open spec fn sat_add(x: u8, d: i8) -> u8 {
    let v = x + d;
    if v < 0 { 0 } else if v > 255 { 255 } else { v as u8 }
}

fn saturating_add_signed(x: u8, d: i8) -> (r: u8)
    ensures
        r == sat_add(x, d),
{
    let v: i16 = x as i16 + d as i16;
    if v < 0 { 0 } else if v > 255 { 255 } else { v as u8 }
}

/// The pitch a note-on sounds at. Under a `key` parameter, a pitch whose
/// key-signature offset is 0 moves to its base plus the key's accidental
/// (none when the key's root is not a note name: the synth cannot play the
/// note); then the synth's transpose is added, saturating, and the result
/// is held to 127.
pub open spec fn sounding_pitch(pitch: u8, key: Option<Seq<char>>, transpose: i8) -> Option<u8> {
    let keyed: Option<u8> = match key {
        Some(k) => {
            let (base, offset) = base_and_offset(pitch);
            if offset == 0 {
                match key_of(lowercase(k)) {
                    Some((_, mode)) => Some(sat_add(base, adjustment(mode, (base % 12) as u8))),
                    None => None,
                }
            } else {
                Some(pitch)
            }
        },
        None => Some(pitch),
    };
    match keyed {
        Some(p) => {
            let t = sat_add(p, transpose);
            Some(if t > 127 { 127u8 } else { t })
        },
        None => None,
    }
}

/// The pitch a note-on sounds at, under an optional key signature and the
/// synth's transpose; `None` when the key cannot be read.
pub fn note_pitch(pitch: u8, key: Option<&str>, transpose: i8) -> (r: Option<u8>)
    ensures
        r == sounding_pitch(pitch, match key { Some(k) => Some(k@), None => None }, transpose),
{
    let mut p = pitch;
    match key {
        Some(k) => {
            let (base, offset) = get_base_midi_and_offset(pitch);
            if offset == 0 {
                match try_key_signature_adjustment(k, base % 12) {
                    Some(adjust) => {
                        p = saturating_add_signed(base, adjust);
                    },
                    None => {
                        return None;
                    },
                }
            }
        },
        None => {},
    }
    let t = saturating_add_signed(p, transpose);
    Some(if t > 127 { 127 } else { t })
}

/// The pitch a voice sounds at under block offsets: note and transpose
/// offsets added, held to 0..=127.
pub open spec fn effective_pitch(pitch: u8, note: i8, transpose: i8) -> u8 {
    let v = pitch + note + transpose;
    if v < 0 { 0 } else if v > 127 { 127 } else { v as u8 }
}

/// The pitch a voice sounds at under block offsets.
pub fn effective_midi(pitch: u8, note: i8, transpose: i8) -> (r: u8)
    ensures
        r == effective_pitch(pitch, note, transpose),
{
    let v: i16 = pitch as i16 + note as i16 + transpose as i16;
    if v < 0 { 0 } else if v > 127 { 127 } else { v as u8 }
}

/// The phases of a voice's volume envelope.
#[derive(Clone, Copy, Debug, PartialEq, Eq, Structural)]
pub enum NotePhase {
    /// The attack envelope, played once.
    Attack,
    /// The sustain envelope, looped until the note-off.
    Sustain,
    /// The release envelope, played once after the note-off.
    Release,
    /// Finished: the voice is removed.
    Off,
}

/// Where a voice is in its envelopes: the phase, the samples elapsed in it,
/// and the sample of the last envelope evaluation.
#[derive(Clone, Copy, Debug, PartialEq, Eq, Structural)]
pub struct PhaseClock {
    pub phase: NotePhase,
    pub samples: u64,
    pub last_update: u64,
}

/// A note-off: an attacking or sustaining voice starts its release from
/// sample 0 when it has a release envelope, and stops otherwise; a
/// releasing or finished voice ignores it.
pub open spec fn note_off_spec(c: PhaseClock, has_release: bool) -> PhaseClock {
    if c.phase == NotePhase::Attack || c.phase == NotePhase::Sustain {
        if has_release {
            PhaseClock { phase: NotePhase::Release, samples: 0, last_update: 0 }
        } else {
            PhaseClock { phase: NotePhase::Off, ..c }
        }
    } else {
        c
    }
}

/// One sample played: the clock moves on, then an attack that has run its
/// length turns into the sustain from sample 0, a sustain loop that has run
/// its (nonzero) length starts over, and a release that has run its length
/// finishes. A phase whose length is not known yet keeps going.
pub open spec fn after_sample(c: PhaseClock, attack: Option<u64>, sustain: Option<u64>, release: Option<u64>) -> PhaseClock {
    let t = (c.samples + 1) as u64;
    let moved = PhaseClock { samples: t, ..c };
    match c.phase {
        NotePhase::Attack => match attack {
            Some(d) => if t >= d { PhaseClock { phase: NotePhase::Sustain, samples: 0, last_update: 0 } } else { moved },
            None => moved,
        },
        NotePhase::Sustain => match sustain {
            Some(d) => if d > 0 && t >= d { PhaseClock { samples: 0, last_update: 0, ..c } } else { moved },
            None => moved,
        },
        NotePhase::Release => match release {
            Some(d) => if t >= d { PhaseClock { phase: NotePhase::Off, ..moved } } else { moved },
            None => moved,
        },
        NotePhase::Off => moved,
    }
}

/// Whether the envelopes are evaluated at this sample: at the start of a
/// phase, and once `interval` samples have passed since the last time.
pub open spec fn update_due(c: PhaseClock, interval: u64) -> bool {
    c.samples == 0 || (if c.samples >= c.last_update { c.samples - c.last_update } else { 0 }) >= interval
}

impl PhaseClock {
    /// A voice at the start of its attack.
    pub fn new() -> (c: PhaseClock)
        ensures
            c == (PhaseClock { phase: NotePhase::Attack, samples: 0, last_update: 0 }),
    {
        PhaseClock { phase: NotePhase::Attack, samples: 0, last_update: 0 }
    }

    /// Apply a note-off.
    pub fn note_off(&mut self, has_release: bool)
        ensures
            *final(self) == note_off_spec(*old(self), has_release),
    {
        if self.phase == NotePhase::Attack || self.phase == NotePhase::Sustain {
            if has_release {
                self.phase = NotePhase::Release;
                self.samples = 0;
                self.last_update = 0;
            } else {
                self.phase = NotePhase::Off;
            }
        }
    }

    /// Advance past one played sample, given the lengths (in samples) of
    /// the attack, one sustain loop and the release, where known.
    pub fn advance(&mut self, attack: Option<u64>, sustain: Option<u64>, release: Option<u64>)
        requires
            old(self).samples < u64::MAX,
        ensures
            *final(self) == after_sample(*old(self), attack, sustain, release),
    {
        self.samples = self.samples + 1;
        let t = self.samples;
        match self.phase {
            NotePhase::Attack => {
                match attack {
                    Some(d) => {
                        if t >= d {
                            self.phase = NotePhase::Sustain;
                            self.samples = 0;
                            self.last_update = 0;
                        }
                    },
                    None => {},
                }
            },
            NotePhase::Sustain => {
                match sustain {
                    Some(d) => {
                        if d > 0 && t >= d {
                            self.samples = 0;
                            self.last_update = 0;
                        }
                    },
                    None => {},
                }
            },
            NotePhase::Release => {
                match release {
                    Some(d) => {
                        if t >= d {
                            self.phase = NotePhase::Off;
                        }
                    },
                    None => {},
                }
            },
            NotePhase::Off => {},
        }
    }

    /// Whether the envelopes are due for evaluation; when they are, this
    /// sample is remembered as the last evaluation.
    pub fn take_update(&mut self, interval: u64) -> (due: bool)
        ensures
            due == update_due(*old(self), interval),
            *final(self) == if due { PhaseClock { last_update: old(self).samples, ..*old(self) } } else { *old(self) },
    {
        let since = self.samples.saturating_sub(self.last_update);
        let due = self.samples == 0 || since >= interval;
        if due {
            self.last_update = self.samples;
        }
        due
    }

    /// Samples since the note-on: during the release of a note with a
    /// known length, that length plus the release so far (saturating);
    /// otherwise the samples of the current phase.
    pub fn since_note_on(&self, ads: u64) -> (r: u64)
        ensures
            r == if self.phase == NotePhase::Release && ads != u64::MAX {
                if ads + self.samples > u64::MAX { u64::MAX } else { (ads + self.samples) as u64 }
            } else {
                self.samples
            },
    {
        if self.phase == NotePhase::Release && ads != u64::MAX {
            ads.saturating_add(self.samples)
        } else {
            self.samples
        }
    }
}

/// One step of the white-noise generator (xorshift, shifts 13, 17, 5).
pub open spec fn xorshift_next(x: u32) -> u32 {
    let a = x ^ (x << 13u32);
    let b = a ^ (a >> 17u32);
    b ^ (b << 5u32)
}

/// Step the white-noise generator; a nonzero state stays nonzero.
pub fn xorshift32(x: u32) -> (r: u32)
    ensures
        r == xorshift_next(x),
        x != 0 ==> r != 0,
{
    let a: u32 = x ^ (x << 13u32);
    let b: u32 = a ^ (a >> 17u32);
    let r: u32 = b ^ (b << 5u32);
    assert(x != 0 ==> a != 0) by (bit_vector)
        requires a == x ^ (x << 13u32);
    assert(a != 0 ==> b != 0) by (bit_vector)
        requires b == a ^ (a >> 17u32);
    assert(b != 0 ==> r != 0) by (bit_vector)
        requires r == b ^ (b << 5u32);
    r
}

/// One step of the periodic-noise register (16 bits): bits 0, 2, 3 and 5
/// xor-ed enter at bit 15; a register that would become 0 is reseeded with
/// 1. Also gives the feedback bit, which is the noise's output.
pub open spec fn periodic_next(s: u16) -> (u16, u16) {
    let bit: u16 = (s ^ (s >> 2u16) ^ (s >> 3u16) ^ (s >> 5u16)) & 1;
    let n: u16 = (s >> 1u16) | (bit << 15u16);
    (if n == 0 { 1 } else { n }, bit)
}

/// Step the periodic-noise register; returns the new register and the
/// output bit (0 or 1).
pub fn periodic_step(s: u16) -> (r: (u16, u16))
    ensures
        r == periodic_next(s),
        r.0 != 0,
        r.1 <= 1,
{
    let bit: u16 = (s ^ (s >> 2u16) ^ (s >> 3u16) ^ (s >> 5u16)) & 1;
    let n: u16 = (s >> 1u16) | (bit << 15u16);
    assert(bit <= 1) by (bit_vector)
        requires bit == (s ^ (s >> 2u16) ^ (s >> 3u16) ^ (s >> 5u16)) & 1;
    (if n == 0 { 1 } else { n }, bit)
}

/// The white-noise seed of a note-on: its pitch plus the (truncated)
/// sample it starts at, wrapping, with bits 0x12345 set.
pub open spec fn rng_seed(pitch: u8, start_sample: u64) -> u32 {
    (((pitch as int + (start_sample as int % 0x1_0000_0000)) % 0x1_0000_0000) as u32) | 0x12345u32
}

/// The white-noise seed of a note-on; never 0.
pub fn initial_rng_state(pitch: u8, start_sample: u64) -> (r: u32)
    ensures
        r == rng_seed(pitch, start_sample),
        r != 0,
{
    let low: u32 = (start_sample % 0x1_0000_0000) as u32;
    let sum: u32 = if (pitch as u32) > u32::MAX - low { (pitch as u32) - (u32::MAX - low) - 1 } else { pitch as u32 + low };
    let r: u32 = sum | 0x12345u32;
    assert(r != 0) by (bit_vector)
        requires r == sum | 0x12345u32;
    r
}

/// `0xACE1u16.rotate_left(pitch)`: the periodic-noise seed of a note-on.
pub open spec fn lfsr_seed(pitch: u8) -> u16 {
    let k = (pitch % 16) as u16;
    if k == 0 { 0xACE1u16 } else { (0xACE1u16 << k) | (0xACE1u16 >> (16 - k) as u16) }
}

/// The periodic-noise seed of a note-on (a rotation of 0xACE1), never 0.
pub fn initial_lfsr_state(pitch: u8) -> (r: u16)
    ensures
        r == lfsr_seed(pitch),
        r != 0,
{
    let k: u16 = (pitch % 16) as u16;
    if k == 0 {
        0xACE1u16
    } else {
        let j: u16 = 16 - k;
        let r: u16 = (0xACE1u16 << k) | (0xACE1u16 >> j);
        assert(r != 0) by (bit_vector)
            requires
                0 < k < 16,
                j == 16 - k,
                r == (0xACE1u16 << k) | (0xACE1u16 >> j);
        r
    }
}

} // verus!
