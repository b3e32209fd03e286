//! The integer state machines inside the chip voices: the AY-3-8910
//! hardware envelope, the noise shift registers of the 2A03/DMG, the AY
//! and the SN76489, the 2A03 triangle's 32-step level, and the tone
//! channel rotation of the AY and the SN76489.

use vstd::prelude::*;

verus! {

/// The AY envelope's ramp: the shape (its low four bits: hold, alternate,
/// attack, continue), the level 0–15, which ramp is running (0 first, 1
/// alternate), and whether it has stopped.
#[derive(Clone, Copy, Debug, PartialEq, Eq, Structural)]
pub struct AyRamp {
    pub shape: u8,
    pub level: u8,
    pub phase: u8,
    pub done: bool,
}

/// A ramp is well formed: four-bit shape and level, phase 0 or 1.
pub open spec fn ramp_ok(r: AyRamp) -> bool {
    r.shape < 16 && r.level <= 15 && r.phase <= 1
}

pub open spec fn attack(shape: u8) -> bool { shape & 4 != 0 }
pub open spec fn alternate(shape: u8) -> bool { shape & 2 != 0 }
pub open spec fn hold(shape: u8) -> bool { shape & 1 != 0 }
pub open spec fn cont(shape: u8) -> bool { shape & 8 != 0 }

/// A fresh ramp for `shape`: rising from 0 with attack, else falling from
/// 15.
pub open spec fn ramp_start(shape: u8) -> AyRamp {
    AyRamp { shape: shape & 15, level: if attack(shape) { 0 } else { 15 }, phase: 0, done: false }
}

/// The end of a ramp: without continue the level drops to 0 and stops;
/// with hold it stays at its extreme; otherwise the next ramp starts
/// (again from the start level, unless alternating).
pub open spec fn ramp_end(r: AyRamp) -> AyRamp {
    if !cont(r.shape) {
        AyRamp { level: 0, done: true, ..r }
    } else if hold(r.shape) {
        AyRamp { done: true, ..r }
    } else {
        let phase = if r.phase == 0 { 1u8 } else { 0u8 };
        if !alternate(r.shape) {
            AyRamp { phase, level: if attack(r.shape) { 0 } else { 15 }, ..r }
        } else {
            AyRamp { phase, ..r }
        }
    }
}

/// One envelope period: the level moves one step up or down (up on the
/// first ramp with attack; the alternate ramp flips direction when
/// alternating), or the ramp ends at its extreme.
pub open spec fn ramp_tick(r: AyRamp) -> AyRamp {
    if r.done {
        r
    } else {
        let up = if r.phase == 0 { attack(r.shape) } else { attack(r.shape) != alternate(r.shape) };
        if up {
            if r.level < 15 { AyRamp { level: (r.level + 1) as u8, ..r } } else { ramp_end(r) }
        } else if r.level > 0 {
            AyRamp { level: (r.level - 1) as u8, ..r }
        } else {
            ramp_end(r)
        }
    }
}

impl AyRamp {
    /// The ramp an envelope of `shape` starts with.
    pub fn new(shape: u8) -> (r: AyRamp)
        ensures
            r == ramp_start(shape),
            ramp_ok(r),
    {
        assert(shape & 15 < 16) by (bit_vector);
        AyRamp { shape: shape & 15, level: if shape & 4 != 0 { 0 } else { 15 }, phase: 0, done: false }
    }

    fn end_of_ramp(&mut self)
        requires
            ramp_ok(*old(self)),
        ensures
            *final(self) == ramp_end(*old(self)),
            ramp_ok(*final(self)),
    {
        if self.shape & 8 == 0 {
            self.level = 0;
            self.done = true;
        } else if self.shape & 1 != 0 {
            self.done = true;
        } else {
            self.phase = if self.phase == 0 { 1 } else { 0 };
            if self.shape & 2 == 0 {
                self.level = if self.shape & 4 != 0 { 0 } else { 15 };
            }
        }
    }

    /// Advance one envelope period; returns the level.
    pub fn tick(&mut self) -> (level: u8)
        requires
            ramp_ok(*old(self)),
        ensures
            *final(self) == ramp_tick(*old(self)),
            ramp_ok(*final(self)),
            level == final(self).level,
    {
        if self.done {
            return self.level;
        }
        let attack = self.shape & 4 != 0;
        let alternate = self.shape & 2 != 0;
        let up = if self.phase == 0 { attack } else { attack != alternate };
        if up {
            if self.level < 15 {
                self.level = self.level + 1;
            } else {
                self.end_of_ramp();
            }
        } else if self.level > 0 {
            self.level = self.level - 1;
        } else {
            self.end_of_ramp();
        }
        self.level
    }
}

/// One shift of the noise register: the feedback of bit 0 with bit 1
/// (bit 6 in short mode) enters at bit 14; a register that would become 0
/// is reseeded with 1.
pub open spec fn lfsr_next(lfsr: u16, short: bool) -> u16 {
    let tap: u16 = if short { 6 } else { 1 };
    let bit: u16 = (lfsr ^ (lfsr >> tap)) & 1;
    let next: u16 = (lfsr >> 1) | (bit << 14u16);
    if next == 0 { 1 } else { next }
}

/// Shift the noise register once.
pub fn lfsr_step(lfsr: u16, short: bool) -> (r: u16)
    ensures
        r == lfsr_next(lfsr, short),
{
    let tap: u16 = if short { 6 } else { 1 };
    let bit: u16 = (lfsr ^ (lfsr >> tap)) & 1;
    let next: u16 = (lfsr >> 1) | (bit << 14u16);
    if next == 0 { 1 } else { next }
}

/// The triangle's level at step 0–31: 15 down to 0, then 0 up to 15.
pub open spec fn triangle_level_of(step: u8) -> u8 {
    if step < 16 { (15 - step) as u8 } else { (step - 16) as u8 }
}

/// The level of the 32-step triangle at a step (taken modulo 32).
pub fn triangle_level(step: u8) -> (r: u8)
    ensures
        r == triangle_level_of(step & 31),
        r <= 15,
{
    let s = step & 31;
    assert(s < 32) by (bit_vector)
        requires s == step & 31;
    if s < 16 { 15 - s } else { s - 16 }
}

/// One shift of the AY-3-8910 noise register (17 bits): bit 0 xor bit 3
/// enters at bit 16.
pub open spec fn ay_noise_next(lfsr: u32) -> u32 {
    (lfsr >> 1) | (((lfsr ^ (lfsr >> 3)) & 1) << 16u32)
}

/// Shift the AY noise register once; a 17-bit register stays 17 bits and
/// never reaches 0 from a nonzero state.
pub fn ay_noise_step(lfsr: u32) -> (r: u32)
    ensures
        r == ay_noise_next(lfsr),
        lfsr < 0x20000 ==> r < 0x20000,
        lfsr != 0 ==> r != 0,
{
    let r: u32 = (lfsr >> 1) | (((lfsr ^ (lfsr >> 3)) & 1) << 16u32);
    assert(lfsr < 0x20000 ==> r < 0x20000) by (bit_vector)
        requires r == (lfsr >> 1) | (((lfsr ^ (lfsr >> 3)) & 1) << 16u32);
    assert(lfsr != 0 ==> r != 0) by (bit_vector)
        requires r == (lfsr >> 1) | (((lfsr ^ (lfsr >> 3)) & 1) << 16u32);
    r
}

/// One shift of the SN76489 white-noise register (16 bits): bit 0 xor
/// bit 3 enters at bit 15.
pub open spec fn sn_noise_next(lfsr: u16) -> u16 {
    (lfsr >> 1) | (((lfsr ^ (lfsr >> 3)) & 1) << 15u16)
}

/// Shift the SN76489 white-noise register once; it never reaches 0 from a
/// nonzero state.
pub fn sn_noise_step(lfsr: u16) -> (r: u16)
    ensures
        r == sn_noise_next(lfsr),
        lfsr != 0 ==> r != 0,
{
    let r: u16 = (lfsr >> 1) | (((lfsr ^ (lfsr >> 3)) & 1) << 15u16);
    assert(lfsr != 0 ==> r != 0) by (bit_vector)
        requires r == (lfsr >> 1) | (((lfsr ^ (lfsr >> 3)) & 1) << 15u16);
    r
}

/// Which of the three tone channels a note takes: the AY and the SN76489
/// both hand out channels 0, 1, 2 in turn unless a note asks for one.
pub struct ToneChannels {
    next: usize,
}

impl ToneChannels {
    /// The channel the next note without a request takes.
    pub closed spec fn next_channel(&self) -> usize {
        self.next
    }

    /// The rotation is on one of the three channels.
    pub closed spec fn wf(&self) -> bool {
        self.next < 3
    }

    /// A fresh rotation, starting at channel 0.
    pub fn new() -> (r: ToneChannels)
        ensures
            r.wf(),
            r.next_channel() == 0,
    {
        ToneChannels { next: 0 }
    }

    fn rotate(&mut self) -> (c: usize)
        requires
            old(self).wf(),
        ensures
            final(self).wf(),
            c == old(self).next_channel(),
            final(self).next_channel() == (old(self).next_channel() + 1) % 3,
    {
        let c = self.next;
        self.next = (self.next + 1) % 3;
        c
    }

    /// The AY's choice: a requested tone channel 0–2 is taken as it is
    /// and leaves the rotation alone; no request, or one out of range,
    /// takes the rotation's channel, and the rotation moves on.
    pub fn channel_for(&mut self, requested: Option<usize>) -> (c: usize)
        requires
            old(self).wf(),
        ensures
            final(self).wf(),
            c < 3,
            match requested {
                Some(r) if r < 3 => c == r && final(self).next_channel() == old(self).next_channel(),
                _ => c == old(self).next_channel()
                    && final(self).next_channel() == (old(self).next_channel() + 1) % 3,
            },
    {
        match requested {
            Some(r) => if r < 3 { r } else { self.rotate() },
            None => self.rotate(),
        }
    }

    /// The SN76489's choice: a requested tone channel 0–2 is taken as it
    /// is, and 3 is the noise channel, both leaving the rotation alone; no
    /// request, or one above 3, takes the rotation's tone channel, and the
    /// rotation moves on.
    pub fn sn_channel_for(&mut self, requested: Option<usize>) -> (s: SnSlot)
        requires
            old(self).wf(),
        ensures
            final(self).wf(),
            match requested {
                Some(r) if r < 3 => s == SnSlot::Tone(r) && final(self).next_channel() == old(self).next_channel(),
                Some(r) if r == 3 => s == SnSlot::Noise && final(self).next_channel() == old(self).next_channel(),
                _ => s == SnSlot::Tone(old(self).next_channel())
                    && final(self).next_channel() == (old(self).next_channel() + 1) % 3,
            },
    {
        match requested {
            Some(r) => {
                if r < 3 {
                    SnSlot::Tone(r)
                } else if r == 3 {
                    SnSlot::Noise
                } else {
                    SnSlot::Tone(self.rotate())
                }
            },
            None => SnSlot::Tone(self.rotate()),
        }
    }
}

/// Where an SN76489 note plays: one of the three tone channels, or the
/// noise channel.
#[derive(Clone, Copy, Debug, PartialEq, Eq, Structural)]
pub enum SnSlot {
    Tone(usize),
    Noise,
}

} // verus!
