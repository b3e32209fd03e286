//! SoundFont bank layout, chip state machines, note ids and the mute flag.

use mmlx::audio::new_mute_flag;
use mmlx::chip::{ay_noise_step, lfsr_step, sn_noise_step, triangle_level, AyRamp, SnSlot, ToneChannels};
use mmlx::ids::{generate_unique_note_id, NoteIds};
use mmlx::sf2::{chunk, fixed_name, sf2_bank};

#[test]
fn chunks_pad_odd_bodies() {
    let mut out = Vec::new();
    chunk(b"abcd", &[1, 2, 3], &mut out);
    assert_eq!(out, vec![b'a', b'b', b'c', b'd', 4, 0, 0, 0, 1, 2, 3, 0]);
    let mut even = Vec::new();
    chunk(b"wxyz", &[9, 9], &mut even);
    assert_eq!(even, vec![b'w', b'x', b'y', b'z', 2, 0, 0, 0, 9, 9]);
}

#[test]
fn fixed_names_cut_and_pad() {
    assert_eq!(fixed_name("Sine", 6), vec![b'S', b'i', b'n', b'e', 0, 0]);
    assert_eq!(fixed_name("SineInstrument", 4), b"Sine".to_vec());
}

#[test]
fn sf2_bank_layout() {
    let rate = 100u32;
    let samples = vec![0u8; 2 * rate as usize];
    let bank = sf2_bank(rate, &samples, 69);
    assert_eq!(&bank[0..4], b"RIFF");
    let size = u32::from_le_bytes([bank[4], bank[5], bank[6], bank[7]]) as usize;
    assert_eq!(size + 8, bank.len());
    assert_eq!(&bank[8..12], b"sfbk");
    assert_eq!(&bank[12..16], b"LIST");
    assert_eq!(&bank[20..24], b"INFO");
    // INFO list: ifil, isng ("EMU8000" padded to 8), INAM.
    assert_eq!(u32::from_le_bytes([bank[16], bank[17], bank[18], bank[19]]), 52);
    // The sample chunk follows the INFO list.
    assert_eq!(&bank[72..76], b"LIST");
    assert_eq!(&bank[80..84], b"sdta");
    assert_eq!(&bank[84..88], b"smpl");
    assert_eq!(u32::from_le_bytes([bank[88], bank[89], bank[90], bank[91]]), 200);
}

#[test]
fn ay_envelope_ramps() {
    // Shape 0x0C (continue + attack, sawtooth up): 0..15 then restart at 0.
    let mut ramp = AyRamp::new(0x0C);
    let levels: Vec<u8> = (0..17).map(|_| ramp.tick()).collect();
    assert_eq!(levels[0], 1);
    assert_eq!(levels[14], 15);
    assert_eq!(levels[15], 0);
    assert_eq!(levels[16], 1);
    // Shape 0x00: decay to 0 and stop.
    let mut decay = AyRamp::new(0);
    for _ in 0..15 {
        decay.tick();
    }
    assert_eq!(decay.tick(), 0);
    assert!(decay.done);
    // Shape 0x0E (triangle): alternates direction.
    let mut tri = AyRamp::new(0x0E);
    let seq: Vec<u8> = (0..32).map(|_| tri.tick()).collect();
    assert_eq!(seq[14], 15);
    assert_eq!(seq[15], 15);
    assert_eq!(seq[16], 14);
}

#[test]
fn noise_register_shifts() {
    assert_eq!(lfsr_step(0x4000, false), 0x2000);
    assert_eq!(lfsr_step(1, false), 0x4000);
    assert_eq!(lfsr_step(0, false), 1);
    assert_eq!(lfsr_step(0x41, true), 0x20);
}

#[test]
fn triangle_steps() {
    assert_eq!(triangle_level(0), 15);
    assert_eq!(triangle_level(15), 0);
    assert_eq!(triangle_level(16), 0);
    assert_eq!(triangle_level(31), 15);
    assert_eq!(triangle_level(32), 15);
}

#[test]
fn note_ids_are_unique() {
    let mut ids = NoteIds::new();
    let a = generate_unique_note_id(&mut ids);
    let b = generate_unique_note_id(&mut ids);
    let c = generate_unique_note_id(&mut ids);
    assert_eq!((a, b, c), (0, 1, 2));
}

#[test]
fn mute_flag_starts_cleared() {
    let flag = new_mute_flag();
    assert!(!flag.load(std::sync::atomic::Ordering::Relaxed));
}

#[test]
fn ay_and_sn_noise_registers_shift() {
    // 0x1FFFF: bit 0 xor bit 3 is 0, so bit 16 clears.
    assert_eq!(ay_noise_step(0x1FFFF), 0x0FFFF);
    // 1: feedback 1 enters at the top.
    assert_eq!(ay_noise_step(1), 0x10000);
    assert_eq!(ay_noise_step(8), 0x10004);
    let mut lfsr = 0x1FFFFu32;
    for _ in 0..1000 {
        lfsr = ay_noise_step(lfsr);
        assert!(lfsr != 0 && lfsr < 0x20000);
    }
    assert_eq!(sn_noise_step(0x8000), 0x4000);
    assert_eq!(sn_noise_step(1), 0x8000);
    assert_eq!(sn_noise_step(9), 0x0004);
}

#[test]
fn tone_channels_rotate_unless_requested() {
    let mut ay = ToneChannels::new();
    assert_eq!(ay.channel_for(None), 0);
    // Out of range goes round-robin.
    assert_eq!(ay.channel_for(Some(7)), 1);
    assert_eq!(ay.channel_for(None), 2);
    assert_eq!(ay.channel_for(Some(0)), 0);
    assert_eq!(ay.channel_for(None), 0);
    assert_eq!(ay.channel_for(Some(2)), 2);
    assert_eq!(ay.channel_for(None), 1);
    let mut fresh = ToneChannels::new();
    assert_eq!(fresh.channel_for(Some(5)), 0);
    assert_eq!(fresh.channel_for(None), 1);
    let mut sn = ToneChannels::new();
    assert_eq!(sn.sn_channel_for(Some(4)), SnSlot::Tone(0));
    assert_eq!(sn.sn_channel_for(None), SnSlot::Tone(1));
    // Channel 3 is the noise channel and leaves the rotation alone.
    assert_eq!(sn.sn_channel_for(Some(3)), SnSlot::Noise);
    assert_eq!(sn.sn_channel_for(None), SnSlot::Tone(2));
    assert_eq!(sn.sn_channel_for(Some(1)), SnSlot::Tone(1));
    assert_eq!(sn.sn_channel_for(None), SnSlot::Tone(0));
}
