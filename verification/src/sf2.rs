//! A minimal in-memory SoundFont 2 bank: one preset, one instrument, one
//! looping mono sample.

use vstd::prelude::*;
use vstd::string::StringSliceAdditionalSpecFns;

verus! {

/// The bytes of ASCII text.
pub open spec fn ascii(s: Seq<char>) -> Seq<u8> {
    Seq::new(s.len(), |i: int| s[i] as u8)
}

/// The bytes of ASCII text, executable.
fn ascii_bytes(cs: &[char]) -> (r: Vec<u8>)
    requires
        forall|i: int| 0 <= i < cs@.len() ==> (cs@[i] as u32) < 128,
    ensures
        r@ == ascii(cs@),
{
    let mut out: Vec<u8> = Vec::new();
    let mut i: usize = 0;
    while i < cs.len()
        invariant
            i <= cs@.len(),
            forall|k: int| 0 <= k < cs@.len() ==> (cs@[k] as u32) < 128,
            out@ == ascii(cs@).take(i as int),
        decreases cs@.len() - i,
    {
        let c = cs[i];
        out.push(c as u8);
        assert(out@ =~= ascii(cs@).take(i + 1));
        i = i + 1;
    }
    assert(ascii(cs@).take(cs@.len() as int) =~= ascii(cs@));
    out
}

/// Little-endian bytes of a 16-bit number.
pub open spec fn le16(x: u16) -> Seq<u8> {
    seq![(x % 256) as u8, (x / 256) as u8]
}

/// Little-endian bytes of a 32-bit number.
pub open spec fn le32(x: u32) -> Seq<u8> {
    seq![(x % 256) as u8, ((x / 256) % 256) as u8, ((x / 65536) % 256) as u8, (x / 16777216) as u8]
}

/// A RIFF chunk: tag, size, body; an odd body is padded with a zero byte
/// that the size counts.
pub open spec fn chunk_spec(tag: Seq<u8>, body: Seq<u8>) -> Seq<u8> {
    let pad: int = if body.len() % 2 == 1 { 1 } else { 0 };
    tag + le32((body.len() + pad) as u32) + body + (if pad == 1 { seq![0u8] } else { Seq::empty() })
}

/// A name field of `len` bytes: the name's bytes, cut or padded with zeros.
pub open spec fn name_field(name: Seq<u8>, len: nat) -> Seq<u8> {
    Seq::new(len, |i: int| if i < name.len() { name[i] } else { 0u8 })
}

fn push_le16(out: &mut Vec<u8>, x: u16)
    ensures
        final(out)@ == old(out)@ + le16(x),
{
    out.push((x % 256) as u8);
    out.push((x / 256) as u8);
    assert(final(out)@ =~= old(out)@ + le16(x));
}

fn push_le32(out: &mut Vec<u8>, x: u32)
    ensures
        final(out)@ == old(out)@ + le32(x),
{
    out.push((x % 256) as u8);
    out.push(((x / 256) % 256) as u8);
    out.push(((x / 65536) % 256) as u8);
    out.push((x / 16777216) as u8);
    assert(final(out)@ =~= old(out)@ + le32(x));
}

fn push_all(out: &mut Vec<u8>, s: &[u8])
    ensures
        final(out)@ == old(out)@ + s@,
{
    let mut i: usize = 0;
    while i < s.len()
        invariant
            i <= s@.len(),
            out@ == old(out)@ + s@.take(i as int),
        decreases s@.len() - i,
    {
        out.push(s[i]);
        assert(s@.take(i + 1) =~= s@.take(i as int).push(s@[i as int]));
        i = i + 1;
    }
    assert(s@.take(s@.len() as int) =~= s@);
}

/// Appends a RIFF chunk (odd bodies padded inside the size).
pub fn chunk(tag: &[u8; 4], body: &[u8], out: &mut Vec<u8>)
    requires
        body@.len() < u32::MAX,
    ensures
        final(out)@ == old(out)@ + chunk_spec(tag@, body@),
{
    push_all(out, tag);
    let padded = body.len() % 2 == 1;
    let size: u32 = if padded { body.len() as u32 + 1 } else { body.len() as u32 };
    push_le32(out, size);
    push_all(out, body);
    if padded {
        out.push(0);
    }
    assert(final(out)@ =~= old(out)@ + chunk_spec(tag@, body@));
}

/// A name field of `len` bytes from raw bytes.
fn name_bytes(name: &[u8], len: usize) -> (r: Vec<u8>)
    ensures
        r@ == name_field(name@, len as nat),
{
    let mut out: Vec<u8> = Vec::new();
    let mut i: usize = 0;
    while i < len
        invariant
            i <= len,
            out@ == name_field(name@, len as nat).take(i as int),
        decreases len - i,
    {
        let b: u8 = if i < name.len() { name[i] } else { 0 };
        out.push(b);
        assert(out@ =~= name_field(name@, len as nat).take(i + 1));
        i = i + 1;
    }
    assert(name_field(name@, len as nat).take(len as int) =~= name_field(name@, len as nat));
    out
}

/// A name field of `len` bytes: the UTF-8 bytes of `name`, cut or padded
/// with zeros.
pub fn fixed_name(name: &str, len: usize) -> (r: Vec<u8>)
    ensures
        r@ == name_field(name.spec_bytes(), len as nat),
{
    name_bytes(name.as_bytes(), len)
}

/// Four zero bytes, `n` times.
pub open spec fn zeros32(n: nat) -> Seq<u8>
    decreases n,
{
    if n == 0 { Seq::empty() } else { zeros32((n - 1) as nat) + le32(0) }
}

/// Preset headers: "Sine" (preset 0, bank 0, bag 0) and the terminal "EOP"
/// (bag 1).
pub open spec fn phdr_spec() -> Seq<u8> {
    name_field(ascii(seq!['S', 'i', 'n', 'e']), 20) + le16(0) + le16(0) + le16(0) + zeros32(3)
        + name_field(ascii(seq!['E', 'O', 'P']), 20) + le16(0) + le16(0) + le16(1) + zeros32(3)
}

/// Instruments: "SineInst" (bag 0) and the terminal "EOI" (bag 1).
pub open spec fn inst_spec() -> Seq<u8> {
    name_field(ascii(seq!['S', 'i', 'n', 'e', 'I', 'n', 's', 't']), 20) + le16(0)
        + name_field(ascii(seq!['E', 'O', 'I']), 20) + le16(1)
}

/// Sample headers: "sine" looping frames 0 to `frames - 1` at `rate`, the
/// original pitch, a mono sample; then the terminal "EOS".
pub open spec fn shdr_spec(frames: u32, rate: u32, pitch: u8) -> Seq<u8> {
    name_field(ascii(seq!['s', 'i', 'n', 'e']), 20) + le32(0) + le32((frames - 1) as u32) + le32(0)
        + le32((frames - 1) as u32) + le32(rate) + seq![pitch, 0u8] + le16(0) + le16(1)
        + name_field(ascii(seq!['E', 'O', 'S']), 20) + Seq::new(26, |i: int| 0u8)
}

/// A bag list: one zone with generator and modulator index 0, then the
/// terminal with index 1 and 0.
pub open spec fn bag_spec() -> Seq<u8> {
    seq![0u8, 0, 0, 0, 1, 0, 0, 0]
}

/// The preset data list.
pub open spec fn pdta_spec(frames: u32, rate: u32, pitch: u8) -> Seq<u8> {
    chunk_spec(ascii(seq!['p', 'h', 'd', 'r']), phdr_spec())
        + chunk_spec(ascii(seq!['p', 'b', 'a', 'g']), bag_spec())
        + chunk_spec(ascii(seq!['p', 'm', 'o', 'd']), Seq::new(10, |i: int| 0u8))
        + chunk_spec(ascii(seq!['p', 'g', 'e', 'n']), seq![41u8, 0, 0, 0, 0, 0, 0, 0])
        + chunk_spec(ascii(seq!['i', 'n', 's', 't']), inst_spec())
        + chunk_spec(ascii(seq!['i', 'b', 'a', 'g']), bag_spec())
        + chunk_spec(ascii(seq!['i', 'm', 'o', 'd']), Seq::new(10, |i: int| 0u8))
        + chunk_spec(ascii(seq!['i', 'g', 'e', 'n']), seq![53u8, 0, 0, 0, 0, 0, 0, 0])
        + chunk_spec(ascii(seq!['s', 'h', 'd', 'r']), shdr_spec(frames, rate, pitch))
}

/// The info list: version 2.1, sound engine "EMU8000", name "mmlx-minimal".
pub open spec fn info_spec() -> Seq<u8> {
    chunk_spec(ascii(seq!['i', 'f', 'i', 'l']), seq![2u8, 0, 1, 0])
        + chunk_spec(ascii(seq!['i', 's', 'n', 'g']), ascii(seq!['E', 'M', 'U', '8', '0', '0', '0']))
        + chunk_spec(ascii(seq!['I', 'N', 'A', 'M']),
            ascii(seq!['m', 'm', 'l', 'x', '-', 'm', 'i', 'n', 'i', 'm', 'a', 'l']))
}

/// A SoundFont bank around 16-bit little-endian `samples`, `rate` frames
/// long at `rate` Hz, with original pitch `pitch`.
pub open spec fn bank_spec(rate: u32, samples: Seq<u8>, pitch: u8) -> Seq<u8> {
    let lists = chunk_spec(ascii(seq!['L', 'I', 'S', 'T']), ascii(seq!['I', 'N', 'F', 'O']) + info_spec())
        + chunk_spec(ascii(seq!['L', 'I', 'S', 'T']),
            ascii(seq!['s', 'd', 't', 'a']) + chunk_spec(ascii(seq!['s', 'm', 'p', 'l']), samples))
        + chunk_spec(ascii(seq!['L', 'I', 'S', 'T']), ascii(seq!['p', 'd', 't', 'a']) + pdta_spec(rate, rate, pitch));
    let sfbk = ascii(seq!['s', 'f', 'b', 'k']) + lists;
    ascii(seq!['R', 'I', 'F', 'F']) + le32(sfbk.len() as u32) + sfbk
}

/// The four bytes of an ASCII tag.
fn tag(a: char, b: char, c: char, d: char) -> (r: [u8; 4])
    requires
        (a as u32) < 128, (b as u32) < 128, (c as u32) < 128, (d as u32) < 128,
    ensures
        r@ == ascii(seq![a, b, c, d]),
{
    let r = [a as u8, b as u8, c as u8, d as u8];
    assert(r@ =~= ascii(seq![a, b, c, d]));
    r
}

/// A name field of `len` bytes from ASCII characters.
fn ascii_name(cs: &[char], len: usize) -> (r: Vec<u8>)
    requires
        forall|i: int| 0 <= i < cs@.len() ==> (cs@[i] as u32) < 128,
    ensures
        r@ == name_field(ascii(cs@), len as nat),
{
    let b = ascii_bytes(cs);
    name_bytes(b.as_slice(), len)
}

fn phdr_bytes() -> (r: Vec<u8>)
    ensures
        r@ == phdr_spec(),
        r@.len() == 76,
{
    let mut phdr = ascii_name(&['S', 'i', 'n', 'e'], 20);
    push_le16(&mut phdr, 0);
    push_le16(&mut phdr, 0);
    push_le16(&mut phdr, 0);
    push_le32(&mut phdr, 0);
    push_le32(&mut phdr, 0);
    push_le32(&mut phdr, 0);
    let eop = ascii_name(&['E', 'O', 'P'], 20);
    push_all(&mut phdr, eop.as_slice());
    push_le16(&mut phdr, 0);
    push_le16(&mut phdr, 0);
    push_le16(&mut phdr, 1);
    push_le32(&mut phdr, 0);
    push_le32(&mut phdr, 0);
    push_le32(&mut phdr, 0);
    assert(phdr@ =~= phdr_spec()) by {
        reveal_with_fuel(zeros32, 4);
    }
    phdr
}

fn inst_bytes() -> (r: Vec<u8>)
    ensures
        r@ == inst_spec(),
        r@.len() == 44,
{
    let mut inst = ascii_name(&['S', 'i', 'n', 'e', 'I', 'n', 's', 't'], 20);
    push_le16(&mut inst, 0);
    let eoi = ascii_name(&['E', 'O', 'I'], 20);
    push_all(&mut inst, eoi.as_slice());
    push_le16(&mut inst, 1);
    assert(inst@ =~= inst_spec());
    inst
}

fn shdr_bytes(frames: u32, rate: u32, pitch: u8) -> (r: Vec<u8>)
    requires
        frames > 0,
    ensures
        r@ == shdr_spec(frames, rate, pitch),
        r@.len() == 92,
{
    let mut shdr = ascii_name(&['s', 'i', 'n', 'e'], 20);
    push_le32(&mut shdr, 0);
    push_le32(&mut shdr, frames - 1);
    push_le32(&mut shdr, 0);
    push_le32(&mut shdr, frames - 1);
    push_le32(&mut shdr, rate);
    shdr.push(pitch);
    shdr.push(0);
    push_le16(&mut shdr, 0);
    push_le16(&mut shdr, 1);
    let eos = ascii_name(&['E', 'O', 'S'], 20);
    push_all(&mut shdr, eos.as_slice());
    let tail: [u8; 26] = [0u8; 26];
    push_all(&mut shdr, &tail);
    assert(tail@ =~= Seq::new(26, |i: int| 0u8));
    assert(shdr@ =~= shdr_spec(frames, rate, pitch));
    shdr
}

fn pdta_bytes(frames: u32, rate: u32, pitch: u8) -> (r: Vec<u8>)
    requires
        frames > 0,
    ensures
        r@ == pdta_spec(frames, rate, pitch),
        r@.len() == 336,
{
    let phdr = phdr_bytes();
    let inst = inst_bytes();
    let shdr = shdr_bytes(frames, rate, pitch);
    let bag: [u8; 8] = [0u8, 0, 0, 0, 1, 0, 0, 0];
    let mods: [u8; 10] = [0u8; 10];
    let pgen: [u8; 8] = [41u8, 0, 0, 0, 0, 0, 0, 0];
    let igen: [u8; 8] = [53u8, 0, 0, 0, 0, 0, 0, 0];
    assert(bag@ =~= bag_spec());
    assert(mods@ =~= Seq::new(10, |i: int| 0u8));
    let mut pdta: Vec<u8> = Vec::new();
    chunk(&tag('p', 'h', 'd', 'r'), phdr.as_slice(), &mut pdta);
    chunk(&tag('p', 'b', 'a', 'g'), &bag, &mut pdta);
    chunk(&tag('p', 'm', 'o', 'd'), &mods, &mut pdta);
    chunk(&tag('p', 'g', 'e', 'n'), &pgen, &mut pdta);
    chunk(&tag('i', 'n', 's', 't'), inst.as_slice(), &mut pdta);
    chunk(&tag('i', 'b', 'a', 'g'), &bag, &mut pdta);
    chunk(&tag('i', 'm', 'o', 'd'), &mods, &mut pdta);
    chunk(&tag('i', 'g', 'e', 'n'), &igen, &mut pdta);
    chunk(&tag('s', 'h', 'd', 'r'), shdr.as_slice(), &mut pdta);
    assert(pdta@ =~= pdta_spec(frames, rate, pitch));
    pdta
}

fn info_bytes() -> (r: Vec<u8>)
    ensures
        r@ == info_spec(),
        r@.len() == 48,
{
    let mut info: Vec<u8> = Vec::new();
    chunk(&tag('i', 'f', 'i', 'l'), &[2u8, 0, 1, 0], &mut info);
    let engine = ascii_bytes(&['E', 'M', 'U', '8', '0', '0', '0']);
    chunk(&tag('i', 's', 'n', 'g'), engine.as_slice(), &mut info);
    let name = ascii_bytes(&['m', 'm', 'l', 'x', '-', 'm', 'i', 'n', 'i', 'm', 'a', 'l']);
    chunk(&tag('I', 'N', 'A', 'M'), name.as_slice(), &mut info);
    assert(info@ =~= info_spec());
    info
}

/// Appends a `LIST` chunk of the given kind.
fn list(kind: &[u8; 4], body: &[u8], out: &mut Vec<u8>)
    requires
        body@.len() + 4 < u32::MAX,
    ensures
        final(out)@ == old(out)@ + chunk_spec(ascii(seq!['L', 'I', 'S', 'T']), kind@ + body@),
{
    let mut inner: Vec<u8> = Vec::new();
    push_all(&mut inner, kind);
    push_all(&mut inner, body);
    chunk(&tag('L', 'I', 'S', 'T'), inner.as_slice(), out);
}

/// Build a minimal SF2 bank: one preset, one instrument looping its whole
/// sample. `samples` are the 16-bit little-endian frames, `sample_rate`
/// of them, played at `sample_rate` Hz as MIDI `pitch`.
#[verifier::rlimit(40)]
pub fn sf2_bank(sample_rate: u32, samples: &[u8], pitch: u8) -> (r: Vec<u8>)
    requires
        sample_rate > 0,
        samples@.len() <= 0x4000_0000,
    ensures
        r@ == bank_spec(sample_rate, samples@, pitch),
{
    let mut sdta: Vec<u8> = Vec::new();
    chunk(&tag('s', 'm', 'p', 'l'), samples, &mut sdta);
    let pdta = pdta_bytes(sample_rate, sample_rate, pitch);
    let info = info_bytes();
    let mut lists: Vec<u8> = Vec::new();
    list(&tag('I', 'N', 'F', 'O'), info.as_slice(), &mut lists);
    list(&tag('s', 'd', 't', 'a'), sdta.as_slice(), &mut lists);
    list(&tag('p', 'd', 't', 'a'), pdta.as_slice(), &mut lists);
    let mut sfbk: Vec<u8> = Vec::new();
    push_all(&mut sfbk, &tag('s', 'f', 'b', 'k'));
    push_all(&mut sfbk, lists.as_slice());
    let mut riff: Vec<u8> = Vec::new();
    push_all(&mut riff, &tag('R', 'I', 'F', 'F'));
    push_le32(&mut riff, sfbk.len() as u32);
    push_all(&mut riff, sfbk.as_slice());
    riff
}

} // verus!
