//! Sound cues and the WAV framing of the synthesized cue sounds. The
//! samples themselves are floating-point synthesis and are computed by the
//! application; the engine that plays them is the application's too.

use vstd::prelude::*;

verus! {

/// UI and game event cues. Their keys name them in the sound bank.
#[derive(Clone, Copy, Debug, PartialEq, Eq, Structural)]
pub enum Cue {
    UiClick,
    Plant,
    Sun,
    Pea,
    Explosion,
    Chomp,
    Win,
    Lose,
}

/// Bank key of a cue.
pub open spec fn cue_key(c: Cue) -> Seq<char> {
    match c {
        Cue::UiClick => "ui_click"@,
        Cue::Plant => "plant"@,
        Cue::Sun => "sun"@,
        Cue::Pea => "pea"@,
        Cue::Explosion => "explosion"@,
        Cue::Chomp => "chomp"@,
        Cue::Win => "win"@,
        Cue::Lose => "lose"@,
    }
}

impl Cue {
    /// The cue's bank key.
    pub fn key(self) -> (r: &'static str)
        ensures
            r@ == cue_key(self),
    {
        match self {
            Cue::UiClick => "ui_click",
            Cue::Plant => "plant",
            Cue::Sun => "sun",
            Cue::Pea => "pea",
            Cue::Explosion => "explosion",
            Cue::Chomp => "chomp",
            Cue::Win => "win",
            Cue::Lose => "lose",
        }
    }
}

/// Sample rate of the synthesized cues (Hz).
pub const CUE_SAMPLE_RATE: u32 = 22050;

/// Samples in a blip of `ms` milliseconds: the rate times the duration,
/// rounded down, and at least one.
pub open spec fn spec_blip_samples(ms: nat) -> nat {
    let n = CUE_SAMPLE_RATE as nat * ms / 1000;
    if n >= 1 {
        n
    } else {
        1
    }
}

/// Number of samples of a blip lasting `ms` milliseconds.
pub fn blip_sample_count(ms: u64) -> (n: u64)
    requires
        ms <= u64::MAX / (CUE_SAMPLE_RATE as u64),
    ensures
        n == spec_blip_samples(ms as nat),
{
    assert(22050 * ms <= u64::MAX) by (nonlinear_arith)
        requires
            ms <= u64::MAX / 22050,
    ;
    let n = (CUE_SAMPLE_RATE as u64) * ms / 1000;
    if n >= 1 {
        n
    } else {
        1
    }
}

/// Little-endian bytes of a 32-bit value.
pub open spec fn le32(x: nat) -> Seq<u8> {
    seq![(x % 256) as u8, (x / 256 % 256) as u8, (x / 65536 % 256) as u8, (x / 16777216 % 256) as u8]
}

/// Little-endian bytes of a 16-bit value.
pub open spec fn le16(x: nat) -> Seq<u8> {
    seq![(x % 256) as u8, (x / 256 % 256) as u8]
}

/// The 44-byte header of a mono 16-bit PCM WAV at the cue rate carrying
/// `data_len` bytes of samples.
pub open spec fn wav_header(data_len: nat) -> Seq<u8> {
    seq![82u8, 73, 70, 70] + le32(36 + data_len) + seq![87u8, 65, 86, 69, 102, 109, 116, 32] + le32(
        16,
    ) + le16(1) + le16(1) + le32(CUE_SAMPLE_RATE as nat) + le32(CUE_SAMPLE_RATE as nat * 2) + le16(
        2,
    ) + le16(16) + seq![100u8, 97, 116, 97] + le32(data_len)
}

fn push_le32(out: &mut Vec<u8>, x: u32)
    ensures
        final(out)@ == old(out)@ + le32(x as nat),
{
    out.push((x % 256) as u8);
    out.push((x / 256 % 256) as u8);
    out.push((x / 65536 % 256) as u8);
    out.push((x / 16777216 % 256) as u8);
}

fn push_le16(out: &mut Vec<u8>, x: u16)
    ensures
        final(out)@ == old(out)@ + le16(x as nat),
{
    out.push((x % 256) as u8);
    out.push((x / 256 % 256) as u8);
}

fn push_bytes4(out: &mut Vec<u8>, a: u8, b: u8, c: u8, d: u8)
    ensures
        final(out)@ == old(out)@ + seq![a, b, c, d],
{
    out.push(a);
    out.push(b);
    out.push(c);
    out.push(d);
}

/// Frames little-endian 16-bit mono samples (`pcm`, two bytes each) as a
/// WAV file: the RIFF/WAVE header, the format chunk, the data chunk.
pub fn wav_from_pcm(pcm: &Vec<u8>) -> (wav: Vec<u8>)
    requires
        pcm@.len() + 36 <= u32::MAX,
    ensures
        wav@ == wav_header(pcm@.len()) + pcm@,
{
    let data_len = pcm.len() as u32;
    let mut wav: Vec<u8> = Vec::new();
    push_bytes4(&mut wav, 82, 73, 70, 70);
    push_le32(&mut wav, 36 + data_len);
    push_bytes4(&mut wav, 87, 65, 86, 69);
    push_bytes4(&mut wav, 102, 109, 116, 32);
    push_le32(&mut wav, 16);
    push_le16(&mut wav, 1);
    push_le16(&mut wav, 1);
    push_le32(&mut wav, CUE_SAMPLE_RATE);
    push_le32(&mut wav, CUE_SAMPLE_RATE * 2);
    push_le16(&mut wav, 2);
    push_le16(&mut wav, 16);
    push_bytes4(&mut wav, 100, 97, 116, 97);
    push_le32(&mut wav, data_len);
    let ghost head = wav@;
    assert(head =~= wav_header(pcm@.len()));
    let mut i: usize = 0;
    while i < pcm.len()
        invariant
            i <= pcm@.len(),
            wav@ == head + pcm@.take(i as int),
        decreases pcm@.len() - i,
    {
        wav.push(pcm[i]);
        assert(pcm@.take(i + 1) == pcm@.take(i as int).push(pcm@[i as int]));
        i = i + 1;
    }
    assert(pcm@.take(pcm@.len() as int) == pcm@);
    wav
}

} // verus!
