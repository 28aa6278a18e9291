use rozvp::audio::{blip_sample_count, wav_from_pcm, Cue};

#[test]
fn cue_keys_are_stable() {
    assert_eq!(Cue::UiClick.key(), "ui_click");
    assert_eq!(Cue::Explosion.key(), "explosion");
}

#[test]
fn synth_wav_has_valid_header() {
    let n = blip_sample_count(100) as usize;
    let wav = wav_from_pcm(&vec![0u8; n * 2]);
    assert_eq!(&wav[0..4], b"RIFF");
    assert_eq!(&wav[8..12], b"WAVE");
    assert_eq!(&wav[12..16], b"fmt ");
    assert_eq!(&wav[36..40], b"data");
    assert_eq!(wav.len(), 44 + 2205 * 2);
}

#[test]
fn wav_header_fields_are_little_endian() {
    let wav = wav_from_pcm(&vec![1, 2, 3, 4]);
    assert_eq!(&wav[4..8], &40u32.to_le_bytes());
    assert_eq!(&wav[16..20], &16u32.to_le_bytes());
    assert_eq!(&wav[20..22], &1u16.to_le_bytes());
    assert_eq!(&wav[22..24], &1u16.to_le_bytes());
    assert_eq!(&wav[24..28], &22050u32.to_le_bytes());
    assert_eq!(&wav[28..32], &44100u32.to_le_bytes());
    assert_eq!(&wav[32..34], &2u16.to_le_bytes());
    assert_eq!(&wav[34..36], &16u16.to_le_bytes());
    assert_eq!(&wav[40..44], &4u32.to_le_bytes());
    assert_eq!(&wav[44..], &[1, 2, 3, 4]);
}

#[test]
fn blips_have_at_least_one_sample() {
    assert_eq!(blip_sample_count(0), 1);
    assert_eq!(blip_sample_count(600), 13230);
    let keys: Vec<&str> = [Cue::UiClick, Cue::Plant, Cue::Sun, Cue::Pea, Cue::Explosion, Cue::Chomp, Cue::Win, Cue::Lose]
        .iter()
        .map(|c| c.key())
        .collect();
    assert_eq!(keys, vec!["ui_click", "plant", "sun", "pea", "explosion", "chomp", "win", "lose"]);
}
