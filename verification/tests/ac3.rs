use oxideav_dvd::ac3::{
    Ac3AudioCodingMode, Ac3BitstreamMode, Ac3Header, Ac3SampleRate, FRM_BITRATE_KBPS,
    FRM_SIZE_CODES,
};
use oxideav_dvd::error::Error;

/// Build a sync frame whose `syncinfo()` declares 48 kHz, the
/// given `frmsizecod`, and a `bsi()` prefix of `bsid=8`,
/// `bsmod=0`, the given `acmod`, no conditional mix fields beyond
/// what `acmod` forces, and `lfeon` from `lfe`.
fn build_frame(
    fscod: u8,
    frmsizecod: u8,
    bsid: u8,
    bsmod: u8,
    acmod: u8,
    lfe: bool,
) -> Vec<u8> {
    let mut f = vec![0x0B, 0x77, 0x12, 0x34];
    f.push((fscod << 6) | (frmsizecod & 0b0011_1111));

    // Assemble bsi() prefix MSB-first into a bit buffer.
    let mut bitbuf: Vec<bool> = Vec::new();
    let push = |bb: &mut Vec<bool>, val: u8, n: usize| {
        for i in (0..n).rev() {
            bb.push((val >> i) & 1 != 0);
        }
    };
    push(&mut bitbuf, bsid, 5);
    push(&mut bitbuf, bsmod, 3);
    push(&mut bitbuf, acmod, 3);
    let acm = Ac3AudioCodingMode::from_code(acmod);
    if acm.has_center_mix_level() {
        push(&mut bitbuf, 0b01, 2);
    }
    if acm.has_surround_mix_level() {
        push(&mut bitbuf, 0b10, 2);
    }
    if acm.has_dolby_surround_mode() {
        push(&mut bitbuf, 0b10, 2);
    }
    bitbuf.push(lfe);
    // Pack the bit buffer into bytes (MSB-first), padding the tail.
    while bitbuf.len() % 8 != 0 {
        bitbuf.push(false);
    }
    for chunk in bitbuf.chunks(8) {
        let mut b = 0u8;
        for (i, &bit) in chunk.iter().enumerate() {
            if bit {
                b |= 1 << (7 - i);
            }
        }
        f.push(b);
    }
    // Ensure at least 7 bytes total.
    while f.len() < 7 {
        f.push(0);
    }
    f
}

#[test]
fn parse_stereo_48k() {
    // 48 kHz, frmsizecod=0 (32 kbps), bsid=8, bsmod=0, acmod=2 (2/0), no LFE.
    let f = build_frame(0, 0, 8, 0, 2, false);
    let h = Ac3Header::parse(&f).unwrap();
    assert_eq!(h.crc1, 0x1234);
    assert_eq!(h.sample_rate, Ac3SampleRate::Hz48000);
    assert_eq!(h.sample_rate_hz(), Some(48_000));
    assert_eq!(h.frame_size_code, 0);
    assert_eq!(h.bsid, 8);
    assert_eq!(h.bitstream_mode, Ac3BitstreamMode::CompleteMain);
    assert_eq!(h.audio_coding_mode, Ac3AudioCodingMode::Stereo);
    // 2/0 has dsurmod but no cmixlev / surmixlev.
    assert_eq!(h.center_mix_level, None);
    assert_eq!(h.surround_mix_level, None);
    assert_eq!(h.dolby_surround_mode, Some(0b10));
    assert!(!h.lfe_on);
    assert_eq!(h.total_channel_count(), 2);
    assert_eq!(h.nominal_bitrate_kbps(), Some(32));
    assert_eq!(h.frame_size_words(), Some(64));
    assert_eq!(h.frame_size_bytes(), Some(128));
}

#[test]
fn parse_five_one_48k() {
    // acmod=7 (3/2) + LFE → 5.1. frmsizecod=24 → 256 kbps.
    let f = build_frame(0, 24, 8, 0, 7, true);
    let h = Ac3Header::parse(&f).unwrap();
    assert_eq!(h.audio_coding_mode, Ac3AudioCodingMode::ThreeTwo);
    // 3/2 carries both cmixlev and surmixlev, no dsurmod.
    assert_eq!(h.center_mix_level, Some(0b01));
    assert_eq!(h.surround_mix_level, Some(0b10));
    assert_eq!(h.dolby_surround_mode, None);
    assert!(h.lfe_on);
    assert_eq!(h.audio_coding_mode.channel_count(), 5);
    assert_eq!(h.total_channel_count(), 6);
    assert_eq!(h.nominal_bitrate_kbps(), Some(256));
    assert_eq!(h.frame_size_words(), Some(512));
}

#[test]
fn frmsizecod_table_sample_rate_columns() {
    // frmsizecod=26 (320 kbps) at each sample rate.
    let at = |fscod: u8| Ac3Header::parse(&build_frame(fscod, 26, 8, 0, 2, false)).unwrap();
    let h48 = at(0);
    assert_eq!(h48.sample_rate_hz(), Some(48_000));
    assert_eq!(h48.frame_size_words(), Some(640));
    let h44 = at(1);
    assert_eq!(h44.sample_rate_hz(), Some(44_100));
    assert_eq!(h44.frame_size_words(), Some(696));
    let h32 = at(2);
    assert_eq!(h32.sample_rate_hz(), Some(32_000));
    assert_eq!(h32.frame_size_words(), Some(960));
}

#[test]
fn reserved_fscod_yields_none() {
    let h = Ac3Header::parse(&build_frame(3, 0, 8, 0, 2, false)).unwrap();
    assert_eq!(h.sample_rate, Ac3SampleRate::Reserved);
    assert_eq!(h.sample_rate_hz(), None);
    // frame_size_words needs a defined sample rate.
    assert_eq!(h.frame_size_words(), None);
    // but the nominal bitrate is sample-rate-independent.
    assert_eq!(h.nominal_bitrate_kbps(), Some(32));
}

#[test]
fn reserved_frmsizecod_yields_none() {
    // frmsizecod=0b100110 (38) is the first reserved code.
    let h = Ac3Header::parse(&build_frame(0, 38, 8, 0, 2, false)).unwrap();
    assert_eq!(h.frame_size_code, 38);
    assert_eq!(h.nominal_bitrate_kbps(), None);
    assert_eq!(h.frame_size_words(), None);
    assert_eq!(h.frame_size_bytes(), None);
}

#[test]
fn all_acmod_channel_counts() {
    let expected = [2u8, 1, 2, 3, 3, 4, 4, 5];
    for (code, &n) in expected.iter().enumerate() {
        assert_eq!(Ac3AudioCodingMode::from_code(code as u8).channel_count(), n);
    }
}

#[test]
fn conditional_field_presence_by_acmod() {
    // Centre present for 3/0(3), 3/1(5), 3/2(7).
    for code in [3u8, 5, 7] {
        assert!(Ac3AudioCodingMode::from_code(code).has_center_mix_level());
    }
    for code in [0u8, 1, 2, 4, 6] {
        assert!(!Ac3AudioCodingMode::from_code(code).has_center_mix_level());
    }
    // Surround present for 2/1(4), 3/1(5), 2/2(6), 3/2(7).
    for code in [4u8, 5, 6, 7] {
        assert!(Ac3AudioCodingMode::from_code(code).has_surround_mix_level());
    }
    for code in [0u8, 1, 2, 3] {
        assert!(!Ac3AudioCodingMode::from_code(code).has_surround_mix_level());
    }
    // dsurmod only for 2/0(2).
    assert!(Ac3AudioCodingMode::from_code(2).has_dolby_surround_mode());
    for code in [0u8, 1, 3, 4, 5, 6, 7] {
        assert!(!Ac3AudioCodingMode::from_code(code).has_dolby_surround_mode());
    }
}

#[test]
fn bitstream_mode_table() {
    let modes = [
        Ac3BitstreamMode::CompleteMain,
        Ac3BitstreamMode::MusicAndEffects,
        Ac3BitstreamMode::VisuallyImpaired,
        Ac3BitstreamMode::HearingImpaired,
        Ac3BitstreamMode::Dialogue,
        Ac3BitstreamMode::Commentary,
        Ac3BitstreamMode::Emergency,
        Ac3BitstreamMode::VoiceOverOrKaraoke,
    ];
    for (code, &m) in modes.iter().enumerate() {
        let h = Ac3Header::parse(&build_frame(0, 0, 8, code as u8, 2, false)).unwrap();
        assert_eq!(h.bitstream_mode, m);
    }
}

#[test]
fn ac3_rejects_bad_syncword() {
    let mut f = build_frame(0, 0, 8, 0, 2, false);
    f[0] = 0x00;
    let err = Ac3Header::parse(&f).unwrap_err();
    assert!(matches!(err, Error::InvalidUdf(_)));
}

#[test]
fn ac3_rejects_short_buffer() {
    let err = Ac3Header::parse(&[0x0B, 0x77, 0, 0, 0, 0]).unwrap_err();
    assert!(matches!(err, Error::InvalidUdf(_)));
}

#[test]
fn frmsizecod_table_is_complete() {
    // 38 defined codes, indices 0..=37.
    assert_eq!(FRM_BITRATE_KBPS.len(), 38);
    assert_eq!(FRM_SIZE_CODES, 38);
    // First and last bit rates per the table.
    assert_eq!(FRM_BITRATE_KBPS[0], 32);
    assert_eq!(FRM_BITRATE_KBPS[37], 640);
}
