use oxideav_dvd::dts::{DtsAudioMode, DtsBitRate, DtsFrameType, DtsHeader, DtsSampleRate};
use oxideav_dvd::error::Error;

/// Assemble a 10-byte DTS core frame header from the field values,
/// packing the bit fields MSB-first after the 4-byte sync word.
#[allow(clippy::too_many_arguments)]
fn build_frame(
    ftype: u8,
    short: u8,
    cpf: u8,
    nblks: u8,
    fsize: u16,
    amode: u8,
    sfreq: u8,
    rate: u8,
    flags: u8, // mix dynf timef auxf hdcd packed into low 5 bits
) -> Vec<u8> {
    let mut f = vec![0x7F, 0xFE, 0x80, 0x01];

    let mut bitbuf: Vec<bool> = Vec::new();
    let push = |bb: &mut Vec<bool>, val: u32, n: usize| {
        for i in (0..n).rev() {
            bb.push((val >> i) & 1 != 0);
        }
    };
    push(&mut bitbuf, ftype as u32, 1);
    push(&mut bitbuf, short as u32, 5);
    push(&mut bitbuf, cpf as u32, 1);
    push(&mut bitbuf, nblks as u32, 7);
    push(&mut bitbuf, fsize as u32, 14);
    push(&mut bitbuf, amode as u32, 6);
    push(&mut bitbuf, sfreq as u32, 4);
    push(&mut bitbuf, rate as u32, 5);
    push(&mut bitbuf, (flags >> 4) as u32 & 1, 1); // mix
    push(&mut bitbuf, (flags >> 3) as u32 & 1, 1); // dynf
    push(&mut bitbuf, (flags >> 2) as u32 & 1, 1); // timef
    push(&mut bitbuf, (flags >> 1) as u32 & 1, 1); // auxf
    push(&mut bitbuf, flags as u32 & 1, 1); // hdcd

    // 48 header bits → exactly 6 bytes.
    for chunk in bitbuf.chunks(8) {
        let mut b = 0u8;
        for (i, &bit) in chunk.iter().enumerate() {
            if bit {
                b |= 1 << (7 - i);
            }
        }
        f.push(b);
    }
    while f.len() < 10 {
        f.push(0);
    }
    f
}

#[test]
fn parse_dvd_768kbps_5_1() {
    // Normal frame, short=31, no CRC, nblks=15, fsize=1005 (1006 bytes),
    // amode=0x09 (5 ch), sfreq=0xD (48 kHz), rate=0x0F (768 kbps), no flags.
    let f = build_frame(1, 31, 0, 15, 1005, 0x09, 0xD, 0x0F, 0);
    let h = DtsHeader::parse(&f).unwrap();
    assert_eq!(h.frame_type, DtsFrameType::Normal);
    assert_eq!(h.short, 31);
    assert!(!h.crc_present);
    assert_eq!(h.nblks, 15);
    assert_eq!(h.sample_block_count(), 16);
    assert_eq!(h.sample_count(), 512);
    assert_eq!(h.fsize, 1005);
    assert_eq!(h.frame_size_bytes(), 1006);
    assert_eq!(h.audio_mode, DtsAudioMode::FiveChannel);
    assert_eq!(h.channel_count(), Some(5));
    assert_eq!(h.sample_rate, DtsSampleRate::Hz48000);
    assert_eq!(h.sample_rate_hz(), Some(48_000));
    assert_eq!(h.bit_rate, DtsBitRate::Kbps768);
    assert_eq!(h.targeted_bitrate_kbps(), Some(768));
    assert!(!h.mix && !h.dynamic_range && !h.time_stamp && !h.aux_data && !h.hdcd);
}

#[test]
fn parse_dvd_1536kbps_with_flags() {
    // fsize=2012 (2013 bytes), rate=0x18 (1536 kbps), all five flags set.
    let f = build_frame(1, 31, 0, 15, 2012, 0x02, 0xD, 0x18, 0b1_1111);
    let h = DtsHeader::parse(&f).unwrap();
    assert_eq!(h.fsize, 2012);
    assert_eq!(h.frame_size_bytes(), 2013);
    assert_eq!(h.bit_rate, DtsBitRate::Kbps1536);
    assert_eq!(h.targeted_bitrate_kbps(), Some(1536));
    assert_eq!(h.audio_mode, DtsAudioMode::Stereo);
    assert_eq!(h.channel_count(), Some(2));
    assert!(h.mix && h.dynamic_range && h.time_stamp && h.aux_data && h.hdcd);
}

#[test]
fn termination_frame() {
    // ftype=0, short=20 → falls 20 samples short of 32.
    let f = build_frame(0, 20, 0, 5, 600, 0x00, 0xD, 0x0F, 0);
    let h = DtsHeader::parse(&f).unwrap();
    assert_eq!(h.frame_type, DtsFrameType::Termination);
    assert_eq!(h.short, 20);
    assert_eq!(h.audio_mode, DtsAudioMode::Mono);
    assert_eq!(h.channel_count(), Some(1));
    assert_eq!(h.sample_block_count(), 6);
}

#[test]
fn amode_channel_count_table() {
    let expected: [(u8, Option<u8>); 16] = [
        (0x00, Some(1)),
        (0x01, Some(2)),
        (0x02, Some(2)),
        (0x03, Some(2)),
        (0x04, Some(2)),
        (0x05, Some(3)),
        (0x06, Some(3)),
        (0x07, Some(4)),
        (0x08, Some(4)),
        (0x09, Some(5)),
        (0x0A, Some(6)),
        (0x0B, Some(6)),
        (0x0C, Some(6)),
        (0x0D, Some(7)),
        (0x0E, Some(8)),
        (0x0F, Some(8)),
    ];
    for (code, n) in expected {
        let m = DtsAudioMode::from_code(code);
        assert_eq!(m.code(), code);
        assert_eq!(m.channel_count(), n, "amode {code:#x}");
    }
}

#[test]
fn amode_user_defined() {
    let m = DtsAudioMode::from_code(0x10);
    assert_eq!(m, DtsAudioMode::UserDefined(0x10));
    assert_eq!(m.channel_count(), None);
    assert_eq!(m.code(), 0x10);
    let m = DtsAudioMode::from_code(0x3F);
    assert_eq!(m, DtsAudioMode::UserDefined(0x3F));
    assert_eq!(m.channel_count(), None);
}

#[test]
fn sfreq_table() {
    let valid: [(u8, u32); 9] = [
        (0x1, 8_000),
        (0x2, 16_000),
        (0x3, 32_000),
        (0x6, 11_025),
        (0x7, 22_050),
        (0x8, 44_100),
        (0xB, 12_000),
        (0xC, 24_000),
        (0xD, 48_000),
    ];
    for (code, hz) in valid {
        assert_eq!(
            DtsSampleRate::from_code(code).hz(),
            Some(hz),
            "sfreq {code:#x}"
        );
    }
    for code in [0x0u8, 0x4, 0x5, 0x9, 0xA, 0xE, 0xF] {
        assert_eq!(DtsSampleRate::from_code(code), DtsSampleRate::Invalid);
        assert_eq!(DtsSampleRate::from_code(code).hz(), None);
    }
}

#[test]
fn rate_other_code() {
    let f = build_frame(1, 31, 0, 15, 1005, 0x02, 0xD, 0x05, 0);
    let h = DtsHeader::parse(&f).unwrap();
    assert_eq!(h.bit_rate, DtsBitRate::Other(0x05));
    assert_eq!(h.targeted_bitrate_kbps(), None);
    assert_eq!(h.bit_rate.code(), 0x05);
}

#[test]
fn reserved_sfreq_in_frame() {
    let f = build_frame(1, 31, 0, 15, 1005, 0x02, 0x0, 0x0F, 0);
    let h = DtsHeader::parse(&f).unwrap();
    assert_eq!(h.sample_rate, DtsSampleRate::Invalid);
    assert_eq!(h.sample_rate_hz(), None);
}

#[test]
fn dts_rejects_bad_syncword() {
    let mut f = build_frame(1, 31, 0, 15, 1005, 0x02, 0xD, 0x0F, 0);
    f[0] = 0x00;
    let err = DtsHeader::parse(&f).unwrap_err();
    assert!(matches!(err, Error::InvalidUdf(_)));
}

#[test]
fn dts_rejects_short_buffer() {
    let err = DtsHeader::parse(&[0x7F, 0xFE, 0x80, 0x01, 0, 0, 0, 0, 0]).unwrap_err();
    assert!(matches!(err, Error::InvalidUdf(_)));
}

#[test]
fn crc_present_flag() {
    let f = build_frame(1, 31, 1, 15, 1005, 0x02, 0xD, 0x0F, 0);
    let h = DtsHeader::parse(&f).unwrap();
    assert!(h.crc_present);
}
