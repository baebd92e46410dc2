use oxideav_dvd::error::Error;
use oxideav_dvd::lpcm::{
    peel_lpcm_payload, LpcmHeader, LpcmQuantisation, LpcmSampleFrequency,
    LPCM_FRAMES_PER_GROUP, LPCM_FRAMES_PER_SECOND, LPCM_FRAME_DURATION_90KHZ,
    LPCM_GROUP_DURATION_90KHZ, LPCM_HEADER_LEN,
};

/// Build the canonical 7-byte LPCM header: track 0, 16-bit /
/// 48 kHz / 2 ch, no emphasis / mute, all counters zero, unity
/// dynamic-range coefficients.
fn baseline_header() -> [u8; 7] {
    [
        0xA0, // sub_stream_id, LPCM track 0
        0x00, // number_of_frame_headers
        0x00, 0x00, // first_access_unit_pointer
        0x00, // emphasis=0 mute=0 frame=0
        0x01, // q=0 (16-bit) sr=0 (48k) ch=0+1=1 — fixed below
        0x00, // X=0 Y=0
    ]
}

#[test]
fn parse_baseline_header() {
    let mut bytes = baseline_header();
    // 2-channel form: ch_code = 1 → channel_count = 2
    bytes[5] = 0b0000_0001;
    let h = LpcmHeader::parse(&bytes).unwrap();
    assert_eq!(h.sub_stream_id, 0xA0);
    assert_eq!(h.track(), 0);
    assert_eq!(h.number_of_frame_headers, 0);
    assert_eq!(h.first_access_unit_pointer, 0);
    assert!(!h.audio_emphasis_flag);
    assert!(!h.audio_mute_flag);
    assert_eq!(h.audio_frame_number, 0);
    assert_eq!(h.quantisation, LpcmQuantisation::Bits16);
    assert_eq!(h.sample_frequency, LpcmSampleFrequency::Hz48000);
    assert_eq!(h.channel_count, 2);
    assert_eq!(h.bits_per_sample(), Some(16));
    assert_eq!(h.sample_rate_hz(), Some(48_000));
    assert_eq!(h.bitrate_kbps(), Some(1_536));
    assert!(h.is_within_dvd_video_limit());
}

#[test]
fn parse_rejects_short_buffer() {
    let short = [0xA0, 0, 0, 0, 0, 0];
    let err = LpcmHeader::parse(&short).unwrap_err();
    matches!(err, Error::InvalidUdf(_));
}

#[test]
fn parse_rejects_non_lpcm_substream() {
    // 0x80 is AC-3 territory, not LPCM.
    let bytes = [0x80, 0, 0, 0, 0, 0, 0];
    let err = LpcmHeader::parse(&bytes).unwrap_err();
    matches!(err, Error::InvalidUdf(_));
}

#[test]
fn parse_decodes_each_track_id() {
    for track in 0..=7u8 {
        let mut bytes = baseline_header();
        bytes[0] = 0xA0 + track;
        let h = LpcmHeader::parse(&bytes).unwrap();
        assert_eq!(h.track(), track);
        assert_eq!(h.sub_stream_id, 0xA0 + track);
    }
}

#[test]
fn parse_decodes_quantisation_codes() {
    for (code, expected, bps) in [
        (0u8, LpcmQuantisation::Bits16, Some(16)),
        (1, LpcmQuantisation::Bits20, Some(20)),
        (2, LpcmQuantisation::Bits24, Some(24)),
        (3, LpcmQuantisation::Reserved, None),
    ] {
        let mut bytes = baseline_header();
        // Preserve channel-count = 2 (ch_code = 1).
        bytes[5] = (code << 6) | 0b0000_0001;
        let h = LpcmHeader::parse(&bytes).unwrap();
        assert_eq!(h.quantisation, expected);
        assert_eq!(h.bits_per_sample(), bps);
    }
}

#[test]
fn parse_decodes_sample_frequency_codes() {
    for (code, expected, hz) in [
        (0u8, LpcmSampleFrequency::Hz48000, Some(48_000)),
        (1, LpcmSampleFrequency::Hz96000, Some(96_000)),
        (2, LpcmSampleFrequency::Reserved, None),
        (3, LpcmSampleFrequency::Reserved, None),
    ] {
        let mut bytes = baseline_header();
        bytes[5] = (code << 4) | 0b0000_0001;
        let h = LpcmHeader::parse(&bytes).unwrap();
        assert_eq!(h.sample_frequency, expected);
        assert_eq!(h.sample_rate_hz(), hz);
    }
}

#[test]
fn parse_decodes_channel_count_offset_by_one() {
    for code in 0u8..=7 {
        let mut bytes = baseline_header();
        bytes[5] = code & 0b0000_0111;
        let h = LpcmHeader::parse(&bytes).unwrap();
        assert_eq!(h.channel_count, code + 1);
    }
}

#[test]
fn parse_decodes_emphasis_mute_frame_number() {
    let mut bytes = baseline_header();
    bytes[4] = 0b1000_0000 | 0b0100_0000 | 0b0001_0101;
    let h = LpcmHeader::parse(&bytes).unwrap();
    assert!(h.audio_emphasis_flag);
    assert!(h.audio_mute_flag);
    assert_eq!(h.audio_frame_number, 0b1_0101);
}

#[test]
fn parse_decodes_first_access_unit_pointer() {
    let mut bytes = baseline_header();
    bytes[2] = 0x12;
    bytes[3] = 0x34;
    let h = LpcmHeader::parse(&bytes).unwrap();
    assert_eq!(h.first_access_unit_pointer, 0x1234);
}

#[test]
fn parse_decodes_dynamic_range_xy_split() {
    let mut bytes = baseline_header();
    bytes[6] = 0b1010_0000 | 0b0000_1011; // X = 0b101, Y = 0b01011
    let h = LpcmHeader::parse(&bytes).unwrap();
    assert_eq!(h.dynamic_range_x, 0b101);
    assert_eq!(h.dynamic_range_y, 0b01011);
}



/// Every configuration within the LPCM bit-rate ceiling must report
/// `is_within_dvd_video_limit() == true`; every one above it must
/// report `false`.
#[test]
fn bitrate_table_matches_limpcmaud_doc() {
    // (sample_rate_code, quantisation_code, channels, kbps, is_red)
    let table: &[(u8, u8, u8, u32, bool)] = &[
        // 48 kHz / 16 bits
        (0, 0, 1, 768, false),
        (0, 0, 2, 1536, false),
        (0, 0, 3, 2304, false),
        (0, 0, 4, 3072, false),
        (0, 0, 5, 3840, false),
        (0, 0, 6, 4608, false),
        (0, 0, 7, 5376, false),
        (0, 0, 8, 6144, false),
        // 48 kHz / 20 bits
        (0, 1, 1, 960, false),
        (0, 1, 2, 1920, false),
        (0, 1, 3, 2880, false),
        (0, 1, 4, 3840, false),
        (0, 1, 5, 4800, false),
        (0, 1, 6, 5760, false),
        (0, 1, 7, 6720, true),
        (0, 1, 8, 7680, true),
        // 48 kHz / 24 bits
        (0, 2, 1, 1152, false),
        (0, 2, 2, 2304, false),
        (0, 2, 3, 3456, false),
        (0, 2, 4, 4608, false),
        (0, 2, 5, 5760, false),
        (0, 2, 6, 6912, true),
        (0, 2, 7, 8064, true),
        (0, 2, 8, 9216, true),
        // 96 kHz / 16 bits
        (1, 0, 1, 1536, false),
        (1, 0, 2, 3072, false),
        (1, 0, 3, 4608, false),
        (1, 0, 4, 6144, false),
        (1, 0, 5, 7680, true),
        (1, 0, 6, 9216, true),
        (1, 0, 7, 10752, true),
        (1, 0, 8, 12288, true),
        // 96 kHz / 20 bits
        (1, 1, 1, 1920, false),
        (1, 1, 2, 3840, false),
        (1, 1, 3, 5760, false),
        (1, 1, 4, 7680, true),
        (1, 1, 5, 9600, true),
        (1, 1, 6, 11520, true),
        (1, 1, 7, 13440, true),
        (1, 1, 8, 15360, true),
        // 96 kHz / 24 bits
        (1, 2, 1, 2304, false),
        (1, 2, 2, 4608, false),
        (1, 2, 3, 6912, true),
        (1, 2, 4, 9216, true),
        (1, 2, 5, 11520, true),
        (1, 2, 6, 13824, true),
        (1, 2, 7, 16128, true),
        (1, 2, 8, 18432, true),
    ];
    for &(sr, q, ch, expected_kbps, is_red) in table {
        let mut bytes = baseline_header();
        bytes[5] = (q << 6) | (sr << 4) | ((ch - 1) & 0b111);
        let h = LpcmHeader::parse(&bytes).unwrap();
        assert_eq!(
            h.bitrate_kbps(),
            Some(expected_kbps),
            "sr={sr} q={q} ch={ch} mismatched bitrate",
        );
        assert_eq!(
            h.is_within_dvd_video_limit(),
            !is_red,
            "sr={sr} q={q} ch={ch} mismatched DVD-limit verdict",
        );
    }
}

#[test]
fn bitrate_returns_none_for_reserved_codes() {
    // Reserved quantisation code 3.
    let mut bytes = baseline_header();
    bytes[5] = (3 << 6) | 0b0000_0001;
    let h = LpcmHeader::parse(&bytes).unwrap();
    assert_eq!(h.bitrate_kbps(), None);
    assert!(!h.is_within_dvd_video_limit());

    // Reserved sample-frequency code 2.
    let mut bytes = baseline_header();
    bytes[5] = (2 << 4) | 0b0000_0001;
    let h = LpcmHeader::parse(&bytes).unwrap();
    assert_eq!(h.bitrate_kbps(), None);
    assert!(!h.is_within_dvd_video_limit());
}

#[test]
fn peel_lpcm_payload_returns_header_and_tail() {
    let mut bytes = vec![0xA0, 0x00, 0x00, 0x00, 0x00, 0x01, 0x00];
    bytes.extend_from_slice(&[0xDE, 0xAD, 0xBE, 0xEF]);
    let (h, tail) = peel_lpcm_payload(&bytes).unwrap();
    assert_eq!(h.track(), 0);
    assert_eq!(tail, &[0xDE, 0xAD, 0xBE, 0xEF]);
}

#[test]
fn peel_lpcm_payload_rejects_short_buffer() {
    let short = [0xA0, 0, 0, 0];
    let err = peel_lpcm_payload(&short).unwrap_err();
    matches!(err, Error::InvalidUdf(_));
}

/// Build a 16-bit stereo (or N-channel) header for the unpacker
/// tests: track 0, 48 kHz, unity dynamic range.
fn header_16bit(channels: u8) -> LpcmHeader {
    let mut bytes = baseline_header();
    // q=0 (16-bit), sr=0 (48k), channels = channels-1 in low 3 bits.
    bytes[5] = (channels - 1) & 0b111;
    LpcmHeader::parse(&bytes).unwrap()
}

#[test]
fn unpack_16bit_reads_big_endian_interleaved() {
    let h = header_16bit(2);
    // Two stereo frames: L0=0x0102, R0=0xFFFE (=-2), L1=0x7FFF, R1=0x8000.
    let pcm = [0x01, 0x02, 0xFF, 0xFE, 0x7F, 0xFF, 0x80, 0x00];
    let samples = h.unpack_samples_16bit(&pcm).unwrap();
    assert_eq!(samples, vec![0x0102, -2, 0x7FFF, -0x8000]);
}

#[test]
fn unpack_16bit_ignores_incomplete_trailing_byte() {
    let h = header_16bit(1);
    // 5 bytes → 2 whole i16 samples + 1 leftover byte (ignored).
    let pcm = [0x00, 0x10, 0x00, 0x20, 0xAA];
    let samples = h.unpack_samples_16bit(&pcm).unwrap();
    assert_eq!(samples, vec![0x0010, 0x0020]);
    // The caller can detect truncation: 2 samples × 2 bytes = 4 < 5.
    assert_ne!(pcm.len(), samples.len() * 2);
}

#[test]
fn unpack_16bit_rejects_non_16bit_quantisation() {
    let mut bytes = baseline_header();
    // q=1 (20-bit), stereo.
    bytes[5] = 0b0100_0001;
    let h20 = LpcmHeader::parse(&bytes).unwrap();
    assert_eq!(h20.quantisation, LpcmQuantisation::Bits20);
    assert_eq!(h20.unpack_samples_16bit(&[0u8; 8]), None);
    assert_eq!(h20.sample_frame_count_16bit(&[0u8; 8]), None);

    // q=2 (24-bit).
    bytes[5] = 0b1000_0001;
    let h24 = LpcmHeader::parse(&bytes).unwrap();
    assert_eq!(h24.quantisation, LpcmQuantisation::Bits24);
    assert_eq!(h24.unpack_samples_16bit(&[0u8; 9]), None);
}

#[test]
fn frame_stride_and_count_match_mpucoder_example() {
    // Worked example: 48 kHz 16-bit stereo, one
    // 1.67 ms frame = 80 sample frames = 320 bytes.
    let h = header_16bit(2);
    assert_eq!(h.frame_stride_bytes(), Some(4)); // 2 ch × 2 bytes
    let pcm = vec![0u8; 320];
    assert_eq!(h.sample_frame_count_16bit(&pcm), Some(80));
    // The flat sample vector holds channel_count × frame_count
    // interleaved samples.
    let samples = h.unpack_samples_16bit(&pcm).unwrap();
    assert_eq!(samples.len(), 80 * 2);
}

#[test]
fn frame_stride_scales_with_channels_and_width() {
    // 16-bit 5.1 (6 channels) → 12-byte stride.
    let h6 = header_16bit(6);
    assert_eq!(h6.frame_stride_bytes(), Some(12));

    // 24-bit 6-channel stride is defined even though the sample
    // unpacker isn't: 6 × 3 = 18 bytes per frame.
    let mut bytes = baseline_header();
    bytes[5] = 0b1000_0101; // q=2 (24-bit), channels = 5+1 = 6
    let h24 = LpcmHeader::parse(&bytes).unwrap();
    assert_eq!(h24.channel_count, 6);
    assert_eq!(h24.frame_stride_bytes(), Some(18));
}

#[test]
fn frame_stride_none_for_reserved_quantisation() {
    let mut bytes = baseline_header();
    bytes[5] = 0b1100_0001; // q=3 (reserved)
    let h = LpcmHeader::parse(&bytes).unwrap();
    assert_eq!(h.quantisation, LpcmQuantisation::Reserved);
    assert_eq!(h.frame_stride_bytes(), None);
}

#[test]
fn bytes_per_sample_ratio_per_quantisation() {
    // 16-bit → 2/1, 20-bit → 5/2 (two-and-a-half bytes), 24-bit → 3/1.
    assert_eq!(LpcmQuantisation::Bits16.bytes_per_sample(), Some((2, 1)));
    assert_eq!(LpcmQuantisation::Bits20.bytes_per_sample(), Some((5, 2)));
    assert_eq!(LpcmQuantisation::Bits24.bytes_per_sample(), Some((3, 1)));
    assert_eq!(LpcmQuantisation::Reserved.bytes_per_sample(), None);

    // The header accessor forwards the same ratio.
    let mut bytes = baseline_header();
    bytes[5] = 0b0100_0001; // q=1 (20-bit), stereo
    let h20 = LpcmHeader::parse(&bytes).unwrap();
    assert_eq!(h20.bytes_per_sample(), Some((5, 2)));
}

#[test]
fn frame_stride_none_for_20bit_no_integer_per_sample_width() {
    // 20-bit packs 2.5 bytes/sample — no integer per-sample stride —
    // so frame_stride_bytes() is None for every channel count, while
    // bytes_per_sample() still reports the exact 5/2 ratio.
    for ch in 1u8..=8 {
        let mut bytes = baseline_header();
        bytes[5] = 0b0100_0000 | ((ch - 1) & 0b111); // q=1 (20-bit)
        let h = LpcmHeader::parse(&bytes).unwrap();
        assert_eq!(h.quantisation, LpcmQuantisation::Bits20);
        assert_eq!(h.channel_count, ch);
        assert_eq!(
            h.frame_stride_bytes(),
            None,
            "20-bit {ch}ch must have no integer per-frame stride",
        );
        assert_eq!(h.bytes_per_sample(), Some((5, 2)));
    }
}

/// Build a header with explicit quantisation / rate / channel
/// codes for the frame-geometry tests.
fn header_qrc(q: u8, sr: u8, channels: u8) -> LpcmHeader {
    let mut bytes = baseline_header();
    bytes[5] = (q << 6) | (sr << 4) | ((channels - 1) & 0b111);
    LpcmHeader::parse(&bytes).unwrap()
}

#[test]
fn frame_timing_constants_match_ass_hdr_page() {
    // 150 ticks of the 90 kHz clock = 1.67 ms → 600 fps.
    assert_eq!(LPCM_FRAME_DURATION_90KHZ, 150);
    assert_eq!(LPCM_FRAMES_PER_SECOND, 600);
    assert_eq!(90_000 / LPCM_FRAME_DURATION_90KHZ, LPCM_FRAMES_PER_SECOND);
    // FrmNum is modulo 20 → one group = 20 × 150 = 3000 ticks.
    assert_eq!(LPCM_FRAMES_PER_GROUP, 20);
    assert_eq!(LPCM_GROUP_DURATION_90KHZ, 3000);
    // The 5-bit audio_frame_number field holds every modulo-20
    // value the page allows: the highest one still parses intact.
    let mut bytes = baseline_header();
    bytes[4] = LPCM_FRAMES_PER_GROUP - 1; // frame 19 in low 5 bits
    let h = LpcmHeader::parse(&bytes).unwrap();
    assert_eq!(h.audio_frame_number, 19);
}

#[test]
fn samples_per_frame_follows_rate() {
    // "At 48K sample rate there are 48000/600 = 80 samples per frame."
    assert_eq!(header_qrc(0, 0, 2).samples_per_frame(), Some(80));
    assert_eq!(header_qrc(0, 1, 2).samples_per_frame(), Some(160));
    // Reserved rate code → undefined.
    assert_eq!(header_qrc(0, 2, 2).samples_per_frame(), None);
}

#[test]
fn audio_frame_size_matches_formula_across_matrix() {
    // Frame size = rate × quantization × channels / 4800
    // Spot-check the worked example, then
    // sweep the full defined matrix against the formula.
    assert_eq!(header_qrc(0, 0, 2).audio_frame_size_bytes(), Some(320));
    for (q, bits) in [(0u8, 16u32), (1, 20), (2, 24)] {
        for (sr, rate) in [(0u8, 48_000u32), (1, 96_000)] {
            for ch in 1u8..=8 {
                let h = header_qrc(q, sr, ch);
                let expected = (rate * bits * ch as u32 / 4800) as usize;
                assert_eq!(
                    h.audio_frame_size_bytes(),
                    Some(expected),
                    "q={q} sr={sr} ch={ch}",
                );
                // The formula must agree with samples-per-frame ×
                // bits: frame bytes × 8 = samples × bits × channels.
                let spf = h.samples_per_frame().unwrap();
                assert_eq!(expected as u32 * 8, spf * bits * ch as u32);
            }
        }
    }
    // Reserved quantisation / rate codes leave the size undefined.
    assert_eq!(header_qrc(3, 0, 2).audio_frame_size_bytes(), None);
    assert_eq!(header_qrc(0, 2, 2).audio_frame_size_bytes(), None);
}

#[test]
fn twenty_bit_frames_are_whole_bytes_despite_fractional_samples() {
    // 20-bit has no integer per-sample stride (5/2 bytes)…
    let h = header_qrc(1, 0, 2);
    assert_eq!(h.frame_stride_bytes(), None);
    // …but the frame is a whole 400 bytes (48000 × 20 × 2 / 4800),
    // so bytes → PCM frames still splits exactly.
    assert_eq!(h.audio_frame_size_bytes(), Some(400));
    let pcm = vec![0u8; 400 * 3];
    let frames = h.split_frames(&pcm).unwrap();
    assert_eq!(frames.len(), 3);
    for f in frames.clone().collect_frames() {
        assert_eq!(f.len(), 400);
    }
    assert!(frames.clone().partial_tail().is_empty());
    assert_eq!(h.audio_frame_count(&pcm), Some(3));
}

#[test]
fn split_frames_yields_whole_frames_and_partial_tail() {
    // 16-bit mono 48 kHz → 160-byte frames.
    let h = header_qrc(0, 0, 1);
    assert_eq!(h.audio_frame_size_bytes(), Some(160));
    // Two whole frames + 5 stray bytes.
    let mut pcm = Vec::new();
    for i in 0..(160 * 2 + 5) {
        pcm.push(i as u8);
    }
    let mut frames = h.split_frames(&pcm).unwrap();
    let f0 = frames.next().unwrap();
    let f1 = frames.next().unwrap();
    assert!(frames.next().is_none());
    assert_eq!(f0, &pcm[..160]);
    assert_eq!(f1, &pcm[160..320]);
    assert_eq!(frames.partial_tail(), &pcm[320..]);
    assert_eq!(h.audio_frame_count(&pcm), Some(2));
}

#[test]
fn split_frames_none_for_reserved_codes() {
    assert!(header_qrc(3, 0, 2).split_frames(&[0u8; 64]).is_none());
    assert!(header_qrc(0, 3, 2).split_frames(&[0u8; 64]).is_none());
    assert_eq!(header_qrc(3, 0, 2).audio_frame_count(&[0u8; 64]), None);
}

#[test]
fn access_unit_offset_matches_ass_hdr_example() {
    // LPCM example: FirstAccUnit = 0x0004 →
    // the PTS frame begins at packet offset 026, i.e. 7 bytes
    // after the substream selector — the first byte after the
    // 7-byte audio-pack header.
    let mut bytes = baseline_header();
    bytes[1] = 0x07; // 7 frames begin in this packet
    bytes[2] = 0x00;
    bytes[3] = 0x04;
    let h = LpcmHeader::parse(&bytes).unwrap();
    assert!(!h.has_no_first_access_unit());
    assert_eq!(h.access_unit_offset(), Some(7));
    assert_eq!(h.access_unit_offset(), Some(LPCM_HEADER_LEN));
}

#[test]
fn access_unit_offset_none_when_pointer_zero() {
    // "The value 0000 indicates there is no first access unit."
    let h = LpcmHeader::parse(&baseline_header()).unwrap();
    assert!(h.has_no_first_access_unit());
    assert_eq!(h.access_unit_offset(), None);
}

#[test]
fn frame_stride_integer_for_16_and_24bit() {
    // 16-bit and 24-bit both land on whole-byte sample widths, so the
    // per-frame stride stays defined for all channel counts.
    for ch in 1u8..=8 {
        let h16 = header_16bit(ch);
        assert_eq!(h16.frame_stride_bytes(), Some(2 * ch as usize));

        let mut bytes = baseline_header();
        bytes[5] = 0b1000_0000 | ((ch - 1) & 0b111); // q=2 (24-bit)
        let h24 = LpcmHeader::parse(&bytes).unwrap();
        assert_eq!(h24.frame_stride_bytes(), Some(3 * ch as usize));
    }
}
