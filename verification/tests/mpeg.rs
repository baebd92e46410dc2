use oxideav_dvd::mpeg::{
    AspectRatioCode, FrameRateCode, SequenceExtension, SequenceHeader, EXT_ID_SEQUENCE,
    EXT_ID_SEQUENCE_DISPLAY, SC_EXTENSION, SC_SEQUENCE_HEADER,
};

/// Build a canonical NTSC DVD sequence header: 720×480, 16:9,
/// 29.97 fps, bit_rate_value = 9800000/400 = 24500, marker=1,
/// vbv = 112 (16 Kibit units), CP=0, no quantiser matrices.
fn ntsc_seq_header() -> Vec<u8> {
    let h: u16 = 720;
    let v: u16 = 480;
    let aspect: u8 = 3; // 16:9
    let frame_rate: u8 = 4; // 29.97
    let bit_rate: u32 = 24_500; // 9.8 Mbit/s in 400 bit/s units
    let vbv: u16 = 112;
    let mut b = vec![0x00, 0x00, 0x01, SC_SEQUENCE_HEADER];
    // 12-bit H, 12-bit V
    b.push((h >> 4) as u8);
    b.push((((h & 0x0F) << 4) | (v >> 8)) as u8);
    b.push((v & 0xFF) as u8);
    b.push((aspect << 4) | frame_rate);
    // 18-bit bit_rate: top 8, next 8, low 2 + marker(1) + 5 hi vbv
    b.push((bit_rate >> 10) as u8);
    b.push((bit_rate >> 2) as u8);
    let low2 = (bit_rate & 0b11) as u8;
    let marker = 1u8;
    let vbv_hi5 = (vbv >> 5) as u8;
    b.push((low2 << 6) | (marker << 5) | vbv_hi5);
    // low 5 vbv + CP(0) + load_intra(0) + load_non_intra(0)
    let vbv_lo5 = (vbv & 0x1F) as u8;
    b.push(vbv_lo5 << 3);
    b
}

#[test]
fn seq_header_ntsc_decode() {
    let buf = ntsc_seq_header();
    let h = SequenceHeader::parse(&buf).unwrap();
    assert_eq!(h.horizontal_size, 720);
    assert_eq!(h.vertical_size, 480);
    assert_eq!(h.aspect_ratio, AspectRatioCode::Ratio16x9);
    assert_eq!(h.frame_rate, FrameRateCode::Fps29_97);
    assert_eq!(h.bit_rate_value, 24_500);
    assert_eq!(h.bit_rate_bps(), Some(9_800_000));
    assert_eq!(h.vbv_buffer_size, 112);
    assert_eq!(h.vbv_buffer_bits(), 112 * 16 * 1024);
    assert!(!h.constrained_parameters);
    assert!(!h.load_intra_quant_matrix);
    assert!(!h.load_non_intra_quant_matrix);
}

#[test]
fn frame_rate_ratios() {
    assert_eq!(FrameRateCode::Fps29_97.as_ratio(), Some((30000, 1001)));
    assert_eq!(FrameRateCode::Fps25.as_ratio(), Some((25, 1)));
    let (n, d) = FrameRateCode::Fps23_976.as_ratio().unwrap();
    assert!((n as f64 / d as f64 - 23.976).abs() < 1e-3);
    assert_eq!(FrameRateCode::Forbidden.as_ratio(), None);
    assert_eq!(FrameRateCode::Reserved(10).as_ratio(), None);
}

#[test]
fn aspect_ratio_codes() {
    assert_eq!(AspectRatioCode::from_code(0), AspectRatioCode::Forbidden);
    assert_eq!(AspectRatioCode::from_code(2), AspectRatioCode::Ratio4x3);
    assert_eq!(AspectRatioCode::from_code(3), AspectRatioCode::Ratio16x9);
    assert_eq!(
        AspectRatioCode::from_code(15),
        AspectRatioCode::Reserved(15)
    );
}

#[test]
fn seq_header_bad_start_code() {
    let mut buf = ntsc_seq_header();
    buf[3] = 0xB8;
    assert!(SequenceHeader::parse(&buf).is_err());
}

#[test]
fn seq_header_truncated() {
    let buf = ntsc_seq_header();
    assert!(SequenceHeader::parse(&buf[..6]).is_err());
}

#[test]
fn vbr_bitrate_escape() {
    let mut buf = ntsc_seq_header();
    // Force bit_rate_value = 0x3FFFF (all-ones VBR escape).
    buf[8] = 0xFF;
    buf[9] = 0xFF;
    buf[10] |= 0b1100_0000;
    let h = SequenceHeader::parse(&buf).unwrap();
    assert_eq!(h.bit_rate_value, 0x3FFFF);
    assert_eq!(h.bit_rate_bps(), None);
}

/// Build a Sequence Extension: Main@Main (profile=4, level=8),
/// progressive=0, chroma=1 (4:2:0), all size/rate extensions 0.
fn main_seq_ext() -> Vec<u8> {
    let mut b = vec![0x00, 0x00, 0x01, SC_EXTENSION];
    let prof_level: u8 = 0x48; // 0100 1000
                               // byte0: ext_id(0001) | prof_level_hi(0100)
    b.push((EXT_ID_SEQUENCE << 4) | (prof_level >> 4));
    // byte1: prof_level_lo(1000) prog(0) chroma(01) hsize_ext_hi(0)
    let prog = 0u8;
    let chroma = 1u8;
    let hsize_ext = 0u8;
    b.push(((prof_level & 0x0F) << 4) | (prog << 3) | (chroma << 1) | (hsize_ext >> 1));
    // byte2: hsize_ext_lo(0) vsize_ext(00) bitrate_ext_hi(00000)
    b.push((hsize_ext & 1) << 7);
    // byte3: bitrate_ext_lo(7) marker(1)
    b.push(0x01);
    // byte4: vbv_buffer_size_extension
    b.push(0x00);
    // byte5: low_delay(0) fr_ext_n(00) fr_ext_d(00000)
    b.push(0x00);
    b
}

#[test]
fn seq_ext_decode() {
    let buf = main_seq_ext();
    let e = SequenceExtension::parse(&buf).unwrap();
    assert_eq!(e.profile_and_level, 0x48);
    assert_eq!(e.profile(), 4);
    assert_eq!(e.level(), 8);
    assert!(!e.progressive_sequence);
    assert_eq!(e.chroma_format, 1);
    assert_eq!(e.horizontal_size_extension, 0);
    assert_eq!(e.vertical_size_extension, 0);
    assert_eq!(e.bit_rate_extension, 0);
    assert!(!e.low_delay);
}

#[test]
fn seq_header_with_extension_full_sizes() {
    let h = SequenceHeader::parse(&ntsc_seq_header()).unwrap();
    let e = SequenceExtension::parse(&main_seq_ext()).unwrap();
    // No extension bits set → full size == base size.
    assert_eq!(h.full_horizontal_size(&e), 720);
    assert_eq!(h.full_vertical_size(&e), 480);
    assert_eq!(h.bit_rate_bps_with_extension(&e), 9_800_000);
}

#[test]
fn seq_ext_wrong_id() {
    let mut buf = main_seq_ext();
    buf[4] = (EXT_ID_SEQUENCE_DISPLAY << 4) | (buf[4] & 0x0F);
    assert!(SequenceExtension::parse(&buf).is_err());
}
