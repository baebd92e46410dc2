use oxideav_dvd::spu::{
    decode_one_run, decode_rle_field, render_field, spdcsq_stm_to_ms, PixelRun, PxdReader,
    SpuCommand, SpuHeader, SubPictureUnit,
};

#[test]
fn header_round_trips() {
    let bytes = [0x12, 0x34, 0x56, 0x78];
    let h = SpuHeader::parse(&bytes).unwrap();
    assert_eq!(h.size, 0x1234);
    assert_eq!(h.dcsqt_offset, 0x5678);
}

#[test]
fn header_rejects_short() {
    assert!(SpuHeader::parse(&[0, 1, 2]).is_err());
}

#[test]
fn delay_conversion_matches_table() {
    // The delay table lists `seconds = 1 →
    // SP_DCSQ_STM = 87`. Inverting: 87 * 1024 / 90 = 989 ms
    // (the conversion is asymmetric because the encoder
    // truncates seconds * 90000/1024 = 87, losing ~11 ms).
    assert_eq!(spdcsq_stm_to_ms(87), 989);
    // seconds = 10 → 878. 878 * 1024 / 90 = 9989 ms ≈ 10 s.
    assert_eq!(spdcsq_stm_to_ms(878), 9989);
}

#[test]
fn one_run_4bit_form() {
    // `n n c c` = 0b01_10 = (count=1, code=2). One byte's MSB
    // nibble = 0x60, padded.
    let bytes = [0b0110_0000];
    let mut rdr = PxdReader::new(&bytes);
    let run = decode_one_run(&mut rdr).unwrap();
    assert_eq!(run.count, 1);
    assert_eq!(run.code, 2);
}

#[test]
fn one_run_8bit_form() {
    // `0 0 n n n n c c` with n = 5 (0b0101), c = 3:
    // bits = 0 0 0 1 0 1 1 1 = 0x17.
    let bytes = [0x17];
    let mut rdr = PxdReader::new(&bytes);
    let run = decode_one_run(&mut rdr).unwrap();
    assert_eq!(run.count, 5);
    assert_eq!(run.code, 3);
}

#[test]
fn one_run_12bit_form() {
    // `0 0 0 0 n n n n n n c c` with n = 20 (0b010100), c = 1:
    // bits = 0 0 0 0 0 1 0 1 0 0 0 1 → 0x05, 0x10 (zero-padded
    // to 16).
    let bytes = [0b0000_0101, 0b0001_0000];
    let mut rdr = PxdReader::new(&bytes);
    let run = decode_one_run(&mut rdr).unwrap();
    assert_eq!(run.count, 20);
    assert_eq!(run.code, 1);
}

#[test]
fn one_run_16bit_form() {
    // `0 0 0 0 0 0 n n n n n n n n c c` with n = 200
    // (0b11001000), c = 2:
    // bits = 0 0 0 0 0 0 1 1   0 0 1 0 0 0 1 0 → 0x03, 0x22.
    let bytes = [0x03, 0x22];
    let mut rdr = PxdReader::new(&bytes);
    let run = decode_one_run(&mut rdr).unwrap();
    assert_eq!(run.count, 200);
    assert_eq!(run.code, 2);
}

#[test]
fn one_run_end_of_line() {
    // 16-bit form with n == 0 marks "until EOL". Pick c = 0.
    // bits = 0000_0000_0000_0000 → 0x00, 0x00.
    let bytes = [0x00, 0x00];
    let mut rdr = PxdReader::new(&bytes);
    let run = decode_one_run(&mut rdr).unwrap();
    assert_eq!(run.count, 0);
    assert_eq!(run.code, 0);
}

#[test]
fn decode_rle_field_pads_eol_run_to_width() {
    // One row, width 10. Encode "run code=0 length 3" then
    // "end-of-line code=1".
    //   4-bit: n=3 (0b11), c=0 (0b00) → 0b1100 = 0xC, then nibble
    //   16-bit EOL: 0000_0000_0000_0001 starting after the 4 bits.
    // Combined bit sequence:
    //   1100  0000 0000 0000 0001  pad
    //   = 1100_0000  0000_0000  0001_<pad to byte>_  → 0xC0, 0x00, 0x10? Let's lay it out.
    //
    // bit index 0  1  2  3 | 4  5  6  7 | 8  9 10 11 |12 13 14 15 |16 17 ...
    //           1  1  0  0   0  0  0  0   0  0  0  0   0  0  0  1   pad zeros
    //   byte 0: 11000000 = 0xC0
    //   byte 1: 00000000 = 0x00
    //   byte 2: 0001 + 4 padding zeros = 0001_0000 = 0x10
    let bytes = [0xC0, 0x00, 0x10];
    let rows = decode_rle_field(&bytes, 10, 1).unwrap();
    assert_eq!(rows.len(), 1);
    let row = &rows[0];
    assert_eq!(row[0], PixelRun { count: 3, code: 0 });
    assert_eq!(row[1], PixelRun { count: 7, code: 1 });
}

#[test]
fn render_field_materialises_pixels() {
    // Same as decode_rle_field_pads_eol_run_to_width — verify
    // the flat buffer ends up `[0,0,0, 1,1,1,1,1,1,1]`.
    let bytes = [0xC0, 0x00, 0x10];
    let pixels = render_field(&bytes, 10, 1).unwrap();
    assert_eq!(pixels.len(), 10);
    assert_eq!(&pixels[0..3], &[0, 0, 0]);
    assert_eq!(&pixels[3..10], &[1, 1, 1, 1, 1, 1, 1]);
}

fn build_minimal_spu() -> Vec<u8> {
    // Build a tiny but well-formed SPU:
    //   SPUH: SPDSZ = 0x28 (40), SP_DCSQTA = 0x10 (16).
    //   PXD slack at 0x04..0x10 (12 bytes, unused for the
    //     parser).
    //   DCSQ at 0x10:
    //     start_time = 0x0000, next_offset = 0x0010 (terminal,
    //     pointing at itself).
    //     SET_COLOR(opc=0x03, e2=0xF, e1=0xE, p=0xD, b=0xC)
    //       → 3 bytes (0x14..0x17)
    //     SET_CONTR(opc=0x04, e2=0xF, e1=0xF, p=0x8, b=0x0)
    //       → 3 bytes (0x17..0x1A)
    //     SET_DAREA(opc=0x05, x:0..3, y:0..3) → 7 bytes
    //       (0x1A..0x21)
    //     SET_DSPXA(opc=0x06, top=0x0004, bot=0x0004) → 5
    //       bytes (0x21..0x26)
    //     STA_DSP(opc=0x01) → 1 byte (0x26)
    //     CMD_END(opc=0xFF) → 1 byte (0x27)
    //   → SPDSZ = 0x28 (40).
    let mut buf = vec![0u8; 0x28];
    // SPUH.
    buf[0..2].copy_from_slice(&0x0028u16.to_be_bytes());
    buf[2..4].copy_from_slice(&0x0010u16.to_be_bytes());
    // PXD slack (4 bytes at 0x04..0x08 — unused by parse, the
    // actual PXD content is referenced via SET_DSPXA below).
    // DCSQ at 0x10.
    let dcsq = 0x10;
    buf[dcsq..dcsq + 2].copy_from_slice(&0x0000u16.to_be_bytes());
    buf[dcsq + 2..dcsq + 4].copy_from_slice(&(dcsq as u16).to_be_bytes());
    let mut o = dcsq + 4;
    // SET_COLOR
    buf[o] = 0x03;
    buf[o + 1] = 0xFE;
    buf[o + 2] = 0xDC;
    o += 3;
    // SET_CONTR
    buf[o] = 0x04;
    buf[o + 1] = 0xFF;
    buf[o + 2] = 0x80;
    o += 3;
    // SET_DAREA: start_x=0, end_x=3, start_y=0, end_y=3.
    // Each 24-bit field: (start << 12) | end. start=0 here so
    // the shift simplifies to just the end value.
    buf[o] = 0x05;
    let xp: u32 = 3; // (0 << 12) | 3 = 0x00_0003
    let yp: u32 = 3;
    let xb = xp.to_be_bytes();
    let yb = yp.to_be_bytes();
    buf[o + 1] = xb[1];
    buf[o + 2] = xb[2];
    buf[o + 3] = xb[3];
    buf[o + 4] = yb[1];
    buf[o + 5] = yb[2];
    buf[o + 6] = yb[3];
    o += 7;
    // SET_DSPXA
    buf[o] = 0x06;
    buf[o + 1..o + 3].copy_from_slice(&0x0004u16.to_be_bytes());
    buf[o + 3..o + 5].copy_from_slice(&0x0004u16.to_be_bytes());
    o += 5;
    // STA_DSP
    buf[o] = 0x01;
    o += 1;
    // CMD_END
    buf[o] = 0xFF;
    // o + 1 should land at 0x28 (= buf.len()).
    assert_eq!(o + 1, buf.len());
    buf
}

#[test]
fn parse_minimal_spu_full_unit() {
    let buf = build_minimal_spu();
    let spu = SubPictureUnit::parse(&buf).unwrap();
    assert_eq!(spu.header.size, 0x28);
    assert_eq!(spu.header.dcsqt_offset, 0x10);
    assert_eq!(spu.control_sequences.len(), 1);
    let dcsq = &spu.control_sequences[0];
    assert_eq!(dcsq.start_time, 0);
    assert_eq!(dcsq.next_offset, 0x10);
    assert_eq!(dcsq.commands.len(), 6);
    assert_eq!(
        dcsq.commands[0],
        SpuCommand::SetColor {
            emphasis2: 0xF,
            emphasis1: 0xE,
            pattern: 0xD,
            background: 0xC,
        }
    );
    assert_eq!(
        dcsq.commands[1],
        SpuCommand::SetContrast {
            emphasis2: 0xF,
            emphasis1: 0xF,
            pattern: 0x8,
            background: 0x0,
        }
    );
    assert_eq!(
        dcsq.commands[2],
        SpuCommand::SetDisplayArea {
            start_x: 0,
            end_x: 3,
            start_y: 0,
            end_y: 3,
        }
    );
    assert_eq!(
        dcsq.commands[3],
        SpuCommand::SetPixelDataAddresses {
            top_field_offset: 4,
            bottom_field_offset: 4,
        }
    );
    assert_eq!(dcsq.commands[4], SpuCommand::StartDisplay);
    assert_eq!(dcsq.commands[5], SpuCommand::EndOfSequence);

    // Convenience accessors.
    assert_eq!(spu.pixel_data_offsets(), Some((4, 4)));
    assert_eq!(spu.display_dimensions(), Some((4, 4)));
}

#[test]
fn parse_rejects_dcsqta_out_of_range() {
    // SPDSZ = 0x10, but SP_DCSQTA = 0x20 (off the end).
    let mut buf = vec![0u8; 0x10];
    buf[0..2].copy_from_slice(&0x0010u16.to_be_bytes());
    buf[2..4].copy_from_slice(&0x0020u16.to_be_bytes());
    assert!(SubPictureUnit::parse(&buf).is_err());
}

#[test]
fn parse_rejects_dcsq_without_end() {
    // 0x10 bytes, DCSQ at 0x04, no CMD_END before end of unit.
    let mut buf = vec![0u8; 0x10];
    buf[0..2].copy_from_slice(&0x0010u16.to_be_bytes());
    buf[2..4].copy_from_slice(&0x0004u16.to_be_bytes());
    // DCSQ header: start_time = 0, next_offset = 0x04 (terminal).
    buf[4..6].copy_from_slice(&0x0000u16.to_be_bytes());
    buf[6..8].copy_from_slice(&0x0004u16.to_be_bytes());
    // Fill the rest with STA_DSP (0x01) — never terminates.
    for b in &mut buf[8..] {
        *b = 0x01;
    }
    assert!(SubPictureUnit::parse(&buf).is_err());
}

#[test]
fn change_color_contrast_round_trips_raw() {
    // SPDSZ = 0x18, SP_DCSQTA = 0x04.
    let mut buf = vec![0u8; 0x18];
    buf[0..2].copy_from_slice(&0x0018u16.to_be_bytes());
    buf[2..4].copy_from_slice(&0x0004u16.to_be_bytes());
    // DCSQ at 0x04: start_time = 0x0042, next_offset = 0x0004
    // (terminal).
    buf[4..6].copy_from_slice(&0x0042u16.to_be_bytes());
    buf[6..8].copy_from_slice(&0x0004u16.to_be_bytes());
    // CHG_COLCON at 0x08: opcode + size = 6 + body of 4 bytes
    // (LN_CTLI terminator 0F FF FF FF) → total parameter area = 6.
    // Layout: [0x07] [0x00 0x06] [0x0F 0xFF 0xFF 0xFF]
    buf[8] = 0x07;
    buf[9..11].copy_from_slice(&0x0006u16.to_be_bytes());
    buf[11] = 0x0F;
    buf[12] = 0xFF;
    buf[13] = 0xFF;
    buf[14] = 0xFF;
    // CMD_END at 0x0F.
    buf[15] = 0xFF;
    let spu = SubPictureUnit::parse(&buf).unwrap();
    assert_eq!(spu.control_sequences.len(), 1);
    let cmds = &spu.control_sequences[0].commands;
    assert_eq!(cmds.len(), 2);
    match &cmds[0] {
        SpuCommand::ChangeColorContrast { raw } => {
            assert_eq!(raw, &[0x00, 0x06, 0x0F, 0xFF, 0xFF, 0xFF]);
        }
        other => panic!("expected ChangeColorContrast, got {other:?}"),
    }
    assert_eq!(cmds[1], SpuCommand::EndOfSequence);
}

#[test]
fn opcodes_match_table() {
    assert_eq!(SpuCommand::ForcedStartDisplay.opcode(), 0x00);
    assert_eq!(SpuCommand::StartDisplay.opcode(), 0x01);
    assert_eq!(SpuCommand::StopDisplay.opcode(), 0x02);
    assert_eq!(
        SpuCommand::SetColor {
            emphasis2: 0,
            emphasis1: 0,
            pattern: 0,
            background: 0
        }
        .opcode(),
        0x03
    );
    assert_eq!(
        SpuCommand::SetContrast {
            emphasis2: 0,
            emphasis1: 0,
            pattern: 0,
            background: 0
        }
        .opcode(),
        0x04
    );
    assert_eq!(
        SpuCommand::SetDisplayArea {
            start_x: 0,
            end_x: 0,
            start_y: 0,
            end_y: 0
        }
        .opcode(),
        0x05
    );
    assert_eq!(
        SpuCommand::SetPixelDataAddresses {
            top_field_offset: 0,
            bottom_field_offset: 0
        }
        .opcode(),
        0x06
    );
    assert_eq!(
        SpuCommand::ChangeColorContrast { raw: Vec::new() }.opcode(),
        0x07
    );
    assert_eq!(SpuCommand::EndOfSequence.opcode(), 0xFF);
}
