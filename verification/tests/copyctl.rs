use oxideav_dvd::copyctl::{
    ApsType, Cgms, CopyControlInfo, CprMai, CPR_MAI_LEN, DATA_FRAME_LEN,
};

// ----- value tables (§2a / §2b) ---------------------------------

#[test]
fn cgms_two_bit_table() {
    // The four documented states, exactly.
    assert_eq!(Cgms::from_bits(0b00), Cgms::CopyFreely);
    assert_eq!(Cgms::from_bits(0b01), Cgms::CopyNoMore);
    assert_eq!(Cgms::from_bits(0b10), Cgms::CopyOnce);
    assert_eq!(Cgms::from_bits(0b11), Cgms::CopyNever);
    // bits() is the exact inverse and upper bits are ignored.
    for v in 0..=255u8 {
        let c = Cgms::from_bits(v);
        assert_eq!(c.bits(), v & 0b11);
    }
    assert!(Cgms::CopyFreely.copying_permitted());
    assert!(Cgms::CopyOnce.copying_permitted());
    assert!(!Cgms::CopyNoMore.copying_permitted());
    assert!(!Cgms::CopyNever.copying_permitted());
}

#[test]
fn aps_type_table() {
    assert_eq!(ApsType::from_bits(0b00), ApsType::Off);
    assert_eq!(ApsType::from_bits(0b01), ApsType::Agc);
    assert_eq!(ApsType::from_bits(0b10), ApsType::AgcColorstripe2);
    assert_eq!(ApsType::from_bits(0b11), ApsType::AgcColorstripe4);
    for v in 0..=255u8 {
        let a = ApsType::from_bits(v);
        assert_eq!(a.bits(), v & 0b11);
    }
    assert!(!ApsType::Off.is_active());
    assert!(ApsType::Agc.is_active() && !ApsType::Agc.has_colorstripe());
    assert!(ApsType::AgcColorstripe2.has_colorstripe());
    assert!(ApsType::AgcColorstripe4.has_colorstripe());
}

// ----- analog-output field (§2c) --------------------------------

/// Every possible CCI combination survives an encode → decode
/// round trip, and decoding masks the reserved bits.
#[test]
fn analog_field_round_trips_exhaustively() {
    for cgms_bits in 0..4u8 {
        for aps_bits in 0..4u8 {
            for asb in [false, true] {
                let cci = CopyControlInfo {
                    cgms: Cgms::from_bits(cgms_bits),
                    aps: ApsType::from_bits(aps_bits),
                    analog_source: asb,
                };
                let field = cci.to_analog_field();
                // Encoded field uses only b4..b0.
                assert_eq!(field & !0b0001_1111, 0);
                assert_eq!(CopyControlInfo::from_analog_field(field), cci);
            }
        }
    }
    // Reserved bits b6–b5 (and b7) are ignored on decode.
    for field in 0..=255u8 {
        let a = CopyControlInfo::from_analog_field(field);
        let b = CopyControlInfo::from_analog_field(field & 0b0001_1111);
        assert_eq!(a, b, "field {field:#04x}");
    }
}

#[test]
fn analog_field_bit_positions() {
    // CGMS at b4–b3.
    let f = CopyControlInfo {
        cgms: Cgms::CopyNever,
        aps: ApsType::Off,
        analog_source: false,
    }
    .to_analog_field();
    assert_eq!(f, 0b0001_1000);
    // APS at b2–b1.
    let f = CopyControlInfo {
        cgms: Cgms::CopyFreely,
        aps: ApsType::AgcColorstripe4,
        analog_source: false,
    }
    .to_analog_field();
    assert_eq!(f, 0b0000_0110);
    // ASB at b0.
    let f = CopyControlInfo {
        cgms: Cgms::CopyFreely,
        aps: ApsType::Off,
        analog_source: true,
    }
    .to_analog_field();
    assert_eq!(f, 0b0000_0001);
    assert_eq!(CopyControlInfo::unrestricted().to_analog_field(), 0);
}

// ----- CPR_MAI (§3a) --------------------------------------------

#[test]
fn cpr_mai_decodes_reconstructed_byte0() {
    // CPM=1, CP_SEC=1, CGMS=11 (copy never) → byte 0 = 0xF0.
    let mai = CprMai::parse(&[0xF0, 0x00, 0, 0, 0, 0]).unwrap();
    assert!(mai.cpm);
    assert!(mai.cp_sec);
    assert_eq!(mai.cgms, Cgms::CopyNever);
    assert!(!mai.is_all_zero());
    assert!(!mai.has_unrecognised_bits());

    // CPM=1, CP_SEC=0, CGMS=10 (copy once) → 0xA0.
    let mai = CprMai::parse(&[0xA0, 0x07, 0, 0, 0, 0]).unwrap();
    assert!(mai.cpm);
    assert!(!mai.cp_sec);
    assert_eq!(mai.cgms, Cgms::CopyOnce);
    assert_eq!(mai.rmi, 0x07);

    // The all-zero default: unprotected, copy freely.
    let mai = CprMai::parse(&[0u8; 6]).unwrap();
    assert!(mai.is_all_zero());
    assert!(!mai.cpm && !mai.cp_sec);
    assert_eq!(mai.cgms, Cgms::CopyFreely);
    let cci = mai.copy_control();
    assert_eq!(cci.cgms, Cgms::CopyFreely);
    assert_eq!(cci.aps, ApsType::Off);
    assert!(cci.analog_source);
}

#[test]
fn cpr_mai_flags_unrecognised_bits() {
    // Reserved low nibble of byte 0.
    let mai = CprMai::parse(&[0x01, 0, 0, 0, 0, 0]).unwrap();
    assert!(mai.has_unrecognised_bits());
    // Reserved tail bytes.
    let mai = CprMai::parse(&[0x00, 0, 0, 0, 0, 0xFF]).unwrap();
    assert!(mai.has_unrecognised_bits());
    // RMI alone is NOT unrecognised — it is a named field.
    let mai = CprMai::parse(&[0x00, 0x55, 0, 0, 0, 0]).unwrap();
    assert!(!mai.has_unrecognised_bits());
}

#[test]
fn cpr_mai_rejects_short_input() {
    for len in 0..CPR_MAI_LEN {
        assert!(CprMai::parse(&vec![0u8; len]).is_err(), "len {len}");
    }
    // Extra bytes beyond 6 are fine (only the first 6 consumed).
    let mai = CprMai::parse(&[0xF0, 1, 2, 3, 4, 5, 6, 7]).unwrap();
    assert_eq!(mai.raw, [0xF0, 1, 2, 3, 4, 5]);
}

#[test]
fn cpr_mai_from_data_frame() {
    // Frame layout: ID(4) + IED(2) + CPR_MAI(6) + 2048 + EDC(4).
    let mut frame = vec![0u8; DATA_FRAME_LEN];
    frame[6] = 0xE0; // CPM=1, CP_SEC=1, CGMS=10
    frame[7] = 0x2A; // RMI
    let mai = CprMai::from_data_frame(&frame).unwrap();
    assert!(mai.cpm && mai.cp_sec);
    assert_eq!(mai.cgms, Cgms::CopyOnce);
    assert_eq!(mai.rmi, 0x2A);
    // A 2048-byte user sector is NOT a data frame.
    assert!(CprMai::from_data_frame(&frame[..2048]).is_err());
}

#[test]
fn round_trip_via_raw_bytes() {
    // Reconstructed fields re-derive identically from the
    // preserved raw bytes for every byte-0 value.
    for b0 in 0..=255u8 {
        let src = [b0, 0x11, 0x22, 0x33, 0x44, 0x55];
        let mai = CprMai::parse(&src).unwrap();
        assert_eq!(mai.raw, src);
        let again = CprMai::parse(&mai.raw).unwrap();
        assert_eq!(again, mai);
        assert_eq!(mai.cpm, b0 & 0x80 != 0);
        assert_eq!(mai.cp_sec, b0 & 0x40 != 0);
        assert_eq!(mai.cgms.bits(), (b0 >> 4) & 0b11);
    }
}
