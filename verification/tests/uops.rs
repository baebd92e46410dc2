use oxideav_dvd::uops::{
    title_type_uop_mask, UopLevel, UopMask, UserOp, UOP_BIT_COUNT, UOP_BUTTON_SELECT_OR_ACTIVATE,
    UOP_DEFINED_BITS, UOP_GO_UP, UOP_PTT_PLAY_OR_SEARCH, UOP_STOP, UOP_TIME_PLAY_OR_SEARCH,
    UOP_TITLE_PLAY,
};

#[test]
fn bit_numbers_match_spec_table_row_order() {
    // Spec-table numbers 0..=24 map straight onto the enum's
    // discriminants; no shuffling.
    for (i, op) in UserOp::ALL.iter().enumerate() {
        assert_eq!(op.bit() as usize, i);
        assert_eq!(op.mask(), 1u32 << i);
        assert_eq!(UserOp::from_bit(i as u8), Some(*op));
    }
    // 25 ops, no more.
    assert_eq!(UserOp::ALL.len(), UOP_BIT_COUNT as usize);
    assert_eq!(UserOp::from_bit(25), None);
    assert_eq!(UserOp::from_bit(31), None);
}

#[test]
fn defined_bits_cover_lower_25_only() {
    assert_eq!(UOP_DEFINED_BITS, 0x01FF_FFFF);
    assert_eq!(UOP_DEFINED_BITS.count_ones(), 25);
    // Bit 25 not part of the spec table.
    assert_eq!(UOP_DEFINED_BITS & (1 << 25), 0);
}

#[test]
fn from_bits_round_trips_raw_word() {
    let raw = 0xDEAD_BEEFu32;
    let m = UopMask::from_bits(raw);
    assert_eq!(m.raw(), raw);
    // Reserved bits stay in `raw` but are masked from
    // `defined_bits`.
    assert_eq!(m.defined_bits(), raw & UOP_DEFINED_BITS);
}

#[test]
fn contains_and_is_allowed_invert() {
    let m = UopMask::none().with(UserOp::Stop).with(UserOp::PauseOn);
    assert!(m.contains(UserOp::Stop));
    assert!(m.contains(UserOp::PauseOn));
    assert!(!m.contains(UserOp::Resume));
    assert!(!m.is_allowed(UserOp::Stop));
    assert!(m.is_allowed(UserOp::Resume));
}

#[test]
fn with_without_set_clear_match() {
    let m1 = UopMask::none().with(UserOp::ForwardScan);
    let mut m2 = UopMask::none();
    m2.set(UserOp::ForwardScan);
    assert_eq!(m1, m2);

    let m3 = m1.without(UserOp::ForwardScan);
    let mut m4 = m2;
    m4.clear(UserOp::ForwardScan);
    assert_eq!(m3, m4);
    assert!(m3.is_empty());
}

#[test]
fn is_empty_ignores_reserved_bits() {
    // Reserved bits 25..=31 don't count as prohibitions.
    let m = UopMask::from_bits(0xFE00_0000);
    assert!(m.is_empty());
    assert_eq!(m.count(), 0);
}

#[test]
fn merge_or_is_plain_bitwise_or() {
    let tt = title_type_uop_mask(0b11); // TT_SRPT bits 0+1 set
    let pgc = UopMask::none().with(UserOp::Stop).with(UserOp::ForwardScan);
    let vobu = UopMask::none().with(UserOp::MenuCallRoot);

    let merged = UopMask::merge_or(tt, pgc, vobu);
    for op in [
        UserOp::TimePlayOrSearch,
        UserOp::PttPlayOrSearch,
        UserOp::Stop,
        UserOp::ForwardScan,
        UserOp::MenuCallRoot,
    ] {
        assert!(merged.contains(op), "merged should contain {:?}", op);
    }
    // Unrelated ops stay allowed.
    assert!(merged.is_allowed(UserOp::Resume));
    assert!(merged.is_allowed(UserOp::AngleChange));
}

#[test]
fn merge_or_is_orthogonal_to_argument_position() {
    let a = UopMask::none().with(UserOp::Stop);
    let b = UopMask::none().with(UserOp::Resume);
    let c = UopMask::none().with(UserOp::PauseOn);
    let one = UopMask::merge_or(a, b, c);
    let two = UopMask::merge_or(c, a, b);
    let three = UopMask::merge_or(b, c, a);
    assert_eq!(one, two);
    assert_eq!(two, three);
}

#[test]
fn iter_walks_bits_in_ascending_order() {
    let m = UopMask::none()
        .with(UserOp::VideoPresentationModeChange)
        .with(UserOp::Stop)
        .with(UserOp::ForwardScan);
    let collected: Vec<UserOp> = m.iter().collect_ops();
    assert_eq!(
        collected,
        vec![
            UserOp::Stop,
            UserOp::ForwardScan,
            UserOp::VideoPresentationModeChange,
        ]
    );
}

#[test]
fn iter_skips_reserved_bits() {
    // Bit 25 set in the raw word; iter ignores it.
    let m = UopMask::from_bits((1u32 << 25) | (1u32 << UOP_STOP as usize));
    let collected: Vec<UserOp> = m.iter().collect_ops();
    assert_eq!(collected, vec![UserOp::Stop]);
}

#[test]
fn iter_over_all_yields_every_userop_in_order() {
    let all: Vec<UserOp> = UopMask::all().iter().collect_ops();
    assert_eq!(all.len(), 25);
    for (i, op) in all.iter().enumerate() {
        assert_eq!(op.bit() as usize, i);
    }
}

#[test]
fn count_matches_iter_length() {
    for raw in [0u32, 0x1, 0x100_0001, UOP_DEFINED_BITS, 0xFFFF_FFFF] {
        let m = UopMask::from_bits(raw);
        assert_eq!(m.count() as usize, m.iter().collect_ops().len());
    }
}

#[test]
fn title_type_helper_extracts_low_two_bits_only() {
    // High bits (jump/link/call permission flags etc.) ignored.
    // `0b1010_1011` → low bits `11` → both UOPs prohibited.
    let m = title_type_uop_mask(0b1010_1011);
    assert!(m.contains(UserOp::TimePlayOrSearch));
    assert!(m.contains(UserOp::PttPlayOrSearch));
    // `0b1111_1100` → low bits `00` → empty mask.
    let m = title_type_uop_mask(0b1111_1100);
    assert!(m.is_empty());
    // `0b1111_1101` → low bits `01` → only bit 0 set.
    let m = title_type_uop_mask(0b1111_1101);
    assert!(m.contains(UserOp::TimePlayOrSearch));
    assert!(!m.contains(UserOp::PttPlayOrSearch));
    // `0b1111_1110` → low bits `10` → only bit 1 set.
    let m = title_type_uop_mask(0b1111_1110);
    assert!(!m.contains(UserOp::TimePlayOrSearch));
    assert!(m.contains(UserOp::PttPlayOrSearch));
}

#[test]
fn title_type_helper_never_carries_bits_above_one() {
    for tt in 0u8..=255 {
        let m = title_type_uop_mask(tt);
        assert_eq!(m.raw() & !0b11u32, 0);
        assert!(m.fits_level(UopLevel::TitleSearchPointer));
    }
}

#[test]
fn level_cover_matches_spec_table_columns() {
    // TT_SRPT: only bits 0 + 1.
    let tt = UopLevel::TitleSearchPointer.cover();
    assert_eq!(tt, 0b11);
    // PGC: every defined bit except GoUp (row 4 PGC-column
    // blank).
    let pgc = UopLevel::ProgramChain.cover();
    assert_eq!(pgc, UOP_DEFINED_BITS & !(1u32 << UOP_GO_UP));
    assert_eq!(pgc.count_ones(), 24);
    // VOBU: every defined bit EXCEPT 0/1/2/17.
    let vobu = UopLevel::Vobu.cover();
    let blanks = (1u32 << UOP_TIME_PLAY_OR_SEARCH)
        | (1u32 << UOP_PTT_PLAY_OR_SEARCH)
        | (1u32 << UOP_TITLE_PLAY)
        | (1u32 << UOP_BUTTON_SELECT_OR_ACTIVATE);
    assert_eq!(vobu, UOP_DEFINED_BITS & !blanks);
    assert_eq!(vobu.count_ones(), 21);
}

#[test]
fn user_op_applies_to_matches_level_cover_bit_for_bit() {
    for op in UserOp::ALL {
        for level in [
            UopLevel::TitleSearchPointer,
            UopLevel::ProgramChain,
            UopLevel::Vobu,
        ] {
            let from_level = (level.cover() & op.mask()) != 0;
            assert_eq!(op.applies_to(level), from_level, "{:?} vs {:?}", op, level);
        }
    }
}

#[test]
fn fits_level_rejects_out_of_table_bits() {
    // A mask with every defined bit set carries bit 4 (`GoUp`),
    // which the PGC column is blank on per the spec table — so
    // it fails `fits_level(ProgramChain)`.
    let every_defined = UopMask::all();
    assert!(!every_defined.fits_level(UopLevel::ProgramChain));
    // Same mask: blanks at 0/1/2/17 mean it fails Vobu too.
    assert!(!every_defined.fits_level(UopLevel::Vobu));
    // And of course fails TT_SRPT — only bits 0/1 fit.
    assert!(!every_defined.fits_level(UopLevel::TitleSearchPointer));

    // A mask sized to the PGC cover (every defined bit minus
    // GoUp) fits PGC.
    let pgc_full = UopMask::from_bits(UopLevel::ProgramChain.cover());
    assert!(pgc_full.fits_level(UopLevel::ProgramChain));

    // A VOBU-allowed mask (bit 3 + bit 24) fits its own level
    // AND fits the PGC level (neither bit is the PGC-blank
    // GoUp bit), but does not fit TT_SRPT.
    let vobu_ok = UopMask::none()
        .with(UserOp::Stop)
        .with(UserOp::VideoPresentationModeChange);
    assert!(vobu_ok.fits_level(UopLevel::Vobu));
    assert!(vobu_ok.fits_level(UopLevel::ProgramChain));
    assert!(!vobu_ok.fits_level(UopLevel::TitleSearchPointer));

    // A mask carrying GoUp fits Vobu but not PGC.
    let go_up_only = UopMask::none().with(UserOp::GoUp);
    assert!(go_up_only.fits_level(UopLevel::Vobu));
    assert!(!go_up_only.fits_level(UopLevel::ProgramChain));
}

#[test]
fn from_into_round_trip_u32() {
    for raw in [0u32, 0x1, UOP_DEFINED_BITS, 0xFFFF_FFFF] {
        let m: UopMask = raw.into();
        let back: u32 = m.into();
        assert_eq!(raw, back);
    }
}

#[test]
fn display_renders_uppercase_hex() {
    let m = UopMask::from_bits(0x01FF_FFFF);
    let s = m.to_display_string();
    assert_eq!(s, "UopMask(0x01FFFFFF)");
}

#[test]
fn merge_or_is_associative_across_three_levels() {
    // Property: merge_or((merge a b), 0, c) == merge_or(a, b, c).
    let a = UopMask::from_bits(0x0001_5555);
    let b = UopMask::from_bits(0x0000_AAAA);
    let c = UopMask::from_bits(0x0010_0001);
    let direct = UopMask::merge_or(a, b, c);
    let pair_then_c =
        UopMask::merge_or(UopMask::from_bits(a.raw() | b.raw()), UopMask::none(), c);
    assert_eq!(direct, pair_then_c);
}

#[test]
fn spec_table_check_mark_rows_match_pgc_and_vobu_columns() {
    // Mirrors the spec table exactly: (UserOp, PGC?, VOBU?).
    // PGC has check-marks on every row, VOBU is blank at
    // bits 0 / 1 / 2 / 17, check-marked everywhere else.
    let rows: [(UserOp, bool, bool); 25] = [
        (UserOp::TimePlayOrSearch, true, false),
        (UserOp::PttPlayOrSearch, true, false),
        (UserOp::TitlePlay, true, false),
        (UserOp::Stop, true, true),
        (UserOp::GoUp, false, true),
        (UserOp::TimeOrPttSearch, true, true),
        (UserOp::TopPgOrPrevPgSearch, true, true),
        (UserOp::NextPgSearch, true, true),
        (UserOp::ForwardScan, true, true),
        (UserOp::BackwardScan, true, true),
        (UserOp::MenuCallTitle, true, true),
        (UserOp::MenuCallRoot, true, true),
        (UserOp::MenuCallSubpicture, true, true),
        (UserOp::MenuCallAudio, true, true),
        (UserOp::MenuCallAngle, true, true),
        (UserOp::MenuCallPtt, true, true),
        (UserOp::Resume, true, true),
        (UserOp::ButtonSelectOrActivate, true, false),
        (UserOp::StillOff, true, true),
        (UserOp::PauseOn, true, true),
        (UserOp::AudioStreamChange, true, true),
        (UserOp::SubpictureStreamChange, true, true),
        (UserOp::AngleChange, true, true),
        (UserOp::KaraokeAudioMixChange, true, true),
        (UserOp::VideoPresentationModeChange, true, true),
    ];
    for (op, pgc, vobu) in rows {
        assert_eq!(op.applies_to(UopLevel::ProgramChain), pgc, "PGC {:?}", op);
        assert_eq!(op.applies_to(UopLevel::Vobu), vobu, "VOBU {:?}", op);
    }
}
