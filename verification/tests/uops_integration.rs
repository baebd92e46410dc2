use oxideav_dvd::ifo::Pgc;
use oxideav_dvd::uops::{title_type_uop_mask, UopLevel, UopMask, UserOp, UOP_DEFINED_BITS};

/// A PGC header whose only meaningful field is `prohibited_user_ops`
/// at offset `0x0008`.
fn make_pgc_bytes(prohibited: u32) -> Vec<u8> {
    let mut buf = vec![0u8; 0xEC];
    buf[0x0008..0x000C].copy_from_slice(&prohibited.to_be_bytes());
    buf
}

#[test]
fn dvd_title_entry_uop_mask_extracts_title_type_low_bits() {
    let m = title_type_uop_mask(0b0011);
    assert!(m.contains(UserOp::TimePlayOrSearch));
    assert!(m.contains(UserOp::PttPlayOrSearch));
    assert!(!m.is_allowed(UserOp::TimePlayOrSearch));
    assert!(!m.is_allowed(UserOp::PttPlayOrSearch));

    let m = title_type_uop_mask(0b1111_1100);
    assert!(m.is_empty());
    assert!(m.is_allowed(UserOp::TimePlayOrSearch));
    assert!(m.is_allowed(UserOp::PttPlayOrSearch));

    let m = title_type_uop_mask(0xFF);
    assert!(m.fits_level(UopLevel::TitleSearchPointer));
    assert!(m.is_allowed(UserOp::ForwardScan));
    assert!(m.is_allowed(UserOp::AngleChange));
}

#[test]
fn pgc_uop_mask_reads_offset_0x0008() {
    let raw = UserOp::Stop.mask() | UserOp::AngleChange.mask();
    let bytes = make_pgc_bytes(raw);
    let pgc = Pgc::parse(&bytes).expect("PGC header should parse");
    let m = pgc.prohibited_user_ops;
    assert_eq!(m.raw(), raw);
    assert_eq!(m, UopMask::from_bits(raw));
    assert!(!m.is_allowed(UserOp::Stop));
    assert!(!m.is_allowed(UserOp::AngleChange));
    assert!(m.is_allowed(UserOp::Resume));
}

#[test]
fn pgc_uop_mask_empty_when_unset() {
    let bytes = make_pgc_bytes(0);
    let pgc = Pgc::parse(&bytes).expect("PGC header should parse");
    assert!(pgc.prohibited_user_ops.is_empty());
    for op in UserOp::ALL {
        assert!(pgc.prohibited_user_ops.is_allowed(op), "{:?} expected allowed", op);
    }
}

#[test]
fn three_level_or_merge_inhibits_when_any_layer_sets_the_bit() {
    // TT_SRPT prohibits TimePlayOrSearch, the PGC Stop, the PCI
    // AngleChange.
    let tt = title_type_uop_mask(0b01);
    let pgc = Pgc::parse(&make_pgc_bytes(UserOp::Stop.mask())).unwrap();
    let pci = UopMask::from_bits(UserOp::AngleChange.mask());

    let merged = UopMask::merge_or(tt, pgc.prohibited_user_ops, pci);
    assert!(merged.contains(UserOp::TimePlayOrSearch));
    assert!(merged.contains(UserOp::Stop));
    assert!(merged.contains(UserOp::AngleChange));
    assert_eq!(merged.count(), 3);
    assert!(merged.is_allowed(UserOp::Resume));
    assert!(merged.is_allowed(UserOp::ForwardScan));
}

#[test]
fn merge_or_identity_when_two_layers_unset() {
    let tt = UopMask::none();
    let pgc = Pgc::parse(&make_pgc_bytes(UserOp::PauseOn.mask())).unwrap();
    let pci = UopMask::from_bits(0);
    let merged = UopMask::merge_or(tt, pgc.prohibited_user_ops, pci);
    assert_eq!(merged.iter().collect_ops(), vec![UserOp::PauseOn]);
}

#[test]
fn pgc_level_carries_every_op_except_go_up() {
    let bytes = make_pgc_bytes(UOP_DEFINED_BITS);
    let pgc = Pgc::parse(&bytes).expect("PGC header should parse");
    for op in UserOp::ALL {
        assert!(!pgc.prohibited_user_ops.is_allowed(op), "{:?} should be blocked", op);
    }
    assert!(!pgc.prohibited_user_ops.fits_level(UopLevel::ProgramChain));
}
