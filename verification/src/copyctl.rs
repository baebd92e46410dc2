//! Copy Control Information: CGMS + APS value decoding, the analog-output
//! copy-control word, and the 6-byte sector-level `CPR_MAI` field.

use vstd::prelude::*;

use crate::error::{Error, Result};

verus! {

/// CGMS 2-bit copy-generation state.
#[derive(Debug, Clone, Copy, PartialEq, Eq, PartialOrd, Ord, Hash)]
pub enum Cgms {
    /// `00` — unrestricted copying permitted.
    CopyFreely,
    /// `01` — no further copies.
    CopyNoMore,
    /// `10` — one generation of copies may be made.
    CopyOnce,
    /// `11` — no copying permitted.
    CopyNever,
}

impl Cgms {
    /// Decode from the low two bits of `bits`.
    #[verifier::allow_in_spec]
    pub fn from_bits(bits: u8) -> Self
        returns
            (match bits & 3u8 {
                0u8 => Cgms::CopyFreely,
                1u8 => Cgms::CopyNoMore,
                2u8 => Cgms::CopyOnce,
                _ => Cgms::CopyNever,
            }),
    {
        match bits & 3u8 {
            0 => Cgms::CopyFreely,
            1 => Cgms::CopyNoMore,
            2 => Cgms::CopyOnce,
            _ => Cgms::CopyNever,
        }
    }

    /// The 2-bit on-wire encoding.
    #[verifier::allow_in_spec]
    pub fn bits(self) -> u8
        returns
            (match self {
                Cgms::CopyFreely => 0u8,
                Cgms::CopyNoMore => 1u8,
                Cgms::CopyOnce => 2u8,
                Cgms::CopyNever => 3u8,
            }),
    {
        match self {
            Cgms::CopyFreely => 0,
            Cgms::CopyNoMore => 1,
            Cgms::CopyOnce => 2,
            Cgms::CopyNever => 3,
        }
    }

    /// `true` when a further generation of copies is permitted.
    pub fn copying_permitted(self) -> (r: bool)
        ensures
            r <==> (self == Cgms::CopyFreely || self == Cgms::CopyOnce),
    {
        match self {
            Cgms::CopyFreely | Cgms::CopyOnce => true,
            _ => false,
        }
    }
}

/// APS 2-bit analog-protection process selector.
#[derive(Debug, Clone, Copy, PartialEq, Eq, PartialOrd, Ord, Hash)]
pub enum ApsType {
    /// `00` — no analog protection.
    Off,
    /// `01` — AGC pulses, Colorstripe off.
    Agc,
    /// `10` — AGC + 2-line Colorstripe.
    AgcColorstripe2,
    /// `11` — AGC + 4-line Colorstripe.
    AgcColorstripe4,
}

impl ApsType {
    /// Decode from the low two bits of `bits`.
    #[verifier::allow_in_spec]
    pub fn from_bits(bits: u8) -> Self
        returns
            (match bits & 3u8 {
                0u8 => ApsType::Off,
                1u8 => ApsType::Agc,
                2u8 => ApsType::AgcColorstripe2,
                _ => ApsType::AgcColorstripe4,
            }),
    {
        match bits & 3u8 {
            0 => ApsType::Off,
            1 => ApsType::Agc,
            2 => ApsType::AgcColorstripe2,
            _ => ApsType::AgcColorstripe4,
        }
    }

    /// The 2-bit on-wire encoding.
    #[verifier::allow_in_spec]
    pub fn bits(self) -> u8
        returns
            (match self {
                ApsType::Off => 0u8,
                ApsType::Agc => 1u8,
                ApsType::AgcColorstripe2 => 2u8,
                ApsType::AgcColorstripe4 => 3u8,
            }),
    {
        match self {
            ApsType::Off => 0,
            ApsType::Agc => 1,
            ApsType::AgcColorstripe2 => 2,
            ApsType::AgcColorstripe4 => 3,
        }
    }

    /// `true` when any analog-protection process is applied.
    pub fn is_active(self) -> (r: bool)
        ensures
            r <==> self != ApsType::Off,
    {
        match self {
            ApsType::Off => false,
            _ => true,
        }
    }

    /// `true` for the two Colorstripe-adding types.
    pub fn has_colorstripe(self) -> (r: bool)
        ensures
            r <==> (self == ApsType::AgcColorstripe2 || self == ApsType::AgcColorstripe4),
    {
        match self {
            ApsType::AgcColorstripe2 | ApsType::AgcColorstripe4 => true,
            _ => false,
        }
    }
}

/// The copy-control word emitted on the analog output: CGMS at b4–b3,
/// APS at b2–b1, ASB at b0, reserved bits above.
#[derive(Debug, Clone, Copy, PartialEq, Eq, Hash)]
pub struct CopyControlInfo {
    /// Copy-generation state.
    pub cgms: Cgms,
    /// Analog-protection process.
    pub aps: ApsType,
    /// ASB — analog source bit (`true` = pre-recorded material).
    pub analog_source: bool,
}

/// The field decoding of an analog-output copy-control byte.
pub open spec fn spec_from_analog_field(field: u8) -> CopyControlInfo {
    CopyControlInfo {
        cgms: Cgms::from_bits(field >> 3u8),
        aps: ApsType::from_bits(field >> 1u8),
        analog_source: field & 1u8 != 0,
    }
}

/// The byte a copy-control word encodes to (reserved bits zero).
pub open spec fn spec_to_analog_field(c: CopyControlInfo) -> u8 {
    ((c.cgms.bits() << 3u8) | (c.aps.bits() << 1u8) | (if c.analog_source { 1u8 } else { 0u8 }))
        as u8
}

impl CopyControlInfo {
    /// A fully permissive word: copy freely, no APS, ASB clear.
    pub fn unrestricted() -> (r: Self)
        ensures
            r == (CopyControlInfo { cgms: Cgms::CopyFreely, aps: ApsType::Off, analog_source: false }),
    {
        CopyControlInfo { cgms: Cgms::CopyFreely, aps: ApsType::Off, analog_source: false }
    }

    /// Decode the analog-output field; reserved bits are ignored.
    pub fn from_analog_field(field: u8) -> (r: Self)
        ensures
            r == spec_from_analog_field(field),
            r == spec_from_analog_field(field & 0x1Fu8),
    {
        proof {
            lemma_analog_field_masks_reserved(field);
        }
        CopyControlInfo {
            cgms: Cgms::from_bits(field >> 3),
            aps: ApsType::from_bits(field >> 1),
            analog_source: field & 1 != 0,
        }
    }

    /// Encode the analog-output field (reserved bits emitted as zero).
    pub fn to_analog_field(self) -> (r: u8)
        ensures
            r == spec_to_analog_field(self),
            r & 0xE0u8 == 0,
            spec_from_analog_field(r) == self,
    {
        proof {
            lemma_analog_field_round_trip(self);
        }
        (self.cgms.bits() << 3) | (self.aps.bits() << 1) | if self.analog_source {
            1u8
        } else {
            0u8
        }
    }
}

proof fn lemma_field_bits(cg: u8, ap: u8, s: u8)
    requires
        cg <= 3,
        ap <= 3,
        s <= 1,
    ensures
        ((((cg << 3u8) | (ap << 1u8) | s) as u8) >> 3u8) & 3u8 == cg,
        ((((cg << 3u8) | (ap << 1u8) | s) as u8) >> 1u8) & 3u8 == ap,
        (((cg << 3u8) | (ap << 1u8) | s) as u8) & 1u8 == s,
        (((cg << 3u8) | (ap << 1u8) | s) as u8) & 0xE0u8 == 0,
{
    assert(((((cg << 3u8) | (ap << 1u8) | s) as u8) >> 3u8) & 3u8 == cg) by (bit_vector)
        requires
            cg <= 3,
            ap <= 3,
            s <= 1,
    ;
    assert(((((cg << 3u8) | (ap << 1u8) | s) as u8) >> 1u8) & 3u8 == ap) by (bit_vector)
        requires
            cg <= 3,
            ap <= 3,
            s <= 1,
    ;
    assert((((cg << 3u8) | (ap << 1u8) | s) as u8) & 1u8 == s) by (bit_vector)
        requires
            cg <= 3,
            ap <= 3,
            s <= 1,
    ;
    assert((((cg << 3u8) | (ap << 1u8) | s) as u8) & 0xE0u8 == 0) by (bit_vector)
        requires
            cg <= 3,
            ap <= 3,
            s <= 1,
    ;
}

/// Encoding a copy-control word and decoding it again gives the word
/// back; the encoded byte uses only bits b4..b0.
pub proof fn lemma_analog_field_round_trip(c: CopyControlInfo)
    ensures
        spec_from_analog_field(spec_to_analog_field(c)) == c,
        spec_to_analog_field(c) & 0xE0u8 == 0,
{
    let s: u8 = if c.analog_source { 1u8 } else { 0u8 };
    lemma_field_bits(c.cgms.bits(), c.aps.bits(), s);
}

/// Decoding ignores the reserved bits b7..b5.
pub proof fn lemma_analog_field_masks_reserved(field: u8)
    ensures
        spec_from_analog_field(field) == spec_from_analog_field(field & 0x1Fu8),
{
    assert((field >> 3u8) & 3u8 == ((field & 0x1Fu8) >> 3u8) & 3u8) by (bit_vector);
    assert((field >> 1u8) & 3u8 == ((field & 0x1Fu8) >> 1u8) & 3u8) by (bit_vector);
    assert(field & 1u8 == (field & 0x1Fu8) & 1u8) by (bit_vector);
}

/// Length of the `CPR_MAI` field in bytes.
pub const CPR_MAI_LEN: usize = 6;

/// Length of a full DVD-ROM Data Frame in bytes.
pub const DATA_FRAME_LEN: usize = 2064;

/// Byte offset of `CPR_MAI` inside a Data Frame.
pub const CPR_MAI_FRAME_OFFSET: usize = 6;

/// Decoded 6-byte sector-level `CPR_MAI` field (byte-0 layout:
/// `CPM` b7, `CP_SEC` b6, `CGMS` b5–b4; byte 1 `RMI`).
#[derive(Debug, Clone, Copy, PartialEq, Eq, Hash)]
pub struct CprMai {
    /// `CPM` — sector is copyright-protected.
    pub cpm: bool,
    /// `CP_SEC` — sector is CSS-scrambled.
    pub cp_sec: bool,
    /// Disc-side copy-generation state (byte 0, b5–b4).
    pub cgms: Cgms,
    /// `RMI` — region-management / APS trigger byte.
    pub rmi: u8,
    /// The verbatim 6 on-wire bytes.
    pub raw: [u8; 6],
}


/// The decoding of the six bytes `b` (which must hold at least six).
pub open spec fn spec_cpr_mai(b: Seq<u8>) -> CprMai {
    CprMai {
        cpm: b[0] & 0x80u8 != 0,
        cp_sec: b[0] & 0x40u8 != 0,
        cgms: Cgms::from_bits(b[0] >> 4u8),
        rmi: b[1],
        raw: [b[0], b[1], b[2], b[3], b[4], b[5]],
    }
}

impl CprMai {
    fn parse_at(buf: &[u8], off: usize) -> (r: Self)
        requires
            off + 6 <= buf@.len(),
        ensures
            r == spec_cpr_mai(buf@.subrange(off as int, off + 6)),
    {
        let raw: [u8; 6] = [buf[off], buf[off + 1], buf[off + 2], buf[off + 3], buf[off + 4], buf[off + 5]];
        CprMai {
            cpm: raw[0] & 0x80 != 0,
            cp_sec: raw[0] & 0x40 != 0,
            cgms: Cgms::from_bits(raw[0] >> 4),
            rmi: raw[1],
            raw,
        }
    }

    /// Parse a 6-byte `CPR_MAI` field; only the first 6 bytes of `buf`
    /// are consumed. Fails with `InvalidUdf` when `buf` is shorter.
    pub fn parse(buf: &[u8]) -> (r: Result<Self>)
        ensures
            r is Err <==> buf@.len() < 6,
            r matches Err(e) ==> e is InvalidUdf,
            r matches Ok(m) ==> m == spec_cpr_mai(buf@),
    {
        if buf.len() < CPR_MAI_LEN {
            return Err(Error::InvalidUdf("CPR_MAI: shorter than 6 bytes"));
        }
        let r = Self::parse_at(buf, 0);
        proof {
            assert(spec_cpr_mai(buf@.subrange(0, 6)) == spec_cpr_mai(buf@));
        }
        Ok(r)
    }

    /// Parse the `CPR_MAI` field out of a full 2064-byte Data Frame
    /// (bytes 6..12). Fails with `InvalidUdf` for a shorter frame.
    pub fn from_data_frame(frame: &[u8]) -> (r: Result<Self>)
        ensures
            r is Err <==> frame@.len() < 2064,
            r matches Err(e) ==> e is InvalidUdf,
            r matches Ok(m) ==> m == spec_cpr_mai(frame@.subrange(6, 12)),
    {
        if frame.len() < DATA_FRAME_LEN {
            return Err(Error::InvalidUdf("CPR_MAI: data frame shorter than 2064 bytes"));
        }
        Ok(Self::parse_at(frame, CPR_MAI_FRAME_OFFSET))
    }

    /// `true` when every byte is zero.
    pub fn is_all_zero(&self) -> (r: bool)
        ensures
            r <==> (forall|i: int| 0 <= i < 6 ==> self.raw@[i] == 0u8),
    {
        let mut i: usize = 0;
        while i < 6
            invariant
                i <= 6,
                forall|j: int| 0 <= j < i ==> self.raw@[j] == 0u8,
            decreases 6 - i,
        {
            if self.raw[i] != 0 {
                return false;
            }
            i = i + 1;
        }
        true
    }

    /// `true` when byte 0's reserved low nibble or any of bytes 2..6 is
    /// non-zero.
    pub fn has_unrecognised_bits(&self) -> (r: bool)
        ensures
            r <==> (self.raw@[0] & 0x0Fu8 != 0 || exists|i: int| 2 <= i < 6 && self.raw@[i] != 0u8),
    {
        if self.raw[0] & 0x0F != 0 {
            return true;
        }
        let mut i: usize = 2;
        while i < 6
            invariant
                2 <= i <= 6,
                forall|j: int| 2 <= j < i ==> self.raw@[j] == 0u8,
            decreases 6 - i,
        {
            if self.raw[i] != 0 {
                return true;
            }
            i = i + 1;
        }
        false
    }

    /// The player-facing copy-control view: the disc-side CGMS, APS off,
    /// ASB set.
    pub fn copy_control(&self) -> (r: CopyControlInfo)
        ensures
            r == (CopyControlInfo { cgms: self.cgms, aps: ApsType::Off, analog_source: true }),
    {
        CopyControlInfo { cgms: self.cgms, aps: ApsType::Off, analog_source: true }
    }
}

/// Re-parsing the preserved raw bytes of a parsed `CPR_MAI` yields the
/// same decoded field, and the raw bytes are the first six input bytes.
pub proof fn lemma_cpr_mai_raw_round_trip(b: Seq<u8>)
    requires
        b.len() >= 6,
    ensures
        spec_cpr_mai(b).raw@ == b.subrange(0, 6),
        spec_cpr_mai(spec_cpr_mai(b).raw@) == spec_cpr_mai(b),
{
    assert(spec_cpr_mai(b).raw@ =~= b.subrange(0, 6));
}

} // verus!
