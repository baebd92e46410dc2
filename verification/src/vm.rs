//! The navigation virtual machine: register file, resume stack and the
//! interpreter that executes decoded navigation commands.
//!
//! [`Vm::step`] executes one [`NavInstruction`] and returns the
//! playback-visible effect as a [`VmAction`]; [`Vm::run_list`] walks a
//! pre / post / cell command list, honouring intra-list `Goto` and
//! `Break`, under a bounded step budget.

use vstd::prelude::*;

use crate::ifo::NavCommand;
use crate::nav::{
    spec_decode, CallSSTarget, CmpOp, JumpSSTarget, LinkSubset, NavInstruction, Operand, Register,
    SetOp,
};

verus! {

/// Number of general-purpose registers.
pub const GPRM_COUNT: usize = 16;

/// Number of system-parameter registers kept.
pub const SPRM_COUNT: usize = 24;

/// SPRM 0 — preferred menu language.
pub const SPRM_MENU_LANG: u8 = 0;
/// SPRM 1 — audio stream number.
pub const SPRM_AUDIO_STREAM: u8 = 1;
/// SPRM 2 — sub-picture stream number.
pub const SPRM_SUBPICTURE_STREAM: u8 = 2;
/// SPRM 3 — angle number.
pub const SPRM_ANGLE: u8 = 3;
/// SPRM 4 — title number in the volume.
pub const SPRM_TITLE: u8 = 4;
/// SPRM 5 — title number in the title set.
pub const SPRM_VTS_TITLE: u8 = 5;
/// SPRM 6 — PGC number.
pub const SPRM_PGCN: u8 = 6;
/// SPRM 7 — PTT number.
pub const SPRM_PTT: u8 = 7;
/// SPRM 8 — highlighted button number (bits 10..=15).
pub const SPRM_HL_BTNN: u8 = 8;
/// SPRM 9 — navigation timer in seconds.
pub const SPRM_NV_TIMER: u8 = 9;
/// SPRM 10 — PGC to link to when the navigation timer expires.
pub const SPRM_NV_PGCN: u8 = 10;
/// SPRM 11 — karaoke audio mixing mode.
pub const SPRM_AMXMD: u8 = 11;
/// SPRM 12 — parental-management country code.
pub const SPRM_CC_PLT: u8 = 12;
/// SPRM 13 — parental level.
pub const SPRM_PARENTAL_LEVEL: u8 = 13;
/// SPRM 14 — video preference and current display mode.
pub const SPRM_VIDEO_PREF: u8 = 14;
/// SPRM 15 — player audio capabilities.
pub const SPRM_AUDIO_CAPS: u8 = 15;
/// SPRM 16 — preferred audio language.
pub const SPRM_PREF_AUDIO_LANG: u8 = 16;
/// SPRM 17 — preferred audio language extension.
pub const SPRM_PREF_AUDIO_LANG_EXT: u8 = 17;
/// SPRM 18 — preferred sub-picture language.
pub const SPRM_PREF_SUBP_LANG: u8 = 18;
/// SPRM 19 — preferred sub-picture language extension.
pub const SPRM_PREF_SUBP_LANG_EXT: u8 = 19;
/// SPRM 20 — player region mask (bit `i` ⇒ region `i + 1`).
pub const SPRM_REGION_MASK: u8 = 20;

/// The power-on system registers: audio stream 15 (none), sub-picture
/// 62 (none), angle / title / VTS title / PTT 1, button 1 in bits
/// 10..=15, preferred languages `0xFFFF` (not specified), all else 0.
pub open spec fn sprm_defaults() -> Seq<u16> {
    seq![
        0u16, 15u16, 62u16, 1u16, 1u16, 1u16, 0u16, 1u16, 1024u16, 0u16, 0u16, 0u16, 0u16,
        0u16, 0u16, 0u16, 0xFFFFu16, 0u16, 0xFFFFu16, 0u16, 0u16, 0u16, 0u16, 0u16,
    ]
}

/// Mathematical state of a register file.
pub struct RegModel {
    /// The 16 general registers.
    pub g: Seq<u16>,
    /// The 24 system registers.
    pub s: Seq<u16>,
    /// Counter-mode bits, bit `i` for GPRM `i`.
    pub c: u16,
}

/// Read a general register; out-of-range indices read `0`.
pub open spec fn rm_gprm(m: RegModel, i: u8) -> u16 {
    if i < 16 { m.g[i as int] } else { 0 }
}

/// Read a system register; out-of-range indices read `0`.
pub open spec fn rm_sprm(m: RegModel, i: u8) -> u16 {
    if i < 24 { m.s[i as int] } else { 0 }
}

/// Write a general register; out-of-range indices are ignored.
pub open spec fn rm_set_gprm(m: RegModel, i: u8, v: u16) -> RegModel {
    if i < 16 { RegModel { g: m.g.update(i as int, v), ..m } } else { m }
}

/// Write a system register; out-of-range indices are ignored.
pub open spec fn rm_set_sprm(m: RegModel, i: u8, v: u16) -> RegModel {
    if i < 24 { RegModel { s: m.s.update(i as int, v), ..m } } else { m }
}

/// Read the register a [`Register`] names (`0` for `Invalid`).
pub open spec fn rm_read(m: RegModel, r: Register) -> u16 {
    match r {
        Register::Gprm(i) => rm_gprm(m, i),
        Register::Sprm(i) => rm_sprm(m, i),
        Register::Invalid(_) => 0,
    }
}

/// The value of an operand.
pub open spec fn rm_operand(m: RegModel, op: Operand) -> u16 {
    match op {
        Operand::Register(r) => rm_read(m, r),
        Operand::Immediate(v) => v,
    }
}

/// GPRM `i` is in counter mode.
pub open spec fn rm_counter(m: RegModel, i: u8) -> bool {
    i < 16 && (m.c >> (i as u16)) & 1u16 == 1u16
}

/// Switch GPRM `i`'s counter mode; out-of-range indices are ignored.
pub open spec fn rm_set_counter(m: RegModel, i: u8, on: bool) -> RegModel {
    if i < 16 {
        RegModel {
            c: if on {
                m.c | (1u16 << (i as u16))
            } else {
                m.c & !(1u16 << (i as u16))
            },
            ..m
        }
    } else {
        m
    }
}

/// `a + b`, saturating at `u16::MAX`.
pub open spec fn sat_add(a: u16, b: u16) -> u16 {
    if a + b > 0xFFFF { 0xFFFFu16 } else { (a + b) as u16 }
}

/// The register file: 16 general registers, 24 system registers and the
/// per-GPRM counter-mode bits.
#[derive(Debug, Clone)]
pub struct RegisterFile {
    gprm: [u16; 16],
    sprm: [u16; 24],
    counter_mask: u16,
}

impl RegisterFile {
    /// The register file's mathematical state.
    pub closed spec fn model(self) -> RegModel {
        RegModel { g: self.gprm@, s: self.sprm@, c: self.counter_mask }
    }

    /// Sixteen general registers, twenty-four system registers.
    pub open spec fn wf(self) -> bool {
        self.model().g.len() == 16 && self.model().s.len() == 24
    }

    /// The shape of the register file always holds.
    pub proof fn lemma_wf(self)
        ensures
            self.wf(),
    {
    }

    /// A fresh register file: general registers cleared, system
    /// registers at their power-on defaults, no counters.
    pub fn new() -> (r: Self)
        ensures
            r.model().g == Seq::new(16, |_i: int| 0u16),
            r.model().s == sprm_defaults(),
            r.model().c == 0,
    {
        let r = RegisterFile {
            gprm: [0u16; 16],
            sprm: [
                0u16, 15, 62, 1, 1, 1, 0, 1, 1024, 0, 0, 0, 0, 0, 0, 0, 0xFFFF, 0, 0xFFFF, 0, 0,
                0, 0, 0,
            ],
            counter_mask: 0,
        };
        assert(r.model().g =~= Seq::new(16, |_i: int| 0u16));
        assert(r.model().s =~= sprm_defaults());
        r
    }

    /// Read GPRM `index` (`0` when out of range).
    pub fn gprm(&self, index: u8) -> (r: u16)
        ensures
            r == rm_gprm(self.model(), index),
    {
        if index < 16 {
            self.gprm[index as usize]
        } else {
            0
        }
    }

    /// Write GPRM `index` (ignored when out of range).
    pub fn set_gprm(&mut self, index: u8, value: u16)
        ensures
            final(self).model() == rm_set_gprm(old(self).model(), index, value),
    {
        if index < 16 {
            self.gprm.set(index as usize, value);
        }
        assert(self.model().g =~= rm_set_gprm(old(self).model(), index, value).g);
    }

    /// Read SPRM `index` (`0` when out of range).
    pub fn sprm(&self, index: u8) -> (r: u16)
        ensures
            r == rm_sprm(self.model(), index),
    {
        if index < 24 {
            self.sprm[index as usize]
        } else {
            0
        }
    }

    /// Write SPRM `index` (ignored when out of range).
    pub fn set_sprm(&mut self, index: u8, value: u16)
        ensures
            final(self).model() == rm_set_sprm(old(self).model(), index, value),
    {
        if index < 24 {
            self.sprm.set(index as usize, value);
        }
        assert(self.model().s =~= rm_set_sprm(old(self).model(), index, value).s);
    }

    /// Read the register `reg` names (`0` for invalid encodings).
    pub fn read(&self, reg: Register) -> (r: u16)
        ensures
            r == rm_read(self.model(), reg),
    {
        match reg {
            Register::Gprm(i) => self.gprm(i),
            Register::Sprm(i) => self.sprm(i),
            Register::Invalid(_) => 0,
        }
    }

    /// The value of an operand.
    pub fn read_operand(&self, op: Operand) -> (r: u16)
        ensures
            r == rm_operand(self.model(), op),
    {
        match op {
            Operand::Register(r) => self.read(r),
            Operand::Immediate(v) => v,
        }
    }

    /// Switch GPRM `gprm_index`'s counter mode.
    pub fn set_counter_mode(&mut self, gprm_index: u8, on: bool)
        ensures
            final(self).model() == rm_set_counter(old(self).model(), gprm_index, on),
    {
        if gprm_index < 16 {
            let bit: u16 = 1u16 << (gprm_index as u16);
            if on {
                self.counter_mask = self.counter_mask | bit;
            } else {
                self.counter_mask = self.counter_mask & !bit;
            }
        }
    }

    /// `true` when GPRM `gprm_index` is in counter mode.
    pub fn counter_mode(&self, gprm_index: u8) -> (r: bool)
        ensures
            r == rm_counter(self.model(), gprm_index),
    {
        if gprm_index < 16 {
            (self.counter_mask >> (gprm_index as u16)) & 1 == 1
        } else {
            false
        }
    }

    /// Advance every counter-mode GPRM by `delta`, saturating at
    /// `u16::MAX`; the other registers are unchanged.
    pub fn tick_counters(&mut self, delta: u16)
        ensures
            final(self).model().s == old(self).model().s,
            final(self).model().c == old(self).model().c,
            final(self).model().g.len() == 16,
            forall|i: u8|
                i < 16 ==> #[trigger] final(self).model().g[i as int] == (if rm_counter(
                    old(self).model(),
                    i,
                ) {
                    sat_add(old(self).model().g[i as int], delta)
                } else {
                    old(self).model().g[i as int]
                }),
    {
        let mut k: u8 = 0;
        while k < 16
            invariant
                k <= 16,
                self.sprm@ == old(self).sprm@,
                self.counter_mask == old(self).counter_mask,
                self.gprm@.len() == 16,
                forall|i: u8|
                    i < 16 ==> #[trigger] self.gprm@[i as int] == (if i < k && rm_counter(
                        old(self).model(),
                        i,
                    ) {
                        sat_add(old(self).gprm@[i as int], delta)
                    } else {
                        old(self).gprm@[i as int]
                    }),
            decreases 16 - k,
        {
            if (self.counter_mask >> (k as u16)) & 1 == 1 {
                let cur = self.gprm[k as usize];
                let v: u16 = if cur as u32 + delta as u32 > 0xFFFF {
                    0xFFFF
                } else {
                    cur + delta
                };
                self.gprm.set(k as usize, v);
            }
            k = k + 1;
        }
    }

    /// SPRM 2 decoded: stream bits 0..=5, display flag bit 6.
    pub fn subpicture_stream(&self) -> (r: SubpictureStreamView)
        ensures
            r.raw == rm_sprm(self.model(), 2),
            r.stream == r.raw % 64,
            r.display == ((r.raw / 64) % 2 == 1),
    {
        let raw = self.sprm(SPRM_SUBPICTURE_STREAM);
        SubpictureStreamView { stream: (raw % 64) as u8, display: (raw / 64) % 2 == 1, raw }
    }

    /// SPRM 8 decoded: the button number in bits 10..=15, or `0` when it
    /// is outside `1..=36`.
    pub fn highlight_button(&self) -> (r: u8)
        ensures
            r == (if 1 <= rm_sprm(self.model(), 8) / 1024 <= 36 {
                rm_sprm(self.model(), 8) / 1024
            } else {
                0
            }),
    {
        let raw = self.sprm(SPRM_HL_BTNN);
        let n = (raw / 1024) as u8;
        if 1 <= n && n <= 36 {
            n
        } else {
            0
        }
    }

    /// SPRM 11 decoded: bits 2/3/4 mix channels 2/3/4 into the front,
    /// bits 10/11/12 into the rear.
    pub fn audio_mix_mode(&self) -> (r: AudioMixMode)
        ensures
            r.raw == rm_sprm(self.model(), 11),
            r.mix_2_to_front == ((r.raw / 4) % 2 == 1),
            r.mix_3_to_front == ((r.raw / 8) % 2 == 1),
            r.mix_4_to_front == ((r.raw / 16) % 2 == 1),
            r.mix_2_to_rear == ((r.raw / 1024) % 2 == 1),
            r.mix_3_to_rear == ((r.raw / 2048) % 2 == 1),
            r.mix_4_to_rear == ((r.raw / 4096) % 2 == 1),
    {
        let raw = self.sprm(SPRM_AMXMD);
        AudioMixMode {
            mix_2_to_front: (raw / 4) % 2 == 1,
            mix_3_to_front: (raw / 8) % 2 == 1,
            mix_4_to_front: (raw / 16) % 2 == 1,
            mix_2_to_rear: (raw / 1024) % 2 == 1,
            mix_3_to_rear: (raw / 2048) % 2 == 1,
            mix_4_to_rear: (raw / 4096) % 2 == 1,
            raw,
        }
    }

    /// SPRM 14 decoded: aspect ratio bits 10..=11, display mode bits 8..=9.
    pub fn video_preference(&self) -> (r: VideoPreference)
        ensures
            r.raw == rm_sprm(self.model(), 14),
            r.aspect == AspectRatio::from_bits(((r.raw / 1024) % 4) as u8),
            r.mode == DisplayMode::from_bits(((r.raw / 256) % 4) as u8),
    {
        let raw = self.sprm(SPRM_VIDEO_PREF);
        VideoPreference {
            aspect: AspectRatio::from_bits(((raw / 1024) % 4) as u8),
            mode: DisplayMode::from_bits(((raw / 256) % 4) as u8),
            raw,
        }
    }

    /// SPRM 15 decoded into per-codec capability flags.
    pub fn audio_capabilities(&self) -> (r: AudioCapabilities)
        ensures
            r.raw == rm_sprm(self.model(), 15),
            r.sdds_karaoke == ((r.raw / 4) % 2 == 1),
            r.dts_karaoke == ((r.raw / 8) % 2 == 1),
            r.mpeg_karaoke == ((r.raw / 16) % 2 == 1),
            r.dolby_karaoke == ((r.raw / 64) % 2 == 1),
            r.pcm_karaoke == ((r.raw / 128) % 2 == 1),
            r.sdds == ((r.raw / 1024) % 2 == 1),
            r.dts == ((r.raw / 2048) % 2 == 1),
            r.mpeg == ((r.raw / 4096) % 2 == 1),
            r.dolby == ((r.raw / 16384) % 2 == 1),
    {
        let raw = self.sprm(SPRM_AUDIO_CAPS);
        AudioCapabilities {
            sdds_karaoke: (raw / 4) % 2 == 1,
            dts_karaoke: (raw / 8) % 2 == 1,
            mpeg_karaoke: (raw / 16) % 2 == 1,
            dolby_karaoke: (raw / 64) % 2 == 1,
            pcm_karaoke: (raw / 128) % 2 == 1,
            sdds: (raw / 1024) % 2 == 1,
            dts: (raw / 2048) % 2 == 1,
            mpeg: (raw / 4096) % 2 == 1,
            dolby: (raw / 16384) % 2 == 1,
            raw,
        }
    }

    /// `true` when SPRM 20 allows region `region` (`1..=8`); always
    /// `false` for other region numbers.
    pub fn region_allowed(&self, region: u8) -> (r: bool)
        ensures
            r == (1 <= region <= 8 && (rm_sprm(self.model(), 20) >> ((region - 1) as u16)) & 1u16
                == 1u16),
    {
        if !(1 <= region && region <= 8) {
            return false;
        }
        let raw = self.sprm(SPRM_REGION_MASK);
        (raw >> ((region - 1) as u16)) & 1 == 1
    }

    /// SPRM 20 as a byte.
    pub fn region_mask(&self) -> (r: u8)
        ensures
            r == rm_sprm(self.model(), 20) % 256,
    {
        (self.sprm(SPRM_REGION_MASK) % 256) as u8
    }

    /// SPRM 0 as a language code.
    pub fn menu_language(&self) -> (r: LanguageCode)
        ensures
            r.raw == rm_sprm(self.model(), 0),
    {
        LanguageCode::from_raw(self.sprm(SPRM_MENU_LANG))
    }

    /// SPRM 1 decoded.
    pub fn audio_stream(&self) -> (r: AudioStreamSelector)
        ensures
            r == AudioStreamSelector::from_raw(rm_sprm(self.model(), 1)),
    {
        AudioStreamSelector::from_raw(self.sprm(SPRM_AUDIO_STREAM))
    }

    /// SPRM 3's low byte when it is an angle `1..=9`.
    pub fn angle_number(&self) -> (r: Option<u8>)
        ensures
            r == (if 1 <= rm_sprm(self.model(), 3) % 256 <= 9 {
                Some((rm_sprm(self.model(), 3) % 256) as u8)
            } else {
                None
            }),
    {
        let v = (self.sprm(SPRM_ANGLE) % 256) as u8;
        if 1 <= v && v <= 9 {
            Some(v)
        } else {
            None
        }
    }

    /// SPRM 12 as a country code.
    pub fn parental_country(&self) -> (r: LanguageCode)
        ensures
            r.raw == rm_sprm(self.model(), 12),
    {
        LanguageCode::from_raw(self.sprm(SPRM_CC_PLT))
    }

    /// SPRM 13 decoded.
    pub fn parental_level(&self) -> (r: ParentalLevel)
        ensures
            r == ParentalLevel::from_raw(rm_sprm(self.model(), 13)),
    {
        ParentalLevel::from_raw(self.sprm(SPRM_PARENTAL_LEVEL))
    }

    /// SPRM 16 as a language code.
    pub fn preferred_audio_language(&self) -> (r: LanguageCode)
        ensures
            r.raw == rm_sprm(self.model(), 16),
    {
        LanguageCode::from_raw(self.sprm(SPRM_PREF_AUDIO_LANG))
    }

    /// SPRM 17's low byte decoded.
    pub fn preferred_audio_language_ext(&self) -> (r: AudioLanguageExt)
        ensures
            r == AudioLanguageExt::from_raw((rm_sprm(self.model(), 17) % 256) as u8),
    {
        AudioLanguageExt::from_raw((self.sprm(SPRM_PREF_AUDIO_LANG_EXT) % 256) as u8)
    }

    /// SPRM 18 as a language code.
    pub fn preferred_subpicture_language(&self) -> (r: LanguageCode)
        ensures
            r.raw == rm_sprm(self.model(), 18),
    {
        LanguageCode::from_raw(self.sprm(SPRM_PREF_SUBP_LANG))
    }

    /// SPRM 19's low byte decoded.
    pub fn preferred_subpicture_language_ext(&self) -> (r: SubpictureLanguageExt)
        ensures
            r == SubpictureLanguageExt::from_raw((rm_sprm(self.model(), 19) % 256) as u8),
    {
        SubpictureLanguageExt::from_raw((self.sprm(SPRM_PREF_SUBP_LANG_EXT) % 256) as u8)
    }
}

impl Default for RegisterFile {
    fn default() -> (r: Self)
        ensures
            r.model().g == Seq::new(16, |_i: int| 0u16),
            r.model().s == sprm_defaults(),
            r.model().c == 0,
    {
        RegisterFile::new()
    }
}

/// SPRM 2 decoded.
#[derive(Debug, Clone, Copy, PartialEq, Eq)]
pub struct SubpictureStreamView {
    /// Bits 0..=5: stream `0..=31`, `62` none, `63` forced.
    pub stream: u8,
    /// Bit 6: display the stream.
    pub display: bool,
    /// The whole register.
    pub raw: u16,
}

impl SubpictureStreamView {
    /// The stream field is the "none" value `62`.
    pub fn is_none_sentinel(self) -> (r: bool)
        ensures
            r == (self.stream == 62),
    {
        self.stream == 62
    }

    /// The stream field is the "forced" value `63`.
    pub fn is_forced_sentinel(self) -> (r: bool)
        ensures
            r == (self.stream == 63),
    {
        self.stream == 63
    }
}

/// SPRM 11 decoded.
#[derive(Debug, Clone, Copy, PartialEq, Eq)]
pub struct AudioMixMode {
    /// Bit 2.
    pub mix_2_to_front: bool,
    /// Bit 3.
    pub mix_3_to_front: bool,
    /// Bit 4.
    pub mix_4_to_front: bool,
    /// Bit 10.
    pub mix_2_to_rear: bool,
    /// Bit 11.
    pub mix_3_to_rear: bool,
    /// Bit 12.
    pub mix_4_to_rear: bool,
    /// The whole register.
    pub raw: u16,
}

/// SPRM 14 decoded.
#[derive(Debug, Clone, Copy, PartialEq, Eq)]
pub struct VideoPreference {
    /// Bits 10..=11.
    pub aspect: AspectRatio,
    /// Bits 8..=9.
    pub mode: DisplayMode,
    /// The whole register.
    pub raw: u16,
}

/// Preferred display aspect ratio.
#[derive(Debug, Clone, Copy, PartialEq, Eq, Structural)]
pub enum AspectRatio {
    /// `0` — 4:3.
    Ar4x3,
    /// `1` — not specified.
    NotSpecified,
    /// `2` — reserved.
    Reserved,
    /// `3` — 16:9.
    Ar16x9,
}

impl AspectRatio {
    /// Decode the low two bits.
    #[verifier::allow_in_spec]
    pub fn from_bits(bits: u8) -> Self
        returns
            (match bits % 4 {
                0u8 => AspectRatio::Ar4x3,
                1u8 => AspectRatio::NotSpecified,
                2u8 => AspectRatio::Reserved,
                _ => AspectRatio::Ar16x9,
            }),
    {
        match bits % 4 {
            0 => AspectRatio::Ar4x3,
            1 => AspectRatio::NotSpecified,
            2 => AspectRatio::Reserved,
            _ => AspectRatio::Ar16x9,
        }
    }
}

/// Current display mode.
#[derive(Debug, Clone, Copy, PartialEq, Eq, Structural)]
pub enum DisplayMode {
    /// `0` — normal.
    Normal,
    /// `1` — pan/scan.
    PanScan,
    /// `2` — letterbox.
    Letterbox,
    /// `3` — reserved.
    Reserved,
}

impl DisplayMode {
    /// Decode the low two bits.
    #[verifier::allow_in_spec]
    pub fn from_bits(bits: u8) -> Self
        returns
            (match bits % 4 {
                0u8 => DisplayMode::Normal,
                1u8 => DisplayMode::PanScan,
                2u8 => DisplayMode::Letterbox,
                _ => DisplayMode::Reserved,
            }),
    {
        match bits % 4 {
            0 => DisplayMode::Normal,
            1 => DisplayMode::PanScan,
            2 => DisplayMode::Letterbox,
            _ => DisplayMode::Reserved,
        }
    }
}

/// SPRM 15 decoded.
#[derive(Debug, Clone, Copy, PartialEq, Eq)]
pub struct AudioCapabilities {
    /// Bit 2.
    pub sdds_karaoke: bool,
    /// Bit 3.
    pub dts_karaoke: bool,
    /// Bit 4.
    pub mpeg_karaoke: bool,
    /// Bit 6.
    pub dolby_karaoke: bool,
    /// Bit 7.
    pub pcm_karaoke: bool,
    /// Bit 10.
    pub sdds: bool,
    /// Bit 11.
    pub dts: bool,
    /// Bit 12.
    pub mpeg: bool,
    /// Bit 14.
    pub dolby: bool,
    /// The whole register.
    pub raw: u16,
}

impl AudioCapabilities {
    /// No capability bit is set.
    pub fn cannot_play(self) -> (r: bool)
        ensures
            r == (self.raw == 0),
    {
        self.raw == 0
    }
}

/// A two-letter language / country code packed high byte first.
#[derive(Debug, Clone, Copy, PartialEq, Eq)]
pub struct LanguageCode {
    /// The register word.
    pub raw: u16,
}

/// An ASCII letter.
pub open spec fn is_ascii_letter(b: u8) -> bool {
    (0x41 <= b <= 0x5A) || (0x61 <= b <= 0x7A)
}

/// The lower-case form of an ASCII letter.
pub open spec fn ascii_lower(b: u8) -> u8 {
    if 0x41 <= b <= 0x5A { (b + 32) as u8 } else { b }
}

impl LanguageCode {
    /// `0xFFFF` — "not specified".
    pub const NOT_SPECIFIED: u16 = 0xFFFF;

    /// Wrap a register word.
    pub fn from_raw(raw: u16) -> (r: Self)
        ensures
            r.raw == raw,
    {
        LanguageCode { raw }
    }

    /// The word is `0xFFFF`.
    pub fn is_not_specified(self) -> (r: bool)
        ensures
            r == (self.raw == 0xFFFF),
    {
        self.raw == 0xFFFF
    }

    /// The two letters (high byte first) when both bytes are ASCII
    /// letters and the word is not `0xFFFF`.
    pub fn ascii_bytes(self) -> (r: Option<[u8; 2]>)
        ensures
            match r {
                Some(a) => self.raw != 0xFFFF && a@ == seq![(self.raw / 256) as u8, (self.raw % 256) as u8]
                    && is_ascii_letter(a@[0]) && is_ascii_letter(a@[1]),
                None => self.raw == 0xFFFF || !is_ascii_letter((self.raw / 256) as u8)
                    || !is_ascii_letter((self.raw % 256) as u8),
            },
    {
        if self.is_not_specified() {
            return None;
        }
        let hi = (self.raw / 256) as u8;
        let lo = (self.raw % 256) as u8;
        if ((0x41 <= hi && hi <= 0x5A) || (0x61 <= hi && hi <= 0x7A)) && ((0x41 <= lo && lo <= 0x5A)
            || (0x61 <= lo && lo <= 0x7A)) {
            let a = [hi, lo];
            assert(a@ =~= seq![hi, lo]);
            Some(a)
        } else {
            None
        }
    }

    /// The code as a lower-case two-letter string, when
    /// [`Self::ascii_bytes`] yields one.
    pub fn as_string(self) -> (r: Option<String>)
        ensures
            match r {
                Some(s) => self.raw != 0xFFFF && is_ascii_letter((self.raw / 256) as u8)
                    && is_ascii_letter((self.raw % 256) as u8) && s@ == seq![
                    ascii_lower((self.raw / 256) as u8) as char,
                    ascii_lower((self.raw % 256) as u8) as char,
                ],
                None => self.raw == 0xFFFF || !is_ascii_letter((self.raw / 256) as u8)
                    || !is_ascii_letter((self.raw % 256) as u8),
            },
    {
        let a = match self.ascii_bytes() {
            Some(a) => a,
            None => {
                return None;
            },
        };
        let mut s = String::new();
        s.append(lower_letter(a[0]));
        s.append(lower_letter(a[1]));
        assert(s@ =~= seq![ascii_lower(a@[0]) as char, ascii_lower(a@[1]) as char]);
        Some(s)
    }
}

/// The one-letter lower-case string of an ASCII letter.
fn lower_letter(b: u8) -> (r: &'static str)
    requires
        is_ascii_letter(b),
    ensures
        r@ == seq![ascii_lower(b) as char],
{
    let l = if b <= 0x5A {
        b + 32
    } else {
        b
    };
    proof {
        reveal_strlit("a");
        reveal_strlit("b");
        reveal_strlit("c");
        reveal_strlit("d");
        reveal_strlit("e");
        reveal_strlit("f");
        reveal_strlit("g");
        reveal_strlit("h");
        reveal_strlit("i");
        reveal_strlit("j");
        reveal_strlit("k");
        reveal_strlit("l");
        reveal_strlit("m");
        reveal_strlit("n");
        reveal_strlit("o");
        reveal_strlit("p");
        reveal_strlit("q");
        reveal_strlit("r");
        reveal_strlit("s");
        reveal_strlit("t");
        reveal_strlit("u");
        reveal_strlit("v");
        reveal_strlit("w");
        reveal_strlit("x");
        reveal_strlit("y");
        reveal_strlit("z");
    }
    match l {
        0x61 => "a",
        0x62 => "b",
        0x63 => "c",
        0x64 => "d",
        0x65 => "e",
        0x66 => "f",
        0x67 => "g",
        0x68 => "h",
        0x69 => "i",
        0x6A => "j",
        0x6B => "k",
        0x6C => "l",
        0x6D => "m",
        0x6E => "n",
        0x6F => "o",
        0x70 => "p",
        0x71 => "q",
        0x72 => "r",
        0x73 => "s",
        0x74 => "t",
        0x75 => "u",
        0x76 => "v",
        0x77 => "w",
        0x78 => "x",
        0x79 => "y",
        _ => "z",
    }
}

/// SPRM 1 decoded.
#[derive(Debug, Clone, Copy, PartialEq, Eq)]
pub enum AudioStreamSelector {
    /// `0..=7` — a stream index.
    Stream(u8),
    /// `15` — no audio selected.
    NoStream,
    /// Any other value, kept raw.
    Invalid(u16),
}

impl AudioStreamSelector {
    /// Decode the SPRM 1 word.
    #[verifier::allow_in_spec]
    pub fn from_raw(raw: u16) -> Self
        returns
            (if raw <= 7 {
                AudioStreamSelector::Stream(raw as u8)
            } else if raw == 15 {
                AudioStreamSelector::NoStream
            } else {
                AudioStreamSelector::Invalid(raw)
            }),
    {
        if raw <= 7 {
            AudioStreamSelector::Stream(raw as u8)
        } else if raw == 15 {
            AudioStreamSelector::NoStream
        } else {
            AudioStreamSelector::Invalid(raw)
        }
    }

    /// A stream index is selected.
    pub fn is_stream(self) -> (r: bool)
        ensures
            r == (self is Stream),
    {
        matches!(self, AudioStreamSelector::Stream(_))
    }

    /// The "no audio" value `15`.
    pub fn is_none_sentinel(self) -> (r: bool)
        ensures
            r == (self is NoStream),
    {
        matches!(self, AudioStreamSelector::NoStream)
    }
}

/// SPRM 13 decoded.
#[derive(Debug, Clone, Copy, PartialEq, Eq)]
pub enum ParentalLevel {
    /// `1..=8` — a level.
    Level(u8),
    /// `15` — parental control off.
    Off,
    /// Any other value, kept raw.
    Invalid(u16),
}

impl ParentalLevel {
    /// Decode the SPRM 13 word.
    #[verifier::allow_in_spec]
    pub fn from_raw(raw: u16) -> Self
        returns
            (if 1 <= raw <= 8 {
                ParentalLevel::Level(raw as u8)
            } else if raw == 15 {
                ParentalLevel::Off
            } else {
                ParentalLevel::Invalid(raw)
            }),
    {
        if 1 <= raw && raw <= 8 {
            ParentalLevel::Level(raw as u8)
        } else if raw == 15 {
            ParentalLevel::Off
        } else {
            ParentalLevel::Invalid(raw)
        }
    }

    /// A level `1..=8` is set.
    pub fn is_level(self) -> (r: bool)
        ensures
            r == (self is Level),
    {
        matches!(self, ParentalLevel::Level(_))
    }

    /// The "off" value `15`.
    pub fn is_none_sentinel(self) -> (r: bool)
        ensures
            r == (self is Off),
    {
        matches!(self, ParentalLevel::Off)
    }
}

/// SPRM 17 decoded.
#[derive(Debug, Clone, Copy, PartialEq, Eq)]
pub enum AudioLanguageExt {
    /// `0`.
    NotSpecified,
    /// `1`.
    Normal,
    /// `2`.
    VisuallyImpaired,
    /// `3`.
    DirectorComments,
    /// `4`.
    AlternateDirectorComments,
    /// Any other value.
    Reserved(u8),
}

impl AudioLanguageExt {
    /// Decode the low byte.
    #[verifier::allow_in_spec]
    pub fn from_raw(raw: u8) -> Self
        returns
            (match raw {
                0u8 => AudioLanguageExt::NotSpecified,
                1u8 => AudioLanguageExt::Normal,
                2u8 => AudioLanguageExt::VisuallyImpaired,
                3u8 => AudioLanguageExt::DirectorComments,
                4u8 => AudioLanguageExt::AlternateDirectorComments,
                other => AudioLanguageExt::Reserved(other),
            }),
    {
        match raw {
            0 => AudioLanguageExt::NotSpecified,
            1 => AudioLanguageExt::Normal,
            2 => AudioLanguageExt::VisuallyImpaired,
            3 => AudioLanguageExt::DirectorComments,
            4 => AudioLanguageExt::AlternateDirectorComments,
            other => AudioLanguageExt::Reserved(other),
        }
    }
}

/// SPRM 19 decoded.
#[derive(Debug, Clone, Copy, PartialEq, Eq)]
pub enum SubpictureLanguageExt {
    /// `0`.
    NotSpecified,
    /// `1`.
    Normal,
    /// `2`.
    Large,
    /// `3`.
    Children,
    /// `5`.
    NormalCaptions,
    /// `6`.
    LargeCaptions,
    /// `7`.
    ChildrensCaptions,
    /// `9`.
    Forced,
    /// `13`.
    DirectorComments,
    /// `14`.
    LargeDirectorComments,
    /// `15`.
    DirectorCommentsForChildren,
    /// Any other value.
    Reserved(u8),
}

impl SubpictureLanguageExt {
    /// Decode the low byte.
    #[verifier::allow_in_spec]
    pub fn from_raw(raw: u8) -> Self
        returns
            (match raw {
                0u8 => SubpictureLanguageExt::NotSpecified,
                1u8 => SubpictureLanguageExt::Normal,
                2u8 => SubpictureLanguageExt::Large,
                3u8 => SubpictureLanguageExt::Children,
                5u8 => SubpictureLanguageExt::NormalCaptions,
                6u8 => SubpictureLanguageExt::LargeCaptions,
                7u8 => SubpictureLanguageExt::ChildrensCaptions,
                9u8 => SubpictureLanguageExt::Forced,
                13u8 => SubpictureLanguageExt::DirectorComments,
                14u8 => SubpictureLanguageExt::LargeDirectorComments,
                15u8 => SubpictureLanguageExt::DirectorCommentsForChildren,
                other => SubpictureLanguageExt::Reserved(other),
            }),
    {
        match raw {
            0 => SubpictureLanguageExt::NotSpecified,
            1 => SubpictureLanguageExt::Normal,
            2 => SubpictureLanguageExt::Large,
            3 => SubpictureLanguageExt::Children,
            5 => SubpictureLanguageExt::NormalCaptions,
            6 => SubpictureLanguageExt::LargeCaptions,
            7 => SubpictureLanguageExt::ChildrensCaptions,
            9 => SubpictureLanguageExt::Forced,
            13 => SubpictureLanguageExt::DirectorComments,
            14 => SubpictureLanguageExt::LargeDirectorComments,
            15 => SubpictureLanguageExt::DirectorCommentsForChildren,
            other => SubpictureLanguageExt::Reserved(other),
        }
    }
}


/// The playback-visible effect of one executed instruction.
#[derive(Debug, Clone, Copy, PartialEq, Eq)]
pub enum VmAction {
    /// Continue with the next command of the list.
    Continue,
    /// Leave the current command list.
    Break,
    /// Stop playback.
    Exit,
    /// A link-family transfer.
    Link(LinkAction),
    /// Jump to a title of the volume.
    JumpTitle {
        /// Title number.
        ttn: u8,
    },
    /// Jump to a title of the current title set.
    JumpVtsTitle {
        /// Title number.
        ttn: u8,
    },
    /// Jump to a part of a title of the current title set.
    JumpVtsPtt {
        /// Title number.
        ttn: u8,
        /// PTT number.
        pttn: u16,
    },
    /// Cross-domain jump.
    JumpSs(JumpSSTarget),
    /// Cross-domain call (a resume point was pushed).
    CallSs(CallSSTarget),
    /// Resume to the point saved by the matching call.
    Resume(ResumePoint),
    /// The navigation timer was loaded; link to `pgcn` when it expires.
    SetNavTimer {
        /// Seconds.
        seconds: u16,
        /// PGC number.
        pgcn: u16,
    },
    /// An undefined instruction; nothing was changed.
    NoOpRaw(NavCommand),
}

/// A link-family transfer.
#[derive(Debug, Clone, Copy, PartialEq, Eq)]
pub enum LinkAction {
    /// One of the link subsets.
    Subset {
        /// The subset.
        subset: LinkSubset,
        /// Highlight-button override.
        hl_bn: u8,
    },
    /// Link to a PGC by number.
    Pgcn {
        /// PGC number.
        pgcn: u16,
    },
    /// Link to a part of title.
    Pttn {
        /// PTT number.
        pttn: u16,
        /// Highlight-button override.
        hl_bn: u8,
    },
    /// Link to a program of the current PGC.
    Pgn {
        /// Program number.
        pgn: u8,
        /// Highlight-button override.
        hl_bn: u8,
    },
    /// Link to a cell of the current PGC.
    Cn {
        /// Cell number.
        cn: u8,
        /// Highlight-button override.
        hl_bn: u8,
    },
}

/// A saved playback location pushed by `CallSS` and popped by `RSM`.
#[derive(Debug, Clone, Copy, PartialEq, Eq)]
pub struct ResumePoint {
    /// Cell to resume to (`0` = the cell active at call time).
    pub resume_cell: u8,
    /// Highlight-button override of the resuming command.
    pub hl_btn: u8,
}

/// Maximum depth of the call / resume stack.
pub const MAX_RSM_DEPTH: usize = 8;

/// Mathematical state of the machine: registers and resume stack.
pub struct VmModel {
    /// Registers.
    pub regs: RegModel,
    /// Resume stack, top last.
    pub stack: Seq<ResumePoint>,
}

/// The comparison `cmp` of `lhs` with `rhs` (unsigned; `Bc` is
/// "no common bit"; `NoCmp` is always true).
pub open spec fn eval_spec(cmp: CmpOp, lhs: u16, rhs: u16) -> bool {
    match cmp {
        CmpOp::NoCmp => true,
        CmpOp::Bc => lhs & rhs == 0u16,
        CmpOp::Eq => lhs == rhs,
        CmpOp::Ne => lhs != rhs,
        CmpOp::Ge => lhs >= rhs,
        CmpOp::Gt => lhs > rhs,
        CmpOp::Le => lhs <= rhs,
        CmpOp::Lt => lhs < rhs,
    }
}

/// The new destination value of a SET operation: 16-bit modular
/// arithmetic; division, remainder and random with a zero source leave
/// the destination unchanged; random otherwise yields `0`; swap yields
/// the source; undefined codes change nothing.
pub open spec fn apply_set_spec(op: SetOp, dst: u16, src: u16) -> u16 {
    match op {
        SetOp::NoOp => dst,
        SetOp::Mov => src,
        SetOp::Swp => src,
        SetOp::Add => ((dst + src) % 65536) as u16,
        SetOp::Sub => ((dst - src + 65536) % 65536) as u16,
        SetOp::Mul => ((dst * src) % 65536) as u16,
        SetOp::Div => if src == 0 { dst } else { (dst / src) as u16 },
        SetOp::Mod => if src == 0 { dst } else { (dst % src) as u16 },
        SetOp::Rnd => if src == 0 { dst } else { 0 },
        SetOp::And => dst & src,
        SetOp::Or => dst | src,
        SetOp::Xor => dst ^ src,
        SetOp::Invalid(_) => dst,
    }
}

/// The comparisons agree with the order of unsigned 16-bit values and
/// with each other: `Ne` negates `Eq`, `Ge` is `Gt` or `Eq`, `Lt`
/// negates `Ge`, `Le` negates `Gt`, `Lt` and `Gt` swap with their
/// operands, and `Bc` (no common bit) is symmetric and holds of a value
/// with itself only for `0`.
pub proof fn lemma_compare_laws(a: u16, b: u16)
    ensures
        eval_spec(CmpOp::NoCmp, a, b),
        eval_spec(CmpOp::Eq, a, b) <==> a == b,
        eval_spec(CmpOp::Ne, a, b) <==> !eval_spec(CmpOp::Eq, a, b),
        eval_spec(CmpOp::Gt, a, b) <==> a > b,
        eval_spec(CmpOp::Ge, a, b) <==> (eval_spec(CmpOp::Gt, a, b) || eval_spec(CmpOp::Eq, a, b)),
        eval_spec(CmpOp::Lt, a, b) <==> !eval_spec(CmpOp::Ge, a, b),
        eval_spec(CmpOp::Le, a, b) <==> !eval_spec(CmpOp::Gt, a, b),
        eval_spec(CmpOp::Lt, a, b) <==> eval_spec(CmpOp::Gt, b, a),
        eval_spec(CmpOp::Bc, a, b) <==> eval_spec(CmpOp::Bc, b, a),
        eval_spec(CmpOp::Bc, a, a) <==> a == 0,
{
    assert((a & b) == (b & a)) by (bit_vector);
    assert(((a & a) == 0u16) <==> a == 0u16) by (bit_vector);
}

/// The SET arithmetic on 16-bit words: `Mov` and `Swp` yield the source,
/// `NoOp` the destination; `Sub` undoes `Add`; `Add` commutes; with a
/// non-zero source `Div` and `Mod` are quotient and remainder
/// (`q * s + r == d`, `r < s`); `Xor` twice with the same source gives
/// the destination back; `And` never exceeds either operand and `Or`
/// never falls below.
pub proof fn lemma_set_arithmetic_laws(d: u16, s: u16)
    ensures
        apply_set_spec(SetOp::Mov, d, s) == s,
        apply_set_spec(SetOp::Swp, d, s) == s,
        apply_set_spec(SetOp::NoOp, d, s) == d,
        apply_set_spec(SetOp::Sub, apply_set_spec(SetOp::Add, d, s), s) == d,
        apply_set_spec(SetOp::Add, d, s) == apply_set_spec(SetOp::Add, s, d),
        d as int + s as int <= 0xFFFF ==> apply_set_spec(SetOp::Add, d, s) == d + s,
        s <= d ==> apply_set_spec(SetOp::Sub, d, s) == d - s,
        s != 0 ==> apply_set_spec(SetOp::Div, d, s) * s + apply_set_spec(SetOp::Mod, d, s) == d,
        s != 0 ==> apply_set_spec(SetOp::Mod, d, s) < s,
        apply_set_spec(SetOp::Xor, apply_set_spec(SetOp::Xor, d, s), s) == d,
        apply_set_spec(SetOp::And, d, s) <= d && apply_set_spec(SetOp::And, d, s) <= s,
        apply_set_spec(SetOp::Or, d, s) >= d && apply_set_spec(SetOp::Or, d, s) >= s,
{
    assert((d ^ s) ^ s == d) by (bit_vector);
    assert((d & s) <= d && (d & s) <= s && (d | s) >= d && (d | s) >= s) by (bit_vector);
    if s != 0 {
        assert((d / s) * s + d % s == d) by (nonlinear_arith)
            requires
                s != 0,
        ;
    }
}

/// A SET operation applied to a general-register destination (other
/// destinations are ignored); a swap with a general-register source
/// writes the old destination value back into the source.
pub open spec fn set_reg_spec(m: RegModel, op: SetOp, dst: Register, src: Operand) -> RegModel {
    match dst {
        Register::Gprm(i) => {
            let cur = rm_gprm(m, i);
            let m1 = rm_set_gprm(m, i, apply_set_spec(op, cur, rm_operand(m, src)));
            match (op, src) {
                (SetOp::Swp, Operand::Register(Register::Gprm(j))) => rm_set_gprm(m1, j, cur),
                _ => m1,
            }
        },
        _ => m,
    }
}

/// The SET phase of a compound command (skipped for `NoOp` and undefined
/// operation codes).
pub open spec fn compound_set_spec(m: RegModel, op: SetOp, dst: Register, src: Operand) -> RegModel {
    match op {
        SetOp::NoOp | SetOp::Invalid(_) => m,
        _ => set_reg_spec(m, op, dst, src),
    }
}

/// Push a resume point unless the stack is full.
pub open spec fn push_spec(stack: Seq<ResumePoint>, rp: ResumePoint) -> Seq<ResumePoint> {
    if stack.len() >= MAX_RSM_DEPTH { stack } else { stack.push(rp) }
}

/// `RSM`: pop the top resume point and resume there with the given
/// button; with an empty stack, continue.
pub open spec fn resume_spec(m: VmModel, hl: u8) -> (VmModel, VmAction) {
    if m.stack.len() > 0 {
        (
            VmModel { stack: m.stack.drop_last(), ..m },
            VmAction::Resume(ResumePoint { resume_cell: m.stack.last().resume_cell, hl_btn: hl }),
        )
    } else {
        (m, VmAction::Continue)
    }
}

/// The tail link of a compound command: `Nop` and undefined subsets
/// continue, `RSM` resumes, the rest surface as links.
pub open spec fn fire_link_spec(m: VmModel, link: LinkSubset, hl: u8) -> (VmModel, VmAction) {
    match link {
        LinkSubset::Nop => (m, VmAction::Continue),
        LinkSubset::Rsm => resume_spec(m, hl),
        LinkSubset::Invalid(_) => (m, VmAction::Continue),
        _ => (m, VmAction::Link(LinkAction::Subset { subset: link, hl_bn: hl })),
    }
}

/// The resume cell a `CallSS` target carries.
pub open spec fn call_rsm_cell(t: CallSSTarget) -> u8 {
    match t {
        CallSSTarget::FirstPlay { rsm_cell } => rsm_cell,
        CallSSTarget::VmgmMenu { rsm_cell, .. } => rsm_cell,
        CallSSTarget::VtsmMenu { rsm_cell, .. } => rsm_cell,
        CallSSTarget::VmgmPgcn { rsm_cell, .. } => rsm_cell,
    }
}

/// The value a `SetSTN` source selects: the literal when `direct`, else
/// the general register it names.
pub open spec fn stn_value(m: RegModel, direct: bool, src: u8) -> u16 {
    if direct { widen(src) } else { rm_gprm(m, src) }
}

/// A byte as a 16-bit word.
#[verifier::allow_in_spec]
pub fn widen(b: u8) -> u16
    returns
        b as u16,
{
    b as u16
}

/// The state and action after executing `ins` (for every instruction
/// but the undefined ones, which change nothing).
pub open spec fn step_spec(m: VmModel, ins: NavInstruction) -> (VmModel, VmAction) {
    let r = m.regs;
    match ins {
        NavInstruction::Nop => (m, VmAction::Continue),
        NavInstruction::Goto { .. } => (m, VmAction::Continue),
        NavInstruction::Break => (m, VmAction::Break),
        NavInstruction::SetTmpPml { level, .. } => (
            VmModel { regs: rm_set_sprm(r, 13, widen(level)), ..m },
            VmAction::Continue,
        ),
        NavInstruction::LinkSub { subset, hl_bn } => match subset {
            LinkSubset::Rsm => resume_spec(m, hl_bn),
            _ => (m, VmAction::Link(LinkAction::Subset { subset, hl_bn })),
        },
        NavInstruction::LinkPgcn { pgcn } => (m, VmAction::Link(LinkAction::Pgcn { pgcn })),
        NavInstruction::LinkPttn { pttn, hl_bn } => (
            m,
            VmAction::Link(LinkAction::Pttn { pttn, hl_bn }),
        ),
        NavInstruction::LinkPgn { pgn, hl_bn } => (m, VmAction::Link(LinkAction::Pgn { pgn, hl_bn })),
        NavInstruction::LinkCn { cn, hl_bn } => (m, VmAction::Link(LinkAction::Cn { cn, hl_bn })),
        NavInstruction::Exit => (m, VmAction::Exit),
        NavInstruction::JumpTT { ttn } => (m, VmAction::JumpTitle { ttn }),
        NavInstruction::JumpVtsTt { ttn } => (m, VmAction::JumpVtsTitle { ttn }),
        NavInstruction::JumpVtsPtt { ttn, pttn } => (m, VmAction::JumpVtsPtt { ttn, pttn }),
        NavInstruction::JumpSs(t) => (m, VmAction::JumpSs(t)),
        NavInstruction::CallSs(t) => (
            VmModel {
                stack: push_spec(m.stack, ResumePoint { resume_cell: call_rsm_cell(t), hl_btn: 0 }),
                ..m
            },
            VmAction::CallSs(t),
        ),
        NavInstruction::SetStn { direct, af, audio_src, sf, subpic_src, nf, angle_src } => {
            let r1 = if af { rm_set_sprm(r, 1, stn_value(r, direct, audio_src)) } else { r };
            let r2 = if sf { rm_set_sprm(r1, 2, stn_value(r1, direct, subpic_src)) } else { r1 };
            let r3 = if nf { rm_set_sprm(r2, 3, stn_value(r2, direct, angle_src)) } else { r2 };
            (VmModel { regs: r3, ..m }, VmAction::Continue)
        },
        NavInstruction::SetNvtmr { src, pgcn } => {
            let secs = rm_operand(r, src);
            (
                VmModel { regs: rm_set_sprm(rm_set_sprm(r, 9, secs), 10, pgcn), ..m },
                VmAction::SetNavTimer { seconds: secs, pgcn },
            )
        },
        NavInstruction::SetGprmMd { src, dst, counter } => {
            let v = rm_operand(r, src);
            match dst {
                Register::Gprm(i) => (
                    VmModel { regs: rm_set_counter(rm_set_gprm(r, i, v), i, counter), ..m },
                    VmAction::Continue,
                ),
                _ => (m, VmAction::Continue),
            }
        },
        NavInstruction::SetAmxMd { src } => (
            VmModel { regs: rm_set_sprm(r, 11, rm_operand(r, src)), ..m },
            VmAction::Continue,
        ),
        NavInstruction::SetHlBtnn { src } => (
            VmModel { regs: rm_set_sprm(r, 8, rm_operand(r, src)), ..m },
            VmAction::Continue,
        ),
        NavInstruction::SetReg { op, dst, src } => (
            VmModel { regs: set_reg_spec(r, op, dst, src), ..m },
            VmAction::Continue,
        ),
        NavInstruction::SetCLnk { set_op, cmp_op, scr, set_src, cmp_rhs, hl_bn, link } => {
            let r1 = compound_set_spec(r, set_op, scr, set_src);
            let m1 = VmModel { regs: r1, ..m };
            if eval_spec(cmp_op, rm_read(r1, scr), rm_operand(r1, cmp_rhs)) {
                fire_link_spec(m1, link, hl_bn)
            } else {
                (m1, VmAction::Continue)
            }
        },
        NavInstruction::CSetCLnk { set_op, cmp_op, sr1, set_src, cmp_lhs, cmp_rhs, hl_bn, link } => {
            if !eval_spec(cmp_op, rm_read(r, cmp_lhs), rm_operand(r, cmp_rhs)) {
                (m, VmAction::Continue)
            } else {
                fire_link_spec(
                    VmModel { regs: compound_set_spec(r, set_op, sr1, set_src), ..m },
                    link,
                    hl_bn,
                )
            }
        },
        NavInstruction::CmpSetLnk { set_op, cmp_op, sr1, set_src, cmp_rhs, hl_bn, link } => {
            let r1 = if eval_spec(cmp_op, rm_read(r, sr1), rm_operand(r, cmp_rhs)) {
                compound_set_spec(r, set_op, sr1, set_src)
            } else {
                r
            };
            fire_link_spec(VmModel { regs: r1, ..m }, link, hl_bn)
        },
        NavInstruction::Unknown | NavInstruction::Invalid => (m, VmAction::Continue),
    }
}

/// `a` is the action `b` stands for: identical, except that an undefined
/// instruction's action is a `NoOpRaw` of an all-zero command.
pub open spec fn same_action(a: VmAction, b: VmAction, undefined: bool) -> bool {
    if undefined {
        a matches VmAction::NoOpRaw(c) && c.bytes@ == seq![0u8, 0u8, 0u8, 0u8, 0u8, 0u8, 0u8, 0u8]
    } else {
        a == b
    }
}

/// The instruction has no defined meaning.
pub open spec fn is_undefined(ins: NavInstruction) -> bool {
    ins is Unknown || ins is Invalid
}

/// The outcome of walking `list` from `pc` with `fuel` steps left:
/// final state, terminating action and final program counter. An
/// undefined command changes nothing and the walk goes on past it.
pub open spec fn run_spec(m: VmModel, list: Seq<NavCommand>, pc: int, fuel: nat) -> (VmModel, VmAction, int)
    decreases fuel,
{
    if pc < 0 || pc >= list.len() || fuel == 0 {
        (m, VmAction::Continue, pc)
    } else {
        let ins = spec_decode(list[pc].bytes@);
        match ins {
            NavInstruction::Goto { line } => {
                let idx: int = if line == 0 { 0 } else { line - 1 };
                let npc = if idx >= list.len() { list.len() as int } else { idx };
                run_spec(m, list, npc, (fuel - 1) as nat)
            },
            _ => if is_undefined(ins) {
                run_spec(m, list, pc + 1, (fuel - 1) as nat)
            } else {
                let (m1, a) = step_spec(m, ins);
                if a is Continue {
                    run_spec(m1, list, pc + 1, (fuel - 1) as nat)
                } else {
                    (m1, a, pc)
                }
            },
        }
    }
}

/// The step budget of a list of `n` commands: `max(16 n, 256)`.
pub open spec fn run_budget(n: nat) -> nat {
    if n * 16 > usize::MAX {
        usize::MAX as nat
    } else if n * 16 > 256 {
        n * 16
    } else {
        256
    }
}

/// The navigation interpreter: registers, resume stack and the program
/// counter of the list being run.
#[derive(Debug, Clone)]
pub struct Vm {
    /// The register file.
    pub regs: RegisterFile,
    /// The call / resume stack, top last.
    pub rsm_stack: Vec<ResumePoint>,
    /// Program counter inside the current list.
    pub pc: usize,
}

impl Vm {
    /// The program counter.
    pub open spec fn pc_of(self) -> usize {
        self.pc
    }

    /// The machine's mathematical state.
    pub open spec fn model(self) -> VmModel {
        VmModel { regs: self.regs.model(), stack: self.rsm_stack@ }
    }

    /// A fresh machine: power-on registers, empty stack, `pc == 0`.
    pub fn new() -> (r: Self)
        ensures
            r.model().regs.g == Seq::new(16, |_i: int| 0u16),
            r.model().regs.s == sprm_defaults(),
            r.model().regs.c == 0,
            r.model().stack.len() == 0,
            r.pc_of() == 0,
    {
        Vm { regs: RegisterFile::new(), rsm_stack: Vec::new(), pc: 0 }
    }

    /// The program counter.
    pub fn pc(&self) -> (r: usize)
        ensures
            r == self.pc_of(),
    {
        self.pc
    }

    /// Set the program counter to `0`.
    pub fn reset_pc(&mut self)
        ensures
            final(self).pc_of() == 0,
            final(self).model() == old(self).model(),
    {
        self.pc = 0;
    }

    /// Push a resume point; `false` (and no change) when the stack
    /// already holds [`MAX_RSM_DEPTH`] frames.
    pub fn push_resume(&mut self, frame: ResumePoint) -> (r: bool)
        ensures
            r == (old(self).model().stack.len() < MAX_RSM_DEPTH),
            final(self).model().stack == push_spec(old(self).model().stack, frame),
            final(self).model().regs == old(self).model().regs,
            final(self).pc_of() == old(self).pc_of(),
    {
        if self.rsm_stack.len() >= MAX_RSM_DEPTH {
            false
        } else {
            self.rsm_stack.push(frame);
            true
        }
    }

    /// Pop the top resume point (`None` when the stack is empty).
    pub fn pop_resume(&mut self) -> (r: Option<ResumePoint>)
        ensures
            old(self).model().stack.len() == 0 ==> r is None && final(self).model()
                == old(self).model(),
            old(self).model().stack.len() > 0 ==> r == Some(old(self).model().stack.last())
                && final(self).model().stack == old(self).model().stack.drop_last(),
            final(self).model().regs == old(self).model().regs,
            final(self).pc_of() == old(self).pc_of(),
    {
        self.rsm_stack.pop()
    }

    /// Current depth of the resume stack.
    pub fn resume_depth(&self) -> (r: usize)
        ensures
            r == self.model().stack.len(),
    {
        self.rsm_stack.len()
    }

    /// Evaluate a comparison.
    pub fn evaluate(cmp: CmpOp, lhs: u16, rhs: u16) -> (r: bool)
        ensures
            r == eval_spec(cmp, lhs, rhs),
    {
        match cmp {
            CmpOp::NoCmp => true,
            CmpOp::Bc => (lhs & rhs) == 0,
            CmpOp::Eq => lhs == rhs,
            CmpOp::Ne => lhs != rhs,
            CmpOp::Ge => lhs >= rhs,
            CmpOp::Gt => lhs > rhs,
            CmpOp::Le => lhs <= rhs,
            CmpOp::Lt => lhs < rhs,
        }
    }

    /// The new destination value of a SET operation (see
    /// [`apply_set_spec`]).
    pub fn apply_set(op: SetOp, dst: u16, src: u16) -> (r: u16)
        ensures
            r == apply_set_spec(op, dst, src),
    {
        match op {
            SetOp::NoOp => dst,
            SetOp::Mov => src,
            SetOp::Swp => src,
            SetOp::Add => ((dst as u32 + src as u32) % 65536) as u16,
            SetOp::Sub => ((dst as u32 + 65536 - src as u32) % 65536) as u16,
            SetOp::Mul => {
                assert(dst as u32 * src as u32 <= 0xFFFF * 0xFFFF) by (nonlinear_arith)
                    requires
                        dst <= 0xFFFF,
                        src <= 0xFFFF,
                ;
                ((dst as u32 * src as u32) % 65536) as u16
            },
            SetOp::Div => if src == 0 {
                dst
            } else {
                dst / src
            },
            SetOp::Mod => if src == 0 {
                dst
            } else {
                dst % src
            },
            SetOp::Rnd => if src == 0 {
                dst
            } else {
                0
            },
            SetOp::And => dst & src,
            SetOp::Or => dst | src,
            SetOp::Xor => dst ^ src,
            SetOp::Invalid(_) => dst,
        }
    }

    fn apply_set_to_register(&mut self, op: SetOp, dst: Register, src: Operand)
        ensures
            final(self).model().regs == set_reg_spec(old(self).model().regs, op, dst, src),
            final(self).model().stack == old(self).model().stack,
            final(self).pc_of() == old(self).pc_of(),
    {
        if let Register::Gprm(i) = dst {
            let cur = self.regs.gprm(i);
            let rhs = self.regs.read_operand(src);
            let new = Vm::apply_set(op, cur, rhs);
            self.regs.set_gprm(i, new);
            if let SetOp::Swp = op {
                if let Operand::Register(Register::Gprm(j)) = src {
                    self.regs.set_gprm(j, cur);
                }
            }
        }
    }

    fn compound_set(&mut self, op: SetOp, dst: Register, src: Operand)
        ensures
            final(self).model().regs == compound_set_spec(old(self).model().regs, op, dst, src),
            final(self).model().stack == old(self).model().stack,
            final(self).pc_of() == old(self).pc_of(),
    {
        match op {
            SetOp::NoOp | SetOp::Invalid(_) => {},
            _ => self.apply_set_to_register(op, dst, src),
        }
    }

    fn resume(&mut self, hl_bn: u8) -> (r: VmAction)
        ensures
            (final(self).model(), r) == resume_spec(old(self).model(), hl_bn),
            final(self).pc_of() == old(self).pc_of(),
    {
        match self.pop_resume() {
            Some(rp) => VmAction::Resume(ResumePoint { resume_cell: rp.resume_cell, hl_btn: hl_bn }),
            None => VmAction::Continue,
        }
    }

    fn fire_link(&mut self, link: LinkSubset, hl_bn: u8) -> (r: VmAction)
        ensures
            (final(self).model(), r) == fire_link_spec(old(self).model(), link, hl_bn),
            final(self).pc_of() == old(self).pc_of(),
    {
        match link {
            LinkSubset::Nop => VmAction::Continue,
            LinkSubset::Rsm => self.resume(hl_bn),
            LinkSubset::Invalid(_) => VmAction::Continue,
            _ => VmAction::Link(LinkAction::Subset { subset: link, hl_bn }),
        }
    }

    /// Execute one instruction; the program counter is not touched
    /// (a bare `Goto` acts as `Continue`; [`Self::run_list`] resolves it).
    pub fn step(&mut self, ins: NavInstruction) -> (r: VmAction)
        ensures
            final(self).pc_of() == old(self).pc_of(),
            is_undefined(ins) ==> final(self).model() == old(self).model(),
            same_action(r, step_spec(old(self).model(), ins).1, is_undefined(ins)),
            !is_undefined(ins) ==> final(self).model() == step_spec(old(self).model(), ins).0,
    {
        match ins {
            NavInstruction::Nop => VmAction::Continue,
            NavInstruction::Goto { .. } => VmAction::Continue,
            NavInstruction::Break => VmAction::Break,
            NavInstruction::SetTmpPml { level, .. } => {
                self.regs.set_sprm(SPRM_PARENTAL_LEVEL, widen(level));
                VmAction::Continue
            },
            NavInstruction::LinkSub { subset, hl_bn } => match subset {
                LinkSubset::Rsm => self.resume(hl_bn),
                _ => VmAction::Link(LinkAction::Subset { subset, hl_bn }),
            },
            NavInstruction::LinkPgcn { pgcn } => VmAction::Link(LinkAction::Pgcn { pgcn }),
            NavInstruction::LinkPttn { pttn, hl_bn } => VmAction::Link(
                LinkAction::Pttn { pttn, hl_bn },
            ),
            NavInstruction::LinkPgn { pgn, hl_bn } => VmAction::Link(LinkAction::Pgn { pgn, hl_bn }),
            NavInstruction::LinkCn { cn, hl_bn } => VmAction::Link(LinkAction::Cn { cn, hl_bn }),
            NavInstruction::Exit => VmAction::Exit,
            NavInstruction::JumpTT { ttn } => VmAction::JumpTitle { ttn },
            NavInstruction::JumpVtsTt { ttn } => VmAction::JumpVtsTitle { ttn },
            NavInstruction::JumpVtsPtt { ttn, pttn } => VmAction::JumpVtsPtt { ttn, pttn },
            NavInstruction::JumpSs(t) => VmAction::JumpSs(t),
            NavInstruction::CallSs(t) => {
                let rsm_cell = match t {
                    CallSSTarget::FirstPlay { rsm_cell } => rsm_cell,
                    CallSSTarget::VmgmMenu { rsm_cell, .. } => rsm_cell,
                    CallSSTarget::VtsmMenu { rsm_cell, .. } => rsm_cell,
                    CallSSTarget::VmgmPgcn { rsm_cell, .. } => rsm_cell,
                };
                let _pushed = self.push_resume(ResumePoint { resume_cell: rsm_cell, hl_btn: 0 });
                VmAction::CallSs(t)
            },
            NavInstruction::SetStn { direct, af, audio_src, sf, subpic_src, nf, angle_src } => {
                if af {
                    let v = if direct {
                        widen(audio_src)
                    } else {
                        self.regs.gprm(audio_src)
                    };
                    self.regs.set_sprm(SPRM_AUDIO_STREAM, v);
                }
                if sf {
                    let v = if direct {
                        widen(subpic_src)
                    } else {
                        self.regs.gprm(subpic_src)
                    };
                    self.regs.set_sprm(SPRM_SUBPICTURE_STREAM, v);
                }
                if nf {
                    let v = if direct {
                        widen(angle_src)
                    } else {
                        self.regs.gprm(angle_src)
                    };
                    self.regs.set_sprm(SPRM_ANGLE, v);
                }
                VmAction::Continue
            },
            NavInstruction::SetNvtmr { src, pgcn } => {
                let seconds = self.regs.read_operand(src);
                self.regs.set_sprm(SPRM_NV_TIMER, seconds);
                self.regs.set_sprm(SPRM_NV_PGCN, pgcn);
                VmAction::SetNavTimer { seconds, pgcn }
            },
            NavInstruction::SetGprmMd { src, dst, counter } => {
                let v = self.regs.read_operand(src);
                if let Register::Gprm(i) = dst {
                    self.regs.set_gprm(i, v);
                    self.regs.set_counter_mode(i, counter);
                }
                VmAction::Continue
            },
            NavInstruction::SetAmxMd { src } => {
                let v = self.regs.read_operand(src);
                self.regs.set_sprm(SPRM_AMXMD, v);
                VmAction::Continue
            },
            NavInstruction::SetHlBtnn { src } => {
                let v = self.regs.read_operand(src);
                self.regs.set_sprm(SPRM_HL_BTNN, v);
                VmAction::Continue
            },
            NavInstruction::SetReg { op, dst, src } => {
                self.apply_set_to_register(op, dst, src);
                VmAction::Continue
            },
            NavInstruction::SetCLnk { set_op, cmp_op, scr, set_src, cmp_rhs, hl_bn, link } => {
                self.compound_set(set_op, scr, set_src);
                let lhs = self.regs.read(scr);
                let rhs = self.regs.read_operand(cmp_rhs);
                if Vm::evaluate(cmp_op, lhs, rhs) {
                    self.fire_link(link, hl_bn)
                } else {
                    VmAction::Continue
                }
            },
            NavInstruction::CSetCLnk {
                set_op,
                cmp_op,
                sr1,
                set_src,
                cmp_lhs,
                cmp_rhs,
                hl_bn,
                link,
            } => {
                let lhs = self.regs.read(cmp_lhs);
                let rhs = self.regs.read_operand(cmp_rhs);
                if !Vm::evaluate(cmp_op, lhs, rhs) {
                    return VmAction::Continue;
                }
                self.compound_set(set_op, sr1, set_src);
                self.fire_link(link, hl_bn)
            },
            NavInstruction::CmpSetLnk { set_op, cmp_op, sr1, set_src, cmp_rhs, hl_bn, link } => {
                let lhs = self.regs.read(sr1);
                let rhs = self.regs.read_operand(cmp_rhs);
                if Vm::evaluate(cmp_op, lhs, rhs) {
                    self.compound_set(set_op, sr1, set_src);
                }
                self.fire_link(link, hl_bn)
            },
            NavInstruction::Unknown | NavInstruction::Invalid => {
                let c = NavCommand { bytes: [0u8; 8] };
                assert(c.bytes@ =~= seq![0u8, 0u8, 0u8, 0u8, 0u8, 0u8, 0u8, 0u8]);
                VmAction::NoOpRaw(c)
            },
        }
    }

    /// Walk a command list from line 1: `Goto` moves to its 1-based
    /// line (past the end when out of range); a `Continue` advances, and
    /// so does an undefined command, which changes nothing; any other
    /// action ends the walk. Running off the end, or exhausting
    /// the budget of `max(16 × len, 256)` steps, ends with `Continue`.
    /// Returns the final action and program counter.
    pub fn run_list(&mut self, list: &[NavCommand]) -> (r: (VmAction, usize))
        ensures
            ({
                let (m, a, pc) = run_spec(old(self).model(), list@, 0, run_budget(list@.len()));
                &&& final(self).model() == m
                &&& r.0 == a
                &&& r.1 == pc
                &&& final(self).pc_of() == pc
            }),
            r.1 <= list@.len(),
            !(r.0 is Continue) ==> r.1 < list@.len(),
    {
        proof {
            lemma_run_stops_at_command(self.model(), list@, 0, run_budget(list@.len()));
        }
        self.run_list_from(list, 0)
    }

    /// [`Self::run_list`] starting at 0-based command `start` instead of
    /// the first one (the resume point after an event surfaced
    /// mid-list).
    pub fn run_list_from(&mut self, list: &[NavCommand], start: usize) -> (r: (VmAction, usize))
        ensures
            ({
                let (m, a, pc) = run_spec(
                    old(self).model(),
                    list@,
                    start as int,
                    run_budget(list@.len()),
                );
                &&& final(self).model() == m
                &&& r.0 == a
                &&& r.1 == pc
                &&& final(self).pc_of() == pc
            }),
    {
        self.pc = start;
        let n = list.len();
        let budget: usize = if n > 16 && n <= usize::MAX / 16 {
            n * 16
        } else if n > 16 {
            usize::MAX
        } else {
            256
        };
        let ghost full = run_spec(old(self).model(), list@, start as int, run_budget(list@.len()));
        let mut spent: usize = 0;
        assert(budget == run_budget(list@.len()));
        while self.pc < list.len() && spent < budget
            invariant
                n == list@.len(),
                spent <= budget,
                full == run_spec(self.model(), list@, self.pc as int, (budget - spent) as nat),
                full == run_spec(old(self).model(), list@, start as int, run_budget(list@.len())),
            decreases budget - spent,
        {
            let ghost m0 = self.model();
            let ghost fuel0 = (budget - spent) as nat;
            let ghost p0 = self.pc as int;
            spent = spent + 1;
            let ins = list[self.pc].decode();
            assert(ins == spec_decode(list@[p0].bytes@));
            match ins {
                NavInstruction::Goto { line } => {
                    let idx: usize = if line == 0 {
                        0
                    } else {
                        (line - 1) as usize
                    };
                    if idx >= list.len() {
                        self.pc = list.len();
                    } else {
                        self.pc = idx;
                    }
                },
                NavInstruction::Unknown | NavInstruction::Invalid => {
                    self.pc = self.pc + 1;
                },
                other => {
                    let pc0 = self.pc;
                    let action = self.step(other);
                    match action {
                        VmAction::Continue => {
                            self.pc = self.pc + 1;
                        },
                        _ => {
                            proof {
                                assert(run_spec(m0, list@, p0, fuel0) == (
                                    step_spec(m0, ins).0,
                                    step_spec(m0, ins).1,
                                    p0,
                                ));
                            }
                            return (action, self.pc);
                        },
                    }
                },
            }
        }
        (VmAction::Continue, self.pc)
    }
}


/// A register written is read back; every other register keeps its
/// value.
pub proof fn lemma_register_read_after_write(m: RegModel, i: u8, j: u8, v: u16)
    requires
        m.g.len() == 16,
        m.s.len() == 24,
    ensures
        i < 16 ==> rm_gprm(rm_set_gprm(m, i, v), i) == v,
        j != i ==> rm_gprm(rm_set_gprm(m, i, v), j) == rm_gprm(m, j),
        i < 24 ==> rm_sprm(rm_set_sprm(m, i, v), i) == v,
        j != i ==> rm_sprm(rm_set_sprm(m, i, v), j) == rm_sprm(m, j),
        rm_set_gprm(m, i, v).s == m.s,
        rm_set_sprm(m, i, v).g == m.g,
{
}

/// Switching a counter mode on or off is read back by the counter-mode
/// query, and other registers' modes are untouched.
pub proof fn lemma_counter_mode_round_trip(m: RegModel, i: u8, j: u8, on: bool)
    ensures
        i < 16 ==> rm_counter(rm_set_counter(m, i, on), i) == on,
        j != i ==> rm_counter(rm_set_counter(m, i, on), j) == rm_counter(m, j),
{
    let c = m.c;
    let ii = i as u16;
    let jj = j as u16;
    if i < 16 {
        assert((((c | (1u16 << ii)) >> ii) & 1u16 == 1u16) && (((c & !(1u16 << ii)) >> ii) & 1u16
            == 0u16)) by (bit_vector)
            requires
                ii < 16,
        ;
        if j != i && j < 16 {
            assert((((c | (1u16 << ii)) >> jj) & 1u16 == (c >> jj) & 1u16) && (((c & !(1u16
                << ii)) >> jj) & 1u16 == (c >> jj) & 1u16)) by (bit_vector)
                requires
                    ii < 16,
                    jj < 16,
                    ii != jj,
            ;
        }
    }
}

/// Adding and then subtracting the same source restores the
/// destination (16-bit modular arithmetic).
pub proof fn lemma_add_then_sub_restores(dst: u16, src: u16)
    ensures
        apply_set_spec(SetOp::Sub, apply_set_spec(SetOp::Add, dst, src), src) == dst,
{
    let s = dst + src;
    if s >= 65536 {
        assert((s % 65536) == s - 65536);
    } else {
        assert(s % 65536 == s);
    }
}

/// Division, remainder and random with a zero source leave the
/// destination unchanged; swap and move yield the source.
pub proof fn lemma_set_zero_source_and_moves(dst: u16, src: u16)
    ensures
        apply_set_spec(SetOp::Div, dst, 0) == dst,
        apply_set_spec(SetOp::Mod, dst, 0) == dst,
        apply_set_spec(SetOp::Rnd, dst, 0) == dst,
        apply_set_spec(SetOp::Swp, dst, src) == src,
        apply_set_spec(SetOp::Mov, dst, src) == src,
        apply_set_spec(SetOp::NoOp, dst, src) == dst,
{
}

/// The comparison predicates come in complementary pairs.
pub proof fn lemma_comparisons_complement(l: u16, r: u16)
    ensures
        eval_spec(CmpOp::Ne, l, r) == !eval_spec(CmpOp::Eq, l, r),
        eval_spec(CmpOp::Lt, l, r) == !eval_spec(CmpOp::Ge, l, r),
        eval_spec(CmpOp::Gt, l, r) == !eval_spec(CmpOp::Le, l, r),
        eval_spec(CmpOp::NoCmp, l, r),
{
}

/// Pushing a frame onto a non-full stack and popping gives the frame
/// back and the stack as it was.
pub proof fn lemma_push_then_pop(stack: Seq<ResumePoint>, rp: ResumePoint)
    requires
        stack.len() < MAX_RSM_DEPTH,
    ensures
        push_spec(stack, rp).last() == rp,
        push_spec(stack, rp).drop_last() == stack,
{
    assert(stack.push(rp).drop_last() =~= stack);
}

/// A `CallSS` followed by an `RSM` link resumes at the call's resume
/// cell with the link's button, and leaves the stack as before the call
/// (when the stack had room).
pub proof fn lemma_call_then_resume(m: VmModel, t: CallSSTarget, hl: u8)
    requires
        m.stack.len() < MAX_RSM_DEPTH,
    ensures
        ({
            let (m1, a1) = step_spec(m, NavInstruction::CallSs(t));
            let (m2, a2) = step_spec(m1, NavInstruction::LinkSub { subset: LinkSubset::Rsm, hl_bn: hl });
            &&& a1 == VmAction::CallSs(t)
            &&& a2 == VmAction::Resume(ResumePoint { resume_cell: call_rsm_cell(t), hl_btn: hl })
            &&& m2.stack == m.stack
            &&& m2.regs == m.regs
        }),
{
    let rp = ResumePoint { resume_cell: call_rsm_cell(t), hl_btn: 0 };
    lemma_push_then_pop(m.stack, rp);
}

/// No instruction grows the resume stack beyond [`MAX_RSM_DEPTH`], and
/// only `CallSS` grows it at all (by one frame).
pub proof fn lemma_step_stack_bounded(m: VmModel, ins: NavInstruction)
    requires
        m.stack.len() <= MAX_RSM_DEPTH,
    ensures
        step_spec(m, ins).0.stack.len() <= MAX_RSM_DEPTH,
        !(ins is CallSs) ==> step_spec(m, ins).0.stack.len() <= m.stack.len(),
{
}

/// A whole list run keeps the resume stack within [`MAX_RSM_DEPTH`] and
/// ends with the program counter inside or just past the list.
pub proof fn lemma_run_bounded(m: VmModel, list: Seq<NavCommand>, pc: int, fuel: nat)
    requires
        m.stack.len() <= MAX_RSM_DEPTH,
        0 <= pc <= list.len(),
    ensures
        run_spec(m, list, pc, fuel).0.stack.len() <= MAX_RSM_DEPTH,
        0 <= run_spec(m, list, pc, fuel).2 <= list.len(),
    decreases fuel,
{
    if pc < list.len() && fuel > 0 {
        let ins = spec_decode(list[pc].bytes@);
        lemma_step_stack_bounded(m, ins);
        match ins {
            NavInstruction::Goto { line } => {
                let idx: int = if line == 0 { 0 } else { line - 1 };
                let npc = if idx >= list.len() { list.len() as int } else { idx };
                lemma_run_bounded(m, list, npc, (fuel - 1) as nat);
            },
            _ => {
                if is_undefined(ins) {
                    lemma_run_bounded(m, list, pc + 1, (fuel - 1) as nat);
                } else {
                    let (m1, a) = step_spec(m, ins);
                    if a is Continue {
                        lemma_run_bounded(m1, list, pc + 1, (fuel - 1) as nat);
                    }
                }
            },
        }
    }
}

/// `SetSTN` writes SPRM 1 (audio), 2 (sub-picture) and 3 (angle) for
/// the flags it carries. In register form (`!direct`) each gets the
/// value held by the general register its source field names; in
/// immediate form the source field itself. General registers and the
/// other system registers are left alone, the resume stack too, and the
/// walk continues.
pub proof fn lemma_set_stn_sources(
    m: VmModel,
    direct: bool,
    af: bool,
    audio_src: u8,
    sf: bool,
    subpic_src: u8,
    nf: bool,
    angle_src: u8,
)
    requires
        m.regs.g.len() == 16,
        m.regs.s.len() == 24,
    ensures
        ({
            let ins = NavInstruction::SetStn { direct, af, audio_src, sf, subpic_src, nf, angle_src };
            let (m1, a) = step_spec(m, ins);
            let value = |src: u8|
                if direct {
                    src as u16
                } else if src < 16 {
                    m.regs.g[src as int]
                } else {
                    0u16
                };
            &&& a == VmAction::Continue
            &&& m1.stack == m.stack
            &&& m1.regs.g == m.regs.g
            &&& m1.regs.s[1] == (if af { value(audio_src) } else { m.regs.s[1] })
            &&& m1.regs.s[2] == (if sf { value(subpic_src) } else { m.regs.s[2] })
            &&& m1.regs.s[3] == (if nf { value(angle_src) } else { m.regs.s[3] })
            &&& forall|i: int| 0 <= i < 24 && i != 1 && i != 2 && i != 3 ==> m1.regs.s[i] == m.regs.s[i]
        }),
{
}

/// The other system-register writes: `SetNVTMR` loads SPRM 9 with the
/// seconds its operand holds and SPRM 10 with its PGC number, and hands
/// both on; `SetAMXMD` writes SPRM 11 and `SetHL_BTNN` SPRM 8 with their
/// operand's value. An immediate operand is its literal, a register
/// operand the value of the register it names.
pub proof fn lemma_system_register_writes(m: VmModel, src: Operand, pgcn: u16)
    requires
        m.regs.g.len() == 16,
        m.regs.s.len() == 24,
    ensures
        ({
            let v = match src {
                Operand::Immediate(x) => x,
                Operand::Register(Register::Gprm(i)) => if i < 16 { m.regs.g[i as int] } else { 0u16 },
                Operand::Register(Register::Sprm(i)) => if i < 24 { m.regs.s[i as int] } else { 0u16 },
                Operand::Register(Register::Invalid(_)) => 0u16,
            };
            let (t, a) = step_spec(m, NavInstruction::SetNvtmr { src, pgcn });
            let (x, b) = step_spec(m, NavInstruction::SetAmxMd { src });
            let (h, c) = step_spec(m, NavInstruction::SetHlBtnn { src });
            &&& t.regs.s[9] == v && t.regs.s[10] == pgcn && a == (VmAction::SetNavTimer {
                seconds: v,
                pgcn,
            })
            &&& t.regs.g == m.regs.g
            &&& x.regs.s[11] == v && x.regs.g == m.regs.g && b == VmAction::Continue
            &&& h.regs.s[8] == v && h.regs.g == m.regs.g && c == VmAction::Continue
        }),
{
}

/// A list run that ends on anything but running on (`Continue`) ends on
/// a command of the list that is neither a `Goto` nor undefined, and
/// whose execution yielded the final state and action. The program
/// counter never passes the end.
pub proof fn lemma_run_stops_at_command(m: VmModel, list: Seq<NavCommand>, pc: int, fuel: nat)
    requires
        0 <= pc <= list.len(),
    ensures
        ({
            let (m1, a, p) = run_spec(m, list, pc, fuel);
            &&& 0 <= p <= list.len()
            &&& !(a is Continue) ==> p < list.len()
            &&& !(a is Continue) ==> !(spec_decode(list[p].bytes@) is Goto) && !is_undefined(
                spec_decode(list[p].bytes@),
            ) && exists|m0: VmModel| step_spec(m0, spec_decode(list[p].bytes@)) == (m1, a)
        }),
    decreases fuel,
{
    if pc < list.len() && fuel > 0 {
        let ins = spec_decode(list[pc].bytes@);
        match ins {
            NavInstruction::Goto { line } => {
                let idx: int = if line == 0 { 0 } else { line - 1 };
                let npc = if idx >= list.len() { list.len() as int } else { idx };
                lemma_run_stops_at_command(m, list, npc, (fuel - 1) as nat);
            },
            _ => {
                if is_undefined(ins) {
                    lemma_run_stops_at_command(m, list, pc + 1, (fuel - 1) as nat);
                } else {
                    let (m1, a) = step_spec(m, ins);
                    if a is Continue {
                        lemma_run_stops_at_command(m1, list, pc + 1, (fuel - 1) as nat);
                    } else {
                        assert(step_spec(m, ins) == (m1, a));
                    }
                }
            },
        }
    }
}

/// A `CmpSetLnk` surfaces its link whatever the comparison gives; only
/// the SET phase depends on it.
pub proof fn lemma_cmp_set_lnk_links_regardless(
    m: VmModel,
    set_op: SetOp,
    pred: CmpOp,
    sr1: Register,
    set_src: Operand,
    rhs: Operand,
    hl_bn: u8,
    link: LinkSubset,
)
    requires
        !(link is Nop || link is Rsm || link is Invalid),
    ensures
        step_spec(
            m,
            NavInstruction::CmpSetLnk { set_op, cmp_op: pred, sr1, set_src, cmp_rhs: rhs, hl_bn, link },
        ).1 == VmAction::Link(LinkAction::Subset { subset: link, hl_bn }),
{
}

impl Default for Vm {
    fn default() -> (r: Self)
        ensures
            r.model().regs.g == Seq::new(16, |_i: int| 0u16),
            r.model().regs.s == sprm_defaults(),
            r.model().regs.c == 0,
            r.model().stack.len() == 0,
            r.pc_of() == 0,
    {
        Vm::new()
    }
}

} // verus!
