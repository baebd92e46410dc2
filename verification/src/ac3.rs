//! AC-3 (Dolby Digital) sync-frame header decoder: `syncinfo()` plus
//! the fixed-position prefix of `bsi()` up to `lfeon`.

use vstd::prelude::*;

use crate::bits::{bit_at, bits_at, lemma_byte_bits, read_bits};
use crate::error::{Error, Result};

verus! {

/// AC-3 sync word — the big-endian `0x0B77` at the start of every sync frame.
pub const AC3_SYNC_WORD: u16 = 0x0B77;

/// Sampling rate carried in the 2-bit `fscod` field.
#[derive(Debug, Clone, Copy, PartialEq, Eq)]
pub enum Ac3SampleRate {
    /// 48 kHz (`fscod = 00`).
    Hz48000,
    /// 44.1 kHz (`fscod = 01`).
    Hz44100,
    /// 32 kHz (`fscod = 10`).
    Hz32000,
    /// Reserved (`fscod = 11`).
    Reserved,
}

impl Ac3SampleRate {
    /// Decode from the low two bits of `code`.
    #[verifier::allow_in_spec]
    pub fn from_code(code: u8) -> Self
        returns
            (if code % 4 == 0 {
                Ac3SampleRate::Hz48000
            } else if code % 4 == 1 {
                Ac3SampleRate::Hz44100
            } else if code % 4 == 2 {
                Ac3SampleRate::Hz32000
            } else {
                Ac3SampleRate::Reserved
            }),
    {
        let c = code % 4;
        if c == 0 {
            Ac3SampleRate::Hz48000
        } else if c == 1 {
            Ac3SampleRate::Hz44100
        } else if c == 2 {
            Ac3SampleRate::Hz32000
        } else {
            Ac3SampleRate::Reserved
        }
    }

    /// Sample rate in Hz for the three defined codes; `None` for `Reserved`.
    #[verifier::allow_in_spec]
    pub fn hz(self) -> Option<u32>
        returns
            (match self {
                Ac3SampleRate::Hz48000 => Some(48_000u32),
                Ac3SampleRate::Hz44100 => Some(44_100u32),
                Ac3SampleRate::Hz32000 => Some(32_000u32),
                Ac3SampleRate::Reserved => None,
            }),
    {
        match self {
            Ac3SampleRate::Hz48000 => Some(48_000),
            Ac3SampleRate::Hz44100 => Some(44_100),
            Ac3SampleRate::Hz32000 => Some(32_000),
            Ac3SampleRate::Reserved => None,
        }
    }
}

/// Audio coding mode carried in the 3-bit `acmod` field.
#[derive(Debug, Clone, Copy, PartialEq, Eq)]
pub enum Ac3AudioCodingMode {
    /// `000` — 1+1 (two independent mono channels).
    DualMono,
    /// `001` — 1/0 (centre only).
    Mono,
    /// `010` — 2/0 (stereo).
    Stereo,
    /// `011` — 3/0.
    ThreeZero,
    /// `100` — 2/1.
    TwoOne,
    /// `101` — 3/1.
    ThreeOne,
    /// `110` — 2/2.
    TwoTwo,
    /// `111` — 3/2.
    ThreeTwo,
}

impl Ac3AudioCodingMode {
    /// Decode from the low three bits of `code`.
    #[verifier::allow_in_spec]
    pub fn from_code(code: u8) -> Self
        returns
            (if code % 8 == 0 {
                Ac3AudioCodingMode::DualMono
            } else if code % 8 == 1 {
                Ac3AudioCodingMode::Mono
            } else if code % 8 == 2 {
                Ac3AudioCodingMode::Stereo
            } else if code % 8 == 3 {
                Ac3AudioCodingMode::ThreeZero
            } else if code % 8 == 4 {
                Ac3AudioCodingMode::TwoOne
            } else if code % 8 == 5 {
                Ac3AudioCodingMode::ThreeOne
            } else if code % 8 == 6 {
                Ac3AudioCodingMode::TwoTwo
            } else {
                Ac3AudioCodingMode::ThreeTwo
            }),
    {
        let c = code % 8;
        if c == 0 {
            Ac3AudioCodingMode::DualMono
        } else if c == 1 {
            Ac3AudioCodingMode::Mono
        } else if c == 2 {
            Ac3AudioCodingMode::Stereo
        } else if c == 3 {
            Ac3AudioCodingMode::ThreeZero
        } else if c == 4 {
            Ac3AudioCodingMode::TwoOne
        } else if c == 5 {
            Ac3AudioCodingMode::ThreeOne
        } else if c == 6 {
            Ac3AudioCodingMode::TwoTwo
        } else {
            Ac3AudioCodingMode::ThreeTwo
        }
    }

    /// The raw 3-bit `acmod` code.
    #[verifier::allow_in_spec]
    pub fn code(self) -> u8
        returns
            (match self {
                Ac3AudioCodingMode::DualMono => 0u8,
                Ac3AudioCodingMode::Mono => 1u8,
                Ac3AudioCodingMode::Stereo => 2u8,
                Ac3AudioCodingMode::ThreeZero => 3u8,
                Ac3AudioCodingMode::TwoOne => 4u8,
                Ac3AudioCodingMode::ThreeOne => 5u8,
                Ac3AudioCodingMode::TwoTwo => 6u8,
                Ac3AudioCodingMode::ThreeTwo => 7u8,
            }),
    {
        match self {
            Ac3AudioCodingMode::DualMono => 0,
            Ac3AudioCodingMode::Mono => 1,
            Ac3AudioCodingMode::Stereo => 2,
            Ac3AudioCodingMode::ThreeZero => 3,
            Ac3AudioCodingMode::TwoOne => 4,
            Ac3AudioCodingMode::ThreeOne => 5,
            Ac3AudioCodingMode::TwoTwo => 6,
            Ac3AudioCodingMode::ThreeTwo => 7,
        }
    }

    /// `nfchans` — full-bandwidth channels, excluding any LFE.
    #[verifier::allow_in_spec]
    pub fn channel_count(self) -> u8
        returns
            (match self {
                Ac3AudioCodingMode::DualMono => 2u8,
                Ac3AudioCodingMode::Mono => 1u8,
                Ac3AudioCodingMode::Stereo => 2u8,
                Ac3AudioCodingMode::ThreeZero => 3u8,
                Ac3AudioCodingMode::TwoOne => 3u8,
                Ac3AudioCodingMode::ThreeOne => 4u8,
                Ac3AudioCodingMode::TwoTwo => 4u8,
                Ac3AudioCodingMode::ThreeTwo => 5u8,
            }),
    {
        match self {
            Ac3AudioCodingMode::DualMono => 2,
            Ac3AudioCodingMode::Mono => 1,
            Ac3AudioCodingMode::Stereo => 2,
            Ac3AudioCodingMode::ThreeZero => 3,
            Ac3AudioCodingMode::TwoOne => 3,
            Ac3AudioCodingMode::ThreeOne => 4,
            Ac3AudioCodingMode::TwoTwo => 4,
            Ac3AudioCodingMode::ThreeTwo => 5,
        }
    }

    /// `true` for the modes with a centre channel (`cmixlev` present):
    /// `acmod` odd and not `001`.
    #[verifier::allow_in_spec]
    pub fn has_center_mix_level(self) -> bool
        returns
            self.code() % 2 == 1 && self.code() != 1,
    {
        let code = self.code();
        code % 2 == 1 && code != 1
    }

    /// `true` for the modes with a surround channel (`surmixlev`
    /// present): `acmod & 0x4`.
    #[verifier::allow_in_spec]
    pub fn has_surround_mix_level(self) -> bool
        returns
            self.code() >= 4,
    {
        self.code() >= 4
    }

    /// `true` only for the `2/0` mode, which carries `dsurmod`.
    #[verifier::allow_in_spec]
    pub fn has_dolby_surround_mode(self) -> bool
        returns
            self.code() == 2,
    {
        self.code() == 2
    }
}

/// Bitstream mode (`bsmod`) — the type of audio service.
#[derive(Debug, Clone, Copy, PartialEq, Eq)]
pub enum Ac3BitstreamMode {
    /// `000` — complete main.
    CompleteMain,
    /// `001` — music and effects.
    MusicAndEffects,
    /// `010` — visually impaired.
    VisuallyImpaired,
    /// `011` — hearing impaired.
    HearingImpaired,
    /// `100` — dialogue.
    Dialogue,
    /// `101` — commentary.
    Commentary,
    /// `110` — emergency.
    Emergency,
    /// `111` — voice-over or karaoke (disambiguated by `acmod`).
    VoiceOverOrKaraoke,
}

impl Ac3BitstreamMode {
    /// Decode from the low three bits of `code`.
    #[verifier::allow_in_spec]
    pub fn from_code(code: u8) -> Self
        returns
            (if code % 8 == 0 {
                Ac3BitstreamMode::CompleteMain
            } else if code % 8 == 1 {
                Ac3BitstreamMode::MusicAndEffects
            } else if code % 8 == 2 {
                Ac3BitstreamMode::VisuallyImpaired
            } else if code % 8 == 3 {
                Ac3BitstreamMode::HearingImpaired
            } else if code % 8 == 4 {
                Ac3BitstreamMode::Dialogue
            } else if code % 8 == 5 {
                Ac3BitstreamMode::Commentary
            } else if code % 8 == 6 {
                Ac3BitstreamMode::Emergency
            } else {
                Ac3BitstreamMode::VoiceOverOrKaraoke
            }),
    {
        let c = code % 8;
        if c == 0 {
            Ac3BitstreamMode::CompleteMain
        } else if c == 1 {
            Ac3BitstreamMode::MusicAndEffects
        } else if c == 2 {
            Ac3BitstreamMode::VisuallyImpaired
        } else if c == 3 {
            Ac3BitstreamMode::HearingImpaired
        } else if c == 4 {
            Ac3BitstreamMode::Dialogue
        } else if c == 5 {
            Ac3BitstreamMode::Commentary
        } else if c == 6 {
            Ac3BitstreamMode::Emergency
        } else {
            Ac3BitstreamMode::VoiceOverOrKaraoke
        }
    }
}

/// Number of defined `frmsizecod` codes (`0..=37`).
pub const FRM_SIZE_CODES: usize = 38;

/// Nominal bit rate (kbps) per `frmsizecod`.
pub const FRM_BITRATE_KBPS: [u16; 38] = [
    32, 32, 40, 40, 48, 48, 56, 56, 64, 64, 80, 80, 96, 96, 112, 112, 128, 128, 160, 160, 192,
    192, 224, 224, 256, 256, 320, 320, 384, 384, 448, 448, 512, 512, 576, 576, 640, 640,
];

/// 16-bit words per sync frame at 32 kHz, per `frmsizecod`.
pub const FRM_WORDS_32K: [u16; 38] = [
    96, 96, 120, 120, 144, 144, 168, 168, 192, 192, 240, 240, 288, 288, 336, 336, 384, 384, 480,
    480, 576, 576, 672, 672, 768, 768, 960, 960, 1152, 1152, 1344, 1344, 1536, 1536, 1728, 1728,
    1920, 1920,
];

/// 16-bit words per sync frame at 44.1 kHz, per `frmsizecod`.
pub const FRM_WORDS_44K: [u16; 38] = [
    69, 70, 87, 88, 104, 105, 121, 122, 139, 140, 174, 175, 208, 209, 243, 244, 278, 279, 348, 349,
    417, 418, 487, 488, 557, 558, 696, 697, 835, 836, 975, 976, 1114, 1115, 1253, 1254, 1393, 1394,
];

/// 16-bit words per sync frame at 48 kHz, per `frmsizecod`.
pub const FRM_WORDS_48K: [u16; 38] = [
    64, 64, 80, 80, 96, 96, 112, 112, 128, 128, 160, 160, 192, 192, 224, 224, 256, 256, 320, 320,
    384, 384, 448, 448, 512, 512, 640, 640, 768, 768, 896, 896, 1024, 1024, 1152, 1152, 1280, 1280,
];

/// Decoded AC-3 sync-frame header.
#[derive(Debug, Clone, Copy, PartialEq, Eq)]
pub struct Ac3Header {
    /// 16-bit CRC over the first 5/8 of the frame (carried, not verified).
    pub crc1: u16,
    /// Decoded sampling rate (`fscod`).
    pub sample_rate: Ac3SampleRate,
    /// Raw 6-bit `frmsizecod`.
    pub frame_size_code: u8,
    /// 5-bit `bsid`.
    pub bsid: u8,
    /// Decoded `bsmod`.
    pub bitstream_mode: Ac3BitstreamMode,
    /// Decoded `acmod`.
    pub audio_coding_mode: Ac3AudioCodingMode,
    /// 2-bit `cmixlev`, present only with a centre channel.
    pub center_mix_level: Option<u8>,
    /// 2-bit `surmixlev`, present only with a surround channel.
    pub surround_mix_level: Option<u8>,
    /// 2-bit `dsurmod`, present only for `2/0`.
    pub dolby_surround_mode: Option<u8>,
    /// `lfeon`.
    pub lfe_on: bool,
}

/// `true` when `frame` starts with the `0x0B77` sync word.
pub open spec fn ac3_sync_ok(frame: Seq<u8>) -> bool {
    frame[0] == 0x0Bu8 && frame[1] == 0x77u8
}

/// The header a well-formed frame `s` (at least 7 bytes, sync word
/// present) decodes to: `crc1` at bytes 2..4, `fscod` / `frmsizecod`
/// in byte 4, then the `bsi()` prefix read MSB-first from bit 40.
pub open spec fn spec_ac3_header(s: Seq<u8>) -> Ac3Header {
    let acmod = Ac3AudioCodingMode::from_code(bits_at(s, 48, 3) as u8);
    let c = acmod.has_center_mix_level();
    let sr = acmod.has_surround_mix_level();
    let d = acmod.has_dolby_surround_mode();
    let p1: int = 51;
    let p2: int = if c { p1 + 2 } else { p1 };
    let p3: int = if sr { p2 + 2 } else { p2 };
    let p4: int = if d { p3 + 2 } else { p3 };
    Ac3Header {
        crc1: (s[2] as int * 256 + s[3] as int) as u16,
        sample_rate: Ac3SampleRate::from_code(s[4] / 64),
        frame_size_code: s[4] % 64,
        bsid: bits_at(s, 40, 5) as u8,
        bitstream_mode: Ac3BitstreamMode::from_code(bits_at(s, 45, 3) as u8),
        audio_coding_mode: acmod,
        center_mix_level: if c { Some(bits_at(s, p1, 2) as u8) } else { None },
        surround_mix_level: if sr { Some(bits_at(s, p2, 2) as u8) } else { None },
        dolby_surround_mode: if d { Some(bits_at(s, p3, 2) as u8) } else { None },
        lfe_on: bits_at(s, p4, 1) != 0,
    }
}

fn read_small(frame: &[u8], pos: usize, n: usize) -> (r: u8)
    requires
        n <= 5,
        pos <= 64,
    ensures
        r as nat == bits_at(frame@, pos as int, n as nat),
{
    proof {
        crate::bits::lemma_bits_at_bound(frame@, pos as int, n as nat);
        crate::bits::lemma_pow2_le(n as nat, 5);
        reveal_with_fuel(crate::bits::pow2, 6);
    }
    read_bits(frame, pos, n) as u8
}

/// The `bsi()` prefix read from whole bytes: `bsid` is the top five bits
/// of byte 5 and `bsmod` its low three; `acmod` is the top three bits of
/// byte 6. In 2/0 mode `dsurmod` follows as bits 4..3 of byte 6 and
/// `lfeon` as bit 2; in 3/2 mode `cmixlev` is bits 4..3, `surmixlev`
/// bits 2..1 and `lfeon` bit 0; in 1/0 mode `lfeon` is bit 4 with no mix
/// levels.
pub proof fn lemma_ac3_bsi_from_bytes(s: Seq<u8>)
    requires
        s.len() >= 7,
    ensures
        spec_ac3_header(s).bsid == s[5] / 8,
        spec_ac3_header(s).bitstream_mode == Ac3BitstreamMode::from_code(s[5] % 8),
        spec_ac3_header(s).audio_coding_mode == Ac3AudioCodingMode::from_code(s[6] / 32),
        s[6] / 32 == 2 ==> spec_ac3_header(s).center_mix_level is None
            && spec_ac3_header(s).surround_mix_level is None
            && spec_ac3_header(s).dolby_surround_mode == Some((s[6] / 8) % 4)
            && (spec_ac3_header(s).lfe_on <==> (s[6] / 4) % 2 == 1),
        s[6] / 32 == 7 ==> spec_ac3_header(s).center_mix_level == Some((s[6] / 8) % 4)
            && spec_ac3_header(s).surround_mix_level == Some((s[6] / 2) % 4)
            && spec_ac3_header(s).dolby_surround_mode is None
            && (spec_ac3_header(s).lfe_on <==> s[6] % 2 == 1),
        s[6] / 32 == 1 ==> spec_ac3_header(s).center_mix_level is None
            && spec_ac3_header(s).surround_mix_level is None
            && spec_ac3_header(s).dolby_surround_mode is None
            && (spec_ac3_header(s).lfe_on <==> (s[6] / 16) % 2 == 1),
{
    lemma_byte_bits(s, 5);
    lemma_byte_bits(s, 6);
    reveal_with_fuel(bits_at, 6);
    let x = s[5];
    let y = s[6];
    assert(bit_at(s, 40) == (x >> 7u8) & 1u8 && bit_at(s, 41) == (x >> 6u8) & 1u8 && bit_at(s, 42)
        == (x >> 5u8) & 1u8 && bit_at(s, 43) == (x >> 4u8) & 1u8 && bit_at(s, 44) == (x >> 3u8) & 1u8
        && bit_at(s, 45) == (x >> 2u8) & 1u8 && bit_at(s, 46) == (x >> 1u8) & 1u8 && bit_at(s, 47)
        == (x >> 0u8) & 1u8);
    assert(bit_at(s, 48) == (y >> 7u8) & 1u8 && bit_at(s, 49) == (y >> 6u8) & 1u8 && bit_at(s, 50)
        == (y >> 5u8) & 1u8 && bit_at(s, 51) == (y >> 4u8) & 1u8 && bit_at(s, 52) == (y >> 3u8) & 1u8
        && bit_at(s, 53) == (y >> 2u8) & 1u8 && bit_at(s, 54) == (y >> 1u8) & 1u8 && bit_at(s, 55)
        == (y >> 0u8) & 1u8);
    assert({
        &&& x / 8 == ((x >> 7u8) & 1u8) * 16 + ((x >> 6u8) & 1u8) * 8 + ((x >> 5u8) & 1u8) * 4 + ((x
            >> 4u8) & 1u8) * 2 + ((x >> 3u8) & 1u8)
        &&& x % 8 == ((x >> 2u8) & 1u8) * 4 + ((x >> 1u8) & 1u8) * 2 + ((x >> 0u8) & 1u8)
        &&& y / 32 == ((y >> 7u8) & 1u8) * 4 + ((y >> 6u8) & 1u8) * 2 + ((y >> 5u8) & 1u8)
        &&& (y / 8) % 4 == ((y >> 4u8) & 1u8) * 2 + ((y >> 3u8) & 1u8)
        &&& (y / 2) % 4 == ((y >> 2u8) & 1u8) * 2 + ((y >> 1u8) & 1u8)
        &&& (y / 4) % 2 == (y >> 2u8) & 1u8
        &&& (y / 16) % 2 == (y >> 4u8) & 1u8
        &&& y % 2 == (y >> 0u8) & 1u8
    }) by (bit_vector);
    assert(Ac3AudioCodingMode::from_code(2).code() == 2);
    assert(Ac3AudioCodingMode::from_code(7).code() == 7);
    assert(Ac3AudioCodingMode::from_code(1).code() == 1);
}

impl Ac3Header {
    /// Decode an AC-3 sync-frame header from the start of `frame`.
    ///
    /// Fails with `InvalidUdf` when `frame` is shorter than 7 bytes or
    /// does not start with the `0x0B77` sync word.
    pub fn parse(frame: &[u8]) -> (r: Result<Self>)
        ensures
            r is Err <==> (frame@.len() < 7 || !ac3_sync_ok(frame@)),
            r matches Err(e) ==> e is InvalidUdf,
            r matches Ok(h) ==> h == spec_ac3_header(frame@),
    {
        if frame.len() < 7 {
            return Err(Error::InvalidUdf("AC-3 sync frame truncated (< 7 bytes)"));
        }
        if !(frame[0] == 0x0B && frame[1] == 0x77) {
            return Err(Error::InvalidUdf("AC-3 sync frame: sync word is not 0x0B77"));
        }
        let crc1: u16 = frame[2] as u16 * 256 + frame[3] as u16;
        let byte4 = frame[4];
        let sample_rate = Ac3SampleRate::from_code(byte4 / 64);
        let frame_size_code = byte4 % 64;
        let bsid = read_small(frame, 40, 5);
        let bitstream_mode = Ac3BitstreamMode::from_code(read_small(frame, 45, 3));
        let audio_coding_mode = Ac3AudioCodingMode::from_code(read_small(frame, 48, 3));
        let mut pos: usize = 51;
        let center_mix_level = if audio_coding_mode.has_center_mix_level() {
            let v = read_small(frame, pos, 2);
            pos = pos + 2;
            Some(v)
        } else {
            None
        };
        let surround_mix_level = if audio_coding_mode.has_surround_mix_level() {
            let v = read_small(frame, pos, 2);
            pos = pos + 2;
            Some(v)
        } else {
            None
        };
        let dolby_surround_mode = if audio_coding_mode.has_dolby_surround_mode() {
            let v = read_small(frame, pos, 2);
            pos = pos + 2;
            Some(v)
        } else {
            None
        };
        let lfe_on = read_small(frame, pos, 1) != 0;
        Ok(Ac3Header {
            crc1,
            sample_rate,
            frame_size_code,
            bsid,
            bitstream_mode,
            audio_coding_mode,
            center_mix_level,
            surround_mix_level,
            dolby_surround_mode,
            lfe_on,
        })
    }

    /// Sample rate in Hz; `None` when `fscod` is reserved.
    pub fn sample_rate_hz(self) -> (r: Option<u32>)
        ensures
            r == self.sample_rate.hz(),
    {
        self.sample_rate.hz()
    }

    /// Nominal bit rate in kbps from the `frmsizecod` table; `None` for
    /// the reserved codes (`>= 38`).
    pub fn nominal_bitrate_kbps(self) -> (r: Option<u16>)
        ensures
            r == (if (self.frame_size_code as int) < 38 {
                Some(FRM_BITRATE_KBPS@[self.frame_size_code as int])
            } else {
                None
            }),
    {
        if (self.frame_size_code as usize) < FRM_SIZE_CODES {
            Some(FRM_BITRATE_KBPS[self.frame_size_code as usize])
        } else {
            None
        }
    }

    /// Sync-frame size in 16-bit words, selected by the sample rate;
    /// `None` for a reserved `frmsizecod` or a reserved `fscod`.
    pub fn frame_size_words(self) -> (r: Option<u16>)
        ensures
            r == spec_frame_size_words(self),
    {
        let i = self.frame_size_code as usize;
        if i >= FRM_SIZE_CODES {
            return None;
        }
        match self.sample_rate {
            Ac3SampleRate::Hz32000 => Some(FRM_WORDS_32K[i]),
            Ac3SampleRate::Hz44100 => Some(FRM_WORDS_44K[i]),
            Ac3SampleRate::Hz48000 => Some(FRM_WORDS_48K[i]),
            Ac3SampleRate::Reserved => None,
        }
    }

    /// Sync-frame size in bytes (`frame_size_words × 2`).
    pub fn frame_size_bytes(self) -> (r: Option<u32>)
        ensures
            r == (match spec_frame_size_words(self) {
                Some(w) => Some((w as u32 * 2) as u32),
                None => None,
            }),
    {
        match self.frame_size_words() {
            Some(w) => Some(w as u32 * 2),
            None => None,
        }
    }

    /// Total channel count including the LFE channel (`nfchans + lfeon`).
    pub fn total_channel_count(self) -> (r: u8)
        ensures
            r == self.audio_coding_mode.channel_count() + (if self.lfe_on { 1u8 } else { 0u8 }),
    {
        self.audio_coding_mode.channel_count() + if self.lfe_on { 1u8 } else { 0u8 }
    }
}

/// Frame size in words for `h`, by `frmsizecod` row and sample-rate column.
pub open spec fn spec_frame_size_words(h: Ac3Header) -> Option<u16> {
    let i = h.frame_size_code as int;
    if i >= 38 {
        None
    } else {
        match h.sample_rate {
            Ac3SampleRate::Hz32000 => Some(FRM_WORDS_32K@[i]),
            Ac3SampleRate::Hz44100 => Some(FRM_WORDS_44K@[i]),
            Ac3SampleRate::Hz48000 => Some(FRM_WORDS_48K@[i]),
            Ac3SampleRate::Reserved => None,
        }
    }
}

} // verus!
