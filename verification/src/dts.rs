//! DTS Coherent Acoustics core frame-header decoder (the first 10
//! bytes of a core sync frame).

use vstd::prelude::*;

use crate::bits::{bit_at, bits_at, read_bits};
use crate::error::{Error, Result};

verus! {

/// DTS core sync word — the big-endian `0x7FFE8001`.
pub const DTS_SYNC_WORD: u32 = 0x7FFE_8001;

/// Frame type carried in the 1-bit `ftype` field.
#[derive(Debug, Clone, Copy, PartialEq, Eq)]
pub enum DtsFrameType {
    /// `ftype = 1` — a normal frame.
    Normal,
    /// `ftype = 0` — a termination frame.
    Termination,
}

/// Audio channel arrangement carried in the 6-bit `amode` field.
#[derive(Debug, Clone, Copy, PartialEq, Eq)]
pub enum DtsAudioMode {
    /// `0x00` — mono.
    Mono,
    /// `0x01` — dual mono.
    DualMono,
    /// `0x02` — stereo.
    Stereo,
    /// `0x03` — sum / difference.
    SumDifference,
    /// `0x04` — left / right total.
    LeftRightTotal,
    /// `0x05` — C + L + R.
    ThreeChannel,
    /// `0x06` — L + R + S.
    StereoSurround,
    /// `0x07` — C + L + R + S.
    ThreeOneSurround,
    /// `0x08` — L + R + SL + SR.
    QuadSurround,
    /// `0x09` — C + L + R + SL + SR.
    FiveChannel,
    /// `0x0A` — CL + CR + L + R + SL + SR.
    SixChannelA,
    /// `0x0B` — C + L + R + LR + RR + OV.
    SixChannelB,
    /// `0x0C` — CF + CR + LF + RF + LR + RR.
    SixChannelC,
    /// `0x0D` — 7 channels.
    SevenChannel,
    /// `0x0E` — 8 channels (A).
    EightChannelA,
    /// `0x0F` — 8 channels (B).
    EightChannelB,
    /// `0x10..=0x3F` — user-defined arrangement (raw code preserved).
    UserDefined(u8),
}

impl DtsAudioMode {
    /// Decode from the low six bits of `code`.
    #[verifier::allow_in_spec]
    pub fn from_code(code: u8) -> Self
        returns
            (match code % 64 {
                0u8 => DtsAudioMode::Mono,
                1u8 => DtsAudioMode::DualMono,
                2u8 => DtsAudioMode::Stereo,
                3u8 => DtsAudioMode::SumDifference,
                4u8 => DtsAudioMode::LeftRightTotal,
                5u8 => DtsAudioMode::ThreeChannel,
                6u8 => DtsAudioMode::StereoSurround,
                7u8 => DtsAudioMode::ThreeOneSurround,
                8u8 => DtsAudioMode::QuadSurround,
                9u8 => DtsAudioMode::FiveChannel,
                10u8 => DtsAudioMode::SixChannelA,
                11u8 => DtsAudioMode::SixChannelB,
                12u8 => DtsAudioMode::SixChannelC,
                13u8 => DtsAudioMode::SevenChannel,
                14u8 => DtsAudioMode::EightChannelA,
                15u8 => DtsAudioMode::EightChannelB,
                other => DtsAudioMode::UserDefined(other),
            }),
    {
        match code % 64 {
            0 => DtsAudioMode::Mono,
            1 => DtsAudioMode::DualMono,
            2 => DtsAudioMode::Stereo,
            3 => DtsAudioMode::SumDifference,
            4 => DtsAudioMode::LeftRightTotal,
            5 => DtsAudioMode::ThreeChannel,
            6 => DtsAudioMode::StereoSurround,
            7 => DtsAudioMode::ThreeOneSurround,
            8 => DtsAudioMode::QuadSurround,
            9 => DtsAudioMode::FiveChannel,
            10 => DtsAudioMode::SixChannelA,
            11 => DtsAudioMode::SixChannelB,
            12 => DtsAudioMode::SixChannelC,
            13 => DtsAudioMode::SevenChannel,
            14 => DtsAudioMode::EightChannelA,
            15 => DtsAudioMode::EightChannelB,
            other => DtsAudioMode::UserDefined(other),
        }
    }

    /// The raw 6-bit `amode` code.
    #[verifier::allow_in_spec]
    pub fn code(self) -> u8
        returns
            (match self {
                DtsAudioMode::Mono => 0u8,
                DtsAudioMode::DualMono => 1u8,
                DtsAudioMode::Stereo => 2u8,
                DtsAudioMode::SumDifference => 3u8,
                DtsAudioMode::LeftRightTotal => 4u8,
                DtsAudioMode::ThreeChannel => 5u8,
                DtsAudioMode::StereoSurround => 6u8,
                DtsAudioMode::ThreeOneSurround => 7u8,
                DtsAudioMode::QuadSurround => 8u8,
                DtsAudioMode::FiveChannel => 9u8,
                DtsAudioMode::SixChannelA => 10u8,
                DtsAudioMode::SixChannelB => 11u8,
                DtsAudioMode::SixChannelC => 12u8,
                DtsAudioMode::SevenChannel => 13u8,
                DtsAudioMode::EightChannelA => 14u8,
                DtsAudioMode::EightChannelB => 15u8,
                DtsAudioMode::UserDefined(c) => c,
            }),
    {
        match self {
            DtsAudioMode::Mono => 0,
            DtsAudioMode::DualMono => 1,
            DtsAudioMode::Stereo => 2,
            DtsAudioMode::SumDifference => 3,
            DtsAudioMode::LeftRightTotal => 4,
            DtsAudioMode::ThreeChannel => 5,
            DtsAudioMode::StereoSurround => 6,
            DtsAudioMode::ThreeOneSurround => 7,
            DtsAudioMode::QuadSurround => 8,
            DtsAudioMode::FiveChannel => 9,
            DtsAudioMode::SixChannelA => 10,
            DtsAudioMode::SixChannelB => 11,
            DtsAudioMode::SixChannelC => 12,
            DtsAudioMode::SevenChannel => 13,
            DtsAudioMode::EightChannelA => 14,
            DtsAudioMode::EightChannelB => 15,
            DtsAudioMode::UserDefined(c) => c,
        }
    }

    /// Number of channels; `None` for a user-defined arrangement.
    #[verifier::allow_in_spec]
    pub fn channel_count(self) -> Option<u8>
        returns
            (match self {
                DtsAudioMode::Mono => Some(1u8),
                DtsAudioMode::DualMono | DtsAudioMode::Stereo | DtsAudioMode::SumDifference
                | DtsAudioMode::LeftRightTotal => Some(2u8),
                DtsAudioMode::ThreeChannel | DtsAudioMode::StereoSurround => Some(3u8),
                DtsAudioMode::ThreeOneSurround | DtsAudioMode::QuadSurround => Some(4u8),
                DtsAudioMode::FiveChannel => Some(5u8),
                DtsAudioMode::SixChannelA | DtsAudioMode::SixChannelB
                | DtsAudioMode::SixChannelC => Some(6u8),
                DtsAudioMode::SevenChannel => Some(7u8),
                DtsAudioMode::EightChannelA | DtsAudioMode::EightChannelB => Some(8u8),
                DtsAudioMode::UserDefined(_) => None,
            }),
    {
        match self {
            DtsAudioMode::Mono => Some(1),
            DtsAudioMode::DualMono | DtsAudioMode::Stereo | DtsAudioMode::SumDifference
            | DtsAudioMode::LeftRightTotal => Some(2),
            DtsAudioMode::ThreeChannel | DtsAudioMode::StereoSurround => Some(3),
            DtsAudioMode::ThreeOneSurround | DtsAudioMode::QuadSurround => Some(4),
            DtsAudioMode::FiveChannel => Some(5),
            DtsAudioMode::SixChannelA | DtsAudioMode::SixChannelB
            | DtsAudioMode::SixChannelC => Some(6),
            DtsAudioMode::SevenChannel => Some(7),
            DtsAudioMode::EightChannelA | DtsAudioMode::EightChannelB => Some(8),
            DtsAudioMode::UserDefined(_) => None,
        }
    }
}

/// Audio sampling rate carried in the 4-bit `sfreq` field.
#[derive(Debug, Clone, Copy, PartialEq, Eq)]
pub enum DtsSampleRate {
    /// `0x1` — 8 kHz.
    Hz8000,
    /// `0x2` — 16 kHz.
    Hz16000,
    /// `0x3` — 32 kHz.
    Hz32000,
    /// `0x6` — 11025 Hz.
    Hz11025,
    /// `0x7` — 22050 Hz.
    Hz22050,
    /// `0x8` — 44100 Hz.
    Hz44100,
    /// `0xB` — 12 kHz.
    Hz12000,
    /// `0xC` — 24 kHz.
    Hz24000,
    /// `0xD` — 48 kHz.
    Hz48000,
    /// Any reserved code (`0`, `4`, `5`, `9`, `A`, `E`, `F`).
    Invalid,
}

impl DtsSampleRate {
    /// Decode from the low four bits of `code`.
    #[verifier::allow_in_spec]
    pub fn from_code(code: u8) -> Self
        returns
            (match code % 16 {
                1u8 => DtsSampleRate::Hz8000,
                2u8 => DtsSampleRate::Hz16000,
                3u8 => DtsSampleRate::Hz32000,
                6u8 => DtsSampleRate::Hz11025,
                7u8 => DtsSampleRate::Hz22050,
                8u8 => DtsSampleRate::Hz44100,
                11u8 => DtsSampleRate::Hz12000,
                12u8 => DtsSampleRate::Hz24000,
                13u8 => DtsSampleRate::Hz48000,
                _ => DtsSampleRate::Invalid,
            }),
    {
        match code % 16 {
            1 => DtsSampleRate::Hz8000,
            2 => DtsSampleRate::Hz16000,
            3 => DtsSampleRate::Hz32000,
            6 => DtsSampleRate::Hz11025,
            7 => DtsSampleRate::Hz22050,
            8 => DtsSampleRate::Hz44100,
            11 => DtsSampleRate::Hz12000,
            12 => DtsSampleRate::Hz24000,
            13 => DtsSampleRate::Hz48000,
            _ => DtsSampleRate::Invalid,
        }
    }

    /// Sample rate in Hz; `None` for `Invalid`.
    #[verifier::allow_in_spec]
    pub fn hz(self) -> Option<u32>
        returns
            (match self {
                DtsSampleRate::Hz8000 => Some(8_000u32),
                DtsSampleRate::Hz16000 => Some(16_000u32),
                DtsSampleRate::Hz32000 => Some(32_000u32),
                DtsSampleRate::Hz11025 => Some(11_025u32),
                DtsSampleRate::Hz22050 => Some(22_050u32),
                DtsSampleRate::Hz44100 => Some(44_100u32),
                DtsSampleRate::Hz12000 => Some(12_000u32),
                DtsSampleRate::Hz24000 => Some(24_000u32),
                DtsSampleRate::Hz48000 => Some(48_000u32),
                DtsSampleRate::Invalid => None,
            }),
    {
        match self {
            DtsSampleRate::Hz8000 => Some(8_000),
            DtsSampleRate::Hz16000 => Some(16_000),
            DtsSampleRate::Hz32000 => Some(32_000),
            DtsSampleRate::Hz11025 => Some(11_025),
            DtsSampleRate::Hz22050 => Some(22_050),
            DtsSampleRate::Hz44100 => Some(44_100),
            DtsSampleRate::Hz12000 => Some(12_000),
            DtsSampleRate::Hz24000 => Some(24_000),
            DtsSampleRate::Hz48000 => Some(48_000),
            DtsSampleRate::Invalid => None,
        }
    }
}

/// The 5-bit `rate` targeted-bit-rate code.
#[derive(Debug, Clone, Copy, PartialEq, Eq)]
pub enum DtsBitRate {
    /// `0x0F` — 768 kbps.
    Kbps768,
    /// `0x18` — 1536 kbps.
    Kbps1536,
    /// Any other code (raw 5-bit value preserved).
    Other(u8),
}

impl DtsBitRate {
    /// Decode from the low five bits of `code`.
    #[verifier::allow_in_spec]
    pub fn from_code(code: u8) -> Self
        returns
            (match code % 32 {
                15u8 => DtsBitRate::Kbps768,
                24u8 => DtsBitRate::Kbps1536,
                other => DtsBitRate::Other(other),
            }),
    {
        match code % 32 {
            15 => DtsBitRate::Kbps768,
            24 => DtsBitRate::Kbps1536,
            other => DtsBitRate::Other(other),
        }
    }

    /// The raw 5-bit `rate` code.
    #[verifier::allow_in_spec]
    pub fn code(self) -> u8
        returns
            (match self {
                DtsBitRate::Kbps768 => 15u8,
                DtsBitRate::Kbps1536 => 24u8,
                DtsBitRate::Other(c) => c,
            }),
    {
        match self {
            DtsBitRate::Kbps768 => 15,
            DtsBitRate::Kbps1536 => 24,
            DtsBitRate::Other(c) => c,
        }
    }

    /// Targeted bit rate in kbps for the two DVD-Video codes.
    #[verifier::allow_in_spec]
    pub fn targeted_kbps(self) -> Option<u16>
        returns
            (match self {
                DtsBitRate::Kbps768 => Some(768u16),
                DtsBitRate::Kbps1536 => Some(1536u16),
                DtsBitRate::Other(_) => None,
            }),
    {
        match self {
            DtsBitRate::Kbps768 => Some(768),
            DtsBitRate::Kbps1536 => Some(1536),
            DtsBitRate::Other(_) => None,
        }
    }
}

/// Decoded DTS core frame header.
#[derive(Debug, Clone, Copy, PartialEq, Eq)]
pub struct DtsHeader {
    /// `ftype`.
    pub frame_type: DtsFrameType,
    /// Raw 5-bit `short`.
    pub short: u8,
    /// `cpf`.
    pub crc_present: bool,
    /// Raw 7-bit `nblks` (block count minus one).
    pub nblks: u8,
    /// Raw 14-bit `fsize` (frame bytes minus one).
    pub fsize: u16,
    /// Decoded `amode`.
    pub audio_mode: DtsAudioMode,
    /// Decoded `sfreq`.
    pub sample_rate: DtsSampleRate,
    /// Decoded `rate`.
    pub bit_rate: DtsBitRate,
    /// `mix`.
    pub mix: bool,
    /// `dynf`.
    pub dynamic_range: bool,
    /// `timef`.
    pub time_stamp: bool,
    /// `auxf`.
    pub aux_data: bool,
    /// `hdcd`.
    pub hdcd: bool,
}

/// `true` when `frame` starts with `7F FE 80 01`.
pub open spec fn dts_sync_ok(frame: Seq<u8>) -> bool {
    frame[0] == 0x7Fu8 && frame[1] == 0xFEu8 && frame[2] == 0x80u8 && frame[3] == 0x01u8
}

/// The header a well-formed frame decodes to: the bit fields read
/// MSB-first from bit 32 (right after the sync word).
pub open spec fn spec_dts_header(s: Seq<u8>) -> DtsHeader {
    DtsHeader {
        frame_type: if bits_at(s, 32, 1) != 0 {
            DtsFrameType::Normal
        } else {
            DtsFrameType::Termination
        },
        short: bits_at(s, 33, 5) as u8,
        crc_present: bits_at(s, 38, 1) != 0,
        nblks: bits_at(s, 39, 7) as u8,
        fsize: bits_at(s, 46, 14) as u16,
        audio_mode: DtsAudioMode::from_code(bits_at(s, 60, 6) as u8),
        sample_rate: DtsSampleRate::from_code(bits_at(s, 66, 4) as u8),
        bit_rate: DtsBitRate::from_code(bits_at(s, 70, 5) as u8),
        mix: bits_at(s, 75, 1) != 0,
        dynamic_range: bits_at(s, 76, 1) != 0,
        time_stamp: bits_at(s, 77, 1) != 0,
        aux_data: bits_at(s, 78, 1) != 0,
        hdcd: bits_at(s, 79, 1) != 0,
    }
}

fn field(frame: &[u8], pos: usize, n: usize) -> (r: u32)
    requires
        1 <= n <= 14,
        pos <= 80,
    ensures
        r as nat == bits_at(frame@, pos as int, n as nat),
        r < 0x4000,
{
    proof {
        crate::bits::lemma_bits_at_bound(frame@, pos as int, n as nat);
        crate::bits::lemma_pow2_le(n as nat, 14);
        reveal_with_fuel(crate::bits::pow2, 15);
    }
    read_bits(frame, pos, n)
}

/// The header fields read from whole bytes after the sync word (byte 4
/// on): `ftype` is the top bit of byte 4, `short` its bits 6..2, `cpf` bit
/// 1; `nblks` is byte 4's low bit then byte 5's top six; `fsize` byte 5's
/// low two bits, byte 6 and byte 7's top four; `amode` byte 7's low four
/// and byte 8's top two; `sfreq` byte 8's bits 5..2; `rate` byte 8's low
/// two and byte 9's top three; then `mix`, `dynf`, `timef`, `auxf` and
/// `hdcd` are byte 9's bits 4..0.
pub proof fn lemma_dts_header_from_bytes(s: Seq<u8>)
    requires
        s.len() >= 10,
    ensures
        (spec_dts_header(s).frame_type == DtsFrameType::Normal) <==> s[4] / 128 == 1,
        spec_dts_header(s).short == (s[4] / 4) % 32,
        spec_dts_header(s).crc_present <==> (s[4] / 2) % 2 == 1,
        spec_dts_header(s).nblks == (s[4] % 2) as int * 64 + s[5] as int / 4,
        spec_dts_header(s).fsize == (s[5] % 4) as int * 4096 + s[6] as int * 16 + s[7] as int / 16,
        spec_dts_header(s).audio_mode == DtsAudioMode::from_code(((s[7] % 16) as int * 4 + s[8] as int / 64) as u8),
        spec_dts_header(s).sample_rate == DtsSampleRate::from_code((s[8] / 4) % 16),
        spec_dts_header(s).bit_rate == DtsBitRate::from_code(((s[8] % 4) as int * 8 + s[9] as int / 32) as u8),
        spec_dts_header(s).mix <==> (s[9] / 16) % 2 == 1,
        spec_dts_header(s).dynamic_range <==> (s[9] / 8) % 2 == 1,
        spec_dts_header(s).time_stamp <==> (s[9] / 4) % 2 == 1,
        spec_dts_header(s).aux_data <==> (s[9] / 2) % 2 == 1,
        spec_dts_header(s).hdcd <==> s[9] % 2 == 1,
{
    let s4 = s[4];
    let s5 = s[5];
    let s6 = s[6];
    let s7 = s[7];
    let s8 = s[8];
    let s9 = s[9];
    reveal_with_fuel(bits_at, 15);
    assert(bit_at(s, 32) == ((s4 >> 7u8) & 1u8));
    assert(bit_at(s, 33) == ((s4 >> 6u8) & 1u8));
    assert(bit_at(s, 34) == ((s4 >> 5u8) & 1u8));
    assert(bit_at(s, 35) == ((s4 >> 4u8) & 1u8));
    assert(bit_at(s, 36) == ((s4 >> 3u8) & 1u8));
    assert(bit_at(s, 37) == ((s4 >> 2u8) & 1u8));
    assert(bit_at(s, 38) == ((s4 >> 1u8) & 1u8));
    assert(bit_at(s, 39) == ((s4 >> 0u8) & 1u8));
    assert(bit_at(s, 40) == ((s5 >> 7u8) & 1u8));
    assert(bit_at(s, 41) == ((s5 >> 6u8) & 1u8));
    assert(bit_at(s, 42) == ((s5 >> 5u8) & 1u8));
    assert(bit_at(s, 43) == ((s5 >> 4u8) & 1u8));
    assert(bit_at(s, 44) == ((s5 >> 3u8) & 1u8));
    assert(bit_at(s, 45) == ((s5 >> 2u8) & 1u8));
    assert(bit_at(s, 46) == ((s5 >> 1u8) & 1u8));
    assert(bit_at(s, 47) == ((s5 >> 0u8) & 1u8));
    assert(bit_at(s, 48) == ((s6 >> 7u8) & 1u8));
    assert(bit_at(s, 49) == ((s6 >> 6u8) & 1u8));
    assert(bit_at(s, 50) == ((s6 >> 5u8) & 1u8));
    assert(bit_at(s, 51) == ((s6 >> 4u8) & 1u8));
    assert(bit_at(s, 52) == ((s6 >> 3u8) & 1u8));
    assert(bit_at(s, 53) == ((s6 >> 2u8) & 1u8));
    assert(bit_at(s, 54) == ((s6 >> 1u8) & 1u8));
    assert(bit_at(s, 55) == ((s6 >> 0u8) & 1u8));
    assert(bit_at(s, 56) == ((s7 >> 7u8) & 1u8));
    assert(bit_at(s, 57) == ((s7 >> 6u8) & 1u8));
    assert(bit_at(s, 58) == ((s7 >> 5u8) & 1u8));
    assert(bit_at(s, 59) == ((s7 >> 4u8) & 1u8));
    assert(bit_at(s, 60) == ((s7 >> 3u8) & 1u8));
    assert(bit_at(s, 61) == ((s7 >> 2u8) & 1u8));
    assert(bit_at(s, 62) == ((s7 >> 1u8) & 1u8));
    assert(bit_at(s, 63) == ((s7 >> 0u8) & 1u8));
    assert(bit_at(s, 64) == ((s8 >> 7u8) & 1u8));
    assert(bit_at(s, 65) == ((s8 >> 6u8) & 1u8));
    assert(bit_at(s, 66) == ((s8 >> 5u8) & 1u8));
    assert(bit_at(s, 67) == ((s8 >> 4u8) & 1u8));
    assert(bit_at(s, 68) == ((s8 >> 3u8) & 1u8));
    assert(bit_at(s, 69) == ((s8 >> 2u8) & 1u8));
    assert(bit_at(s, 70) == ((s8 >> 1u8) & 1u8));
    assert(bit_at(s, 71) == ((s8 >> 0u8) & 1u8));
    assert(bit_at(s, 72) == ((s9 >> 7u8) & 1u8));
    assert(bit_at(s, 73) == ((s9 >> 6u8) & 1u8));
    assert(bit_at(s, 74) == ((s9 >> 5u8) & 1u8));
    assert(bit_at(s, 75) == ((s9 >> 4u8) & 1u8));
    assert(bit_at(s, 76) == ((s9 >> 3u8) & 1u8));
    assert(bit_at(s, 77) == ((s9 >> 2u8) & 1u8));
    assert(bit_at(s, 78) == ((s9 >> 1u8) & 1u8));
    assert(bit_at(s, 79) == ((s9 >> 0u8) & 1u8));
    assert({
        &&& s4 / 128 == ((s4 >> 7u8) & 1u8) * 1
        &&& (s4 / 4) % 32 == ((s4 >> 6u8) & 1u8) * 16 + ((s4 >> 5u8) & 1u8) * 8 + ((s4 >> 4u8) & 1u8) * 4 + ((s4 >> 3u8) & 1u8) * 2 + ((s4 >> 2u8) & 1u8) * 1
        &&& (s4 / 2) % 2 == ((s4 >> 1u8) & 1u8) * 1
        &&& s4 % 2 == ((s4 >> 0u8) & 1u8) * 1
        &&& s5 / 4 == ((s5 >> 7u8) & 1u8) * 32 + ((s5 >> 6u8) & 1u8) * 16 + ((s5 >> 5u8) & 1u8) * 8 + ((s5 >> 4u8) & 1u8) * 4 + ((s5 >> 3u8) & 1u8) * 2 + ((s5 >> 2u8) & 1u8) * 1
        &&& s5 % 4 == ((s5 >> 1u8) & 1u8) * 2 + ((s5 >> 0u8) & 1u8) * 1
        &&& s6 == ((s6 >> 7u8) & 1u8) * 128 + ((s6 >> 6u8) & 1u8) * 64 + ((s6 >> 5u8) & 1u8) * 32 + ((s6 >> 4u8) & 1u8) * 16 + ((s6 >> 3u8) & 1u8) * 8 + ((s6 >> 2u8) & 1u8) * 4 + ((s6 >> 1u8) & 1u8) * 2 + ((s6 >> 0u8) & 1u8) * 1
        &&& s7 / 16 == ((s7 >> 7u8) & 1u8) * 8 + ((s7 >> 6u8) & 1u8) * 4 + ((s7 >> 5u8) & 1u8) * 2 + ((s7 >> 4u8) & 1u8) * 1
        &&& s7 % 16 == ((s7 >> 3u8) & 1u8) * 8 + ((s7 >> 2u8) & 1u8) * 4 + ((s7 >> 1u8) & 1u8) * 2 + ((s7 >> 0u8) & 1u8) * 1
        &&& s8 / 64 == ((s8 >> 7u8) & 1u8) * 2 + ((s8 >> 6u8) & 1u8) * 1
        &&& (s8 / 4) % 16 == ((s8 >> 5u8) & 1u8) * 8 + ((s8 >> 4u8) & 1u8) * 4 + ((s8 >> 3u8) & 1u8) * 2 + ((s8 >> 2u8) & 1u8) * 1
        &&& s8 % 4 == ((s8 >> 1u8) & 1u8) * 2 + ((s8 >> 0u8) & 1u8) * 1
        &&& s9 / 32 == ((s9 >> 7u8) & 1u8) * 4 + ((s9 >> 6u8) & 1u8) * 2 + ((s9 >> 5u8) & 1u8) * 1
        &&& (s9 / 16) % 2 == ((s9 >> 4u8) & 1u8) * 1
        &&& (s9 / 8) % 2 == ((s9 >> 3u8) & 1u8) * 1
        &&& (s9 / 4) % 2 == ((s9 >> 2u8) & 1u8) * 1
        &&& (s9 / 2) % 2 == ((s9 >> 1u8) & 1u8) * 1
        &&& s9 % 2 == ((s9 >> 0u8) & 1u8) * 1
    }) by (bit_vector);
}

impl DtsHeader {
    /// Decode a DTS core frame header from the start of `frame`.
    ///
    /// Fails with `InvalidUdf` when `frame` is shorter than 10 bytes or
    /// does not start with the `0x7FFE8001` sync word.
    pub fn parse(frame: &[u8]) -> (r: Result<Self>)
        ensures
            r is Err <==> (frame@.len() < 10 || !dts_sync_ok(frame@)),
            r matches Err(e) ==> e is InvalidUdf,
            r matches Ok(h) ==> h == spec_dts_header(frame@),
    {
        if frame.len() < 10 {
            return Err(Error::InvalidUdf("DTS core frame truncated (< 10 bytes)"));
        }
        if !(frame[0] == 0x7F && frame[1] == 0xFE && frame[2] == 0x80 && frame[3] == 0x01) {
            return Err(Error::InvalidUdf("DTS core frame: sync word is not 0x7FFE8001"));
        }
        let frame_type = if field(frame, 32, 1) != 0 {
            DtsFrameType::Normal
        } else {
            DtsFrameType::Termination
        };
        let short = field(frame, 33, 5);
        let crc_present = field(frame, 38, 1) != 0;
        let nblks = field(frame, 39, 7);
        let fsize = field(frame, 46, 14);
        let amode = field(frame, 60, 6);
        let sfreq = field(frame, 66, 4);
        let rate = field(frame, 70, 5);
        proof {
            crate::bits::lemma_bits_at_bound(frame@, 33, 5);
            crate::bits::lemma_bits_at_bound(frame@, 39, 7);
            crate::bits::lemma_bits_at_bound(frame@, 60, 6);
            crate::bits::lemma_bits_at_bound(frame@, 66, 4);
            crate::bits::lemma_bits_at_bound(frame@, 70, 5);
            reveal_with_fuel(crate::bits::pow2, 8);
        }
        Ok(DtsHeader {
            frame_type,
            short: short as u8,
            crc_present,
            nblks: nblks as u8,
            fsize: fsize as u16,
            audio_mode: DtsAudioMode::from_code(amode as u8),
            sample_rate: DtsSampleRate::from_code(sfreq as u8),
            bit_rate: DtsBitRate::from_code(rate as u8),
            mix: field(frame, 75, 1) != 0,
            dynamic_range: field(frame, 76, 1) != 0,
            time_stamp: field(frame, 77, 1) != 0,
            aux_data: field(frame, 78, 1) != 0,
            hdcd: field(frame, 79, 1) != 0,
        })
    }

    /// Frame size in bytes (`fsize + 1`).
    pub fn frame_size_bytes(self) -> (r: u32)
        ensures
            r == self.fsize as u32 + 1,
    {
        self.fsize as u32 + 1
    }

    /// Number of 32-sample core blocks (`nblks + 1`).
    pub fn sample_block_count(self) -> (r: u16)
        ensures
            r == self.nblks as u16 + 1,
    {
        self.nblks as u16 + 1
    }

    /// PCM samples per channel carried by the frame (`blocks × 32`).
    pub fn sample_count(self) -> (r: u32)
        ensures
            r == (self.nblks as u32 + 1) * 32,
    {
        self.sample_block_count() as u32 * 32
    }

    /// Sample rate in Hz; `None` when `sfreq` is reserved.
    pub fn sample_rate_hz(self) -> (r: Option<u32>)
        ensures
            r == self.sample_rate.hz(),
    {
        self.sample_rate.hz()
    }

    /// Channel count; `None` for a user-defined `amode`.
    pub fn channel_count(self) -> (r: Option<u8>)
        ensures
            r == self.audio_mode.channel_count(),
    {
        self.audio_mode.channel_count()
    }

    /// Targeted bit rate in kbps; `None` for codes other than the two
    /// DVD-Video ones.
    pub fn targeted_bitrate_kbps(self) -> (r: Option<u16>)
        ensures
            r == self.bit_rate.targeted_kbps(),
    {
        self.bit_rate.targeted_kbps()
    }
}

} // verus!
