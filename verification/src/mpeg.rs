//! MPEG-1/2 video elementary-stream header decoders: the Sequence
//! Header (`00 00 01 B3`) and the Sequence Extension (`00 00 01 B5`,
//! extension id `0001`).

use vstd::prelude::*;

use crate::error::{Error, Result};

verus! {

/// `0x00` — picture start code.
pub const SC_PICTURE: u8 = 0x00;
/// `0xB3` — sequence header start code.
pub const SC_SEQUENCE_HEADER: u8 = 0xB3;
/// `0xB5` — extension start code.
pub const SC_EXTENSION: u8 = 0xB5;
/// `0xB7` — sequence end start code.
pub const SC_SEQUENCE_END: u8 = 0xB7;
/// `0xB8` — group-of-pictures start code.
pub const SC_GROUP_OF_PICTURES: u8 = 0xB8;

/// Extension-id nibble of a Sequence Extension.
pub const EXT_ID_SEQUENCE: u8 = 0b0001;
/// Extension-id nibble of a Sequence Display Extension.
pub const EXT_ID_SEQUENCE_DISPLAY: u8 = 0b0010;
/// Extension-id nibble of a Picture Coding Extension.
pub const EXT_ID_PICTURE_CODING: u8 = 0b1000;

/// The 4-bit `aspect_ratio_information` code (MPEG-2 reading).
#[derive(Debug, Clone, Copy, PartialEq, Eq)]
pub enum AspectRatioCode {
    /// `0` — forbidden.
    Forbidden,
    /// `1` — square pixels.
    Square,
    /// `2` — 4:3.
    Ratio4x3,
    /// `3` — 16:9.
    Ratio16x9,
    /// `4` — 2.21:1.
    Ratio221x1,
    /// `5..=15` — reserved.
    Reserved(u8),
}

impl AspectRatioCode {
    /// Decode the low four bits of `code`.
    #[verifier::allow_in_spec]
    pub fn from_code(code: u8) -> Self
        returns
            (match code % 16 {
                0u8 => AspectRatioCode::Forbidden,
                1u8 => AspectRatioCode::Square,
                2u8 => AspectRatioCode::Ratio4x3,
                3u8 => AspectRatioCode::Ratio16x9,
                4u8 => AspectRatioCode::Ratio221x1,
                other => AspectRatioCode::Reserved(other),
            }),
    {
        match code % 16 {
            0 => AspectRatioCode::Forbidden,
            1 => AspectRatioCode::Square,
            2 => AspectRatioCode::Ratio4x3,
            3 => AspectRatioCode::Ratio16x9,
            4 => AspectRatioCode::Ratio221x1,
            other => AspectRatioCode::Reserved(other),
        }
    }
}

/// The 4-bit `frame_rate_code`.
#[derive(Debug, Clone, Copy, PartialEq, Eq)]
pub enum FrameRateCode {
    /// `0` — forbidden.
    Forbidden,
    /// `1` — 24000/1001.
    Fps23_976,
    /// `2` — 24.
    Fps24,
    /// `3` — 25.
    Fps25,
    /// `4` — 30000/1001.
    Fps29_97,
    /// `5` — 30.
    Fps30,
    /// `6` — 50.
    Fps50,
    /// `7` — 60000/1001.
    Fps59_94,
    /// `8` — 60.
    Fps60,
    /// `9..=15` — reserved.
    Reserved(u8),
}

impl FrameRateCode {
    /// Decode the low four bits of `code`.
    #[verifier::allow_in_spec]
    pub fn from_code(code: u8) -> Self
        returns
            (match code % 16 {
                0u8 => FrameRateCode::Forbidden,
                1u8 => FrameRateCode::Fps23_976,
                2u8 => FrameRateCode::Fps24,
                3u8 => FrameRateCode::Fps25,
                4u8 => FrameRateCode::Fps29_97,
                5u8 => FrameRateCode::Fps30,
                6u8 => FrameRateCode::Fps50,
                7u8 => FrameRateCode::Fps59_94,
                8u8 => FrameRateCode::Fps60,
                other => FrameRateCode::Reserved(other),
            }),
    {
        match code % 16 {
            0 => FrameRateCode::Forbidden,
            1 => FrameRateCode::Fps23_976,
            2 => FrameRateCode::Fps24,
            3 => FrameRateCode::Fps25,
            4 => FrameRateCode::Fps29_97,
            5 => FrameRateCode::Fps30,
            6 => FrameRateCode::Fps50,
            7 => FrameRateCode::Fps59_94,
            8 => FrameRateCode::Fps60,
            other => FrameRateCode::Reserved(other),
        }
    }

    /// The exact frame rate as `(numerator, denominator)`; `None` for
    /// forbidden / reserved codes.
    pub fn as_ratio(self) -> (r: Option<(u32, u32)>)
        ensures
            r == (match self {
                FrameRateCode::Fps23_976 => Some((24000u32, 1001u32)),
                FrameRateCode::Fps24 => Some((24u32, 1u32)),
                FrameRateCode::Fps25 => Some((25u32, 1u32)),
                FrameRateCode::Fps29_97 => Some((30000u32, 1001u32)),
                FrameRateCode::Fps30 => Some((30u32, 1u32)),
                FrameRateCode::Fps50 => Some((50u32, 1u32)),
                FrameRateCode::Fps59_94 => Some((60000u32, 1001u32)),
                FrameRateCode::Fps60 => Some((60u32, 1u32)),
                FrameRateCode::Forbidden | FrameRateCode::Reserved(_) => None,
            }),
    {
        match self {
            FrameRateCode::Fps23_976 => Some((24000, 1001)),
            FrameRateCode::Fps24 => Some((24, 1)),
            FrameRateCode::Fps25 => Some((25, 1)),
            FrameRateCode::Fps29_97 => Some((30000, 1001)),
            FrameRateCode::Fps30 => Some((30, 1)),
            FrameRateCode::Fps50 => Some((50, 1)),
            FrameRateCode::Fps59_94 => Some((60000, 1001)),
            FrameRateCode::Fps60 => Some((60, 1)),
            FrameRateCode::Forbidden | FrameRateCode::Reserved(_) => None,
        }
    }
}

/// Decoded MPEG video Sequence Header.
#[derive(Debug, Clone, Copy, PartialEq, Eq)]
pub struct SequenceHeader {
    /// 12-bit coded horizontal size.
    pub horizontal_size: u16,
    /// 12-bit coded vertical size.
    pub vertical_size: u16,
    /// Aspect-ratio information.
    pub aspect_ratio: AspectRatioCode,
    /// Frame-rate code.
    pub frame_rate: FrameRateCode,
    /// 18-bit bit-rate value (units of 400 bit/s).
    pub bit_rate_value: u32,
    /// 10-bit VBV buffer-size value (units of 16 Kibit).
    pub vbv_buffer_size: u16,
    /// `constrained_parameters_flag`.
    pub constrained_parameters: bool,
    /// A custom intra quantiser matrix follows.
    pub load_intra_quant_matrix: bool,
    /// A custom non-intra quantiser matrix follows (read from bit 0
    /// only when no intra matrix is loaded).
    pub load_non_intra_quant_matrix: bool,
}

/// `true` when `buf` starts with `00 00 01 code`.
pub open spec fn has_start_code(buf: Seq<u8>, code: u8) -> bool {
    buf.len() >= 4 && buf[0] == 0u8 && buf[1] == 0u8 && buf[2] == 1u8 && buf[3] == code
}

/// Marker bit of a sequence header (byte 10, bit 5).
pub open spec fn seq_header_marker(buf: Seq<u8>) -> bool {
    (buf[10] >> 5u8) & 1u8 == 1u8
}

/// The decoding of the eight bytes after the `00 00 01 B3` start code.
pub open spec fn spec_sequence_header(buf: Seq<u8>) -> SequenceHeader {
    let b4 = buf[4];
    let b5 = buf[5];
    let b6 = buf[6];
    let b7 = buf[7];
    let b8 = buf[8];
    let b9 = buf[9];
    let b10 = buf[10];
    let b11 = buf[11];
    let load_intra = (b11 >> 1u8) & 1u8 == 1u8;
    SequenceHeader {
        horizontal_size: ((b4 as u16) << 4u16) | ((b5 as u16) >> 4u16),
        vertical_size: (((b5 & 0x0Fu8) as u16) << 8u16) | (b6 as u16),
        aspect_ratio: AspectRatioCode::from_code(b7 >> 4u8),
        frame_rate: FrameRateCode::from_code(b7 & 0x0Fu8),
        bit_rate_value: ((b8 as u32) << 10u32) | ((b9 as u32) << 2u32) | ((b10 as u32) >> 6u32),
        vbv_buffer_size: (((b10 & 0x1Fu8) as u16) << 5u16) | ((b11 as u16) >> 3u16),
        constrained_parameters: (b11 >> 2u8) & 1u8 == 1u8,
        load_intra_quant_matrix: load_intra,
        load_non_intra_quant_matrix: !load_intra && b11 & 1u8 == 1u8,
    }
}

/// The sequence-header fields, read as the MPEG-2 bit string after the
/// start code (byte 4 on): `horizontal_size_value` (12 bits),
/// `vertical_size_value` (12), `aspect_ratio_information` (4),
/// `frame_rate_code` (4), `bit_rate_value` (18), a marker bit,
/// `vbv_buffer_size_value` (10), then the three flags of
/// [`lemma_sequence_header_flag_bits`].
pub proof fn lemma_sequence_header_fields(buf: Seq<u8>)
    requires
        buf.len() >= 12,
    ensures
        spec_sequence_header(buf).horizontal_size == buf[4] as int * 16 + buf[5] as int / 16,
        spec_sequence_header(buf).vertical_size == (buf[5] % 16) as int * 256 + buf[6] as int,
        spec_sequence_header(buf).aspect_ratio == AspectRatioCode::from_code(buf[7] / 16),
        spec_sequence_header(buf).frame_rate == FrameRateCode::from_code(buf[7] % 16),
        spec_sequence_header(buf).bit_rate_value == buf[8] as int * 1024 + buf[9] as int * 4
            + buf[10] as int / 64,
        spec_sequence_header(buf).vbv_buffer_size == (buf[10] % 32) as int * 32 + buf[11] as int / 8,
{
    let b4 = buf[4];
    let b5 = buf[5];
    let b6 = buf[6];
    let b7 = buf[7];
    let b8 = buf[8];
    let b9 = buf[9];
    let b10 = buf[10];
    let b11 = buf[11];
    assert({
        &&& ((b4 as u16) << 4u16) | ((b5 as u16) >> 4u16) == (b4 as u16) * 16 + (b5 as u16) / 16
        &&& (((b5 & 0x0Fu8) as u16) << 8u16) | (b6 as u16) == ((b5 % 16) as u16) * 256 + (b6 as u16)
        &&& b7 >> 4u8 == b7 / 16
        &&& b7 & 0x0Fu8 == b7 % 16
        &&& ((b8 as u32) << 10u32) | ((b9 as u32) << 2u32) | ((b10 as u32) >> 6u32) == (b8 as u32)
            * 1024 + (b9 as u32) * 4 + (b10 as u32) / 64
        &&& (((b10 & 0x1Fu8) as u16) << 5u16) | ((b11 as u16) >> 3u16) == ((b10 % 32) as u16) * 32
            + (b11 as u16) / 8
    }) by (bit_vector);
}

/// The low three bits of byte 11 are, in order, `constrained_parameters_flag`
/// (bit 2), `load_intra_quantiser_matrix` (bit 1) and, when no intra
/// matrix follows, `load_non_intra_quantiser_matrix` (bit 0): the intra
/// flag is set exactly when bit 1 is, the non-intra flag exactly when
/// bit 1 is clear and bit 0 set, and the two are never both set.
pub proof fn lemma_sequence_header_flag_bits(buf: Seq<u8>)
    requires
        buf.len() >= 12,
    ensures
        spec_sequence_header(buf).constrained_parameters <==> (buf[11] / 4) % 2 == 1,
        spec_sequence_header(buf).load_intra_quant_matrix <==> (buf[11] / 2) % 2 == 1,
        spec_sequence_header(buf).load_non_intra_quant_matrix <==> ((buf[11] / 2) % 2 == 0 && buf[11]
            % 2 == 1),
        !(spec_sequence_header(buf).load_intra_quant_matrix
            && spec_sequence_header(buf).load_non_intra_quant_matrix),
{
    let b = buf[11];
    assert(((b >> 2u8) & 1u8 == 1u8) <==> (b / 4) % 2 == 1) by (bit_vector);
    assert(((b >> 1u8) & 1u8 == 1u8) <==> (b / 2) % 2 == 1) by (bit_vector);
    assert((b & 1u8 == 1u8) <==> b % 2 == 1) by (bit_vector);
}

impl SequenceHeader {
    /// Length of the fixed portion after the start code.
    pub const FIXED_LEN: usize = 8;

    /// Parse a sequence header beginning at its `00 00 01 B3` start code.
    ///
    /// Fails with `InvalidUdf` for a missing start code, a buffer shorter
    /// than 12 bytes, or a cleared marker bit.
    pub fn parse(buf: &[u8]) -> (r: Result<Self>)
        ensures
            r is Err <==> (!has_start_code(buf@, 0xB3u8) || buf@.len() < 12
                || !seq_header_marker(buf@)),
            r matches Err(e) ==> e is InvalidUdf,
            r matches Ok(h) ==> h == spec_sequence_header(buf@),
    {
        if buf.len() < 4 || !(buf[0] == 0 && buf[1] == 0 && buf[2] == 1)
            || buf[3] != SC_SEQUENCE_HEADER {
            return Err(Error::InvalidUdf("MPEG seq header: missing 00 00 01 B3"));
        }
        if buf.len() < 12 {
            return Err(Error::InvalidUdf("MPEG seq header: truncated"));
        }
        let b4 = buf[4];
        let b5 = buf[5];
        let b6 = buf[6];
        let b7 = buf[7];
        let b8 = buf[8];
        let b9 = buf[9];
        let b10 = buf[10];
        let b11 = buf[11];
        if (b10 >> 5) & 1 != 1 {
            return Err(Error::InvalidUdf("MPEG seq header: marker bit not set"));
        }
        let load_intra_quant_matrix = (b11 >> 1) & 1 == 1;
        Ok(SequenceHeader {
            horizontal_size: ((b4 as u16) << 4) | ((b5 as u16) >> 4),
            vertical_size: (((b5 & 0x0F) as u16) << 8) | (b6 as u16),
            aspect_ratio: AspectRatioCode::from_code(b7 >> 4),
            frame_rate: FrameRateCode::from_code(b7 & 0x0F),
            bit_rate_value: ((b8 as u32) << 10) | ((b9 as u32) << 2) | ((b10 as u32) >> 6),
            vbv_buffer_size: (((b10 & 0x1F) as u16) << 5) | ((b11 as u16) >> 3),
            constrained_parameters: (b11 >> 2) & 1 == 1,
            load_intra_quant_matrix,
            load_non_intra_quant_matrix: !load_intra_quant_matrix && b11 & 1 == 1,
        })
    }

    /// Bit rate in bit/s from the 18-bit value; `None` for the all-ones
    /// variable-bit-rate escape `0x3FFFF`.
    pub fn bit_rate_bps(self) -> (r: Option<u64>)
        ensures
            r == (if self.bit_rate_value == 0x3FFFF {
                None
            } else {
                Some((self.bit_rate_value * 400) as u64)
            }),
    {
        if self.bit_rate_value == 0x3FFFF {
            None
        } else {
            Some(self.bit_rate_value as u64 * 400)
        }
    }

    /// Bit rate combining the 18 low bits with a Sequence Extension's 12
    /// high bits (units of 400 bit/s).
    pub fn bit_rate_bps_with_extension(self, ext: &SequenceExtension) -> (r: u64)
        ensures
            r == (((ext.bit_rate_extension as u64) << 18u64) | self.bit_rate_value as u64) * 400,
    {
        let hi: u16 = ext.bit_rate_extension;
        let lo: u32 = self.bit_rate_value;
        let full: u64 = ((hi as u64) << 18) | lo as u64;
        assert(full < 0x4_0000_0000) by (bit_vector)
            requires full == ((hi as u64) << 18u64) | lo as u64;
        full * 400
    }

    /// VBV buffer size in bits (`value × 16 Kibit`).
    pub fn vbv_buffer_bits(self) -> (r: u64)
        ensures
            r == self.vbv_buffer_size as int * 16 * 1024,
    {
        self.vbv_buffer_size as u64 * 16 * 1024
    }

    /// Full coded horizontal size (12 low bits + the extension's 2 high bits).
    pub fn full_horizontal_size(self, ext: &SequenceExtension) -> (r: u16)
        ensures
            r == ((ext.horizontal_size_extension as u16) << 12u16) | self.horizontal_size,
    {
        ((ext.horizontal_size_extension as u16) << 12) | self.horizontal_size
    }

    /// Full coded vertical size (12 low bits + the extension's 2 high bits).
    pub fn full_vertical_size(self, ext: &SequenceExtension) -> (r: u16)
        ensures
            r == ((ext.vertical_size_extension as u16) << 12u16) | self.vertical_size,
    {
        ((ext.vertical_size_extension as u16) << 12) | self.vertical_size
    }
}

/// Decoded MPEG-2 Sequence Extension.
#[derive(Debug, Clone, Copy, PartialEq, Eq)]
pub struct SequenceExtension {
    /// 8-bit `profile_and_level_indication`.
    pub profile_and_level: u8,
    /// `progressive_sequence`.
    pub progressive_sequence: bool,
    /// 2-bit `chroma_format`.
    pub chroma_format: u8,
    /// 2-bit `horizontal_size_extension`.
    pub horizontal_size_extension: u8,
    /// 2-bit `vertical_size_extension`.
    pub vertical_size_extension: u8,
    /// 12-bit `bit_rate_extension`.
    pub bit_rate_extension: u16,
    /// 8-bit `vbv_buffer_size_extension`.
    pub vbv_buffer_size_extension: u8,
    /// `low_delay`.
    pub low_delay: bool,
    /// 2-bit `frame_rate_extension_n`.
    pub frame_rate_extension_n: u8,
    /// 5-bit `frame_rate_extension_d`.
    pub frame_rate_extension_d: u8,
}

/// The decoding of the six bytes after the `00 00 01 B5` start code.
pub open spec fn spec_sequence_extension(buf: Seq<u8>) -> SequenceExtension {
    let b0 = buf[4];
    let b1 = buf[5];
    let b2 = buf[6];
    let b3 = buf[7];
    let b4 = buf[8];
    let b5 = buf[9];
    SequenceExtension {
        profile_and_level: ((b0 & 0x0Fu8) << 4u8) | (b1 >> 4u8),
        progressive_sequence: (b1 >> 3u8) & 1u8 == 1u8,
        chroma_format: (b1 >> 1u8) & 3u8,
        horizontal_size_extension: ((b1 & 1u8) << 1u8) | (b2 >> 7u8),
        vertical_size_extension: (b2 >> 5u8) & 3u8,
        bit_rate_extension: (((b2 & 0x1Fu8) as u16) << 7u16) | ((b3 >> 1u8) as u16),
        vbv_buffer_size_extension: b4,
        low_delay: (b5 >> 7u8) & 1u8 == 1u8,
        frame_rate_extension_n: (b5 >> 5u8) & 3u8,
        frame_rate_extension_d: b5 & 0x1Fu8,
    }
}

/// The sequence-extension fields, read as the MPEG-2 bit string after
/// the start code: the 4-bit extension id, `profile_and_level_indication`
/// (8), `progressive_sequence`, `chroma_format` (2), the horizontal (2)
/// and vertical (2) size extensions, `bit_rate_extension` (12), a marker
/// bit, `vbv_buffer_size_extension` (8), `low_delay`, and the frame-rate
/// extension numerator (2) and denominator (5).
pub proof fn lemma_sequence_extension_fields(buf: Seq<u8>)
    requires
        buf.len() >= 10,
    ensures
        spec_sequence_extension(buf).profile_and_level == (buf[4] % 16) as int * 16 + buf[5] as int / 16,
        spec_sequence_extension(buf).progressive_sequence <==> (buf[5] / 8) % 2 == 1,
        spec_sequence_extension(buf).chroma_format == (buf[5] / 2) % 4,
        spec_sequence_extension(buf).horizontal_size_extension == (buf[5] % 2) as int * 2 + buf[6] as int
            / 128,
        spec_sequence_extension(buf).vertical_size_extension == (buf[6] / 32) % 4,
        spec_sequence_extension(buf).bit_rate_extension == (buf[6] % 32) as int * 128 + buf[7] as int / 2,
        spec_sequence_extension(buf).vbv_buffer_size_extension == buf[8],
        spec_sequence_extension(buf).low_delay <==> buf[9] / 128 == 1,
        spec_sequence_extension(buf).frame_rate_extension_n == (buf[9] / 32) % 4,
        spec_sequence_extension(buf).frame_rate_extension_d == buf[9] % 32,
{
    let b0 = buf[4];
    let b1 = buf[5];
    let b2 = buf[6];
    let b3 = buf[7];
    let b5 = buf[9];
    assert({
        &&& ((b0 & 0x0Fu8) << 4u8) | (b1 >> 4u8) == (b0 % 16) * 16 + b1 / 16
        &&& (((b1 >> 3u8) & 1u8 == 1u8) <==> (b1 / 8) % 2 == 1)
        &&& (b1 >> 1u8) & 3u8 == (b1 / 2) % 4
        &&& ((b1 & 1u8) << 1u8) | (b2 >> 7u8) == (b1 % 2) * 2 + b2 / 128
        &&& (b2 >> 5u8) & 3u8 == (b2 / 32) % 4
        &&& (((b2 & 0x1Fu8) as u16) << 7u16) | ((b3 >> 1u8) as u16) == ((b2 % 32) as u16) * 128
            + (b3 / 2) as u16
        &&& (((b5 >> 7u8) & 1u8 == 1u8) <==> b5 / 128 == 1)
        &&& (b5 >> 5u8) & 3u8 == (b5 / 32) % 4
        &&& b5 & 0x1Fu8 == b5 % 32
    }) by (bit_vector);
}

impl SequenceExtension {
    /// Length of the extension body after the start code.
    pub const BODY_LEN: usize = 6;

    /// Parse a Sequence Extension beginning at its `00 00 01 B5` start
    /// code. Fails with `InvalidUdf` for a missing start code, fewer than
    /// 10 bytes, an extension id other than `0001`, or a cleared marker.
    pub fn parse(buf: &[u8]) -> (r: Result<Self>)
        ensures
            r is Err <==> (!has_start_code(buf@, 0xB5u8) || buf@.len() < 10
                || buf@[4] >> 4u8 != 1u8 || buf@[7] & 1u8 != 1u8),
            r matches Err(e) ==> e is InvalidUdf,
            r matches Ok(x) ==> x == spec_sequence_extension(buf@),
    {
        if buf.len() < 4 || !(buf[0] == 0 && buf[1] == 0 && buf[2] == 1) || buf[3] != SC_EXTENSION {
            return Err(Error::InvalidUdf("MPEG seq ext: missing 00 00 01 B5"));
        }
        if buf.len() < 10 {
            return Err(Error::InvalidUdf("MPEG seq ext: truncated"));
        }
        let b0 = buf[4];
        let b1 = buf[5];
        let b2 = buf[6];
        let b3 = buf[7];
        let b4 = buf[8];
        let b5 = buf[9];
        if (b0 >> 4) != EXT_ID_SEQUENCE {
            return Err(Error::InvalidUdf("MPEG seq ext: extension-id != 0001"));
        }
        if b3 & 1 != 1 {
            return Err(Error::InvalidUdf("MPEG seq ext: marker bit not set"));
        }
        Ok(SequenceExtension {
            profile_and_level: ((b0 & 0x0F) << 4) | (b1 >> 4),
            progressive_sequence: (b1 >> 3) & 1 == 1,
            chroma_format: (b1 >> 1) & 3,
            horizontal_size_extension: ((b1 & 1) << 1) | (b2 >> 7),
            vertical_size_extension: (b2 >> 5) & 3,
            bit_rate_extension: (((b2 & 0x1F) as u16) << 7) | ((b3 >> 1) as u16),
            vbv_buffer_size_extension: b4,
            low_delay: (b5 >> 7) & 1 == 1,
            frame_rate_extension_n: (b5 >> 5) & 3,
            frame_rate_extension_d: b5 & 0x1F,
        })
    }

    /// The 3-bit profile field of `profile_and_level`.
    pub fn profile(self) -> (r: u8)
        ensures
            r == (self.profile_and_level >> 4u8) & 7u8,
    {
        (self.profile_and_level >> 4) & 7
    }

    /// The 4-bit level field of `profile_and_level`.
    pub fn level(self) -> (r: u8)
        ensures
            r == self.profile_and_level & 0x0Fu8,
    {
        self.profile_and_level & 0x0F
    }
}

} // verus!
