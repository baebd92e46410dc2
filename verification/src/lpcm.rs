//! LPCM `private_stream_1` audio-pack header decoder.
//!
//! The first byte of an LPCM `private_stream_1` payload is the
//! substream selector (`0xA0..=0xA7`); it and the next six bytes form
//! the 7-byte audio-pack header: frame-counter book-keeping, the sample
//! format (quantisation, sample rate, channel count) and the dynamic-
//! range coefficients. The raw PCM tail follows.

use vstd::prelude::*;

use crate::error::{Error, Result};

verus! {

/// Sample-quantisation word length (bits 7..=6 of byte 5).
#[derive(Debug, Clone, Copy, PartialEq, Eq, Structural)]
pub enum LpcmQuantisation {
    /// 16 bits per sample.
    Bits16,
    /// 20 bits per sample.
    Bits20,
    /// 24 bits per sample.
    Bits24,
    /// Code `3`, reserved.
    Reserved,
}

/// Euclid's greatest common divisor.
pub open spec fn spec_gcd(a: nat, b: nat) -> nat
    decreases b,
{
    if b == 0 {
        a
    } else {
        spec_gcd(b, a % b)
    }
}

fn gcd(a: u32, b: u32) -> (r: u32)
    ensures
        r == spec_gcd(a as nat, b as nat),
{
    let mut x = a;
    let mut y = b;
    while y != 0
        invariant
            spec_gcd(x as nat, y as nat) == spec_gcd(a as nat, b as nat),
        decreases y,
    {
        let t = y;
        y = x % y;
        x = t;
    }
    x
}

impl LpcmQuantisation {
    /// Decode the low two bits of `code`.
    #[verifier::allow_in_spec]
    pub fn from_code(code: u8) -> Self
        returns
            (match code % 4 {
                0u8 => LpcmQuantisation::Bits16,
                1u8 => LpcmQuantisation::Bits20,
                2u8 => LpcmQuantisation::Bits24,
                _ => LpcmQuantisation::Reserved,
            }),
    {
        match code % 4 {
            0 => LpcmQuantisation::Bits16,
            1 => LpcmQuantisation::Bits20,
            2 => LpcmQuantisation::Bits24,
            _ => LpcmQuantisation::Reserved,
        }
    }

    /// Bits per sample; `None` for the reserved code.
    #[verifier::allow_in_spec]
    pub fn bits_per_sample(self) -> Option<u8>
        returns
            (match self {
                LpcmQuantisation::Bits16 => Some(16u8),
                LpcmQuantisation::Bits20 => Some(20u8),
                LpcmQuantisation::Bits24 => Some(24u8),
                LpcmQuantisation::Reserved => None,
            }),
    {
        match self {
            LpcmQuantisation::Bits16 => Some(16),
            LpcmQuantisation::Bits20 => Some(20),
            LpcmQuantisation::Bits24 => Some(24),
            LpcmQuantisation::Reserved => None,
        }
    }

    /// Bytes per sample as the reduced ratio `bits / 8`:
    /// 16-bit `2/1`, 20-bit `5/2`, 24-bit `3/1`; `None` when reserved.
    pub fn bytes_per_sample(self) -> (r: Option<(u32, u32)>)
        ensures
            r == (match self {
                LpcmQuantisation::Bits16 => Some((2u32, 1u32)),
                LpcmQuantisation::Bits20 => Some((5u32, 2u32)),
                LpcmQuantisation::Bits24 => Some((3u32, 1u32)),
                LpcmQuantisation::Reserved => None,
            }),
    {
        let bits: u32 = match self.bits_per_sample() {
            Some(b) => b as u32,
            None => {
                return None;
            },
        };
        let g = gcd(bits, 8);
        proof {
            reveal_with_fuel(spec_gcd, 4);
            assert(spec_gcd(16, 8) == 8);
            assert(spec_gcd(20, 8) == 4);
            assert(spec_gcd(24, 8) == 8);
        }
        Some((bits / g, 8 / g))
    }
}

/// Sample frequency (bits 5..=4 of byte 5).
#[derive(Debug, Clone, Copy, PartialEq, Eq, Structural)]
pub enum LpcmSampleFrequency {
    /// 48 kHz.
    Hz48000,
    /// 96 kHz.
    Hz96000,
    /// Codes `2` and `3`, reserved.
    Reserved,
}

impl LpcmSampleFrequency {
    /// Decode the low two bits of `code`.
    #[verifier::allow_in_spec]
    pub fn from_code(code: u8) -> Self
        returns
            (match code % 4 {
                0u8 => LpcmSampleFrequency::Hz48000,
                1u8 => LpcmSampleFrequency::Hz96000,
                _ => LpcmSampleFrequency::Reserved,
            }),
    {
        match code % 4 {
            0 => LpcmSampleFrequency::Hz48000,
            1 => LpcmSampleFrequency::Hz96000,
            _ => LpcmSampleFrequency::Reserved,
        }
    }

    /// Sample frequency in Hz; `None` when reserved.
    #[verifier::allow_in_spec]
    pub fn hz(self) -> Option<u32>
        returns
            (match self {
                LpcmSampleFrequency::Hz48000 => Some(48_000u32),
                LpcmSampleFrequency::Hz96000 => Some(96_000u32),
                LpcmSampleFrequency::Reserved => None,
            }),
    {
        match self {
            LpcmSampleFrequency::Hz48000 => Some(48_000),
            LpcmSampleFrequency::Hz96000 => Some(96_000),
            LpcmSampleFrequency::Reserved => None,
        }
    }
}

/// Decoded 7-byte LPCM audio-pack header.
#[derive(Debug, Clone, Copy, PartialEq, Eq)]
pub struct LpcmHeader {
    /// `0xA0..=0xA7` substream selector.
    pub sub_stream_id: u8,
    /// Audio frames whose first byte lies in this packet.
    pub number_of_frame_headers: u8,
    /// Offset pointer of the first audio frame the PES PTS applies to.
    pub first_access_unit_pointer: u16,
    /// Pre-emphasis flag.
    pub audio_emphasis_flag: bool,
    /// Mute flag.
    pub audio_mute_flag: bool,
    /// 5-bit frame counter within the group of audio frames.
    pub audio_frame_number: u8,
    /// Quantisation word length.
    pub quantisation: LpcmQuantisation,
    /// Sample frequency.
    pub sample_frequency: LpcmSampleFrequency,
    /// Channel count `1..=8` (the wire code carries `count - 1`).
    pub channel_count: u8,
    /// 3-bit `X` dynamic-range coefficient.
    pub dynamic_range_x: u8,
    /// 5-bit `Y` dynamic-range coefficient.
    pub dynamic_range_y: u8,
}

/// Length of the audio-pack header in bytes.
pub const LPCM_HEADER_LEN: usize = 7;

/// DVD-Video LPCM bitrate ceiling in kbps.
pub const DVD_LPCM_MAX_BITRATE_KBPS: u32 = 6144;

/// Duration of one LPCM audio frame in 90 kHz ticks.
pub const LPCM_FRAME_DURATION_90KHZ: u32 = 150;

/// LPCM audio frames per second (`90_000 / 150`).
pub const LPCM_FRAMES_PER_SECOND: u32 = 600;

/// Audio frames per group of audio frames (`FrmNum` runs modulo 20).
pub const LPCM_FRAMES_PER_GROUP: u8 = 20;

/// Duration of one group of audio frames in 90 kHz ticks.
pub const LPCM_GROUP_DURATION_90KHZ: u32 = 3000;

/// The header decoded from the first seven bytes of `p`.
pub open spec fn spec_lpcm_header(p: Seq<u8>) -> LpcmHeader {
    LpcmHeader {
        sub_stream_id: p[0],
        number_of_frame_headers: p[1],
        first_access_unit_pointer: (p[2] as int * 256 + p[3] as int) as u16,
        audio_emphasis_flag: p[4] >= 128,
        audio_mute_flag: (p[4] / 64) % 2 == 1,
        audio_frame_number: p[4] % 32,
        quantisation: LpcmQuantisation::from_code(p[5] / 64),
        sample_frequency: LpcmSampleFrequency::from_code((p[5] / 16) % 4),
        channel_count: (p[5] % 8 + 1) as u8,
        dynamic_range_x: p[6] / 32,
        dynamic_range_y: p[6] % 32,
    }
}

/// The header fields give back the header bytes they come from: byte 6
/// is `dynamic_range_x * 32 + dynamic_range_y`; byte 4's low five bits
/// are the frame number, its top bit the emphasis flag and bit 6 the
/// mute flag; byte 5's low three bits are `channel_count - 1`; bytes 2..3
/// are the first-access-unit pointer, big-endian; bytes 0 and 1 are the
/// sub-stream id and the frame-header count.
pub proof fn lemma_lpcm_header_fields_give_back_bytes(p: Seq<u8>)
    requires
        p.len() >= 7,
    ensures
        ({
            let h = spec_lpcm_header(p);
            &&& p[0] == h.sub_stream_id
            &&& p[1] == h.number_of_frame_headers
            &&& p[2] as int * 256 + p[3] as int == h.first_access_unit_pointer
            &&& p[4] % 32 == h.audio_frame_number
            &&& (p[4] >= 128 <==> h.audio_emphasis_flag)
            &&& ((p[4] / 64) % 2 == 1 <==> h.audio_mute_flag)
            &&& p[5] % 8 == h.channel_count - 1
            &&& 1 <= h.channel_count <= 8
            &&& p[6] == h.dynamic_range_x * 32 + h.dynamic_range_y
            &&& h.dynamic_range_x < 8 && h.dynamic_range_y < 32
        }),
{
}

/// The frame byte size `rate × bits × channels / 4800`, when both codes
/// are defined.
pub open spec fn spec_frame_size(h: LpcmHeader) -> Option<nat> {
    match (h.sample_frequency.hz(), h.quantisation.bits_per_sample()) {
        (Some(rate), Some(bits)) => Some(
            ((rate as nat) * (bits as nat) * (h.channel_count as nat) / 4800) as nat,
        ),
        _ => None,
    }
}

/// The big-endian signed 16-bit value of the byte pair `(hi, lo)`.
pub open spec fn be_i16(hi: u8, lo: u8) -> int {
    let v = hi as int * 256 + lo as int;
    if v >= 32768 {
        v - 65536
    } else {
        v
    }
}

/// The 16-bit samples of `pcm`, one per whole byte pair.
pub open spec fn samples_16bit(pcm: Seq<u8>) -> Seq<i32> {
    Seq::new(pcm.len() / 2, |i: int| be_i16(pcm[2 * i], pcm[2 * i + 1]) as i32)
}

impl LpcmHeader {
    /// Decode the header at the start of `payload` (the substream
    /// selector byte first). Fails with `InvalidUdf` when fewer than
    /// seven bytes are given or the selector is outside `0xA0..=0xA7`.
    pub fn parse(payload: &[u8]) -> (r: Result<Self>)
        ensures
            r is Err <==> (payload@.len() < 7 || !(0xA0 <= payload@[0] <= 0xA7)),
            r matches Err(e) ==> e is InvalidUdf,
            r matches Ok(h) ==> h == spec_lpcm_header(payload@),
    {
        if payload.len() < LPCM_HEADER_LEN {
            return Err(Error::InvalidUdf("LPCM audio-pack header truncated (< 7 bytes)"));
        }
        let sub_stream_id = payload[0];
        if !(0xA0 <= sub_stream_id && sub_stream_id <= 0xA7) {
            return Err(
                Error::InvalidUdf("LPCM audio-pack header: sub_stream_id not in 0xA0..=0xA7"),
            );
        }
        let byte4 = payload[4];
        let byte5 = payload[5];
        let byte6 = payload[6];
        Ok(LpcmHeader {
            sub_stream_id,
            number_of_frame_headers: payload[1],
            first_access_unit_pointer: payload[2] as u16 * 256 + payload[3] as u16,
            audio_emphasis_flag: byte4 >= 128,
            audio_mute_flag: (byte4 / 64) % 2 == 1,
            audio_frame_number: byte4 % 32,
            quantisation: LpcmQuantisation::from_code(byte5 / 64),
            sample_frequency: LpcmSampleFrequency::from_code((byte5 / 16) % 4),
            channel_count: byte5 % 8 + 1,
            dynamic_range_x: byte6 / 32,
            dynamic_range_y: byte6 % 32,
        })
    }

    /// LPCM track number (`sub_stream_id - 0xA0`).
    pub fn track(self) -> (r: u8)
        requires
            self.sub_stream_id >= 0xA0,
        ensures
            r == self.sub_stream_id - 0xA0,
    {
        self.sub_stream_id - 0xA0
    }

    /// Bits per sample; `None` for the reserved quantisation code.
    pub fn bits_per_sample(self) -> (r: Option<u8>)
        ensures
            r == self.quantisation.bits_per_sample(),
    {
        self.quantisation.bits_per_sample()
    }

    /// Sample rate in Hz; `None` for a reserved frequency code.
    pub fn sample_rate_hz(self) -> (r: Option<u32>)
        ensures
            r == self.sample_frequency.hz(),
    {
        self.sample_frequency.hz()
    }

    /// Uncompressed bitrate `bits × rate × channels / 1000` in kbps;
    /// `None` when either code is reserved.
    pub fn bitrate_kbps(self) -> (r: Option<u32>)
        ensures
            r == (match (self.quantisation.bits_per_sample(), self.sample_frequency.hz()) {
                (Some(bits), Some(rate)) => Some(
                    ((bits as int * rate as int * self.channel_count as int) / 1000) as u32,
                ),
                _ => None,
            }),
    {
        let bits: u32 = match self.bits_per_sample() {
            Some(b) => b as u32,
            None => {
                return None;
            },
        };
        let rate: u32 = match self.sample_rate_hz() {
            Some(r) => r,
            None => {
                return None;
            },
        };
        let ch = self.channel_count as u32;
        assert(bits * rate <= 24 * 96_000) by (nonlinear_arith)
            requires
                bits <= 24,
                rate <= 96_000,
        ;
        assert(bits * rate * ch <= 24 * 96_000 * 255) by (nonlinear_arith)
            requires
                bits * rate <= 24 * 96_000,
                ch <= 255,
        ;
        Some((bits * rate * ch) / 1_000)
    }

    /// `true` when the format fits the DVD-Video 6144 kbps ceiling;
    /// `false` for over-limit and reserved formats.
    pub fn is_within_dvd_video_limit(self) -> (r: bool)
        ensures
            r == (match (self.quantisation.bits_per_sample(), self.sample_frequency.hz()) {
                (Some(bits), Some(rate)) => (bits as int * rate as int * self.channel_count as int)
                    / 1000 <= DVD_LPCM_MAX_BITRATE_KBPS,
                _ => false,
            }),
    {
        let r = self.bitrate_kbps();
        proof {
            if let (Some(bits), Some(rate)) = (
                self.quantisation.bits_per_sample(),
                self.sample_frequency.hz(),
            ) {
                let ch = self.channel_count;
                assert(bits as int * rate as int <= 24 * 96_000) by (nonlinear_arith)
                    requires
                        bits <= 24,
                        rate <= 96_000,
                ;
                assert(bits as int * rate as int * ch as int <= 24 * 96_000 * 255)
                    by (nonlinear_arith)
                    requires
                        bits as int * rate as int <= 24 * 96_000,
                        ch <= 255,
                ;
            }
        }
        match r {
            Some(kbps) => kbps <= DVD_LPCM_MAX_BITRATE_KBPS,
            None => false,
        }
    }

    /// Bytes per sample as a reduced ratio (see
    /// [`LpcmQuantisation::bytes_per_sample`]).
    pub fn bytes_per_sample(self) -> (r: Option<(u32, u32)>)
        ensures
            r == (match self.quantisation {
                LpcmQuantisation::Bits16 => Some((2u32, 1u32)),
                LpcmQuantisation::Bits20 => Some((5u32, 2u32)),
                LpcmQuantisation::Bits24 => Some((3u32, 1u32)),
                LpcmQuantisation::Reserved => None,
            }),
    {
        self.quantisation.bytes_per_sample()
    }

    /// Bytes of one interleaved sample frame (one sample per channel),
    /// defined only for whole-byte sample widths (16 and 24 bits).
    pub fn frame_stride_bytes(self) -> (r: Option<usize>)
        ensures
            r == (match self.quantisation {
                LpcmQuantisation::Bits16 => Some((2 * self.channel_count) as usize),
                LpcmQuantisation::Bits24 => Some((3 * self.channel_count) as usize),
                _ => None,
            }),
    {
        let (num, den) = match self.bytes_per_sample() {
            Some(p) => p,
            None => {
                return None;
            },
        };
        if den != 1 {
            return None;
        }
        Some(num as usize * self.channel_count as usize)
    }

    /// Samples per channel in one audio frame (`rate / 600`); `None`
    /// for a reserved frequency code.
    pub fn samples_per_frame(self) -> (r: Option<u32>)
        ensures
            r == (match self.sample_frequency {
                LpcmSampleFrequency::Hz48000 => Some(80u32),
                LpcmSampleFrequency::Hz96000 => Some(160u32),
                LpcmSampleFrequency::Reserved => None,
            }),
    {
        match self.sample_rate_hz() {
            Some(rate) => Some(rate / LPCM_FRAMES_PER_SECOND),
            None => None,
        }
    }

    /// Byte size of one audio frame, `rate × bits × channels / 4800`;
    /// `None` when either code is reserved.
    pub fn audio_frame_size_bytes(self) -> (r: Option<usize>)
        ensures
            r matches Some(n) ==> spec_frame_size(self) == Some(n as nat),
            r is None <==> spec_frame_size(self) is None,
    {
        let rate: u32 = match self.sample_rate_hz() {
            Some(r) => r,
            None => {
                return None;
            },
        };
        let bits: u32 = match self.bits_per_sample() {
            Some(b) => b as u32,
            None => {
                return None;
            },
        };
        let ch = self.channel_count as u32;
        assert(rate * bits <= 96_000 * 24) by (nonlinear_arith)
            requires
                bits <= 24,
                rate <= 96_000,
        ;
        assert(rate * bits * ch <= 96_000 * 24 * 255) by (nonlinear_arith)
            requires
                rate * bits <= 96_000 * 24,
                ch <= 255,
        ;
        Some((rate * bits * ch / 4800) as usize)
    }

    /// Split the PCM tail into whole audio frames; `None` when the frame
    /// size is undefined or zero.
    pub fn split_frames<'a>(self, pcm: &'a [u8]) -> (r: Option<LpcmFrames<'a>>)
        ensures
            match r {
                Some(f) => spec_frame_size(self) == Some(f.frame_size() as nat) && f.frame_size()
                    > 0 && f.rest() == pcm@,
                None => spec_frame_size(self) is None || spec_frame_size(self) == Some(0nat),
            },
    {
        let size = match self.audio_frame_size_bytes() {
            Some(s) => s,
            None => {
                return None;
            },
        };
        if size == 0 {
            return None;
        }
        Some(LpcmFrames { rest: pcm, size })
    }

    /// Number of whole audio frames in `pcm`; `None` under the same
    /// conditions as [`Self::split_frames`].
    pub fn audio_frame_count(self, pcm: &[u8]) -> (r: Option<usize>)
        ensures
            match spec_frame_size(self) {
                Some(n) => if n == 0 {
                    r is None
                } else {
                    r == Some((pcm@.len() / n) as usize)
                },
                None => r is None,
            },
    {
        let size = match self.audio_frame_size_bytes() {
            Some(s) => s,
            None => {
                return None;
            },
        };
        if size == 0 {
            return None;
        }
        Some(pcm.len() / size)
    }

    /// `true` when the access-unit pointer is `0` (no frame starts here).
    pub fn has_no_first_access_unit(self) -> (r: bool)
        ensures
            r == (self.first_access_unit_pointer == 0),
    {
        self.first_access_unit_pointer == 0
    }

    /// Payload offset of the frame the PES PTS applies to,
    /// `3 + first_access_unit_pointer`; `None` when the pointer is `0`.
    pub fn access_unit_offset(self) -> (r: Option<usize>)
        ensures
            r == (if self.first_access_unit_pointer == 0 {
                None
            } else {
                Some((3 + self.first_access_unit_pointer) as usize)
            }),
    {
        if self.has_no_first_access_unit() {
            None
        } else {
            Some(3 + self.first_access_unit_pointer as usize)
        }
    }

    /// Unpack a 16-bit PCM tail into big-endian channel-interleaved
    /// samples; a trailing odd byte is ignored. `None` unless the
    /// quantisation is 16-bit.
    pub fn unpack_samples_16bit(self, pcm: &[u8]) -> (r: Option<Vec<i32>>)
        ensures
            match r {
                Some(v) => self.quantisation == LpcmQuantisation::Bits16 && v@ == samples_16bit(
                    pcm@,
                ),
                None => self.quantisation != LpcmQuantisation::Bits16,
            },
    {
        if self.quantisation != LpcmQuantisation::Bits16 {
            return None;
        }
        let len = pcm.len();
        let n = len / 2;
        let mut out: Vec<i32> = Vec::new();
        let mut i: usize = 0;
        while i < n
            invariant
                len == pcm@.len(),
                n == pcm@.len() / 2,
                i <= n,
                out@ == samples_16bit(pcm@).subrange(0, i as int),
            decreases n - i,
        {
            assert(2 * i + 1 < pcm@.len()) by (nonlinear_arith)
                requires
                    i < n,
                    n == pcm@.len() / 2,
            ;
            let hi = pcm[2 * i];
            let lo = pcm[2 * i + 1];
            let v: i32 = hi as i32 * 256 + lo as i32;
            let s: i32 = if v >= 32768 {
                v - 65536
            } else {
                v
            };
            out.push(s);
            i = i + 1;
            assert(out@ =~= samples_16bit(pcm@).subrange(0, i as int));
        }
        assert(out@ =~= samples_16bit(pcm@));
        Some(out)
    }

    /// Whole sample frames in a 16-bit tail (`len / stride`); `None`
    /// unless the quantisation is 16-bit with a non-zero stride.
    pub fn sample_frame_count_16bit(self, pcm: &[u8]) -> (r: Option<usize>)
        ensures
            r == (if self.quantisation == LpcmQuantisation::Bits16 && self.channel_count > 0 {
                Some((pcm@.len() / (2 * self.channel_count) as nat) as usize)
            } else {
                None
            }),
    {
        if self.quantisation != LpcmQuantisation::Bits16 {
            return None;
        }
        let stride = match self.frame_stride_bytes() {
            Some(s) => s,
            None => {
                return None;
            },
        };
        if stride == 0 {
            return None;
        }
        Some(pcm.len() / stride)
    }
}

/// Whole LPCM audio frames of a PCM tail, front to back.
#[derive(Debug, Clone, Copy)]
pub struct LpcmFrames<'a> {
    rest: &'a [u8],
    size: usize,
}

impl<'a> LpcmFrames<'a> {
    /// The bytes not yet handed out.
    pub closed spec fn rest(self) -> Seq<u8> {
        self.rest@
    }

    /// The byte size of each frame.
    pub closed spec fn frame_size(self) -> usize {
        self.size
    }

    /// The next whole frame; `None` once fewer than a frame's bytes are
    /// left.
    pub fn next(&mut self) -> (r: Option<&'a [u8]>)
        requires
            old(self).frame_size() > 0,
        ensures
            final(self).frame_size() == old(self).frame_size(),
            old(self).rest().len() < old(self).frame_size() ==> r is None && final(self).rest()
                == old(self).rest(),
            old(self).rest().len() >= old(self).frame_size() ==> (r matches Some(f) && f@ == old(
                self,
            ).rest().subrange(0, old(self).frame_size() as int)) && final(self).rest() == old(
                self,
            ).rest().subrange(old(self).frame_size() as int, old(self).rest().len() as int),
    {
        if self.rest.len() < self.size {
            return None;
        }
        let (head, tail) = self.rest.split_at(self.size);
        self.rest = tail;
        Some(head)
    }

    /// Number of whole frames left.
    pub fn len(&self) -> (r: usize)
        requires
            self.frame_size() > 0,
        ensures
            r == self.rest().len() / self.frame_size() as nat,
    {
        self.rest.len() / self.size
    }

    /// The bytes after the last whole frame.
    pub fn partial_tail(&self) -> (r: &'a [u8])
        requires
            self.frame_size() > 0,
        ensures
            r@ == self.rest().subrange(
                (self.rest().len() / self.frame_size() as nat) * self.frame_size(),
                self.rest().len() as int,
            ),
    {
        let n = self.rest.len();
        let whole = n / self.size;
        assert(whole * self.size <= n) by (nonlinear_arith)
            requires
                whole == n / self.size,
                self.size > 0,
        ;
        &self.rest[whole * self.size..n]
    }

    /// All remaining whole frames, front to back.
    pub fn collect_frames(&self) -> (r: Vec<&'a [u8]>)
        requires
            self.frame_size() > 0,
        ensures
            r@.len() == self.rest().len() / self.frame_size() as nat,
            forall|i: int|
                0 <= i < r@.len() ==> (#[trigger] r@[i])@ == self.rest().subrange(
                    i * self.frame_size(),
                    (i + 1) * self.frame_size(),
                ),
    {
        let mut out: Vec<&'a [u8]> = Vec::new();
        let len = self.rest.len();
        let n = len / self.size;
        let mut i: usize = 0;
        while i < n
            invariant
                len == self.rest@.len(),
                self.size > 0,
                n == self.rest@.len() / self.size as nat,
                i <= n,
                out@.len() == i,
                forall|j: int|
                    0 <= j < i ==> (#[trigger] out@[j])@ == self.rest@.subrange(
                        j * self.size,
                        (j + 1) * self.size,
                    ),
            decreases n - i,
        {
            assert((i + 1) * self.size <= self.rest@.len() && i * self.size + self.size
                <= self.rest@.len()) by (nonlinear_arith)
                requires
                    i < n,
                    n == self.rest@.len() / self.size as nat,
                    self.size > 0,
            ;
            let start = i * self.size;
            let end = start + self.size;
            assert(end == (i + 1) * self.size) by (nonlinear_arith)
                requires
                    start == i * self.size,
                    end == start + self.size,
            ;
            out.push(&self.rest[start..end]);
            i = i + 1;
        }
        out
    }
}

/// Split an LPCM payload into its header and the PCM tail after the
/// seven header bytes.
pub fn peel_lpcm_payload(payload: &[u8]) -> (r: Result<(LpcmHeader, &[u8])>)
    ensures
        r is Err <==> (payload@.len() < 7 || !(0xA0 <= payload@[0] <= 0xA7)),
        r matches Err(e) ==> e is InvalidUdf,
        r matches Ok((h, tail)) ==> h == spec_lpcm_header(payload@) && tail@ == payload@.subrange(
            7,
            payload@.len() as int,
        ),
{
    match LpcmHeader::parse(payload) {
        Ok(header) => Ok((header, &payload[LPCM_HEADER_LEN..payload.len()])),
        Err(e) => Err(e),
    }
}

} // verus!
