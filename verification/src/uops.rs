//! User Operation prohibition masks (UOPs).
//!
//! Three on-disc fields carry a UOP-prohibition bitmask: the per-title
//! `TT_SRPT` entry (bits 0 and 1 only, in the low bits of `title_type`),
//! the per-PGC `prohibited_user_ops` word, and the per-VOBU PCI
//! `vobu_uop_ctl` word. The three are OR-ed together: a set bit in any
//! of them inhibits the associated control.

use vstd::prelude::*;

verus! {

/// Bit `0` — Time play or search.
pub const UOP_TIME_PLAY_OR_SEARCH: u8 = 0;
/// Bit `1` — PTT play or search.
pub const UOP_PTT_PLAY_OR_SEARCH: u8 = 1;
/// Bit `2` — Title play.
pub const UOP_TITLE_PLAY: u8 = 2;
/// Bit `3` — Stop.
pub const UOP_STOP: u8 = 3;
/// Bit `4` — GoUp.
pub const UOP_GO_UP: u8 = 4;
/// Bit `5` — Time or PTT search.
pub const UOP_TIME_OR_PTT_SEARCH: u8 = 5;
/// Bit `6` — TopPG or PrevPG search.
pub const UOP_TOP_PG_OR_PREV_PG_SEARCH: u8 = 6;
/// Bit `7` — NextPG search.
pub const UOP_NEXT_PG_SEARCH: u8 = 7;
/// Bit `8` — Forward scan.
pub const UOP_FORWARD_SCAN: u8 = 8;
/// Bit `9` — Backward scan.
pub const UOP_BACKWARD_SCAN: u8 = 9;
/// Bit `10` — Menu call (Title).
pub const UOP_MENU_CALL_TITLE: u8 = 10;
/// Bit `11` — Menu call (Root).
pub const UOP_MENU_CALL_ROOT: u8 = 11;
/// Bit `12` — Menu call (Subpicture).
pub const UOP_MENU_CALL_SUBPICTURE: u8 = 12;
/// Bit `13` — Menu call (Audio).
pub const UOP_MENU_CALL_AUDIO: u8 = 13;
/// Bit `14` — Menu call (Angle).
pub const UOP_MENU_CALL_ANGLE: u8 = 14;
/// Bit `15` — Menu call (PTT).
pub const UOP_MENU_CALL_PTT: u8 = 15;
/// Bit `16` — Resume.
pub const UOP_RESUME: u8 = 16;
/// Bit `17` — Button select or activate.
pub const UOP_BUTTON_SELECT_OR_ACTIVATE: u8 = 17;
/// Bit `18` — Still off.
pub const UOP_STILL_OFF: u8 = 18;
/// Bit `19` — Pause on.
pub const UOP_PAUSE_ON: u8 = 19;
/// Bit `20` — Audio stream change.
pub const UOP_AUDIO_STREAM_CHANGE: u8 = 20;
/// Bit `21` — Subpicture stream change.
pub const UOP_SUBPICTURE_STREAM_CHANGE: u8 = 21;
/// Bit `22` — Angle change.
pub const UOP_ANGLE_CHANGE: u8 = 22;
/// Bit `23` — Karaoke audio mix change.
pub const UOP_KARAOKE_AUDIO_MIX_CHANGE: u8 = 23;
/// Bit `24` — Video presentation mode change.
pub const UOP_VIDEO_PRESENTATION_MODE_CHANGE: u8 = 24;

/// Number of defined UOP bit positions.
pub const UOP_BIT_COUNT: u8 = 25;

/// Mask covering every defined UOP bit (bits `0..=24`).
pub const UOP_DEFINED_BITS: u32 = 0x01FF_FFFF;

/// One of the 25 prohibitable user operations, in bit order.
#[derive(Debug, Clone, Copy, PartialEq, Eq, Hash)]
pub enum UserOp {
    /// Bit `0`.
    TimePlayOrSearch,
    /// Bit `1`.
    PttPlayOrSearch,
    /// Bit `2`.
    TitlePlay,
    /// Bit `3`.
    Stop,
    /// Bit `4`.
    GoUp,
    /// Bit `5`.
    TimeOrPttSearch,
    /// Bit `6`.
    TopPgOrPrevPgSearch,
    /// Bit `7`.
    NextPgSearch,
    /// Bit `8`.
    ForwardScan,
    /// Bit `9`.
    BackwardScan,
    /// Bit `10`.
    MenuCallTitle,
    /// Bit `11`.
    MenuCallRoot,
    /// Bit `12`.
    MenuCallSubpicture,
    /// Bit `13`.
    MenuCallAudio,
    /// Bit `14`.
    MenuCallAngle,
    /// Bit `15`.
    MenuCallPtt,
    /// Bit `16`.
    Resume,
    /// Bit `17`.
    ButtonSelectOrActivate,
    /// Bit `18`.
    StillOff,
    /// Bit `19`.
    PauseOn,
    /// Bit `20`.
    AudioStreamChange,
    /// Bit `21`.
    SubpictureStreamChange,
    /// Bit `22`.
    AngleChange,
    /// Bit `23`.
    KaraokeAudioMixChange,
    /// Bit `24`.
    VideoPresentationModeChange,
}

/// The operation whose bit number is `bit` (for `bit < 25`).
pub open spec fn op_with_bit(bit: int) -> UserOp {
    if bit == 0 { UserOp::TimePlayOrSearch }
    else if bit == 1 { UserOp::PttPlayOrSearch }
    else if bit == 2 { UserOp::TitlePlay }
    else if bit == 3 { UserOp::Stop }
    else if bit == 4 { UserOp::GoUp }
    else if bit == 5 { UserOp::TimeOrPttSearch }
    else if bit == 6 { UserOp::TopPgOrPrevPgSearch }
    else if bit == 7 { UserOp::NextPgSearch }
    else if bit == 8 { UserOp::ForwardScan }
    else if bit == 9 { UserOp::BackwardScan }
    else if bit == 10 { UserOp::MenuCallTitle }
    else if bit == 11 { UserOp::MenuCallRoot }
    else if bit == 12 { UserOp::MenuCallSubpicture }
    else if bit == 13 { UserOp::MenuCallAudio }
    else if bit == 14 { UserOp::MenuCallAngle }
    else if bit == 15 { UserOp::MenuCallPtt }
    else if bit == 16 { UserOp::Resume }
    else if bit == 17 { UserOp::ButtonSelectOrActivate }
    else if bit == 18 { UserOp::StillOff }
    else if bit == 19 { UserOp::PauseOn }
    else if bit == 20 { UserOp::AudioStreamChange }
    else if bit == 21 { UserOp::SubpictureStreamChange }
    else if bit == 22 { UserOp::AngleChange }
    else if bit == 23 { UserOp::KaraokeAudioMixChange }
    else { UserOp::VideoPresentationModeChange }
}

/// Bit `i` of `b` is set.
pub open spec fn bit_set(b: u32, i: u32) -> bool {
    b & (1u32 << i) != 0u32
}

impl UserOp {
    /// All 25 operations in bit order.
    pub const ALL: [UserOp; 25] = [
        UserOp::TimePlayOrSearch,
        UserOp::PttPlayOrSearch,
        UserOp::TitlePlay,
        UserOp::Stop,
        UserOp::GoUp,
        UserOp::TimeOrPttSearch,
        UserOp::TopPgOrPrevPgSearch,
        UserOp::NextPgSearch,
        UserOp::ForwardScan,
        UserOp::BackwardScan,
        UserOp::MenuCallTitle,
        UserOp::MenuCallRoot,
        UserOp::MenuCallSubpicture,
        UserOp::MenuCallAudio,
        UserOp::MenuCallAngle,
        UserOp::MenuCallPtt,
        UserOp::Resume,
        UserOp::ButtonSelectOrActivate,
        UserOp::StillOff,
        UserOp::PauseOn,
        UserOp::AudioStreamChange,
        UserOp::SubpictureStreamChange,
        UserOp::AngleChange,
        UserOp::KaraokeAudioMixChange,
        UserOp::VideoPresentationModeChange,
    ];

    /// Spec bit number (`0..=24`).
    #[verifier::allow_in_spec]
    pub fn bit(self) -> u8
        returns
            (match self {
                UserOp::TimePlayOrSearch => 0u8,
                UserOp::PttPlayOrSearch => 1u8,
                UserOp::TitlePlay => 2u8,
                UserOp::Stop => 3u8,
                UserOp::GoUp => 4u8,
                UserOp::TimeOrPttSearch => 5u8,
                UserOp::TopPgOrPrevPgSearch => 6u8,
                UserOp::NextPgSearch => 7u8,
                UserOp::ForwardScan => 8u8,
                UserOp::BackwardScan => 9u8,
                UserOp::MenuCallTitle => 10u8,
                UserOp::MenuCallRoot => 11u8,
                UserOp::MenuCallSubpicture => 12u8,
                UserOp::MenuCallAudio => 13u8,
                UserOp::MenuCallAngle => 14u8,
                UserOp::MenuCallPtt => 15u8,
                UserOp::Resume => 16u8,
                UserOp::ButtonSelectOrActivate => 17u8,
                UserOp::StillOff => 18u8,
                UserOp::PauseOn => 19u8,
                UserOp::AudioStreamChange => 20u8,
                UserOp::SubpictureStreamChange => 21u8,
                UserOp::AngleChange => 22u8,
                UserOp::KaraokeAudioMixChange => 23u8,
                UserOp::VideoPresentationModeChange => 24u8,
            }),
    {
        match self {
            UserOp::TimePlayOrSearch => 0,
            UserOp::PttPlayOrSearch => 1,
            UserOp::TitlePlay => 2,
            UserOp::Stop => 3,
            UserOp::GoUp => 4,
            UserOp::TimeOrPttSearch => 5,
            UserOp::TopPgOrPrevPgSearch => 6,
            UserOp::NextPgSearch => 7,
            UserOp::ForwardScan => 8,
            UserOp::BackwardScan => 9,
            UserOp::MenuCallTitle => 10,
            UserOp::MenuCallRoot => 11,
            UserOp::MenuCallSubpicture => 12,
            UserOp::MenuCallAudio => 13,
            UserOp::MenuCallAngle => 14,
            UserOp::MenuCallPtt => 15,
            UserOp::Resume => 16,
            UserOp::ButtonSelectOrActivate => 17,
            UserOp::StillOff => 18,
            UserOp::PauseOn => 19,
            UserOp::AudioStreamChange => 20,
            UserOp::SubpictureStreamChange => 21,
            UserOp::AngleChange => 22,
            UserOp::KaraokeAudioMixChange => 23,
            UserOp::VideoPresentationModeChange => 24,
        }
    }

    /// Single-bit mask value (`1 << bit`).
    #[verifier::allow_in_spec]
    pub fn mask(self) -> u32
        returns
            1u32 << (self.bit() as u32),
    {
        1u32 << (self.bit() as u32)
    }

    /// The operation with bit number `bit`; `None` for `bit >= 25`.
    #[verifier::allow_in_spec]
    pub fn from_bit(bit: u8) -> Option<UserOp>
        returns
            (if bit < 25 { Some(op_with_bit(bit as int)) } else { None }),
    {
        match bit {
            0 => Some(UserOp::TimePlayOrSearch),
            1 => Some(UserOp::PttPlayOrSearch),
            2 => Some(UserOp::TitlePlay),
            3 => Some(UserOp::Stop),
            4 => Some(UserOp::GoUp),
            5 => Some(UserOp::TimeOrPttSearch),
            6 => Some(UserOp::TopPgOrPrevPgSearch),
            7 => Some(UserOp::NextPgSearch),
            8 => Some(UserOp::ForwardScan),
            9 => Some(UserOp::BackwardScan),
            10 => Some(UserOp::MenuCallTitle),
            11 => Some(UserOp::MenuCallRoot),
            12 => Some(UserOp::MenuCallSubpicture),
            13 => Some(UserOp::MenuCallAudio),
            14 => Some(UserOp::MenuCallAngle),
            15 => Some(UserOp::MenuCallPtt),
            16 => Some(UserOp::Resume),
            17 => Some(UserOp::ButtonSelectOrActivate),
            18 => Some(UserOp::StillOff),
            19 => Some(UserOp::PauseOn),
            20 => Some(UserOp::AudioStreamChange),
            21 => Some(UserOp::SubpictureStreamChange),
            22 => Some(UserOp::AngleChange),
            23 => Some(UserOp::KaraokeAudioMixChange),
            24 => Some(UserOp::VideoPresentationModeChange),
            _ => None,
        }
    }

    /// `true` when this operation may legally appear in `level`'s mask:
    /// `TT_SRPT` carries bits 0 and 1 only, the PGC every bit but GoUp,
    /// the VOBU every bit but 0, 1, 2 and 17.
    #[verifier::allow_in_spec]
    pub fn applies_to(self, level: UopLevel) -> bool
        returns
            (match level {
                UopLevel::TitleSearchPointer => self.bit() <= 1,
                UopLevel::ProgramChain => self.bit() != 4,
                UopLevel::Vobu => !(self.bit() <= 2 || self.bit() == 17),
            }),
    {
        match level {
            UopLevel::TitleSearchPointer => {
                matches!(self, UserOp::TimePlayOrSearch | UserOp::PttPlayOrSearch)
            },
            UopLevel::ProgramChain => !matches!(self, UserOp::GoUp),
            UopLevel::Vobu => !matches!(
                self,
                UserOp::TimePlayOrSearch | UserOp::PttPlayOrSearch | UserOp::TitlePlay
                    | UserOp::ButtonSelectOrActivate
            ),
        }
    }
}

/// The three on-disc levels at which a UOP mask appears.
#[derive(Debug, Clone, Copy, PartialEq, Eq, Hash)]
pub enum UopLevel {
    /// Per-title `TT_SRPT` entry.
    TitleSearchPointer,
    /// Per-PGC `prohibited_user_ops`.
    ProgramChain,
    /// Per-VOBU PCI `vobu_uop_ctl`.
    Vobu,
}

impl UopLevel {
    /// The bits that may legally appear in this level's mask.
    #[verifier::allow_in_spec]
    pub fn cover(self) -> u32
        returns
            (match self {
                UopLevel::TitleSearchPointer => 0x0000_0003u32,
                UopLevel::ProgramChain => 0x01FF_FFEFu32,
                UopLevel::Vobu => 0x01FD_FFF8u32,
            }),
    {
        match self {
            // bits 0 and 1
            UopLevel::TitleSearchPointer => 0x0000_0003,
            // bits 0..=24 except 4
            UopLevel::ProgramChain => 0x01FF_FFEF,
            // bits 0..=24 except 0, 1, 2 and 17
            UopLevel::Vobu => 0x01FD_FFF8,
        }
    }
}

/// The operations whose bits are set in `b` among bits `0..n`, in
/// ascending bit order.
pub open spec fn ops_below(b: u32, n: nat) -> Seq<UserOp>
    decreases n,
{
    if n == 0 {
        Seq::empty()
    } else {
        let k = (n - 1) as nat;
        if k < 25 && bit_set(b, k as u32) {
            ops_below(b, k).push(op_with_bit(k as int))
        } else {
            ops_below(b, k)
        }
    }
}

/// The prohibited operations of a mask word, in ascending bit order.
pub open spec fn prohibited_ops(b: u32) -> Seq<UserOp> {
    ops_below(b, 25)
}

/// Typed view over a UOP-prohibition word; a `1` bit prohibits the
/// corresponding operation.
#[derive(Debug, Clone, Copy, Default, PartialEq, Eq, Hash)]
pub struct UopMask {
    bits: u32,
}

impl View for UopMask {
    type V = u32;

    /// The raw on-disc word.
    closed spec fn view(&self) -> u32 {
        self.bits
    }
}

impl UopMask {
    /// All operations allowed (no bits set).
    pub fn none() -> (r: UopMask)
        ensures
            r@ == 0u32,
    {
        UopMask { bits: 0 }
    }

    /// All 25 defined operations prohibited.
    pub fn all() -> (r: UopMask)
        ensures
            r@ == UOP_DEFINED_BITS,
    {
        UopMask { bits: UOP_DEFINED_BITS }
    }

    /// Wrap a raw on-disc word; bits above 24 are kept in [`Self::raw`]
    /// but ignored by every typed accessor.
    pub fn from_bits(bits: u32) -> (r: UopMask)
        ensures
            r@ == bits,
    {
        UopMask { bits }
    }

    /// The raw 32-bit word.
    pub fn raw(self) -> (r: u32)
        ensures
            r == self@,
    {
        self.bits
    }

    /// The raw word masked to bits `0..=24`.
    pub fn defined_bits(self) -> (r: u32)
        ensures
            r == self@ & UOP_DEFINED_BITS,
    {
        self.bits & UOP_DEFINED_BITS
    }

    /// `true` when `op` is prohibited.
    pub fn contains(self, op: UserOp) -> (r: bool)
        ensures
            r == bit_set(self@, op.bit() as u32),
    {
        (self.bits & op.mask()) != 0
    }

    /// `true` when `op` is allowed.
    pub fn is_allowed(self, op: UserOp) -> (r: bool)
        ensures
            r == !bit_set(self@, op.bit() as u32),
    {
        !self.contains(op)
    }

    /// Prohibit `op`.
    pub fn with(self, op: UserOp) -> (r: UopMask)
        ensures
            r@ == self@ | op.mask(),
    {
        UopMask { bits: self.bits | op.mask() }
    }

    /// Re-allow `op`.
    pub fn without(self, op: UserOp) -> (r: UopMask)
        ensures
            r@ == self@ & !op.mask(),
    {
        UopMask { bits: self.bits & !op.mask() }
    }

    /// In-place [`Self::with`].
    pub fn set(&mut self, op: UserOp)
        ensures
            final(self)@ == old(self)@ | op.mask(),
    {
        self.bits = self.bits | op.mask();
    }

    /// In-place [`Self::without`].
    pub fn clear(&mut self, op: UserOp)
        ensures
            final(self)@ == old(self)@ & !op.mask(),
    {
        self.bits = self.bits & !op.mask();
    }

    /// `true` when no defined bit is set.
    pub fn is_empty(self) -> (r: bool)
        ensures
            r == (self@ & UOP_DEFINED_BITS == 0u32),
    {
        (self.bits & UOP_DEFINED_BITS) == 0
    }

    /// Three-level merge: a bit set in any mask stays set.
    pub fn merge_or(a: UopMask, b: UopMask, c: UopMask) -> (r: UopMask)
        ensures
            r@ == a@ | b@ | c@,
    {
        UopMask { bits: a.bits | b.bits | c.bits }
    }

    /// Number of prohibited defined operations.
    pub fn count(self) -> (r: u32)
        ensures
            r == prohibited_ops(self@).len(),
    {
        let mut n: u32 = 0;
        let mut i: u32 = 0;
        while i < 25
            invariant
                i <= 25,
                n == ops_below(self@, i as nat).len(),
                n <= i,
            decreases 25 - i,
        {
            if self.bits & (1u32 << i) != 0 {
                n = n + 1;
            }
            i = i + 1;
        }
        n
    }

    /// `true` when every prohibited defined bit is one `level` may carry.
    pub fn fits_level(self, level: UopLevel) -> (r: bool)
        ensures
            r == (self@ & UOP_DEFINED_BITS & !level.cover() == 0u32),
    {
        (self.defined_bits() & !level.cover()) == 0
    }

    /// Iterator over the prohibited operations in ascending bit order.
    pub fn iter(self) -> (r: UopIter)
        ensures
            r@ == prohibited_ops(self@),
    {
        let d = self.defined_bits();
        proof {
            lemma_ops_below_defined(self@, 25);
        }
        UopIter { remaining: d }
    }

    /// The text form `UopMask(0xHHHHHHHH)` with eight upper-case hex digits.
    pub fn to_display_string(self) -> (r: String)
        ensures
            r@ == "UopMask(0x"@ + hex8(self@) + ")"@,
    {
        let mut s = String::from_str("UopMask(0x");
        let mut k: u32 = 0;
        while k < 8
            invariant
                k <= 8,
                s@ == "UopMask(0x"@ + hex_prefix(self@, k as nat),
            decreases 8 - k,
        {
            let nib: u32 = (self.bits >> (28 - 4 * k)) % 16;
            let ghost prev = s@;
            s.append(hex_digit_str(nib));
            assert(s@ =~= "UopMask(0x"@ + hex_prefix(self@, (k + 1) as nat));
            k = k + 1;
        }
        s.append(")");
        s
    }
}

/// The upper-case hex digit of a nibble.
pub open spec fn hex_char(n: u32) -> char {
    if n == 0 { '0' }
    else if n == 1 { '1' }
    else if n == 2 { '2' }
    else if n == 3 { '3' }
    else if n == 4 { '4' }
    else if n == 5 { '5' }
    else if n == 6 { '6' }
    else if n == 7 { '7' }
    else if n == 8 { '8' }
    else if n == 9 { '9' }
    else if n == 10 { 'A' }
    else if n == 11 { 'B' }
    else if n == 12 { 'C' }
    else if n == 13 { 'D' }
    else if n == 14 { 'E' }
    else { 'F' }
}

/// The first `k` of the eight hex digits of `b`, most significant first.
pub open spec fn hex_prefix(b: u32, k: nat) -> Seq<char>
    decreases k,
{
    if k == 0 {
        Seq::empty()
    } else {
        let j = (k - 1) as nat;
        hex_prefix(b, j).push(hex_char((b >> ((28 - 4 * j) as u32)) % 16))
    }
}

/// The eight upper-case hex digits of `b`, most significant first.
pub open spec fn hex8(b: u32) -> Seq<char> {
    hex_prefix(b, 8)
}

fn hex_digit_str(n: u32) -> (r: &'static str)
    requires
        n < 16,
    ensures
        r@ == seq![hex_char(n)],
{
    proof {
        reveal_strlit("0");
        reveal_strlit("1");
        reveal_strlit("2");
        reveal_strlit("3");
        reveal_strlit("4");
        reveal_strlit("5");
        reveal_strlit("6");
        reveal_strlit("7");
        reveal_strlit("8");
        reveal_strlit("9");
        reveal_strlit("A");
        reveal_strlit("B");
        reveal_strlit("C");
        reveal_strlit("D");
        reveal_strlit("E");
        reveal_strlit("F");
    }
    match n {
        0 => "0",
        1 => "1",
        2 => "2",
        3 => "3",
        4 => "4",
        5 => "5",
        6 => "6",
        7 => "7",
        8 => "8",
        9 => "9",
        10 => "A",
        11 => "B",
        12 => "C",
        13 => "D",
        14 => "E",
        _ => "F",
    }
}

impl From<u32> for UopMask {
    fn from(bits: u32) -> (r: UopMask) {
        UopMask { bits }
    }
}

impl vstd::std_specs::convert::FromSpecImpl<u32> for UopMask {
    open spec fn obeys_from_spec() -> bool {
        true
    }

    open spec fn from_spec(bits: u32) -> UopMask {
        UopMask::from_bits_spec(bits)
    }
}

impl From<UopMask> for u32 {
    fn from(m: UopMask) -> (r: u32) {
        m.bits
    }
}

impl vstd::std_specs::convert::FromSpecImpl<UopMask> for u32 {
    open spec fn obeys_from_spec() -> bool {
        true
    }

    open spec fn from_spec(m: UopMask) -> u32 {
        m@
    }
}

impl UopMask {
    /// The mask holding the raw word `bits`.
    pub closed spec fn from_bits_spec(bits: u32) -> UopMask {
        UopMask { bits }
    }

    /// `from_bits_spec` views back to its word.
    pub proof fn lemma_from_bits_spec(bits: u32)
        ensures
            #[trigger] UopMask::from_bits_spec(bits)@ == bits,
    {
    }
}

/// Iterator over the prohibited operations of a [`UopMask`].
#[derive(Debug, Clone, Copy)]
pub struct UopIter {
    remaining: u32,
}

impl View for UopIter {
    type V = Seq<UserOp>;

    /// The operations still to come, in ascending bit order.
    closed spec fn view(&self) -> Seq<UserOp> {
        prohibited_ops(self.remaining)
    }
}

impl UopIter {
    /// The next prohibited operation, lowest bit first.
    pub fn next(&mut self) -> (r: Option<UserOp>)
        ensures
            old(self)@.len() == 0 ==> r is None && final(self)@ == old(self)@,
            old(self)@.len() > 0 ==> r == Some(old(self)@[0]) && final(self)@
                == old(self)@.drop_first(),
    {
        let mut k: u32 = 0;
        while k < 25
            invariant
                k <= 25,
                ops_below(self.remaining, k as nat).len() == 0,
                self.remaining == old(self).remaining,
            decreases 25 - k,
        {
            if self.remaining & (1u32 << k) != 0 {
                let ghost before = self.remaining;
                self.remaining = self.remaining & !(1u32 << k);
                proof {
                    lemma_ops_below_remove_lowest(before, k, 25);
                    assert(prohibited_ops(self.remaining) =~= prohibited_ops(before).drop_first());
                }
                return UserOp::from_bit(k as u8);
            }
            k = k + 1;
        }
        None
    }

    /// Drain the iterator into a vector, in ascending bit order.
    pub fn collect_ops(self) -> (r: Vec<UserOp>)
        ensures
            r@ == self@,
    {
        let mut it = self;
        let ghost start = it@;
        assert(start == self@);
        let mut out: Vec<UserOp> = Vec::new();
        assert(start =~= out@ + it@);
        loop
            invariant
                start == out@ + it@,
                start == self@,
            decreases it@.len(),
        {
            let ghost prev = it@;
            match it.next() {
                Some(op) => {
                    out.push(op);
                    assert(prev =~= seq![op] + it@);
                    assert(start =~= out@ + it@);
                },
                None => {
                    assert(out@ + it@ =~= out@);
                    assert(out@ == self@);
                    return out;
                },
            }
        }
    }
}

/// The prohibited-ops list of a mask word only looks at bits below `n`
/// and so is unchanged by clearing the reserved bits.
proof fn lemma_ops_below_defined(b: u32, n: nat)
    requires
        n <= 25,
    ensures
        ops_below(b & UOP_DEFINED_BITS, n) == ops_below(b, n),
    decreases n,
{
    if n > 0 {
        let k = (n - 1) as u32;
        lemma_ops_below_defined(b, (n - 1) as nat);
        assert(bit_set(b & 0x01FF_FFFFu32, k) == bit_set(b, k)) by (bit_vector)
            requires
                k < 25,
        ;
    }
}

/// Clearing bit `k` of `b`, where no lower bit is set, drops exactly the
/// first listed operation.
proof fn lemma_ops_below_remove_lowest(b: u32, k: u32, n: nat)
    requires
        k < 25,
        bit_set(b, k),
        ops_below(b, k as nat).len() == 0,
        k < n <= 25,
    ensures
        ops_below(b, n) == seq![op_with_bit(k as int)] + ops_below(b & !(1u32 << k), n),
    decreases n,
{
    let c = b & !(1u32 << k);
    if n == k + 1 {
        lemma_ops_below_same_low(b, c, k, k as nat);
        assert(!bit_set(c, k)) by (bit_vector)
            requires
                c == b & !(1u32 << k),
                k < 25,
        ;
        assert(ops_below(b, k as nat) =~= Seq::<UserOp>::empty());
        assert(ops_below(b, n) =~= seq![op_with_bit(k as int)]);
        assert(ops_below(c, n) =~= Seq::<UserOp>::empty());
    } else {
        let m = (n - 1) as nat;
        lemma_ops_below_remove_lowest(b, k, m);
        let j = m as u32;
        assert(bit_set(c, j) == bit_set(b, j)) by (bit_vector)
            requires
                c == b & !(1u32 << k),
                j != k,
                j < 25,
                k < 25,
        ;
        assert(ops_below(b, n) =~= seq![op_with_bit(k as int)] + ops_below(c, n));
    }
}

/// Two words agreeing on bits below `n` list the same operations there.
proof fn lemma_ops_below_same_low(b: u32, c: u32, k: u32, n: nat)
    requires
        n <= k < 25,
        c == b & !(1u32 << k),
    ensures
        ops_below(c, n) == ops_below(b, n),
    decreases n,
{
    if n > 0 {
        let j = (n - 1) as u32;
        lemma_ops_below_same_low(b, c, k, (n - 1) as nat);
        assert(bit_set(c, j) == bit_set(b, j)) by (bit_vector)
            requires
                c == b & !(1u32 << k),
                j < k,
                k < 25,
        ;
    }
}


/// The bit number of an operation is below 25, and the operation with
/// that bit number is the operation itself.
pub proof fn lemma_op_bit_round_trip(op: UserOp)
    ensures
        op.bit() < 25,
        op_with_bit(op.bit() as int) == op,
        UserOp::from_bit(op.bit()) == Some(op),
{
}

/// The three-level merge does not depend on the order of its arguments,
/// and merging two levels first and then the third (with an empty middle
/// level) gives the same mask.
pub proof fn lemma_merge_or_laws(a: u32, b: u32, c: u32)
    ensures
        a | b | c == c | a | b,
        a | b | c == b | c | a,
        a | b | c == b | a | c,
        (a | b) | 0u32 | c == a | b | c,
        a | 0u32 | 0u32 == a,
{
    assert(a | b | c == c | a | b && a | b | c == b | c | a && a | b | c == b | a | c
        && (a | b) | 0u32 | c == a | b | c && a | 0u32 | 0u32 == a) by (bit_vector);
}

/// A bit set in any one level is set in the merge, and a bit clear in all
/// three is clear in it.
pub proof fn lemma_merge_or_inhibits(a: u32, b: u32, c: u32, i: u32)
    requires
        i < 32,
    ensures
        bit_set(a | b | c, i) <==> (bit_set(a, i) || bit_set(b, i) || bit_set(c, i)),
{
    assert(bit_set(a | b | c, i) <==> (bit_set(a, i) || bit_set(b, i) || bit_set(c, i)))
        by (bit_vector)
        requires
            i < 32,
    ;
}

/// Setting an operation's bit prohibits it and leaves every other bit as
/// it was; clearing it allows it and leaves every other bit as it was.
pub proof fn lemma_with_without(b: u32, op: UserOp, i: u32)
    requires
        i < 32,
    ensures
        bit_set(b | op.mask(), op.bit() as u32),
        !bit_set(b & !op.mask(), op.bit() as u32),
        i != op.bit() ==> bit_set(b | op.mask(), i) == bit_set(b, i),
        i != op.bit() ==> bit_set(b & !op.mask(), i) == bit_set(b, i),
        (b | op.mask()) & !op.mask() == b & !op.mask(),
{
    let k = op.bit() as u32;
    assert(k < 25);
    assert(bit_set(b | (1u32 << k), k) && !bit_set(b & !(1u32 << k), k) && (i != k ==> bit_set(
        b | (1u32 << k),
        i,
    ) == bit_set(b, i)) && (i != k ==> bit_set(b & !(1u32 << k), i) == bit_set(b, i)) && (b | (1u32
        << k)) & !(1u32 << k) == b & !(1u32 << k)) by (bit_vector)
        requires
            i < 32,
            k < 25,
    ;
}

/// An operation may appear in a level's mask exactly when its bit is set
/// in that level's cover.
pub proof fn lemma_applies_to_matches_cover(op: UserOp, level: UopLevel)
    ensures
        op.applies_to(level) == bit_set(level.cover(), op.bit() as u32),
{
    let i = op.bit() as u32;
    assert(i < 25);
    assert((bit_set(3u32, i) <==> i <= 1) && (bit_set(0x01FF_FFEFu32, i) <==> i != 4) && (
    bit_set(0x01FD_FFF8u32, i) <==> !(i <= 2 || i == 17))) by (bit_vector)
        requires
            i < 25,
    ;
}

/// A mask fits a level exactly when every operation it prohibits may
/// appear at that level.
pub proof fn lemma_fits_level_iff(b: u32, level: UopLevel)
    ensures
        (b & UOP_DEFINED_BITS & !level.cover() == 0u32) <==> (forall|op: UserOp|
            bit_set(b, #[trigger] op.bit() as u32) ==> op.applies_to(level)),
{
    let c = level.cover();
    if b & UOP_DEFINED_BITS & !c == 0u32 {
        assert forall|op: UserOp| bit_set(b, #[trigger] op.bit() as u32) implies op.applies_to(
            level,
        ) by {
            let i = op.bit() as u32;
            lemma_applies_to_matches_cover(op, level);
            assert(bit_set(c, i)) by (bit_vector)
                requires
                    b & 0x01FF_FFFFu32 & !c == 0u32,
                    i < 25,
                    bit_set(b, i),
            ;
        }
    } else {
        let x = b & UOP_DEFINED_BITS & !c;
        let t = vstd::std_specs::bits::u32_trailing_zeros(x);
        vstd::std_specs::bits::axiom_u32_trailing_zeros(x);
        assert(t < 25 && bit_set(b, t) && !bit_set(c, t)) by (bit_vector)
            requires
                x == b & 0x01FF_FFFFu32 & !c,
                t < 32,
                (x >> t) & 1u32 == 1u32,
        ;
        let op = op_with_bit(t as int);
        assert(op.bit() == t as u8);
        lemma_applies_to_matches_cover(op, level);
    }
}

/// A `title_type` byte always yields a mask that fits the `TT_SRPT` level.
pub proof fn lemma_title_type_mask_fits(title_type: u8)
    ensures
        ((title_type & 3u8) as u32) & UOP_DEFINED_BITS & !UopLevel::TitleSearchPointer.cover()
            == 0u32,
        ((title_type & 3u8) as u32) & !3u32 == 0u32,
{
    assert(((title_type & 3u8) as u32) & 0x01FF_FFFFu32 & !3u32 == 0u32 && ((title_type & 3u8)
        as u32) & !3u32 == 0u32) by (bit_vector);
}

/// The listed operations are exactly the prohibited defined ones, in
/// strictly ascending bit order.
pub proof fn lemma_prohibited_ops_exact(b: u32)
    ensures
        forall|op: UserOp| #[trigger] prohibited_ops(b).contains(op) <==> bit_set(b, op.bit() as u32),
        forall|i: int, j: int|
            0 <= i < j < prohibited_ops(b).len() ==> (#[trigger] prohibited_ops(b)[i]).bit()
                < (#[trigger] prohibited_ops(b)[j]).bit(),
{
    lemma_ops_below_exact(b, 25);
    assert forall|op: UserOp| #[trigger] prohibited_ops(b).contains(op) <==> bit_set(b, op.bit() as u32) by {
        lemma_op_bit_round_trip(op);
    }
}

proof fn lemma_ops_below_exact(b: u32, n: nat)
    requires
        n <= 25,
    ensures
        forall|op: UserOp| #[trigger] ops_below(b, n).contains(op) <==> (op.bit() < n && bit_set(b, op.bit() as u32)),
        forall|i: int| 0 <= i < ops_below(b, n).len() ==> (#[trigger] ops_below(b, n)[i]).bit() < n,
        forall|i: int, j: int|
            0 <= i < j < ops_below(b, n).len() ==> (#[trigger] ops_below(b, n)[i]).bit()
                < (#[trigger] ops_below(b, n)[j]).bit(),
    decreases n,
{
    if n > 0 {
        let k = (n - 1) as nat;
        lemma_ops_below_exact(b, k);
        let prev = ops_below(b, k);
        if k < 25 && bit_set(b, k as u32) {
            let x = op_with_bit(k as int);
            assert(x.bit() == k);
            let s = ops_below(b, n);
            assert(s == prev.push(x));
            assert forall|op: UserOp| #[trigger] s.contains(op) <==> (op.bit() < n && bit_set(b, op.bit() as u32)) by {
                lemma_op_bit_round_trip(op);
                if s.contains(op) {
                    let idx = choose|i: int| 0 <= i < s.len() && s[i] == op;
                    if idx < prev.len() {
                        assert(prev[idx] == op);
                        assert(prev.contains(op));
                    }
                }
                if op.bit() < n && bit_set(b, op.bit() as u32) {
                    if op.bit() < k {
                        assert(prev.contains(op));
                        let idx = choose|i: int| 0 <= i < prev.len() && prev[i] == op;
                        assert(s[idx] == op);
                    } else {
                        assert(s[prev.len() as int] == x);
                    }
                }
            }
        } else {
            assert forall|op: UserOp| #[trigger] ops_below(b, n).contains(op) <==> (op.bit() < n && bit_set(b, op.bit() as u32)) by {
                lemma_op_bit_round_trip(op);
            }
        }
    }
}

/// The 2-bit UOP subset in the low bits of a `TT_SRPT` `title_type`.
pub fn title_type_uop_mask(title_type: u8) -> (r: UopMask)
    ensures
        r@ == (title_type & 3u8) as u32,
{
    UopMask::from_bits((title_type & 0b0000_0011) as u32)
}

} // verus!
