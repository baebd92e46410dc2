//! Sub-Picture Unit (SPU) decoder: subtitles and menu overlays.
//!
//! An SPU is laid out as `| SPUH | PXDtf | PXDbf | SP_DCSQT |`: a 4-byte
//! header (total size, offset of the control-sequence table), two fields
//! of 2-bit run-length-encoded pixel data, and a chain of display-control
//! sequences, each a 4-byte header (start delay, next pointer) followed
//! by one-byte commands ending in `0xFF`.

use vstd::prelude::*;

use crate::bits::{bit_at, bits_at, lemma_bits_at_bound, pow2};
use crate::error::{Error, Result};

verus! {

/// The big-endian 16-bit word at `b[i], b[i + 1]`.
pub open spec fn be16(b: Seq<u8>, i: int) -> int {
    b[i] as int * 256 + b[i + 1] as int
}

/// One SPU's 4-byte header.
#[derive(Debug, Clone, Copy, PartialEq, Eq)]
pub struct SpuHeader {
    /// `SPDSZ` — total size of the unit in bytes.
    pub size: u16,
    /// `SP_DCSQTA` — offset of the control-sequence table.
    pub dcsqt_offset: u16,
}

impl SpuHeader {
    /// Parse the 4-byte header at the start of `buf`; `InvalidUdf` when
    /// fewer than four bytes are given.
    pub fn parse(buf: &[u8]) -> (r: Result<Self>)
        ensures
            r is Err <==> buf@.len() < 4,
            r matches Err(e) ==> e is InvalidUdf,
            r matches Ok(h) ==> h.size == be16(buf@, 0) && h.dcsqt_offset == be16(buf@, 2),
    {
        if buf.len() < 4 {
            return Err(Error::InvalidUdf("SPU header shorter than 4 bytes"));
        }
        Ok(SpuHeader {
            size: buf[0] as u16 * 256 + buf[1] as u16,
            dcsqt_offset: buf[2] as u16 * 256 + buf[3] as u16,
        })
    }
}

/// One command of a display-control sequence.
#[derive(Debug, Clone, PartialEq, Eq)]
pub enum SpuCommand {
    /// `0x00` — forced start display.
    ForcedStartDisplay,
    /// `0x01` — start display.
    StartDisplay,
    /// `0x02` — stop display.
    StopDisplay,
    /// `0x03` — palette indices for the four pixel values.
    SetColor {
        /// Index for pixel value 3.
        emphasis2: u8,
        /// Index for pixel value 2.
        emphasis1: u8,
        /// Index for pixel value 1.
        pattern: u8,
        /// Index for pixel value 0.
        background: u8,
    },
    /// `0x04` — alpha values for the four pixel values.
    SetContrast {
        /// Alpha for pixel value 3.
        emphasis2: u8,
        /// Alpha for pixel value 2.
        emphasis1: u8,
        /// Alpha for pixel value 1.
        pattern: u8,
        /// Alpha for pixel value 0.
        background: u8,
    },
    /// `0x05` — display rectangle (inclusive 12-bit coordinates).
    SetDisplayArea {
        /// Left column.
        start_x: u16,
        /// Right column.
        end_x: u16,
        /// Top line.
        start_y: u16,
        /// Bottom line.
        end_y: u16,
    },
    /// `0x06` — offsets of the top- and bottom-field pixel data.
    SetPixelDataAddresses {
        /// Offset of the top-field data.
        top_field_offset: u16,
        /// Offset of the bottom-field data.
        bottom_field_offset: u16,
    },
    /// `0x07` — change-colour-contrast parameter block, kept raw
    /// (including its leading 2-byte size word).
    ChangeColorContrast {
        /// The parameter bytes.
        raw: Vec<u8>,
    },
    /// `0xFF` — end of the command list.
    EndOfSequence,
}

impl SpuCommand {
    /// The on-wire opcode byte.
    pub fn opcode(&self) -> (r: u8)
        ensures
            r == (match *self {
                SpuCommand::ForcedStartDisplay => 0x00u8,
                SpuCommand::StartDisplay => 0x01u8,
                SpuCommand::StopDisplay => 0x02u8,
                SpuCommand::SetColor { .. } => 0x03u8,
                SpuCommand::SetContrast { .. } => 0x04u8,
                SpuCommand::SetDisplayArea { .. } => 0x05u8,
                SpuCommand::SetPixelDataAddresses { .. } => 0x06u8,
                SpuCommand::ChangeColorContrast { .. } => 0x07u8,
                SpuCommand::EndOfSequence => 0xFFu8,
            }),
    {
        match self {
            SpuCommand::ForcedStartDisplay => 0x00,
            SpuCommand::StartDisplay => 0x01,
            SpuCommand::StopDisplay => 0x02,
            SpuCommand::SetColor { .. } => 0x03,
            SpuCommand::SetContrast { .. } => 0x04,
            SpuCommand::SetDisplayArea { .. } => 0x05,
            SpuCommand::SetPixelDataAddresses { .. } => 0x06,
            SpuCommand::ChangeColorContrast { .. } => 0x07,
            SpuCommand::EndOfSequence => 0xFF,
        }
    }
}

/// One display-control sequence: start delay, next pointer, commands
/// ending with [`SpuCommand::EndOfSequence`].
#[derive(Debug, Clone, PartialEq, Eq)]
pub struct SpDcSq {
    /// `SP_DCSQ_STM` — start delay in 90 kHz/1024 ticks.
    pub start_time: u16,
    /// `SP_NXT_DCSQ_SA` — offset of the next sequence (its own offset
    /// for the last one).
    pub next_offset: u16,
    /// The decoded commands.
    pub commands: Vec<SpuCommand>,
}

/// Convert an `SP_DCSQ_STM` delay to whole milliseconds,
/// `stm × 1024 / 90`.
pub fn spdcsq_stm_to_ms(stm: u16) -> (r: u32)
    ensures
        r == stm as int * 1024 / 90,
{
    (stm as u32 * 1024) / 90
}

/// The position just after the command starting at `i` (inside a unit
/// of `total` bytes), or `None` for an unknown opcode or a truncated
/// operand.
pub open spec fn cmd_end(b: Seq<u8>, i: int, total: int) -> Option<int> {
    let op = b[i];
    if op <= 2 || op == 0xFF {
        Some(i + 1)
    } else if op == 3 || op == 4 {
        if i + 3 > total { None } else { Some(i + 3) }
    } else if op == 5 {
        if i + 7 > total { None } else { Some(i + 7) }
    } else if op == 6 {
        if i + 5 > total { None } else { Some(i + 5) }
    } else if op == 7 {
        if i + 3 > total {
            None
        } else if be16(b, i + 1) < 2 || i + 1 + be16(b, i + 1) > total {
            None
        } else {
            Some(i + 1 + be16(b, i + 1))
        }
    } else {
        None
    }
}

/// The start positions of the commands from `i` up to and including the
/// first `0xFF`, or `None` when the stream is malformed or runs past
/// `total`.
pub open spec fn cmd_starts(b: Seq<u8>, i: int, total: int) -> Option<Seq<int>>
    decreases total - i,
{
    if i >= total {
        None
    } else {
        match cmd_end(b, i, total) {
            None => None,
            Some(e) => if b[i] == 0xFF {
                Some(seq![i])
            } else if e <= i {
                None
            } else {
                match cmd_starts(b, e, total) {
                    None => None,
                    Some(rest) => Some(seq![i] + rest),
                }
            },
        }
    }
}

/// `c` is the command encoded at position `p` of `b`.
pub open spec fn cmd_decoded(c: SpuCommand, b: Seq<u8>, p: int) -> bool {
    let op = b[p];
    match c {
        SpuCommand::ForcedStartDisplay => op == 0,
        SpuCommand::StartDisplay => op == 1,
        SpuCommand::StopDisplay => op == 2,
        SpuCommand::SetColor { emphasis2, emphasis1, pattern, background } => op == 3
            && emphasis2 == b[p + 1] / 16 && emphasis1 == b[p + 1] % 16 && pattern == b[p + 2]
            / 16 && background == b[p + 2] % 16,
        SpuCommand::SetContrast { emphasis2, emphasis1, pattern, background } => op == 4
            && emphasis2 == b[p + 1] / 16 && emphasis1 == b[p + 1] % 16 && pattern == b[p + 2]
            / 16 && background == b[p + 2] % 16,
        SpuCommand::SetDisplayArea { start_x, end_x, start_y, end_y } => op == 5 && start_x
            == b[p + 1] as int * 16 + b[p + 2] as int / 16 && end_x == (b[p + 2] % 16) as int
            * 256 + b[p + 3] as int && start_y == b[p + 4] as int * 16 + b[p + 5] as int / 16
            && end_y == (b[p + 5] % 16) as int * 256 + b[p + 6] as int,
        SpuCommand::SetPixelDataAddresses { top_field_offset, bottom_field_offset } => op == 6
            && top_field_offset == be16(b, p + 1) && bottom_field_offset == be16(b, p + 3),
        SpuCommand::ChangeColorContrast { raw } => op == 7 && raw@ == b.subrange(
            p + 1,
            p + 1 + be16(b, p + 1),
        ),
        SpuCommand::EndOfSequence => op == 0xFF,
    }
}

/// The seven bytes of a `SET_DAREA` command for the inclusive rectangle
/// `sx..=ex` by `sy..=ey` (12-bit values): opcode `05`, then the X pair
/// in three bytes (`sx sx | sx ex | ex ex`), then the Y pair in three
/// (`sy sy | sy ey | ey ey`).
pub open spec fn set_darea_bytes(sx: u16, ex: u16, sy: u16, ey: u16) -> Seq<u8> {
    seq![
        5u8,
        (sx / 16) as u8,
        ((sx % 16) * 16 + ex / 256) as u8,
        (ex % 256) as u8,
        (sy / 16) as u8,
        ((sy % 16) * 16 + ey / 256) as u8,
        (ey % 256) as u8,
    ]
}

/// Decoding the `SET_DAREA` bytes of a rectangle gives back exactly that
/// rectangle: the X pair from the first three parameter bytes, the Y pair
/// from the last three, and nothing else decodes from them; the command
/// is seven bytes long.
pub proof fn lemma_set_display_area_round_trip(sx: u16, ex: u16, sy: u16, ey: u16, c: SpuCommand)
    requires
        sx < 4096,
        ex < 4096,
        sy < 4096,
        ey < 4096,
    ensures
        cmd_decoded(c, set_darea_bytes(sx, ex, sy, ey), 0) <==> c == (SpuCommand::SetDisplayArea {
            start_x: sx,
            end_x: ex,
            start_y: sy,
            end_y: ey,
        }),
        cmd_end(set_darea_bytes(sx, ex, sy, ey), 0, 7) == Some(7int),
{
    let b = set_darea_bytes(sx, ex, sy, ey);
    assert(b[1] as int * 16 + b[2] as int / 16 == sx);
    assert((b[2] % 16) as int * 256 + b[3] as int == ex);
    assert(b[4] as int * 16 + b[5] as int / 16 == sy);
    assert((b[5] % 16) as int * 256 + b[6] as int == ey);
}

/// The bytes of a fixed-size command: its opcode, then for the colour
/// and contrast commands two bytes of nibbles (pixel values 3, 2 | 1, 0),
/// for the display area [`set_darea_bytes`], for the pixel-data
/// addresses the top then the bottom offset, big-endian.
pub open spec fn fixed_cmd_bytes(c: SpuCommand) -> Seq<u8> {
    match c {
        SpuCommand::ForcedStartDisplay => seq![0u8],
        SpuCommand::StartDisplay => seq![1u8],
        SpuCommand::StopDisplay => seq![2u8],
        SpuCommand::SetColor { emphasis2, emphasis1, pattern, background } => seq![
            3u8,
            (emphasis2 * 16 + emphasis1) as u8,
            (pattern * 16 + background) as u8,
        ],
        SpuCommand::SetContrast { emphasis2, emphasis1, pattern, background } => seq![
            4u8,
            (emphasis2 * 16 + emphasis1) as u8,
            (pattern * 16 + background) as u8,
        ],
        SpuCommand::SetDisplayArea { start_x, end_x, start_y, end_y } => set_darea_bytes(
            start_x,
            end_x,
            start_y,
            end_y,
        ),
        SpuCommand::SetPixelDataAddresses { top_field_offset, bottom_field_offset } => seq![
            6u8,
            (top_field_offset / 256) as u8,
            (top_field_offset % 256) as u8,
            (bottom_field_offset / 256) as u8,
            (bottom_field_offset % 256) as u8,
        ],
        SpuCommand::ChangeColorContrast { .. } => Seq::empty(),
        SpuCommand::EndOfSequence => seq![0xFFu8],
    }
}

/// A fixed-size command whose fields fit their encodings: nibbles below
/// 16, display coordinates below 4096.
pub open spec fn fixed_cmd_encodable(c: SpuCommand) -> bool {
    match c {
        SpuCommand::SetColor { emphasis2, emphasis1, pattern, background } => emphasis2 < 16
            && emphasis1 < 16 && pattern < 16 && background < 16,
        SpuCommand::SetContrast { emphasis2, emphasis1, pattern, background } => emphasis2 < 16
            && emphasis1 < 16 && pattern < 16 && background < 16,
        SpuCommand::SetDisplayArea { start_x, end_x, start_y, end_y } => start_x < 4096 && end_x
            < 4096 && start_y < 4096 && end_y < 4096,
        SpuCommand::ChangeColorContrast { .. } => false,
        _ => true,
    }
}

/// Decoding the bytes of an encodable fixed-size command gives back
/// exactly that command, and the command spans exactly its bytes.
pub proof fn lemma_fixed_command_round_trip(c: SpuCommand, d: SpuCommand)
    requires
        fixed_cmd_encodable(c),
    ensures
        cmd_decoded(d, fixed_cmd_bytes(c), 0) <==> d == c,
        cmd_end(fixed_cmd_bytes(c), 0, fixed_cmd_bytes(c).len() as int) == Some(
            fixed_cmd_bytes(c).len() as int,
        ),
{
    match c {
        SpuCommand::SetDisplayArea { start_x, end_x, start_y, end_y } => {
            lemma_set_display_area_round_trip(start_x, end_x, start_y, end_y, d);
        },
        SpuCommand::SetPixelDataAddresses { top_field_offset, bottom_field_offset } => {
            let b = fixed_cmd_bytes(c);
            assert(be16(b, 1) == top_field_offset);
            assert(be16(b, 3) == bottom_field_offset);
        },
        _ => {},
    }
}

/// `d` is the display-control sequence at offset `off` of a unit of
/// `total` bytes.
pub open spec fn dcsq_decoded(d: SpDcSq, b: Seq<u8>, off: int, total: int) -> bool {
    &&& off + 4 <= total
    &&& d.start_time == be16(b, off)
    &&& d.next_offset == be16(b, off + 2)
    &&& cmd_starts(b, off + 4, total) matches Some(starts) && d.commands@.len() == starts.len()
        && forall|k: int|
        0 <= k < starts.len() ==> cmd_decoded(#[trigger] d.commands@[k], b, starts[k])
}

/// A display-control sequence's header is its start delay then its next
/// pointer, both big-endian: the five bytes `stm` (2), `next` (2), `FF`
/// decode to exactly that delay and pointer and the single end command.
pub proof fn lemma_dcsq_header_layout(stm: u16, next: u16, d: SpDcSq)
    ensures
        ({
            let b = seq![(stm / 256) as u8, (stm % 256) as u8, (next / 256) as u8, (next % 256) as u8, 0xFFu8];
            dcsq_decoded(d, b, 0, 5) <==> (d.start_time == stm && d.next_offset == next
                && d.commands@ == seq![SpuCommand::EndOfSequence])
        }),
{
    let b = seq![(stm / 256) as u8, (stm % 256) as u8, (next / 256) as u8, (next % 256) as u8, 0xFFu8];
    assert(cmd_starts(b, 4, 5) == Some(seq![4int]));
    if d.commands@.len() == 1 {
        assert(cmd_decoded(d.commands@[0], b, 4) <==> d.commands@[0] == SpuCommand::EndOfSequence);
        if d.commands@[0] == SpuCommand::EndOfSequence {
            assert(d.commands@ =~= seq![SpuCommand::EndOfSequence]);
        }
    }
}

/// The sequence at `off` decodes (header in range, well-formed commands).
pub open spec fn dcsq_ok(b: Seq<u8>, off: int, total: int) -> bool {
    off + 4 <= total && cmd_starts(b, off + 4, total) is Some
}

fn parse_dcsq(buf: &[u8], off: usize, total: usize) -> (r: Result<SpDcSq>)
    requires
        total <= buf@.len(),
    ensures
        r is Ok <==> dcsq_ok(buf@, off as int, total as int),
        r matches Err(e) ==> e is InvalidUdf,
        r matches Ok(d) ==> dcsq_decoded(d, buf@, off as int, total as int),
{
    if off >= total || total - off < 4 {
        return Err(Error::InvalidUdf("SPU DCSQ header truncated"));
    }
    let start_time = buf[off] as u16 * 256 + buf[off + 1] as u16;
    let next_offset = buf[off + 2] as u16 * 256 + buf[off + 3] as u16;
    let mut i = off + 4;
    let mut commands: Vec<SpuCommand> = Vec::new();
    let ghost b = buf@;
    let ghost t = total as int;
    let ghost mut seen: Seq<int> = Seq::empty();
    while i < total
        invariant
            b == buf@,
            t == total,
            total <= buf@.len(),
            off + 4 <= i,
            start_time == be16(b, off as int),
            next_offset == be16(b, off + 2),
            commands@.len() == seen.len(),
            forall|k: int| 0 <= k < seen.len() ==> cmd_decoded(#[trigger] commands@[k], b, seen[k]),
            cmd_starts(b, off + 4, t) == (match cmd_starts(b, i as int, t) {
                None => None::<Seq<int>>,
                Some(rest) => Some(seen + rest),
            }),
        decreases total - i,
    {
        let p = i;
        let opcode = buf[i];
        i = i + 1;
        let cmd = if opcode == 0x00 {
            SpuCommand::ForcedStartDisplay
        } else if opcode == 0x01 {
            SpuCommand::StartDisplay
        } else if opcode == 0x02 {
            SpuCommand::StopDisplay
        } else if opcode == 0x03 || opcode == 0x04 {
            if total - i < 2 {
                return Err(Error::InvalidUdf("SPU SET_COLOR / SET_CONTR truncated"));
            }
            let b0 = buf[i];
            let b1 = buf[i + 1];
            i = i + 2;
            if opcode == 0x03 {
                SpuCommand::SetColor {
                    emphasis2: b0 / 16,
                    emphasis1: b0 % 16,
                    pattern: b1 / 16,
                    background: b1 % 16,
                }
            } else {
                SpuCommand::SetContrast {
                    emphasis2: b0 / 16,
                    emphasis1: b0 % 16,
                    pattern: b1 / 16,
                    background: b1 % 16,
                }
            }
        } else if opcode == 0x05 {
            if total - i < 6 {
                return Err(Error::InvalidUdf("SPU SET_DAREA truncated"));
            }
            let c = SpuCommand::SetDisplayArea {
                start_x: buf[i] as u16 * 16 + (buf[i + 1] / 16) as u16,
                end_x: (buf[i + 1] % 16) as u16 * 256 + buf[i + 2] as u16,
                start_y: buf[i + 3] as u16 * 16 + (buf[i + 4] / 16) as u16,
                end_y: (buf[i + 4] % 16) as u16 * 256 + buf[i + 5] as u16,
            };
            i = i + 6;
            c
        } else if opcode == 0x06 {
            if total - i < 4 {
                return Err(Error::InvalidUdf("SPU SET_DSPXA truncated"));
            }
            let c = SpuCommand::SetPixelDataAddresses {
                top_field_offset: buf[i] as u16 * 256 + buf[i + 1] as u16,
                bottom_field_offset: buf[i + 2] as u16 * 256 + buf[i + 3] as u16,
            };
            i = i + 4;
            c
        } else if opcode == 0x07 {
            if total - i < 2 {
                return Err(Error::InvalidUdf("SPU CHG_COLCON size truncated"));
            }
            let size = buf[i] as usize * 256 + buf[i + 1] as usize;
            if size < 2 || total - i < size {
                return Err(Error::InvalidUdf("SPU CHG_COLCON parameter area out of range"));
            }
            let raw = slice_to_vec(&buf[i..i + size]);
            i = i + size;
            SpuCommand::ChangeColorContrast { raw }
        } else if opcode == 0xFF {
            commands.push(SpuCommand::EndOfSequence);
            proof {
                assert(cmd_starts(b, p as int, t) == Some(seq![p as int]));
                let all = seen + seq![p as int];
                assert(cmd_starts(b, off + 4, t) == Some(all));
                assert(commands@.len() == all.len());
                assert forall|k: int| 0 <= k < all.len() implies cmd_decoded(
                    #[trigger] commands@[k],
                    b,
                    all[k],
                ) by {
                    if k < seen.len() {
                        assert(all[k] == seen[k]);
                    }
                }
            }
            let d = SpDcSq { start_time, next_offset, commands };
            proof {
                let all = seen + seq![p as int];
                assert(d.start_time == be16(b, off as int));
                assert(d.next_offset == be16(b, off + 2));
                assert forall|k: int| 0 <= k < all.len() implies cmd_decoded(
                    #[trigger] d.commands@[k],
                    b,
                    all[k],
                ) by {
                    assert(d.commands@[k] == commands@[k]);
                }
            }
            return Ok(d);
        } else {
            return Err(Error::InvalidUdf("SPU unknown command opcode"));
        };
        proof {
            assert(cmd_end(b, p as int, t) == Some(i as int));
            assert(cmd_starts(b, p as int, t) == (match cmd_starts(b, i as int, t) {
                None => None::<Seq<int>>,
                Some(rest) => Some(seq![p as int] + rest),
            }));
        }
        let ghost old_seen = seen;
        let ghost prev_cmds = commands@;
        proof {
            seen = seen.push(p as int);
            match cmd_starts(b, i as int, t) {
                None => {},
                Some(rest) => {
                    assert(old_seen + (seq![p as int] + rest) =~= seen + rest);
                },
            }
        }
        commands.push(cmd);
        proof {
            assert forall|k: int| 0 <= k < seen.len() implies cmd_decoded(
                #[trigger] commands@[k],
                b,
                seen[k],
            ) by {
                if k < seen.len() - 1 {
                    assert(commands@[k] == prev_cmds[k]);
                    assert(seen[k] == old_seen[k]);
                }
            }
        }
    }
    Err(Error::InvalidUdf("SPU DCSQ ran past buffer without CMD_END"))
}


/// The offsets of the chain of display-control sequences starting at
/// `cursor`, following each next pointer until one points at itself;
/// `None` when a sequence is malformed or a pointer does not move
/// forward inside the unit.
pub open spec fn dcsq_chain(b: Seq<u8>, cursor: int, total: int) -> Option<Seq<int>>
    decreases total - cursor,
{
    if !dcsq_ok(b, cursor, total) {
        None
    } else {
        let next = be16(b, cursor + 2);
        if next == cursor {
            Some(seq![cursor])
        } else if next <= cursor || next >= total {
            None
        } else {
            match dcsq_chain(b, next, total) {
                None => None,
                Some(rest) => Some(seq![cursor] + rest),
            }
        }
    }
}

/// The unit's header and control sequences are well-formed.
pub open spec fn spu_ok(b: Seq<u8>) -> bool {
    &&& b.len() >= 4
    &&& 4 <= be16(b, 0) <= b.len()
    &&& 4 <= be16(b, 2) < be16(b, 0)
    &&& dcsq_chain(b, be16(b, 2), be16(b, 0)) is Some
}

/// The first `SetPixelDataAddresses` pair in a command list.
pub open spec fn find_pxa(cmds: Seq<SpuCommand>) -> Option<(u16, u16)>
    decreases cmds.len(),
{
    if cmds.len() == 0 {
        None
    } else {
        match cmds[0] {
            SpuCommand::SetPixelDataAddresses { top_field_offset, bottom_field_offset } => Some(
                (top_field_offset, bottom_field_offset),
            ),
            _ => find_pxa(cmds.drop_first()),
        }
    }
}

/// The first `SetPixelDataAddresses` pair over all sequences, in order.
pub open spec fn find_pxa_in(seqs: Seq<SpDcSq>) -> Option<(u16, u16)>
    decreases seqs.len(),
{
    if seqs.len() == 0 {
        None
    } else {
        match find_pxa(seqs[0].commands@) {
            Some(p) => Some(p),
            None => find_pxa_in(seqs.drop_first()),
        }
    }
}

/// `hi - lo + 1`, each step saturating in `u16`.
pub open spec fn span_len(lo: u16, hi: u16) -> u16 {
    let d: int = if hi >= lo { hi - lo } else { 0 };
    if d + 1 > 0xFFFF { 0xFFFFu16 } else { (d + 1) as u16 }
}

/// The `(width, height)` of the first `SetDisplayArea` in a command list.
pub open spec fn find_area(cmds: Seq<SpuCommand>) -> Option<(u16, u16)>
    decreases cmds.len(),
{
    if cmds.len() == 0 {
        None
    } else {
        match cmds[0] {
            SpuCommand::SetDisplayArea { start_x, end_x, start_y, end_y } => Some(
                (span_len(start_x, end_x), span_len(start_y, end_y)),
            ),
            _ => find_area(cmds.drop_first()),
        }
    }
}

/// The first display-area size over all sequences, in order.
pub open spec fn find_area_in(seqs: Seq<SpDcSq>) -> Option<(u16, u16)>
    decreases seqs.len(),
{
    if seqs.len() == 0 {
        None
    } else {
        match find_area(seqs[0].commands@) {
            Some(p) => Some(p),
            None => find_area_in(seqs.drop_first()),
        }
    }
}

/// One fully parsed Sub-Picture Unit.
#[derive(Debug, Clone)]
pub struct SubPictureUnit {
    /// The unit header.
    pub header: SpuHeader,
    /// The display-control sequences in chain order.
    pub control_sequences: Vec<SpDcSq>,
}

fn contains_offset(v: &Vec<usize>, x: usize) -> (r: bool)
    ensures
        r == v@.contains(x),
{
    let mut k: usize = 0;
    while k < v.len()
        invariant
            k <= v@.len(),
            forall|j: int| 0 <= j < k ==> v@[j] != x,
        decreases v@.len() - k,
    {
        if v[k] == x {
            return true;
        }
        k = k + 1;
    }
    false
}

impl SubPictureUnit {
    /// Parse a complete unit: header, then the chain of display-control
    /// sequences from `SP_DCSQTA`. Fails with `InvalidUdf` when the header
    /// is short, the size exceeds the buffer, the table offset is out of
    /// range, a sequence is malformed, or a next pointer does not move
    /// forward inside the unit.
    pub fn parse(buf: &[u8]) -> (r: Result<Self>)
        ensures
            r is Ok <==> spu_ok(buf@),
            r matches Err(e) ==> e is InvalidUdf,
            r matches Ok(spu) ==> spu.header.size == be16(buf@, 0) && spu.header.dcsqt_offset
                == be16(buf@, 2) && (dcsq_chain(buf@, be16(buf@, 2), be16(buf@, 0)) matches Some(
                offs) && spu.control_sequences@.len() == offs.len() && forall|k: int|
                0 <= k < offs.len() ==> dcsq_decoded(
                #[trigger] spu.control_sequences@[k],
                buf@,
                offs[k],
                be16(buf@, 0),
            )),
    {
        let header = match SpuHeader::parse(buf) {
            Ok(h) => h,
            Err(e) => {
                return Err(e);
            },
        };
        let total = header.size as usize;
        let dcsqt_off = header.dcsqt_offset as usize;
        if total < 4 || total > buf.len() {
            return Err(Error::InvalidUdf("SPU size exceeds available buffer"));
        }
        if dcsqt_off < 4 || dcsqt_off >= total {
            return Err(Error::InvalidUdf("SPU SP_DCSQTA out of range"));
        }
        let ghost b = buf@;
        let ghost t = total as int;
        let mut control_sequences: Vec<SpDcSq> = Vec::new();
        let mut cursor = dcsqt_off;
        let mut seen_offsets: Vec<usize> = Vec::new();
        let ghost mut offs: Seq<int> = Seq::empty();
        loop
            invariant
                b == buf@,
                t == total,
                total <= buf@.len(),
                cursor < total,
                header.size == total,
                header.dcsqt_offset == dcsqt_off,
                header.size == be16(b, 0),
                header.dcsqt_offset == be16(b, 2),
                4 <= dcsqt_off < total,
                forall|j: int| 0 <= j < seen_offsets@.len() ==> seen_offsets@[j] < cursor,
                control_sequences@.len() == offs.len(),
                forall|k: int|
                    0 <= k < offs.len() ==> dcsq_decoded(
                        #[trigger] control_sequences@[k],
                        b,
                        offs[k],
                        t,
                    ),
                dcsq_chain(b, dcsqt_off as int, t) == (match dcsq_chain(b, cursor as int, t) {
                    None => None::<Seq<int>>,
                    Some(rest) => Some(offs + rest),
                }),
            decreases total - cursor,
        {
            if contains_offset(&seen_offsets, cursor) {
                return Err(Error::InvalidUdf("SPU DCSQ chain loops back"));
            }
            seen_offsets.push(cursor);
            let dcsq = match parse_dcsq(buf, cursor, total) {
                Ok(d) => d,
                Err(e) => {
                    return Err(e);
                },
            };
            let next_off = dcsq.next_offset as usize;
            let terminal = next_off == cursor;
            let ghost prev = control_sequences@;
            let ghost old_offs = offs;
            control_sequences.push(dcsq);
            proof {
                offs = offs.push(cursor as int);
                assert forall|k: int| 0 <= k < offs.len() implies dcsq_decoded(
                    #[trigger] control_sequences@[k],
                    b,
                    offs[k],
                    t,
                ) by {
                    if k < offs.len() - 1 {
                        assert(control_sequences@[k] == prev[k]);
                        assert(offs[k] == old_offs[k]);
                    }
                }
            }
            if terminal {
                proof {
                    assert(dcsq_chain(b, cursor as int, t) == Some(seq![cursor as int]));
                    assert(old_offs + seq![cursor as int] =~= offs);
                }
                return Ok(SubPictureUnit { header, control_sequences });
            }
            if next_off <= cursor || next_off >= total {
                return Err(Error::InvalidUdf("SPU DCSQ next pointer out of range"));
            }
            proof {
                match dcsq_chain(b, next_off as int, t) {
                    None => {},
                    Some(rest) => {
                        assert(old_offs + (seq![cursor as int] + rest) =~= offs + rest);
                    },
                }
            }
            cursor = next_off;
        }
    }

    /// The `(top, bottom)` pixel-data offsets of the first
    /// `SetPixelDataAddresses` command, if any.
    pub fn pixel_data_offsets(&self) -> (r: Option<(u16, u16)>)
        ensures
            r == find_pxa_in(self.control_sequences@),
    {
        let seqs = &self.control_sequences;
        let mut i: usize = 0;
        assert(seqs@.skip(0) =~= seqs@);
        while i < seqs.len()
            invariant
                i <= seqs@.len(),
                seqs@ == self.control_sequences@,
                find_pxa_in(seqs@) == find_pxa_in(seqs@.skip(i as int)),
            decreases seqs@.len() - i,
        {
            let cmds = &seqs[i].commands;
            proof {
                assert(seqs@.skip(i as int).drop_first() =~= seqs@.skip(i + 1));
            }
            let mut j: usize = 0;
            assert(cmds@.skip(0) =~= cmds@);
            while j < cmds.len()
                invariant
                    j <= cmds@.len(),
                    find_pxa(cmds@) == find_pxa(cmds@.skip(j as int)),
                    i < seqs@.len(),
                    seqs@ == self.control_sequences@,
                    *cmds == seqs@[i as int].commands,
                    find_pxa_in(seqs@) == find_pxa_in(seqs@.skip(i as int)),
                    seqs@.skip(i as int).drop_first() == seqs@.skip(i + 1),
                decreases cmds@.len() - j,
            {
                proof {
                    assert(cmds@.skip(j as int).drop_first() =~= cmds@.skip(j + 1));
                }
                if let SpuCommand::SetPixelDataAddresses { top_field_offset, bottom_field_offset } =
                    &cmds[j] {
                    proof {
                        assert(cmds@.skip(j as int)[0] == cmds@[j as int]);
                        assert(seqs@.skip(i as int)[0] == seqs@[i as int]);
                    }
                    return Some((*top_field_offset, *bottom_field_offset));
                }
                j = j + 1;
            }
            i = i + 1;
        }
        None
    }

    /// `(width, height)` of the first `SetDisplayArea` command
    /// (inclusive coordinates, so `end - start + 1`, saturating), if any.
    pub fn display_dimensions(&self) -> (r: Option<(u16, u16)>)
        ensures
            r == find_area_in(self.control_sequences@),
    {
        let seqs = &self.control_sequences;
        let mut i: usize = 0;
        assert(seqs@.skip(0) =~= seqs@);
        while i < seqs.len()
            invariant
                i <= seqs@.len(),
                seqs@ == self.control_sequences@,
                find_area_in(seqs@) == find_area_in(seqs@.skip(i as int)),
            decreases seqs@.len() - i,
        {
            let cmds = &seqs[i].commands;
            proof {
                assert(seqs@.skip(i as int).drop_first() =~= seqs@.skip(i + 1));
            }
            let mut j: usize = 0;
            assert(cmds@.skip(0) =~= cmds@);
            while j < cmds.len()
                invariant
                    j <= cmds@.len(),
                    find_area(cmds@) == find_area(cmds@.skip(j as int)),
                    i < seqs@.len(),
                    seqs@ == self.control_sequences@,
                    *cmds == seqs@[i as int].commands,
                    find_area_in(seqs@) == find_area_in(seqs@.skip(i as int)),
                    seqs@.skip(i as int).drop_first() == seqs@.skip(i + 1),
                decreases cmds@.len() - j,
            {
                proof {
                    assert(cmds@.skip(j as int).drop_first() =~= cmds@.skip(j + 1));
                }
                if let SpuCommand::SetDisplayArea { start_x, end_x, start_y, end_y } = &cmds[j] {
                    let w = end_x.saturating_sub(*start_x).saturating_add(1);
                    let h = end_y.saturating_sub(*start_y).saturating_add(1);
                    proof {
                        assert(cmds@.skip(j as int)[0] == cmds@[j as int]);
                        assert(seqs@.skip(i as int)[0] == seqs@[i as int]);
                    }
                    return Some((w, h));
                }
                j = j + 1;
            }
            i = i + 1;
        }
        None
    }
}


/// One decoded run of pixel data: `count` pixels of `code` (`0..=3`);
/// `count == 0` means "to the end of the line".
#[derive(Debug, Clone, Copy, PartialEq, Eq)]
pub struct PixelRun {
    /// Number of pixels, or `0` for "until end of line".
    pub count: u16,
    /// Pixel value `0..=3`.
    pub code: u8,
}

/// MSB-first bit reader over one field's run-length data.
#[derive(Debug)]
pub struct PxdReader<'a> {
    bytes: &'a [u8],
    byte_idx: usize,
    bit_idx: u8,
}

impl<'a> PxdReader<'a> {
    /// The bytes being read.
    pub closed spec fn data(self) -> Seq<u8> {
        self.bytes@
    }

    /// The absolute bit position of the next bit.
    pub closed spec fn pos(self) -> int {
        self.byte_idx * 8 + self.bit_idx
    }

    /// The position lies within (or just past) the data.
    pub closed spec fn wf(self) -> bool {
        self.bit_idx < 8 && self.byte_idx * 8 + self.bit_idx <= self.bytes@.len() * 8
    }

    /// A reader at bit 0 of `bytes`.
    pub fn new(bytes: &'a [u8]) -> (r: Self)
        ensures
            r.wf(),
            r.data() == bytes@,
            r.pos() == 0,
    {
        PxdReader { bytes, byte_idx: 0, bit_idx: 0 }
    }

    /// Read `n` bits MSB-first; `InvalidUdf` when fewer than `n` bits are
    /// left.
    pub fn read_bits(&mut self, n: u8) -> (r: Result<u32>)
        requires
            old(self).wf(),
            n <= 16,
        ensures
            final(self).wf(),
            final(self).data() == old(self).data(),
            r is Ok <==> old(self).pos() + n <= old(self).data().len() * 8,
            r matches Err(e) ==> e is InvalidUdf,
            r matches Ok(v) ==> v == bits_at(old(self).data(), old(self).pos(), n as nat)
                && final(self).pos() == old(self).pos() + n,
    {
        let ghost s = self.bytes@;
        let ghost p0 = self.pos();
        let mut out: u32 = 0;
        let mut k: u8 = 0;
        proof {
            reveal_with_fuel(pow2, 17);
        }
        while k < n
            invariant
                self.wf(),
                self.bytes@ == s,
                s == old(self).data(),
                p0 == old(self).pos(),
                k <= n <= 16,
                self.pos() == p0 + k,
                out == bits_at(s, p0, k as nat),
                pow2(16) == 65536,
            decreases n - k,
        {
            if self.byte_idx >= self.bytes.len() {
                return Err(Error::InvalidUdf("SPU pixel data ran out of bits"));
            }
            let byte = self.bytes[self.byte_idx];
            let sh: u8 = 7 - self.bit_idx;
            let bit: u8 = (byte >> sh) & 1;
            proof {
                let pos = p0 + k;
                assert(pos / 8 == self.byte_idx && pos % 8 == self.bit_idx) by (nonlinear_arith)
                    requires
                        pos == self.byte_idx * 8 + self.bit_idx,
                        self.bit_idx < 8,
                ;
                assert(bit <= 1) by (bit_vector)
                    requires
                        bit == (byte >> sh) & 1u8,
                ;
                lemma_bits_at_bound(s, p0, k as nat);
                crate::bits::lemma_pow2_le(k as nat, 16);
            }
            out = out * 2 + bit as u32;
            if self.bit_idx == 7 {
                self.bit_idx = 0;
                self.byte_idx = self.byte_idx + 1;
            } else {
                self.bit_idx = self.bit_idx + 1;
            }
            k = k + 1;
        }
        Ok(out)
    }

    /// Skip to the next byte boundary (no-op when already on one).
    pub fn align_to_byte(&mut self)
        requires
            old(self).wf(),
        ensures
            final(self).wf(),
            final(self).data() == old(self).data(),
            final(self).pos() == align8(old(self).pos()),
    {
        proof {
            let pos = self.pos();
            assert(pos % 8 == self.bit_idx && pos / 8 == self.byte_idx) by (nonlinear_arith)
                requires
                    pos == self.byte_idx * 8 + self.bit_idx,
                    self.bit_idx < 8,
            ;
        }
        let len = self.bytes.len();
        if self.bit_idx != 0 {
            assert(self.byte_idx < len);
            self.bit_idx = 0;
            self.byte_idx = self.byte_idx + 1;
        }
    }
}

/// `p` rounded up to a multiple of 8.
pub open spec fn align8(p: int) -> int {
    if p % 8 == 0 {
        p
    } else {
        (p / 8 + 1) * 8
    }
}

/// The run encoded at bit `pos` and the position after it, or `None`
/// when the data ends first. Forms by leading zeros: `nncc` (1..=3),
/// `00nnnncc` (4..=15), `0000nnnnnncc` (16..=63),
/// `000000nnnnnnnncc` (0..=255, `0` meaning end of line).
pub open spec fn spec_run(s: Seq<u8>, pos: int) -> Option<(PixelRun, int)> {
    let end = s.len() * 8;
    if pos + 2 > end {
        None
    } else if bits_at(s, pos, 2) != 0 {
        if pos + 4 > end {
            None
        } else {
            Some((PixelRun { count: bits_at(s, pos, 2) as u16, code: bits_at(s, pos + 2, 2) as u8 }, pos + 4))
        }
    } else if pos + 4 > end {
        None
    } else if bits_at(s, pos + 2, 2) != 0 {
        if pos + 8 > end {
            None
        } else {
            Some((PixelRun {
                count: (bits_at(s, pos + 2, 2) * 4 + bits_at(s, pos + 4, 2)) as u16,
                code: bits_at(s, pos + 6, 2) as u8,
            }, pos + 8))
        }
    } else if pos + 6 > end {
        None
    } else if bits_at(s, pos + 4, 2) != 0 {
        if pos + 12 > end {
            None
        } else {
            Some((PixelRun {
                count: (bits_at(s, pos + 4, 2) * 16 + bits_at(s, pos + 6, 4)) as u16,
                code: bits_at(s, pos + 10, 2) as u8,
            }, pos + 12))
        }
    } else if pos + 16 > end {
        None
    } else {
        Some((PixelRun { count: bits_at(s, pos + 6, 8) as u16, code: bits_at(s, pos + 14, 2) as u8 }, pos + 16))
    }
}

proof fn lemma_bit_in_byte(s: Seq<u8>, k: int, j: int)
    requires
        0 <= k < s.len(),
        0 <= j < 8,
    ensures
        bit_at(s, 8 * k + j) == (s[k] >> ((7 - j) as u8)) & 1u8,
{
    assert((8 * k + j) / 8 == k && (8 * k + j) % 8 == j) by (nonlinear_arith)
        requires
            0 <= j < 8,
    ;
}

/// The four run forms read on a byte boundary `8 k`, by the leading
/// bits of byte `x = s[k]` and the next byte `y`: a non-zero top pair
/// is a 4-bit run (count `x / 64`, value bits 5..4); else a non-zero
/// second pair an 8-bit run (count `x / 4`, value `x % 4`); else a
/// non-zero third pair a 12-bit run (count `(x % 16) * 4 + y / 64`, value
/// bits 5..4 of `y`); else a 16-bit run (count `(x % 4) * 64 + y / 4`,
/// value `y % 4`, count `0` meaning to the end of the line).
pub proof fn lemma_run_forms_on_byte_boundary(s: Seq<u8>, k: int)
    requires
        0 <= k,
        k + 2 <= s.len(),
    ensures
        ({
            let x = s[k];
            let y = s[k + 1];
            let p = 8 * k;
            &&& x / 64 != 0 ==> spec_run(s, p) == Some(
                (PixelRun { count: (x / 64) as u16, code: ((x / 16) % 4) as u8 }, p + 4),
            )
            &&& (x / 64 == 0 && x / 16 != 0) ==> spec_run(s, p) == Some(
                (PixelRun { count: (x / 4) as u16, code: (x % 4) as u8 }, p + 8),
            )
            &&& (x / 16 == 0 && x / 4 != 0) ==> spec_run(s, p) == Some(
                (PixelRun { count: ((x % 16) as int * 4 + y as int / 64) as u16, code: ((y / 16) % 4) as u8 }, p + 12),
            )
            &&& x / 4 == 0 ==> spec_run(s, p) == Some(
                (PixelRun { count: ((x % 4) as int * 64 + y as int / 4) as u16, code: (y % 4) as u8 }, p + 16),
            )
        }),
{
    let x = s[k];
    let y = s[k + 1];
    let p = 8 * k;
    assert(p + 16 <= s.len() * 8);
    reveal_with_fuel(bits_at, 9);
    lemma_bit_in_byte(s, k, 0);
    lemma_bit_in_byte(s, k, 1);
    lemma_bit_in_byte(s, k, 2);
    lemma_bit_in_byte(s, k, 3);
    lemma_bit_in_byte(s, k, 4);
    lemma_bit_in_byte(s, k, 5);
    lemma_bit_in_byte(s, k, 6);
    lemma_bit_in_byte(s, k, 7);
    lemma_bit_in_byte(s, k + 1, 0);
    lemma_bit_in_byte(s, k + 1, 1);
    lemma_bit_in_byte(s, k + 1, 2);
    lemma_bit_in_byte(s, k + 1, 3);
    lemma_bit_in_byte(s, k + 1, 4);
    lemma_bit_in_byte(s, k + 1, 5);
    lemma_bit_in_byte(s, k + 1, 6);
    lemma_bit_in_byte(s, k + 1, 7);
    assert(8 * (k + 1) == p + 8);
    let x7 = (x >> 7u8) & 1u8;
    let x6 = (x >> 6u8) & 1u8;
    let x5 = (x >> 5u8) & 1u8;
    let x4 = (x >> 4u8) & 1u8;
    let x3 = (x >> 3u8) & 1u8;
    let x2 = (x >> 2u8) & 1u8;
    let x1 = (x >> 1u8) & 1u8;
    let x0 = (x >> 0u8) & 1u8;
    let y7 = (y >> 7u8) & 1u8;
    let y6 = (y >> 6u8) & 1u8;
    let y5 = (y >> 5u8) & 1u8;
    let y4 = (y >> 4u8) & 1u8;
    let y3 = (y >> 3u8) & 1u8;
    let y2 = (y >> 2u8) & 1u8;
    let y1 = (y >> 1u8) & 1u8;
    let y0 = (y >> 0u8) & 1u8;
    assert({
        &&& x / 64 == x7 * 2 + x6
        &&& (x / 16) % 4 == x5 * 2 + x4
        &&& (x / 4) % 4 == x3 * 2 + x2
        &&& x % 4 == x1 * 2 + x0
        &&& y / 64 == y7 * 2 + y6
        &&& (y / 16) % 4 == y5 * 2 + y4
        &&& (y / 4) % 16 == y5 * 8 + y4 * 4 + y3 * 2 + y2
        &&& y % 4 == y1 * 2 + y0
        &&& x / 16 == x7 * 8 + x6 * 4 + x5 * 2 + x4
        &&& x / 4 == x7 * 32 + x6 * 16 + x5 * 8 + x4 * 4 + x3 * 2 + x2
        &&& x % 16 == x3 * 8 + x2 * 4 + x1 * 2 + x0
        &&& y / 4 == y7 * 32 + y6 * 16 + y5 * 8 + y4 * 4 + y3 * 2 + y2
    }) by (bit_vector)
        requires
            x7 == (x >> 7u8) & 1u8,
            x6 == (x >> 6u8) & 1u8,
            x5 == (x >> 5u8) & 1u8,
            x4 == (x >> 4u8) & 1u8,
            x3 == (x >> 3u8) & 1u8,
            x2 == (x >> 2u8) & 1u8,
            x1 == (x >> 1u8) & 1u8,
            x0 == (x >> 0u8) & 1u8,
            y7 == (y >> 7u8) & 1u8,
            y6 == (y >> 6u8) & 1u8,
            y5 == (y >> 5u8) & 1u8,
            y4 == (y >> 4u8) & 1u8,
            y3 == (y >> 3u8) & 1u8,
            y2 == (y >> 2u8) & 1u8,
            y1 == (y >> 1u8) & 1u8,
            y0 == (y >> 0u8) & 1u8,
    ;
}

/// Decode one run from the reader.
pub fn decode_one_run(rdr: &mut PxdReader<'_>) -> (r: Result<PixelRun>)
    requires
        old(rdr).wf(),
    ensures
        final(rdr).wf(),
        final(rdr).data() == old(rdr).data(),
        match spec_run(old(rdr).data(), old(rdr).pos()) {
            None => r is Err,
            Some((run, p)) => r == Ok::<PixelRun, Error>(run) && final(rdr).pos() == p,
        },
        r matches Err(e) ==> e is InvalidUdf,
{
    let ghost s = rdr.data();
    let ghost p0 = rdr.pos();
    proof {
        lemma_bits_at_bound(s, p0, 2);
        lemma_bits_at_bound(s, p0 + 2, 2);
        lemma_bits_at_bound(s, p0 + 4, 2);
        lemma_bits_at_bound(s, p0 + 6, 2);
        lemma_bits_at_bound(s, p0 + 6, 4);
        lemma_bits_at_bound(s, p0 + 10, 2);
        lemma_bits_at_bound(s, p0 + 6, 8);
        lemma_bits_at_bound(s, p0 + 14, 2);
        reveal_with_fuel(pow2, 9);
    }
    let top = match rdr.read_bits(2) {
        Ok(v) => v,
        Err(e) => {
            return Err(e);
        },
    };
    if top != 0 {
        let code = match rdr.read_bits(2) {
            Ok(v) => v,
            Err(e) => {
                return Err(e);
            },
        };
        return Ok(PixelRun { count: top as u16, code: code as u8 });
    }
    let next2 = match rdr.read_bits(2) {
        Ok(v) => v,
        Err(e) => {
            return Err(e);
        },
    };
    if next2 != 0 {
        let low2 = match rdr.read_bits(2) {
            Ok(v) => v,
            Err(e) => {
                return Err(e);
            },
        };
        let code = match rdr.read_bits(2) {
            Ok(v) => v,
            Err(e) => {
                return Err(e);
            },
        };
        return Ok(PixelRun { count: (next2 * 4 + low2) as u16, code: code as u8 });
    }
    let then2 = match rdr.read_bits(2) {
        Ok(v) => v,
        Err(e) => {
            return Err(e);
        },
    };
    if then2 != 0 {
        let mid4 = match rdr.read_bits(4) {
            Ok(v) => v,
            Err(e) => {
                return Err(e);
            },
        };
        let code = match rdr.read_bits(2) {
            Ok(v) => v,
            Err(e) => {
                return Err(e);
            },
        };
        return Ok(PixelRun { count: (then2 * 16 + mid4) as u16, code: code as u8 });
    }
    let count8 = match rdr.read_bits(8) {
        Ok(v) => v,
        Err(e) => {
            return Err(e);
        },
    };
    let code = match rdr.read_bits(2) {
        Ok(v) => v,
        Err(e) => {
            return Err(e);
        },
    };
    Ok(PixelRun { count: count8 as u16, code: code as u8 })
}


/// The runs of one line of `width` pixels starting at bit `pos` with
/// `written` pixels already emitted, and the position after them: runs
/// are clamped to the line, and an end-of-line run fills the rest.
pub open spec fn spec_row(s: Seq<u8>, pos: int, width: int, written: int) -> Option<
    (Seq<PixelRun>, int),
>
    decreases width - written,
{
    if written >= width {
        Some((Seq::empty(), pos))
    } else {
        match spec_run(s, pos) {
            None => None,
            Some((run, p)) => if run.count == 0 {
                Some((seq![PixelRun { count: (width - written) as u16, code: run.code }], p))
            } else {
                let take: int = if run.count as int <= width - written {
                    run.count as int
                } else {
                    width - written
                };
                match spec_row(s, p, width, written + take) {
                    None => None,
                    Some((rest, q)) => Some(
                        (seq![PixelRun { count: take as u16, code: run.code }] + rest, q),
                    ),
                }
            },
        }
    }
}

/// The rows of a field of `lines` lines, each line starting on a byte
/// boundary after the previous one.
pub open spec fn spec_field(s: Seq<u8>, pos: int, width: int, lines: nat) -> Option<
    Seq<Seq<PixelRun>>,
>
    decreases lines,
{
    if lines == 0 {
        Some(Seq::empty())
    } else {
        match spec_row(s, pos, width, 0) {
            None => None,
            Some((row, p)) => match spec_field(s, align8(p), width, (lines - 1) as nat) {
                None => None,
                Some(rest) => Some(seq![row] + rest),
            },
        }
    }
}

fn decode_row(rdr: &mut PxdReader<'_>, width: u32) -> (r: Result<Vec<PixelRun>>)
    requires
        old(rdr).wf(),
        0 < width <= 0xFFFF,
    ensures
        final(rdr).wf(),
        final(rdr).data() == old(rdr).data(),
        r matches Err(e) ==> e is InvalidUdf,
        match spec_row(old(rdr).data(), old(rdr).pos(), width as int, 0) {
            None => r is Err,
            Some((row, p)) => (r matches Ok(v) && v@ == row) && final(rdr).pos() == p,
        },
{
    let ghost s = rdr.data();
    let ghost p0 = rdr.pos();
    let ghost w = width as int;
    let mut row: Vec<PixelRun> = Vec::new();
    let mut written: u32 = 0;
    let mut eol = false;
    while written < width && !eol
        invariant
            rdr.wf(),
            rdr.data() == s,
            s == old(rdr).data(),
            p0 == old(rdr).pos(),
            w == width,
            0 < width <= 0xFFFF,
            written <= width,
            !eol ==> spec_row(s, p0, w, 0) == match spec_row(s, rdr.pos(), w, written as int) {
                None => None::<(Seq<PixelRun>, int)>,
                Some((rest, q)) => Some((row@ + rest, q)),
            },
            eol ==> spec_row(s, p0, w, 0) == Some((row@, rdr.pos())),
        decreases (width - written) as int * 2 + (if eol {
            0int
        } else {
            1int
        }),
    {
        let ghost pos = rdr.pos();
        let run = match decode_one_run(rdr) {
            Ok(r) => r,
            Err(e) => {
                return Err(e);
            },
        };
        let ghost prev = row@;
        if run.count == 0 {
            let remaining = width - written;
            row.push(PixelRun { count: remaining as u16, code: run.code });
            eol = true;
            proof {
                assert(spec_row(s, pos, w, written as int) == Some(
                    (seq![PixelRun { count: remaining as u16, code: run.code }], rdr.pos()),
                ));
                assert(prev + seq![PixelRun { count: remaining as u16, code: run.code }] =~= row@);
            }
        } else {
            let room = width - written;
            let take: u32 = if (run.count as u32) <= room {
                run.count as u32
            } else {
                room
            };
            row.push(PixelRun { count: take as u16, code: run.code });
            written = written + take;
            proof {
                let piece = seq![PixelRun { count: take as u16, code: run.code }];
                match spec_row(s, rdr.pos(), w, written as int) {
                    None => {},
                    Some((rest, q)) => {
                        assert(prev + (piece + rest) =~= row@ + rest);
                    },
                }
            }
        }
    }
    proof {
        if !eol {
            assert(row@ + Seq::<PixelRun>::empty() =~= row@);
        }
    }
    Ok(row)
}

/// Decode one field of run-length pixel data into `expected_lines` rows
/// of runs for a line `width` pixels wide; each line ends on a byte
/// boundary. An empty result for `width == 0`; `InvalidUdf` when the
/// data runs out.
pub fn decode_rle_field(bytes: &[u8], width: u16, expected_lines: u16) -> (r: Result<
    Vec<Vec<PixelRun>>,
>)
    ensures
        r matches Err(e) ==> e is InvalidUdf,
        width == 0 ==> (r matches Ok(v) && v@.len() == 0),
        width > 0 ==> match spec_field(bytes@, 0, width as int, expected_lines as nat) {
            None => r is Err,
            Some(rows) => r matches Ok(v) && v@.len() == rows.len() && forall|k: int|
                0 <= k < rows.len() ==> (#[trigger] v@[k])@ == rows[k],
        },
{
    if width == 0 {
        return Ok(Vec::new());
    }
    let ghost s = bytes@;
    let ghost w = width as int;
    let ghost lines = expected_lines as nat;
    let mut rdr = PxdReader::new(bytes);
    let mut out: Vec<Vec<PixelRun>> = Vec::new();
    let ghost mut done: Seq<Seq<PixelRun>> = Seq::empty();
    let mut line: u16 = 0;
    while line < expected_lines
        invariant
            rdr.wf(),
            rdr.data() == s,
            s == bytes@,
            w == width,
            width > 0,
            lines == expected_lines,
            line <= expected_lines,
            out@.len() == done.len(),
            forall|k: int| 0 <= k < done.len() ==> (#[trigger] out@[k])@ == done[k],
            spec_field(s, 0, w, lines) == match spec_field(
                s,
                rdr.pos(),
                w,
                (expected_lines - line) as nat,
            ) {
                None => None::<Seq<Seq<PixelRun>>>,
                Some(rest) => Some(done + rest),
            },
        decreases expected_lines - line,
    {
        let row = match decode_row(&mut rdr, width as u32) {
            Ok(r) => r,
            Err(e) => {
                return Err(e);
            },
        };
        rdr.align_to_byte();
        let ghost prev = out@;
        let ghost old_done = done;
        proof {
            done = done.push(row@);
            match spec_field(s, rdr.pos(), w, (expected_lines - line - 1) as nat) {
                None => {},
                Some(rest) => {
                    assert(old_done + (seq![row@] + rest) =~= done + rest);
                },
            }
        }
        out.push(row);
        proof {
            assert forall|k: int| 0 <= k < done.len() implies (#[trigger] out@[k])@ == done[k] by {
                if k < done.len() - 1 {
                    assert(out@[k] == prev[k]);
                }
            }
        }
        line = line + 1;
    }
    proof {
        assert(done + Seq::<Seq<PixelRun>>::empty() =~= done);
    }
    Ok(out)
}

/// The `w - x` pixels of a line from column `x` on, painted by `runs`
/// (each clamped to the line) over a background of `0`.
pub open spec fn fill_row(runs: Seq<PixelRun>, w: int, x: int) -> Seq<u8>
    decreases runs.len(),
{
    if x >= w {
        Seq::empty()
    } else if runs.len() == 0 {
        Seq::new((w - x) as nat, |_i: int| 0u8)
    } else {
        let n: int = if runs[0].count as int <= w - x {
            runs[0].count as int
        } else {
            w - x
        };
        Seq::new(n as nat, |_i: int| runs[0].code) + fill_row(runs.drop_first(), w, x + n)
    }
}

/// The row-major pixels of `rows`, `w` per line.
pub open spec fn render_rows(rows: Seq<Seq<PixelRun>>, w: int) -> Seq<u8>
    decreases rows.len(),
{
    if rows.len() == 0 {
        Seq::empty()
    } else {
        fill_row(rows[0], w, 0) + render_rows(rows.drop_first(), w)
    }
}

fn push_repeat(out: &mut Vec<u8>, v: u8, n: usize)
    ensures
        final(out)@ == old(out)@ + Seq::new(n as nat, |_i: int| v),
{
    let ghost start = out@;
    let mut k: usize = 0;
    while k < n
        invariant
            k <= n,
            out@ == start + Seq::new(k as nat, |_i: int| v),
        decreases n - k,
    {
        out.push(v);
        k = k + 1;
        assert(out@ =~= start + Seq::new(k as nat, |_i: int| v));
    }
}

/// Decode one field (see [`decode_rle_field`]) and paint it into a
/// row-major buffer of palette codes, `width` per line, background `0`.
pub fn render_field(bytes: &[u8], width: u16, expected_lines: u16) -> (r: Result<Vec<u8>>)
    ensures
        r matches Err(e) ==> e is InvalidUdf,
        width == 0 ==> (r matches Ok(v) && v@.len() == 0),
        width > 0 ==> match spec_field(bytes@, 0, width as int, expected_lines as nat) {
            None => r is Err,
            Some(rows) => r matches Ok(v) && v@ == render_rows(rows, width as int),
        },
{
    let runs = match decode_rle_field(bytes, width, expected_lines) {
        Ok(r) => r,
        Err(e) => {
            return Err(e);
        },
    };
    if width == 0 {
        return Ok(Vec::new());
    }
    let ghost rows = spec_field(bytes@, 0, width as int, expected_lines as nat)->Some_0;
    let w = width as usize;
    let mut out: Vec<u8> = Vec::new();
    let mut y: usize = 0;
    proof {
        assert(rows.skip(0) =~= rows);
        assert(out@ + render_rows(rows, w as int) =~= render_rows(rows, w as int));
    }
    while y < runs.len()
        invariant
            runs@.len() == rows.len(),
            forall|k: int| 0 <= k < rows.len() ==> (#[trigger] runs@[k])@ == rows[k],
            w == width,
            w > 0,
            y <= rows.len(),
            render_rows(rows, w as int) == out@ + render_rows(rows.skip(y as int), w as int),
        decreases runs@.len() - y,
    {
        let row = &runs[y];
        let ghost before = out@;
        let mut x: usize = 0;
        let mut k: usize = 0;
        proof {
            assert(rows.skip(y as int)[0] == rows[y as int]);
            assert(rows.skip(y as int).drop_first() =~= rows.skip(y + 1));
            assert(row@.skip(0) =~= row@);
            assert(out@.skip(before.len() as int) =~= Seq::<u8>::empty());
            assert(out@.subrange(0, before.len() as int) =~= before);
        }
        while k < row.len() && x < w
            invariant
                x <= w,
                k <= row@.len(),
                fill_row(row@, w as int, 0) == out@.skip(before.len() as int) + fill_row(
                    row@.skip(k as int),
                    w as int,
                    x as int,
                ),
                out@.len() >= before.len(),
                out@.subrange(0, before.len() as int) == before,
            decreases row@.len() - k,
        {
            let run = row[k];
            let room = w - x;
            let n: usize = if (run.count as usize) <= room {
                run.count as usize
            } else {
                room
            };
            let ghost prior = out@;
            push_repeat(&mut out, run.code, n);
            proof {
                assert(row@.skip(k as int)[0] == run);
                assert(row@.skip(k as int).drop_first() =~= row@.skip(k + 1));
            }
            x = x + n;
            k = k + 1;
            proof {
                assert(out@.subrange(0, before.len() as int) =~= before);
                assert(out@.skip(before.len() as int) =~= prior.skip(before.len() as int) + Seq::new(
                    n as nat,
                    |_i: int| run.code,
                ));
            }
        }
        let ghost mid = out@;
        push_repeat(&mut out, 0, w - x);
        proof {
            assert(out@.subrange(0, before.len() as int) =~= before);
            assert(out@.skip(before.len() as int) =~= mid.skip(before.len() as int) + Seq::new(
                (w - x) as nat,
                |_i: int| 0u8,
            ));
            assert(out@.skip(before.len() as int) == fill_row(row@, w as int, 0));
            assert(out@ =~= before + fill_row(row@, w as int, 0));
            assert(render_rows(rows.skip(y as int), w as int) == fill_row(rows[y as int], w as int, 0)
                + render_rows(rows.skip(y + 1), w as int));
            assert(render_rows(rows, w as int) =~= out@ + render_rows(rows.skip(y + 1), w as int));
        }
        y = y + 1;
    }
    proof {
        assert(rows.skip(rows.len() as int) =~= Seq::<Seq<PixelRun>>::empty());
    }
    Ok(out)
}


/// A painted line from column `x` has exactly `w - x` pixels.
pub proof fn lemma_fill_row_len(runs: Seq<PixelRun>, w: int, x: int)
    requires
        0 <= x <= w,
    ensures
        fill_row(runs, w, x).len() == w - x,
    decreases runs.len(),
{
    if x < w && runs.len() > 0 {
        let n: int = if runs[0].count as int <= w - x {
            runs[0].count as int
        } else {
            w - x
        };
        lemma_fill_row_len(runs.drop_first(), w, x + n);
    }
}

/// A rendered field holds exactly `width` pixels per row
/// (`pixels[y * width + x]` addressing).
pub proof fn lemma_render_rows_len(rows: Seq<Seq<PixelRun>>, w: int)
    requires
        w >= 0,
    ensures
        render_rows(rows, w).len() == rows.len() * w,
    decreases rows.len(),
{
    if rows.len() > 0 {
        lemma_fill_row_len(rows[0], w, 0);
        lemma_render_rows_len(rows.drop_first(), w);
        assert(rows.len() * w == w + (rows.len() - 1) * w) by (nonlinear_arith);
    }
}

/// Every decoded run carries a 2-bit pixel code.
pub proof fn lemma_run_code_two_bits(s: Seq<u8>, pos: int)
    ensures
        spec_run(s, pos) matches Some((run, _)) ==> run.code <= 3,
{
    reveal_with_fuel(pow2, 3);
    lemma_bits_at_bound(s, pos + 2, 2);
    lemma_bits_at_bound(s, pos + 6, 2);
    lemma_bits_at_bound(s, pos + 10, 2);
    lemma_bits_at_bound(s, pos + 14, 2);
}

/// Copy a byte slice into a new vector.
fn slice_to_vec(s: &[u8]) -> (r: Vec<u8>)
    ensures
        r@ == s@,
{
    let mut v: Vec<u8> = Vec::new();
    let mut k: usize = 0;
    while k < s.len()
        invariant
            k <= s@.len(),
            v@ == s@.subrange(0, k as int),
        decreases s@.len() - k,
    {
        v.push(s[k]);
        k = k + 1;
        assert(v@ =~= s@.subrange(0, k as int));
    }
    assert(v@ =~= s@);
    v
}

} // verus!
