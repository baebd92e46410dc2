//! Information-file structures that the navigation logic consumes:
//! command words, program chains, cells, search pointers and the
//! stream-attribute tables.

use vstd::prelude::*;

use crate::error::{Error, Result};
use crate::nav::{spec_decode, NavInstruction};
use crate::uops::UopMask;

verus! {

/// One 8-byte navigation command word.
#[derive(Debug, Clone, Copy, PartialEq, Eq)]
pub struct NavCommand {
    /// The raw command bytes.
    pub bytes: [u8; 8],
}

impl Default for NavCommand {
    fn default() -> (r: NavCommand)
        ensures
            r.bytes@ == seq![0u8, 0u8, 0u8, 0u8, 0u8, 0u8, 0u8, 0u8],
    {
        NavCommand { bytes: [0u8; 8] }
    }
}


/// The big-endian 16-bit word at `b[i..i + 2]`.
pub open spec fn be16_at(b: Seq<u8>, i: int) -> u16 {
    (b[i] as int * 256 + b[i + 1] as int) as u16
}

/// The big-endian 32-bit word at `b[i..i + 4]`.
pub open spec fn be32_at(b: Seq<u8>, i: int) -> u32 {
    (b[i] as int * 0x100_0000 + b[i + 1] as int * 0x1_0000 + b[i + 2] as int * 0x100 + b[i
        + 3] as int) as u32
}

fn read_be16(b: &[u8], i: usize) -> (r: u16)
    requires
        i + 2 <= b@.len(),
    ensures
        r == be16_at(b@, i as int),
{
    b[i] as u16 * 256 + b[i + 1] as u16
}

fn read_be32(b: &[u8], i: usize) -> (r: u32)
    requires
        i + 4 <= b@.len(),
    ensures
        r == be32_at(b@, i as int),
{
    b[i] as u32 * 0x100_0000 + b[i + 1] as u32 * 0x1_0000 + b[i + 2] as u32 * 0x100 + b[i + 3] as u32
}

/// Frame-rate code of a BCD playback time.
#[derive(Debug, Clone, Copy, PartialEq, Eq, Structural)]
pub enum FrameRate {
    /// `00` — illegal.
    Illegal,
    /// `01` — 25 fps.
    Pal25,
    /// `10` — reserved.
    Reserved,
    /// `11` — 30 fps.
    Ntsc30,
}

/// A playback time `hh:mm:ss.ff` decoded from its four BCD bytes.
#[derive(Debug, Clone, Copy, PartialEq, Eq)]
pub struct PgcTime {
    /// Hours.
    pub hours: u8,
    /// Minutes.
    pub minutes: u8,
    /// Seconds.
    pub seconds: u8,
    /// Frames.
    pub frames: u8,
    /// Frame rate of the frames field.
    pub frame_rate: FrameRate,
}

/// The value of a two-digit BCD byte.
pub open spec fn bcd(b: u8) -> u8 {
    ((b / 16) * 10 + b % 16) as u8
}

fn bcd_value(b: u8) -> (r: u8)
    ensures
        r == bcd(b),
{
    (b / 16) * 10 + b % 16
}

/// The playback time encoded by four bytes: BCD hours, minutes, seconds;
/// the frame-rate code in the top two bits of the last byte and BCD
/// frames in its low six.
pub open spec fn spec_pgc_time(b: Seq<u8>) -> PgcTime {
    PgcTime {
        hours: bcd(b[0]),
        minutes: bcd(b[1]),
        seconds: bcd(b[2]),
        frames: bcd(b[3] % 64),
        frame_rate: match b[3] / 64 {
            0u8 => FrameRate::Illegal,
            1u8 => FrameRate::Pal25,
            2u8 => FrameRate::Reserved,
            _ => FrameRate::Ntsc30,
        },
    }
}

impl PgcTime {
    /// Decode the four BCD bytes.
    pub fn from_bytes(b: [u8; 4]) -> (r: Self)
        ensures
            r == spec_pgc_time(b@),
    {
        let rate = match b[3] / 64 {
            0 => FrameRate::Illegal,
            1 => FrameRate::Pal25,
            2 => FrameRate::Reserved,
            _ => FrameRate::Ntsc30,
        };
        PgcTime {
            hours: bcd_value(b[0]),
            minutes: bcd_value(b[1]),
            seconds: bcd_value(b[2]),
            frames: bcd_value(b[3] % 64),
            frame_rate: rate,
        }
    }

    /// Whole seconds, `3600 h + 60 m + s`.
    pub fn total_seconds(self) -> (r: u32)
        ensures
            r == self.hours as int * 3600 + self.minutes as int * 60 + self.seconds as int,
    {
        self.hours as u32 * 3600 + self.minutes as u32 * 60 + self.seconds as u32
    }
}

/// A still-frame hold after a cell or a PGC.
#[derive(Debug, Clone, Copy, PartialEq, Eq, Structural)]
pub enum StillTime {
    /// `0` — no still.
    NoStill,
    /// `1..=254` seconds.
    Seconds(u8),
    /// `255` — hold until released.
    Infinite,
}

impl StillTime {
    /// Decode a still-time byte.
    #[verifier::allow_in_spec]
    pub fn from_byte(b: u8) -> Self
        returns
            (if b == 0 {
                StillTime::NoStill
            } else if b == 255 {
                StillTime::Infinite
            } else {
                StillTime::Seconds(b)
            }),
    {
        if b == 0 {
            StillTime::NoStill
        } else if b == 255 {
            StillTime::Infinite
        } else {
            StillTime::Seconds(b)
        }
    }
}

/// One cell-playback entry (`C_PBI`, 24 bytes).
#[derive(Debug, Clone, Copy, PartialEq, Eq)]
pub struct CellPlaybackInfo {
    /// Category byte 0: block mode in bits 7..6 (`0` none, `1` first,
    /// `2` middle, `3` last), block type in bits 5..4 (`1` angle).
    pub category_byte0: u8,
    /// The cell stops trick play.
    pub restricted: bool,
    /// Still time after the cell.
    pub still_time: u8,
    /// 1-based cell command number (`0` = none).
    pub cell_command: u8,
    /// Playback time.
    pub playback_time: PgcTime,
    /// First VOBU start sector.
    pub first_vobu_start_sector: u32,
    /// First interleaved-unit end sector.
    pub first_ilvu_end_sector: u32,
    /// Last VOBU start sector.
    pub last_vobu_start_sector: u32,
    /// Last VOBU end sector.
    pub last_vobu_end_sector: u32,
}

/// Block mode of a cell (`0` none, `1` first, `2` middle, `3` last).
pub open spec fn block_mode(c: CellPlaybackInfo) -> u8 {
    c.category_byte0 / 64
}

/// The cell opens an angle block.
pub open spec fn opens_angle_block(c: CellPlaybackInfo) -> bool {
    block_mode(c) == 1 && (c.category_byte0 / 16) % 4 == 1
}

/// The cell continues a block (middle or last).
pub open spec fn continues_block(c: CellPlaybackInfo) -> bool {
    block_mode(c) >= 2
}

impl CellPlaybackInfo {
    /// The still hold after the cell.
    pub fn still(&self) -> (r: StillTime)
        ensures
            r == StillTime::from_byte(self.still_time),
    {
        StillTime::from_byte(self.still_time)
    }
}

/// The cell-playback entry encoded at `b[o..o + 24]`.
pub open spec fn spec_cell(b: Seq<u8>, o: int) -> CellPlaybackInfo {
    CellPlaybackInfo {
        category_byte0: b[o],
        restricted: (b[o + 1] / 32) % 2 == 1,
        still_time: b[o + 2],
        cell_command: b[o + 3],
        playback_time: spec_pgc_time(b.subrange(o + 4, o + 8)),
        first_vobu_start_sector: be32_at(b, o + 8),
        first_ilvu_end_sector: be32_at(b, o + 12),
        last_vobu_start_sector: be32_at(b, o + 16),
        last_vobu_end_sector: be32_at(b, o + 20),
    }
}

fn parse_cell(b: &[u8], o: usize) -> (r: CellPlaybackInfo)
    requires
        o + 24 <= b@.len(),
    ensures
        r == spec_cell(b@, o as int),
{
    let n = b.len();
    assert(o + 24 <= n);
    let t = PgcTime::from_bytes([b[o + 4], b[o + 5], b[o + 6], b[o + 7]]);
    proof {
        assert(seq![b@[o + 4], b@[o + 5], b@[o + 6], b@[o + 7]] =~= b@.subrange(
            o + 4,
            o + 8,
        ));
    }
    CellPlaybackInfo {
        category_byte0: b[o],
        restricted: (b[o + 1] / 32) % 2 == 1,
        still_time: b[o + 2],
        cell_command: b[o + 3],
        playback_time: t,
        first_vobu_start_sector: read_be32(b, o + 8),
        first_ilvu_end_sector: read_be32(b, o + 12),
        last_vobu_start_sector: read_be32(b, o + 16),
        last_vobu_end_sector: read_be32(b, o + 20),
    }
}


/// A PGC's command table: pre, post and cell command lists.
#[derive(Debug, Clone, PartialEq, Eq)]
pub struct PgcCommandTable {
    /// Pre commands.
    pub pre: Vec<NavCommand>,
    /// Post commands.
    pub post: Vec<NavCommand>,
    /// Cell commands (addressed 1-based by a cell's `cell_command`).
    pub cell: Vec<NavCommand>,
    /// End address of the table (last byte, relative).
    pub end_address: u16,
}

impl PgcCommandTable {
    /// The decoded cell command `index` (1-based); `None` when out of
    /// range.
    pub fn cell_instruction(&self, index: u16) -> (r: Option<NavInstruction>)
        ensures
            r == (if 1 <= index <= self.cell@.len() {
                Some(spec_decode(self.cell@[index - 1].bytes@))
            } else {
                None
            }),
    {
        if index >= 1 && (index as usize) <= self.cell.len() {
            Some(self.cell[(index - 1) as usize].decode())
        } else {
            None
        }
    }
}

/// The eight-byte command at `b[o..o + 8]`.
pub open spec fn spec_command_at(b: Seq<u8>, o: int) -> Seq<u8> {
    b.subrange(o, o + 8)
}

fn read_commands(b: &[u8], start: usize, count: usize) -> (r: Vec<NavCommand>)
    requires
        start + 8 * count <= b@.len(),
    ensures
        r@.len() == count,
        forall|k: int| 0 <= k < count ==> (#[trigger] r@[k]).bytes@ == b@.subrange(
            start + 8 * k,
            start + 8 * k + 8,
        ),
{
    let n = b.len();
    let mut out: Vec<NavCommand> = Vec::new();
    let mut k: usize = 0;
    while k < count
        invariant
            n == b@.len(),
            start + 8 * count <= n,
            k <= count,
            out@.len() == k,
            forall|j: int| 0 <= j < k ==> (#[trigger] out@[j]).bytes@ == b@.subrange(
                start + 8 * j,
                start + 8 * j + 8,
            ),
        decreases count - k,
    {
        let o = start + 8 * k;
        let c = NavCommand {
            bytes: [b[o], b[o + 1], b[o + 2], b[o + 3], b[o + 4], b[o + 5], b[o + 6], b[o + 7]],
        };
        assert(c.bytes@ =~= b@.subrange(o as int, o + 8));
        out.push(c);
        k = k + 1;
    }
    out
}

/// One program chain: header, program map, cell-playback table and
/// command table.
#[derive(Debug, Clone, PartialEq, Eq)]
pub struct Pgc {
    /// Number of programs.
    pub number_of_programs: u8,
    /// Number of cells.
    pub number_of_cells: u8,
    /// Total playback time.
    pub playback_time: PgcTime,
    /// Prohibited user operations.
    pub prohibited_user_ops: UopMask,
    /// Next PGC number (`0` = none).
    pub next_pgcn: u16,
    /// Previous PGC number (`0` = none).
    pub prev_pgcn: u16,
    /// GoUp PGC number (`0` = none).
    pub goup_pgcn: u16,
    /// Still time after the last cell.
    pub still_time: u8,
    /// Playback mode byte.
    pub playback_mode: u8,
    /// Entry cell (1-based) of each program.
    pub program_map: Vec<u8>,
    /// Cell-playback entries.
    pub cells: Vec<CellPlaybackInfo>,
    /// The command table, when the PGC has one.
    pub commands: Option<PgcCommandTable>,
}

/// Size of the fixed PGC header.
pub const PGC_HEADER_LEN: usize = 0xEC;

/// The command table at offset `o` fits in `b`.
pub open spec fn command_table_fits(b: Seq<u8>, o: int) -> bool {
    o + 8 <= b.len() && o + 8 + 8 * (be16_at(b, o) + be16_at(b, o + 2) + be16_at(b, o + 4))
        <= b.len()
}

/// A PGC buffer is well-formed: the header is complete and every table
/// named by a non-zero offset lies inside the buffer.
pub open spec fn pgc_ok(b: Seq<u8>) -> bool {
    &&& b.len() >= 0xEC
    &&& (be16_at(b, 0xE4) == 0 || command_table_fits(b, be16_at(b, 0xE4) as int))
    &&& (be16_at(b, 0xE6) == 0 || be16_at(b, 0xE6) + b[2] <= b.len())
    &&& (be16_at(b, 0xE8) == 0 || be16_at(b, 0xE8) + 24 * b[3] <= b.len())
}

/// `p` is the PGC encoded by `b` (see [`pgc_ok`]).
pub open spec fn pgc_decoded(p: Pgc, b: Seq<u8>) -> bool {
    let co = be16_at(b, 0xE4) as int;
    let po = be16_at(b, 0xE6) as int;
    let so = be16_at(b, 0xE8) as int;
    &&& p.number_of_programs == b[2]
    &&& p.number_of_cells == b[3]
    &&& p.playback_time == spec_pgc_time(b.subrange(4, 8))
    &&& p.prohibited_user_ops@ == be32_at(b, 8)
    &&& p.next_pgcn == be16_at(b, 0x9C)
    &&& p.prev_pgcn == be16_at(b, 0x9E)
    &&& p.goup_pgcn == be16_at(b, 0xA0)
    &&& p.still_time == b[0xA2]
    &&& p.playback_mode == b[0xA3]
    &&& p.program_map@ == (if po == 0 { Seq::empty() } else { b.subrange(po, po + b[2]) })
    &&& p.cells@.len() == (if so == 0 { 0 } else { b[3] as int })
    &&& forall|k: int| 0 <= k < p.cells@.len() ==> #[trigger] p.cells@[k] == spec_cell(b, so + 24 * k)
    &&& (co == 0 <==> p.commands is None)
    &&& (p.commands matches Some(t) ==> {
        let npre = be16_at(b, co) as int;
        let npost = be16_at(b, co + 2) as int;
        let ncell = be16_at(b, co + 4) as int;
        &&& t.end_address == be16_at(b, co + 6)
        &&& t.pre@.len() == npre
        &&& t.post@.len() == npost
        &&& t.cell@.len() == ncell
        &&& forall|k: int| 0 <= k < npre ==> (#[trigger] t.pre@[k]).bytes@ == b.subrange(
            co + 8 + 8 * k,
            co + 16 + 8 * k,
        )
        &&& forall|k: int| 0 <= k < npost ==> (#[trigger] t.post@[k]).bytes@ == b.subrange(
            co + 8 + 8 * (npre + k),
            co + 16 + 8 * (npre + k),
        )
        &&& forall|k: int| 0 <= k < ncell ==> (#[trigger] t.cell@[k]).bytes@ == b.subrange(
            co + 8 + 8 * (npre + npost + k),
            co + 16 + 8 * (npre + npost + k),
        )
    })
}

impl Pgc {
    /// Parse a PGC from its first byte. Fails with `InvalidUdf` when the
    /// header is shorter than `0xEC` bytes or a table named by a
    /// non-zero offset runs past the buffer.
    pub fn parse(b: &[u8]) -> (r: Result<Pgc>)
        ensures
            r is Ok <==> pgc_ok(b@),
            r matches Err(e) ==> e is InvalidUdf,
            r matches Ok(p) ==> pgc_decoded(p, b@),
    {
        let n = b.len();
        if n < PGC_HEADER_LEN {
            return Err(Error::InvalidUdf("PGC header truncated"));
        }
        let nprog = b[2];
        let ncells = b[3];
        let co = read_be16(b, 0xE4) as usize;
        let po = read_be16(b, 0xE6) as usize;
        let so = read_be16(b, 0xE8) as usize;
        let commands = if co == 0 {
            None
        } else {
            if co + 8 > n {
                return Err(Error::InvalidUdf("PGC command table truncated"));
            }
            let npre = read_be16(b, co) as usize;
            let npost = read_be16(b, co + 2) as usize;
            let ncell = read_be16(b, co + 4) as usize;
            let end_address = read_be16(b, co + 6);
            if co + 8 + 8 * (npre + npost + ncell) > n {
                return Err(Error::InvalidUdf("PGC command table truncated"));
            }
            let pre = read_commands(b, co + 8, npre);
            let post = read_commands(b, co + 8 + 8 * npre, npost);
            let cell = read_commands(b, co + 8 + 8 * (npre + npost), ncell);
            proof {
                assert forall|k: int| 0 <= k < npost implies (#[trigger] post@[k]).bytes@
                    == b@.subrange(co + 8 + 8 * (npre + k), co + 16 + 8 * (npre + k)) by {
                    assert(co + 8 + 8 * npre + 8 * k == co + 8 + 8 * (npre + k));
                }
                assert forall|k: int| 0 <= k < ncell implies (#[trigger] cell@[k]).bytes@
                    == b@.subrange(co + 8 + 8 * (npre + npost + k), co + 16 + 8 * (npre + npost + k)) by {
                    assert(co + 8 + 8 * (npre + npost) + 8 * k == co + 8 + 8 * (npre + npost + k));
                }
            }
            Some(PgcCommandTable { pre, post, cell, end_address })
        };
        let mut program_map: Vec<u8> = Vec::new();
        if po != 0 {
            if po + nprog as usize > n {
                return Err(Error::InvalidUdf("PGC program map truncated"));
            }
            let mut k: usize = 0;
            while k < nprog as usize
                invariant
                    n == b@.len(),
                    po + nprog <= n,
                    k <= nprog,
                    program_map@ == b@.subrange(po as int, po + k),
                decreases nprog - k,
            {
                program_map.push(b[po + k]);
                k = k + 1;
                assert(program_map@ =~= b@.subrange(po as int, po + k));
            }
        }
        let mut cells: Vec<CellPlaybackInfo> = Vec::new();
        if so != 0 {
            if so + 24 * (ncells as usize) > n {
                return Err(Error::InvalidUdf("PGC cell playback table truncated"));
            }
            let mut k: usize = 0;
            while k < ncells as usize
                invariant
                    n == b@.len(),
                    so + 24 * ncells <= n,
                    k <= ncells,
                    cells@.len() == k,
                    forall|j: int| 0 <= j < k ==> #[trigger] cells@[j] == spec_cell(b@, so + 24 * j),
                decreases ncells - k,
            {
                cells.push(parse_cell(b, so + 24 * k));
                k = k + 1;
            }
        }
        let t = PgcTime::from_bytes([b[4], b[5], b[6], b[7]]);
        proof {
            assert(seq![b@[4], b@[5], b@[6], b@[7]] =~= b@.subrange(4, 8));
        }
        Ok(Pgc {
            number_of_programs: nprog,
            number_of_cells: ncells,
            playback_time: t,
            prohibited_user_ops: UopMask::from_bits(read_be32(b, 8)),
            next_pgcn: read_be16(b, 0x9C),
            prev_pgcn: read_be16(b, 0x9E),
            goup_pgcn: read_be16(b, 0xA0),
            still_time: b[0xA2],
            playback_mode: b[0xA3],
            program_map,
            cells,
            commands,
        })
    }
}


/// Number of cells continuing the block after 0-based index `i`
/// (middle cells up to and including the last one).
pub open spec fn block_tail(cells: Seq<CellPlaybackInfo>, i: int) -> nat
    decreases cells.len() - i,
{
    if i < 0 || i >= cells.len() {
        0
    } else if block_mode(cells[i]) == 3 {
        1
    } else if block_mode(cells[i]) == 2 {
        1 + block_tail(cells, i + 1)
    } else {
        0
    }
}

/// The cell presented for `cell` at camera `angle`: when `cell` opens
/// an angle block of `n` cells and `2 <= angle <= n`, the block's
/// `angle`-th cell; otherwise `cell` itself.
pub open spec fn spec_cell_for_angle(cells: Seq<CellPlaybackInfo>, cell: u8, angle: u8) -> u8 {
    if 1 <= cell <= cells.len() && opens_angle_block(cells[cell - 1]) && angle >= 2 && angle - 1
        <= block_tail(cells, cell as int) && cell + angle - 1 <= 255 {
        (cell + angle - 1) as u8
    } else {
        cell
    }
}

/// The first 0-based index at or after `i` that does not continue a
/// block.
pub open spec fn skip_continuations(cells: Seq<CellPlaybackInfo>, i: int) -> int
    decreases cells.len() - i,
{
    if i < 0 || i >= cells.len() {
        i
    } else if continues_block(cells[i]) {
        skip_continuations(cells, i + 1)
    } else {
        i
    }
}

/// The cell after `cell` in presentation order at `angle` (the rest of
/// an angle block is skipped), or `None` past the last cell.
pub open spec fn spec_next_cell(cells: Seq<CellPlaybackInfo>, cell: u8, angle: u8) -> Option<u8> {
    let j = skip_continuations(cells, cell as int);
    if j < cells.len() && j + 1 <= 255 {
        Some(spec_cell_for_angle(cells, (j + 1) as u8, angle))
    } else {
        None
    }
}

/// The entry cell of program `pgn` (1-based), when the program exists.
pub open spec fn spec_program_entry(p: Pgc, pgn: u8) -> Option<u8> {
    if 1 <= pgn <= p.number_of_programs && pgn <= p.program_map@.len() {
        Some(p.program_map@[pgn - 1])
    } else {
        None
    }
}

/// The highest program among the first `k` whose entry cell is at most
/// `cell`.
pub open spec fn spec_program_upto(map: Seq<u8>, k: nat, cell: u8) -> Option<u8>
    decreases k,
{
    if k == 0 {
        None
    } else if map[k - 1] <= cell {
        Some(k as u8)
    } else {
        spec_program_upto(map, (k - 1) as nat, cell)
    }
}

/// The program containing `cell`: the last program whose entry cell is
/// at or before it.
pub open spec fn spec_program_containing(p: Pgc, cell: u8) -> Option<u8> {
    let k = if (p.number_of_programs as nat) < p.program_map@.len() {
        p.number_of_programs as nat
    } else {
        p.program_map@.len()
    };
    spec_program_upto(p.program_map@, k, cell)
}

/// The cells presented at `angle` from `start` on, each followed by
/// its successor, with at most `fuel` cells.
pub open spec fn walk_from(cells: Seq<CellPlaybackInfo>, start: Option<u8>, angle: u8, fuel: nat) -> Seq<u8>
    decreases fuel,
{
    match start {
        None => Seq::empty(),
        Some(c) => if fuel == 0 {
            Seq::empty()
        } else {
            seq![c] + walk_from(cells, spec_next_cell(cells, c, angle), angle, (fuel - 1) as nat)
        },
    }
}

/// The first cell presented at `angle`.
pub open spec fn spec_first_cell(cells: Seq<CellPlaybackInfo>, angle: u8) -> Option<u8> {
    if cells.len() >= 1 { Some(spec_cell_for_angle(cells, 1, angle)) } else { None }
}

impl Pgc {
    /// The still hold after the last cell.
    pub fn still(&self) -> (r: StillTime)
        ensures
            r == StillTime::from_byte(self.still_time),
    {
        StillTime::from_byte(self.still_time)
    }

    /// The cell presented for `cell` at camera `angle` (see
    /// [`spec_cell_for_angle`]).
    pub fn cell_for_angle(&self, cell: u8, angle: u8) -> (r: u8)
        ensures
            r == spec_cell_for_angle(self.cells@, cell, angle),
    {
        let n = self.cells.len();
        if cell >= 1 && (cell as usize) <= n && angle >= 2 {
            let c = &self.cells[(cell - 1) as usize];
            if c.category_byte0 / 64 == 1 && (c.category_byte0 / 16) % 4 == 1 {
                let tail = block_tail_len(&self.cells, cell as usize);
                if (angle - 1) as usize <= tail && cell as u16 + angle as u16 - 1 <= 255 {
                    return cell + (angle - 1);
                }
            }
        }
        cell
    }
}

fn block_tail_len(cells: &Vec<CellPlaybackInfo>, i: usize) -> (r: usize)
    requires
        i <= cells@.len(),
    ensures
        r == block_tail(cells@, i as int),
        r <= cells@.len() - i,
    decreases cells@.len() - i,
{
    if i >= cells.len() {
        0
    } else {
        let m = cells[i].category_byte0 / 64;
        if m == 3 {
            1
        } else if m == 2 {
            1 + block_tail_len(cells, i + 1)
        } else {
            0
        }
    }
}


fn skip_cont(cells: &Vec<CellPlaybackInfo>, i: usize) -> (r: usize)
    requires
        i <= cells@.len(),
    ensures
        r == skip_continuations(cells@, i as int),
        i <= r <= cells@.len(),
    decreases cells@.len() - i,
{
    if i >= cells.len() {
        i
    } else if cells[i].category_byte0 / 64 >= 2 {
        skip_cont(cells, i + 1)
    } else {
        i
    }
}

impl Pgc {
    /// The cell after `cell` at `angle` (see [`spec_next_cell`]).
    pub fn next_cell(&self, cell: u8, angle: u8) -> (r: Option<u8>)
        ensures
            r == spec_next_cell(self.cells@, cell, angle),
            r matches Some(c) ==> c > cell,
    {
        let n = self.cells.len();
        let start: usize = if (cell as usize) < n {
            cell as usize
        } else {
            n
        };
        let j = skip_cont(&self.cells, start);
        proof {
            if (cell as int) >= n {
                assert(skip_continuations(self.cells@, cell as int) == cell as int);
            }
        }
        if j < n && j < 255 {
            let c = self.cell_for_angle((j + 1) as u8, angle);
            proof {
                assert(c >= j + 1);
            }
            Some(c)
        } else {
            None
        }
    }

    /// The first cell presented at `angle`; `None` for a PGC without
    /// cells.
    pub fn first_cell(&self, angle: u8) -> (r: Option<u8>)
        ensures
            r == spec_first_cell(self.cells@, angle),
    {
        if self.cells.len() >= 1 {
            Some(self.cell_for_angle(1, angle))
        } else {
            None
        }
    }

    /// The entry cell of program `pgn` (1-based).
    pub fn program_entry_cell(&self, pgn: u8) -> (r: Option<u8>)
        ensures
            r == spec_program_entry(*self, pgn),
    {
        if pgn >= 1 && pgn <= self.number_of_programs && (pgn as usize) <= self.program_map.len() {
            Some(self.program_map[(pgn - 1) as usize])
        } else {
            None
        }
    }

    /// The program containing `cell`.
    pub fn program_containing_cell(&self, cell: u8) -> (r: Option<u8>)
        ensures
            r == spec_program_containing(*self, cell),
    {
        let k0: usize = if (self.number_of_programs as usize) < self.program_map.len() {
            self.number_of_programs as usize
        } else {
            self.program_map.len()
        };
        let mut k = k0;
        while k > 0
            invariant
                k <= k0,
                k0 <= self.program_map@.len(),
                k0 <= 255,
                spec_program_containing(*self, cell) == spec_program_upto(self.program_map@, k as nat, cell),
            decreases k,
        {
            if self.program_map[k - 1] <= cell {
                return Some(k as u8);
            }
            k = k - 1;
        }
        None
    }

    /// The cells presented at `angle`, in order: the first cell, then
    /// each successor (angle blocks contribute one cell).
    pub fn cell_walk(&self, angle: u8) -> (r: Vec<u8>)
        ensures
            r@ == walk_from(self.cells@, spec_first_cell(self.cells@, angle), angle, 256),
    {
        let mut out: Vec<u8> = Vec::new();
        let mut cur = self.first_cell(angle);
        let mut fuel: usize = 256;
        while fuel > 0
            invariant
                walk_from(self.cells@, spec_first_cell(self.cells@, angle), angle, 256) == out@ + walk_from(self.cells@, cur, angle, fuel as nat),
            decreases fuel,
        {
            match cur {
                None => {
                    assert(out@ + walk_from(self.cells@, cur, angle, fuel as nat) =~= out@);
                    return out;
                },
                Some(c) => {
                    let ghost prev = out@;
                    out.push(c);
                    let nx = self.next_cell(c, angle);
                    assert(prev + walk_from(self.cells@, cur, angle, fuel as nat) =~= out@ + walk_from(self.cells@, nx, angle, (fuel - 1) as nat));
                    cur = nx;
                },
            }
            fuel = fuel - 1;
        }
        assert(out@ + walk_from(self.cells@, cur, angle, 0) =~= out@);
        out
    }
}


/// One `PGCI_SRP` search pointer: PGC category word and PGC offset.
#[derive(Debug, Clone, Copy, PartialEq, Eq)]
pub struct PgciSrp {
    /// Category word: entry flag in bit 31, title number in bits 30..24.
    pub category: u32,
    /// Offset of the PGC.
    pub offset: u32,
}

impl PgciSrp {
    /// Bit 31: the PGC is a title's entry PGC.
    pub fn is_entry_pgc(&self) -> (r: bool)
        ensures
            r == (self.category >= 0x8000_0000),
    {
        self.category >= 0x8000_0000
    }

    /// Bits 30..24: the VTS title number the PGC belongs to.
    pub fn title_number(&self) -> (r: u8)
        ensures
            r == (self.category / 0x100_0000) % 128,
    {
        ((self.category / 0x100_0000) % 128) as u8
    }
}

/// One `TT_SRPT` entry: a title of the volume.
#[derive(Debug, Clone, Copy, PartialEq, Eq)]
pub struct DvdTitleEntry {
    /// Title type (playback type and UOP 0/1 bits).
    pub title_type: u8,
    /// Number of angles.
    pub angle_count: u8,
    /// Number of chapters.
    pub chapter_count: u16,
    /// Parental-management mask.
    pub parental_mask: u16,
    /// Title-set number.
    pub vts_number: u8,
    /// Title number inside the title set.
    pub vts_title_number: u8,
    /// First sector of the title set.
    pub vts_start_sector: u32,
}

/// The title search-pointer table.
#[derive(Debug, Clone, PartialEq, Eq)]
pub struct TtSrpt {
    /// Number of titles.
    pub title_count: u16,
    /// End address of the table.
    pub end_address: u32,
    /// The titles, title 1 first.
    pub entries: Vec<DvdTitleEntry>,
}

impl TtSrpt {
    /// Title `ttn` (1-based), when present.
    pub fn title(&self, ttn: u8) -> (r: Option<DvdTitleEntry>)
        ensures
            r == (if 1 <= ttn <= self.entries@.len() {
                Some(self.entries@[ttn - 1])
            } else {
                None
            }),
    {
        if ttn >= 1 && (ttn as usize) <= self.entries.len() {
            Some(self.entries[(ttn - 1) as usize])
        } else {
            None
        }
    }
}

/// Menu type of a menu PGC (and of a `JumpSS` / `CallSS` menu operand).
#[derive(Debug, Clone, Copy, PartialEq, Eq)]
pub enum MenuType {
    /// `2` — title menu (VMG).
    Title,
    /// `3` — root menu.
    Root,
    /// `4` — sub-picture menu.
    Subpicture,
    /// `5` — audio menu.
    Audio,
    /// `6` — angle menu.
    Angle,
    /// `7` — PTT (chapter) menu.
    Ptt,
    /// Any other value.
    Unknown(u8),
}

impl MenuType {
    /// Decode the low four bits.
    #[verifier::allow_in_spec]
    pub fn from_nibble(n: u8) -> Self
        returns
            (match n % 16 {
                2u8 => MenuType::Title,
                3u8 => MenuType::Root,
                4u8 => MenuType::Subpicture,
                5u8 => MenuType::Audio,
                6u8 => MenuType::Angle,
                7u8 => MenuType::Ptt,
                other => MenuType::Unknown(other),
            }),
    {
        match n % 16 {
            2 => MenuType::Title,
            3 => MenuType::Root,
            4 => MenuType::Subpicture,
            5 => MenuType::Audio,
            6 => MenuType::Angle,
            7 => MenuType::Ptt,
            other => MenuType::Unknown(other),
        }
    }
}

/// Audio coding mode of an audio attribute.
#[derive(Debug, Clone, Copy, PartialEq, Eq)]
pub enum AudioCodingMode {
    /// `0` — AC-3.
    Ac3,
    /// `2` — MPEG-1.
    Mpeg1,
    /// `3` — MPEG-2 extended.
    Mpeg2Ext,
    /// `4` — LPCM.
    Lpcm,
    /// `6` — DTS.
    Dts,
    /// `1`, `5`, `7` — reserved.
    Reserved(u8),
}

/// Application mode of an audio attribute.
#[derive(Debug, Clone, Copy, PartialEq, Eq)]
pub enum AudioApplicationMode {
    /// `0` — unspecified.
    Unspecified,
    /// `1` — karaoke.
    Karaoke,
    /// `2` — surround.
    Surround,
    /// `3` — reserved.
    Reserved,
}

/// One 8-byte audio-stream attribute.
#[derive(Debug, Clone, Copy, PartialEq, Eq)]
pub struct AudioAttributes {
    /// Coding mode (byte 0 bits 7..5).
    pub coding_mode: AudioCodingMode,
    /// Multichannel extension present (byte 0 bit 4).
    pub multichannel_extension: bool,
    /// Language type (byte 0 bits 3..2; `1` = language code present).
    pub language_type: u8,
    /// Application mode (byte 0 bits 1..0).
    pub application_mode: AudioApplicationMode,
    /// Quantisation / dynamic range (byte 1 bits 7..6).
    pub quantization_drc: u8,
    /// Sample-frequency code (byte 1 bits 5..4).
    pub sample_frequency: u8,
    /// Channel count (byte 1 bits 2..0, plus one).
    pub channels: u8,
    /// ISO 639 language code (bytes 2..3).
    pub language_code: [u8; 2],
    /// Code extension (byte 5).
    pub code_extension: u8,
    /// Application information (byte 7).
    pub application_info: u8,
}

impl AudioAttributes {
    /// Decode an 8-byte audio attribute.
    pub fn parse(b: &[u8; 8]) -> (r: Self)
        ensures
            r.coding_mode == (match b@[0] / 32 {
                0u8 => AudioCodingMode::Ac3,
                2u8 => AudioCodingMode::Mpeg1,
                3u8 => AudioCodingMode::Mpeg2Ext,
                4u8 => AudioCodingMode::Lpcm,
                6u8 => AudioCodingMode::Dts,
                other => AudioCodingMode::Reserved(other),
            }),
            r.multichannel_extension == ((b@[0] / 16) % 2 == 1),
            r.language_type == (b@[0] / 4) % 4,
            r.application_mode == (match b@[0] % 4 {
                0u8 => AudioApplicationMode::Unspecified,
                1u8 => AudioApplicationMode::Karaoke,
                2u8 => AudioApplicationMode::Surround,
                _ => AudioApplicationMode::Reserved,
            }),
            r.quantization_drc == b@[1] / 64,
            r.sample_frequency == (b@[1] / 16) % 4,
            r.channels == b@[1] % 8 + 1,
            r.language_code@ == seq![b@[2], b@[3]],
            r.code_extension == b@[5],
            r.application_info == b@[7],
    {
        let coding_mode = match b[0] / 32 {
            0 => AudioCodingMode::Ac3,
            2 => AudioCodingMode::Mpeg1,
            3 => AudioCodingMode::Mpeg2Ext,
            4 => AudioCodingMode::Lpcm,
            6 => AudioCodingMode::Dts,
            other => AudioCodingMode::Reserved(other),
        };
        let application_mode = match b[0] % 4 {
            0 => AudioApplicationMode::Unspecified,
            1 => AudioApplicationMode::Karaoke,
            2 => AudioApplicationMode::Surround,
            _ => AudioApplicationMode::Reserved,
        };
        let lang = [b[2], b[3]];
        assert(lang@ =~= seq![b@[2], b@[3]]);
        AudioAttributes {
            coding_mode,
            multichannel_extension: (b[0] / 16) % 2 == 1,
            language_type: (b[0] / 4) % 4,
            application_mode,
            quantization_drc: b[1] / 64,
            sample_frequency: (b[1] / 16) % 4,
            channels: b[1] % 8 + 1,
            language_code: lang,
            code_extension: b[5],
            application_info: b[7],
        }
    }
}

/// One `PGC_AST_CTL` entry: logical audio stream availability and its
/// physical stream number.
#[derive(Debug, Clone, Copy, PartialEq, Eq)]
pub struct AudioStreamControl {
    /// The stream is available in this PGC.
    pub available: bool,
    /// Physical stream number.
    pub stream_number: u8,
}

/// The display column a sub-picture stream is resolved with.
#[derive(Debug, Clone, Copy, PartialEq, Eq, Structural)]
pub enum SubpictureDisplay {
    /// 4:3 output.
    Ratio4x3,
    /// Wide (16:9) output.
    Wide,
    /// Letterbox output.
    Letterbox,
    /// Pan&scan output.
    PanScan,
}

/// One `PGC_SPST_CTL` entry: availability and the physical stream per
/// display column.
#[derive(Debug, Clone, Copy, PartialEq, Eq)]
pub struct SubpictureStreamControl {
    /// The stream is available in this PGC.
    pub available: bool,
    /// Physical stream for 4:3 output.
    pub stream_4x3: u8,
    /// Physical stream for wide output.
    pub stream_wide: u8,
    /// Physical stream for letterbox output.
    pub stream_letterbox: u8,
    /// Physical stream for pan&scan output.
    pub stream_pan_scan: u8,
}

/// The physical stream an entry resolves to for `mode`, when available.
pub open spec fn spec_resolve(c: SubpictureStreamControl, mode: SubpictureDisplay) -> Option<u8> {
    if !c.available {
        None
    } else {
        Some(
            match mode {
                SubpictureDisplay::Ratio4x3 => c.stream_4x3,
                SubpictureDisplay::Wide => c.stream_wide,
                SubpictureDisplay::Letterbox => c.stream_letterbox,
                SubpictureDisplay::PanScan => c.stream_pan_scan,
            },
        )
    }
}

impl SubpictureStreamControl {
    /// The physical stream for `mode`; `None` when the stream is not
    /// available.
    pub fn resolve(&self, mode: SubpictureDisplay) -> (r: Option<u8>)
        ensures
            r == spec_resolve(*self, mode),
    {
        if !self.available {
            return None;
        }
        Some(
            match mode {
                SubpictureDisplay::Ratio4x3 => self.stream_4x3,
                SubpictureDisplay::Wide => self.stream_wide,
                SubpictureDisplay::Letterbox => self.stream_letterbox,
                SubpictureDisplay::PanScan => self.stream_pan_scan,
            },
        )
    }
}

/// Each display mode reads its own column of an available entry: 4:3,
/// wide, letterbox and pan&scan give `stream_4x3`, `stream_wide`,
/// `stream_letterbox` and `stream_pan_scan`; an unavailable entry gives
/// nothing. So when the four columns differ, two different modes never
/// resolve to the same sub-stream.
pub proof fn lemma_resolve_reads_mode_column(c: SubpictureStreamControl, m1: SubpictureDisplay, m2: SubpictureDisplay)
    ensures
        c.available ==> spec_resolve(c, SubpictureDisplay::Ratio4x3) == Some(c.stream_4x3),
        c.available ==> spec_resolve(c, SubpictureDisplay::Wide) == Some(c.stream_wide),
        c.available ==> spec_resolve(c, SubpictureDisplay::Letterbox) == Some(c.stream_letterbox),
        c.available ==> spec_resolve(c, SubpictureDisplay::PanScan) == Some(c.stream_pan_scan),
        !c.available ==> spec_resolve(c, m1) is None,
        ({
            &&& c.available
            &&& c.stream_4x3 != c.stream_wide
            &&& c.stream_4x3 != c.stream_letterbox
            &&& c.stream_4x3 != c.stream_pan_scan
            &&& c.stream_wide != c.stream_letterbox
            &&& c.stream_wide != c.stream_pan_scan
            &&& c.stream_letterbox != c.stream_pan_scan
            &&& m1 != m2
        }) ==> spec_resolve(c, m1) != spec_resolve(c, m2),
{
}

/// One 6-byte sub-picture attribute.
#[derive(Debug, Clone, Copy, PartialEq, Eq)]
pub struct SubpictureAttributes {
    /// Coding mode (byte 0 bits 7..5).
    pub coding_mode: u8,
    /// Language type (byte 0 bits 1..0; `1` = language code present).
    pub language_type: u8,
    /// ISO 639 language code (bytes 2..3).
    pub language_code: [u8; 2],
    /// Code extension (byte 5).
    pub code_extension: u8,
}

impl SubpictureAttributes {
    /// Decode a 6-byte sub-picture attribute.
    pub fn parse(b: &[u8; 6]) -> (r: Self)
        ensures
            r.coding_mode == b@[0] / 32,
            r.language_type == b@[0] % 4,
            r.language_code@ == seq![b@[2], b@[3]],
            r.code_extension == b@[5],
    {
        let lang = [b[2], b[3]];
        assert(lang@ =~= seq![b@[2], b@[3]]);
        SubpictureAttributes {
            coding_mode: b[0] / 32,
            language_type: b[0] % 4,
            language_code: lang,
            code_extension: b[5],
        }
    }
}

/// One 8-byte multichannel-extension entry (karaoke channel contents).
#[derive(Debug, Clone, Copy, PartialEq, Eq)]
pub struct McExtensionEntry {
    /// Channel 0 guide melody (byte 0 bit 0).
    pub ach0_guide_melody: bool,
    /// Channel 1 guide melody (byte 1 bit 0).
    pub ach1_guide_melody: bool,
    /// Channel 2 guide vocal 1 (byte 2 bit 3).
    pub ach2_guide_vocal_1: bool,
    /// Channel 2 guide vocal 2 (byte 2 bit 2).
    pub ach2_guide_vocal_2: bool,
    /// Channel 2 guide melody 1 (byte 2 bit 1).
    pub ach2_guide_melody_1: bool,
    /// Channel 2 guide melody 2 (byte 2 bit 0).
    pub ach2_guide_melody_2: bool,
    /// Channel 3 guide vocal 1 (byte 3 bit 3).
    pub ach3_guide_vocal_1: bool,
    /// Channel 3 guide vocal 2 (byte 3 bit 2).
    pub ach3_guide_vocal_2: bool,
    /// Channel 3 guide melody A (byte 3 bit 1).
    pub ach3_guide_melody_a: bool,
    /// Channel 3 sound effect A (byte 3 bit 0).
    pub ach3_sound_effect_a: bool,
    /// Channel 4 guide vocal 1 (byte 4 bit 3).
    pub ach4_guide_vocal_1: bool,
    /// Channel 4 guide vocal 2 (byte 4 bit 2).
    pub ach4_guide_vocal_2: bool,
    /// Channel 4 guide melody B (byte 4 bit 1).
    pub ach4_guide_melody_b: bool,
    /// Channel 4 sound effect B (byte 4 bit 0).
    pub ach4_sound_effect_b: bool,
}

impl McExtensionEntry {
    /// Decode an 8-byte entry.
    pub fn parse(b: &[u8; 8]) -> (r: Self)
        ensures
            r.ach0_guide_melody == (b@[0] % 2 == 1),
            r.ach1_guide_melody == (b@[1] % 2 == 1),
            r.ach2_guide_vocal_1 == ((b@[2] / 8) % 2 == 1),
            r.ach2_guide_vocal_2 == ((b@[2] / 4) % 2 == 1),
            r.ach2_guide_melody_1 == ((b@[2] / 2) % 2 == 1),
            r.ach2_guide_melody_2 == (b@[2] % 2 == 1),
            r.ach3_guide_vocal_1 == ((b@[3] / 8) % 2 == 1),
            r.ach3_guide_vocal_2 == ((b@[3] / 4) % 2 == 1),
            r.ach3_guide_melody_a == ((b@[3] / 2) % 2 == 1),
            r.ach3_sound_effect_a == (b@[3] % 2 == 1),
            r.ach4_guide_vocal_1 == ((b@[4] / 8) % 2 == 1),
            r.ach4_guide_vocal_2 == ((b@[4] / 4) % 2 == 1),
            r.ach4_guide_melody_b == ((b@[4] / 2) % 2 == 1),
            r.ach4_sound_effect_b == (b@[4] % 2 == 1),
    {
        McExtensionEntry {
            ach0_guide_melody: b[0] % 2 == 1,
            ach1_guide_melody: b[1] % 2 == 1,
            ach2_guide_vocal_1: (b[2] / 8) % 2 == 1,
            ach2_guide_vocal_2: (b[2] / 4) % 2 == 1,
            ach2_guide_melody_1: (b[2] / 2) % 2 == 1,
            ach2_guide_melody_2: b[2] % 2 == 1,
            ach3_guide_vocal_1: (b[3] / 8) % 2 == 1,
            ach3_guide_vocal_2: (b[3] / 4) % 2 == 1,
            ach3_guide_melody_a: (b[3] / 2) % 2 == 1,
            ach3_sound_effect_a: b[3] % 2 == 1,
            ach4_guide_vocal_1: (b[4] / 8) % 2 == 1,
            ach4_guide_vocal_2: (b[4] / 4) % 2 == 1,
            ach4_guide_melody_b: (b[4] / 2) % 2 == 1,
            ach4_sound_effect_b: b[4] % 2 == 1,
        }
    }
}

} // verus!
