//! Playback-navigation engine: domain-transition rules, link
//! resolution against a PGC's cell layout, the per-PGC playback state
//! machine, menu-button interaction, static title plans, jump
//! resolution, still-frame holds, stream selection, karaoke routing
//! and trick-play gating.

use vstd::prelude::*;

use crate::ifo::{
    block_tail, continues_block, skip_continuations, CellPlaybackInfo,
    spec_cell_for_angle, spec_first_cell, spec_next_cell, spec_program_containing,
    spec_program_entry, spec_resolve, walk_from, AudioApplicationMode, AudioAttributes,
    AudioCodingMode, AudioStreamControl, McExtensionEntry, MenuType, NavCommand, Pgc, PgciSrp,
    StillTime, SubpictureAttributes, SubpictureDisplay, SubpictureStreamControl, TtSrpt,
};
use crate::nav::{spec_decode, CallSSTarget, JumpSSTarget, LinkSubset};
use crate::uops::{bit_set, UopMask, UserOp};
use crate::vm::{
    is_ascii_letter, is_undefined, rm_set_sprm, rm_sprm, run_budget, run_spec, same_action,
    step_spec, AspectRatio, AudioCapabilities, AudioMixMode, AudioStreamSelector, DisplayMode,
    LinkAction, RegModel, ResumePoint, VideoPreference, Vm, VmAction, VmModel,
};
use crate::vob::{ButtonInfo, DsiPacket, HighlightInfo, VobuSri};

verus! {

/// The four playback domains.
#[derive(Debug, Clone, Copy, PartialEq, Eq, Structural)]
pub enum Domain {
    /// The First-Play PGC.
    FirstPlay,
    /// Video-manager menus.
    VideoManager,
    /// Title-set menus.
    VtsMenu,
    /// Title-set titles.
    VtsTitle,
}

impl Domain {
    /// The two menu domains.
    pub open spec fn is_menu_spec(self) -> bool {
        self is VideoManager || self is VtsMenu
    }

    /// The two menu domains.
    pub fn is_menu(self) -> (r: bool)
        ensures
            r == self.is_menu_spec(),
    {
        matches!(self, Domain::VideoManager | Domain::VtsMenu)
    }
}

/// The domain a transfer action lands in; `None` for actions that stay
/// in the current domain (and for `Resume`, whose destination is the
/// interrupted point).
pub open spec fn spec_target_domain(action: VmAction) -> Option<Domain> {
    match action {
        VmAction::JumpTitle { .. } | VmAction::JumpVtsTitle { .. } | VmAction::JumpVtsPtt {
            ..
        } => Some(Domain::VtsTitle),
        VmAction::JumpSs(t) => Some(
            match t {
                JumpSSTarget::FirstPlay => Domain::FirstPlay,
                JumpSSTarget::VmgmMenu { .. } | JumpSSTarget::VmgmPgcn { .. } => Domain::VideoManager,
                JumpSSTarget::VtsmMenu { .. } => Domain::VtsMenu,
            },
        ),
        VmAction::CallSs(t) => Some(
            match t {
                CallSSTarget::FirstPlay { .. } => Domain::FirstPlay,
                CallSSTarget::VmgmMenu { .. } | CallSSTarget::VmgmPgcn { .. } => Domain::VideoManager,
                CallSSTarget::VtsmMenu { .. } => Domain::VtsMenu,
            },
        ),
        _ => None,
    }
}

/// The domain a transfer-class action lands in.
pub fn target_domain(action: &VmAction) -> (r: Option<Domain>)
    ensures
        r == spec_target_domain(*action),
{
    match action {
        VmAction::JumpTitle { .. } | VmAction::JumpVtsTitle { .. } | VmAction::JumpVtsPtt {
            ..
        } => Some(Domain::VtsTitle),
        VmAction::JumpSs(t) => Some(
            match t {
                JumpSSTarget::FirstPlay => Domain::FirstPlay,
                JumpSSTarget::VmgmMenu { .. } | JumpSSTarget::VmgmPgcn { .. } => Domain::VideoManager,
                JumpSSTarget::VtsmMenu { .. } => Domain::VtsMenu,
            },
        ),
        VmAction::CallSs(t) => Some(
            match t {
                CallSSTarget::FirstPlay { .. } => Domain::FirstPlay,
                CallSSTarget::VmgmMenu { .. } | CallSSTarget::VmgmPgcn { .. } => Domain::VideoManager,
                CallSSTarget::VtsmMenu { .. } => Domain::VtsMenu,
            },
        ),
        _ => None,
    }
}

/// The domain-transition tables: which transfers each domain may make.
/// First Play: `JumpSS` to a VMG or VTS menu, `JumpTT`. VMG: `JumpSS`
/// First Play or VTS menu, `JumpTT`, resume. VTS menu: `JumpSS` First
/// Play or VMG, `JumpSS` to its own title set's menu, `JumpVTS_TT` /
/// `JumpVTS_PTT`, resume. VTS title: `CallSS` anywhere, `JumpVTS_TT` /
/// `JumpVTS_PTT`. Actions that stay in the domain always pass.
pub open spec fn spec_transition_permitted(from: Domain, action: VmAction, current_vts: u8) -> bool {
    match action {
        VmAction::Continue | VmAction::Break | VmAction::Exit | VmAction::Link(_)
        | VmAction::SetNavTimer { .. } | VmAction::NoOpRaw(_) => true,
        VmAction::JumpTitle { .. } => from is FirstPlay || from is VideoManager,
        VmAction::JumpVtsTitle { .. } | VmAction::JumpVtsPtt { .. } => from is VtsMenu
            || from is VtsTitle,
        VmAction::JumpSs(t) => match from {
            Domain::FirstPlay => !(t is FirstPlay),
            Domain::VideoManager => t is FirstPlay || t is VtsmMenu,
            Domain::VtsMenu => match t {
                JumpSSTarget::VtsmMenu { vts, .. } => vts == current_vts,
                _ => true,
            },
            Domain::VtsTitle => false,
        },
        VmAction::CallSs(_) => from is VtsTitle,
        VmAction::Resume(_) => from is VideoManager || from is VtsMenu,
    }
}

/// Check a transfer against the domain-transition tables.
pub fn transition_permitted(from: Domain, action: &VmAction, current_vts: u8) -> (r: bool)
    ensures
        r == spec_transition_permitted(from, *action, current_vts),
{
    match action {
        VmAction::Continue | VmAction::Break | VmAction::Exit | VmAction::Link(_)
        | VmAction::SetNavTimer { .. } | VmAction::NoOpRaw(_) => true,
        VmAction::JumpTitle { .. } => matches!(from, Domain::FirstPlay | Domain::VideoManager),
        VmAction::JumpVtsTitle { .. } | VmAction::JumpVtsPtt { .. } => matches!(
            from,
            Domain::VtsMenu | Domain::VtsTitle
        ),
        VmAction::JumpSs(t) => match from {
            Domain::FirstPlay => match t {
                JumpSSTarget::VmgmMenu { .. } | JumpSSTarget::VmgmPgcn { .. }
                | JumpSSTarget::VtsmMenu { .. } => true,
                JumpSSTarget::FirstPlay => false,
            },
            Domain::VideoManager => match t {
                JumpSSTarget::FirstPlay | JumpSSTarget::VtsmMenu { .. } => true,
                JumpSSTarget::VmgmMenu { .. } | JumpSSTarget::VmgmPgcn { .. } => false,
            },
            Domain::VtsMenu => match t {
                JumpSSTarget::FirstPlay | JumpSSTarget::VmgmMenu { .. }
                | JumpSSTarget::VmgmPgcn { .. } => true,
                JumpSSTarget::VtsmMenu { vts, .. } => *vts == current_vts,
            },
            Domain::VtsTitle => false,
        },
        VmAction::CallSs(_) => matches!(from, Domain::VtsTitle),
        VmAction::Resume(_) => matches!(from, Domain::VideoManager | Domain::VtsMenu),
    }
}

/// Actions that stay in the current domain pass from every domain; a
/// `CallSS` passes only from the title domain and an `RSM` only from a
/// menu domain.
pub proof fn lemma_transition_shape(from: Domain, action: VmAction, vts: u8)
    ensures
        spec_target_domain(action) is None && !(action is Resume) ==> spec_transition_permitted(
            from,
            action,
            vts,
        ),
        action is CallSs ==> (spec_transition_permitted(from, action, vts) <==> from is VtsTitle),
        action is Resume ==> (spec_transition_permitted(from, action, vts) <==> from.is_menu_spec()),
{
}

/// Where playback sits inside a PGC.
#[derive(Debug, Clone, Copy, PartialEq, Eq)]
pub struct PgcPosition {
    /// 1-based PGC number.
    pub pgcn: u16,
    /// 1-based program number.
    pub program: u8,
    /// 1-based cell number.
    pub cell: u8,
}

/// The resolved destination of a link.
#[derive(Debug, Clone, Copy, PartialEq, Eq)]
pub enum LinkOutcome {
    /// No transfer (`LinkNoLink`).
    Continue,
    /// Present a cell of the current PGC (angle-resolved).
    PlayCell {
        /// The cell.
        cell: u8,
    },
    /// Run the current PGC's post commands.
    PostCommands,
    /// Load another PGC of the domain.
    OtherPgc {
        /// Its number.
        pgcn: u16,
    },
    /// A chapter of the current title.
    Chapter {
        /// PTT number.
        pttn: u16,
    },
    /// Resume from the last call.
    Resume,
    /// The PGC carries no such destination.
    NoDestination,
}

/// The highlight-button number a link carries (`0` means none).
pub open spec fn link_hl(link: LinkAction) -> u8 {
    match link {
        LinkAction::Subset { hl_bn, .. } => hl_bn,
        LinkAction::Pttn { hl_bn, .. } => hl_bn,
        LinkAction::Pgn { hl_bn, .. } => hl_bn,
        LinkAction::Cn { hl_bn, .. } => hl_bn,
        LinkAction::Pgcn { .. } => 0,
    }
}

/// The highlight-button override a link carries, if any.
pub fn link_highlight_button(link: &LinkAction) -> (r: Option<u8>)
    ensures
        r == (if link_hl(*link) != 0 { Some(link_hl(*link)) } else { None }),
{
    let hl = match link {
        LinkAction::Subset { hl_bn, .. } => *hl_bn,
        LinkAction::Pttn { hl_bn, .. } => *hl_bn,
        LinkAction::Pgn { hl_bn, .. } => *hl_bn,
        LinkAction::Cn { hl_bn, .. } => *hl_bn,
        LinkAction::Pgcn { .. } => 0,
    };
    if hl != 0 {
        Some(hl)
    } else {
        None
    }
}

/// A program's entry cell as a presentation outcome.
pub open spec fn entry_outcome(pgc: Pgc, pgn: u8, angle: u8) -> LinkOutcome {
    match spec_program_entry(pgc, pgn) {
        Some(cell) => LinkOutcome::PlayCell { cell: spec_cell_for_angle(pgc.cells@, cell, angle) },
        None => LinkOutcome::NoDestination,
    }
}

/// `x - 1`, at least `1`.
pub open spec fn prev_one(x: u8) -> u8 {
    if x >= 2 { (x - 1) as u8 } else { 1 }
}

/// A PGC-number link word: `0` means no destination.
pub open spec fn pgcn_outcome(pgcn: u16) -> LinkOutcome {
    if pgcn == 0 { LinkOutcome::NoDestination } else { LinkOutcome::OtherPgc { pgcn } }
}

/// Where a link leads from `pos` in `pgc` at camera `angle`: cell links
/// move relative to the current cell (next past the end goes to the
/// post commands, previous clamps at cell 1); program links land on a
/// program's entry cell (next past the last program goes to the post
/// commands, previous clamps at program 1); PGC links follow the
/// header's link words; numbered links address their target directly.
pub open spec fn spec_resolve_link(pgc: Pgc, pos: PgcPosition, link: LinkAction, angle: u8) -> LinkOutcome {
    match link {
        LinkAction::Subset { subset, .. } => match subset {
            LinkSubset::Nop => LinkOutcome::Continue,
            LinkSubset::LinkTopCell => LinkOutcome::PlayCell { cell: pos.cell },
            LinkSubset::LinkNextCell => match spec_next_cell(pgc.cells@, pos.cell, angle) {
                Some(cell) => LinkOutcome::PlayCell { cell },
                None => LinkOutcome::PostCommands,
            },
            LinkSubset::LinkPrevCell => LinkOutcome::PlayCell {
                cell: spec_cell_for_angle(pgc.cells@, prev_one(pos.cell), angle),
            },
            LinkSubset::LinkTopPG => entry_outcome(pgc, pos.program, angle),
            LinkSubset::LinkNextPG => if pos.program >= pgc.number_of_programs {
                LinkOutcome::PostCommands
            } else {
                entry_outcome(pgc, (pos.program + 1) as u8, angle)
            },
            LinkSubset::LinkPrevPG => entry_outcome(pgc, prev_one(pos.program), angle),
            LinkSubset::LinkTopPGC => LinkOutcome::OtherPgc { pgcn: pos.pgcn },
            LinkSubset::LinkNextPGC => pgcn_outcome(pgc.next_pgcn),
            LinkSubset::LinkPrevPGC => pgcn_outcome(pgc.prev_pgcn),
            LinkSubset::LinkGoupPGC => pgcn_outcome(pgc.goup_pgcn),
            LinkSubset::LinkTailPGC => LinkOutcome::PostCommands,
            LinkSubset::Rsm => LinkOutcome::Resume,
            LinkSubset::Invalid(_) => LinkOutcome::NoDestination,
        },
        LinkAction::Pgcn { pgcn } => pgcn_outcome(pgcn),
        LinkAction::Pttn { pttn, .. } => if pttn == 0 {
            LinkOutcome::NoDestination
        } else {
            LinkOutcome::Chapter { pttn }
        },
        LinkAction::Pgn { pgn, .. } => entry_outcome(pgc, pgn, angle),
        LinkAction::Cn { cn, .. } => if 1 <= cn <= pgc.number_of_cells {
            LinkOutcome::PlayCell { cell: spec_cell_for_angle(pgc.cells@, cn, angle) }
        } else {
            LinkOutcome::NoDestination
        },
    }
}

/// Program links move by one program: from program `p >= 2`,
/// `LinkPrevPG` lands where `LinkTopPG` lands from program `p - 1` and
/// where a link to program `p - 1` lands, the entry cell of program
/// `p - 1` (at the angle); from program 1 it stays on program 1. From a
/// program before the last, `LinkNextPG` lands where `LinkTopPG` lands
/// from program `p + 1`.
pub proof fn lemma_program_links_step_by_one(pgc: Pgc, pos: PgcPosition, hl: u8, angle: u8)
    ensures
        pos.program >= 2 ==> spec_resolve_link(
            pgc,
            pos,
            LinkAction::Subset { subset: LinkSubset::LinkPrevPG, hl_bn: hl },
            angle,
        ) == spec_resolve_link(
            pgc,
            PgcPosition { program: (pos.program - 1) as u8, ..pos },
            LinkAction::Subset { subset: LinkSubset::LinkTopPG, hl_bn: hl },
            angle,
        ),
        pos.program >= 2 ==> spec_resolve_link(
            pgc,
            pos,
            LinkAction::Subset { subset: LinkSubset::LinkPrevPG, hl_bn: hl },
            angle,
        ) == spec_resolve_link(pgc, pos, LinkAction::Pgn { pgn: (pos.program - 1) as u8, hl_bn: hl }, angle),
        (2 <= pos.program <= pgc.number_of_programs && pos.program - 1 <= pgc.program_map@.len())
            ==> spec_resolve_link(
            pgc,
            pos,
            LinkAction::Subset { subset: LinkSubset::LinkPrevPG, hl_bn: hl },
            angle,
        ) == (LinkOutcome::PlayCell {
            cell: spec_cell_for_angle(pgc.cells@, pgc.program_map@[pos.program - 2], angle),
        }),
        pos.program <= 1 ==> spec_resolve_link(
            pgc,
            pos,
            LinkAction::Subset { subset: LinkSubset::LinkPrevPG, hl_bn: hl },
            angle,
        ) == spec_resolve_link(
            pgc,
            PgcPosition { program: 1, ..pos },
            LinkAction::Subset { subset: LinkSubset::LinkTopPG, hl_bn: hl },
            angle,
        ),
        pos.program < pgc.number_of_programs ==> spec_resolve_link(
            pgc,
            pos,
            LinkAction::Subset { subset: LinkSubset::LinkNextPG, hl_bn: hl },
            angle,
        ) == spec_resolve_link(
            pgc,
            PgcPosition { program: (pos.program + 1) as u8, ..pos },
            LinkAction::Subset { subset: LinkSubset::LinkTopPG, hl_bn: hl },
            angle,
        ),
{
}

/// Cell and program links agree with the numbered links: `LinkTopCell`
/// replays the current cell; `LinkPrevCell` from cell `c >= 2` (of the
/// PGC's cells) lands where a link to cell `c - 1` lands; `LinkTopPG`
/// lands where a link to the current program lands.
pub proof fn lemma_subset_links_match_numbered_links(pgc: Pgc, pos: PgcPosition, hl: u8, angle: u8)
    ensures
        spec_resolve_link(pgc, pos, LinkAction::Subset { subset: LinkSubset::LinkTopCell, hl_bn: hl }, angle)
            == (LinkOutcome::PlayCell { cell: pos.cell }),
        (2 <= pos.cell && pos.cell - 1 <= pgc.number_of_cells) ==> spec_resolve_link(
            pgc,
            pos,
            LinkAction::Subset { subset: LinkSubset::LinkPrevCell, hl_bn: hl },
            angle,
        ) == spec_resolve_link(pgc, pos, LinkAction::Cn { cn: (pos.cell - 1) as u8, hl_bn: hl }, angle),
        spec_resolve_link(pgc, pos, LinkAction::Subset { subset: LinkSubset::LinkTopPG, hl_bn: hl }, angle)
            == spec_resolve_link(pgc, pos, LinkAction::Pgn { pgn: pos.program, hl_bn: hl }, angle),
{
}

/// The PGC-level link subsets follow the PGC's own links: `LinkNextPGC`,
/// `LinkPrevPGC` and `LinkGoupPGC` land where a link to the PGC's next,
/// previous and go-up PGC numbers lands; `LinkTopPGC` restarts the
/// current PGC; `LinkTailPGC` goes to the post commands.
pub proof fn lemma_pgc_links_follow_pgc_header(pgc: Pgc, pos: PgcPosition, hl: u8, angle: u8)
    ensures
        spec_resolve_link(pgc, pos, LinkAction::Subset { subset: LinkSubset::LinkNextPGC, hl_bn: hl }, angle)
            == spec_resolve_link(pgc, pos, LinkAction::Pgcn { pgcn: pgc.next_pgcn }, angle),
        spec_resolve_link(pgc, pos, LinkAction::Subset { subset: LinkSubset::LinkPrevPGC, hl_bn: hl }, angle)
            == spec_resolve_link(pgc, pos, LinkAction::Pgcn { pgcn: pgc.prev_pgcn }, angle),
        spec_resolve_link(pgc, pos, LinkAction::Subset { subset: LinkSubset::LinkGoupPGC, hl_bn: hl }, angle)
            == spec_resolve_link(pgc, pos, LinkAction::Pgcn { pgcn: pgc.goup_pgcn }, angle),
        spec_resolve_link(pgc, pos, LinkAction::Subset { subset: LinkSubset::LinkTopPGC, hl_bn: hl }, angle)
            == (LinkOutcome::OtherPgc { pgcn: pos.pgcn }),
        spec_resolve_link(pgc, pos, LinkAction::Subset { subset: LinkSubset::LinkTailPGC, hl_bn: hl }, angle)
            == LinkOutcome::PostCommands,
        spec_resolve_link(pgc, pos, LinkAction::Pgcn { pgcn: 0 }, angle) == LinkOutcome::NoDestination,
        pgc.next_pgcn != 0 ==> spec_resolve_link(
            pgc,
            pos,
            LinkAction::Subset { subset: LinkSubset::LinkNextPGC, hl_bn: hl },
            angle,
        ) == (LinkOutcome::OtherPgc { pgcn: pgc.next_pgcn }),
{
}

/// In a PGC without cell blocks (every cell's block-mode bits 7..6 are
/// `0`), cell links step by one cell whatever the angle: `LinkNextCell`
/// from cell `c` plays cell `c + 1`, or goes to the post commands from the
/// last cell; `LinkPrevCell` plays cell `c - 1`, staying on cell 1.
pub proof fn lemma_cell_links_step_by_one(pgc: Pgc, pos: PgcPosition, hl: u8, angle: u8)
    requires
        forall|i: int| 0 <= i < pgc.cells@.len() ==> #[trigger] pgc.cells@[i].category_byte0 / 64 == 0,
        pgc.cells@.len() <= 255,
        1 <= pos.cell <= pgc.cells@.len(),
    ensures
        spec_resolve_link(pgc, pos, LinkAction::Subset { subset: LinkSubset::LinkNextCell, hl_bn: hl }, angle)
            == (if pos.cell < pgc.cells@.len() {
            LinkOutcome::PlayCell { cell: (pos.cell + 1) as u8 }
        } else {
            LinkOutcome::PostCommands
        }),
        spec_resolve_link(pgc, pos, LinkAction::Subset { subset: LinkSubset::LinkPrevCell, hl_bn: hl }, angle)
            == (LinkOutcome::PlayCell { cell: if pos.cell >= 2 { (pos.cell - 1) as u8 } else { 1u8 } }),
{
    let cells = pgc.cells@;
    let c = pos.cell as int;
    if c < cells.len() {
        assert(cells[c].category_byte0 / 64 == 0);
        assert(skip_continuations(cells, c) == c);
        assert(cells[c].category_byte0 / 64 == 0);
    } else {
        assert(skip_continuations(cells, c) == c);
    }
    let pc = if pos.cell >= 2 { pos.cell - 1 } else { 1 };
    assert(cells[pc - 1].category_byte0 / 64 == 0);
}

fn entry_cell_outcome(pgc: &Pgc, pgn: u8, angle: u8) -> (r: LinkOutcome)
    ensures
        r == entry_outcome(*pgc, pgn, angle),
{
    match pgc.program_entry_cell(pgn) {
        Some(cell) => LinkOutcome::PlayCell { cell: pgc.cell_for_angle(cell, angle) },
        None => LinkOutcome::NoDestination,
    }
}

fn pgcn_link(pgcn: u16) -> (r: LinkOutcome)
    ensures
        r == pgcn_outcome(pgcn),
{
    if pgcn == 0 {
        LinkOutcome::NoDestination
    } else {
        LinkOutcome::OtherPgc { pgcn }
    }
}

/// Resolve a link against the current PGC (see [`spec_resolve_link`]).
pub fn resolve_link(pgc: &Pgc, pos: PgcPosition, link: &LinkAction, angle: u8) -> (r: LinkOutcome)
    ensures
        r == spec_resolve_link(*pgc, pos, *link, angle),
{
    match link {
        LinkAction::Subset { subset, .. } => match subset {
            LinkSubset::Nop => LinkOutcome::Continue,
            LinkSubset::LinkTopCell => LinkOutcome::PlayCell { cell: pos.cell },
            LinkSubset::LinkNextCell => match pgc.next_cell(pos.cell, angle) {
                Some(cell) => LinkOutcome::PlayCell { cell },
                None => LinkOutcome::PostCommands,
            },
            LinkSubset::LinkPrevCell => {
                let prev = if pos.cell >= 2 {
                    pos.cell - 1
                } else {
                    1
                };
                LinkOutcome::PlayCell { cell: pgc.cell_for_angle(prev, angle) }
            },
            LinkSubset::LinkTopPG => entry_cell_outcome(pgc, pos.program, angle),
            LinkSubset::LinkNextPG => {
                if pos.program >= pgc.number_of_programs {
                    LinkOutcome::PostCommands
                } else {
                    entry_cell_outcome(pgc, pos.program + 1, angle)
                }
            },
            LinkSubset::LinkPrevPG => {
                let prev = if pos.program >= 2 {
                    pos.program - 1
                } else {
                    1
                };
                entry_cell_outcome(pgc, prev, angle)
            },
            LinkSubset::LinkTopPGC => LinkOutcome::OtherPgc { pgcn: pos.pgcn },
            LinkSubset::LinkNextPGC => pgcn_link(pgc.next_pgcn),
            LinkSubset::LinkPrevPGC => pgcn_link(pgc.prev_pgcn),
            LinkSubset::LinkGoupPGC => pgcn_link(pgc.goup_pgcn),
            LinkSubset::LinkTailPGC => LinkOutcome::PostCommands,
            LinkSubset::Rsm => LinkOutcome::Resume,
            LinkSubset::Invalid(_) => LinkOutcome::NoDestination,
        },
        LinkAction::Pgcn { pgcn } => pgcn_link(*pgcn),
        LinkAction::Pttn { pttn, .. } => if *pttn == 0 {
            LinkOutcome::NoDestination
        } else {
            LinkOutcome::Chapter { pttn: *pttn }
        },
        LinkAction::Pgn { pgn, .. } => entry_cell_outcome(pgc, *pgn, angle),
        LinkAction::Cn { cn, .. } => {
            if *cn >= 1 && *cn <= pgc.number_of_cells {
                LinkOutcome::PlayCell { cell: pgc.cell_for_angle(*cn, angle) }
            } else {
                LinkOutcome::NoDestination
            }
        },
    }
}


/// One player-visible step of a PGC's playback.
#[derive(Debug, Clone, Copy, PartialEq, Eq)]
pub enum PlaybackEvent {
    /// Present cell `cell` (angle-resolved): demux the VOB-relative
    /// sectors `first_sector ..= last_sector`, then honour `still`.
    PlayCell {
        /// The cell.
        cell: u8,
        /// The program containing it.
        program: u8,
        /// First VOBU start sector.
        first_sector: u32,
        /// Last VOBU end sector.
        last_sector: u32,
        /// The cell's still hold.
        still: StillTime,
    },
    /// All cells are done and the PGC asks for a still before its post
    /// commands.
    PgcStill {
        /// The hold.
        still: StillTime,
    },
    /// A navigation timer was armed: link to `pgcn` after `seconds`.
    NavTimer {
        /// Seconds.
        seconds: u16,
        /// PGC to link to.
        pgcn: u16,
    },
    /// Control moves to another PGC of the same domain.
    NextPgc {
        /// Its number.
        pgcn: u16,
    },
    /// Control moves to a chapter of the current title.
    Chapter {
        /// PTT number.
        pttn: u16,
    },
    /// A cross-domain transfer (jump, call, resume or exit).
    Transfer(VmAction),
    /// The PGC ran to completion with no follow-on PGC.
    Finished,
}

/// Where a [`PgcRunner`] stands inside the PGC flow.
#[derive(Debug, Clone, Copy, PartialEq, Eq)]
pub enum RunnerState {
    /// Running the pre-command list from 0-based command `pc`.
    Pre {
        /// Next command.
        pc: usize,
    },
    /// About to present cell `cell`.
    PlayCell {
        /// The cell.
        cell: u8,
    },
    /// Cell `cell` was presented; its cell command runs next unless
    /// `command_done`.
    AfterCell {
        /// The cell.
        cell: u8,
        /// The cell command already ran.
        command_done: bool,
    },
    /// Running the post-command list from 0-based command `pc`.
    Post {
        /// Next command.
        pc: usize,
    },
    /// Terminal.
    Finished,
}

/// What handling one surfaced action tells the runner's loop.
#[derive(Debug, Clone, Copy, PartialEq, Eq)]
pub enum ListVerdict {
    /// The list completed: go on to the next phase.
    EnterCells,
    /// Report this event.
    Emit(PlaybackEvent),
    /// The runner's state moved; keep going.
    Moved,
}

/// Most internal rounds a single [`PgcRunner::next_event`] call runs
/// before it gives up and reports [`PlaybackEvent::Finished`]. Only a
/// PGC whose commands keep relinking without ever producing an event
/// (a post command linking to its own post commands) reaches it.
pub const RUNNER_STEP_LIMIT: usize = 65536;

/// The camera angle from SPRM 3: its low byte when `1..=9`, else `1`.
pub open spec fn angle_spec(m: RegModel) -> u8 {
    if 1 <= rm_sprm(m, 3) % 256 <= 9 {
        (rm_sprm(m, 3) % 256) as u8
    } else {
        1
    }
}

/// The PGC's pre-command list (empty without a command table).
pub open spec fn pre_commands(pgc: Pgc) -> Seq<NavCommand> {
    match pgc.commands {
        Some(c) => c.pre@,
        None => Seq::empty(),
    }
}

/// The PGC's post-command list (empty without a command table).
pub open spec fn post_commands(pgc: Pgc) -> Seq<NavCommand> {
    match pgc.commands {
        Some(c) => c.post@,
        None => Seq::empty(),
    }
}

/// The program containing `cell`, defaulting to `1`.
pub open spec fn program_or_first(pgc: Pgc, cell: u8) -> u8 {
    match spec_program_containing(pgc, cell) {
        Some(p) => p,
        None => 1,
    }
}

/// A link's highlight-button override stored in SPRM 8 bits 10..=15.
pub open spec fn apply_hl_spec(m: VmModel, link: LinkAction) -> VmModel {
    if link_hl(link) != 0 {
        VmModel { regs: rm_set_sprm(m.regs, 8, (link_hl(link) as u16) << 10u16), stack: m.stack }
    } else {
        m
    }
}

/// Inside a command list, continue it at `pc`; elsewhere no change.
pub open spec fn note_resume_spec(st: RunnerState, pc: usize) -> RunnerState {
    match st {
        RunnerState::Pre { .. } => RunnerState::Pre { pc },
        RunnerState::Post { .. } => RunnerState::Post { pc },
        _ => st,
    }
}

/// `n + 1`, saturating.
pub open spec fn sat_inc(n: usize) -> usize {
    if n < usize::MAX {
        (n + 1) as usize
    } else {
        n
    }
}

/// Handling of action `a` (`und`: it came from an undefined command)
/// surfaced at command `npc` with `cell` anchoring link resolution:
/// the runner's next state, the machine's state and the verdict.
pub open spec fn handle_spec(
    pgc: Pgc,
    pgcn: u16,
    st: RunnerState,
    m: VmModel,
    a: VmAction,
    und: bool,
    npc: usize,
    cell: u8,
) -> (RunnerState, VmModel, ListVerdict) {
    if und || a is NoOpRaw {
        (note_resume_spec(st, sat_inc(npc)), m, ListVerdict::Moved)
    } else {
        match a {
            VmAction::Continue | VmAction::Break => (st, m, ListVerdict::EnterCells),
            VmAction::SetNavTimer { seconds, pgcn: target } => (
                note_resume_spec(st, sat_inc(npc)),
                m,
                ListVerdict::Emit(PlaybackEvent::NavTimer { seconds, pgcn: target }),
            ),
            VmAction::Link(link) => {
                let m1 = apply_hl_spec(m, link);
                let pos = PgcPosition { pgcn, program: program_or_first(pgc, cell), cell };
                match spec_resolve_link(pgc, pos, link, angle_spec(m1.regs)) {
                    LinkOutcome::Continue | LinkOutcome::NoDestination => (
                        note_resume_spec(st, sat_inc(npc)),
                        m1,
                        ListVerdict::Moved,
                    ),
                    LinkOutcome::PlayCell { cell: c } => (
                        RunnerState::PlayCell { cell: c },
                        m1,
                        ListVerdict::Moved,
                    ),
                    LinkOutcome::PostCommands => (RunnerState::Post { pc: 0 }, m1, ListVerdict::Moved),
                    LinkOutcome::OtherPgc { pgcn: p } => (
                        RunnerState::Finished,
                        m1,
                        ListVerdict::Emit(PlaybackEvent::NextPgc { pgcn: p }),
                    ),
                    LinkOutcome::Chapter { pttn } => (
                        RunnerState::Finished,
                        m1,
                        ListVerdict::Emit(PlaybackEvent::Chapter { pttn }),
                    ),
                    LinkOutcome::Resume => (
                        RunnerState::Finished,
                        m1,
                        ListVerdict::Emit(PlaybackEvent::Transfer(a)),
                    ),
                }
            },
            _ => (RunnerState::Finished, m, ListVerdict::Emit(PlaybackEvent::Transfer(a))),
        }
    }
}

/// The state entered after the pre commands: the first cell at the
/// current angle, or the post commands for a PGC without cells.
pub open spec fn enter_cells_spec(pgc: Pgc, m: VmModel) -> RunnerState {
    match spec_first_cell(pgc.cells@, angle_spec(m.regs)) {
        Some(c) => RunnerState::PlayCell { cell: c },
        None => RunnerState::Post { pc: 0 },
    }
}

/// The cell command index of cell `cell` (`0` when there is none).
pub open spec fn cell_command_index(pgc: Pgc, cell: u8) -> u16 {
    if 1 <= cell <= pgc.cells@.len() {
        pgc.cells@[cell - 1].cell_command as u16
    } else {
        0
    }
}

/// One round of the runner's loop from state `st`: the next state,
/// the machine's state and the event reported, if any.
pub open spec fn iter_spec(pgc: Pgc, pgcn: u16, st: RunnerState, m: VmModel) -> (
    RunnerState,
    VmModel,
    Option<PlaybackEvent>,
) {
    match st {
        RunnerState::Pre { pc } => {
            let list = pre_commands(pgc);
            let (m1, a, npc) = run_spec(m, list, pc as int, run_budget(list.len()));
            let (s2, m2, v) = handle_spec(pgc, pgcn, st, m1, a, false, npc as usize, 1);
            match v {
                ListVerdict::EnterCells => (enter_cells_spec(pgc, m2), m2, None),
                ListVerdict::Emit(ev) => (s2, m2, Some(ev)),
                ListVerdict::Moved => (s2, m2, None),
            }
        },
        RunnerState::PlayCell { cell } => if 1 <= cell <= pgc.cells@.len() {
            let info = pgc.cells@[cell - 1];
            (
                RunnerState::AfterCell { cell, command_done: false },
                m,
                Some(
                    PlaybackEvent::PlayCell {
                        cell,
                        program: program_or_first(pgc, cell),
                        first_sector: info.first_vobu_start_sector,
                        last_sector: info.last_vobu_end_sector,
                        still: StillTime::from_byte(info.still_time),
                    },
                ),
            )
        } else {
            (RunnerState::Post { pc: 0 }, m, None)
        },
        RunnerState::AfterCell { cell, command_done } => if !command_done {
            let st1 = RunnerState::AfterCell { cell, command_done: true };
            let idx = cell_command_index(pgc, cell);
            match pgc.commands {
                Some(c) => if idx != 0 && 1 <= idx <= c.cell@.len() {
                    let ins = spec_decode(c.cell@[idx - 1].bytes@);
                    let und = is_undefined(ins);
                    let m1 = if und { m } else { step_spec(m, ins).0 };
                    let (s2, m2, v) = handle_spec(pgc, pgcn, st1, m1, step_spec(m, ins).1, und, 0, cell);
                    match v {
                        ListVerdict::Emit(ev) => (s2, m2, Some(ev)),
                        _ => (s2, m2, None),
                    }
                } else {
                    (st1, m, None)
                },
                None => (st1, m, None),
            }
        } else {
            match spec_next_cell(pgc.cells@, cell, angle_spec(m.regs)) {
                Some(next) => (RunnerState::PlayCell { cell: next }, m, None),
                None => if pgc.still_time != 0 {
                    (
                        RunnerState::Post { pc: 0 },
                        m,
                        Some(PlaybackEvent::PgcStill { still: StillTime::from_byte(pgc.still_time) }),
                    )
                } else {
                    (RunnerState::Post { pc: 0 }, m, None)
                },
            }
        },
        RunnerState::Post { pc } => {
            let list = post_commands(pgc);
            let (m1, a, npc) = run_spec(m, list, pc as int, run_budget(list.len()));
            let anchor: u8 = if pgc.number_of_cells >= 1 { pgc.number_of_cells } else { 1 };
            let (s2, m2, v) = handle_spec(pgc, pgcn, st, m1, a, false, npc as usize, anchor);
            match v {
                ListVerdict::EnterCells => (
                    RunnerState::Finished,
                    m2,
                    Some(
                        if pgc.next_pgcn == 0 {
                            PlaybackEvent::Finished
                        } else {
                            PlaybackEvent::NextPgc { pgcn: pgc.next_pgcn }
                        },
                    ),
                ),
                ListVerdict::Emit(ev) => (s2, m2, Some(ev)),
                ListVerdict::Moved => (s2, m2, None),
            }
        },
        RunnerState::Finished => (RunnerState::Finished, m, Some(PlaybackEvent::Finished)),
    }
}

/// Rounds of the runner's loop from `st` until an event is reported,
/// with at most `fuel` rounds; running out of rounds finishes the PGC.
pub open spec fn runner_spec(pgc: Pgc, pgcn: u16, st: RunnerState, m: VmModel, fuel: nat) -> (
    RunnerState,
    VmModel,
    PlaybackEvent,
)
    decreases fuel,
{
    if fuel == 0 {
        (RunnerState::Finished, m, PlaybackEvent::Finished)
    } else {
        let (s1, m1, e) = iter_spec(pgc, pgcn, st, m);
        match e {
            Some(ev) => (s1, m1, ev),
            None => runner_spec(pgc, pgcn, s1, m1, (fuel - 1) as nat),
        }
    }
}

/// The program counter after one round of the runner's loop from `st`:
/// where the command list it ran stopped, else unchanged.
pub open spec fn iter_pc(pgc: Pgc, st: RunnerState, m: VmModel, pc: usize) -> usize {
    match st {
        RunnerState::Pre { pc: p } => {
            let list = pre_commands(pgc);
            run_spec(m, list, p as int, run_budget(list.len())).2 as usize
        },
        RunnerState::Post { pc: p } => {
            let list = post_commands(pgc);
            run_spec(m, list, p as int, run_budget(list.len())).2 as usize
        },
        _ => pc,
    }
}

/// The program counter after the rounds [`runner_spec`] runs.
pub open spec fn runner_pc(pgc: Pgc, pgcn: u16, st: RunnerState, m: VmModel, pc: usize, fuel: nat) -> usize
    decreases fuel,
{
    if fuel == 0 {
        pc
    } else {
        let (s1, m1, e) = iter_spec(pgc, pgcn, st, m);
        let pc1 = iter_pc(pgc, st, m, pc);
        match e {
            Some(_) => pc1,
            None => runner_pc(pgc, pgcn, s1, m1, pc1, (fuel - 1) as nat),
        }
    }
}

/// Drives one PGC through its playback flow (pre commands, the
/// angle-aware cell walk with cell commands, the PGC still, post
/// commands and the next-PGC chain) against a caller-owned [`Vm`].
/// Everything that leaves the PGC is reported as a [`PlaybackEvent`].
#[derive(Debug)]
pub struct PgcRunner<'a> {
    pgc: &'a Pgc,
    pgcn: u16,
    state: RunnerState,
}

impl<'a> PgcRunner<'a> {
    /// The PGC being run.
    pub closed spec fn pgc_of(self) -> Pgc {
        *self.pgc
    }

    /// Its number within the domain.
    pub closed spec fn pgcn_of(self) -> u16 {
        self.pgcn
    }

    /// Where the runner stands.
    pub closed spec fn state_of(self) -> RunnerState {
        self.state
    }

    /// A runner at the top of `pgc` (its pre-command list); `pgcn` is
    /// its number within its domain.
    pub fn new(pgc: &'a Pgc, pgcn: u16) -> (r: Self)
        ensures
            r.pgc_of() == *pgc,
            r.pgcn_of() == pgcn,
            r.state_of() == (RunnerState::Pre { pc: 0 }),
    {
        PgcRunner { pgc, pgcn, state: RunnerState::Pre { pc: 0 } }
    }

    /// A runner entering at cell `cell`, skipping the pre commands; a
    /// cell outside `1..=number_of_cells` enters the post commands.
    pub fn new_at_cell(pgc: &'a Pgc, pgcn: u16, cell: u8) -> (r: Self)
        ensures
            r.pgc_of() == *pgc,
            r.pgcn_of() == pgcn,
            r.state_of() == (if 1 <= cell <= pgc.number_of_cells {
                RunnerState::PlayCell { cell }
            } else {
                RunnerState::Post { pc: 0 }
            }),
    {
        let state = if cell >= 1 && cell <= pgc.number_of_cells {
            RunnerState::PlayCell { cell }
        } else {
            RunnerState::Post { pc: 0 }
        };
        PgcRunner { pgc, pgcn, state }
    }

    fn angle(vm: &Vm) -> (r: u8)
        ensures
            r == angle_spec(vm.model().regs),
    {
        match vm.regs.angle_number() {
            Some(a) => a,
            None => 1,
        }
    }

    fn apply_hl_btn(vm: &mut Vm, link: &LinkAction)
        ensures
            final(vm).model() == apply_hl_spec(old(vm).model(), *link),
            final(vm).pc_of() == old(vm).pc_of(),
    {
        match link_highlight_button(link) {
            Some(btn) => vm.regs.set_sprm(crate::vm::SPRM_HL_BTNN, (btn as u16) << 10u16),
            None => {},
        }
    }

    fn note_resume(&mut self, pc: usize)
        ensures
            final(self).state == note_resume_spec(old(self).state, pc),
            final(self).pgc == old(self).pgc,
            final(self).pgcn == old(self).pgcn,
    {
        match self.state {
            RunnerState::Pre { .. } => self.state = RunnerState::Pre { pc },
            RunnerState::Post { .. } => self.state = RunnerState::Post { pc },
            _ => {},
        }
    }

    fn position(&self, cell: u8) -> (r: PgcPosition)
        ensures
            r == (PgcPosition { pgcn: self.pgcn, program: program_or_first(*self.pgc, cell), cell }),
    {
        PgcPosition {
            pgcn: self.pgcn,
            program: match self.pgc.program_containing_cell(cell) {
                Some(p) => p,
                None => 1,
            },
            cell,
        }
    }

    fn handle_list_action(&mut self, vm: &mut Vm, action: VmAction, npc: usize, current_cell: u8) -> (r: ListVerdict)
        ensures
            final(vm).pc_of() == old(vm).pc_of(),
            final(self).pgc == old(self).pgc,
            final(self).pgcn == old(self).pgcn,
            (final(self).state, final(vm).model(), r) == handle_spec(
                *old(self).pgc,
                old(self).pgcn,
                old(self).state,
                old(vm).model(),
                action,
                false,
                npc,
                current_cell,
            ),
    {
        let next_pc: usize = if npc < usize::MAX {
            npc + 1
        } else {
            npc
        };
        match action {
            VmAction::Continue | VmAction::Break => ListVerdict::EnterCells,
            VmAction::SetNavTimer { seconds, pgcn } => {
                self.note_resume(next_pc);
                ListVerdict::Emit(PlaybackEvent::NavTimer { seconds, pgcn })
            },
            VmAction::Link(link) => {
                Self::apply_hl_btn(vm, &link);
                let pos = self.position(current_cell);
                let angle = Self::angle(vm);
                match resolve_link(self.pgc, pos, &link, angle) {
                    LinkOutcome::Continue | LinkOutcome::NoDestination => {
                        self.note_resume(next_pc);
                        ListVerdict::Moved
                    },
                    LinkOutcome::PlayCell { cell } => {
                        self.state = RunnerState::PlayCell { cell };
                        ListVerdict::Moved
                    },
                    LinkOutcome::PostCommands => {
                        self.state = RunnerState::Post { pc: 0 };
                        ListVerdict::Moved
                    },
                    LinkOutcome::OtherPgc { pgcn } => {
                        self.state = RunnerState::Finished;
                        ListVerdict::Emit(PlaybackEvent::NextPgc { pgcn })
                    },
                    LinkOutcome::Chapter { pttn } => {
                        self.state = RunnerState::Finished;
                        ListVerdict::Emit(PlaybackEvent::Chapter { pttn })
                    },
                    LinkOutcome::Resume => {
                        self.state = RunnerState::Finished;
                        ListVerdict::Emit(PlaybackEvent::Transfer(action))
                    },
                }
            },
            VmAction::NoOpRaw(_) => {
                self.note_resume(next_pc);
                ListVerdict::Moved
            },
            _ => {
                self.state = RunnerState::Finished;
                ListVerdict::Emit(PlaybackEvent::Transfer(action))
            },
        }
    }

    fn enter_cells(&mut self, vm: &Vm)
        ensures
            final(self).state == enter_cells_spec(*old(self).pgc, vm.model()),
            final(self).pgc == old(self).pgc,
            final(self).pgcn == old(self).pgcn,
    {
        let angle = Self::angle(vm);
        match self.pgc.first_cell(angle) {
            Some(cell) => self.state = RunnerState::PlayCell { cell },
            None => self.state = RunnerState::Post { pc: 0 },
        }
    }

    fn run_pre(&mut self, vm: &mut Vm, pc: usize) -> (r: (VmAction, usize))
        ensures
            *final(self) == *old(self),
            ({
                let list = pre_commands(*old(self).pgc);
                let (m, a, npc) = run_spec(old(vm).model(), list, pc as int, run_budget(list.len()));
                &&& final(vm).model() == m
                &&& r.0 == a
                &&& r.1 == npc
                &&& final(vm).pc_of() == npc
            }),
    {
        let pgc: &'a Pgc = self.pgc;
        match &pgc.commands {
            Some(c) => vm.run_list_from(c.pre.as_slice(), pc),
            None => {
                let empty: Vec<NavCommand> = Vec::new();
                vm.run_list_from(empty.as_slice(), pc)
            },
        }
    }

    fn run_post(&mut self, vm: &mut Vm, pc: usize) -> (r: (VmAction, usize))
        ensures
            *final(self) == *old(self),
            ({
                let list = post_commands(*old(self).pgc);
                let (m, a, npc) = run_spec(old(vm).model(), list, pc as int, run_budget(list.len()));
                &&& final(vm).model() == m
                &&& r.0 == a
                &&& r.1 == npc
                &&& final(vm).pc_of() == npc
            }),
    {
        let pgc: &'a Pgc = self.pgc;
        match &pgc.commands {
            Some(c) => vm.run_list_from(c.post.as_slice(), pc),
            None => {
                let empty: Vec<NavCommand> = Vec::new();
                vm.run_list_from(empty.as_slice(), pc)
            },
        }
    }

    fn step_once(&mut self, vm: &mut Vm) -> (r: Option<PlaybackEvent>)
        ensures
            final(vm).pc_of() == iter_pc(*old(self).pgc, old(self).state, old(vm).model(), old(vm).pc_of()),
            final(self).pgc == old(self).pgc,
            final(self).pgcn == old(self).pgcn,
            (final(self).state, final(vm).model(), r) == iter_spec(
                *old(self).pgc,
                old(self).pgcn,
                old(self).state,
                old(vm).model(),
            ),
    {
        let pgc: &'a Pgc = self.pgc;
        match self.state {
            RunnerState::Pre { pc } => {
                let (action, npc) = self.run_pre(vm, pc);
                match self.handle_list_action(vm, action, npc, 1) {
                    ListVerdict::EnterCells => {
                        self.enter_cells(vm);
                        None
                    },
                    ListVerdict::Emit(ev) => Some(ev),
                    ListVerdict::Moved => None,
                }
            },
            RunnerState::PlayCell { cell } => {
                if cell >= 1 && (cell as usize) <= pgc.cells.len() {
                    let info = &pgc.cells[(cell - 1) as usize];
                    self.state = RunnerState::AfterCell { cell, command_done: false };
                    let program = match pgc.program_containing_cell(cell) {
                        Some(p) => p,
                        None => 1,
                    };
                    Some(
                        PlaybackEvent::PlayCell {
                            cell,
                            program,
                            first_sector: info.first_vobu_start_sector,
                            last_sector: info.last_vobu_end_sector,
                            still: info.still(),
                        },
                    )
                } else {
                    self.state = RunnerState::Post { pc: 0 };
                    None
                }
            },
            RunnerState::AfterCell { cell, command_done } => {
                if !command_done {
                    self.state = RunnerState::AfterCell { cell, command_done: true };
                    let cmd_index: u16 = if cell >= 1 && (cell as usize) <= pgc.cells.len() {
                        pgc.cells[(cell - 1) as usize].cell_command as u16
                    } else {
                        0
                    };
                    if cmd_index == 0 {
                        return None;
                    }
                    match &pgc.commands {
                        Some(c) => match c.cell_instruction(cmd_index) {
                            Some(ins) => {
                                let action = vm.step(ins);
                                match self.handle_list_action(vm, action, 0, cell) {
                                    ListVerdict::Emit(ev) => Some(ev),
                                    _ => None,
                                }
                            },
                            None => None,
                        },
                        None => None,
                    }
                } else {
                    let angle = Self::angle(vm);
                    match pgc.next_cell(cell, angle) {
                        Some(next) => {
                            self.state = RunnerState::PlayCell { cell: next };
                            None
                        },
                        None => {
                            self.state = RunnerState::Post { pc: 0 };
                            let still = pgc.still();
                            if still != StillTime::NoStill {
                                Some(PlaybackEvent::PgcStill { still })
                            } else {
                                None
                            }
                        },
                    }
                }
            },
            RunnerState::Post { pc } => {
                let (action, npc) = self.run_post(vm, pc);
                let anchor: u8 = if pgc.number_of_cells >= 1 {
                    pgc.number_of_cells
                } else {
                    1
                };
                match self.handle_list_action(vm, action, npc, anchor) {
                    ListVerdict::EnterCells => {
                        self.state = RunnerState::Finished;
                        if pgc.next_pgcn == 0 {
                            Some(PlaybackEvent::Finished)
                        } else {
                            Some(PlaybackEvent::NextPgc { pgcn: pgc.next_pgcn })
                        }
                    },
                    ListVerdict::Emit(ev) => Some(ev),
                    ListVerdict::Moved => None,
                }
            },
            RunnerState::Finished => Some(PlaybackEvent::Finished),
        }
    }

    /// Advance the PGC flow until something player-visible happens and
    /// report it (see [`runner_spec`]). After a transfer-class event or
    /// `Finished`, every later call reports `Finished`.
    pub fn next_event(&mut self, vm: &mut Vm) -> (r: PlaybackEvent)
        ensures
            final(self).pgc_of() == old(self).pgc_of(),
            final(self).pgcn_of() == old(self).pgcn_of(),
            (final(self).state_of(), final(vm).model(), r) == runner_spec(
                old(self).pgc_of(),
                old(self).pgcn_of(),
                old(self).state_of(),
                old(vm).model(),
                RUNNER_STEP_LIMIT as nat,
            ),
            final(vm).pc_of() == runner_pc(
                old(self).pgc_of(),
                old(self).pgcn_of(),
                old(self).state_of(),
                old(vm).model(),
                old(vm).pc_of(),
                RUNNER_STEP_LIMIT as nat,
            ),
    {
        let ghost target_pc = runner_pc(
            *self.pgc,
            self.pgcn,
            self.state,
            vm.model(),
            vm.pc,
            RUNNER_STEP_LIMIT as nat,
        );
        let ghost target = runner_spec(
            *self.pgc,
            self.pgcn,
            self.state,
            vm.model(),
            RUNNER_STEP_LIMIT as nat,
        );
        let mut fuel: usize = RUNNER_STEP_LIMIT;
        while fuel > 0
            invariant
                self.pgc == old(self).pgc,
                self.pgcn == old(self).pgcn,
                target == runner_spec(*self.pgc, self.pgcn, self.state, vm.model(), fuel as nat),
                target_pc == runner_pc(*self.pgc, self.pgcn, self.state, vm.model(), vm.pc, fuel as nat),
                target_pc == runner_pc(
                    *old(self).pgc,
                    old(self).pgcn,
                    old(self).state,
                    old(vm).model(),
                    old(vm).pc,
                    RUNNER_STEP_LIMIT as nat,
                ),
                target == runner_spec(
                    *old(self).pgc,
                    old(self).pgcn,
                    old(self).state,
                    old(vm).model(),
                    RUNNER_STEP_LIMIT as nat,
                ),
            decreases fuel,
        {
            match self.step_once(vm) {
                Some(ev) => {
                    return ev;
                },
                None => {},
            }
            fuel = fuel - 1;
        }
        self.state = RunnerState::Finished;
        PlaybackEvent::Finished
    }

} // impl


/// The event ends the runner's part: control leaves the PGC or the PGC
/// is done.
pub open spec fn ends_pgc(ev: PlaybackEvent) -> bool {
    ev is NextPgc || ev is Chapter || ev is Transfer || ev is Finished
}

/// A finished runner stays finished: every later call reports
/// `Finished` and leaves the machine, program counter included, alone.
pub proof fn lemma_finished_absorbs(pgc: Pgc, pgcn: u16, m: VmModel, pc: usize, fuel: nat)
    ensures
        runner_spec(pgc, pgcn, RunnerState::Finished, m, fuel) == (
            RunnerState::Finished,
            m,
            PlaybackEvent::Finished,
        ),
        runner_pc(pgc, pgcn, RunnerState::Finished, m, pc, fuel) == pc,
{
}

proof fn lemma_round_ends(pgc: Pgc, pgcn: u16, st: RunnerState, m: VmModel)
    ensures
        ({
            let (s1, m1, e) = iter_spec(pgc, pgcn, st, m);
            &&& e is Some && ends_pgc(e->0) ==> s1 is Finished
            &&& e is Some && e->0 is PlayCell ==> ({
                let ev = e->0;
                let c = ev->PlayCell_cell;
                &&& 1 <= c <= pgc.cells@.len()
                &&& ev->first_sector == pgc.cells@[c - 1].first_vobu_start_sector
                &&& ev->last_sector == pgc.cells@[c - 1].last_vobu_end_sector
                &&& ev->PlayCell_still == StillTime::from_byte(pgc.cells@[c - 1].still_time)
                &&& ev->program == program_or_first(pgc, c)
                &&& s1 == (RunnerState::AfterCell { cell: c, command_done: false })
            })
        }),
{
}

/// Whenever a call reports that control leaves the PGC (another PGC, a
/// chapter, a cross-domain transfer) or that the PGC is done, the
/// runner is finished; a reported cell is one of the PGC's cells, with
/// that cell's sector span, still and program.
pub proof fn lemma_event_shapes(pgc: Pgc, pgcn: u16, st: RunnerState, m: VmModel, fuel: nat)
    ensures
        ({
            let (s1, m1, ev) = runner_spec(pgc, pgcn, st, m, fuel);
            &&& ends_pgc(ev) ==> s1 is Finished
            &&& ev is PlayCell ==> ({
                let c = ev->PlayCell_cell;
                &&& 1 <= c <= pgc.cells@.len()
                &&& ev->first_sector == pgc.cells@[c - 1].first_vobu_start_sector
                &&& ev->last_sector == pgc.cells@[c - 1].last_vobu_end_sector
                &&& ev->PlayCell_still == StillTime::from_byte(pgc.cells@[c - 1].still_time)
                &&& ev->program == program_or_first(pgc, c)
                &&& s1 == (RunnerState::AfterCell { cell: c, command_done: false })
            })
        }),
    decreases fuel,
{
    if fuel > 0 {
        lemma_round_ends(pgc, pgcn, st, m);
        let (s1, m1, e) = iter_spec(pgc, pgcn, st, m);
        if e is None {
            lemma_event_shapes(pgc, pgcn, s1, m1, (fuel - 1) as nat);
        }
    }
}


/// A D-pad direction over a menu's buttons.
#[derive(Debug, Clone, Copy, PartialEq, Eq)]
pub enum ButtonMove {
    /// Up.
    Up,
    /// Down.
    Down,
    /// Left.
    Left,
    /// Right.
    Right,
}

/// The result of [`select_button`].
#[derive(Debug, Clone, Copy, PartialEq, Eq)]
pub enum ButtonPress {
    /// The button is now highlighted (SPRM 8 updated).
    Selected,
    /// The button actions itself on selection; its command yielded this.
    AutoAction(VmAction),
    /// No such button.
    Invalid,
}

/// The adjacency field of `b` for direction `mv`.
pub open spec fn adjacent(b: ButtonInfo, mv: ButtonMove) -> u8 {
    match mv {
        ButtonMove::Up => b.up,
        ButtonMove::Down => b.down,
        ButtonMove::Left => b.left,
        ButtonMove::Right => b.right,
    }
}

/// The button a D-pad move lands on: the current button's adjacency
/// field when it names a real button; otherwise the selection stays.
pub open spec fn spec_navigate(buttons: Seq<ButtonInfo>, current: u8, mv: ButtonMove) -> u8 {
    if 1 <= current <= buttons.len() && 1 <= adjacent(buttons[current - 1], mv) <= buttons.len() {
        adjacent(buttons[current - 1], mv)
    } else {
        current
    }
}

/// The button a D-pad move lands on (see [`spec_navigate`]).
pub fn navigate_button(hli: &HighlightInfo, current: u8, mv: ButtonMove) -> (r: u8)
    ensures
        r == spec_navigate(hli.buttons@, current, mv),
{
    if current < 1 || (current as usize) > hli.buttons.len() {
        return current;
    }
    let btn = &hli.buttons[(current - 1) as usize];
    let dest = match mv {
        ButtonMove::Up => btn.up,
        ButtonMove::Down => btn.down,
        ButtonMove::Left => btn.left,
        ButtonMove::Right => btn.right,
    };
    if dest >= 1 && (dest as usize) <= hli.buttons.len() {
        dest
    } else {
        current
    }
}

/// The button to highlight when a highlight comes up: the forced
/// selection when there is one; else the current one when it names a
/// real button; else button 1.
pub fn initial_button(hli: &HighlightInfo, current: u8) -> (r: u8)
    ensures
        r == (if hli.fosl_btnn != 0 {
            hli.fosl_btnn
        } else if 1 <= current <= hli.buttons@.len() {
            current
        } else {
            1
        }),
{
    if hli.fosl_btnn != 0 {
        return hli.fosl_btnn;
    }
    if current >= 1 && (current as usize) <= hli.buttons.len() {
        current
    } else {
        1
    }
}

/// The machine after running button `b`'s command on `m`.
pub open spec fn button_model(m: VmModel, b: ButtonInfo) -> VmModel {
    let ins = spec_decode(b.command@);
    if is_undefined(ins) {
        m
    } else {
        step_spec(m, ins).0
    }
}

/// The machine with button `btn` stored in SPRM 8 bits 10..=15.
pub open spec fn with_highlight(m: VmModel, btn: u8) -> VmModel {
    VmModel { regs: rm_set_sprm(m.regs, 8, (btn as u16) << 10u16), stack: m.stack }
}

/// Action button `btn`: run its command on `vm` and return the action
/// it surfaced; `None` when there is no such button.
pub fn activate_button(vm: &mut Vm, hli: &HighlightInfo, btn: u8) -> (r: Option<VmAction>)
    ensures
        final(vm).pc_of() == old(vm).pc_of(),
        !(1 <= btn <= hli.buttons@.len()) ==> r is None && final(vm).model() == old(vm).model(),
        1 <= btn <= hli.buttons@.len() ==> ({
            let b = hli.buttons@[btn - 1];
            let ins = spec_decode(b.command@);
            &&& r is Some
            &&& same_action(r->0, step_spec(old(vm).model(), ins).1, is_undefined(ins))
            &&& final(vm).model() == button_model(old(vm).model(), b)
        }),
{
    if btn < 1 || (btn as usize) > hli.buttons.len() {
        return None;
    }
    let ins = hli.buttons[(btn - 1) as usize].command_instruction();
    Some(vm.step(ins))
}

/// Highlight button `btn` (SPRM 8) and, when it is an auto-action
/// button, run its command at once.
pub fn select_button(vm: &mut Vm, hli: &HighlightInfo, btn: u8) -> (r: ButtonPress)
    ensures
        final(vm).pc_of() == old(vm).pc_of(),
        !(1 <= btn <= hli.buttons@.len()) ==> r is Invalid && final(vm).model() == old(vm).model(),
        1 <= btn <= hli.buttons@.len() ==> ({
            let b = hli.buttons@[btn - 1];
            let ins = spec_decode(b.command@);
            let m1 = with_highlight(old(vm).model(), btn);
            if b.auto_action {
                &&& r is AutoAction
                &&& same_action(r->0, step_spec(m1, ins).1, is_undefined(ins))
                &&& final(vm).model() == button_model(m1, b)
            } else {
                &&& r is Selected
                &&& final(vm).model() == m1
            }
        }),
{
    if btn < 1 || (btn as usize) > hli.buttons.len() {
        return ButtonPress::Invalid;
    }
    vm.regs.set_sprm(crate::vm::SPRM_HL_BTNN, (btn as u16) << 10u16);
    if hli.buttons[(btn - 1) as usize].auto_action {
        match activate_button(vm, hli, btn) {
            Some(action) => ButtonPress::AutoAction(action),
            None => ButtonPress::Selected,
        }
    } else {
        ButtonPress::Selected
    }
}

/// Run the highlight's forced-action button, when it declares one.
pub fn forced_action(vm: &mut Vm, hli: &HighlightInfo) -> (r: Option<VmAction>)
    ensures
        final(vm).pc_of() == old(vm).pc_of(),
        hli.foac_btnn == 0 ==> r is None && final(vm).model() == old(vm).model(),
        hli.foac_btnn != 0 && !(1 <= hli.foac_btnn <= hli.buttons@.len()) ==> r is None
            && final(vm).model() == old(vm).model(),
        hli.foac_btnn != 0 && 1 <= hli.foac_btnn <= hli.buttons@.len() ==> ({
            let b = hli.buttons@[hli.foac_btnn - 1];
            let ins = spec_decode(b.command@);
            &&& r is Some
            &&& same_action(r->0, step_spec(old(vm).model(), ins).1, is_undefined(ins))
            &&& final(vm).model() == button_model(old(vm).model(), b)
        }),
{
    if hli.foac_btnn == 0 {
        return None;
    }
    activate_button(vm, hli, hli.foac_btnn)
}

/// A button stored by [`select_button`] reads back from SPRM 8 (for
/// the 6-bit button numbers a highlight can carry).
pub proof fn lemma_selected_button_reads_back(m: VmModel, btn: u8)
    requires
        m.regs.s.len() == 24,
        1 <= btn <= 63,
    ensures
        rm_sprm(with_highlight(m, btn).regs, 8) / 1024 == btn,
        forall|i: u8| i != 8 ==> rm_sprm(with_highlight(m, btn).regs, i) == rm_sprm(m.regs, i),
{
    assert(((btn as u16) << 10u16) / 1024 == btn) by (bit_vector)
        requires
            1 <= btn <= 63,
    ;
}


/// One entry of a static title plan.
#[derive(Debug, Clone, Copy, PartialEq, Eq)]
pub struct PlannedCell {
    /// PGC the cell lives in.
    pub pgcn: u16,
    /// Program within that PGC.
    pub program: u8,
    /// Cell within that PGC.
    pub cell: u8,
    /// First VOBU start sector.
    pub first_sector: u32,
    /// Last VOBU end sector.
    pub last_sector: u32,
}

/// The title number of a search pointer's category word.
pub open spec fn srp_title(s: PgciSrp) -> u8 {
    ((s.category / 0x100_0000) % 128) as u8
}

/// The search pointer marks the entry PGC of VTS title `ttn`.
pub open spec fn is_title_entry(s: PgciSrp, ttn: u8) -> bool {
    s.category >= 0x8000_0000 && srp_title(s) == ttn
}

/// The first of the first `k` search pointers that is the entry of
/// title `ttn`.
pub open spec fn find_entry(srps: Seq<PgciSrp>, ttn: u8, k: nat) -> Option<int>
    decreases k,
{
    if k == 0 {
        None
    } else {
        match find_entry(srps, ttn, (k - 1) as nat) {
            Some(i) => Some(i),
            None => if is_title_entry(srps[k - 1], ttn) {
                Some(k - 1)
            } else {
                None
            },
        }
    }
}

/// The plan entries of the cells `walk` of PGC `pgcn` (numbers that
/// name no cell are skipped).
pub open spec fn planned_cells(pgc: Pgc, pgcn: u16, walk: Seq<u8>) -> Seq<PlannedCell>
    decreases walk.len(),
{
    if walk.len() == 0 {
        Seq::empty()
    } else {
        let c = walk.last();
        let rest = planned_cells(pgc, pgcn, walk.drop_last());
        if 1 <= c <= pgc.cells@.len() {
            rest.push(
                PlannedCell {
                    pgcn,
                    program: program_or_first(pgc, c),
                    cell: c,
                    first_sector: pgc.cells@[c - 1].first_vobu_start_sector,
                    last_sector: pgc.cells@[c - 1].last_vobu_end_sector,
                },
            )
        } else {
            rest
        }
    }
}

/// The plan entries of one PGC: its cell walk at `angle`.
pub open spec fn pgc_plan(pgc: Pgc, pgcn: u16, angle: u8) -> Seq<PlannedCell> {
    planned_cells(pgc, pgcn, walk_from(pgc.cells@, spec_first_cell(pgc.cells@, angle), angle, 256))
}

/// Number of PGCs not yet visited.
pub open spec fn count_unvisited(v: Seq<bool>) -> nat
    decreases v.len(),
{
    if v.len() == 0 {
        0
    } else {
        count_unvisited(v.drop_last()) + if v.last() {
            0nat
        } else {
            1nat
        }
    }
}

/// Visiting a PGC not yet visited leaves one fewer to visit.
pub proof fn lemma_visit_decreases(v: Seq<bool>, i: int)
    requires
        0 <= i < v.len(),
        !v[i],
    ensures
        count_unvisited(v.update(i, true)) + 1 == count_unvisited(v),
    decreases v.len(),
{
    if i == v.len() - 1 {
        assert(v.update(i, true).drop_last() =~= v.drop_last());
    } else {
        lemma_visit_decreases(v.drop_last(), i);
        assert(v.update(i, true).drop_last() =~= v.drop_last().update(i, true));
    }
}

/// The plan from PGC `pgcn` on: its cells, then the PGC its next-PGC
/// word names, until that word is zero, names no PGC, names a PGC
/// already visited or a PGC of another title.
pub open spec fn plan_chain(
    srps: Seq<PgciSrp>,
    pgcs: Seq<Pgc>,
    ttn: u8,
    angle: u8,
    pgcn: u16,
    visited: Seq<bool>,
) -> Seq<PlannedCell>
    decreases count_unvisited(visited),
{
    let idx = pgcn - 1;
    if pgcn == 0 || idx >= pgcs.len() || idx >= srps.len() || idx >= visited.len() || visited[idx]
        || srp_title(srps[idx]) != ttn {
        Seq::empty()
    } else {
        let here = pgc_plan(pgcs[idx], pgcn, angle);
        if pgcs[idx].next_pgcn == 0 {
            here
        } else {
            proof {
                lemma_visit_decreases(visited, idx);
            }
            here + plan_chain(srps, pgcs, ttn, angle, pgcs[idx].next_pgcn, visited.update(idx, true))
        }
    }
}

/// The static plan of VTS title `ttn`: `None` without an entry PGC;
/// else the chain from the first entry PGC of the title.
pub open spec fn spec_plan_title(srps: Seq<PgciSrp>, pgcs: Seq<Pgc>, ttn: u8, angle: u8) -> Option<Seq<PlannedCell>> {
    match find_entry(srps, ttn, srps.len()) {
        None => None,
        Some(i) => {
            let pgcn = ((i + 1) % 65536) as u16;
            if pgcn == 0 {
                None
            } else {
                Some(plan_chain(srps, pgcs, ttn, angle, pgcn, Seq::new(pgcs.len(), |_j: int| false)))
            }
        },
    }
}

proof fn lemma_find_entry_stays(srps: Seq<PgciSrp>, ttn: u8, k: nat, k2: nat)
    requires
        k <= k2,
        find_entry(srps, ttn, k) is Some,
    ensures
        find_entry(srps, ttn, k2) == find_entry(srps, ttn, k),
    decreases k2,
{
    if k2 > k {
        lemma_find_entry_stays(srps, ttn, k, (k2 - 1) as nat);
    }
}

proof fn lemma_find_entry_range(srps: Seq<PgciSrp>, ttn: u8, k: nat)
    ensures
        find_entry(srps, ttn, k) matches Some(i) ==> 0 <= i < k && is_title_entry(srps[i], ttn),
    decreases k,
{
    if k > 0 {
        lemma_find_entry_range(srps, ttn, (k - 1) as nat);
    }
}

fn find_title_entry(srps: &[PgciSrp], ttn: u8) -> (r: Option<usize>)
    ensures
        r matches Some(i) ==> find_entry(srps@, ttn, srps@.len()) == Some(i as int),
        r is None ==> find_entry(srps@, ttn, srps@.len()) is None,
{
    let mut i: usize = 0;
    while i < srps.len()
        invariant
            i <= srps@.len(),
            find_entry(srps@, ttn, i as nat) is None,
        decreases srps@.len() - i,
    {
        if srps[i].is_entry_pgc() && srps[i].title_number() == ttn {
            proof {
                assert(find_entry(srps@, ttn, (i + 1) as nat) == Some(i as int));
                lemma_find_entry_stays(srps@, ttn, (i + 1) as nat, srps@.len());
            }
            return Some(i);
        }
        i = i + 1;
    }
    None
}

fn append_pgc_cells(plan: &mut Vec<PlannedCell>, pgc: &Pgc, pgcn: u16, angle: u8)
    ensures
        final(plan)@ == old(plan)@ + pgc_plan(*pgc, pgcn, angle),
{
    let walk = pgc.cell_walk(angle);
    let mut k: usize = 0;
    while k < walk.len()
        invariant
            k <= walk@.len(),
            walk@ == walk_from(pgc.cells@, spec_first_cell(pgc.cells@, angle), angle, 256),
            plan@ == old(plan)@ + planned_cells(*pgc, pgcn, walk@.take(k as int)),
        decreases walk@.len() - k,
    {
        let cell = walk[k];
        assert(walk@.take((k + 1) as int).drop_last() =~= walk@.take(k as int));
        if cell >= 1 && (cell as usize) <= pgc.cells.len() {
            let info = &pgc.cells[(cell - 1) as usize];
            let program = match pgc.program_containing_cell(cell) {
                Some(p) => p,
                None => 1,
            };
            plan.push(
                PlannedCell {
                    pgcn,
                    program,
                    cell,
                    first_sector: info.first_vobu_start_sector,
                    last_sector: info.last_vobu_end_sector,
                },
            );
        }
        k = k + 1;
    }
    assert(walk@.take(walk@.len() as int) =~= walk@);
}

/// The static cell schedule of VTS title `vts_ttn`, in presentation
/// order and without running any command: from the title's entry PGC,
/// each PGC's cell walk at `angle`, following the next-PGC chain (see
/// [`spec_plan_title`]). `None` when the title has no entry PGC (or
/// its entry's 16-bit PGC number wraps to zero).
pub fn plan_title_cells(pgci_srp: &[PgciSrp], pgcs: &[Pgc], vts_ttn: u8, angle: u8) -> (r: Option<Vec<PlannedCell>>)
    ensures
        r matches Some(v) ==> spec_plan_title(pgci_srp@, pgcs@, vts_ttn, angle) == Some(v@),
        r is None ==> spec_plan_title(pgci_srp@, pgcs@, vts_ttn, angle) is None,
{
    let entry = match find_title_entry(pgci_srp, vts_ttn) {
        None => return None,
        Some(i) => i,
    };
    proof {
        lemma_find_entry_range(pgci_srp@, vts_ttn, pgci_srp@.len());
    }
    let mut visited: Vec<bool> = Vec::new();
    let mut j: usize = 0;
    while j < pgcs.len()
        invariant
            j <= pgcs@.len(),
            visited@ == Seq::new(j as nat, |_j: int| false),
        decreases pgcs@.len() - j,
    {
        visited.push(false);
        j = j + 1;
        assert(visited@ =~= Seq::new(j as nat, |_j: int| false));
    }
    let mut plan: Vec<PlannedCell> = Vec::new();
    let first: u16 = ((entry % 65536) as u16).wrapping_add(1);
    if first == 0 {
        return None;
    }
    assert(first == ((entry + 1) % 65536) as u16) by (bit_vector)
        requires
            first == ((entry % 65536) as u16).wrapping_add(1),
    ;
    let mut pgcn: u16 = first;
    let ghost total = plan_chain(pgci_srp@, pgcs@, vts_ttn, angle, pgcn, visited@);
    assert(plan@ + total =~= total);
    loop
        invariant_except_break
            visited@.len() == pgcs@.len(),
            pgcn >= 1,
            plan@ + plan_chain(pgci_srp@, pgcs@, vts_ttn, angle, pgcn, visited@) == total,
        ensures
            plan@ == total,
        decreases count_unvisited(visited@),
    {
        let idx = (pgcn - 1) as usize;
        if idx >= pgcs.len() || idx >= pgci_srp.len() {
            assert(plan@ + Seq::<PlannedCell>::empty() =~= plan@);
            break;
        }
        if visited[idx] || pgci_srp[idx].title_number() != vts_ttn {
            assert(plan@ + Seq::<PlannedCell>::empty() =~= plan@);
            break;
        }
        let ghost before = visited@;
        let ghost plan0 = plan@;
        proof {
            lemma_visit_decreases(visited@, idx as int);
        }
        visited.set(idx, true);
        append_pgc_cells(&mut plan, &pgcs[idx], pgcn, angle);
        if pgcs[idx].next_pgcn == 0 {
            break;
        }
        pgcn = pgcs[idx].next_pgcn;
        assert(plan0 + plan_chain(pgci_srp@, pgcs@, vts_ttn, angle, (idx + 1) as u16, before) =~= plan@
            + plan_chain(pgci_srp@, pgcs@, vts_ttn, angle, pgcn, visited@));
    }
    Some(plan)
}


/// The entry is a real cell of PGC `pgcn` of `pgcs` and carries that
/// cell's sector span.
pub open spec fn planned_cell_ok(pgcs: Seq<Pgc>, e: PlannedCell) -> bool {
    &&& 1 <= e.pgcn <= pgcs.len()
    &&& 1 <= e.cell <= pgcs[e.pgcn - 1].cells@.len()
    &&& e.first_sector == pgcs[e.pgcn - 1].cells@[e.cell - 1].first_vobu_start_sector
    &&& e.last_sector == pgcs[e.pgcn - 1].cells@[e.cell - 1].last_vobu_end_sector
    &&& e.program == program_or_first(pgcs[e.pgcn - 1], e.cell)
}

proof fn lemma_planned_cells_ok(pgcs: Seq<Pgc>, pgcn: u16, walk: Seq<u8>)
    requires
        1 <= pgcn <= pgcs.len(),
    ensures
        forall|k: int|
            0 <= k < planned_cells(pgcs[pgcn - 1], pgcn, walk).len() ==> {
                let e = #[trigger] planned_cells(pgcs[pgcn - 1], pgcn, walk)[k];
                e.pgcn == pgcn && planned_cell_ok(pgcs, e)
            },
    decreases walk.len(),
{
    if walk.len() > 0 {
        lemma_planned_cells_ok(pgcs, pgcn, walk.drop_last());
        let rest = planned_cells(pgcs[pgcn - 1], pgcn, walk.drop_last());
        let all = planned_cells(pgcs[pgcn - 1], pgcn, walk);
        assert forall|k: int| 0 <= k < all.len() implies {
            let e = #[trigger] all[k];
            e.pgcn == pgcn && planned_cell_ok(pgcs, e)
        } by {
            if k < rest.len() {
                assert(all[k] == rest[k]);
            }
        }
    }
}

/// Every entry of a title plan is a real cell of a PGC of that title,
/// with the cell's sector span and program.
pub proof fn lemma_plan_cells_belong(
    srps: Seq<PgciSrp>,
    pgcs: Seq<Pgc>,
    ttn: u8,
    angle: u8,
    pgcn: u16,
    visited: Seq<bool>,
)
    ensures
        forall|k: int|
            0 <= k < plan_chain(srps, pgcs, ttn, angle, pgcn, visited).len() ==> {
                let e = #[trigger] plan_chain(srps, pgcs, ttn, angle, pgcn, visited)[k];
                &&& planned_cell_ok(pgcs, e)
                &&& e.pgcn <= srps.len()
                &&& srp_title(srps[e.pgcn - 1]) == ttn
            },
    decreases count_unvisited(visited),
{
    let idx = pgcn - 1;
    if !(pgcn == 0 || idx >= pgcs.len() || idx >= srps.len() || idx >= visited.len() || visited[idx]
        || srp_title(srps[idx]) != ttn) {
        let here = pgc_plan(pgcs[idx], pgcn, angle);
        lemma_planned_cells_ok(pgcs, pgcn, walk_from(pgcs[idx].cells@, spec_first_cell(pgcs[idx].cells@, angle), angle, 256));
        if pgcs[idx].next_pgcn != 0 {
            lemma_visit_decreases(visited, idx);
            lemma_plan_cells_belong(srps, pgcs, ttn, angle, pgcs[idx].next_pgcn, visited.update(idx, true));
            let rest = plan_chain(srps, pgcs, ttn, angle, pgcs[idx].next_pgcn, visited.update(idx, true));
            assert forall|k: int| 0 <= k < (here + rest).len() implies {
                let e = #[trigger] (here + rest)[k];
                &&& planned_cell_ok(pgcs, e)
                &&& e.pgcn <= srps.len()
                &&& srp_title(srps[e.pgcn - 1]) == ttn
            } by {
                if k < here.len() {
                    assert((here + rest)[k] == here[k]);
                } else {
                    assert((here + rest)[k] == rest[k - here.len()]);
                }
            }
        }
    }
}


/// A transfer resolved into the structure to load next.
#[derive(Debug, Clone, Copy, PartialEq, Eq)]
pub enum JumpResolution {
    /// `JumpTT`: title set `vts` (first sector `vts_start_sector`),
    /// entry PGC of its title `vts_ttn`.
    TitleEntry {
        /// Volume title number.
        ttn: u8,
        /// Title set.
        vts: u8,
        /// Title within the title set.
        vts_ttn: u8,
        /// First sector of the title set.
        vts_start_sector: u32,
    },
    /// `JumpVTS_TT`: entry PGC of title `vts_ttn` of the current set.
    VtsTitleEntry {
        /// Title within the title set.
        vts_ttn: u8,
    },
    /// `JumpVTS_PTT`: chapter `pttn` of title `vts_ttn` of the current set.
    VtsChapter {
        /// Title within the title set.
        vts_ttn: u8,
        /// Chapter.
        pttn: u16,
    },
    /// The First-Play PGC.
    FirstPlay,
    /// A VMG menu by type.
    VmgMenu {
        /// Menu type.
        menu: MenuType,
    },
    /// A VMG PGC by number.
    VmgPgc {
        /// PGC number.
        pgcn: u16,
    },
    /// A menu of title set `vts`.
    VtsMenu {
        /// Title set.
        vts: u8,
        /// Title within the set.
        vts_ttn: u8,
        /// Menu type.
        menu: MenuType,
    },
    /// A menu of the current title set.
    SameVtsMenu {
        /// Menu type.
        menu: MenuType,
    },
    /// Resume the last call.
    Resume,
    /// Stop playback.
    Stop,
}

/// The destination of a transfer-class action; `None` for the others
/// and for a `JumpTT` to a title the title table lacks (or without a
/// title table).
pub open spec fn spec_resolve_action(action: VmAction, tt: Option<TtSrpt>) -> Option<JumpResolution> {
    match action {
        VmAction::JumpTitle { ttn } => match tt {
            Some(t) => if 1 <= ttn <= t.entries@.len() {
                let e = t.entries@[ttn - 1];
                Some(
                    JumpResolution::TitleEntry {
                        ttn,
                        vts: e.vts_number,
                        vts_ttn: e.vts_title_number,
                        vts_start_sector: e.vts_start_sector,
                    },
                )
            } else {
                None
            },
            None => None,
        },
        VmAction::JumpVtsTitle { ttn } => Some(JumpResolution::VtsTitleEntry { vts_ttn: ttn }),
        VmAction::JumpVtsPtt { ttn, pttn } => Some(JumpResolution::VtsChapter { vts_ttn: ttn, pttn }),
        VmAction::JumpSs(t) => Some(
            match t {
                JumpSSTarget::FirstPlay => JumpResolution::FirstPlay,
                JumpSSTarget::VmgmMenu { menu } => JumpResolution::VmgMenu { menu: MenuType::from_nibble(menu) },
                JumpSSTarget::VmgmPgcn { pgcn } => JumpResolution::VmgPgc { pgcn },
                JumpSSTarget::VtsmMenu { vts, ttn, menu } => JumpResolution::VtsMenu {
                    vts,
                    vts_ttn: ttn,
                    menu: MenuType::from_nibble(menu),
                },
            },
        ),
        VmAction::CallSs(t) => Some(
            match t {
                CallSSTarget::FirstPlay { .. } => JumpResolution::FirstPlay,
                CallSSTarget::VmgmMenu { menu, .. } => JumpResolution::VmgMenu { menu: MenuType::from_nibble(menu) },
                CallSSTarget::VmgmPgcn { pgcn, .. } => JumpResolution::VmgPgc { pgcn },
                CallSSTarget::VtsmMenu { menu, .. } => JumpResolution::SameVtsMenu {
                    menu: MenuType::from_nibble(menu),
                },
            },
        ),
        VmAction::Resume(_) => Some(JumpResolution::Resume),
        VmAction::Exit => Some(JumpResolution::Stop),
        _ => None,
    }
}

/// Resolve a transfer-class action (see [`spec_resolve_action`]).
pub fn resolve_action(action: &VmAction, tt_srpt: Option<&TtSrpt>) -> (r: Option<JumpResolution>)
    ensures
        r == spec_resolve_action(*action, match tt_srpt {
            Some(t) => Some(*t),
            None => None,
        }),
{
    match action {
        VmAction::JumpTitle { ttn } => {
            match tt_srpt {
                Some(t) => match t.title(*ttn) {
                    Some(entry) => Some(
                        JumpResolution::TitleEntry {
                            ttn: *ttn,
                            vts: entry.vts_number,
                            vts_ttn: entry.vts_title_number,
                            vts_start_sector: entry.vts_start_sector,
                        },
                    ),
                    None => None,
                },
                None => None,
            }
        },
        VmAction::JumpVtsTitle { ttn } => Some(JumpResolution::VtsTitleEntry { vts_ttn: *ttn }),
        VmAction::JumpVtsPtt { ttn, pttn } => Some(
            JumpResolution::VtsChapter { vts_ttn: *ttn, pttn: *pttn },
        ),
        VmAction::JumpSs(t) => Some(
            match t {
                JumpSSTarget::FirstPlay => JumpResolution::FirstPlay,
                JumpSSTarget::VmgmMenu { menu } => JumpResolution::VmgMenu {
                    menu: MenuType::from_nibble(*menu),
                },
                JumpSSTarget::VmgmPgcn { pgcn } => JumpResolution::VmgPgc { pgcn: *pgcn },
                JumpSSTarget::VtsmMenu { vts, ttn, menu } => JumpResolution::VtsMenu {
                    vts: *vts,
                    vts_ttn: *ttn,
                    menu: MenuType::from_nibble(*menu),
                },
            },
        ),
        VmAction::CallSs(t) => Some(
            match t {
                CallSSTarget::FirstPlay { .. } => JumpResolution::FirstPlay,
                CallSSTarget::VmgmMenu { menu, .. } => JumpResolution::VmgMenu {
                    menu: MenuType::from_nibble(*menu),
                },
                CallSSTarget::VmgmPgcn { pgcn, .. } => JumpResolution::VmgPgc { pgcn: *pgcn },
                CallSSTarget::VtsmMenu { menu, .. } => JumpResolution::SameVtsMenu {
                    menu: MenuType::from_nibble(*menu),
                },
            },
        ),
        VmAction::Resume(_) => Some(JumpResolution::Resume),
        VmAction::Exit => Some(JumpResolution::Stop),
        _ => None,
    }
}

/// Exactly the transfer-class actions resolve (a `JumpTT` only through
/// a title table that has its title), and every resolved action but
/// `Exit` and `Resume` lands in the domain [`spec_target_domain`] names.
pub proof fn lemma_resolution_matches_domain(action: VmAction, tt: Option<TtSrpt>)
    ensures
        spec_resolve_action(action, tt) is Some ==> (spec_target_domain(action) is Some || action is Resume
            || action is Exit),
        spec_target_domain(action) is Some && !(action is JumpTitle) ==> spec_resolve_action(action, tt) is Some,
        spec_resolve_action(action, tt) matches Some(j) ==> match j {
            JumpResolution::TitleEntry { .. } | JumpResolution::VtsTitleEntry { .. }
            | JumpResolution::VtsChapter { .. } => spec_target_domain(action) == Some(Domain::VtsTitle),
            JumpResolution::FirstPlay => spec_target_domain(action) == Some(Domain::FirstPlay),
            JumpResolution::VmgMenu { .. } | JumpResolution::VmgPgc { .. } => spec_target_domain(action)
                == Some(Domain::VideoManager),
            JumpResolution::VtsMenu { .. } | JumpResolution::SameVtsMenu { .. } => spec_target_domain(action)
                == Some(Domain::VtsMenu),
            JumpResolution::Resume => action is Resume,
            JumpResolution::Stop => action is Exit,
        },
{
}

/// Record an arrival in the title domain: SPRM 4 (title), 5 (VTS
/// title), 6 (PGC) and, for a chapter arrival, 7 (chapter).
pub fn note_title_position(vm: &mut Vm, ttn: u8, vts_ttn: u8, pgcn: u16, pttn: Option<u16>)
    ensures
        ({
            let r1 = rm_set_sprm(old(vm).model().regs, 4, ttn as u16);
            let r2 = rm_set_sprm(r1, 5, vts_ttn as u16);
            let r3 = rm_set_sprm(r2, 6, pgcn);
            final(vm).model() == (VmModel {
                regs: match pttn {
                    Some(p) => rm_set_sprm(r3, 7, p),
                    None => r3,
                },
                stack: old(vm).model().stack,
            })
        }),
        final(vm).pc_of() == old(vm).pc_of(),
{
    vm.regs.set_sprm(crate::vm::SPRM_TITLE, ttn as u16);
    vm.regs.set_sprm(crate::vm::SPRM_VTS_TITLE, vts_ttn as u16);
    vm.regs.set_sprm(crate::vm::SPRM_PGCN, pgcn);
    match pttn {
        Some(p) => vm.regs.set_sprm(crate::vm::SPRM_PTT, p),
        None => {},
    }
}

/// What the engine remembers at a `CallSS` to honour a later `RSM`.
#[derive(Debug, Clone, Copy, PartialEq, Eq)]
pub struct ResumeContext {
    /// Domain the call left.
    pub domain: Domain,
    /// Title set the call left (`0` outside any).
    pub vts: u8,
    /// PGC that was interrupted.
    pub pgcn: u16,
    /// Cell being presented when the call fired.
    pub cell: u8,
}

impl ResumeContext {
    /// The cell to re-enter on resume: the call's non-zero resume cell,
    /// else the interrupted cell.
    pub fn effective_cell(&self, rp: &ResumePoint) -> (r: u8)
        ensures
            r == (if rp.resume_cell != 0 {
                rp.resume_cell
            } else {
                self.cell
            }),
    {
        if rp.resume_cell != 0 {
            rp.resume_cell
        } else {
            self.cell
        }
    }
}


/// Where a still hold stands.
#[derive(Debug, Clone, Copy, PartialEq, Eq)]
pub enum StillPhase {
    /// No still was authored.
    NotStill,
    /// A timed hold with `remaining_ms` milliseconds left.
    Timed {
        /// Milliseconds left.
        remaining_ms: u64,
    },
    /// A hold until released.
    Infinite,
    /// The hold ended.
    Released,
}

/// The phase a still hold starts in.
pub open spec fn start_phase(still: StillTime) -> StillPhase {
    match still {
        StillTime::NoStill => StillPhase::NotStill,
        StillTime::Seconds(s) => StillPhase::Timed { remaining_ms: ((s as u64) * 1000) as u64 },
        StillTime::Infinite => StillPhase::Infinite,
    }
}

/// The phase after `elapsed` milliseconds, and whether that ended a
/// timed hold.
pub open spec fn advance_spec(p: StillPhase, elapsed: u64) -> (StillPhase, bool) {
    match p {
        StillPhase::Timed { remaining_ms } => if elapsed >= remaining_ms {
            (StillPhase::Released, true)
        } else {
            (StillPhase::Timed { remaining_ms: (remaining_ms - elapsed) as u64 }, false)
        },
        _ => (p, false),
    }
}

/// The phase holds the last frame.
pub open spec fn holding(p: StillPhase) -> bool {
    p is Timed || p is Infinite
}

/// The playback clock of one still hold.
#[derive(Debug, Clone, Copy, PartialEq, Eq)]
pub struct StillClock {
    phase: StillPhase,
}

impl StillClock {
    /// The clock's phase.
    pub closed spec fn current(self) -> StillPhase {
        self.phase
    }

    /// Start the hold `still` calls for: none, `s` seconds, or until
    /// released.
    pub fn start(still: StillTime) -> (r: Self)
        ensures
            r.current() == start_phase(still),
    {
        let phase = match still {
            StillTime::NoStill => StillPhase::NotStill,
            StillTime::Seconds(s) => StillPhase::Timed { remaining_ms: (s as u64) * 1000 },
            StillTime::Infinite => StillPhase::Infinite,
        };
        StillClock { phase }
    }

    /// The current phase.
    pub fn phase(&self) -> (r: StillPhase)
        ensures
            r == self.current(),
    {
        self.phase
    }

    /// The last frame must stay frozen.
    pub fn is_holding(&self) -> (r: bool)
        ensures
            r == holding(self.current()),
    {
        match self.phase {
            StillPhase::Timed { .. } | StillPhase::Infinite => true,
            _ => false,
        }
    }

    /// Let `elapsed_ms` pass; `true` when this ended a timed hold.
    /// Infinite holds never expire this way.
    pub fn advance_ms(&mut self, elapsed_ms: u64) -> (r: bool)
        ensures
            (final(self).current(), r) == advance_spec(old(self).current(), elapsed_ms),
    {
        match self.phase {
            StillPhase::Timed { remaining_ms } => {
                if elapsed_ms >= remaining_ms {
                    self.phase = StillPhase::Released;
                    true
                } else {
                    self.phase = StillPhase::Timed { remaining_ms: remaining_ms - elapsed_ms };
                    false
                }
            },
            _ => false,
        }
    }

    /// The user pressed "still off": released only while holding and
    /// while the mask leaves that operation allowed.
    pub fn try_user_release(&mut self, uops: UopMask) -> (r: bool)
        ensures
            r == (holding(old(self).current()) && !bit_set(uops@, 18)),
            final(self).current() == (if r {
                StillPhase::Released
            } else {
                old(self).current()
            }),
    {
        if !self.is_holding() || !uops.is_allowed(UserOp::StillOff) {
            return false;
        }
        self.phase = StillPhase::Released;
        true
    }

    /// Release the hold unconditionally (a control transfer).
    pub fn release(&mut self)
        ensures
            final(self).current() == (if holding(old(self).current()) {
                StillPhase::Released
            } else {
                old(self).current()
            }),
    {
        if self.is_holding() {
            self.phase = StillPhase::Released;
        }
    }
}

/// The still hold an event asks for: the cell's still for `PlayCell`,
/// the PGC's for `PgcStill`, else `None`.
pub open spec fn event_still(ev: PlaybackEvent) -> Option<StillTime> {
    match ev {
        PlaybackEvent::PlayCell { still, .. } => Some(still),
        PlaybackEvent::PgcStill { still } => Some(still),
        _ => None,
    }
}

impl PlaybackEvent {
    /// The still hold the event asks for (see [`event_still`]).
    pub fn still_time(&self) -> (r: Option<StillTime>)
        ensures
            r == event_still(*self),
    {
        match self {
            PlaybackEvent::PlayCell { still, .. } => Some(*still),
            PlaybackEvent::PgcStill { still } => Some(*still),
            _ => None,
        }
    }

    /// A clock armed for the event's still, when it has one.
    pub fn still_clock(&self) -> (r: Option<StillClock>)
        ensures
            (match event_still(*self) {
                Some(st) => r matches Some(c) && c.current() == start_phase(st),
                None => r is None,
            }),
    {
        match self.still_time() {
            Some(st) => Some(StillClock::start(st)),
            None => None,
        }
    }
}

/// Letting `a` and then `b` milliseconds pass leaves a hold where
/// letting `a + b` pass at once does, and ends it in one of the two
/// steps exactly when the single step ends it.
pub proof fn lemma_advance_additive(p: StillPhase, a: u64, b: u64)
    requires
        a + b <= u64::MAX,
    ensures
        advance_spec(advance_spec(p, a).0, b).0 == advance_spec(p, (a + b) as u64).0,
        (advance_spec(p, a).1 || advance_spec(advance_spec(p, a).0, b).1) == advance_spec(p, (a + b) as u64).1,
{
}

/// An infinite hold never ends through the clock, and a timed hold of
/// `s` seconds ends exactly when `s * 1000` milliseconds have passed.
pub proof fn lemma_hold_duration(s: u8, elapsed: u64)
    requires
        1 <= s <= 254,
    ensures
        advance_spec(StillPhase::Infinite, elapsed) == (StillPhase::Infinite, false),
        advance_spec(start_phase(StillTime::Seconds(s)), elapsed).1 == (elapsed >= s * 1000),
{
}


/// A resolved audio-stream choice.
#[derive(Debug, Clone, Copy, PartialEq, Eq)]
pub enum AudioSelection {
    /// Play logical stream `logical`, demuxing physical stream `physical`.
    Selected {
        /// Logical stream (the SPRM 1 value).
        logical: u8,
        /// Physical stream number.
        physical: u8,
        /// Chosen by the preference fallback rather than named by SPRM 1.
        via_preference: bool,
    },
    /// No audio.
    NoAudio,
}

/// The player can play a stream with these attributes: the karaoke or
/// plain capability bit of its codec; LPCM without karaoke always;
/// a reserved coding mode never.
pub open spec fn spec_playable(caps: AudioCapabilities, a: AudioAttributes) -> bool {
    let karaoke = a.application_mode is Karaoke;
    match a.coding_mode {
        AudioCodingMode::Ac3 => if karaoke { caps.dolby_karaoke } else { caps.dolby },
        AudioCodingMode::Mpeg1 | AudioCodingMode::Mpeg2Ext => if karaoke {
            caps.mpeg_karaoke
        } else {
            caps.mpeg
        },
        AudioCodingMode::Dts => if karaoke { caps.dts_karaoke } else { caps.dts },
        AudioCodingMode::Lpcm => !karaoke || caps.pcm_karaoke,
        AudioCodingMode::Reserved(_) => false,
    }
}

/// The player's SPRM 15 capability bitmap can play a stream with these
/// attributes (see [`spec_playable`]).
pub fn audio_stream_playable(caps: AudioCapabilities, attrs: &AudioAttributes) -> (r: bool)
    ensures
        r == spec_playable(caps, *attrs),
{
    let karaoke = match attrs.application_mode {
        AudioApplicationMode::Karaoke => true,
        _ => false,
    };
    match attrs.coding_mode {
        AudioCodingMode::Ac3 => if karaoke {
            caps.dolby_karaoke
        } else {
            caps.dolby
        },
        AudioCodingMode::Mpeg1 | AudioCodingMode::Mpeg2Ext => if karaoke {
            caps.mpeg_karaoke
        } else {
            caps.mpeg
        },
        AudioCodingMode::Dts => if karaoke {
            caps.dts_karaoke
        } else {
            caps.dts
        },
        AudioCodingMode::Lpcm => !karaoke || caps.pcm_karaoke,
        AudioCodingMode::Reserved(_) => false,
    }
}

/// SPRM 15 decoded.
pub open spec fn caps_from(raw: u16) -> AudioCapabilities {
    AudioCapabilities {
        sdds_karaoke: (raw / 4) % 2 == 1,
        dts_karaoke: (raw / 8) % 2 == 1,
        mpeg_karaoke: (raw / 16) % 2 == 1,
        dolby_karaoke: (raw / 64) % 2 == 1,
        pcm_karaoke: (raw / 128) % 2 == 1,
        sdds: (raw / 1024) % 2 == 1,
        dts: (raw / 2048) % 2 == 1,
        mpeg: (raw / 4096) % 2 == 1,
        dolby: (raw / 16384) % 2 == 1,
        raw,
    }
}

/// Logical stream `n` is available and playable (a stream without
/// attributes counts as playable).
pub open spec fn audio_usable(caps: AudioCapabilities, ast: Seq<AudioStreamControl>, attrs: Seq<AudioAttributes>, n: int) -> bool {
    ast[n].available && (n >= attrs.len() || spec_playable(caps, attrs[n]))
}

/// The language word `pref` is a two-letter code equal to `code`.
pub open spec fn lang_is(pref: u16, code: [u8; 2]) -> bool {
    &&& pref != 0xFFFF
    &&& is_ascii_letter((pref / 256) as u8)
    &&& is_ascii_letter((pref % 256) as u8)
    &&& code@[0] == (pref / 256) as u8
    &&& code@[1] == (pref % 256) as u8
}

/// Audio fallback rule `level` for stream `n`: `0` language and code
/// extension match, `1` language matches, `2` any usable stream.
pub open spec fn audio_pred(
    level: u8,
    caps: AudioCapabilities,
    ast: Seq<AudioStreamControl>,
    attrs: Seq<AudioAttributes>,
    pref: u16,
    ext: u8,
    n: int,
) -> bool {
    let lang = n < attrs.len() && lang_is(pref, attrs[n].language_code);
    let ext_ok = ext != 0 && n < attrs.len() && attrs[n].code_extension == ext;
    audio_usable(caps, ast, attrs, n) && (level == 2 || (lang && (level == 1 || ext_ok)))
}

/// The first stream `n` in `i..8` meeting rule `level`.
pub open spec fn audio_first(
    level: u8,
    caps: AudioCapabilities,
    ast: Seq<AudioStreamControl>,
    attrs: Seq<AudioAttributes>,
    pref: u16,
    ext: u8,
    i: int,
) -> Option<int>
    decreases 8 - i,
{
    if i >= 8 {
        None
    } else if audio_pred(level, caps, ast, attrs, pref, ext, i) {
        Some(i)
    } else {
        audio_first(level, caps, ast, attrs, pref, ext, i + 1)
    }
}

/// The audio choice for registers `m`: SPRM 1's `15` means none; a
/// usable stream SPRM 1 names is taken as is; otherwise the first
/// usable stream matching SPRM 16's language and SPRM 17's extension,
/// else matching the language, else the first usable one.
pub open spec fn spec_select_audio(m: RegModel, ast: Seq<AudioStreamControl>, attrs: Seq<AudioAttributes>) -> AudioSelection {
    let caps = caps_from(rm_sprm(m, 15));
    let sel = AudioStreamSelector::from_raw(rm_sprm(m, 1));
    if sel is NoStream {
        AudioSelection::NoAudio
    } else if sel is Stream && audio_usable(caps, ast, attrs, sel->Stream_0 as int) {
        AudioSelection::Selected {
            logical: sel->Stream_0,
            physical: ast[sel->Stream_0 as int].stream_number,
            via_preference: false,
        }
    } else {
        let pref = rm_sprm(m, 16);
        let ext = (rm_sprm(m, 17) % 256) as u8;
        let pick = match audio_first(0, caps, ast, attrs, pref, ext, 0) {
            Some(n) => Some(n),
            None => match audio_first(1, caps, ast, attrs, pref, ext, 0) {
                Some(n) => Some(n),
                None => audio_first(2, caps, ast, attrs, pref, ext, 0),
            },
        };
        match pick {
            Some(n) => AudioSelection::Selected {
                logical: n as u8,
                physical: ast[n].stream_number,
                via_preference: true,
            },
            None => AudioSelection::NoAudio,
        }
    }
}

/// The first stream found from `i` under any rule is in `i..8` and
/// usable.
pub proof fn lemma_audio_first_usable(
    level: u8,
    caps: AudioCapabilities,
    ast: Seq<AudioStreamControl>,
    attrs: Seq<AudioAttributes>,
    pref: u16,
    ext: u8,
    i: int,
)
    ensures
        audio_first(level, caps, ast, attrs, pref, ext, i) matches Some(n) ==> i <= n < 8
            && audio_usable(caps, ast, attrs, n),
    decreases 8 - i,
{
    if i < 8 && !audio_pred(level, caps, ast, attrs, pref, ext, i) {
        lemma_audio_first_usable(level, caps, ast, attrs, pref, ext, i + 1);
    }
}

/// Whatever the registers, a selected audio stream is one of the eight
/// whose PGC entry is available, routed to that entry's physical stream;
/// SPRM 1 at `15` selects none; a usable stream SPRM 1 names (`0..=7`)
/// is selected as is.
pub proof fn lemma_audio_selection_laws(m: RegModel, ast: Seq<AudioStreamControl>, attrs: Seq<AudioAttributes>)
    requires
        ast.len() == 8,
    ensures
        spec_select_audio(m, ast, attrs) matches AudioSelection::Selected { logical, physical, .. }
            ==> logical < 8 && ast[logical as int].available && physical
            == ast[logical as int].stream_number,
        rm_sprm(m, 1) == 15 ==> spec_select_audio(m, ast, attrs) == AudioSelection::NoAudio,
        (rm_sprm(m, 1) <= 7 && audio_usable(caps_from(rm_sprm(m, 15)), ast, attrs, rm_sprm(m, 1) as int))
            ==> spec_select_audio(m, ast, attrs) == (AudioSelection::Selected {
            logical: rm_sprm(m, 1) as u8,
            physical: ast[rm_sprm(m, 1) as int].stream_number,
            via_preference: false,
        }),
{
    let caps = caps_from(rm_sprm(m, 15));
    let pref = rm_sprm(m, 16);
    let ext = (rm_sprm(m, 17) % 256) as u8;
    lemma_audio_first_usable(0, caps, ast, attrs, pref, ext, 0);
    lemma_audio_first_usable(1, caps, ast, attrs, pref, ext, 0);
    lemma_audio_first_usable(2, caps, ast, attrs, pref, ext, 0);
}

fn lang_matches(pref: Option<[u8; 2]>, code: [u8; 2]) -> (r: bool)
    ensures
        r == (pref matches Some(p) && p@[0] == code@[0] && p@[1] == code@[1]),
{
    match pref {
        Some(p) => p[0] == code[0] && p[1] == code[1],
        None => false,
    }
}

fn audio_usable_at(caps: AudioCapabilities, ast_ctl: &[AudioStreamControl; 8], attrs: &[AudioAttributes], n: usize) -> (r: bool)
    requires
        n < 8,
    ensures
        r == audio_usable(caps, ast_ctl@, attrs@, n as int),
{
    ast_ctl[n].available && (n >= attrs.len() || audio_stream_playable(caps, &attrs[n]))
}

fn audio_first_exec(
    level: u8,
    caps: AudioCapabilities,
    ast_ctl: &[AudioStreamControl; 8],
    attrs: &[AudioAttributes],
    pref_code: Option<[u8; 2]>,
    ext: u8,
    Ghost(pref): Ghost<u16>,
) -> (r: Option<usize>)
    requires
        match pref_code {
            Some(a) => pref != 0xFFFF && a@ == seq![(pref / 256) as u8, (pref % 256) as u8]
                && is_ascii_letter(a@[0]) && is_ascii_letter(a@[1]),
            None => pref == 0xFFFF || !is_ascii_letter((pref / 256) as u8) || !is_ascii_letter(
                (pref % 256) as u8,
            ),
        },
    ensures
        r matches Some(n) ==> n < 8 && audio_first(level, caps, ast_ctl@, attrs@, pref, ext, 0) == Some(n as int),
        r is None ==> audio_first(level, caps, ast_ctl@, attrs@, pref, ext, 0) is None,
{
    let mut n: usize = 0;
    while n < 8
        invariant
            n <= 8,
            audio_first(level, caps, ast_ctl@, attrs@, pref, ext, 0) == audio_first(level, caps, ast_ctl@, attrs@, pref, ext, n as int),
            match pref_code {
                Some(a) => pref != 0xFFFF && a@ == seq![(pref / 256) as u8, (pref % 256) as u8]
                    && is_ascii_letter(a@[0]) && is_ascii_letter(a@[1]),
                None => pref == 0xFFFF || !is_ascii_letter((pref / 256) as u8) || !is_ascii_letter(
                    (pref % 256) as u8,
                ),
            },
        decreases 8 - n,
    {
        let ok = if audio_usable_at(caps, ast_ctl, attrs, n) {
            if level == 2 {
                true
            } else if n < attrs.len() && lang_matches(pref_code, attrs[n].language_code) {
                level == 1 || (ext != 0 && attrs[n].code_extension == ext)
            } else {
                false
            }
        } else {
            false
        };
        if ok {
            return Some(n);
        }
        n = n + 1;
    }
    None
}

/// Pick the audio stream to play from SPRM 1, the PGC's stream table,
/// the title set's audio attributes and the preference registers (see
/// [`spec_select_audio`]).
pub fn select_audio_stream(vm: &Vm, ast_ctl: &[AudioStreamControl; 8], attrs: &[AudioAttributes]) -> (r: AudioSelection)
    ensures
        r == spec_select_audio(vm.model().regs, ast_ctl@, attrs@),
{
    let caps = vm.regs.audio_capabilities();
    assert(caps == caps_from(rm_sprm(vm.model().regs, 15)));
    match vm.regs.audio_stream() {
        AudioStreamSelector::NoStream => return AudioSelection::NoAudio,
        AudioStreamSelector::Stream(n) => {
            if audio_usable_at(caps, ast_ctl, attrs, n as usize) {
                return AudioSelection::Selected {
                    logical: n,
                    physical: ast_ctl[n as usize].stream_number,
                    via_preference: false,
                };
            }
        },
        AudioStreamSelector::Invalid(_) => {},
    }
    let pref_lang = vm.regs.preferred_audio_language();
    let pref_code = pref_lang.ascii_bytes();
    let ext = (vm.regs.sprm(crate::vm::SPRM_PREF_AUDIO_LANG_EXT) % 256) as u8;
    let ghost pref = rm_sprm(vm.model().regs, 16);
    let pick = match audio_first_exec(0, caps, ast_ctl, attrs, pref_code, ext, Ghost(pref)) {
        Some(n) => Some(n),
        None => match audio_first_exec(1, caps, ast_ctl, attrs, pref_code, ext, Ghost(pref)) {
            Some(n) => Some(n),
            None => audio_first_exec(2, caps, ast_ctl, attrs, pref_code, ext, Ghost(pref)),
        },
    };
    match pick {
        Some(n) => AudioSelection::Selected {
            logical: n as u8,
            physical: ast_ctl[n].stream_number,
            via_preference: true,
        },
        None => AudioSelection::NoAudio,
    }
}

/// The SPRM 1 value recording a selection (`15` for no audio).
pub open spec fn audio_selection_value(sel: AudioSelection) -> u16 {
    match sel {
        AudioSelection::Selected { logical, .. } => logical as u16,
        AudioSelection::NoAudio => 15,
    }
}

/// Write a selection back into SPRM 1.
pub fn note_audio_selection(vm: &mut Vm, sel: AudioSelection)
    ensures
        final(vm).model() == (VmModel {
            regs: rm_set_sprm(old(vm).model().regs, 1, audio_selection_value(sel)),
            stack: old(vm).model().stack,
        }),
        final(vm).pc_of() == old(vm).pc_of(),
{
    let value: u16 = match sel {
        AudioSelection::Selected { logical, .. } => logical as u16,
        AudioSelection::NoAudio => 15,
    };
    vm.regs.set_sprm(crate::vm::SPRM_AUDIO_STREAM, value);
}

proof fn lemma_audio_first_range(
    level: u8,
    caps: AudioCapabilities,
    ast: Seq<AudioStreamControl>,
    attrs: Seq<AudioAttributes>,
    pref: u16,
    ext: u8,
    i: int,
)
    requires
        0 <= i,
    ensures
        audio_first(level, caps, ast, attrs, pref, ext, i) matches Some(n) ==> i <= n < 8
            && audio_pred(level, caps, ast, attrs, pref, ext, n),
    decreases 8 - i,
{
    if i < 8 && !audio_pred(level, caps, ast, attrs, pref, ext, i) {
        lemma_audio_first_range(level, caps, ast, attrs, pref, ext, i + 1);
    }
}

/// Writing a selection back into SPRM 1 makes it the registers' own
/// choice: selecting again yields the same stream, now named by SPRM 1
/// (or no audio again).
pub proof fn lemma_noted_audio_selection_is_stable(m: RegModel, ast: Seq<AudioStreamControl>, attrs: Seq<AudioAttributes>)
    requires
        m.s.len() == 24,
        ast.len() == 8,
    ensures
        ({
            let sel = spec_select_audio(m, ast, attrs);
            let again = spec_select_audio(rm_set_sprm(m, 1, audio_selection_value(sel)), ast, attrs);
            match sel {
                AudioSelection::Selected { logical, physical, .. } => again == (AudioSelection::Selected {
                    logical,
                    physical,
                    via_preference: false,
                }),
                AudioSelection::NoAudio => again == AudioSelection::NoAudio,
            }
        }),
{
    let caps = caps_from(rm_sprm(m, 15));
    let pref = rm_sprm(m, 16);
    let ext = (rm_sprm(m, 17) % 256) as u8;
    lemma_audio_first_range(0, caps, ast, attrs, pref, ext, 0);
    lemma_audio_first_range(1, caps, ast, attrs, pref, ext, 0);
    lemma_audio_first_range(2, caps, ast, attrs, pref, ext, 0);
}

/// The sub-picture display column for the player's video preference:
/// pan&scan and letterbox name their columns; otherwise 16:9 means
/// wide and anything else 4:3.
pub open spec fn spec_display_mode(pref: VideoPreference) -> SubpictureDisplay {
    match pref.mode {
        DisplayMode::PanScan => SubpictureDisplay::PanScan,
        DisplayMode::Letterbox => SubpictureDisplay::Letterbox,
        _ => if pref.aspect is Ar16x9 {
            SubpictureDisplay::Wide
        } else {
            SubpictureDisplay::Ratio4x3
        },
    }
}

/// The sub-picture display column for a video preference (see
/// [`spec_display_mode`]).
pub fn subpicture_display_mode(pref: VideoPreference) -> (r: SubpictureDisplay)
    ensures
        r == spec_display_mode(pref),
{
    match pref.mode {
        DisplayMode::PanScan => SubpictureDisplay::PanScan,
        DisplayMode::Letterbox => SubpictureDisplay::Letterbox,
        DisplayMode::Normal | DisplayMode::Reserved => match pref.aspect {
            AspectRatio::Ar16x9 => SubpictureDisplay::Wide,
            _ => SubpictureDisplay::Ratio4x3,
        },
    }
}

/// A resolved sub-picture choice.
#[derive(Debug, Clone, Copy, PartialEq, Eq)]
pub enum SubpictureSelection {
    /// Route logical stream `logical` to physical sub-stream `physical`.
    Selected {
        /// Logical stream.
        logical: u8,
        /// Physical sub-stream.
        physical: u8,
        /// SPRM 2's display flag.
        display: bool,
        /// SPRM 2 asked for forced sub-pictures only.
        forced_only: bool,
    },
    /// No sub-picture stream.
    NoStream,
}

/// The display column for registers `m`.
pub open spec fn mode_of(m: RegModel) -> SubpictureDisplay {
    let raw = rm_sprm(m, 14);
    spec_display_mode(
        VideoPreference {
            aspect: AspectRatio::from_bits(((raw / 1024) % 4) as u8),
            mode: DisplayMode::from_bits(((raw / 256) % 4) as u8),
            raw,
        },
    )
}

/// The first available sub-picture stream in `i..32` whose attribute
/// language is `pref` (any available one when `!by_lang`).
pub open spec fn subpicture_first(
    spst: Seq<SubpictureStreamControl>,
    attrs: Seq<SubpictureAttributes>,
    pref: u16,
    by_lang: bool,
    i: int,
) -> Option<int>
    decreases 32 - i,
{
    if i >= 32 {
        None
    } else if spst[i].available && (!by_lang || (i < attrs.len() && lang_is(pref, attrs[i].language_code))) {
        Some(i)
    } else {
        subpicture_first(spst, attrs, pref, by_lang, i + 1)
    }
}

/// The sub-picture choice for registers `m`: SPRM 2's `62` means none;
/// an available stream it names (not `63`) is taken; otherwise the
/// first available stream in SPRM 18's language, or, only under the
/// forced-only value `63`, the first available stream.
pub open spec fn spec_select_subpicture(
    m: RegModel,
    spst: Seq<SubpictureStreamControl>,
    attrs: Seq<SubpictureAttributes>,
) -> SubpictureSelection {
    let raw = rm_sprm(m, 2);
    let stream = (raw % 64) as u8;
    let display = (raw / 64) % 2 == 1;
    let mode = mode_of(m);
    if stream == 62 {
        SubpictureSelection::NoStream
    } else {
        let forced = stream == 63;
        if !forced && stream < 32 && spec_resolve(spst[stream as int], mode) is Some {
            SubpictureSelection::Selected {
                logical: stream,
                physical: spec_resolve(spst[stream as int], mode)->0,
                display,
                forced_only: false,
            }
        } else {
            let pref = rm_sprm(m, 18);
            let pick = match subpicture_first(spst, attrs, pref, true, 0) {
                Some(n) => Some(n),
                None => if forced {
                    subpicture_first(spst, attrs, pref, false, 0)
                } else {
                    None
                },
            };
            match pick {
                Some(n) => match spec_resolve(spst[n], mode) {
                    Some(p) => SubpictureSelection::Selected {
                        logical: n as u8,
                        physical: p,
                        display,
                        forced_only: forced,
                    },
                    None => SubpictureSelection::NoStream,
                },
                None => SubpictureSelection::NoStream,
            }
        }
    }
}

fn subpicture_first_exec(
    spst_ctl: &[SubpictureStreamControl; 32],
    attrs: &[SubpictureAttributes],
    pref_code: Option<[u8; 2]>,
    by_lang: bool,
    Ghost(pref): Ghost<u16>,
) -> (r: Option<usize>)
    requires
        match pref_code {
            Some(a) => pref != 0xFFFF && a@ == seq![(pref / 256) as u8, (pref % 256) as u8]
                && is_ascii_letter(a@[0]) && is_ascii_letter(a@[1]),
            None => pref == 0xFFFF || !is_ascii_letter((pref / 256) as u8) || !is_ascii_letter(
                (pref % 256) as u8,
            ),
        },
    ensures
        r matches Some(n) ==> n < 32 && subpicture_first(spst_ctl@, attrs@, pref, by_lang, 0) == Some(n as int),
        r is None ==> subpicture_first(spst_ctl@, attrs@, pref, by_lang, 0) is None,
{
    let mut n: usize = 0;
    while n < 32
        invariant
            n <= 32,
            subpicture_first(spst_ctl@, attrs@, pref, by_lang, 0) == subpicture_first(spst_ctl@, attrs@, pref, by_lang, n as int),
            match pref_code {
                Some(a) => pref != 0xFFFF && a@ == seq![(pref / 256) as u8, (pref % 256) as u8]
                    && is_ascii_letter(a@[0]) && is_ascii_letter(a@[1]),
                None => pref == 0xFFFF || !is_ascii_letter((pref / 256) as u8) || !is_ascii_letter(
                    (pref % 256) as u8,
                ),
            },
        decreases 32 - n,
    {
        let ok = spst_ctl[n].available && (!by_lang || (n < attrs.len() && lang_matches(pref_code, attrs[n].language_code)));
        if ok {
            return Some(n);
        }
        n = n + 1;
    }
    None
}

/// The column of a stream-control entry that SPRM 14 asks for: display
/// mode bits 9..8 at `1` pan&scan, at `2` letterbox; otherwise wide when
/// the aspect bits 11..10 say 16:9, else 4:3.
pub open spec fn sprm14_column(raw14: u16, c: SubpictureStreamControl) -> u8 {
    let mode = (raw14 / 256) % 4;
    if mode == 1 {
        c.stream_pan_scan
    } else if mode == 2 {
        c.stream_letterbox
    } else if (raw14 / 1024) % 4 == 3 {
        c.stream_wide
    } else {
        c.stream_4x3
    }
}

/// The first stream found from `i` is in `i..32` and available.
pub proof fn lemma_subpicture_first_available(
    spst: Seq<SubpictureStreamControl>,
    attrs: Seq<SubpictureAttributes>,
    pref: u16,
    by_lang: bool,
    i: int,
)
    ensures
        subpicture_first(spst, attrs, pref, by_lang, i) matches Some(n) ==> i <= n < 32
            && spst[n].available,
    decreases 32 - i,
{
    if i < 32 && !(spst[i].available && (!by_lang || (i < attrs.len() && lang_is(
        pref,
        attrs[i].language_code,
    )))) {
        lemma_subpicture_first_available(spst, attrs, pref, by_lang, i + 1);
    }
}

/// Whatever the registers, a selected sub-picture stream is one of the
/// 32 whose PGC entry is available, routed to the column of that entry
/// that SPRM 14's display mode names, with SPRM 2's display flag.
pub proof fn lemma_subpicture_selection_reads_column(
    m: RegModel,
    spst: Seq<SubpictureStreamControl>,
    attrs: Seq<SubpictureAttributes>,
)
    requires
        spst.len() == 32,
    ensures
        spec_select_subpicture(m, spst, attrs) matches SubpictureSelection::Selected {
            logical,
            physical,
            display,
            ..
        } ==> logical < 32 && spst[logical as int].available && physical == sprm14_column(
            rm_sprm(m, 14),
            spst[logical as int],
        ) && display == ((rm_sprm(m, 2) / 64) % 2 == 1),
{
    let pref = rm_sprm(m, 18);
    lemma_subpicture_first_available(spst, attrs, pref, true, 0);
    lemma_subpicture_first_available(spst, attrs, pref, false, 0);
}

/// When SPRM 2 names an ordinary stream (`0..32`) whose PGC entry is
/// available, that stream is selected, routed to the sub-stream of the
/// column SPRM 14's display mode names, with SPRM 2's display flag.
pub proof fn lemma_subpicture_uses_display_column(
    m: RegModel,
    spst: Seq<SubpictureStreamControl>,
    attrs: Seq<SubpictureAttributes>,
)
    requires
        rm_sprm(m, 2) % 64 < 32,
        spst.len() == 32,
        spst[(rm_sprm(m, 2) % 64) as int].available,
    ensures
        spec_select_subpicture(m, spst, attrs) == (SubpictureSelection::Selected {
            logical: (rm_sprm(m, 2) % 64) as u8,
            physical: sprm14_column(rm_sprm(m, 14), spst[(rm_sprm(m, 2) % 64) as int]),
            display: (rm_sprm(m, 2) / 64) % 2 == 1,
            forced_only: false,
        }),
{
}

/// Pick the sub-picture stream from SPRM 2, the PGC's stream table
/// resolved for the SPRM 14 display column, and SPRM 18's language
/// (see [`spec_select_subpicture`]).
pub fn select_subpicture_stream(
    vm: &Vm,
    spst_ctl: &[SubpictureStreamControl; 32],
    attrs: &[SubpictureAttributes],
) -> (r: SubpictureSelection)
    ensures
        r == spec_select_subpicture(vm.model().regs, spst_ctl@, attrs@),
{
    let view = vm.regs.subpicture_stream();
    let mode = subpicture_display_mode(vm.regs.video_preference());
    if view.is_none_sentinel() {
        return SubpictureSelection::NoStream;
    }
    let forced_only = view.is_forced_sentinel();
    if !forced_only && (view.stream as usize) < 32 {
        match spst_ctl[view.stream as usize].resolve(mode) {
            Some(physical) => {
                return SubpictureSelection::Selected {
                    logical: view.stream,
                    physical,
                    display: view.display,
                    forced_only: false,
                };
            },
            None => {},
        }
    }
    let pref = vm.regs.preferred_subpicture_language();
    let pref_code = pref.ascii_bytes();
    let ghost pref_raw = rm_sprm(vm.model().regs, 18);
    let pick = match subpicture_first_exec(spst_ctl, attrs, pref_code, true, Ghost(pref_raw)) {
        Some(n) => Some(n),
        None => if forced_only {
            subpicture_first_exec(spst_ctl, attrs, pref_code, false, Ghost(pref_raw))
        } else {
            None
        },
    };
    match pick {
        Some(n) => match spst_ctl[n].resolve(mode) {
            Some(physical) => SubpictureSelection::Selected {
                logical: n as u8,
                physical,
                display: view.display,
                forced_only,
            },
            None => SubpictureSelection::NoStream,
        },
        None => SubpictureSelection::NoStream,
    }
}


/// What one karaoke source channel carries.
#[derive(Debug, Clone, Copy, Default, PartialEq, Eq)]
pub struct KaraokeChannelContent {
    /// Guide vocal 1.
    pub guide_vocal_1: bool,
    /// Guide vocal 2.
    pub guide_vocal_2: bool,
    /// Primary guide melody (melody 1 / A / B on channels 2 / 3 / 4).
    pub guide_melody_primary: bool,
    /// Secondary guide melody (melody 2, channel 2 only).
    pub guide_melody_secondary: bool,
    /// Sound effect (A / B on channels 3 / 4).
    pub sound_effect: bool,
}

/// One row of the karaoke mix plan.
#[derive(Debug, Clone, Copy, PartialEq, Eq)]
pub struct KaraokeChannelRoute {
    /// Source channel (`2..=4`).
    pub channel: u8,
    /// SPRM 11 mixes it into the front.
    pub to_front: bool,
    /// SPRM 11 mixes it into the rear.
    pub to_rear: bool,
    /// What the title says the channel carries.
    pub content: KaraokeChannelContent,
}

/// The karaoke mix plan for channels 2, 3 and 4: SPRM 11's mix
/// destinations with the stream's channel contents.
pub open spec fn spec_karaoke_routing(mix: AudioMixMode, mc: McExtensionEntry) -> Seq<KaraokeChannelRoute> {
    seq![
        KaraokeChannelRoute {
            channel: 2,
            to_front: mix.mix_2_to_front,
            to_rear: mix.mix_2_to_rear,
            content: KaraokeChannelContent {
                guide_vocal_1: mc.ach2_guide_vocal_1,
                guide_vocal_2: mc.ach2_guide_vocal_2,
                guide_melody_primary: mc.ach2_guide_melody_1,
                guide_melody_secondary: mc.ach2_guide_melody_2,
                sound_effect: false,
            },
        },
        KaraokeChannelRoute {
            channel: 3,
            to_front: mix.mix_3_to_front,
            to_rear: mix.mix_3_to_rear,
            content: KaraokeChannelContent {
                guide_vocal_1: mc.ach3_guide_vocal_1,
                guide_vocal_2: mc.ach3_guide_vocal_2,
                guide_melody_primary: mc.ach3_guide_melody_a,
                guide_melody_secondary: false,
                sound_effect: mc.ach3_sound_effect_a,
            },
        },
        KaraokeChannelRoute {
            channel: 4,
            to_front: mix.mix_4_to_front,
            to_rear: mix.mix_4_to_rear,
            content: KaraokeChannelContent {
                guide_vocal_1: mc.ach4_guide_vocal_1,
                guide_vocal_2: mc.ach4_guide_vocal_2,
                guide_melody_primary: mc.ach4_guide_melody_b,
                guide_melody_secondary: false,
                sound_effect: mc.ach4_sound_effect_b,
            },
        },
    ]
}

/// Combine SPRM 11's karaoke mix with a stream's multichannel
/// extension (see [`spec_karaoke_routing`]).
pub fn karaoke_routing(mix: AudioMixMode, mc: &McExtensionEntry) -> (r: [KaraokeChannelRoute; 3])
    ensures
        r@ == spec_karaoke_routing(mix, *mc),
{
    let r = [
        KaraokeChannelRoute {
            channel: 2,
            to_front: mix.mix_2_to_front,
            to_rear: mix.mix_2_to_rear,
            content: KaraokeChannelContent {
                guide_vocal_1: mc.ach2_guide_vocal_1,
                guide_vocal_2: mc.ach2_guide_vocal_2,
                guide_melody_primary: mc.ach2_guide_melody_1,
                guide_melody_secondary: mc.ach2_guide_melody_2,
                sound_effect: false,
            },
        },
        KaraokeChannelRoute {
            channel: 3,
            to_front: mix.mix_3_to_front,
            to_rear: mix.mix_3_to_rear,
            content: KaraokeChannelContent {
                guide_vocal_1: mc.ach3_guide_vocal_1,
                guide_vocal_2: mc.ach3_guide_vocal_2,
                guide_melody_primary: mc.ach3_guide_melody_a,
                guide_melody_secondary: false,
                sound_effect: mc.ach3_sound_effect_a,
            },
        },
        KaraokeChannelRoute {
            channel: 4,
            to_front: mix.mix_4_to_front,
            to_rear: mix.mix_4_to_rear,
            content: KaraokeChannelContent {
                guide_vocal_1: mc.ach4_guide_vocal_1,
                guide_vocal_2: mc.ach4_guide_vocal_2,
                guide_melody_primary: mc.ach4_guide_melody_b,
                guide_melody_secondary: false,
                sound_effect: mc.ach4_sound_effect_b,
            },
        },
    ];
    assert(r@ =~= spec_karaoke_routing(mix, *mc));
    r
}

/// Scan direction for trick play.
#[derive(Debug, Clone, Copy, PartialEq, Eq)]
pub enum ScanDirection {
    /// Fast-forward.
    Forward,
    /// Rewind.
    Backward,
}

/// The outcome of one trick-play step.
#[derive(Debug, Clone, Copy, PartialEq, Eq)]
pub enum TrickStep {
    /// Seek to the nav pack at logical block `lbn`; `finer_steps_available`
    /// when VOBUs lie between here and there.
    Jump {
        /// Absolute logical block.
        lbn: u32,
        /// Intermediate VOBUs exist.
        finer_steps_available: bool,
    },
    /// No further VOBU with video in this direction.
    NoMoreVideo,
    /// No VOBU of this cell serves the step; continue in the next cell.
    CellBoundary,
}

/// Trick play may run: the cell is not restricted and the mask allows
/// the direction's scan (forward scan bit 8, backward scan bit 9).
pub fn scan_permitted(direction: ScanDirection, uops: UopMask, cell_restricted: bool) -> (r: bool)
    ensures
        r == (!cell_restricted && !bit_set(
            uops@,
            match direction {
                ScanDirection::Forward => 8u32,
                ScanDirection::Backward => 9u32,
            },
        )),
{
    if cell_restricted {
        return false;
    }
    let op = match direction {
        ScanDirection::Forward => UserOp::ForwardScan,
        ScanDirection::Backward => UserOp::BackwardScan,
    };
    uops.is_allowed(op)
}

/// A VOBU search pointer that is marked valid but names no VOBU with
/// video in its direction.
pub const SRI_NO_VIDEO_VOBU: u32 = 0xBFFF_FFFF;

/// The sector offset a search pointer carries: its low 30 bits, when
/// bit 31 marks it valid and it is not [`SRI_NO_VIDEO_VOBU`].
pub open spec fn sri_offset(raw: u32) -> Option<u32> {
    if raw >= 0x8000_0000 && raw != SRI_NO_VIDEO_VOBU {
        Some((raw % 0x4000_0000) as u32)
    } else {
        None
    }
}

/// `a - b`, or `0` when `b` is larger.
pub open spec fn sat_sub32(a: u32, b: u32) -> u32 {
    if a >= b {
        (a - b) as u32
    } else {
        0
    }
}

/// Where one trick-play step from the nav pack at `lbn` lands, by the
/// search pointer `raw`: the pack its offset names (forward added,
/// backward subtracted, saturating), with bit 30 telling whether VOBUs
/// lie in between; no more video for [`SRI_NO_VIDEO_VOBU`]; the cell's
/// edge for any other pointer without an offset.
pub open spec fn spec_scan_target(lbn: u32, direction: ScanDirection, raw: u32) -> TrickStep {
    match sri_offset(raw) {
        Some(off) => TrickStep::Jump {
            lbn: match direction {
                ScanDirection::Forward => if lbn + off > u32::MAX {
                    u32::MAX
                } else {
                    (lbn + off) as u32
                },
                ScanDirection::Backward => sat_sub32(lbn, off),
            },
            finer_steps_available: (raw / 0x4000_0000) % 2 == 1,
        },
        None => if raw == SRI_NO_VIDEO_VOBU {
            TrickStep::NoMoreVideo
        } else {
            TrickStep::CellBoundary
        },
    }
}

/// One trick-play step from the nav pack at `lbn` by search pointer
/// `raw` (see [`spec_scan_target`]).
pub fn scan_target(lbn: u32, direction: ScanDirection, raw: u32) -> (r: TrickStep)
    ensures
        r == spec_scan_target(lbn, direction, raw),
{
    if raw >= 0x8000_0000 && raw != SRI_NO_VIDEO_VOBU {
        let off = raw % 0x4000_0000;
        let lbn2 = match direction {
            ScanDirection::Forward => lbn.saturating_add(off),
            ScanDirection::Backward => lbn.saturating_sub(off),
        };
        TrickStep::Jump { lbn: lbn2, finer_steps_available: (raw / 0x4000_0000) % 2 == 1 }
    } else if raw == SRI_NO_VIDEO_VOBU {
        TrickStep::NoMoreVideo
    } else {
        TrickStep::CellBoundary
    }
}

/// Index of the search-information word pointing at the next
/// (forward) or previous (backward) VOBU with video.
pub open spec fn bracket_word(direction: ScanDirection) -> int {
    match direction {
        ScanDirection::Forward => 0,
        ScanDirection::Backward => 41,
    }
}

/// The finest video-to-video stride: the search pointer to the next or
/// previous VOBU with video.
pub fn video_bracket(sri: &VobuSri, direction: ScanDirection) -> (r: u32)
    requires
        sri.words@.len() == VobuSri::WORD_COUNT,
    ensures
        r == sri.words@[bracket_word(direction)],
{
    match direction {
        ScanDirection::Forward => sri.words[0],
        ScanDirection::Backward => sri.words[41],
    }
}

/// The stride of span bucket `k` (`0..19`) in half seconds, longest
/// first: 120 s, 60 s, 30 s, 10 s, then 7.5 s down to 0.5 s in half
/// seconds.
pub open spec fn span_half_seconds(k: int) -> int {
    if k == 0 {
        240
    } else if k == 1 {
        120
    } else if k == 2 {
        60
    } else if k == 3 {
        20
    } else {
        19 - k
    }
}

/// Index of the search-information word of span bucket `k`: forward
/// buckets follow the forward bracket; backward buckets run in the
/// opposite order before the backward bracket.
pub open spec fn span_word(direction: ScanDirection, k: int) -> int {
    match direction {
        ScanDirection::Forward => 1 + k,
        ScanDirection::Backward => 22 + (18 - k),
    }
}

/// The first span bucket from `k` on (longest stride first) whose
/// stride does not exceed `half_seconds` and whose pointer is marked
/// valid.
pub open spec fn spec_span_from(words: Seq<u32>, direction: ScanDirection, half_seconds: u32, k: int) -> Option<u32>
    decreases 19 - k,
{
    if k < 0 || k >= 19 {
        None
    } else if span_half_seconds(k) <= half_seconds && words[span_word(direction, k)] >= 0x8000_0000 {
        Some(words[span_word(direction, k)])
    } else {
        spec_span_from(words, direction, half_seconds, k + 1)
    }
}

fn span_stride(k: usize) -> (r: u32)
    requires
        k < 19,
    ensures
        r == span_half_seconds(k as int),
{
    if k == 0 {
        240
    } else if k == 1 {
        120
    } else if k == 2 {
        60
    } else if k == 3 {
        20
    } else {
        (19 - k) as u32
    }
}

/// The coarse stride of a step of `half_seconds` half seconds: the
/// pointer of the longest span bucket that does not overshoot it and is
/// authored, if any (see [`spec_span_from`]).
pub fn span_pointer(sri: &VobuSri, direction: ScanDirection, half_seconds: u32) -> (r: Option<u32>)
    requires
        sri.words@.len() == VobuSri::WORD_COUNT,
    ensures
        r == spec_span_from(sri.words@, direction, half_seconds, 0),
{
    let mut k: usize = 0;
    while k < 19
        invariant
            sri.words@.len() == 42,
            k <= 19,
            spec_span_from(sri.words@, direction, half_seconds, 0) == spec_span_from(
                sri.words@,
                direction,
                half_seconds,
                k as int,
            ),
        decreases 19 - k,
    {
        let w = match direction {
            ScanDirection::Forward => 1 + k,
            ScanDirection::Backward => 22 + (18 - k),
        };
        let raw = sri.words[w];
        if span_stride(k) <= half_seconds && raw >= 0x8000_0000 {
            return Some(raw);
        }
        k = k + 1;
    }
    None
}

/// The absolute sectors a fast-play pass reads to decode the VOBU's
/// first `count` reference frames: from the nav pack to the `count`-th
/// reference frame's end (saturating). `None` for `count` outside
/// `1..=3` or an unauthored (zero) end address.
pub fn reference_frame_span(dsi: &DsiPacket, count: u8) -> (r: Option<(u32, u32)>)
    ensures
        ({
            let gi = dsi.general_info;
            let ea: u32 = if count == 1 {
                gi.vobu_1stref_ea
            } else if count == 2 {
                gi.vobu_2ndref_ea
            } else {
                gi.vobu_3rdref_ea
            };
            if !(1 <= count <= 3) || ea == 0 {
                r is None
            } else {
                r == Some(
                    (
                        gi.nv_pck_lbn,
                        if gi.nv_pck_lbn + ea > u32::MAX {
                            u32::MAX
                        } else {
                            (gi.nv_pck_lbn + ea) as u32
                        },
                    ),
                )
            }
        }),
{
    let gi = &dsi.general_info;
    let ea = match count {
        1 => gi.vobu_1stref_ea,
        2 => gi.vobu_2ndref_ea,
        3 => gi.vobu_3rdref_ea,
        _ => return None,
    };
    if ea == 0 {
        return None;
    }
    let end = if gi.nv_pck_lbn > u32::MAX - ea {
        u32::MAX
    } else {
        gi.nv_pck_lbn + ea
    };
    Some((gi.nv_pck_lbn, end))
}


proof fn lemma_block_tail_bound(cells: Seq<CellPlaybackInfo>, i: int)
    requires
        0 <= i,
    ensures
        block_tail(cells, i) <= if i <= cells.len() {
            cells.len() - i
        } else {
            0
        },
    decreases cells.len() - i,
{
    if 0 <= i < cells.len() {
        lemma_block_tail_bound(cells, i + 1);
    }
}

proof fn lemma_cell_for_angle_range(cells: Seq<CellPlaybackInfo>, cell: u8, angle: u8)
    requires
        1 <= cell <= cells.len(),
    ensures
        cell <= spec_cell_for_angle(cells, cell, angle) <= cells.len(),
{
    lemma_block_tail_bound(cells, cell as int);
}

/// The `PlayCell` event of cell `c` of `pgc`.
pub open spec fn play_event(pgc: Pgc, c: u8) -> PlaybackEvent {
    PlaybackEvent::PlayCell {
        cell: c,
        program: program_or_first(pgc, c),
        first_sector: pgc.cells@[c - 1].first_vobu_start_sector,
        last_sector: pgc.cells@[c - 1].last_vobu_end_sector,
        still: StillTime::from_byte(pgc.cells@[c - 1].still_time),
    }
}

/// The report at the end of a PGC's cells: its still when it has one,
/// else the next PGC or `Finished`.
pub open spec fn end_of_cells(pgc: Pgc, m: VmModel) -> (RunnerState, VmModel, PlaybackEvent) {
    if pgc.still_time != 0 {
        (RunnerState::Post { pc: 0 }, m, PlaybackEvent::PgcStill { still: StillTime::from_byte(pgc.still_time) })
    } else if pgc.next_pgcn == 0 {
        (RunnerState::Finished, m, PlaybackEvent::Finished)
    } else {
        (RunnerState::Finished, m, PlaybackEvent::NextPgc { pgcn: pgc.next_pgcn })
    }
}

/// Without commands, the runner presents the PGC's cell walk: the first
/// call from the top presents the first cell at the current angle, and
/// each call after a presented cell presents the cell after it (the
/// rest of an angle block skipped), until the walk ends in the PGC's
/// still, the next PGC or `Finished`; the machine is left alone.
pub proof fn lemma_plain_pgc_walk(pgc: Pgc, pgcn: u16, m: VmModel, c: u8, fuel: nat)
    requires
        pgc.commands is None,
        fuel >= 3,
    ensures
        runner_spec(pgc, pgcn, RunnerState::Pre { pc: 0 }, m, fuel) == match spec_first_cell(
            pgc.cells@,
            angle_spec(m.regs),
        ) {
            Some(c1) => (RunnerState::AfterCell { cell: c1, command_done: false }, m, play_event(pgc, c1)),
            None => if pgc.next_pgcn == 0 {
                (RunnerState::Finished, m, PlaybackEvent::Finished)
            } else {
                (RunnerState::Finished, m, PlaybackEvent::NextPgc { pgcn: pgc.next_pgcn })
            },
        },
        1 <= c <= pgc.cells@.len() ==> runner_spec(
            pgc,
            pgcn,
            RunnerState::AfterCell { cell: c, command_done: false },
            m,
            fuel,
        ) == match spec_next_cell(pgc.cells@, c, angle_spec(m.regs)) {
            Some(n) => (RunnerState::AfterCell { cell: n, command_done: false }, m, play_event(pgc, n)),
            None => end_of_cells(pgc, m),
        },
{
    let angle = angle_spec(m.regs);
    let empty = Seq::<NavCommand>::empty();
    assert(pre_commands(pgc) == empty);
    assert(post_commands(pgc) == empty);
    assert(run_spec(m, empty, 0, run_budget(0)) == (m, VmAction::Continue, 0int));
    if pgc.cells@.len() >= 1 {
        lemma_cell_for_angle_range(pgc.cells@, 1, angle);
    }
    if 1 <= c <= pgc.cells@.len() {
        let j = skip_continuations(pgc.cells@, c as int);
        lemma_skip_range(pgc.cells@, c as int);
        if j < pgc.cells@.len() && j + 1 <= 255 {
            lemma_cell_for_angle_range(pgc.cells@, (j + 1) as u8, angle);
        }
    }
    reveal_with_fuel(runner_spec, 4);
}

proof fn lemma_skip_range(cells: Seq<CellPlaybackInfo>, i: int)
    requires
        0 <= i,
    ensures
        i <= skip_continuations(cells, i),
        i <= cells.len() ==> skip_continuations(cells, i) <= cells.len(),
    decreases cells.len() - i,
{
    if 0 <= i < cells.len() && continues_block(cells[i]) {
        lemma_skip_range(cells, i + 1);
    }
}

} // verus!
