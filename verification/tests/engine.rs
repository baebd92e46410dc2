use oxideav_dvd::engine::{
    activate_button, audio_stream_playable, forced_action, initial_button, karaoke_routing,
    link_highlight_button, navigate_button, note_audio_selection, note_title_position,
    plan_title_cells, reference_frame_span, resolve_action, resolve_link, scan_permitted,
    select_audio_stream, select_button, select_subpicture_stream, subpicture_display_mode,
    target_domain, transition_permitted, AudioSelection, ButtonMove, ButtonPress, Domain,
    JumpResolution, LinkOutcome, PgcPosition, PgcRunner, PlaybackEvent, ResumeContext,
    ScanDirection, StillClock, StillPhase, SubpictureSelection,
};
use oxideav_dvd::nav::{CallSSTarget, JumpSSTarget};
use oxideav_dvd::vm::VmAction;
use oxideav_dvd::ifo::NavCommand;
use oxideav_dvd::vm::{LinkAction, ResumePoint};

fn jump_ss(t: JumpSSTarget) -> VmAction {
    VmAction::JumpSs(t)
}

fn call_ss(t: CallSSTarget) -> VmAction {
    VmAction::CallSs(t)
}

// ---- target_domain --------------------------------------------

#[test]
fn target_domain_of_transfers() {
    assert_eq!(
        target_domain(&VmAction::JumpTitle { ttn: 3 }),
        Some(Domain::VtsTitle)
    );
    assert_eq!(
        target_domain(&VmAction::JumpVtsTitle { ttn: 1 }),
        Some(Domain::VtsTitle)
    );
    assert_eq!(
        target_domain(&VmAction::JumpVtsPtt { ttn: 1, pttn: 4 }),
        Some(Domain::VtsTitle)
    );
    assert_eq!(
        target_domain(&jump_ss(JumpSSTarget::FirstPlay)),
        Some(Domain::FirstPlay)
    );
    assert_eq!(
        target_domain(&jump_ss(JumpSSTarget::VmgmMenu { menu: 2 })),
        Some(Domain::VideoManager)
    );
    assert_eq!(
        target_domain(&jump_ss(JumpSSTarget::VmgmPgcn { pgcn: 7 })),
        Some(Domain::VideoManager)
    );
    assert_eq!(
        target_domain(&jump_ss(JumpSSTarget::VtsmMenu {
            vts: 1,
            ttn: 1,
            menu: 3
        })),
        Some(Domain::VtsMenu)
    );
    assert_eq!(
        target_domain(&call_ss(CallSSTarget::FirstPlay { rsm_cell: 0 })),
        Some(Domain::FirstPlay)
    );
    assert_eq!(
        target_domain(&call_ss(CallSSTarget::VtsmMenu {
            menu: 3,
            rsm_cell: 0
        })),
        Some(Domain::VtsMenu)
    );
    assert_eq!(
        target_domain(&call_ss(CallSSTarget::VmgmPgcn {
            pgcn: 9,
            rsm_cell: 0
        })),
        Some(Domain::VideoManager)
    );
}

#[test]
fn target_domain_none_for_non_transfers() {
    assert_eq!(target_domain(&VmAction::Continue), None);
    assert_eq!(target_domain(&VmAction::Break), None);
    assert_eq!(target_domain(&VmAction::Exit), None);
    assert_eq!(
        target_domain(&VmAction::Link(LinkAction::Pgcn { pgcn: 2 })),
        None
    );
    assert_eq!(
        target_domain(&VmAction::Resume(ResumePoint {
            resume_cell: 0,
            hl_btn: 0
        })),
        None
    );
}

// ---- transition_permitted: First Play (rows 1..3) --------------

#[test]
fn first_play_rows() {
    let d = Domain::FirstPlay;
    // Row 1 — VMG title menu or any PGC in VMG.
    assert!(transition_permitted(
        d,
        &jump_ss(JumpSSTarget::VmgmMenu { menu: 2 }),
        0
    ));
    assert!(transition_permitted(
        d,
        &jump_ss(JumpSSTarget::VmgmPgcn { pgcn: 3 }),
        0
    ));
    // Row 2 — VTS menu domain root menu.
    assert!(transition_permitted(
        d,
        &jump_ss(JumpSSTarget::VtsmMenu {
            vts: 2,
            ttn: 1,
            menu: 3
        }),
        0
    ));
    // Row 3 — VTS title domain.
    assert!(transition_permitted(d, &VmAction::JumpTitle { ttn: 1 }, 0));
    // Not in the table: self-jump, CallSS, VTS-internal jumps, RSM.
    assert!(!transition_permitted(
        d,
        &jump_ss(JumpSSTarget::FirstPlay),
        0
    ));
    assert!(!transition_permitted(
        d,
        &call_ss(CallSSTarget::FirstPlay { rsm_cell: 0 }),
        0
    ));
    assert!(!transition_permitted(
        d,
        &VmAction::JumpVtsTitle { ttn: 1 },
        0
    ));
    assert!(!transition_permitted(
        d,
        &VmAction::Resume(ResumePoint {
            resume_cell: 0,
            hl_btn: 0
        }),
        0
    ));
}

// ---- transition_permitted: Video Manager (rows 4..6) -----------

#[test]
fn vmg_rows() {
    let d = Domain::VideoManager;
    // Row 4 — First Play.
    assert!(transition_permitted(
        d,
        &jump_ss(JumpSSTarget::FirstPlay),
        0
    ));
    // Row 5 — VTS menu root.
    assert!(transition_permitted(
        d,
        &jump_ss(JumpSSTarget::VtsmMenu {
            vts: 1,
            ttn: 1,
            menu: 3
        }),
        0
    ));
    // Row 6 — VTS title + resume.
    assert!(transition_permitted(d, &VmAction::JumpTitle { ttn: 2 }, 0));
    assert!(transition_permitted(
        d,
        &VmAction::Resume(ResumePoint {
            resume_cell: 0,
            hl_btn: 0
        }),
        0
    ));
    // Intra-VMG JumpSS is not in the table (Link territory).
    assert!(!transition_permitted(
        d,
        &jump_ss(JumpSSTarget::VmgmMenu { menu: 2 }),
        0
    ));
    assert!(!transition_permitted(
        d,
        &jump_ss(JumpSSTarget::VmgmPgcn { pgcn: 5 }),
        0
    ));
    // CallSS is a title-domain exit only.
    assert!(!transition_permitted(
        d,
        &call_ss(CallSSTarget::VtsmMenu {
            menu: 3,
            rsm_cell: 0
        }),
        0
    ));
    // JumpVTS_* need a current VTS.
    assert!(!transition_permitted(
        d,
        &VmAction::JumpVtsTitle { ttn: 1 },
        0
    ));
}

// ---- transition_permitted: VTS Menu (rows 7..9) ------------------

#[test]
fn vts_menu_rows() {
    let d = Domain::VtsMenu;
    // Row 7 — First Play.
    assert!(transition_permitted(
        d,
        &jump_ss(JumpSSTarget::FirstPlay),
        2
    ));
    // Row 8 — VMG menu / PGC.
    assert!(transition_permitted(
        d,
        &jump_ss(JumpSSTarget::VmgmMenu { menu: 2 }),
        2
    ));
    assert!(transition_permitted(
        d,
        &jump_ss(JumpSSTarget::VmgmPgcn { pgcn: 4 }),
        2
    ));
    // Row 9 — same-VTS title / PTT / resume.
    assert!(transition_permitted(
        d,
        &VmAction::JumpVtsTitle { ttn: 1 },
        2
    ));
    assert!(transition_permitted(
        d,
        &VmAction::JumpVtsPtt { ttn: 1, pttn: 3 },
        2
    ));
    assert!(transition_permitted(
        d,
        &VmAction::Resume(ResumePoint {
            resume_cell: 0,
            hl_btn: 0
        }),
        2
    ));
    // Same-VTS menu jump = intra-domain movement, passes.
    assert!(transition_permitted(
        d,
        &jump_ss(JumpSSTarget::VtsmMenu {
            vts: 2,
            ttn: 1,
            menu: 5
        }),
        2
    ));
    // "another VTS menu domain — not allowed".
    assert!(!transition_permitted(
        d,
        &jump_ss(JumpSSTarget::VtsmMenu {
            vts: 3,
            ttn: 1,
            menu: 3
        }),
        2
    ));
    // JumpTT is a FP/VMG instruction.
    assert!(!transition_permitted(d, &VmAction::JumpTitle { ttn: 1 }, 2));
    // CallSS is a title-domain exit only.
    assert!(!transition_permitted(
        d,
        &call_ss(CallSSTarget::FirstPlay { rsm_cell: 0 }),
        2
    ));
}

// ---- transition_permitted: VTS Title (rows 10..13) ---------------

#[test]
fn vts_title_rows() {
    let d = Domain::VtsTitle;
    // Row 10 — CallSS First Play.
    assert!(transition_permitted(
        d,
        &call_ss(CallSSTarget::FirstPlay { rsm_cell: 0 }),
        1
    ));
    // Row 11 — CallSS VMG menu / PGC.
    assert!(transition_permitted(
        d,
        &call_ss(CallSSTarget::VmgmMenu {
            menu: 2,
            rsm_cell: 1
        }),
        1
    ));
    assert!(transition_permitted(
        d,
        &call_ss(CallSSTarget::VmgmPgcn {
            pgcn: 6,
            rsm_cell: 0
        }),
        1
    ));
    // Row 12 — CallSS same-VTS root menu (CallSS VTSM carries no
    // VTS operand; it is same-VTS by construction).
    assert!(transition_permitted(
        d,
        &call_ss(CallSSTarget::VtsmMenu {
            menu: 3,
            rsm_cell: 4
        }),
        1
    ));
    // Row 13 — same-VTS title / PTT.
    assert!(transition_permitted(
        d,
        &VmAction::JumpVtsTitle { ttn: 2 },
        1
    ));
    assert!(transition_permitted(
        d,
        &VmAction::JumpVtsPtt { ttn: 2, pttn: 1 },
        1
    ));
    // No JumpSS row in the title-domain table.
    assert!(!transition_permitted(
        d,
        &jump_ss(JumpSSTarget::FirstPlay),
        1
    ));
    assert!(!transition_permitted(
        d,
        &jump_ss(JumpSSTarget::VmgmMenu { menu: 2 }),
        1
    ));
    // No direct JumpTT either — the table routes via JumpVTS_TT.
    assert!(!transition_permitted(d, &VmAction::JumpTitle { ttn: 2 }, 1));
    // RSM resumes *to* the title domain, never from it.
    assert!(!transition_permitted(
        d,
        &VmAction::Resume(ResumePoint {
            resume_cell: 0,
            hl_btn: 0
        }),
        1
    ));
}

// ---- non-transfer actions are always permitted -------------------

#[test]
fn non_transfers_always_pass() {
    for d in [
        Domain::FirstPlay,
        Domain::VideoManager,
        Domain::VtsMenu,
        Domain::VtsTitle,
    ] {
        assert!(transition_permitted(d, &VmAction::Continue, 0));
        assert!(transition_permitted(d, &VmAction::Break, 0));
        assert!(transition_permitted(d, &VmAction::Exit, 0));
        assert!(transition_permitted(
            d,
            &VmAction::Link(LinkAction::Pgcn { pgcn: 1 }),
            0
        ));
        assert!(transition_permitted(
            d,
            &VmAction::SetNavTimer {
                seconds: 30,
                pgcn: 1
            },
            0
        ));
        assert!(transition_permitted(
            d,
            &VmAction::NoOpRaw(NavCommand { bytes: [0u8; 8] }),
            0
        ));
    }
}

#[test]
fn domain_is_menu() {
    assert!(Domain::VideoManager.is_menu());
    assert!(Domain::VtsMenu.is_menu());
    assert!(!Domain::FirstPlay.is_menu());
    assert!(!Domain::VtsTitle.is_menu());
}

// ---- resolve_link ------------------------------------------------

use oxideav_dvd::ifo::{CellPlaybackInfo, Pgc, PgcTime};
use oxideav_dvd::nav::LinkSubset;

fn test_cell(category: u8) -> CellPlaybackInfo {
    CellPlaybackInfo {
        category_byte0: category,
        restricted: false,
        still_time: 0,
        cell_command: 0,
        playback_time: PgcTime::from_bytes([0, 1, 0, 0xE0]),
        first_vobu_start_sector: 0,
        first_ilvu_end_sector: 0,
        last_vobu_start_sector: 0,
        last_vobu_end_sector: 0,
    }
}

/// 5-cell / 2-program PGC: cells 1..=2 plain, cells 3..=5 a
/// 3-angle block. Program 1 → cell 1, program 2 → cell 3.
/// next PGCN = 7, prev PGCN unauthored, goup PGCN = 9.
fn link_test_pgc() -> Pgc {
    let mut pgc = Pgc::parse(&[0u8; 0xEC]).unwrap();
    pgc.number_of_programs = 2;
    pgc.number_of_cells = 5;
    pgc.program_map = vec![1, 3];
    pgc.cells = vec![
        test_cell(0x00),
        test_cell(0x00),
        test_cell(0x50), // first of angle block
        test_cell(0x90), // middle
        test_cell(0xD0), // last
    ];
    pgc.next_pgcn = 7;
    pgc.prev_pgcn = 0;
    pgc.goup_pgcn = 9;
    pgc
}

fn subset(subset: LinkSubset) -> LinkAction {
    LinkAction::Subset { subset, hl_bn: 0 }
}

#[test]
fn resolve_link_cell_subsets() {
    let pgc = link_test_pgc();
    let pos = PgcPosition {
        pgcn: 2,
        program: 1,
        cell: 2,
    };
    assert_eq!(
        resolve_link(&pgc, pos, &subset(LinkSubset::Nop), 1),
        LinkOutcome::Continue
    );
    assert_eq!(
        resolve_link(&pgc, pos, &subset(LinkSubset::LinkTopCell), 1),
        LinkOutcome::PlayCell { cell: 2 }
    );
    // Next cell enters the angle block, angle-resolved.
    assert_eq!(
        resolve_link(&pgc, pos, &subset(LinkSubset::LinkNextCell), 1),
        LinkOutcome::PlayCell { cell: 3 }
    );
    assert_eq!(
        resolve_link(&pgc, pos, &subset(LinkSubset::LinkNextCell), 2),
        LinkOutcome::PlayCell { cell: 4 }
    );
    // From inside the block, next-cell runs off the PGC → post.
    let in_block = PgcPosition {
        pgcn: 2,
        program: 2,
        cell: 4,
    };
    assert_eq!(
        resolve_link(&pgc, in_block, &subset(LinkSubset::LinkNextCell), 1),
        LinkOutcome::PostCommands
    );
    // Prev cell, and the clamp at cell 1.
    assert_eq!(
        resolve_link(&pgc, pos, &subset(LinkSubset::LinkPrevCell), 1),
        LinkOutcome::PlayCell { cell: 1 }
    );
    let at_first = PgcPosition {
        pgcn: 2,
        program: 1,
        cell: 1,
    };
    assert_eq!(
        resolve_link(&pgc, at_first, &subset(LinkSubset::LinkPrevCell), 1),
        LinkOutcome::PlayCell { cell: 1 }
    );
}

#[test]
fn resolve_link_program_subsets() {
    let pgc = link_test_pgc();
    let p1 = PgcPosition {
        pgcn: 2,
        program: 1,
        cell: 2,
    };
    let p2 = PgcPosition {
        pgcn: 2,
        program: 2,
        cell: 4,
    };
    // TopPG restarts the current program at its entry cell.
    assert_eq!(
        resolve_link(&pgc, p2, &subset(LinkSubset::LinkTopPG), 1),
        LinkOutcome::PlayCell { cell: 3 }
    );
    // …angle-resolved when the entry cell opens an angle block.
    assert_eq!(
        resolve_link(&pgc, p2, &subset(LinkSubset::LinkTopPG), 2),
        LinkOutcome::PlayCell { cell: 4 }
    );
    assert_eq!(
        resolve_link(&pgc, p1, &subset(LinkSubset::LinkNextPG), 1),
        LinkOutcome::PlayCell { cell: 3 }
    );
    // Next-PG past the final program → post commands.
    assert_eq!(
        resolve_link(&pgc, p2, &subset(LinkSubset::LinkNextPG), 1),
        LinkOutcome::PostCommands
    );
    assert_eq!(
        resolve_link(&pgc, p2, &subset(LinkSubset::LinkPrevPG), 1),
        LinkOutcome::PlayCell { cell: 1 }
    );
    // Prev-PG clamps at program 1.
    assert_eq!(
        resolve_link(&pgc, p1, &subset(LinkSubset::LinkPrevPG), 1),
        LinkOutcome::PlayCell { cell: 1 }
    );
}

#[test]
fn resolve_link_pgc_subsets() {
    let pgc = link_test_pgc();
    let pos = PgcPosition {
        pgcn: 2,
        program: 1,
        cell: 1,
    };
    assert_eq!(
        resolve_link(&pgc, pos, &subset(LinkSubset::LinkTopPGC), 1),
        LinkOutcome::OtherPgc { pgcn: 2 }
    );
    assert_eq!(
        resolve_link(&pgc, pos, &subset(LinkSubset::LinkNextPGC), 1),
        LinkOutcome::OtherPgc { pgcn: 7 }
    );
    // prev PGCN is unauthored (zero).
    assert_eq!(
        resolve_link(&pgc, pos, &subset(LinkSubset::LinkPrevPGC), 1),
        LinkOutcome::NoDestination
    );
    assert_eq!(
        resolve_link(&pgc, pos, &subset(LinkSubset::LinkGoupPGC), 1),
        LinkOutcome::OtherPgc { pgcn: 9 }
    );
    assert_eq!(
        resolve_link(&pgc, pos, &subset(LinkSubset::LinkTailPGC), 1),
        LinkOutcome::PostCommands
    );
    assert_eq!(
        resolve_link(&pgc, pos, &subset(LinkSubset::Rsm), 1),
        LinkOutcome::Resume
    );
    assert_eq!(
        resolve_link(&pgc, pos, &subset(LinkSubset::Invalid(0x04)), 1),
        LinkOutcome::NoDestination
    );
}

#[test]
fn resolve_link_numbered_forms() {
    let pgc = link_test_pgc();
    let pos = PgcPosition {
        pgcn: 2,
        program: 1,
        cell: 1,
    };
    assert_eq!(
        resolve_link(&pgc, pos, &LinkAction::Pgcn { pgcn: 3 }, 1),
        LinkOutcome::OtherPgc { pgcn: 3 }
    );
    assert_eq!(
        resolve_link(&pgc, pos, &LinkAction::Pgcn { pgcn: 0 }, 1),
        LinkOutcome::NoDestination
    );
    assert_eq!(
        resolve_link(&pgc, pos, &LinkAction::Pttn { pttn: 5, hl_bn: 0 }, 1),
        LinkOutcome::Chapter { pttn: 5 }
    );
    assert_eq!(
        resolve_link(&pgc, pos, &LinkAction::Pttn { pttn: 0, hl_bn: 0 }, 1),
        LinkOutcome::NoDestination
    );
    // LinkPGN lands on the program's entry cell, angle-resolved.
    assert_eq!(
        resolve_link(&pgc, pos, &LinkAction::Pgn { pgn: 2, hl_bn: 0 }, 3),
        LinkOutcome::PlayCell { cell: 5 }
    );
    assert_eq!(
        resolve_link(&pgc, pos, &LinkAction::Pgn { pgn: 3, hl_bn: 0 }, 1),
        LinkOutcome::NoDestination
    );
    // LinkCN addresses a cell directly (angle-resolved when it
    // opens a block; a non-first block cell passes through).
    assert_eq!(
        resolve_link(&pgc, pos, &LinkAction::Cn { cn: 3, hl_bn: 0 }, 2),
        LinkOutcome::PlayCell { cell: 4 }
    );
    assert_eq!(
        resolve_link(&pgc, pos, &LinkAction::Cn { cn: 5, hl_bn: 0 }, 1),
        LinkOutcome::PlayCell { cell: 5 }
    );
    assert_eq!(
        resolve_link(&pgc, pos, &LinkAction::Cn { cn: 6, hl_bn: 0 }, 1),
        LinkOutcome::NoDestination
    );
    assert_eq!(
        resolve_link(&pgc, pos, &LinkAction::Cn { cn: 0, hl_bn: 0 }, 1),
        LinkOutcome::NoDestination
    );
}

// ---- PgcRunner -----------------------------------------------------

use oxideav_dvd::ifo::{NavCommand as NC, PgcCommandTable, StillTime};
use oxideav_dvd::vm::Vm;

fn nc(bytes: [u8; 8]) -> NC {
    NC { bytes }
}

fn with_commands(mut pgc: Pgc, pre: Vec<NC>, post: Vec<NC>, cell: Vec<NC>) -> Pgc {
    pgc.commands = Some(PgcCommandTable {
        pre,
        post,
        cell,
        end_address: 0,
    });
    pgc
}

/// Plain n-cell PGC (no angle blocks, one program, no commands).
fn plain_pgc(cells: u8) -> Pgc {
    let mut pgc = Pgc::parse(&[0u8; 0xEC]).unwrap();
    pgc.number_of_programs = 1;
    pgc.number_of_cells = cells;
    pgc.program_map = vec![1];
    pgc.cells = (0..cells).map(|_| test_cell(0x00)).collect();
    for (i, c) in pgc.cells.iter_mut().enumerate() {
        c.first_vobu_start_sector = (i as u32 + 1) * 100;
        c.last_vobu_end_sector = (i as u32 + 1) * 100 + 99;
    }
    pgc
}

#[test]
fn runner_plays_cells_then_follows_next_pgcn() {
    let mut pgc = plain_pgc(2);
    pgc.next_pgcn = 5;
    let mut vm = Vm::new();
    let mut r = PgcRunner::new(&pgc, 1);
    assert_eq!(
        r.next_event(&mut vm),
        PlaybackEvent::PlayCell {
            cell: 1,
            program: 1,
            first_sector: 100,
            last_sector: 199,
            still: StillTime::NoStill,
        }
    );
    assert_eq!(
        r.next_event(&mut vm),
        PlaybackEvent::PlayCell {
            cell: 2,
            program: 1,
            first_sector: 200,
            last_sector: 299,
            still: StillTime::NoStill,
        }
    );
    assert_eq!(r.next_event(&mut vm), PlaybackEvent::NextPgc { pgcn: 5 });
    assert_eq!(r.next_event(&mut vm), PlaybackEvent::Finished);
}

#[test]
fn runner_empty_pgc_finishes() {
    let pgc = Pgc::parse(&[0u8; 0xEC]).unwrap();
    let mut vm = Vm::new();
    let mut r = PgcRunner::new(&pgc, 1);
    assert_eq!(r.next_event(&mut vm), PlaybackEvent::Finished);
    assert_eq!(r.next_event(&mut vm), PlaybackEvent::Finished);
}

#[test]
fn runner_pre_jump_tt_transfers() {
    // pre = [JumpTT 3] — the disc-insertion FP_PGC shape.
    let pgc = with_commands(
        plain_pgc(1),
        vec![nc([0x30, 0x02, 0, 0, 0, 3, 0, 0])],
        vec![],
        vec![],
    );
    let mut vm = Vm::new();
    let mut r = PgcRunner::new(&pgc, 1);
    assert_eq!(
        r.next_event(&mut vm),
        PlaybackEvent::Transfer(VmAction::JumpTitle { ttn: 3 })
    );
    assert_eq!(r.next_event(&mut vm), PlaybackEvent::Finished);
}

#[test]
fn runner_pre_break_enters_cells() {
    // pre = [Break, JumpTT 9] — the jump must never run.
    let pgc = with_commands(
        plain_pgc(1),
        vec![
            nc([0x00, 0x02, 0, 0, 0, 0, 0, 0]),
            nc([0x30, 0x02, 0, 0, 0, 9, 0, 0]),
        ],
        vec![],
        vec![],
    );
    let mut vm = Vm::new();
    let mut r = PgcRunner::new(&pgc, 1);
    assert!(matches!(
        r.next_event(&mut vm),
        PlaybackEvent::PlayCell { cell: 1, .. }
    ));
}

#[test]
fn runner_cell_command_links_to_other_pgc() {
    // Cell 2 carries cell command #1 = LinkPGCN 9.
    let mut pgc = plain_pgc(2);
    pgc.cells[1].cell_command = 1;
    let pgc = with_commands(
        pgc,
        vec![],
        vec![],
        vec![nc([0x20, 0x04, 0, 0, 0, 0, 0, 9])],
    );
    let mut vm = Vm::new();
    let mut r = PgcRunner::new(&pgc, 1);
    assert!(matches!(
        r.next_event(&mut vm),
        PlaybackEvent::PlayCell { cell: 1, .. }
    ));
    assert!(matches!(
        r.next_event(&mut vm),
        PlaybackEvent::PlayCell { cell: 2, .. }
    ));
    assert_eq!(r.next_event(&mut vm), PlaybackEvent::NextPgc { pgcn: 9 });
}

#[test]
fn runner_pgc_still_event_before_post() {
    let mut pgc = plain_pgc(1);
    pgc.still_time = 10;
    let mut vm = Vm::new();
    let mut r = PgcRunner::new(&pgc, 1);
    assert!(matches!(
        r.next_event(&mut vm),
        PlaybackEvent::PlayCell { cell: 1, .. }
    ));
    assert_eq!(
        r.next_event(&mut vm),
        PlaybackEvent::PgcStill {
            still: StillTime::Seconds(10)
        }
    );
    assert_eq!(r.next_event(&mut vm), PlaybackEvent::Finished);
}

#[test]
fn runner_nav_timer_resumes_pre_list() {
    // pre = [SetNVTMR 30s → PGC 2 (immediate form), Break].
    let pgc = with_commands(
        plain_pgc(1),
        vec![
            nc([0x52, 0, 0x00, 0x1E, 0x00, 0x02, 0, 0]),
            nc([0x00, 0x02, 0, 0, 0, 0, 0, 0]),
        ],
        vec![],
        vec![],
    );
    let mut vm = Vm::new();
    let mut r = PgcRunner::new(&pgc, 1);
    assert_eq!(
        r.next_event(&mut vm),
        PlaybackEvent::NavTimer {
            seconds: 30,
            pgcn: 2
        }
    );
    // The list resumes after the SetNVTMR word: Break → cells.
    assert!(matches!(
        r.next_event(&mut vm),
        PlaybackEvent::PlayCell { cell: 1, .. }
    ));
}

#[test]
fn runner_post_link_applies_highlight_button() {
    // post = [LinkNextPGC, button=4]; next PGCN = 7.
    let mut pgc = plain_pgc(1);
    pgc.next_pgcn = 7;
    let pgc = with_commands(
        pgc,
        vec![],
        vec![nc([0x20, 0x01, 0, 0, 0, 0, 0x04, 0x0A])],
        vec![],
    );
    let mut vm = Vm::new();
    let mut r = PgcRunner::new(&pgc, 1);
    assert!(matches!(
        r.next_event(&mut vm),
        PlaybackEvent::PlayCell { cell: 1, .. }
    ));
    assert_eq!(r.next_event(&mut vm), PlaybackEvent::NextPgc { pgcn: 7 });
    // The hl_bn override landed in SPRM 8 bits 15..10.
    assert_eq!(vm.regs.highlight_button(), 4);
}

#[test]
fn runner_angle_walk_follows_sprm3() {
    // link_test_pgc: cells 1..=2 plain, 3..=5 a 3-angle block,
    // next PGCN = 7. Angle 2 presents cell 4 for the block.
    let pgc = link_test_pgc();
    let mut vm = Vm::new();
    vm.regs.set_sprm(oxideav_dvd::vm::SPRM_ANGLE, 2);
    let mut r = PgcRunner::new(&pgc, 2);
    let cells: Vec<u8> = std::iter::from_fn(|| match r.next_event(&mut vm) {
        PlaybackEvent::PlayCell { cell, .. } => Some(cell),
        _ => None,
    })
    .collect();
    assert_eq!(cells, vec![1, 2, 4]);
}

#[test]
fn runner_new_at_cell_skips_pre() {
    // pre = [JumpTT 9] must not run on a chapter entry.
    let mut pgc = plain_pgc(3);
    pgc.next_pgcn = 0;
    let pgc = with_commands(
        pgc,
        vec![nc([0x30, 0x02, 0, 0, 0, 9, 0, 0])],
        vec![],
        vec![],
    );
    let mut vm = Vm::new();
    let mut r = PgcRunner::new_at_cell(&pgc, 1, 2);
    assert!(matches!(
        r.next_event(&mut vm),
        PlaybackEvent::PlayCell { cell: 2, .. }
    ));
    assert!(matches!(
        r.next_event(&mut vm),
        PlaybackEvent::PlayCell { cell: 3, .. }
    ));
    assert_eq!(r.next_event(&mut vm), PlaybackEvent::Finished);
    // Out-of-range entry cell falls through to post → Finished.
    let mut r2 = PgcRunner::new_at_cell(&pgc, 1, 9);
    assert_eq!(r2.next_event(&mut vm), PlaybackEvent::Finished);
}

// ---- menu interaction ----------------------------------------------

use oxideav_dvd::vob::{ButtonInfo, HighlightInfo, SlColi};

fn button(up: u8, down: u8, left: u8, right: u8, auto: bool, command: [u8; 8]) -> ButtonInfo {
    ButtonInfo {
        btn_coln: 1,
        start_x: 0,
        end_x: 10,
        start_y: 0,
        end_y: 10,
        auto_action: auto,
        up,
        down,
        left,
        right,
        command,
    }
}

/// Three-button row: 1 <-> 2 <-> 3. Button 2 auto-actions a
/// LinkPGCN 5; button 3 actions a JumpTT 2.
fn test_hli() -> HighlightInfo {
    HighlightInfo {
        hli_s_ptm: 0,
        hli_e_ptm: 0,
        btn_sl_e_ptm: 0,
        btn_md: 0,
        btn_sn: 1,
        btn_ns: 3,
        nsl_btn_ns: 3,
        fosl_btnn: 0,
        foac_btnn: 0,
        sl_coli: [SlColi::default(); 3],
        buttons: vec![
            button(1, 1, 1, 2, false, [0; 8]),
            button(2, 2, 1, 3, true, [0x20, 0x04, 0, 0, 0, 0, 0, 5]),
            button(3, 3, 2, 0, false, [0x30, 0x02, 0, 0, 0, 2, 0, 0]),
        ],
    }
}

#[test]
fn navigate_button_adjacency() {
    let hli = test_hli();
    assert_eq!(navigate_button(&hli, 1, ButtonMove::Right), 2);
    assert_eq!(navigate_button(&hli, 2, ButtonMove::Right), 3);
    // Unauthored (zero) adjacency stays put.
    assert_eq!(navigate_button(&hli, 3, ButtonMove::Right), 3);
    assert_eq!(navigate_button(&hli, 3, ButtonMove::Left), 2);
    assert_eq!(navigate_button(&hli, 1, ButtonMove::Up), 1);
    // Out-of-range current button stays put.
    assert_eq!(navigate_button(&hli, 9, ButtonMove::Left), 9);
    assert_eq!(navigate_button(&hli, 0, ButtonMove::Down), 0);
}

#[test]
fn initial_button_force_select_and_clamp() {
    let mut hli = test_hli();
    assert_eq!(initial_button(&hli, 2), 2); // keep a valid selection
    assert_eq!(initial_button(&hli, 9), 1); // clamp an invalid one
    assert_eq!(initial_button(&hli, 0), 1);
    hli.fosl_btnn = 3;
    assert_eq!(initial_button(&hli, 2), 3); // force-select wins
}

#[test]
fn select_and_activate_buttons() {
    let hli = test_hli();
    let mut vm = Vm::new();
    // Plain selection updates SPRM 8 only.
    assert_eq!(select_button(&mut vm, &hli, 3), ButtonPress::Selected);
    assert_eq!(vm.regs.highlight_button(), 3);
    // Auto-action button executes its LinkPGCN immediately.
    assert_eq!(
        select_button(&mut vm, &hli, 2),
        ButtonPress::AutoAction(VmAction::Link(LinkAction::Pgcn { pgcn: 5 }))
    );
    assert_eq!(vm.regs.highlight_button(), 2);
    // Invalid button numbers.
    assert_eq!(select_button(&mut vm, &hli, 0), ButtonPress::Invalid);
    assert_eq!(select_button(&mut vm, &hli, 4), ButtonPress::Invalid);
    // Explicit activation runs the button command through the VM.
    assert_eq!(
        activate_button(&mut vm, &hli, 3),
        Some(VmAction::JumpTitle { ttn: 2 })
    );
    assert_eq!(activate_button(&mut vm, &hli, 4), None);
}

#[test]
fn forced_action_button() {
    let mut hli = test_hli();
    let mut vm = Vm::new();
    assert_eq!(forced_action(&mut vm, &hli), None);
    hli.foac_btnn = 3;
    assert_eq!(
        forced_action(&mut vm, &hli),
        Some(VmAction::JumpTitle { ttn: 2 })
    );
}

// ---- plan_title_cells ---------------------------------------------

use oxideav_dvd::ifo::PgciSrp;

fn srp(category: u32) -> PgciSrp {
    PgciSrp {
        category,
        offset: 0,
    }
}

#[test]
fn plan_title_follows_next_pgcn_chain() {
    // PGC 1: entry for title 1, 2 cells, chains to PGC 2.
    // PGC 2: continuation of title 1, 1 cell, chain ends.
    // PGC 3: entry for title 2 (must not appear in the plan).
    let mut pgc1 = plain_pgc(2);
    pgc1.next_pgcn = 2;
    let pgc2 = plain_pgc(1);
    let pgc3 = plain_pgc(1);
    let srps = [srp(0x8100_0000), srp(0x0100_0000), srp(0x8200_0000)];
    let pgcs = [pgc1, pgc2, pgc3];

    let plan = plan_title_cells(&srps, &pgcs, 1, 1).unwrap();
    let flat: Vec<(u16, u8, u32, u32)> = plan
        .iter()
        .map(|p| (p.pgcn, p.cell, p.first_sector, p.last_sector))
        .collect();
    assert_eq!(
        flat,
        vec![(1, 1, 100, 199), (1, 2, 200, 299), (2, 1, 100, 199)]
    );

    // Title 2's plan is just PGC 3.
    let plan2 = plan_title_cells(&srps, &pgcs, 2, 1).unwrap();
    assert_eq!(plan2.len(), 1);
    assert_eq!(plan2[0].pgcn, 3);

    // Unknown title -> None.
    assert!(plan_title_cells(&srps, &pgcs, 3, 1).is_none());
}

#[test]
fn plan_title_breaks_navigation_loops_and_foreign_pgcs() {
    // PGC 1 chains to PGC 2; PGC 2 chains back to PGC 1 (loop).
    let mut pgc1 = plain_pgc(1);
    pgc1.next_pgcn = 2;
    let mut pgc2 = plain_pgc(1);
    pgc2.next_pgcn = 1;
    let srps = [srp(0x8100_0000), srp(0x0100_0000)];
    let plan = plan_title_cells(&srps, &[pgc1, pgc2], 1, 1).unwrap();
    assert_eq!(plan.len(), 2); // each PGC contributes once

    // A chain into another title's PGC stops the plan.
    let mut a = plain_pgc(1);
    a.next_pgcn = 2;
    let b = plain_pgc(1);
    let srps2 = [srp(0x8100_0000), srp(0x8200_0000)];
    let plan2 = plan_title_cells(&srps2, &[a, b], 1, 1).unwrap();
    assert_eq!(plan2.len(), 1);
    assert_eq!(plan2[0].pgcn, 1);
}

#[test]
fn plan_title_respects_angle() {
    // link_test_pgc: cells 1..=2 plain + 3..=5 angle block; make
    // it a self-contained title (no next chain).
    let mut pgc = link_test_pgc();
    pgc.next_pgcn = 0;
    let srps = [srp(0x8100_0000)];
    let plan = plan_title_cells(&srps, &[pgc], 1, 2).unwrap();
    let cells: Vec<u8> = plan.iter().map(|p| p.cell).collect();
    assert_eq!(cells, vec![1, 2, 4]);
}

// ---- resolve_action / note_title_position / ResumeContext ---------

use oxideav_dvd::ifo::{DvdTitleEntry, MenuType, TtSrpt};

fn one_title_srpt() -> TtSrpt {
    TtSrpt {
        title_count: 1,
        end_address: 19,
        entries: vec![DvdTitleEntry {
            title_type: 0,
            angle_count: 1,
            chapter_count: 8,
            parental_mask: 0,
            vts_number: 2,
            vts_title_number: 1,
            vts_start_sector: 12345,
        }],
    }
}

#[test]
fn resolve_action_title_jumps() {
    let srpt = one_title_srpt();
    assert_eq!(
        resolve_action(&VmAction::JumpTitle { ttn: 1 }, Some(&srpt)),
        Some(JumpResolution::TitleEntry {
            ttn: 1,
            vts: 2,
            vts_ttn: 1,
            vts_start_sector: 12345,
        })
    );
    // Missing title / missing table -> unresolvable.
    assert_eq!(
        resolve_action(&VmAction::JumpTitle { ttn: 2 }, Some(&srpt)),
        None
    );
    assert_eq!(resolve_action(&VmAction::JumpTitle { ttn: 1 }, None), None);
    // Same-VTS forms need no table.
    assert_eq!(
        resolve_action(&VmAction::JumpVtsTitle { ttn: 3 }, None),
        Some(JumpResolution::VtsTitleEntry { vts_ttn: 3 })
    );
    assert_eq!(
        resolve_action(&VmAction::JumpVtsPtt { ttn: 3, pttn: 7 }, None),
        Some(JumpResolution::VtsChapter {
            vts_ttn: 3,
            pttn: 7
        })
    );
}

#[test]
fn resolve_action_menu_forms() {
    assert_eq!(
        resolve_action(&VmAction::JumpSs(JumpSSTarget::FirstPlay), None),
        Some(JumpResolution::FirstPlay)
    );
    assert_eq!(
        resolve_action(&VmAction::JumpSs(JumpSSTarget::VmgmMenu { menu: 2 }), None),
        Some(JumpResolution::VmgMenu {
            menu: MenuType::Title
        })
    );
    assert_eq!(
        resolve_action(&VmAction::JumpSs(JumpSSTarget::VmgmPgcn { pgcn: 12 }), None),
        Some(JumpResolution::VmgPgc { pgcn: 12 })
    );
    assert_eq!(
        resolve_action(
            &VmAction::JumpSs(JumpSSTarget::VtsmMenu {
                vts: 2,
                ttn: 1,
                menu: 3
            }),
            None
        ),
        Some(JumpResolution::VtsMenu {
            vts: 2,
            vts_ttn: 1,
            menu: MenuType::Root
        })
    );
    // CallSS VTSM has no VTS operand -> current title set.
    assert_eq!(
        resolve_action(
            &VmAction::CallSs(CallSSTarget::VtsmMenu {
                menu: 5,
                rsm_cell: 3
            }),
            None
        ),
        Some(JumpResolution::SameVtsMenu {
            menu: MenuType::Audio
        })
    );
    assert_eq!(
        resolve_action(
            &VmAction::CallSs(CallSSTarget::VmgmPgcn {
                pgcn: 4,
                rsm_cell: 0
            }),
            None
        ),
        Some(JumpResolution::VmgPgc { pgcn: 4 })
    );
    assert_eq!(
        resolve_action(&VmAction::Exit, None),
        Some(JumpResolution::Stop)
    );
    assert_eq!(
        resolve_action(
            &VmAction::Resume(ResumePoint {
                resume_cell: 0,
                hl_btn: 0
            }),
            None
        ),
        Some(JumpResolution::Resume)
    );
    // Non-transfers resolve to None.
    assert_eq!(resolve_action(&VmAction::Continue, None), None);
    assert_eq!(resolve_action(&VmAction::Break, None), None);
    assert_eq!(
        resolve_action(&VmAction::Link(LinkAction::Pgcn { pgcn: 1 }), None),
        None
    );
}

#[test]
fn note_title_position_sets_sprms() {
    let mut vm = Vm::new();
    note_title_position(&mut vm, 3, 1, 5, Some(7));
    assert_eq!(vm.regs.sprm(oxideav_dvd::vm::SPRM_TITLE), 3);
    assert_eq!(vm.regs.sprm(oxideav_dvd::vm::SPRM_VTS_TITLE), 1);
    assert_eq!(vm.regs.sprm(oxideav_dvd::vm::SPRM_PGCN), 5);
    assert_eq!(vm.regs.sprm(oxideav_dvd::vm::SPRM_PTT), 7);
    // Without a chapter, SPRM 7 stays put.
    note_title_position(&mut vm, 4, 2, 6, None);
    assert_eq!(vm.regs.sprm(oxideav_dvd::vm::SPRM_TITLE), 4);
    assert_eq!(vm.regs.sprm(oxideav_dvd::vm::SPRM_PTT), 7);
}

#[test]
fn resume_context_effective_cell() {
    let ctx = ResumeContext {
        domain: Domain::VtsTitle,
        vts: 2,
        pgcn: 3,
        cell: 6,
    };
    // rsm_cell 0 = "the cell that was active".
    assert_eq!(
        ctx.effective_cell(&ResumePoint {
            resume_cell: 0,
            hl_btn: 0
        }),
        6
    );
    // Non-zero rsm_cell overrides.
    assert_eq!(
        ctx.effective_cell(&ResumePoint {
            resume_cell: 9,
            hl_btn: 0
        }),
        9
    );
}

#[test]
fn link_highlight_button_extraction() {
    assert_eq!(
        link_highlight_button(&LinkAction::Subset {
            subset: LinkSubset::LinkTopCell,
            hl_bn: 5
        }),
        Some(5)
    );
    assert_eq!(
        link_highlight_button(&LinkAction::Subset {
            subset: LinkSubset::LinkTopCell,
            hl_bn: 0
        }),
        None
    );
    assert_eq!(
        link_highlight_button(&LinkAction::Pttn { pttn: 1, hl_bn: 9 }),
        Some(9)
    );
    assert_eq!(link_highlight_button(&LinkAction::Pgcn { pgcn: 1 }), None);
    assert_eq!(
        link_highlight_button(&LinkAction::Cn { cn: 1, hl_bn: 2 }),
        Some(2)
    );
}

// ---- StillClock -----------------------------------------------

use oxideav_dvd::uops::{UopMask, UserOp};

#[test]
fn still_clock_not_still_passes_through() {
    let mut c = StillClock::start(StillTime::NoStill);
    assert_eq!(c.phase(), StillPhase::NotStill);
    assert!(!c.is_holding());
    assert!(!c.advance_ms(10_000));
    assert!(!c.try_user_release(UopMask::none()));
    assert_eq!(c.phase(), StillPhase::NotStill);
}

#[test]
fn still_clock_timed_expires_once() {
    let mut c = StillClock::start(StillTime::Seconds(2));
    assert_eq!(c.phase(), StillPhase::Timed { remaining_ms: 2000 });
    assert!(c.is_holding());
    assert!(!c.advance_ms(1500));
    assert_eq!(c.phase(), StillPhase::Timed { remaining_ms: 500 });
    // The call that crosses zero reports the release exactly once.
    assert!(c.advance_ms(600));
    assert_eq!(c.phase(), StillPhase::Released);
    assert!(!c.is_holding());
    assert!(!c.advance_ms(1000));
}

#[test]
fn still_clock_infinite_never_expires_by_time() {
    let mut c = StillClock::start(StillTime::Infinite);
    assert_eq!(c.phase(), StillPhase::Infinite);
    assert!(!c.advance_ms(u64::MAX));
    assert!(c.is_holding());
    // …but the user can release it when UOP 18 is clear.
    assert!(c.try_user_release(UopMask::none()));
    assert_eq!(c.phase(), StillPhase::Released);
}

#[test]
fn still_clock_user_release_gated_on_uop_18() {
    // A set "Still off" bit at any merged level inhibits release.
    let mut c = StillClock::start(StillTime::Infinite);
    let vobu_mask = UopMask::none().with(UserOp::StillOff);
    let merged = UopMask::merge_or(UopMask::none(), UopMask::none(), vobu_mask);
    assert!(!c.try_user_release(merged));
    assert!(c.is_holding());
    // A mask that prohibits *other* ops but leaves bit 18 clear
    // does not inhibit the release.
    let other = UopMask::none().with(UserOp::PauseOn).with(UserOp::Stop);
    assert!(c.try_user_release(other));
    assert!(!c.is_holding());
    // Released is terminal: further attempts are no-ops.
    assert!(!c.try_user_release(UopMask::none()));
}

#[test]
fn still_clock_unconditional_release_for_menu_transfer() {
    // Still-menu path: a button activation transfers control, so
    // the engine releases the hold without consulting UOP 18.
    let mut c = StillClock::start(StillTime::Infinite);
    c.release();
    assert_eq!(c.phase(), StillPhase::Released);
    // NotStill stays NotStill (release only ends real holds).
    let mut n = StillClock::start(StillTime::NoStill);
    n.release();
    assert_eq!(n.phase(), StillPhase::NotStill);
}

#[test]
fn playback_event_still_accessors() {
    let cell_ev = PlaybackEvent::PlayCell {
        cell: 1,
        program: 1,
        first_sector: 0,
        last_sector: 9,
        still: StillTime::Seconds(5),
    };
    assert_eq!(cell_ev.still_time(), Some(StillTime::Seconds(5)));
    assert_eq!(
        cell_ev.still_clock().unwrap().phase(),
        StillPhase::Timed { remaining_ms: 5000 }
    );
    let pgc_ev = PlaybackEvent::PgcStill {
        still: StillTime::Infinite,
    };
    assert_eq!(pgc_ev.still_time(), Some(StillTime::Infinite));
    assert!(pgc_ev.still_clock().unwrap().is_holding());
    assert_eq!(PlaybackEvent::Finished.still_time(), None);
    assert!(PlaybackEvent::NextPgc { pgcn: 2 }.still_clock().is_none());
}

#[test]
fn runner_still_event_drives_still_clock() {
    // End-to-end: a PGC whose header authors a 3-second still —
    // the runner's PgcStill event arms a clock that holds for
    // exactly 3000 ms.
    let mut pgc = plain_pgc(1);
    pgc.still_time = 3;
    let mut vm = Vm::new();
    let mut r = PgcRunner::new(&pgc, 1);
    assert!(matches!(
        r.next_event(&mut vm),
        PlaybackEvent::PlayCell { .. }
    ));
    let ev = r.next_event(&mut vm);
    assert_eq!(ev.still_time(), Some(StillTime::Seconds(3)));
    let mut clock = ev.still_clock().unwrap();
    assert!(!clock.advance_ms(2999));
    assert!(clock.advance_ms(1));
    assert!(!clock.is_holding());
    assert_eq!(r.next_event(&mut vm), PlaybackEvent::Finished);
}

// ---- Stream selection ------------------------------------------

use oxideav_dvd::ifo::{
    AudioAttributes, AudioStreamControl, McExtensionEntry, SubpictureAttributes,
    SubpictureDisplay, SubpictureStreamControl,
};
use oxideav_dvd::vm::{
    SPRM_AUDIO_CAPS, SPRM_AUDIO_STREAM, SPRM_PREF_AUDIO_LANG, SPRM_PREF_AUDIO_LANG_EXT,
    SPRM_PREF_SUBP_LANG, SPRM_SUBPICTURE_STREAM, SPRM_VIDEO_PREF,
};

/// Build an 8-byte audio-attribute field: coding mode, application
/// mode, ISO-639 language, code extension.
fn audio_attrs(coding: u8, app: u8, lang: [u8; 2], ext: u8) -> AudioAttributes {
    let lang_type = if lang == [0, 0] { 0u8 } else { 1 };
    AudioAttributes::parse(&[
        (coding << 5) | (lang_type << 2) | app,
        0b0000_0001, // 48 kHz, stereo
        lang[0],
        lang[1],
        0,
        ext,
        0,
        0,
    ])
}

fn ast_ctl_with(entries: &[(usize, u8)]) -> [AudioStreamControl; 8] {
    let mut ctl = [AudioStreamControl {
        available: false,
        stream_number: 0,
    }; 8];
    for &(i, phys) in entries {
        ctl[i] = AudioStreamControl {
            available: true,
            stream_number: phys,
        };
    }
    ctl
}

/// All-capabilities player (every SPRM 15 bit that matters set).
fn all_caps_vm() -> Vm {
    let mut vm = Vm::new();
    vm.regs.set_sprm(SPRM_AUDIO_CAPS, 0b0100_1100_1101_1100);
    vm
}

#[test]
fn audio_playable_per_codec_and_karaoke_bit() {
    let caps = |raw: u16| oxideav_dvd::vm::AudioCapabilities {
        sdds_karaoke: (raw >> 2) & 1 == 1,
        dts_karaoke: (raw >> 3) & 1 == 1,
        mpeg_karaoke: (raw >> 4) & 1 == 1,
        dolby_karaoke: (raw >> 6) & 1 == 1,
        pcm_karaoke: (raw >> 7) & 1 == 1,
        sdds: (raw >> 10) & 1 == 1,
        dts: (raw >> 11) & 1 == 1,
        mpeg: (raw >> 12) & 1 == 1,
        dolby: (raw >> 14) & 1 == 1,
        raw,
    };
    // AC-3 normal ↔ bit 14; AC-3 karaoke ↔ bit 6.
    let ac3 = audio_attrs(0, 0, *b"en", 0);
    let ac3_kar = audio_attrs(0, 1, *b"en", 0);
    assert!(audio_stream_playable(caps(1 << 14), &ac3));
    assert!(!audio_stream_playable(caps(1 << 6), &ac3));
    assert!(audio_stream_playable(caps(1 << 6), &ac3_kar));
    assert!(!audio_stream_playable(caps(1 << 14), &ac3_kar));
    // DTS ↔ bit 11 / bit 3; MPEG ↔ bit 12 / bit 4.
    assert!(audio_stream_playable(
        caps(1 << 11),
        &audio_attrs(6, 0, *b"en", 0)
    ));
    assert!(audio_stream_playable(
        caps(1 << 3),
        &audio_attrs(6, 1, *b"en", 0)
    ));
    assert!(audio_stream_playable(
        caps(1 << 12),
        &audio_attrs(2, 0, *b"en", 0)
    ));
    assert!(audio_stream_playable(
        caps(1 << 4),
        &audio_attrs(3, 1, *b"en", 0)
    ));
    // LPCM: always playable unless karaoke without bit 7.
    assert!(audio_stream_playable(
        caps(0),
        &audio_attrs(4, 0, *b"en", 0)
    ));
    assert!(!audio_stream_playable(
        caps(0),
        &audio_attrs(4, 1, *b"en", 0)
    ));
    assert!(audio_stream_playable(
        caps(1 << 7),
        &audio_attrs(4, 1, *b"en", 0)
    ));
    // Reserved coding mode: never playable.
    assert!(!audio_stream_playable(
        caps(u16::MAX),
        &audio_attrs(1, 0, *b"en", 0)
    ));
}

#[test]
fn select_audio_prefers_explicit_sprm1() {
    let mut vm = all_caps_vm();
    vm.regs.set_sprm(SPRM_AUDIO_STREAM, 2);
    let ctl = ast_ctl_with(&[(0, 0), (2, 5)]);
    let attrs = vec![audio_attrs(0, 0, *b"en", 0); 3];
    assert_eq!(
        select_audio_stream(&vm, &ctl, &attrs),
        AudioSelection::Selected {
            logical: 2,
            physical: 5,
            via_preference: false,
        }
    );
}

#[test]
fn select_audio_none_sentinel_short_circuits() {
    let mut vm = all_caps_vm();
    vm.regs.set_sprm(SPRM_AUDIO_STREAM, 15);
    let ctl = ast_ctl_with(&[(0, 0)]);
    assert_eq!(
        select_audio_stream(&vm, &ctl, &[audio_attrs(0, 0, *b"en", 0)]),
        AudioSelection::NoAudio
    );
}

#[test]
fn select_audio_falls_back_to_language_preference() {
    // SPRM 1 names stream 5, which the PGC does not carry;
    // streams 0 (en) and 1 (ja) are available; SPRM 16 = "ja".
    let mut vm = all_caps_vm();
    vm.regs.set_sprm(SPRM_AUDIO_STREAM, 5);
    vm.regs
        .set_sprm(SPRM_PREF_AUDIO_LANG, u16::from_be_bytes(*b"ja"));
    let ctl = ast_ctl_with(&[(0, 0), (1, 1)]);
    let attrs = vec![audio_attrs(0, 0, *b"en", 0), audio_attrs(0, 0, *b"ja", 0)];
    assert_eq!(
        select_audio_stream(&vm, &ctl, &attrs),
        AudioSelection::Selected {
            logical: 1,
            physical: 1,
            via_preference: true,
        }
    );
}

#[test]
fn select_audio_language_extension_tiebreak() {
    // Two "en" streams; SPRM 17 = 3 (director comments) matches
    // stream 1's code extension.
    let mut vm = all_caps_vm();
    vm.regs.set_sprm(SPRM_AUDIO_STREAM, 7); // dangling
    vm.regs
        .set_sprm(SPRM_PREF_AUDIO_LANG, u16::from_be_bytes(*b"en"));
    vm.regs.set_sprm(SPRM_PREF_AUDIO_LANG_EXT, 3);
    let ctl = ast_ctl_with(&[(0, 0), (1, 1)]);
    let attrs = vec![audio_attrs(0, 0, *b"en", 1), audio_attrs(0, 0, *b"en", 3)];
    assert_eq!(
        select_audio_stream(&vm, &ctl, &attrs),
        AudioSelection::Selected {
            logical: 1,
            physical: 1,
            via_preference: true,
        }
    );
}

#[test]
fn select_audio_skips_unplayable_codec() {
    // Stream 0 is DTS but the player has no DTS bit; stream 1 is
    // AC-3 and playable — the fallback lands on 1 even though 0
    // is lower.
    let mut vm = Vm::new();
    vm.regs.set_sprm(SPRM_AUDIO_CAPS, 1 << 14); // Dolby only
    vm.regs.set_sprm(SPRM_AUDIO_STREAM, 0);
    let ctl = ast_ctl_with(&[(0, 0), (1, 1)]);
    let attrs = vec![audio_attrs(6, 0, *b"en", 0), audio_attrs(0, 0, *b"en", 0)];
    assert_eq!(
        select_audio_stream(&vm, &ctl, &attrs),
        AudioSelection::Selected {
            logical: 1,
            physical: 1,
            via_preference: true,
        }
    );
    // No playable stream at all → NoAudio.
    let dts_only = vec![audio_attrs(6, 0, *b"en", 0), audio_attrs(6, 0, *b"en", 0)];
    assert_eq!(
        select_audio_stream(&vm, &ctl, &dts_only),
        AudioSelection::NoAudio
    );
}

#[test]
fn note_audio_selection_writes_sprm1() {
    let mut vm = Vm::new();
    note_audio_selection(
        &mut vm,
        AudioSelection::Selected {
            logical: 3,
            physical: 7,
            via_preference: true,
        },
    );
    assert_eq!(vm.regs.sprm(SPRM_AUDIO_STREAM), 3);
    note_audio_selection(&mut vm, AudioSelection::NoAudio);
    assert_eq!(vm.regs.sprm(SPRM_AUDIO_STREAM), 15);
}

#[test]
fn subpicture_display_mode_mapping() {
    let pref = |aspect: u16, mode: u16| {
        let mut vm = Vm::new();
        vm.regs
            .set_sprm(SPRM_VIDEO_PREF, (aspect << 10) | (mode << 8));
        vm.regs.video_preference()
    };
    // Pan&scan / letterbox modes name their columns directly.
    assert_eq!(
        subpicture_display_mode(pref(3, 1)),
        SubpictureDisplay::PanScan
    );
    assert_eq!(
        subpicture_display_mode(pref(0, 2)),
        SubpictureDisplay::Letterbox
    );
    // Normal: 16:9 ⇒ wide, 4:3 / not-specified ⇒ 4:3 column.
    assert_eq!(subpicture_display_mode(pref(3, 0)), SubpictureDisplay::Wide);
    assert_eq!(
        subpicture_display_mode(pref(0, 0)),
        SubpictureDisplay::Ratio4x3
    );
    assert_eq!(
        subpicture_display_mode(pref(1, 0)),
        SubpictureDisplay::Ratio4x3
    );
}

fn spst_ctl_with(entries: &[(usize, [u8; 4])]) -> [SubpictureStreamControl; 32] {
    let mut ctl = [SubpictureStreamControl {
        available: false,
        stream_4x3: 0,
        stream_wide: 0,
        stream_letterbox: 0,
        stream_pan_scan: 0,
    }; 32];
    for &(i, [s43, sw, slb, sps]) in entries {
        ctl[i] = SubpictureStreamControl {
            available: true,
            stream_4x3: s43,
            stream_wide: sw,
            stream_letterbox: slb,
            stream_pan_scan: sps,
        };
    }
    ctl
}

fn subp_attrs(lang: [u8; 2]) -> SubpictureAttributes {
    SubpictureAttributes::parse(&[0b0000_0001, 0, lang[0], lang[1], 0, 0])
}

#[test]
fn select_subpicture_explicit_stream_resolves_display_column() {
    let mut vm = Vm::new();
    // Stream 1, display on; 16:9 wide output.
    vm.regs.set_sprm(SPRM_SUBPICTURE_STREAM, (1 << 6) | 1);
    vm.regs.set_sprm(SPRM_VIDEO_PREF, 3 << 10);
    let ctl = spst_ctl_with(&[(1, [4, 5, 6, 7])]);
    assert_eq!(
        select_subpicture_stream(&vm, &ctl, &[]),
        SubpictureSelection::Selected {
            logical: 1,
            physical: 5, // the wide column
            display: true,
            forced_only: false,
        }
    );
    // Same slot on a letterboxed output routes column 6.
    vm.regs.set_sprm(SPRM_VIDEO_PREF, 2 << 8);
    assert_eq!(
        select_subpicture_stream(&vm, &ctl, &[]),
        SubpictureSelection::Selected {
            logical: 1,
            physical: 6,
            display: true,
            forced_only: false,
        }
    );
}

#[test]
fn select_subpicture_none_sentinel() {
    let mut vm = Vm::new();
    vm.regs.set_sprm(SPRM_SUBPICTURE_STREAM, 62);
    let ctl = spst_ctl_with(&[(0, [0, 0, 0, 0])]);
    assert_eq!(
        select_subpicture_stream(&vm, &ctl, &[]),
        SubpictureSelection::NoStream
    );
}

#[test]
fn select_subpicture_forced_sentinel_falls_back() {
    // SPRM 2 = 63 (forced): language preference picks stream 1
    // ("ja"); without a match the lowest available serves.
    let mut vm = Vm::new();
    vm.regs.set_sprm(SPRM_SUBPICTURE_STREAM, 63);
    vm.regs
        .set_sprm(SPRM_PREF_SUBP_LANG, u16::from_be_bytes(*b"ja"));
    let ctl = spst_ctl_with(&[(0, [2, 2, 2, 2]), (1, [9, 9, 9, 9])]);
    let attrs = vec![subp_attrs(*b"en"), subp_attrs(*b"ja")];
    assert_eq!(
        select_subpicture_stream(&vm, &ctl, &attrs),
        SubpictureSelection::Selected {
            logical: 1,
            physical: 9,
            display: false,
            forced_only: true,
        }
    );
    // No language hit → lowest available, still forced-only.
    vm.regs.set_sprm(SPRM_PREF_SUBP_LANG, 0xFFFF);
    assert_eq!(
        select_subpicture_stream(&vm, &ctl, &attrs),
        SubpictureSelection::Selected {
            logical: 0,
            physical: 2,
            display: false,
            forced_only: true,
        }
    );
}

#[test]
fn select_subpicture_dangling_stream_needs_language_match() {
    // SPRM 2 names stream 9 (not authored). With no language
    // preference match the engine must NOT spontaneously enable a
    // subtitle stream.
    let mut vm = Vm::new();
    vm.regs.set_sprm(SPRM_SUBPICTURE_STREAM, (1 << 6) | 9);
    let ctl = spst_ctl_with(&[(0, [2, 2, 2, 2])]);
    let attrs = vec![subp_attrs(*b"en")];
    assert_eq!(
        select_subpicture_stream(&vm, &ctl, &attrs),
        SubpictureSelection::NoStream
    );
    // A language match rescues it.
    vm.regs
        .set_sprm(SPRM_PREF_SUBP_LANG, u16::from_be_bytes(*b"en"));
    assert_eq!(
        select_subpicture_stream(&vm, &ctl, &attrs),
        SubpictureSelection::Selected {
            logical: 0,
            physical: 2,
            display: true,
            forced_only: false,
        }
    );
}

// ---- Karaoke routing -------------------------------------------

#[test]
fn karaoke_routing_combines_amxmd_and_mc_entry() {
    let mut vm = Vm::new();
    // Mix ch2 → front, ch3 → rear, ch4 → both.
    vm.regs.set_sprm(
        oxideav_dvd::vm::SPRM_AMXMD,
        (1 << 2) | (1 << 11) | (1 << 4) | (1 << 12),
    );
    // MC entry: ch2 carries guide vocal 1 + melody 2; ch3 carries
    // sound effect A; ch4 carries guide melody B.
    let mc = McExtensionEntry::parse(&[0, 0, 0b0000_1001, 0b0000_0001, 0b0000_0010, 0, 0, 0]);
    let routes = karaoke_routing(vm.regs.audio_mix_mode(), &mc);
    assert_eq!(routes[0].channel, 2);
    assert!(routes[0].to_front && !routes[0].to_rear);
    assert!(routes[0].content.guide_vocal_1);
    assert!(routes[0].content.guide_melody_secondary);
    assert!(!routes[0].content.sound_effect);
    assert_eq!(routes[1].channel, 3);
    assert!(!routes[1].to_front && routes[1].to_rear);
    assert!(routes[1].content.sound_effect);
    assert!(!routes[1].content.guide_vocal_1);
    assert_eq!(routes[2].channel, 4);
    assert!(routes[2].to_front && routes[2].to_rear);
    assert!(routes[2].content.guide_melody_primary);
    assert!(!routes[2].content.guide_melody_secondary);
}

// ---- Trick play -------------------------------------------------

use oxideav_dvd::engine::{scan_target, span_pointer, video_bracket, TrickStep, SRI_NO_VIDEO_VOBU};
use oxideav_dvd::vob::{DsiPacket, VobuSri};

/// The `NO_VOBU` span sentinel: no VOBU at that stride.
const SRI_NO_VOBU: u32 = 0x3FFF_FFFF;

/// One trick-play step: a step of half a second or less (`None`) takes
/// the video bracket; a coarser one of `h` half seconds the span bucket,
/// else the bracket.
fn scan(dsi: &DsiPacket, direction: ScanDirection, coarse_half_seconds: Option<u32>) -> TrickStep {
    let bracket = video_bracket(&dsi.vobu_sri, direction);
    let pointer = match coarse_half_seconds {
        Some(h) => span_pointer(&dsi.vobu_sri, direction, h).unwrap_or(bracket),
        None => bracket,
    };
    scan_target(dsi.general_info.nv_pck_lbn, direction, pointer)
}

/// Build a DSI body (0x222 bytes, all zero) with the given
/// nav-pack LBN, reference-frame end addresses, and VOBU_SRI
/// entry patches (`(sri_relative_offset, raw_word)`).
fn dsi_with(lbn: u32, ref_eas: [u32; 3], sri: &[(usize, u32)]) -> DsiPacket {
    let mut buf = vec![0u8; DsiPacket::BODY_SIZE];
    buf[0x04..0x08].copy_from_slice(&lbn.to_be_bytes());
    buf[0x0C..0x10].copy_from_slice(&ref_eas[0].to_be_bytes());
    buf[0x10..0x14].copy_from_slice(&ref_eas[1].to_be_bytes());
    buf[0x14..0x18].copy_from_slice(&ref_eas[2].to_be_bytes());
    for &(off, word) in sri {
        let at = VobuSri::PACKET_OFFSET + off;
        buf[at..at + 4].copy_from_slice(&word.to_be_bytes());
    }
    DsiPacket::parse(&buf).expect("synthetic DSI parses")
}

#[test]
fn scan_permitted_gates_on_restriction_and_uops() {
    // Restricted cell stops trick play in both directions.
    assert!(!scan_permitted(ScanDirection::Forward, UopMask::none(), true));
    // UOP 8 blocks forward only; UOP 9 backward only.
    let fwd_banned = UopMask::none().with(UserOp::ForwardScan);
    assert!(!scan_permitted(ScanDirection::Forward, fwd_banned, false));
    assert!(scan_permitted(ScanDirection::Backward, fwd_banned, false));
    let bwd_banned = UopMask::none().with(UserOp::BackwardScan);
    assert!(scan_permitted(ScanDirection::Forward, bwd_banned, false));
    assert!(!scan_permitted(ScanDirection::Backward, bwd_banned, false));
    assert!(scan_permitted(ScanDirection::Forward, UopMask::none(), false));
}






#[test]
fn reference_frame_span_reads_dsi_gi_end_addresses() {
    let dsi = dsi_with(2000, [4, 9, 15], &[]);
    assert_eq!(reference_frame_span(&dsi, 1), Some((2000, 2004)));
    assert_eq!(reference_frame_span(&dsi, 2), Some((2000, 2009)));
    assert_eq!(reference_frame_span(&dsi, 3), Some((2000, 2015)));
    assert_eq!(reference_frame_span(&dsi, 0), None);
    assert_eq!(reference_frame_span(&dsi, 4), None);
    // Unauthored (zero) end address → None.
    let sparse = dsi_with(2000, [4, 0, 0], &[]);
    assert_eq!(reference_frame_span(&sparse, 1), Some((2000, 2004)));
    assert_eq!(reference_frame_span(&sparse, 2), None);
}
#[test]
fn runner_self_relinking_post_list_finishes() {
    // post = [LinkTailPGC]: the post commands relink to themselves and
    // never report anything; the runner gives up with Finished.
    let mut pgc = plain_pgc(1);
    pgc.next_pgcn = 4;
    let pgc = with_commands(pgc, vec![], vec![nc([0x20, 0x01, 0, 0, 0, 0, 0, 0x0D])], vec![]);
    let mut vm = Vm::new();
    let mut r = PgcRunner::new(&pgc, 1);
    assert!(matches!(r.next_event(&mut vm), PlaybackEvent::PlayCell { cell: 1, .. }));
    assert_eq!(r.next_event(&mut vm), PlaybackEvent::Finished);
    assert_eq!(r.next_event(&mut vm), PlaybackEvent::Finished);
}

#[test]
fn runner_unknown_pre_word_is_skipped() {
    // pre = [undefined word, JumpTT 4]: the undefined word is skipped.
    let pgc = with_commands(
        plain_pgc(1),
        vec![nc([0xF0, 0, 0, 0, 0, 0, 0, 0]), nc([0x30, 0x02, 0, 0, 0, 4, 0, 0])],
        vec![],
        vec![],
    );
    let mut vm = Vm::new();
    let mut r = PgcRunner::new(&pgc, 1);
    assert_eq!(r.next_event(&mut vm), PlaybackEvent::Transfer(VmAction::JumpTitle { ttn: 4 }));
}

#[test]
fn selected_button_reads_back_from_sprm8() {
    let hli = test_hli();
    let mut vm = Vm::new();
    for b in [1u8, 3] {
        assert_eq!(select_button(&mut vm, &hli, b), ButtonPress::Selected);
        assert_eq!(vm.regs.highlight_button(), b);
    }
}

#[test]
fn noted_audio_selection_is_stable() {
    let mut vm = all_caps_vm();
    vm.regs.set_sprm(SPRM_AUDIO_STREAM, 6);
    vm.regs.set_sprm(SPRM_PREF_AUDIO_LANG, u16::from_be_bytes(*b"ja"));
    let ctl = ast_ctl_with(&[(0, 0), (1, 4)]);
    let attrs = vec![audio_attrs(0, 0, *b"en", 0), audio_attrs(0, 0, *b"ja", 0)];
    let first = select_audio_stream(&vm, &ctl, &attrs);
    assert_eq!(first, AudioSelection::Selected { logical: 1, physical: 4, via_preference: true });
    note_audio_selection(&mut vm, first);
    assert_eq!(
        select_audio_stream(&vm, &ctl, &attrs),
        AudioSelection::Selected { logical: 1, physical: 4, via_preference: false }
    );
}

#[test]
fn still_clock_split_advance_matches_single() {
    let mut a = StillClock::start(StillTime::Seconds(3));
    let mut b = StillClock::start(StillTime::Seconds(3));
    assert!(!a.advance_ms(1200));
    let ended_in_two = a.advance_ms(1800);
    let ended_in_one = b.advance_ms(3000);
    assert_eq!(a.phase(), b.phase());
    assert_eq!(ended_in_two, ended_in_one);
    assert!(ended_in_one);
}

#[test]
fn plan_cells_belong_to_the_title() {
    let mut pgc1 = plain_pgc(2);
    pgc1.next_pgcn = 3;
    let pgc2 = plain_pgc(1);
    let pgc3 = plain_pgc(1);
    let srps = [srp(0x8100_0000), srp(0x8200_0000), srp(0x0100_0000)];
    let pgcs = [pgc1, pgc2, pgc3];
    let plan = plan_title_cells(&srps, &pgcs, 1, 1).unwrap();
    let pgcns: Vec<u16> = plan.iter().map(|p| p.pgcn).collect();
    assert_eq!(pgcns, vec![1, 1, 3]);
}

#[test]
fn resolution_lands_in_the_target_domain() {
    let a = VmAction::CallSs(CallSSTarget::VmgmMenu { menu: 2, rsm_cell: 0 });
    assert_eq!(target_domain(&a), Some(Domain::VideoManager));
    assert_eq!(
        resolve_action(&a, None),
        Some(JumpResolution::VmgMenu { menu: MenuType::Title })
    );
}

#[test]
fn scan_step_fine_stride_uses_video_brackets() {
    let dsi = dsi_with(
        1000,
        [0; 3],
        &[(0x00, VobuSri::VALID_BIT | 25), (0xA4, VobuSri::VALID_BIT | 7)],
    );
    assert_eq!(
        scan(&dsi, ScanDirection::Forward, None),
        TrickStep::Jump { lbn: 1025, finer_steps_available: false }
    );
    assert_eq!(
        scan(&dsi, ScanDirection::Backward, None),
        TrickStep::Jump { lbn: 993, finer_steps_available: false }
    );
}

#[test]
fn scan_step_coarse_stride_resolves_span_buckets() {
    let dsi = dsi_with(
        5000,
        [0; 3],
        &[
            (0x04 + 3 * 4, VobuSri::VALID_BIT | VobuSri::INTERMEDIATE_BIT | 300),
            (0x58 + 15 * 4, VobuSri::VALID_BIT | 280),
        ],
    );
    assert_eq!(
        scan(&dsi, ScanDirection::Forward, Some(20)),
        TrickStep::Jump { lbn: 5300, finer_steps_available: true }
    );
    assert_eq!(
        scan(&dsi, ScanDirection::Backward, Some(20)),
        TrickStep::Jump { lbn: 4720, finer_steps_available: false }
    );
}

#[test]
fn scan_step_falls_back_to_bracket_when_no_span_authored() {
    let dsi = dsi_with(100, [0; 3], &[(0x00, VobuSri::VALID_BIT | 2)]);
    assert_eq!(
        scan(&dsi, ScanDirection::Forward, Some(60)),
        TrickStep::Jump { lbn: 102, finer_steps_available: false }
    );
}

#[test]
fn scan_step_no_more_video_and_cell_boundary() {
    let no_video = dsi_with(100, [0; 3], &[(0x00, SRI_NO_VIDEO_VOBU)]);
    assert_eq!(scan(&no_video, ScanDirection::Forward, None), TrickStep::NoMoreVideo);
    let empty = dsi_with(100, [0; 3], &[]);
    assert_eq!(scan(&empty, ScanDirection::Forward, Some(20)), TrickStep::CellBoundary);
    assert_eq!(scan(&empty, ScanDirection::Backward, None), TrickStep::CellBoundary);
    let span_sentinel = dsi_with(100, [0; 3], &[(0x04, SRI_NO_VOBU)]);
    assert_eq!(scan(&span_sentinel, ScanDirection::Forward, Some(240)), TrickStep::CellBoundary);
}

#[test]
fn scan_step_backward_saturates_at_zero() {
    let dsi = dsi_with(5, [0; 3], &[(0xA4, VobuSri::VALID_BIT | 50)]);
    assert_eq!(
        scan(&dsi, ScanDirection::Backward, None),
        TrickStep::Jump { lbn: 0, finer_steps_available: false }
    );
}

#[test]
fn scan_target_saturates_forward_and_reads_bits() {
    assert_eq!(
        scan_target(u32::MAX - 1, ScanDirection::Forward, VobuSri::VALID_BIT | 5),
        TrickStep::Jump { lbn: u32::MAX, finer_steps_available: false }
    );
    assert_eq!(scan_target(10, ScanDirection::Forward, 5), TrickStep::CellBoundary);
    assert_eq!(scan_target(10, ScanDirection::Backward, SRI_NO_VIDEO_VOBU), TrickStep::NoMoreVideo);
}

#[test]
fn span_pointer_takes_longest_stride_within_step() {
    // 30 s and 10 s authored forward; a 20 s step takes the 10 s bucket,
    // a 40 s step the 30 s one, a 5 s step none.
    let dsi = dsi_with(
        0,
        [0; 3],
        &[(0x04 + 2 * 4, VobuSri::VALID_BIT | 900), (0x04 + 3 * 4, VobuSri::VALID_BIT | 300)],
    );
    assert_eq!(span_pointer(&dsi.vobu_sri, ScanDirection::Forward, 40), Some(VobuSri::VALID_BIT | 300));
    assert_eq!(span_pointer(&dsi.vobu_sri, ScanDirection::Forward, 80), Some(VobuSri::VALID_BIT | 900));
    assert_eq!(span_pointer(&dsi.vobu_sri, ScanDirection::Forward, 10), None);
    assert_eq!(span_pointer(&dsi.vobu_sri, ScanDirection::Backward, 80), None);
}
