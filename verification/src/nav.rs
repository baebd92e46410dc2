//! Navigation-command model: the decoded form of the 8-byte VM command
//! words found in PGC pre / post / cell command tables and in menu
//! button commands.
//!
//! A command's type is the top three bits of byte 0: `0` special
//! (nop / goto / break / temporary parental level), `1` link or
//! jump/call (bit 4 of byte 0 chooses), `2` system-register set,
//! `3` general-register set, `4..=6` the compound set/compare/link
//! forms, `7` unused.

use vstd::prelude::*;

use crate::ifo::NavCommand;

verus! {

/// A register operand: a general register, a system register, or an
/// encoding that names neither.
#[derive(Debug, Clone, Copy, PartialEq, Eq)]
pub enum Register {
    /// `GPRM0..=GPRM15`.
    Gprm(u8),
    /// `SPRM0..=SPRM31`.
    Sprm(u8),
    /// Any other encoding, kept raw.
    Invalid(u8),
}

/// A source operand: a register or a 16-bit immediate.
#[derive(Debug, Clone, Copy, PartialEq, Eq)]
pub enum Operand {
    /// Read the named register.
    Register(Register),
    /// A literal value.
    Immediate(u16),
}

/// Comparison predicate of a conditional command.
#[derive(Debug, Clone, Copy, PartialEq, Eq)]
pub enum CmpOp {
    /// `0` — no comparison (always true).
    NoCmp,
    /// `1` — bit clear: `(lhs & rhs) == 0`.
    Bc,
    /// `2` — equal.
    Eq,
    /// `3` — not equal.
    Ne,
    /// `4` — greater or equal.
    Ge,
    /// `5` — greater.
    Gt,
    /// `6` — less or equal.
    Le,
    /// `7` — less.
    Lt,
}

/// Arithmetic / logic operation of a SET command.
#[derive(Debug, Clone, Copy, PartialEq, Eq)]
pub enum SetOp {
    /// `0` — no operation.
    NoOp,
    /// `1` — move.
    Mov,
    /// `2` — swap.
    Swp,
    /// `3` — add.
    Add,
    /// `4` — subtract.
    Sub,
    /// `5` — multiply.
    Mul,
    /// `6` — divide.
    Div,
    /// `7` — remainder.
    Mod,
    /// `8` — random.
    Rnd,
    /// `9` — bitwise and.
    And,
    /// `10` — bitwise or.
    Or,
    /// `11` — bitwise xor.
    Xor,
    /// `12..=15` — undefined, kept raw.
    Invalid(u8),
}

/// The link-subset codes of `LinkSub` (and of the compound forms).
#[derive(Debug, Clone, Copy, PartialEq, Eq)]
pub enum LinkSubset {
    /// `0` — no link.
    Nop,
    /// `1` — restart the current cell.
    LinkTopCell,
    /// `2` — next cell.
    LinkNextCell,
    /// `3` — previous cell.
    LinkPrevCell,
    /// `5` — restart the current program.
    LinkTopPG,
    /// `6` — next program.
    LinkNextPG,
    /// `7` — previous program.
    LinkPrevPG,
    /// `9` — restart the current PGC.
    LinkTopPGC,
    /// `10` — next PGC.
    LinkNextPGC,
    /// `11` — previous PGC.
    LinkPrevPGC,
    /// `12` — the PGC's GoUp PGC.
    LinkGoupPGC,
    /// `13` — the current PGC's post commands.
    LinkTailPGC,
    /// `16` — resume from the last CallSS.
    Rsm,
    /// Any other code, kept raw.
    Invalid(u8),
}

/// Destination of a `JumpSS`.
#[derive(Debug, Clone, Copy, PartialEq, Eq)]
pub enum JumpSSTarget {
    /// The First-Play PGC.
    FirstPlay,
    /// A VMG menu of the given menu type.
    VmgmMenu {
        /// Menu-type nibble.
        menu: u8,
    },
    /// A VTS menu of a title set.
    VtsmMenu {
        /// Title-set number.
        vts: u8,
        /// Title number inside the title set.
        ttn: u8,
        /// Menu-type nibble.
        menu: u8,
    },
    /// A VMG menu PGC by number.
    VmgmPgcn {
        /// PGC number.
        pgcn: u16,
    },
}

/// Destination of a `CallSS`, with the cell to resume to.
#[derive(Debug, Clone, Copy, PartialEq, Eq)]
pub enum CallSSTarget {
    /// The First-Play PGC.
    FirstPlay {
        /// Resume cell.
        rsm_cell: u8,
    },
    /// A VMG menu of the given menu type.
    VmgmMenu {
        /// Menu-type nibble.
        menu: u8,
        /// Resume cell.
        rsm_cell: u8,
    },
    /// A menu of the current title set.
    VtsmMenu {
        /// Menu-type nibble.
        menu: u8,
        /// Resume cell.
        rsm_cell: u8,
    },
    /// A VMG menu PGC by number.
    VmgmPgcn {
        /// PGC number.
        pgcn: u16,
        /// Resume cell.
        rsm_cell: u8,
    },
}

/// One decoded navigation command.
#[derive(Debug, Clone, Copy, PartialEq, Eq)]
pub enum NavInstruction {
    /// Type 0 `0` — no operation.
    Nop,
    /// Type 0 `1` — go to a 1-based line of the current list.
    Goto {
        /// Target line.
        line: u8,
    },
    /// Type 0 `2` — leave the current list.
    Break,
    /// Type 0 `3` — temporary parental level, then go to a line.
    SetTmpPml {
        /// Proposed parental level.
        level: u8,
        /// Line to go to.
        line: u8,
    },
    /// Type 1 link `1` — link by subset.
    LinkSub {
        /// Subset code.
        subset: LinkSubset,
        /// Highlight-button override.
        hl_bn: u8,
    },
    /// Type 1 link `4` — link to a PGC number.
    LinkPgcn {
        /// PGC number.
        pgcn: u16,
    },
    /// Type 1 link `5` — link to a part of title.
    LinkPttn {
        /// PTT number.
        pttn: u16,
        /// Highlight-button override.
        hl_bn: u8,
    },
    /// Type 1 link `6` — link to a program.
    LinkPgn {
        /// Program number.
        pgn: u8,
        /// Highlight-button override.
        hl_bn: u8,
    },
    /// Type 1 link `7` — link to a cell.
    LinkCn {
        /// Cell number.
        cn: u8,
        /// Highlight-button override.
        hl_bn: u8,
    },
    /// Type 1 jump `1` — stop playback.
    Exit,
    /// Type 1 jump `2` — jump to a title of the volume.
    JumpTT {
        /// Title number.
        ttn: u8,
    },
    /// Type 1 jump `3` — jump to a title of the current title set.
    JumpVtsTt {
        /// Title number.
        ttn: u8,
    },
    /// Type 1 jump `5` — jump to a part of a title of the title set.
    JumpVtsPtt {
        /// Title number.
        ttn: u8,
        /// PTT number.
        pttn: u16,
    },
    /// Type 1 jump `6` — cross-domain jump.
    JumpSs(JumpSSTarget),
    /// Type 1 jump `8` — cross-domain call.
    CallSs(CallSSTarget),
    /// Type 2 `1` — set the audio / sub-picture / angle stream numbers.
    SetStn {
        /// Immediate (`true`) or register-indexed sources.
        direct: bool,
        /// Audio stream is set.
        af: bool,
        /// Audio source.
        audio_src: u8,
        /// Sub-picture stream is set.
        sf: bool,
        /// Sub-picture source.
        subpic_src: u8,
        /// Angle is set.
        nf: bool,
        /// Angle source.
        angle_src: u8,
    },
    /// Type 2 `2` — load the navigation timer.
    SetNvtmr {
        /// Seconds.
        src: Operand,
        /// PGC to link to on expiry.
        pgcn: u16,
    },
    /// Type 2 `3` — set a general register and its counter mode.
    SetGprmMd {
        /// Value.
        src: Operand,
        /// Destination register.
        dst: Register,
        /// Counter mode on.
        counter: bool,
    },
    /// Type 2 `4` — set the karaoke mixing mode.
    SetAmxMd {
        /// Value.
        src: Operand,
    },
    /// Type 2 `6` — set the highlighted button.
    SetHlBtnn {
        /// Value.
        src: Operand,
    },
    /// Type 3 — general-register arithmetic.
    SetReg {
        /// Operation.
        op: SetOp,
        /// Destination register.
        dst: Register,
        /// Source operand.
        src: Operand,
    },
    /// Type 4 — set, then compare, then link on true.
    SetCLnk {
        /// Set operation.
        set_op: SetOp,
        /// Comparison.
        cmp_op: CmpOp,
        /// Set destination and compare left-hand side.
        scr: Register,
        /// Set source.
        set_src: Operand,
        /// Compare right-hand side.
        cmp_rhs: Operand,
        /// Highlight-button override.
        hl_bn: u8,
        /// Link subset.
        link: LinkSubset,
    },
    /// Type 5 — compare; on true set, then link.
    CSetCLnk {
        /// Set operation.
        set_op: SetOp,
        /// Comparison.
        cmp_op: CmpOp,
        /// Set destination.
        sr1: Register,
        /// Set source.
        set_src: Operand,
        /// Compare left-hand side.
        cmp_lhs: Register,
        /// Compare right-hand side.
        cmp_rhs: Operand,
        /// Highlight-button override.
        hl_bn: u8,
        /// Link subset.
        link: LinkSubset,
    },
    /// Type 6 — compare; on true set; link regardless.
    CmpSetLnk {
        /// Set operation.
        set_op: SetOp,
        /// Comparison.
        cmp_op: CmpOp,
        /// Set destination and compare left-hand side.
        sr1: Register,
        /// Set source.
        set_src: Operand,
        /// Compare right-hand side.
        cmp_rhs: Operand,
        /// Highlight-button override.
        hl_bn: u8,
        /// Link subset.
        link: LinkSubset,
    },
    /// Type 7 — no defined meaning.
    Unknown,
    /// A sub-code that the instruction table leaves undefined.
    Invalid,
}

/// The register named by an operand byte: bit 7 set selects
/// `SPRM(b & 0x1F)`; otherwise values `0..=15` select a GPRM.
#[verifier::allow_in_spec]
pub fn register_from_byte(b: u8) -> Register
    returns
        (if b >= 0x80 {
            Register::Sprm(b % 32)
        } else if b < 16 {
            Register::Gprm(b)
        } else {
            Register::Invalid(b)
        }),
{
    if b >= 0x80 {
        Register::Sprm(b % 32)
    } else if b < 16 {
        Register::Gprm(b)
    } else {
        Register::Invalid(b)
    }
}

/// The comparison of a 3-bit code.
#[verifier::allow_in_spec]
pub fn cmp_from_code(c: u8) -> CmpOp
    returns
        (match c % 8 {
            0u8 => CmpOp::NoCmp,
            1u8 => CmpOp::Bc,
            2u8 => CmpOp::Eq,
            3u8 => CmpOp::Ne,
            4u8 => CmpOp::Ge,
            5u8 => CmpOp::Gt,
            6u8 => CmpOp::Le,
            _ => CmpOp::Lt,
        }),
{
    match c % 8 {
        0 => CmpOp::NoCmp,
        1 => CmpOp::Bc,
        2 => CmpOp::Eq,
        3 => CmpOp::Ne,
        4 => CmpOp::Ge,
        5 => CmpOp::Gt,
        6 => CmpOp::Le,
        _ => CmpOp::Lt,
    }
}

/// The set operation of a 4-bit code.
#[verifier::allow_in_spec]
pub fn set_op_from_code(c: u8) -> SetOp
    returns
        (match c % 16 {
            0u8 => SetOp::NoOp,
            1u8 => SetOp::Mov,
            2u8 => SetOp::Swp,
            3u8 => SetOp::Add,
            4u8 => SetOp::Sub,
            5u8 => SetOp::Mul,
            6u8 => SetOp::Div,
            7u8 => SetOp::Mod,
            8u8 => SetOp::Rnd,
            9u8 => SetOp::And,
            10u8 => SetOp::Or,
            11u8 => SetOp::Xor,
            other => SetOp::Invalid(other),
        }),
{
    match c % 16 {
        0 => SetOp::NoOp,
        1 => SetOp::Mov,
        2 => SetOp::Swp,
        3 => SetOp::Add,
        4 => SetOp::Sub,
        5 => SetOp::Mul,
        6 => SetOp::Div,
        7 => SetOp::Mod,
        8 => SetOp::Rnd,
        9 => SetOp::And,
        10 => SetOp::Or,
        11 => SetOp::Xor,
        other => SetOp::Invalid(other),
    }
}

/// The link subset of a 5-bit code.
#[verifier::allow_in_spec]
pub fn link_subset_from_code(c: u8) -> LinkSubset
    returns
        (match c % 32 {
            0u8 => LinkSubset::Nop,
            1u8 => LinkSubset::LinkTopCell,
            2u8 => LinkSubset::LinkNextCell,
            3u8 => LinkSubset::LinkPrevCell,
            5u8 => LinkSubset::LinkTopPG,
            6u8 => LinkSubset::LinkNextPG,
            7u8 => LinkSubset::LinkPrevPG,
            9u8 => LinkSubset::LinkTopPGC,
            10u8 => LinkSubset::LinkNextPGC,
            11u8 => LinkSubset::LinkPrevPGC,
            12u8 => LinkSubset::LinkGoupPGC,
            13u8 => LinkSubset::LinkTailPGC,
            16u8 => LinkSubset::Rsm,
            other => LinkSubset::Invalid(other),
        }),
{
    match c % 32 {
        0 => LinkSubset::Nop,
        1 => LinkSubset::LinkTopCell,
        2 => LinkSubset::LinkNextCell,
        3 => LinkSubset::LinkPrevCell,
        5 => LinkSubset::LinkTopPG,
        6 => LinkSubset::LinkNextPG,
        7 => LinkSubset::LinkPrevPG,
        9 => LinkSubset::LinkTopPGC,
        10 => LinkSubset::LinkNextPGC,
        11 => LinkSubset::LinkPrevPGC,
        12 => LinkSubset::LinkGoupPGC,
        13 => LinkSubset::LinkTailPGC,
        16 => LinkSubset::Rsm,
        other => LinkSubset::Invalid(other),
    }
}

/// The big-endian word of bytes `hi, lo`.
pub open spec fn word(hi: u8, lo: u8) -> u16 {
    (hi as int * 256 + lo as int) as u16
}

/// An operand that is an immediate word `(hi, lo)` when `direct`, else
/// the register named by `lo`.
pub open spec fn operand_of(direct: bool, hi: u8, lo: u8) -> Operand {
    if direct {
        Operand::Immediate(word(hi, lo))
    } else {
        Operand::Register(register_from_byte(lo))
    }
}

/// The `JumpSS` / `CallSS` destination carried by bytes 2..=5.
pub open spec fn jump_target(b: Seq<u8>) -> JumpSSTarget {
    let kind = b[5] / 64;
    if kind == 0 {
        JumpSSTarget::FirstPlay
    } else if kind == 1 {
        JumpSSTarget::VmgmMenu { menu: b[5] % 16 }
    } else if kind == 2 {
        JumpSSTarget::VtsmMenu { vts: b[4], ttn: b[3], menu: b[5] % 16 }
    } else {
        JumpSSTarget::VmgmPgcn { pgcn: word(b[2] % 128, b[3]) }
    }
}

/// The `CallSS` destination, with byte 4 as the resume cell.
pub open spec fn call_target(b: Seq<u8>) -> CallSSTarget {
    let kind = b[5] / 64;
    if kind == 0 {
        CallSSTarget::FirstPlay { rsm_cell: b[4] }
    } else if kind == 1 {
        CallSSTarget::VmgmMenu { menu: b[5] % 16, rsm_cell: b[4] }
    } else if kind == 2 {
        CallSSTarget::VtsmMenu { menu: b[5] % 16, rsm_cell: b[4] }
    } else {
        CallSSTarget::VmgmPgcn { pgcn: word(b[2] % 128, b[3]), rsm_cell: b[4] }
    }
}

/// The instruction encoded by the eight command bytes `b`.
pub open spec fn spec_decode(b: Seq<u8>) -> NavInstruction {
    let ty = b[0] / 32;
    let direct = (b[0] / 16) % 2 == 1;
    let sub = b[1] % 16;
    let hl = b[6] % 64;
    if ty == 0 {
        if sub == 0 {
            NavInstruction::Nop
        } else if sub == 1 {
            NavInstruction::Goto { line: b[7] }
        } else if sub == 2 {
            NavInstruction::Break
        } else if sub == 3 {
            NavInstruction::SetTmpPml { level: b[6] % 16, line: b[7] }
        } else {
            NavInstruction::Invalid
        }
    } else if ty == 1 {
        if !direct {
            if sub == 1 {
                NavInstruction::LinkSub { subset: link_subset_from_code(b[7]), hl_bn: hl }
            } else if sub == 4 {
                NavInstruction::LinkPgcn { pgcn: word(b[6] % 128, b[7]) }
            } else if sub == 5 {
                NavInstruction::LinkPttn { pttn: word(b[6] % 4, b[7]), hl_bn: b[6] / 4 }
            } else if sub == 6 {
                NavInstruction::LinkPgn { pgn: b[7] % 128, hl_bn: hl }
            } else if sub == 7 {
                NavInstruction::LinkCn { cn: b[7], hl_bn: hl }
            } else {
                NavInstruction::Invalid
            }
        } else {
            let cmd = b[1] % 16;
            if cmd == 1 {
                NavInstruction::Exit
            } else if cmd == 2 {
                NavInstruction::JumpTT { ttn: b[5] % 128 }
            } else if cmd == 3 {
                NavInstruction::JumpVtsTt { ttn: b[5] % 128 }
            } else if cmd == 5 {
                NavInstruction::JumpVtsPtt { ttn: b[5] % 128, pttn: word(b[2] % 4, b[3]) }
            } else if cmd == 6 {
                NavInstruction::JumpSs(jump_target(b))
            } else if cmd == 8 {
                NavInstruction::CallSs(call_target(b))
            } else {
                NavInstruction::Invalid
            }
        }
    } else if ty == 2 {
        let cmd = b[0] % 16;
        if cmd == 1 {
            NavInstruction::SetStn {
                direct,
                af: b[3] >= 128,
                audio_src: b[3] % 128,
                sf: b[4] >= 128,
                subpic_src: b[4] % 128,
                nf: b[5] >= 128,
                angle_src: b[5] % 128,
            }
        } else if cmd == 2 {
            NavInstruction::SetNvtmr {
                src: operand_of(direct, b[2], b[3]),
                pgcn: word(b[4] % 128, b[5]),
            }
        } else if cmd == 3 {
            NavInstruction::SetGprmMd {
                src: operand_of(direct, b[2], b[3]),
                dst: Register::Gprm(b[5] % 16),
                counter: b[4] >= 128,
            }
        } else if cmd == 4 {
            NavInstruction::SetAmxMd { src: operand_of(direct, b[2], b[3]) }
        } else if cmd == 6 {
            NavInstruction::SetHlBtnn { src: operand_of(direct, b[4], b[5]) }
        } else {
            NavInstruction::Invalid
        }
    } else if ty == 3 {
        NavInstruction::SetReg {
            op: set_op_from_code(b[0]),
            dst: Register::Gprm(b[3] % 16),
            src: operand_of(direct, b[4], b[5]),
        }
    } else if ty == 4 {
        NavInstruction::SetCLnk {
            set_op: set_op_from_code(b[0]),
            cmp_op: cmp_from_code(b[1] / 16),
            scr: Register::Gprm(b[1] % 16),
            set_src: operand_of(direct, b[2], b[3]),
            cmp_rhs: Operand::Register(register_from_byte(b[4])),
            hl_bn: hl,
            link: link_subset_from_code(b[7]),
        }
    } else if ty == 5 {
        NavInstruction::CSetCLnk {
            set_op: set_op_from_code(b[0]),
            cmp_op: cmp_from_code(b[1] / 16),
            sr1: Register::Gprm(b[1] % 16),
            set_src: operand_of(direct, b[2], b[3]),
            cmp_lhs: register_from_byte(b[4]),
            cmp_rhs: Operand::Register(register_from_byte(b[5])),
            hl_bn: hl,
            link: link_subset_from_code(b[7]),
        }
    } else if ty == 6 {
        NavInstruction::CmpSetLnk {
            set_op: set_op_from_code(b[0]),
            cmp_op: cmp_from_code(b[1] / 16),
            sr1: Register::Gprm(b[1] % 16),
            set_src: operand_of(direct, b[2], b[3]),
            cmp_rhs: Operand::Register(register_from_byte(b[4])),
            hl_bn: hl,
            link: link_subset_from_code(b[7]),
        }
    } else {
        NavInstruction::Unknown
    }
}

fn word_of(hi: u8, lo: u8) -> (r: u16)
    ensures
        r == word(hi, lo),
{
    hi as u16 * 256 + lo as u16
}

fn operand_from(direct: bool, hi: u8, lo: u8) -> (r: Operand)
    ensures
        r == operand_of(direct, hi, lo),
{
    if direct {
        Operand::Immediate(word_of(hi, lo))
    } else {
        Operand::Register(register_from_byte(lo))
    }
}

impl NavCommand {
    /// Decode the eight command bytes.
    pub fn decode(&self) -> (r: NavInstruction)
        ensures
            r == spec_decode(self.bytes@),
    {
        let b = &self.bytes;
        let ty = b[0] / 32;
        let direct = (b[0] / 16) % 2 == 1;
        let sub = b[1] % 16;
        let hl = b[6] % 64;
        if ty == 0 {
            if sub == 0 {
                NavInstruction::Nop
            } else if sub == 1 {
                NavInstruction::Goto { line: b[7] }
            } else if sub == 2 {
                NavInstruction::Break
            } else if sub == 3 {
                NavInstruction::SetTmpPml { level: b[6] % 16, line: b[7] }
            } else {
                NavInstruction::Invalid
            }
        } else if ty == 1 {
            if !direct {
                if sub == 1 {
                    NavInstruction::LinkSub { subset: link_subset_from_code(b[7]), hl_bn: hl }
                } else if sub == 4 {
                    NavInstruction::LinkPgcn { pgcn: word_of(b[6] % 128, b[7]) }
                } else if sub == 5 {
                    NavInstruction::LinkPttn { pttn: word_of(b[6] % 4, b[7]), hl_bn: b[6] / 4 }
                } else if sub == 6 {
                    NavInstruction::LinkPgn { pgn: b[7] % 128, hl_bn: hl }
                } else if sub == 7 {
                    NavInstruction::LinkCn { cn: b[7], hl_bn: hl }
                } else {
                    NavInstruction::Invalid
                }
            } else {
                let kind = b[5] / 64;
                if sub == 1 {
                    NavInstruction::Exit
                } else if sub == 2 {
                    NavInstruction::JumpTT { ttn: b[5] % 128 }
                } else if sub == 3 {
                    NavInstruction::JumpVtsTt { ttn: b[5] % 128 }
                } else if sub == 5 {
                    NavInstruction::JumpVtsPtt { ttn: b[5] % 128, pttn: word_of(b[2] % 4, b[3]) }
                } else if sub == 6 {
                    let t = if kind == 0 {
                        JumpSSTarget::FirstPlay
                    } else if kind == 1 {
                        JumpSSTarget::VmgmMenu { menu: b[5] % 16 }
                    } else if kind == 2 {
                        JumpSSTarget::VtsmMenu { vts: b[4], ttn: b[3], menu: b[5] % 16 }
                    } else {
                        JumpSSTarget::VmgmPgcn { pgcn: word_of(b[2] % 128, b[3]) }
                    };
                    NavInstruction::JumpSs(t)
                } else if sub == 8 {
                    let t = if kind == 0 {
                        CallSSTarget::FirstPlay { rsm_cell: b[4] }
                    } else if kind == 1 {
                        CallSSTarget::VmgmMenu { menu: b[5] % 16, rsm_cell: b[4] }
                    } else if kind == 2 {
                        CallSSTarget::VtsmMenu { menu: b[5] % 16, rsm_cell: b[4] }
                    } else {
                        CallSSTarget::VmgmPgcn { pgcn: word_of(b[2] % 128, b[3]), rsm_cell: b[4] }
                    };
                    NavInstruction::CallSs(t)
                } else {
                    NavInstruction::Invalid
                }
            }
        } else if ty == 2 {
            let cmd = b[0] % 16;
            if cmd == 1 {
                NavInstruction::SetStn {
                    direct,
                    af: b[3] >= 128,
                    audio_src: b[3] % 128,
                    sf: b[4] >= 128,
                    subpic_src: b[4] % 128,
                    nf: b[5] >= 128,
                    angle_src: b[5] % 128,
                }
            } else if cmd == 2 {
                NavInstruction::SetNvtmr {
                    src: operand_from(direct, b[2], b[3]),
                    pgcn: word_of(b[4] % 128, b[5]),
                }
            } else if cmd == 3 {
                NavInstruction::SetGprmMd {
                    src: operand_from(direct, b[2], b[3]),
                    dst: Register::Gprm(b[5] % 16),
                    counter: b[4] >= 128,
                }
            } else if cmd == 4 {
                NavInstruction::SetAmxMd { src: operand_from(direct, b[2], b[3]) }
            } else if cmd == 6 {
                NavInstruction::SetHlBtnn { src: operand_from(direct, b[4], b[5]) }
            } else {
                NavInstruction::Invalid
            }
        } else if ty == 3 {
            NavInstruction::SetReg {
                op: set_op_from_code(b[0]),
                dst: Register::Gprm(b[3] % 16),
                src: operand_from(direct, b[4], b[5]),
            }
        } else if ty == 4 {
            NavInstruction::SetCLnk {
                set_op: set_op_from_code(b[0]),
                cmp_op: cmp_from_code(b[1] / 16),
                scr: Register::Gprm(b[1] % 16),
                set_src: operand_from(direct, b[2], b[3]),
                cmp_rhs: Operand::Register(register_from_byte(b[4])),
                hl_bn: hl,
                link: link_subset_from_code(b[7]),
            }
        } else if ty == 5 {
            NavInstruction::CSetCLnk {
                set_op: set_op_from_code(b[0]),
                cmp_op: cmp_from_code(b[1] / 16),
                sr1: Register::Gprm(b[1] % 16),
                set_src: operand_from(direct, b[2], b[3]),
                cmp_lhs: register_from_byte(b[4]),
                cmp_rhs: Operand::Register(register_from_byte(b[5])),
                hl_bn: hl,
                link: link_subset_from_code(b[7]),
            }
        } else if ty == 6 {
            NavInstruction::CmpSetLnk {
                set_op: set_op_from_code(b[0]),
                cmp_op: cmp_from_code(b[1] / 16),
                sr1: Register::Gprm(b[1] % 16),
                set_src: operand_from(direct, b[2], b[3]),
                cmp_rhs: Operand::Register(register_from_byte(b[4])),
                hl_bn: hl,
                link: link_subset_from_code(b[7]),
            }
        } else {
            NavInstruction::Unknown
        }
    }
}

} // verus!
