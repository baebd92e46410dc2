//! Navigation-pack structures of a VOBU: the highlight (menu button)
//! information of the PCI packet and the general information and
//! search table of the DSI packet.

use vstd::prelude::*;

use crate::error::{Error, Result};
use crate::ifo::{be32_at, NavCommand};
use crate::nav::{spec_decode, NavInstruction};

verus! {

/// Selection / action colour-contrast pair of one button colour set.
#[derive(Debug, Clone, Copy, Default, PartialEq, Eq)]
pub struct SlColi {
    /// Colour and contrast while selected.
    pub selection_color_contrast: u32,
    /// Colour and contrast while actioned.
    pub action_color_contrast: u32,
}

/// One button of a highlight (`BTN_IT`).
#[derive(Debug, Clone, Copy, PartialEq, Eq)]
pub struct ButtonInfo {
    /// Button colour set (`1..=3`, `0` = none).
    pub btn_coln: u8,
    /// Left edge.
    pub start_x: u16,
    /// Right edge.
    pub end_x: u16,
    /// Top edge.
    pub start_y: u16,
    /// Bottom edge.
    pub end_y: u16,
    /// Selecting the button actions it at once.
    pub auto_action: bool,
    /// Button above (`0` = none).
    pub up: u8,
    /// Button below.
    pub down: u8,
    /// Button to the left.
    pub left: u8,
    /// Button to the right.
    pub right: u8,
    /// The button's navigation command.
    pub command: [u8; 8],
}

impl ButtonInfo {
    /// The button's decoded command.
    pub fn command_instruction(&self) -> (r: NavInstruction)
        ensures
            r == spec_decode(self.command@),
    {
        let c = NavCommand { bytes: self.command };
        c.decode()
    }
}

/// The highlight information of a PCI packet (`HLI`).
#[derive(Debug, Clone, PartialEq, Eq)]
pub struct HighlightInfo {
    /// Highlight start time.
    pub hli_s_ptm: u32,
    /// Highlight end time.
    pub hli_e_ptm: u32,
    /// Button-selection end time.
    pub btn_sl_e_ptm: u32,
    /// Button mode.
    pub btn_md: u16,
    /// Starting button number.
    pub btn_sn: u8,
    /// Number of buttons.
    pub btn_ns: u8,
    /// Number of numerically selectable buttons.
    pub nsl_btn_ns: u8,
    /// Forcibly selected button (`0` = none).
    pub fosl_btnn: u8,
    /// Forcibly actioned button (`0` = none).
    pub foac_btnn: u8,
    /// The three button colour sets.
    pub sl_coli: [SlColi; 3],
    /// The buttons, button 1 first.
    pub buttons: Vec<ButtonInfo>,
}

/// General information of a DSI packet (`DSI_GI`).
#[derive(Debug, Clone, Copy, PartialEq, Eq)]
pub struct DsiGi {
    /// System clock reference of the nav pack.
    pub nv_pck_scr: u32,
    /// Logical block number of the nav pack.
    pub nv_pck_lbn: u32,
    /// End address of the VOBU (relative).
    pub vobu_ea: u32,
    /// End address of the first reference frame (relative).
    pub vobu_1stref_ea: u32,
    /// End address of the second reference frame (relative).
    pub vobu_2ndref_ea: u32,
    /// End address of the third reference frame (relative).
    pub vobu_3rdref_ea: u32,
}

/// The VOBU search-information table of a DSI packet: 42 raw pointer
/// words.
#[derive(Debug, Clone, PartialEq, Eq)]
pub struct VobuSri {
    /// The raw pointer words in table order.
    pub words: Vec<u32>,
}

impl VobuSri {
    /// Offset of the table inside the DSI body.
    pub const PACKET_OFFSET: usize = 0xEA;
    /// Number of pointer words.
    pub const WORD_COUNT: usize = 42;
    /// Bit 31 of a pointer: the target exists.
    pub const VALID_BIT: u32 = 0x8000_0000;
    /// Bit 30 of a pointer: VOBUs lie between here and the target.
    pub const INTERMEDIATE_BIT: u32 = 0x4000_0000;
}

/// A parsed DSI packet body.
#[derive(Debug, Clone, PartialEq, Eq)]
pub struct DsiPacket {
    /// General information.
    pub general_info: DsiGi,
    /// VOBU search information.
    pub vobu_sri: VobuSri,
}

impl DsiPacket {
    /// Size of a DSI packet body.
    pub const BODY_SIZE: usize = 0x222;

    /// Parse a DSI body; `InvalidUdf` when it is shorter than
    /// [`Self::BODY_SIZE`].
    pub fn parse(b: &[u8]) -> (r: Result<DsiPacket>)
        ensures
            r is Ok <==> b@.len() >= 0x222,
            r matches Err(e) ==> e is InvalidUdf,
            r matches Ok(d) ==> d.general_info.nv_pck_scr == be32_at(b@, 0)
                && d.general_info.nv_pck_lbn == be32_at(b@, 4) && d.general_info.vobu_ea
                == be32_at(b@, 8) && d.general_info.vobu_1stref_ea == be32_at(b@, 0x0C)
                && d.general_info.vobu_2ndref_ea == be32_at(b@, 0x10)
                && d.general_info.vobu_3rdref_ea == be32_at(b@, 0x14) && d.vobu_sri.words@.len()
                == 42 && forall|k: int|
                0 <= k < 42 ==> #[trigger] d.vobu_sri.words@[k] == be32_at(b@, 0xEA + 4 * k),
    {
        let n = b.len();
        if n < 0x222 {
            return Err(Error::InvalidUdf("DSI packet truncated"));
        }
        let gi = DsiGi {
            nv_pck_scr: be32(b, 0),
            nv_pck_lbn: be32(b, 4),
            vobu_ea: be32(b, 8),
            vobu_1stref_ea: be32(b, 0x0C),
            vobu_2ndref_ea: be32(b, 0x10),
            vobu_3rdref_ea: be32(b, 0x14),
        };
        let mut words: Vec<u32> = Vec::new();
        let mut k: usize = 0;
        while k < 42
            invariant
                n == b@.len(),
                n >= 0x222,
                k <= 42,
                words@.len() == k,
                forall|j: int| 0 <= j < k ==> #[trigger] words@[j] == be32_at(b@, 0xEA + 4 * j),
            decreases 42 - k,
        {
            words.push(be32(b, 0xEA + 4 * k));
            k = k + 1;
        }
        Ok(DsiPacket { general_info: gi, vobu_sri: VobuSri { words } })
    }
}

fn be32(b: &[u8], i: usize) -> (r: u32)
    requires
        i + 4 <= b@.len(),
    ensures
        r == be32_at(b@, i as int),
{
    b[i] as u32 * 0x100_0000 + b[i + 1] as u32 * 0x1_0000 + b[i + 2] as u32 * 0x100 + b[i + 3] as u32
}

} // verus!
