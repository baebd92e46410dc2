//! DVD-Video file classification: the `VIDEO_TS/` naming convention,
//! the classified file list of a disc, and title-plan addressing.

use vstd::prelude::*;

use crate::engine::{plan_title_cells, spec_plan_title, PlannedCell};
use crate::ifo::{DvdTitleEntry, Pgc, PgciSrp, TtSrpt};
use crate::error::{Error, Result};
use crate::udf::UdfFile;
use vstd::utf8::encode_utf8;

verus! {

/// Kind of a `VIDEO_TS/` file, from its name alone.
#[derive(Debug, Clone, Copy, PartialEq, Eq, Structural)]
pub enum DvdFileKind {
    /// `VIDEO_TS.IFO`.
    Vmgi,
    /// `VIDEO_TS.VOB`.
    VmgMenu,
    /// `VIDEO_TS.BUP`.
    VmgiBup,
    /// `VTS_xx_0.IFO`.
    Vtsi(u8),
    /// `VTS_xx_0.VOB`.
    VtsMenu(u8),
    /// `VTS_xx_N.VOB`, `N` in `1..=9`.
    VtsTitle {
        /// Title set.
        ts: u8,
        /// VOB index.
        vob: u8,
    },
    /// `VTS_xx_0.BUP`.
    VtsiBup(u8),
}

/// A classified file.
#[derive(Debug, Clone)]
pub struct DvdFile {
    /// Its kind.
    pub kind: DvdFileKind,
    /// Its name as found.
    pub name: String,
    /// First sector.
    pub lba: u32,
    /// Length in bytes.
    pub size: u64,
    /// Title set (`0` for the video manager).
    pub title_set: u8,
    /// VOB index of a title VOB, else `0`.
    pub vob_index: u8,
}

/// A detected DVD-Video disc.
#[derive(Debug, Clone)]
pub struct DvdDisc {
    /// Volume identifier.
    pub volume_id: String,
    /// Number of title sets present (distinct title-set numbers above 0).
    pub title_set_count: u8,
    /// The `VIDEO_TS/` files, sorted by title set, VOB index and kind.
    pub video_ts_files: Vec<DvdFile>,
    /// The `AUDIO_TS/` files.
    pub audio_ts_files: Vec<DvdFile>,
}

/// The upper-case form that `str::to_uppercase` gives of `s`.
pub uninterp spec fn uppercase_of(s: Seq<char>) -> Seq<char>;

/// `str::to_uppercase`: claimed to return the upper-case form
/// [`uppercase_of`] of its argument, a function of the argument alone.
#[verifier::external_body]
fn to_upper(s: &str) -> (r: String)
    ensures
        r@ == uppercase_of(s@),
{
    s.to_uppercase()
}

/// `"VIDEO_TS."`.
pub open spec fn video_ts_stem() -> Seq<u8> {
    seq![0x56u8, 0x49u8, 0x44u8, 0x45u8, 0x4Fu8, 0x5Fu8, 0x54u8, 0x53u8, 0x2Eu8]
}

/// `"VTS_"`.
pub open spec fn vts_stem() -> Seq<u8> {
    seq![0x56u8, 0x54u8, 0x53u8, 0x5Fu8]
}

/// `1` for `"IFO"`, `2` for `"VOB"`, `3` for `"BUP"`, else `0`.
pub open spec fn ext_code(e: Seq<u8>) -> u8 {
    if e == seq![0x49u8, 0x46u8, 0x4Fu8] {
        1
    } else if e == seq![0x56u8, 0x4Fu8, 0x42u8] {
        2
    } else if e == seq![0x42u8, 0x55u8, 0x50u8] {
        3
    } else {
        0
    }
}

/// An ASCII digit.
pub open spec fn is_digit(c: u8) -> bool {
    0x30 <= c <= 0x39
}

/// Two characters read as an unsigned decimal number: two digits, or
/// `+` and a digit.
pub open spec fn parse_two(a: u8, b: u8) -> Option<u8> {
    if a == 0x2B && is_digit(b) {
        Some((b - 0x30) as u8)
    } else if is_digit(a) && is_digit(b) {
        Some(((a - 0x30) * 10 + (b - 0x30)) as u8)
    } else {
        None
    }
}

/// The kind of an upper-case name `VTS_tt_v.EXT`: title set `tt` in
/// `1..=99`; `v == 0` with `IFO` / `VOB` / `BUP`, or `v` in `1..=9`
/// with `VOB`.
pub open spec fn spec_vts_kind(b: Seq<u8>) -> Option<DvdFileKind> {
    if b.len() != 12 || b.subrange(0, 4) != vts_stem() || b[6] != 0x5F || b[8] != 0x2E || !is_digit(
        b[7],
    ) {
        None
    } else {
        match parse_two(b[4], b[5]) {
            None => None,
            Some(ts) => {
                let vob = (b[7] - 0x30) as u8;
                let ext = ext_code(b.subrange(9, 12));
                if !(1 <= ts <= 99) {
                    None
                } else if vob == 0 && ext == 1 {
                    Some(DvdFileKind::Vtsi(ts))
                } else if vob == 0 && ext == 2 {
                    Some(DvdFileKind::VtsMenu(ts))
                } else if vob == 0 && ext == 3 {
                    Some(DvdFileKind::VtsiBup(ts))
                } else if 1 <= vob <= 9 && ext == 2 {
                    Some(DvdFileKind::VtsTitle { ts, vob })
                } else {
                    None
                }
            },
        }
    }
}

/// The kind of an upper-case file name given as UTF-8 bytes.
pub open spec fn spec_name_kind(b: Seq<u8>) -> Option<DvdFileKind> {
    if b.len() == 12 && b.subrange(0, 9) == video_ts_stem() && ext_code(b.subrange(9, 12)) != 0 {
        let ext = ext_code(b.subrange(9, 12));
        if ext == 1 {
            Some(DvdFileKind::Vmgi)
        } else if ext == 2 {
            Some(DvdFileKind::VmgMenu)
        } else {
            Some(DvdFileKind::VmgiBup)
        }
    } else {
        spec_vts_kind(b)
    }
}

/// The kind of a `VIDEO_TS/` file named `name`, compared without case.
pub open spec fn spec_file_kind(name: Seq<char>) -> Option<DvdFileKind> {
    spec_name_kind(encode_utf8(uppercase_of(name)))
}

fn ext_code_at(b: &[u8], at: usize) -> (r: u8)
    requires
        at + 3 <= b@.len(),
    ensures
        r == ext_code(b@.subrange(at as int, at + 3)),
{
    let (x, y, z) = (b[at], b[at + 1], b[at + 2]);
    assert(b@.subrange(at as int, at + 3) =~= seq![x, y, z]);
    if x == 0x49 && y == 0x46 && z == 0x4F {
        1
    } else if x == 0x56 && y == 0x4F && z == 0x42 {
        2
    } else if x == 0x42 && y == 0x55 && z == 0x50 {
        3
    } else {
        0
    }
}

fn is_video_ts_stem(b: &[u8]) -> (r: bool)
    requires
        b@.len() == 12,
    ensures
        r == (b@.subrange(0, 9) == video_ts_stem()),
{
    let r = b[0] == 0x56 && b[1] == 0x49 && b[2] == 0x44 && b[3] == 0x45 && b[4] == 0x4F && b[5]
        == 0x5F && b[6] == 0x54 && b[7] == 0x53 && b[8] == 0x2E;
    proof {
        let sub = b@.subrange(0, 9);
        if r {
            assert(sub =~= video_ts_stem());
        } else if sub == video_ts_stem() {
            assert(sub[0] == b[0] && sub[1] == b[1] && sub[2] == b[2] && sub[3] == b[3]);
            assert(sub[4] == b[4] && sub[5] == b[5] && sub[6] == b[6] && sub[7] == b[7]);
            assert(sub[8] == b[8]);
        }
    }
    r
}

fn parse_two_exec(a: u8, b: u8) -> (r: Option<u8>)
    ensures
        r == parse_two(a, b),
{
    if a == 0x2B && 0x30 <= b && b <= 0x39 {
        Some(b - 0x30)
    } else if 0x30 <= a && a <= 0x39 && 0x30 <= b && b <= 0x39 {
        Some((a - 0x30) * 10 + (b - 0x30))
    } else {
        None
    }
}

fn parse_vts_filename(b: &[u8]) -> (r: Option<DvdFileKind>)
    ensures
        r == spec_vts_kind(b@),
{
    if b.len() != 12 {
        return None;
    }
    let stem_ok = b[0] == 0x56 && b[1] == 0x54 && b[2] == 0x53 && b[3] == 0x5F;
    proof {
        let sub = b@.subrange(0, 4);
        if stem_ok {
            assert(sub =~= vts_stem());
        } else if sub == vts_stem() {
            assert(sub[0] == b[0] && sub[1] == b[1] && sub[2] == b[2] && sub[3] == b[3]);
        }
    }
    if !stem_ok || b[6] != 0x5F || b[8] != 0x2E || !(0x30 <= b[7] && b[7] <= 0x39) {
        return None;
    }
    let ts = match parse_two_exec(b[4], b[5]) {
        None => return None,
        Some(t) => t,
    };
    let vob = b[7] - 0x30;
    let ext = ext_code_at(b, 9);
    if !(1 <= ts && ts <= 99) {
        None
    } else if vob == 0 && ext == 1 {
        Some(DvdFileKind::Vtsi(ts))
    } else if vob == 0 && ext == 2 {
        Some(DvdFileKind::VtsMenu(ts))
    } else if vob == 0 && ext == 3 {
        Some(DvdFileKind::VtsiBup(ts))
    } else if 1 <= vob && vob <= 9 && ext == 2 {
        Some(DvdFileKind::VtsTitle { ts, vob })
    } else {
        None
    }
}

/// Classify an upper-case `VIDEO_TS/` file name, given as its UTF-8
/// bytes (see [`spec_name_kind`]).
pub fn name_kind(b: &[u8]) -> (r: Option<DvdFileKind>)
    ensures
        r == spec_name_kind(b@),
{
    if b.len() == 12 && is_video_ts_stem(b) {
        let ext = ext_code_at(b, 9);
        if ext == 1 {
            return Some(DvdFileKind::Vmgi);
        } else if ext == 2 {
            return Some(DvdFileKind::VmgMenu);
        } else if ext == 3 {
            return Some(DvdFileKind::VmgiBup);
        }
    }
    parse_vts_filename(b)
}

/// Classify a `VIDEO_TS/` file by its name, without regard to case
/// (see [`spec_file_kind`]).
pub fn classify_video_ts_file(e: &UdfFile) -> (r: Option<DvdFileKind>)
    ensures
        r == spec_file_kind(e.name@),
{
    let upper = to_upper(e.name.as_str());
    let b = upper.as_str().as_bytes();
    name_kind(b)
}

/// Classify an `AUDIO_TS/` file: this library recognises none.
pub fn classify_audio_ts_file(_e: &UdfFile) -> (r: Option<DvdFileKind>)
    ensures
        r is None,
{
    None
}

/// Sort rank of a kind within a title set and VOB index: information
/// files, then menus, then title VOBs, then backups.
pub open spec fn kind_priority(k: DvdFileKind) -> u8 {
    match k {
        DvdFileKind::Vmgi | DvdFileKind::Vtsi(_) => 0,
        DvdFileKind::VmgMenu | DvdFileKind::VtsMenu(_) => 1,
        DvdFileKind::VtsTitle { .. } => 2,
        DvdFileKind::VmgiBup | DvdFileKind::VtsiBup(_) => 3,
    }
}

fn sort_kind_priority(k: DvdFileKind) -> (r: u8)
    ensures
        r == kind_priority(k),
{
    match k {
        DvdFileKind::Vmgi => 0,
        DvdFileKind::Vtsi(_) => 0,
        DvdFileKind::VmgMenu => 1,
        DvdFileKind::VtsMenu(_) => 1,
        DvdFileKind::VtsTitle { .. } => 2,
        DvdFileKind::VmgiBup => 3,
        DvdFileKind::VtsiBup(_) => 3,
    }
}

/// The classified record of entry `e` of kind `kind`: its first extent
/// (else its control block) gives the sector; title set and VOB index
/// come from the kind.
pub open spec fn spec_build(e: UdfFile, kind: DvdFileKind) -> DvdFile {
    DvdFile {
        kind,
        name: e.name,
        lba: if e.extents@.len() > 0 {
            e.extents@[0].block_location
        } else {
            e.icb.location.block
        },
        size: e.length,
        title_set: match kind {
            DvdFileKind::Vtsi(ts) | DvdFileKind::VtsMenu(ts) | DvdFileKind::VtsiBup(ts) => ts,
            DvdFileKind::VtsTitle { ts, .. } => ts,
            _ => 0,
        },
        vob_index: match kind {
            DvdFileKind::VtsTitle { vob, .. } => vob,
            _ => 0,
        },
    }
}

fn build_dvd_file(e: &UdfFile, kind: DvdFileKind) -> (r: DvdFile)
    ensures
        r == spec_build(*e, kind),
{
    let lba = if e.extents.len() > 0 {
        e.extents[0].block_location
    } else {
        e.icb.location.block
    };
    let (title_set, vob_index): (u8, u8) = match kind {
        DvdFileKind::Vmgi | DvdFileKind::VmgMenu | DvdFileKind::VmgiBup => (0, 0),
        DvdFileKind::Vtsi(ts) | DvdFileKind::VtsMenu(ts) | DvdFileKind::VtsiBup(ts) => (ts, 0),
        DvdFileKind::VtsTitle { ts, vob } => (ts, vob),
    };
    DvdFile { kind, name: e.name.clone(), lba, size: e.length, title_set, vob_index }
}

/// The classified `VIDEO_TS/` files of `es`, in entry order:
/// directories and unrecognised names are dropped.
pub open spec fn spec_classified(es: Seq<UdfFile>) -> Seq<DvdFile>
    decreases es.len(),
{
    if es.len() == 0 {
        Seq::empty()
    } else {
        let rest = spec_classified(es.drop_last());
        let e = es.last();
        match spec_file_kind(e.name@) {
            Some(k) => if !e.is_dir {
                rest.push(spec_build(e, k))
            } else {
                rest
            },
            None => rest,
        }
    }
}

/// `a` sorts no later than `b`: by title set, then VOB index, then kind.
pub open spec fn file_key_le(a: DvdFile, b: DvdFile) -> bool {
    ||| a.title_set < b.title_set
    ||| a.title_set == b.title_set && a.vob_index < b.vob_index
    ||| a.title_set == b.title_set && a.vob_index == b.vob_index && kind_priority(a.kind)
        <= kind_priority(b.kind)
}

/// Where `x` goes into the sorted `s`: after every file that sorts no
/// later than it.
pub open spec fn insert_pos(s: Seq<DvdFile>, x: DvdFile) -> int
    decreases s.len(),
{
    if s.len() == 0 {
        0
    } else if file_key_le(s.last(), x) {
        s.len() as int
    } else {
        insert_pos(s.drop_last(), x)
    }
}

/// The files of `s` in stable sorted order.
pub open spec fn sort_files(s: Seq<DvdFile>) -> Seq<DvdFile>
    decreases s.len(),
{
    if s.len() == 0 {
        s
    } else {
        let t = sort_files(s.drop_last());
        t.insert(insert_pos(t, s.last()), s.last())
    }
}

/// Some file of `s` belongs to title set `t`.
pub open spec fn has_title_set(s: Seq<DvdFile>, t: u8) -> bool {
    exists|k: int| 0 <= k < s.len() && (#[trigger] s[k]).title_set == t
}

/// How many of the title sets `1..=n` some file of `s` belongs to.
pub open spec fn count_title_sets(s: Seq<DvdFile>, n: nat) -> nat
    decreases n,
{
    if n == 0 {
        0
    } else {
        count_title_sets(s, (n - 1) as nat) + if has_title_set(s, n as u8) {
            1nat
        } else {
            0nat
        }
    }
}

/// One of the files is `VIDEO_TS.IFO`.
pub open spec fn has_vmgi(s: Seq<DvdFile>) -> bool {
    exists|k: int| 0 <= k < s.len() && (#[trigger] s[k]).kind is Vmgi
}

fn key_le(a: &DvdFile, b: &DvdFile) -> (r: bool)
    ensures
        r == file_key_le(*a, *b),
{
    a.title_set < b.title_set || (a.title_set == b.title_set && a.vob_index < b.vob_index) || (
    a.title_set == b.title_set && a.vob_index == b.vob_index && sort_kind_priority(a.kind)
        <= sort_kind_priority(b.kind))
}

proof fn lemma_insert_pos_range(s: Seq<DvdFile>, x: DvdFile)
    ensures
        0 <= insert_pos(s, x) <= s.len(),
    decreases s.len(),
{
    if s.len() > 0 && !file_key_le(s.last(), x) {
        lemma_insert_pos_range(s.drop_last(), x);
    }
}

proof fn lemma_insert_pos_is(s: Seq<DvdFile>, x: DvdFile, j: int)
    requires
        0 <= j <= s.len(),
        forall|k: int| j <= k < s.len() ==> !file_key_le(#[trigger] s[k], x),
        j == 0 || file_key_le(s[j - 1], x),
    ensures
        insert_pos(s, x) == j,
    decreases s.len(),
{
    if s.len() > 0 && j < s.len() {
        assert(!file_key_le(s[s.len() - 1], x));
        lemma_insert_pos_is(s.drop_last(), x, j);
    }
}

fn insert_sorted(out: &mut Vec<DvdFile>, x: DvdFile)
    ensures
        final(out)@ == old(out)@.insert(insert_pos(old(out)@, x), x),
{
    let mut j = out.len();
    while j > 0 && !key_le(&out[j - 1], &x)
        invariant
            j <= out@.len(),
            forall|k: int| j <= k < out@.len() ==> !file_key_le(#[trigger] out@[k], x),
        decreases j,
    {
        j = j - 1;
    }
    proof {
        lemma_insert_pos_is(out@, x, j as int);
    }
    out.insert(j, x);
}

fn has_ts(files: &Vec<DvdFile>, t: u8) -> (r: bool)
    ensures
        r == has_title_set(files@, t),
{
    let mut i: usize = 0;
    while i < files.len()
        invariant
            i <= files@.len(),
            forall|k: int| 0 <= k < i ==> (#[trigger] files@[k]).title_set != t,
        decreases files@.len() - i,
    {
        if files[i].title_set == t {
            return true;
        }
        i = i + 1;
    }
    false
}

proof fn lemma_count_title_sets_bound(s: Seq<DvdFile>, n: nat)
    ensures
        count_title_sets(s, n) <= n,
    decreases n,
{
    if n > 0 {
        lemma_count_title_sets_bound(s, (n - 1) as nat);
    }
}

fn count_ts(files: &Vec<DvdFile>) -> (r: u8)
    ensures
        r == count_title_sets(files@, 255),
{
    let mut count: u8 = 0;
    let mut t: u16 = 1;
    while t <= 255
        invariant
            1 <= t <= 256,
            count == count_title_sets(files@, (t - 1) as nat),
        decreases 256 - t,
    {
        proof {
            lemma_count_title_sets_bound(files@, t as nat);
        }
        if has_ts(files, t as u8) {
            count = count + 1;
        }
        t = t + 1;
    }
    count
}

impl DvdDisc {
    /// Build a disc from its `VIDEO_TS/` and `AUDIO_TS/` entries: the
    /// recognised files (directories dropped) in stable sorted order,
    /// and the number of title sets present; an error when `VIDEO_TS.IFO` is not
    /// among them.
    pub fn classify(volume_id: String, video_ts: &[UdfFile], audio_ts: &[UdfFile]) -> (r: Result<Self>)
        ensures
            match r {
                Err(e) => !has_vmgi(spec_classified(video_ts@)) && e is NotDvdVideo,
                Ok(d) => {
                    &&& has_vmgi(spec_classified(video_ts@))
                    &&& d.volume_id == volume_id
                    &&& d.video_ts_files@ == sort_files(spec_classified(video_ts@))
                    &&& d.title_set_count == count_title_sets(d.video_ts_files@, 255)
                    &&& d.audio_ts_files@.len() == 0
                },
            },
    {
        let mut sorted: Vec<DvdFile> = Vec::new();
        let mut found_vmgi = false;
        let mut i: usize = 0;
        while i < video_ts.len()
            invariant
                i <= video_ts@.len(),
                sorted@ == sort_files(spec_classified(video_ts@.take(i as int))),
                found_vmgi == has_vmgi(spec_classified(video_ts@.take(i as int))),
            decreases video_ts@.len() - i,
        {
            let ghost prefix = video_ts@.take(i as int);
            let ghost c0 = spec_classified(prefix);
            assert(video_ts@.take((i + 1) as int).drop_last() =~= prefix);
            let e = &video_ts[i];
            if !e.is_dir {
                match classify_video_ts_file(e) {
                    Some(kind) => {
                        let f = build_dvd_file(e, kind);
                        proof {
                            let c1 = c0.push(f);
                            assert(c1.drop_last() =~= c0);
                            if has_vmgi(c1) && !has_vmgi(c0) {
                                let k = choose|k: int| 0 <= k < c1.len() && (#[trigger] c1[k]).kind is Vmgi;
                                assert(k == c0.len());
                            }
                            if has_vmgi(c0) {
                                let k = choose|k: int| 0 <= k < c0.len() && (#[trigger] c0[k]).kind is Vmgi;
                                assert(c1[k] == c0[k]);
                            }
                            if kind is Vmgi {
                                assert(c1[c0.len() as int] == f);
                            }
                        }
                        if kind == DvdFileKind::Vmgi {
                            found_vmgi = true;
                        }
                        insert_sorted(&mut sorted, f);
                    },
                    None => {},
                }
            }
            i = i + 1;
        }
        assert(video_ts@.take(video_ts@.len() as int) =~= video_ts@);
        if !found_vmgi {
            return Err(Error::NotDvdVideo("VIDEO_TS/ present but VIDEO_TS.IFO is missing"));
        }
        let mut audio_ts_files: Vec<DvdFile> = Vec::new();
        let mut k: usize = 0;
        while k < audio_ts.len()
            invariant
                k <= audio_ts@.len(),
                audio_ts_files@.len() == 0,
            decreases audio_ts@.len() - k,
        {
            let e = &audio_ts[k];
            if !e.is_dir {
                match classify_audio_ts_file(e) {
                    Some(kind) => audio_ts_files.push(build_dvd_file(e, kind)),
                    None => {},
                }
            }
            k = k + 1;
        }
        let title_set_count = count_ts(&sorted);
        Ok(DvdDisc { volume_id, title_set_count, video_ts_files: sorted, audio_ts_files })
    }
}


/// The first file of kind `k`.
pub open spec fn first_of_kind(files: Seq<DvdFile>, k: DvdFileKind, i: int) -> Option<int>
    decreases files.len() - i,
{
    if i < 0 || i >= files.len() {
        None
    } else if files[i].kind == k {
        Some(i)
    } else {
        first_of_kind(files, k, i + 1)
    }
}

fn find_kind(files: &Vec<DvdFile>, k: DvdFileKind) -> (r: Option<usize>)
    ensures
        r matches Some(j) ==> j < files@.len() && first_of_kind(files@, k, 0) == Some(j as int),
        r is None ==> first_of_kind(files@, k, 0) is None,
{
    let mut i: usize = 0;
    while i < files.len()
        invariant
            i <= files@.len(),
            first_of_kind(files@, k, 0) == first_of_kind(files@, k, i as int),
        decreases files@.len() - i,
    {
        if files[i].kind == k {
            return Some(i);
        }
        i = i + 1;
    }
    None
}

impl DvdDisc {
    fn file_of_kind(&self, k: DvdFileKind) -> (r: Option<&DvdFile>)
        ensures
            match first_of_kind(self.video_ts_files@, k, 0) {
                Some(i) => r matches Some(f) && *f == self.video_ts_files@[i],
                None => r is None,
            },
    {
        match find_kind(&self.video_ts_files, k) {
            Some(i) => Some(&self.video_ts_files[i]),
            None => None,
        }
    }

    /// The title VOB `vob` of title set `ts`, when present.
    pub fn vts_title_vob(&self, ts: u8, vob: u8) -> (r: Option<&DvdFile>)
        ensures
            match first_of_kind(self.video_ts_files@, DvdFileKind::VtsTitle { ts, vob }, 0) {
                Some(i) => r matches Some(f) && *f == self.video_ts_files@[i],
                None => r is None,
            },
    {
        self.file_of_kind(DvdFileKind::VtsTitle { ts, vob })
    }

    /// `VIDEO_TS.IFO`, when present.
    pub fn vmgi(&self) -> (r: Option<&DvdFile>)
        ensures
            match first_of_kind(self.video_ts_files@, DvdFileKind::Vmgi, 0) {
                Some(i) => r matches Some(f) && *f == self.video_ts_files@[i],
                None => r is None,
            },
    {
        self.file_of_kind(DvdFileKind::Vmgi)
    }

    /// `VTS_xx_0.IFO` of title set `ts`, when present.
    pub fn vtsi(&self, ts: u8) -> (r: Option<&DvdFile>)
        ensures
            match first_of_kind(self.video_ts_files@, DvdFileKind::Vtsi(ts), 0) {
                Some(i) => r matches Some(f) && *f == self.video_ts_files@[i],
                None => r is None,
            },
    {
        self.file_of_kind(DvdFileKind::Vtsi(ts))
    }
}

impl DvdDisc {
    /// Where a cell's sectors lie on the disc: the title VOBs of title
    /// set `vts` run on from `VTS_xx_1.VOB`, so sector `first` of the
    /// chain is that file's first sector plus `first` (saturating). The
    /// result is that start and the count of sectors after it
    /// (`last - first`); `None` for an empty range (`last < first`); an
    /// error when the title set has no `VTS_xx_1.VOB`.
    pub fn cell_lbas(&self, vts: u8, first: u32, last: u32) -> (r: Result<Option<(u32, u32)>>)
        ensures
            match first_of_kind(self.video_ts_files@, DvdFileKind::VtsTitle { ts: vts, vob: 1 }, 0) {
                None => r matches Err(e) && e is NotDvdVideo,
                Some(i) => r matches Ok(o) && o == (if last < first {
                    None::<(u32, u32)>
                } else {
                    Some((sat_add32(self.video_ts_files@[i].lba, first), (last - first) as u32))
                }),
            },
    {
        let base = match self.vts_title_vob(vts, 1) {
            Some(f) => f.lba,
            None => {
                return Err(Error::NotDvdVideo("cell sectors: title set has no VTS_xx_1.VOB"));
            },
        };
        if last < first {
            return Ok(None);
        }
        Ok(Some((base.saturating_add(first), last - first)))
    }
}

/// `c` with an ASCII upper-case letter folded to lower case.
pub open spec fn ascii_lower(c: u8) -> u8 {
    if 0x41 <= c <= 0x5A {
        (c + 0x20) as u8
    } else {
        c
    }
}

/// Two byte strings are equal once ASCII letters are folded to lower
/// case (what `str::eq_ignore_ascii_case` compares).
pub open spec fn eq_ignore_ascii_case(a: Seq<u8>, b: Seq<u8>) -> bool {
    a.len() == b.len() && forall|i: int| 0 <= i < a.len() ==> ascii_lower(#[trigger] a[i]) == ascii_lower(b[i])
}

fn lower(c: u8) -> (r: u8)
    ensures
        r == ascii_lower(c),
{
    if 0x41 <= c && c <= 0x5A {
        c + 0x20
    } else {
        c
    }
}

fn bytes_eq_ignore_ascii_case(a: &[u8], b: &[u8]) -> (r: bool)
    ensures
        r == eq_ignore_ascii_case(a@, b@),
{
    if a.len() != b.len() {
        return false;
    }
    let mut i: usize = 0;
    while i < a.len()
        invariant
            a@.len() == b@.len(),
            i <= a@.len(),
            forall|k: int| 0 <= k < i ==> ascii_lower(#[trigger] a@[k]) == ascii_lower(b@[k]),
        decreases a@.len() - i,
    {
        if lower(a[i]) != lower(b[i]) {
            return false;
        }
        i = i + 1;
    }
    true
}

/// A directory entry named `name`, ASCII case aside.
pub open spec fn is_subdir_named(e: UdfFile, name: Seq<char>) -> bool {
    e.is_dir && eq_ignore_ascii_case(encode_utf8(e.name@), encode_utf8(name))
}

/// The first directory among `entries` named `name`, ASCII case aside.
pub fn find_subdirectory(entries: &[UdfFile], name: &str) -> (r: Option<usize>)
    ensures
        match r {
            Some(i) => i < entries@.len() && is_subdir_named(entries@[i as int], name@) && forall|k: int|
                0 <= k < i ==> !is_subdir_named(#[trigger] entries@[k], name@),
            None => forall|k: int| 0 <= k < entries@.len() ==> !is_subdir_named(#[trigger] entries@[k], name@),
        },
{
    let want = name.as_bytes();
    let mut i: usize = 0;
    while i < entries.len()
        invariant
            i <= entries@.len(),
            want@ == encode_utf8(name@),
            forall|k: int| 0 <= k < i ==> !is_subdir_named(#[trigger] entries@[k], name@),
        decreases entries@.len() - i,
    {
        let e = &entries[i];
        if e.is_dir && bytes_eq_ignore_ascii_case(e.name.as_str().as_bytes(), want) {
            return Some(i);
        }
        i = i + 1;
    }
    None
}

/// Find the volume root's `VIDEO_TS/` directory, which a DVD-Video disc
/// must have, and its `AUDIO_TS/` directory, which it may lack (ASCII
/// case aside): their positions among `root`, or an error without
/// `VIDEO_TS/`.
pub fn find_ts_directories(root: &[UdfFile]) -> (r: Result<(usize, Option<usize>)>)
    ensures
        (forall|k: int| 0 <= k < root@.len() ==> !is_subdir_named(#[trigger] root@[k], "VIDEO_TS"@))
            <==> r is Err,
        r matches Err(e) ==> e is NotDvdVideo,
        r matches Ok(p) ==> p.0 < root@.len() && is_subdir_named(root@[p.0 as int], "VIDEO_TS"@)
            && (forall|k: int| 0 <= k < p.0 ==> !is_subdir_named(#[trigger] root@[k], "VIDEO_TS"@))
            && match p.1 {
            Some(a) => a < root@.len() && is_subdir_named(root@[a as int], "AUDIO_TS"@) && forall|k: int|
                0 <= k < a ==> !is_subdir_named(#[trigger] root@[k], "AUDIO_TS"@),
            None => forall|k: int| 0 <= k < root@.len() ==> !is_subdir_named(#[trigger] root@[k], "AUDIO_TS"@),
        },
{
    let v = match find_subdirectory(root, "VIDEO_TS") {
        Some(i) => i,
        None => return Err(Error::NotDvdVideo("no VIDEO_TS/ directory at volume root")),
    };
    let a = find_subdirectory(root, "AUDIO_TS");
    Ok((v, a))
}

/// The disc's volume identifier: the volume's own identifier, or its
/// logical-volume identifier when the former is empty.
pub fn choose_volume_id(volume_identifier: String, logical_volume_identifier: String) -> (r: String)
    ensures
        r@ == (if volume_identifier@.len() == 0 {
            logical_volume_identifier@
        } else {
            volume_identifier@
        }),
{
    if volume_identifier.as_str().unicode_len() == 0 {
        logical_volume_identifier
    } else {
        volume_identifier
    }
}

/// The first table sector of an IFO: the least non-zero sector of
/// `tables`, or `fallback` (the sector after the IFO) when that is
/// less or none is non-zero.
pub open spec fn first_table_sector(tables: Seq<u32>, fallback: int) -> int
    decreases tables.len(),
{
    if tables.len() == 0 {
        fallback
    } else {
        let m = first_table_sector(tables.drop_last(), fallback);
        if tables.last() != 0 && tables.last() < m {
            tables.last() as int
        } else {
            m
        }
    }
}

/// Where the First-Play PGC of `VIDEO_TS.IFO` may be read: `None` when
/// its byte address is `0` (none authored); otherwise its byte address
/// and how many sectors to read, the sectors before the first table
/// (at least one). An error when the address does not lie before the
/// first table (`tables` are the VMGI table sectors, `last_sector_ifo`
/// the IFO's last sector).
pub fn fp_pgc_window(fp_pgc_addr: u32, tables: &[u32], last_sector_ifo: u32) -> (r: Result<
    Option<(usize, u32)>,
>)
    requires
        last_sector_ifo < u32::MAX,
    ensures
        fp_pgc_addr == 0 ==> r matches Ok(None),
        fp_pgc_addr != 0 ==> ({
            let f = first_table_sector(tables@, last_sector_ifo + 1);
            &&& (r is Err <==> fp_pgc_addr >= f * 2048)
            &&& (r matches Err(e) ==> e is InvalidUdf)
            &&& (r matches Ok(o) ==> o == Some(
                (fp_pgc_addr as usize, (if f == 0 { 1 } else { f }) as u32),
            ))
        }),
{
    if fp_pgc_addr == 0 {
        return Ok(None);
    }
    let fallback: u32 = last_sector_ifo + 1;
    let mut m: u32 = fallback;
    let mut i: usize = 0;
    while i < tables.len()
        invariant
            i <= tables@.len(),
            fallback == last_sector_ifo + 1,
            m == first_table_sector(tables@.take(i as int), fallback as int),
            m <= fallback,
        decreases tables@.len() - i,
    {
        proof {
            assert(tables@.take(i + 1).drop_last() =~= tables@.take(i as int));
            assert(tables@.take(i + 1).last() == tables@[i as int]);
        }
        let t = tables[i];
        if t != 0 && t < m {
            m = t;
        }
        i = i + 1;
    }
    proof {
        assert(tables@.take(tables@.len() as int) =~= tables@);
    }
    if fp_pgc_addr as u64 >= m as u64 * 2048 {
        return Err(Error::InvalidUdf("VMGI_MAT: fp_pgc_addr points past the first VMG table"));
    }
    let sectors = if m == 0 {
        1
    } else {
        m
    };
    Ok(Some((fp_pgc_addr as usize, sectors)))
}

/// The least element of `s` above `floor`, if any.
pub open spec fn min_above(s: Seq<u32>, floor: int) -> Option<int>
    decreases s.len(),
{
    if s.len() == 0 {
        None
    } else {
        let m = min_above(s.drop_last(), floor);
        let t = s.last() as int;
        if t > floor && (m is None || t < m.unwrap()) {
            Some(t)
        } else {
            m
        }
    }
}

/// How many sectors a reader of the IFO table at `table_sector` reads:
/// up to the next table boundary, the least of `later` and the sector
/// after the IFO that lies above it (the sector after the IFO when none
/// does), and at least one.
pub open spec fn spec_table_read_sectors(table_sector: u32, later: Seq<u32>, last_sector_ifo: u32) -> int {
    let end = last_sector_ifo + 1;
    let next = match min_above(later.push(end as u32), table_sector as int) {
        Some(m) => m,
        None => end,
    };
    if next > table_sector {
        next - table_sector
    } else {
        1
    }
}

/// The read of an IFO table: `None` when its sector is `0` (the table
/// is not authored), else the number of sectors to read (see
/// [`spec_table_read_sectors`]).
pub fn table_read_sectors(table_sector: u32, later: &[u32], last_sector_ifo: u32) -> (r: Option<u32>)
    requires
        last_sector_ifo < u32::MAX,
    ensures
        table_sector == 0 ==> r is None,
        table_sector != 0 ==> r == Some(
            spec_table_read_sectors(table_sector, later@, last_sector_ifo) as u32,
        ),
        table_sector != 0 ==> 1 <= spec_table_read_sectors(table_sector, later@, last_sector_ifo)
            <= u32::MAX,
{
    if table_sector == 0 {
        return None;
    }
    let end: u32 = last_sector_ifo + 1;
    let mut seen = false;
    let mut m: u32 = 0;
    let mut i: usize = 0;
    while i < later.len()
        invariant
            i <= later@.len(),
            seen ==> min_above(later@.take(i as int), table_sector as int) == Some(m as int),
            !seen ==> min_above(later@.take(i as int), table_sector as int) is None,
        decreases later@.len() - i,
    {
        proof {
            assert(later@.take(i + 1).drop_last() =~= later@.take(i as int));
            assert(later@.take(i + 1).last() == later@[i as int]);
        }
        let t = later[i];
        if t > table_sector && (!seen || t < m) {
            seen = true;
            m = t;
        }
        i = i + 1;
    }
    proof {
        assert(later@.take(later@.len() as int) =~= later@);
        assert(later@.push(end).drop_last() =~= later@);
        assert(later@.push(end).last() == end);
    }
    if end > table_sector && (!seen || end < m) {
        seen = true;
        m = end;
    }
    let next = if seen {
        m
    } else {
        end
    };
    if next > table_sector {
        Some(next - table_sector)
    } else {
        Some(1)
    }
}

/// Title `ttn` (1-based) of the title search-pointer table; an error
/// when the table has no such title.
pub fn title_entry(srpt: &TtSrpt, ttn: u8) -> (r: Result<DvdTitleEntry>)
    ensures
        r is Err <==> !(1 <= ttn <= srpt.entries@.len()),
        r matches Err(e) ==> e is InvalidUdf,
        r matches Ok(t) ==> t == srpt.entries@[ttn - 1],
{
    match srpt.title(ttn) {
        Some(t) => Ok(t),
        None => Err(Error::InvalidUdf("TT_SRPT: no such title")),
    }
}

/// The static plan of title `ttn`, listed as `entry`, from its title
/// set's search pointers, program chains and title-VOB sector: the
/// cells [`plan_title_cells`] schedules for camera angle `angle`, with
/// the addressing of `entry`. An error when the title set has no entry
/// PGC for the title.
pub fn assemble_title_plan(
    entry: DvdTitleEntry,
    ttn: u8,
    pgci_srp: &[PgciSrp],
    pgcs: &[Pgc],
    title_vob_sector: u32,
    angle: u8,
) -> (r: Result<TitlePlan>)
    ensures
        r is Err <==> spec_plan_title(pgci_srp@, pgcs@, entry.vts_title_number, angle) is None,
        r matches Err(e) ==> e is InvalidUdf,
        r matches Ok(p) ==> ({
            &&& Some(p.cells@) == spec_plan_title(pgci_srp@, pgcs@, entry.vts_title_number, angle)
            &&& p.ttn == ttn
            &&& p.vts == entry.vts_number
            &&& p.vts_ttn == entry.vts_title_number
            &&& p.vts_start_sector == entry.vts_start_sector
            &&& p.title_vob_sector == title_vob_sector
        }),
{
    let cells = match plan_title_cells(pgci_srp, pgcs, entry.vts_title_number, angle) {
        Some(c) => c,
        None => return Err(Error::InvalidUdf("VTS_PGCI: no entry PGC for this title")),
    };
    Ok(
        TitlePlan {
            ttn,
            vts: entry.vts_number,
            vts_ttn: entry.vts_title_number,
            vts_start_sector: entry.vts_start_sector,
            title_vob_sector,
            cells,
        },
    )
}

/// The first file of a kind is a file of that kind, and no earlier file
/// has it; a kind no file has is not found.
pub proof fn lemma_first_of_kind(files: Seq<DvdFile>, k: DvdFileKind, i: int)
    requires
        0 <= i,
    ensures
        match first_of_kind(files, k, i) {
            Some(j) => i <= j < files.len() && files[j].kind == k && forall|m: int|
                i <= m < j ==> (#[trigger] files[m]).kind != k,
            None => forall|m: int| i <= m < files.len() ==> (#[trigger] files[m]).kind != k,
        },
    decreases files.len() - i,
{
    if i < files.len() && files[i].kind != k {
        lemma_first_of_kind(files, k, i + 1);
    }
}

/// One title's static cell schedule with the addressing that turns its
/// VOB-relative sectors into disc sectors.
#[derive(Debug, Clone)]
pub struct TitlePlan {
    /// Volume title number.
    pub ttn: u8,
    /// Title set.
    pub vts: u8,
    /// Title number inside the title set.
    pub vts_ttn: u8,
    /// First sector of the title set on the disc.
    pub vts_start_sector: u32,
    /// First sector of the title VOBs inside the title set.
    pub title_vob_sector: u32,
    /// The cells in presentation order.
    pub cells: Vec<PlannedCell>,
}

/// `a + b`, saturating at `u32::MAX`.
pub open spec fn sat_add32(a: u32, b: u32) -> u32 {
    if a + b > u32::MAX {
        u32::MAX
    } else {
        (a + b) as u32
    }
}

impl TitlePlan {
    /// The disc sector of a VOB-relative sector: title-set start plus
    /// title-VOB start plus the sector, saturating.
    pub fn absolute_lba(&self, vob_relative_sector: u32) -> (r: u32)
        ensures
            r == sat_add32(sat_add32(self.vts_start_sector, self.title_vob_sector), vob_relative_sector),
            self.vts_start_sector + self.title_vob_sector + vob_relative_sector <= u32::MAX ==> r
                == self.vts_start_sector + self.title_vob_sector + vob_relative_sector,
    {
        let a = self.vts_start_sector.saturating_add(self.title_vob_sector);
        a.saturating_add(vob_relative_sector)
    }
}

/// `s` is in non-decreasing order of [`file_key_le`].
pub open spec fn files_sorted(s: Seq<DvdFile>) -> bool {
    forall|i: int, j: int| 0 <= i < j < s.len() ==> file_key_le(#[trigger] s[i], #[trigger] s[j])
}

proof fn lemma_insert_keeps_sorted(s: Seq<DvdFile>, x: DvdFile)
    requires
        files_sorted(s),
    ensures
        files_sorted(s.insert(insert_pos(s, x), x)),
    decreases s.len(),
{
    lemma_insert_pos_range(s, x);
    let p = insert_pos(s, x);
    let r = s.insert(p, x);
    if s.len() > 0 && !file_key_le(s.last(), x) {
        lemma_insert_keeps_sorted(s.drop_last(), x);
        lemma_insert_pos_range(s.drop_last(), x);
        let t = s.drop_last().insert(p, x);
        assert(r =~= t.push(s.last()));
        assert forall|i: int, j: int| 0 <= i < j < r.len() implies file_key_le(
            #[trigger] r[i],
            #[trigger] r[j],
        ) by {
            if j == r.len() - 1 {
                if i == p {
                    assert(r[i] == x);
                } else if i < p {
                    assert(r[i] == s[i]);
                } else {
                    assert(r[i] == s[i - 1]);
                }
            } else {
                assert(r[i] == t[i] && r[j] == t[j]);
            }
        }
    } else {
        assert forall|i: int, j: int| 0 <= i < j < r.len() implies file_key_le(
            #[trigger] r[i],
            #[trigger] r[j],
        ) by {
            assert(p == s.len());
            if j == p {
                assert(r[i] == s[i]);
                assert(file_key_le(s[i], s.last()) || i == s.len() - 1);
            } else {
                assert(r[i] == s[i] && r[j] == s[j]);
            }
        }
    }
}

/// The classified list is sorted by title set, then VOB index, then
/// kind, and holds exactly the recognised files.
pub proof fn lemma_sort_files(s: Seq<DvdFile>)
    ensures
        files_sorted(sort_files(s)),
        sort_files(s).to_multiset() == s.to_multiset(),
    decreases s.len(),
{
    broadcast use vstd::seq_lib::group_to_multiset_ensures;

    if s.len() > 0 {
        lemma_sort_files(s.drop_last());
        let t = sort_files(s.drop_last());
        lemma_insert_keeps_sorted(t, s.last());
        lemma_insert_pos_range(t, s.last());
        assert(s =~= s.drop_last().push(s.last()));
    }
}

} // verus!
