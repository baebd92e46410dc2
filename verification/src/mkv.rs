//! The Matroska side of title export: PGC playback times as chapter
//! nanoseconds, and the stream slots a DVD title contributes.

use vstd::prelude::*;

use oxideav_core::{CodecId, MediaType};

use crate::error::{Error, Result};
use crate::ifo::{CellPlaybackInfo, DvdTitleEntry, FrameRate, Pgc, PgcTime};

verus! {

/// `oxideav_core::CodecId`, carried opaquely.
#[verifier::external_type_specification]
#[verifier::external_body]
pub struct ExCodecId(CodecId);

/// `oxideav_core::MediaType`, carried opaquely.
#[verifier::external_type_specification]
#[verifier::external_body]
pub struct ExMediaType(MediaType);

/// A playback time in nanoseconds: whole seconds times 10^9, plus the
/// frames at 30 or 25 fps (rounded down); frames of the two illegal
/// frame-rate codes are dropped.
pub open spec fn spec_pgc_time_ns(t: PgcTime) -> int {
    let secs = t.hours as int * 3600 + t.minutes as int * 60 + t.seconds as int;
    secs * 1_000_000_000 + match t.frame_rate {
        FrameRate::Ntsc30 => t.frames as int * 1_000_000_000 / 30,
        FrameRate::Pal25 => t.frames as int * 1_000_000_000 / 25,
        _ => 0,
    }
}

/// Convert a BCD playback time to nanoseconds (see [`spec_pgc_time_ns`]).
pub fn pgc_time_to_ns(t: PgcTime) -> (r: u64)
    ensures
        r == spec_pgc_time_ns(t),
{
    let secs = t.total_seconds() as u64;
    let secs_ns = secs * 1_000_000_000;
    let frames_ns: u64 = match t.frame_rate {
        FrameRate::Ntsc30 => (t.frames as u64) * 1_000_000_000 / 30,
        FrameRate::Pal25 => (t.frames as u64) * 1_000_000_000 / 25,
        FrameRate::Illegal | FrameRate::Reserved => 0,
    };
    secs_ns + frames_ns
}

/// One stream slot of a DVD title in the Matroska `Tracks` element;
/// slots sort video first, then AC-3, DTS and LPCM audio, then
/// sub-pictures, each by track.
#[derive(Debug, Clone, Copy, PartialEq, Eq, Structural, PartialOrd, Ord)]
pub enum DvdMkvStream {
    /// The MPEG-2 video stream.
    Video,
    /// AC-3 audio track.
    Ac3(u8),
    /// DTS audio track.
    Dts(u8),
    /// LPCM audio track.
    Lpcm(u8),
    /// Sub-picture track.
    Subpicture(u8),
}

/// Broad category of a stream slot.
#[derive(Debug, Clone, Copy, PartialEq, Eq, Structural)]
pub enum MediaKind {
    /// Video.
    Video,
    /// Audio.
    Audio,
    /// Subtitles.
    Subtitle,
}

/// The codec name of a slot.
pub open spec fn spec_codec_name(s: DvdMkvStream) -> Seq<char> {
    match s {
        DvdMkvStream::Video => "mpeg2video"@,
        DvdMkvStream::Ac3(_) => "ac3"@,
        DvdMkvStream::Dts(_) => "dts"@,
        DvdMkvStream::Lpcm(_) => "pcm_s16be"@,
        DvdMkvStream::Subpicture(_) => "dvd_subtitle"@,
    }
}

/// The category of a slot.
pub open spec fn spec_media_kind(s: DvdMkvStream) -> MediaKind {
    match s {
        DvdMkvStream::Video => MediaKind::Video,
        DvdMkvStream::Subpicture(_) => MediaKind::Subtitle,
        _ => MediaKind::Audio,
    }
}

/// The codec identifier `CodecId::new` builds from a name.
pub uninterp spec fn codec_id_named(name: Seq<char>) -> CodecId;

/// `CodecId::new`: claimed to build the identifier [`codec_id_named`]
/// of its name, a function of the name alone (it stores the name).
#[verifier::external_body]
fn new_codec_id(name: &str) -> (r: CodecId)
    ensures
        r == codec_id_named(name@),
{
    CodecId::new(name)
}

/// The `oxideav_core::MediaType` variant a category converts to.
pub uninterp spec fn media_type_of(k: MediaKind) -> MediaType;

/// Converts a category to `oxideav_core::MediaType`, variant for
/// variant (`Video`, `Audio`, `Subtitle`): claimed to give
/// [`media_type_of`] of the category, a function of the category
/// alone, and different variants for different categories. Which
/// variant that is stays unsaid, since the type is opaque here.
#[verifier::external_body]
fn to_media_type(k: MediaKind) -> (r: MediaType)
    ensures
        r == media_type_of(k),
        forall|j: MediaKind| j != k ==> media_type_of(j) != r,
{
    match k {
        MediaKind::Video => MediaType::Video,
        MediaKind::Audio => MediaType::Audio,
        MediaKind::Subtitle => MediaType::Subtitle,
    }
}

impl DvdMkvStream {
    /// The codec name the slot is exported under.
    pub fn codec_name(self) -> (r: &'static str)
        ensures
            r@ == spec_codec_name(self),
    {
        match self {
            DvdMkvStream::Video => "mpeg2video",
            DvdMkvStream::Ac3(_) => "ac3",
            DvdMkvStream::Dts(_) => "dts",
            DvdMkvStream::Lpcm(_) => "pcm_s16be",
            DvdMkvStream::Subpicture(_) => "dvd_subtitle",
        }
    }

    /// The codec identifier named [`Self::codec_name`].
    pub fn codec_id(self) -> (r: CodecId)
        ensures
            r == codec_id_named(spec_codec_name(self)),
    {
        new_codec_id(self.codec_name())
    }

    /// The slot's category.
    pub fn media_kind(self) -> (r: MediaKind)
        ensures
            r == spec_media_kind(self),
    {
        match self {
            DvdMkvStream::Video => MediaKind::Video,
            DvdMkvStream::Ac3(_) | DvdMkvStream::Dts(_) | DvdMkvStream::Lpcm(_) => MediaKind::Audio,
            DvdMkvStream::Subpicture(_) => MediaKind::Subtitle,
        }
    }

    /// The slot's category as an `oxideav_core::MediaType`.
    pub fn media_type(self) -> (r: MediaType)
        ensures
            r == media_type_of(spec_media_kind(self)),
    {
        to_media_type(self.media_kind())
    }
}


/// Where one chapter sits on the exported timeline: its start, and the
/// start of the next chapter when there is one.
#[derive(Debug, Clone, Copy, PartialEq, Eq)]
pub struct ChapterSpan {
    /// Start in nanoseconds.
    pub start_ns: u64,
    /// End in nanoseconds (`None` for the last chapter).
    pub end_ns: Option<u64>,
}

/// `a + b`, saturating at `u64::MAX`.
pub open spec fn sat_add64(a: u64, b: u64) -> u64 {
    if a + b > u64::MAX {
        u64::MAX
    } else {
        (a + b) as u64
    }
}

/// The start of chapter `i`: the durations of the chapters before it
/// added up (saturating).
pub open spec fn chapter_start(times: Seq<PgcTime>, i: int) -> u64
    decreases i,
{
    if i <= 0 {
        0
    } else {
        sat_add64(chapter_start(times, i - 1), spec_pgc_time_ns(times[i - 1]) as u64)
    }
}

/// The span of chapter `i` of a title whose chapters last `times`: it
/// starts where the earlier ones end and, unless it is the last, ends
/// after its own duration.
pub open spec fn spec_chapter_span(times: Seq<PgcTime>, i: int) -> ChapterSpan {
    ChapterSpan {
        start_ns: chapter_start(times, i),
        end_ns: if i + 1 < times.len() {
            Some(chapter_start(times, i + 1))
        } else {
            None
        },
    }
}

/// Lay out the chapter timeline of a title from its chapters' playback
/// times (see [`spec_chapter_span`]).
pub fn chapter_spans(times: &[PgcTime]) -> (r: Vec<ChapterSpan>)
    ensures
        r@.len() == times@.len(),
        forall|i: int| 0 <= i < times@.len() ==> r@[i] == spec_chapter_span(times@, i),
{
    let mut out: Vec<ChapterSpan> = Vec::new();
    let mut acc: u64 = 0;
    let mut i: usize = 0;
    while i < times.len()
        invariant
            i <= times@.len(),
            out@.len() == i,
            acc == chapter_start(times@, i as int),
            forall|k: int| 0 <= k < i ==> out@[k] == spec_chapter_span(times@, k),
        decreases times@.len() - i,
    {
        let ch_ns = pgc_time_to_ns(times[i]);
        let end = acc.saturating_add(ch_ns);
        let next = if i + 1 < times.len() {
            Some(end)
        } else {
            None
        };
        out.push(ChapterSpan { start_ns: acc, end_ns: next });
        acc = end;
        i = i + 1;
    }
    out
}

/// Consecutive chapters abut: the first starts at zero, each one that
/// has a successor ends where the successor starts, and starts never
/// decrease.
pub proof fn lemma_chapters_abut(times: Seq<PgcTime>, i: int)
    requires
        0 <= i < times.len(),
    ensures
        spec_chapter_span(times, 0).start_ns == 0,
        i + 1 < times.len() ==> spec_chapter_span(times, i).end_ns == Some(
            spec_chapter_span(times, i + 1).start_ns,
        ),
        i + 1 < times.len() ==> spec_chapter_span(times, i).start_ns <= spec_chapter_span(
            times,
            i + 1,
        ).start_ns,
{
}

/// Record a stream found while probing a title, once.
pub fn note_stream(streams: &mut Vec<DvdMkvStream>, s: DvdMkvStream)
    ensures
        final(streams)@ == (if old(streams)@.contains(s) {
            old(streams)@
        } else {
            old(streams)@.push(s)
        }),
{
    let mut i: usize = 0;
    while i < streams.len()
        invariant
            i <= streams@.len(),
            forall|k: int| 0 <= k < i ==> streams@[k] != s,
        decreases streams@.len() - i,
    {
        if streams[i] == s {
            return;
        }
        i = i + 1;
    }
    streams.push(s);
}

/// Recording streams one at a time keeps every stream listed once.
pub proof fn lemma_note_stream_no_duplicates(streams: Seq<DvdMkvStream>, s: DvdMkvStream)
    requires
        streams.no_duplicates(),
    ensures
        (if streams.contains(s) {
            streams
        } else {
            streams.push(s)
        }).no_duplicates(),
        (if streams.contains(s) {
            streams
        } else {
            streams.push(s)
        }).contains(s),
{
    if !streams.contains(s) {
        let t = streams.push(s);
        assert forall|i: int, j: int| 0 <= i < t.len() && 0 <= j < t.len() && i != j implies t[i]
            != t[j] by {
            if i < streams.len() && j < streams.len() {
                assert(t[i] == streams[i] && t[j] == streams[j]);
            } else if i < streams.len() {
                assert(t[i] == streams[i]);
            } else {
                assert(t[j] == streams[j]);
            }
        }
        assert(t[streams.len() as int] == s);
    }
}

/// Rank of a slot's kind: video, AC-3, DTS, LPCM, sub-picture.
pub open spec fn stream_rank(s: DvdMkvStream) -> int {
    match s {
        DvdMkvStream::Video => 0,
        DvdMkvStream::Ac3(_) => 1,
        DvdMkvStream::Dts(_) => 2,
        DvdMkvStream::Lpcm(_) => 3,
        DvdMkvStream::Subpicture(_) => 4,
    }
}

/// The slot's track number (`0` for video).
pub open spec fn stream_track(s: DvdMkvStream) -> int {
    match s {
        DvdMkvStream::Video => 0,
        DvdMkvStream::Ac3(t) | DvdMkvStream::Dts(t) | DvdMkvStream::Lpcm(t)
        | DvdMkvStream::Subpicture(t) => t as int,
    }
}

/// `a` sorts no later than `b`: by kind, then by track.
pub open spec fn stream_le(a: DvdMkvStream, b: DvdMkvStream) -> bool {
    stream_rank(a) < stream_rank(b) || (stream_rank(a) == stream_rank(b) && stream_track(a)
        <= stream_track(b))
}

/// `s` is in non-decreasing stream order.
pub open spec fn streams_sorted(s: Seq<DvdMkvStream>) -> bool {
    forall|i: int, j: int| 0 <= i < j < s.len() ==> stream_le(#[trigger] s[i], #[trigger] s[j])
}

fn rank_of(s: DvdMkvStream) -> (r: (u8, u8))
    ensures
        r.0 == stream_rank(s),
        r.1 == stream_track(s),
{
    match s {
        DvdMkvStream::Video => (0, 0),
        DvdMkvStream::Ac3(t) => (1, t),
        DvdMkvStream::Dts(t) => (2, t),
        DvdMkvStream::Lpcm(t) => (3, t),
        DvdMkvStream::Subpicture(t) => (4, t),
    }
}

fn le_exec(a: DvdMkvStream, b: DvdMkvStream) -> (r: bool)
    ensures
        r == stream_le(a, b),
{
    let (ra, ta) = rank_of(a);
    let (rb, tb) = rank_of(b);
    ra < rb || (ra == rb && ta <= tb)
}

/// Sort the probed streams: video first, then AC-3, DTS and LPCM audio,
/// then sub-pictures, each by track. The result is sorted and holds the
/// same streams.
pub fn sort_streams(v: &mut Vec<DvdMkvStream>)
    ensures
        streams_sorted(final(v)@),
        final(v)@.to_multiset() == old(v)@.to_multiset(),
{
    broadcast use vstd::seq_lib::group_to_multiset_ensures;

    let mut out: Vec<DvdMkvStream> = Vec::new();
    let mut i: usize = 0;
    while i < v.len()
        invariant
            i <= v@.len(),
            v@ == old(v)@,
            streams_sorted(out@),
            out@.to_multiset() == v@.take(i as int).to_multiset(),
        decreases v@.len() - i,
    {
        let x = v[i];
        let mut j = out.len();
        while j > 0 && !le_exec(out[j - 1], x)
            invariant
                j <= out@.len(),
                forall|k: int| j <= k < out@.len() ==> !stream_le(#[trigger] out@[k], x),
            decreases j,
        {
            j = j - 1;
        }
        let ghost before = out@;
        out.insert(j, x);
        proof {
            assert(v@.take(i + 1) =~= v@.take(i as int).push(x));
            vstd::seq_lib::to_multiset_build(v@.take(i as int), x);
            vstd::seq_lib::to_multiset_insert(before, j as int, x);
            assert(out@ == before.insert(j as int, x));
            assert forall|a: int, b: int| 0 <= a < b < out@.len() implies stream_le(
                #[trigger] out@[a],
                #[trigger] out@[b],
            ) by {
                if a < j && b < j {
                    assert(out@[a] == before[a] && out@[b] == before[b]);
                } else if a < j && b == j {
                    assert(out@[a] == before[a]);
                    assert(stream_le(before[j - 1], x));
                    if a < j - 1 {
                        assert(stream_le(before[a], before[j - 1]));
                    }
                } else if a < j {
                    assert(out@[a] == before[a] && out@[b] == before[b - 1]);
                } else if a == j {
                    assert(out@[b] == before[b - 1]);
                    assert(!stream_le(before[b - 1], x));
                } else {
                    assert(out@[a] == before[a - 1] && out@[b] == before[b - 1]);
                }
            }
        }
        i = i + 1;
    }
    assert(v@.take(v@.len() as int) =~= v@);
    *v = out;
}

/// The position of `s` among the probed streams, as a track index.
pub fn stream_index(streams: &[DvdMkvStream], s: DvdMkvStream) -> (r: Option<u32>)
    ensures
        match r {
            Some(i) => i < streams@.len() && streams@[i as int] == s && forall|k: int|
                0 <= k < i ==> streams@[k] != s,
            None => !streams@.contains(s) || streams@.len() > u32::MAX,
        },
{
    let mut i: usize = 0;
    while i < streams.len()
        invariant
            i <= streams@.len(),
            forall|k: int| 0 <= k < i ==> streams@[k] != s,
        decreases streams@.len() - i,
    {
        if streams[i] == s {
            if i > u32::MAX as usize {
                return None;
            }
            return Some(i as u32);
        }
        i = i + 1;
    }
    None
}

/// Stream id of MPEG private stream 1.
pub const PRIVATE_STREAM_1: u8 = 0xBD;

/// The elementary bytes of a PES payload: private stream 1 loses its
/// substream byte, and an LPCM payload also the remaining six bytes of
/// its audio-pack header when they are there.
pub open spec fn spec_payload_body(stream_id: u8, stream: DvdMkvStream, payload: Seq<u8>) -> Seq<u8> {
    if stream_id == PRIVATE_STREAM_1 && payload.len() > 0 {
        let rest = payload.subrange(1, payload.len() as int);
        if stream is Lpcm && rest.len() >= 6 {
            rest.subrange(6, rest.len() as int)
        } else {
            rest
        }
    } else {
        payload
    }
}

/// Strip a PES payload down to its elementary bytes (see
/// [`spec_payload_body`]).
pub fn payload_body(stream_id: u8, stream: DvdMkvStream, payload: &[u8]) -> (r: Vec<u8>)
    ensures
        r@ == spec_payload_body(stream_id, stream, payload@),
{
    let n = payload.len();
    let mut from: usize = 0;
    if stream_id == PRIVATE_STREAM_1 && n > 0 {
        from = 1;
        let lpcm = match stream {
            DvdMkvStream::Lpcm(_) => true,
            _ => false,
        };
        if lpcm && n - 1 >= 6 {
            from = 7;
        }
    }
    let mut out: Vec<u8> = Vec::new();
    let mut i = from;
    while i < n
        invariant
            from <= i <= n,
            n == payload@.len(),
            out@ == payload@.subrange(from as int, i as int),
        decreases n - i,
    {
        out.push(payload[i]);
        i = i + 1;
        assert(out@ =~= payload@.subrange(from as int, i as int));
    }
    proof {
        if stream_id == PRIVATE_STREAM_1 && n > 0 {
            let rest = payload@.subrange(1, n as int);
            if stream is Lpcm && rest.len() >= 6 {
                assert(rest.subrange(6, rest.len() as int) =~= payload@.subrange(7, n as int));
            }
        } else {
            assert(payload@.subrange(0, n as int) =~= payload@);
        }
    }
    out
}

/// A packet is marked as a key frame: audio and sub-picture packets
/// always; video packets that open with a sequence header
/// (`00 00 01 B3`).
pub open spec fn spec_keyframe(stream: DvdMkvStream, data: Seq<u8>) -> bool {
    match stream {
        DvdMkvStream::Video => data.len() >= 4 && data[0] == 0 && data[1] == 0 && data[2] == 1 && data[3]
            == 0xB3,
        _ => true,
    }
}

/// Whether an exported packet is flagged as a key frame (see
/// [`spec_keyframe`]).
pub fn packet_keyframe(stream: DvdMkvStream, data: &[u8]) -> (r: bool)
    ensures
        r == spec_keyframe(stream, data@),
{
    match stream.media_kind() {
        MediaKind::Video => data.len() >= 4 && data[0] == 0 && data[1] == 0 && data[2] == 1 && data[3]
            == 0xB3,
        _ => true,
    }
}

/// A 90 kHz timestamp relative to the title's first one: the first
/// timestamp seen becomes the anchor; later ones count from it
/// (saturating at zero), reinterpreted as a signed value.
pub fn rebase_timestamp(anchor: &mut Option<u64>, t: u64) -> (r: i64)
    ensures
        *final(anchor) == Some(
            match *old(anchor) {
                Some(a) => a,
                None => t,
            },
        ),
        ({
            let a = final(anchor)->0;
            r == (if t >= a {
                (t - a) as i64
            } else {
                0i64
            })
        }),
{
    let a = match *anchor {
        Some(a) => a,
        None => {
            *anchor = Some(t);
            t
        },
    };
    let d = if t >= a {
        t - a
    } else {
        0
    };
    d as i64
}

/// Track parameters a slot is declared with before any frame is
/// decoded.
#[derive(Debug, Clone, Copy, PartialEq, Eq)]
pub struct TrackDefaults {
    /// Picture width.
    pub width: Option<u32>,
    /// Picture height.
    pub height: Option<u32>,
    /// Sample rate.
    pub sample_rate: Option<u32>,
    /// Channel count.
    pub channels: Option<u16>,
}

/// The declared parameters of a slot: 720 x 480 video; 48 kHz stereo
/// audio; nothing for sub-pictures.
pub fn track_defaults(stream: DvdMkvStream) -> (r: TrackDefaults)
    ensures
        r == (match spec_media_kind(stream) {
            MediaKind::Video => TrackDefaults {
                width: Some(720),
                height: Some(480),
                sample_rate: None,
                channels: None,
            },
            MediaKind::Audio => TrackDefaults {
                width: None,
                height: None,
                sample_rate: Some(48_000),
                channels: Some(2),
            },
            MediaKind::Subtitle => TrackDefaults {
                width: None,
                height: None,
                sample_rate: None,
                channels: None,
            },
        }),
{
    match stream.media_kind() {
        MediaKind::Video => TrackDefaults {
            width: Some(720),
            height: Some(480),
            sample_rate: None,
            channels: None,
        },
        MediaKind::Audio => TrackDefaults {
            width: None,
            height: None,
            sample_rate: Some(48_000),
            channels: Some(2),
        },
        MediaKind::Subtitle => TrackDefaults {
            width: None,
            height: None,
            sample_rate: None,
            channels: None,
        },
    }
}

/// Pick title `title_idx` (1-based) of the volume's title list; an
/// error when no such title is listed.
pub fn select_title(titles: &[DvdTitleEntry], title_idx: usize) -> (r: Result<DvdTitleEntry>)
    ensures
        r is Err <==> (title_idx == 0 || title_idx > titles@.len()),
        r matches Err(e) ==> e is NotDvdVideo,
        r matches Ok(t) ==> t == titles@[title_idx - 1],
{
    if title_idx == 0 || title_idx > titles.len() {
        return Err(Error::NotDvdVideo("title export: title index out of range"));
    }
    Ok(titles[title_idx - 1])
}

/// `n - 1`, or `0` for `0`.
pub open spec fn index_of_number(n: int) -> int {
    if n == 0 {
        0
    } else {
        n - 1
    }
}

/// The position of title `vts_title_number` (1-based, `0` read as `1`)
/// in a title set's list of `title_count` titles; an error when the
/// list is shorter.
pub fn vts_title_index(vts_title_number: u8, title_count: usize) -> (r: Result<usize>)
    ensures
        r is Err <==> index_of_number(vts_title_number as int) >= title_count,
        r matches Err(e) ==> e is NotDvdVideo,
        r matches Ok(i) ==> i == index_of_number(vts_title_number as int),
{
    let i = vts_title_number.saturating_sub(1) as usize;
    if i >= title_count {
        return Err(Error::NotDvdVideo("title export: title number past the title set's titles"));
    }
    Ok(i)
}

/// A cell's sector range: first VOBU start to last VOBU end.
pub open spec fn cell_sector_span(c: CellPlaybackInfo) -> (u32, u32) {
    (c.first_vobu_start_sector, c.last_vobu_end_sector)
}

/// A chapter's cells can be found: its program chain `pgcn` (1-based,
/// `0` read as `1`) is listed, and so is every cell from `start_cell`
/// to `end_cell`.
pub open spec fn chapter_cells_found(pgcs: Seq<Pgc>, pgcn: u16, start_cell: u8, end_cell: u8) -> bool {
    &&& index_of_number(pgcn as int) < pgcs.len()
    &&& (start_cell > end_cell || index_of_number(end_cell as int) < pgcs[index_of_number(
        pgcn as int,
    )].cells@.len())
}

/// The sector ranges of cells `start_cell..=end_cell` of `pgc`.
pub open spec fn spec_chapter_cell_spans(pgc: Pgc, start_cell: u8, end_cell: u8) -> Seq<(u32, u32)> {
    if start_cell > end_cell {
        Seq::empty()
    } else {
        Seq::new(
            (end_cell - start_cell + 1) as nat,
            |k: int| cell_sector_span(pgc.cells@[index_of_number(start_cell + k)]),
        )
    }
}

/// The sector ranges, in order, of the cells a chapter plays: cells
/// `start_cell..=end_cell` of program chain `pgcn`. An error when the
/// chain or one of the cells is missing.
pub fn chapter_cell_spans(pgcs: &[Pgc], pgcn: u16, start_cell: u8, end_cell: u8) -> (r: Result<
    Vec<(u32, u32)>,
>)
    ensures
        r is Err <==> !chapter_cells_found(pgcs@, pgcn, start_cell, end_cell),
        r matches Err(e) ==> e is InvalidUdf,
        r matches Ok(v) ==> v@ == spec_chapter_cell_spans(
            pgcs@[index_of_number(pgcn as int)],
            start_cell,
            end_cell,
        ),
{
    let pi = pgcn.saturating_sub(1) as usize;
    if pi >= pgcs.len() {
        return Err(Error::InvalidUdf("title export: chapter program chain out of range"));
    }
    let pgc = &pgcs[pi];
    let mut out: Vec<(u32, u32)> = Vec::new();
    if start_cell > end_cell {
        return Ok(out);
    }
    let n = pgc.cells.len();
    let mut c: u16 = start_cell as u16;
    while c <= end_cell as u16
        invariant
            start_cell <= end_cell,
            start_cell <= c <= end_cell as int + 1,
            n == pgc.cells@.len(),
            *pgc == pgcs@[index_of_number(pgcn as int)],
            forall|m: int| start_cell <= m < c ==> index_of_number(m) < n,
            out@.len() == c - start_cell,
            forall|k: int|
                0 <= k < out@.len() ==> #[trigger] out@[k] == cell_sector_span(
                    pgc.cells@[index_of_number(start_cell + k)],
                ),
        decreases end_cell as int + 1 - c,
    {
        let ci = (c as u8).saturating_sub(1) as usize;
        if ci >= n {
            assert(index_of_number(end_cell as int) >= index_of_number(c as int));
            return Err(Error::InvalidUdf("title export: chapter cell out of range"));
        }
        let cell = &pgc.cells[ci];
        out.push((cell.first_vobu_start_sector, cell.last_vobu_end_sector));
        c = c + 1;
    }
    proof {
        assert(index_of_number(end_cell as int) < n);
        assert(out@ =~= spec_chapter_cell_spans(*pgc, start_cell, end_cell));
    }
    Ok(out)
}

} // verus!
