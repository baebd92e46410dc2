//! MPEG-2 program-stream framing of a 2048-byte VOB sector: the pack
//! header, the headers a title export passes over (system header,
//! padding, private stream 2), and the PES packets that remain; plus
//! the DVD stream a PES packet belongs to.

use vstd::prelude::*;

use crate::error::{Error, Result};
use crate::mkv::{lemma_note_stream_no_duplicates, note_stream, DvdMkvStream, PRIVATE_STREAM_1};
use vstd::slice::slice_subrange;

verus! {

/// Bytes in one DVD sector.
pub const SECTOR_LEN: usize = 2048;

/// Fixed part of an MPEG-2 pack header.
pub const PACK_HEADER_LEN: usize = 14;

/// Stream id of the system header.
pub const SYSTEM_HEADER: u8 = 0xBB;

/// Stream id of a padding stream.
pub const PADDING_STREAM: u8 = 0xBE;

/// Stream id of private stream 2 (the PCI / DSI packets of a nav pack).
pub const PRIVATE_STREAM_2: u8 = 0xBF;

/// `00 00 01` starts at `c`.
pub open spec fn start_code_at(b: Seq<u8>, c: int) -> bool {
    b[c] == 0 && b[c + 1] == 0 && b[c + 2] == 1
}

/// The sector opens with an MPEG-2 pack header: `00 00 01 BA` and the
/// `01` marker in the top two bits of byte 4.
pub open spec fn pack_header_ok(b: Seq<u8>) -> bool {
    &&& b.len() >= PACK_HEADER_LEN
    &&& start_code_at(b, 0)
    &&& b[3] == 0xBA
    &&& b[4] / 64 == 1
}

/// Where the pack's packets begin: after the fixed header and the
/// stuffing bytes counted by the low three bits of byte 13.
pub open spec fn pack_body_start(b: Seq<u8>) -> int {
    PACK_HEADER_LEN + (b[13] % 8) as int
}

/// The stream ids whose packets a title export passes over.
pub open spec fn passed_over(id: u8) -> bool {
    id == SYSTEM_HEADER || id == PADDING_STREAM || id == PRIVATE_STREAM_2
}

/// Total size of the packet at `c`: six header bytes plus its
/// big-endian length field.
pub open spec fn packet_size(b: Seq<u8>, c: int) -> int {
    6 + b[c + 4] as int * 256 + b[c + 5] as int
}

/// The PES packets from offset `c` on, as `(offset, size)` pairs, in
/// order: the walk stops where fewer than six bytes remain or no start
/// code stands; system-header, padding and private-stream-2 packets are
/// passed over; `None` when a PES packet runs past the sector.
pub open spec fn spans_from(b: Seq<u8>, c: int) -> Option<Seq<(usize, usize)>>
    decreases b.len() - c,
{
    if c < 0 || c + 6 > b.len() || !start_code_at(b, c) {
        Some(Seq::empty())
    } else {
        let len = packet_size(b, c);
        if passed_over(b[c + 3]) {
            if c + len >= b.len() {
                Some(Seq::empty())
            } else {
                spans_from(b, c + len)
            }
        } else if c + len > b.len() {
            None
        } else {
            match spans_from(b, c + len) {
                Some(rest) => Some(seq![(c as usize, len as usize)] + rest),
                None => None,
            }
        }
    }
}

/// `p` in front of a walk's result.
pub open spec fn prepend(p: Seq<(usize, usize)>, r: Option<Seq<(usize, usize)>>) -> Option<
    Seq<(usize, usize)>,
> {
    match r {
        Some(s) => Some(p + s),
        None => None,
    }
}

/// Offset of a nav pack's PCI packet.
pub const PCI_PACKET_AT: usize = 0x26;

/// Offset of a nav pack's DSI packet.
pub const DSI_PACKET_AT: usize = 0x400;

/// The sector looks like a nav pack: a system header right after the
/// pack header, then a private-stream-2 packet whose substream byte is
/// `00` (PCI).
pub open spec fn looks_like_nav_pack(b: Seq<u8>) -> bool {
    &&& b.len() >= SECTOR_LEN
    &&& start_code_at(b, PACK_HEADER_LEN as int)
    &&& b[PACK_HEADER_LEN + 3] == SYSTEM_HEADER
    &&& start_code_at(b, PCI_PACKET_AT as int)
    &&& b[PCI_PACKET_AT + 3] == PRIVATE_STREAM_2
    &&& b[PCI_PACKET_AT + 6] == 0x00
}

/// A nav pack is whole: its DSI packet, a private-stream-2 packet whose
/// substream byte is `01`, stands at [`DSI_PACKET_AT`].
pub open spec fn nav_pack_ok(b: Seq<u8>) -> bool {
    &&& start_code_at(b, DSI_PACKET_AT as int)
    &&& b[DSI_PACKET_AT + 3] == PRIVATE_STREAM_2
    &&& b[DSI_PACKET_AT + 6] == 0x01
}

/// The PES packets of a sector: `None` for a sector without a pack
/// header, or a nav pack without its DSI packet, or whose PES packets
/// run past the sector; none for a whole nav pack; else the walk of
/// [`spans_from`] after the pack header.
pub open spec fn sector_spans(b: Seq<u8>) -> Option<Seq<(usize, usize)>> {
    if !pack_header_ok(b) {
        None
    } else if looks_like_nav_pack(b) {
        if nav_pack_ok(b) {
            Some(Seq::empty())
        } else {
            None
        }
    } else {
        spans_from(b, pack_body_start(b))
    }
}

/// The PES packets of one sector, as `(offset, size)` byte spans in
/// order (see [`sector_spans`]); a nav pack is checked and yields none.
pub fn sector_pes_spans(sector: &[u8]) -> (r: Result<Vec<(usize, usize)>>)
    requires
        sector@.len() == SECTOR_LEN,
    ensures
        match sector_spans(sector@) {
            Some(s) => r matches Ok(v) && v@ == s,
            None => r matches Err(Error::InvalidUdf(_)),
        },
{
    if sector[14] == 0 && sector[15] == 0 && sector[16] == 1 && sector[17] == SYSTEM_HEADER
        && sector[0x26] == 0 && sector[0x27] == 0 && sector[0x28] == 1 && sector[0x29]
        == PRIVATE_STREAM_2 && sector[0x2C] == 0x00 && sector[0] == 0 && sector[1] == 0
        && sector[2] == 1 && sector[3] == 0xBA && sector[4] / 64 == 1 {
        if sector[0x400] == 0 && sector[0x401] == 0 && sector[0x402] == 1 && sector[0x403]
            == PRIVATE_STREAM_2 && sector[0x406] == 0x01 {
            return Ok(Vec::new());
        }
        return Err(Error::InvalidUdf("nav pack: DSI packet missing"));
    }
    pack_pes_spans(sector)
}

/// The PES packets after the pack header (see [`spans_from`]).
fn pack_pes_spans(sector: &[u8]) -> (r: Result<Vec<(usize, usize)>>)
    requires
        sector@.len() == SECTOR_LEN,
    ensures
        !pack_header_ok(sector@) ==> r matches Err(Error::InvalidUdf(_)),
        pack_header_ok(sector@) ==> match spans_from(sector@, pack_body_start(sector@)) {
            Some(s) => r matches Ok(v) && v@ == s,
            None => r matches Err(Error::InvalidUdf(_)),
        },
{
    let n = sector.len();
    if !(sector[0] == 0 && sector[1] == 0 && sector[2] == 1 && sector[3] == 0xBA && sector[4] / 64
        == 1) {
        return Err(Error::InvalidUdf("VOB sector: missing MPEG-2 pack header"));
    }
    let start: usize = PACK_HEADER_LEN + (sector[13] % 8) as usize;
    let ghost b = sector@;
    let mut cursor: usize = start;
    let mut out: Vec<(usize, usize)> = Vec::new();
    proof {
        assert(out@ + Seq::<(usize, usize)>::empty() =~= out@);
        match spans_from(b, start as int) {
            Some(s) => assert(Seq::<(usize, usize)>::empty() + s =~= s),
            None => {},
        }
    }
    while cursor + 6 <= n
        invariant
            n == b.len(),
            n == SECTOR_LEN,
            b == sector@,
            start <= cursor <= n,
            pack_header_ok(b),
            start == pack_body_start(b),
            spans_from(b, start as int) == prepend(out@, spans_from(b, cursor as int)),
        decreases n - cursor,
    {
        if !(sector[cursor] == 0 && sector[cursor + 1] == 0 && sector[cursor + 2] == 1) {
            proof {
                assert(out@ + Seq::<(usize, usize)>::empty() =~= out@);
            }
            return Ok(out);
        }
        let id = sector[cursor + 3];
        let len: usize = 6 + (sector[cursor + 4] as usize) * 256 + sector[cursor + 5] as usize;
        assert(len == packet_size(b, cursor as int));
        if id == SYSTEM_HEADER || id == PADDING_STREAM || id == PRIVATE_STREAM_2 {
            if cursor + len >= n {
                proof {
                    assert(out@ + Seq::<(usize, usize)>::empty() =~= out@);
                }
                return Ok(out);
            }
            cursor = cursor + len;
        } else {
            if cursor + len > n {
                return Err(Error::InvalidUdf("VOB sector: PES packet runs past the sector"));
            }
            let ghost old_out = out@;
            let ghost c = cursor as int;
            out.push((cursor, len));
            proof {
                match spans_from(b, c + len) {
                    Some(rest) => {
                        assert(old_out + (seq![(c as usize, len)] + rest) =~= out@ + rest);
                    },
                    None => {},
                }
            }
            cursor = cursor + len;
        }
    }
    proof {
        assert(out@ + Seq::<(usize, usize)>::empty() =~= out@);
    }
    Ok(out)
}

/// A PES packet's payload span inside the packet: it starts after the
/// nine fixed bytes and the header-data length of byte 8, and runs to
/// the packet's end.
pub open spec fn spec_payload_start(pkt: Seq<u8>) -> int {
    9 + pkt[8] as int
}

/// The payload of a PES packet of `packet@.len()` bytes, as a
/// `(start, end)` span; an error when the packet is too short for its
/// header.
pub fn pes_payload_span(packet: &[u8]) -> (r: Result<(usize, usize)>)
    ensures
        r is Err <==> (packet@.len() < 9 || spec_payload_start(packet@) > packet@.len()),
        r matches Err(e) ==> e is InvalidUdf,
        r matches Ok(p) ==> p.0 == spec_payload_start(packet@) && p.1 == packet@.len(),
{
    let n = packet.len();
    if n < 9 {
        return Err(Error::InvalidUdf("PES packet: shorter than its fixed header"));
    }
    let start: usize = 9 + packet[8] as usize;
    if start > n {
        return Err(Error::InvalidUdf("PES packet: header data runs past the packet"));
    }
    Ok((start, n))
}

/// The 33-bit timestamp coded in the five bytes at `o`: three bits,
/// fifteen and fifteen, each group followed by a marker bit.
pub open spec fn timestamp_at(p: Seq<u8>, o: int) -> int {
    ((p[o] / 2) % 8) as int * 0x4000_0000 + p[o + 1] as int * 0x40_0000 + (p[o + 2] / 2) as int
        * 0x8000 + p[o + 3] as int * 0x80 + (p[o + 4] / 2) as int
}

/// The presentation timestamp of a PES packet, when its flags (the top
/// two bits of byte 7 at `2` or `3`) announce one and the header holds
/// it.
pub open spec fn spec_pes_pts(p: Seq<u8>) -> Option<int> {
    if p.len() >= 14 && p[7] / 64 >= 2 && p[8] >= 5 {
        Some(timestamp_at(p, 9))
    } else {
        None
    }
}

/// The decoding timestamp of a PES packet, when its flags (`3`)
/// announce one and the header holds it.
pub open spec fn spec_pes_dts(p: Seq<u8>) -> Option<int> {
    if p.len() >= 19 && p[7] / 64 == 3 && p[8] >= 10 {
        Some(timestamp_at(p, 14))
    } else {
        None
    }
}

fn timestamp(p: &[u8], o: usize) -> (r: u64)
    requires
        o + 5 <= p@.len(),
    ensures
        r == timestamp_at(p@, o as int),
        r < 0x2_0000_0000,
{
    ((p[o] / 2) % 8) as u64 * 0x4000_0000 + p[o + 1] as u64 * 0x40_0000 + (p[o + 2] / 2) as u64
        * 0x8000 + p[o + 3] as u64 * 0x80 + (p[o + 4] / 2) as u64
}

/// The presentation timestamp of a PES packet (see [`spec_pes_pts`]).
pub fn pes_pts(packet: &[u8]) -> (r: Option<u64>)
    ensures
        match spec_pes_pts(packet@) {
            Some(t) => r == Some(t as u64) && t < 0x2_0000_0000,
            None => r is None,
        },
{
    if packet.len() >= 14 && packet[7] / 64 >= 2 && packet[8] >= 5 {
        Some(timestamp(packet, 9))
    } else {
        None
    }
}

/// The decoding timestamp of a PES packet (see [`spec_pes_dts`]).
pub fn pes_dts(packet: &[u8]) -> (r: Option<u64>)
    ensures
        match spec_pes_dts(packet@) {
            Some(t) => r == Some(t as u64) && t < 0x2_0000_0000,
            None => r is None,
        },
{
    if packet.len() >= 19 && packet[7] / 64 == 3 && packet[8] >= 10 {
        Some(timestamp(packet, 14))
    } else {
        None
    }
}

/// The title stream a PES packet belongs to: MPEG video for stream ids
/// `E0..=EF`; for private stream 1, by the payload's first (substream)
/// byte, AC-3 `80..=87`, DTS `88..=8F`, LPCM `A0..=A7`, sub-picture
/// `20..=3F`, each with its track number; nothing else.
pub open spec fn spec_stream_of(stream_id: u8, payload: Seq<u8>) -> Option<DvdMkvStream> {
    if 0xE0 <= stream_id <= 0xEF {
        Some(DvdMkvStream::Video)
    } else if stream_id == PRIVATE_STREAM_1 && payload.len() > 0 {
        let s = payload[0];
        if 0x80 <= s <= 0x87 {
            Some(DvdMkvStream::Ac3((s - 0x80) as u8))
        } else if 0x88 <= s <= 0x8F {
            Some(DvdMkvStream::Dts((s - 0x88) as u8))
        } else if 0xA0 <= s <= 0xA7 {
            Some(DvdMkvStream::Lpcm((s - 0xA0) as u8))
        } else if 0x20 <= s <= 0x3F {
            Some(DvdMkvStream::Subpicture((s - 0x20) as u8))
        } else {
            None
        }
    } else {
        None
    }
}

/// Identify the title stream of a PES packet (see [`spec_stream_of`]).
pub fn stream_of(stream_id: u8, payload: &[u8]) -> (r: Option<DvdMkvStream>)
    ensures
        r == spec_stream_of(stream_id, payload@),
{
    if 0xE0 <= stream_id && stream_id <= 0xEF {
        Some(DvdMkvStream::Video)
    } else if stream_id == PRIVATE_STREAM_1 && payload.len() > 0 {
        let s = payload[0];
        if 0x80 <= s && s <= 0x87 {
            Some(DvdMkvStream::Ac3(s - 0x80))
        } else if 0x88 <= s && s <= 0x8F {
            Some(DvdMkvStream::Dts(s - 0x88))
        } else if 0xA0 <= s && s <= 0xA7 {
            Some(DvdMkvStream::Lpcm(s - 0xA0))
        } else if 0x20 <= s && s <= 0x3F {
            Some(DvdMkvStream::Subpicture(s - 0x20))
        } else {
            None
        }
    } else {
        None
    }
}

/// Every span of a walk lies inside the sector, at or after where the
/// walk began, and holds at least a packet's six header bytes.
pub proof fn lemma_spans_in_range(b: Seq<u8>, c: int)
    requires
        b.len() <= usize::MAX,
    ensures
        spans_from(b, c) matches Some(s) ==> forall|i: int|
            0 <= i < s.len() ==> #[trigger] s[i].1 >= 6 && s[i].0 >= c && s[i].0 + s[i].1 <= b.len(),
    decreases b.len() - c,
{
    if c < 0 || c + 6 > b.len() || !start_code_at(b, c) {
    } else {
        let len = packet_size(b, c);
        if passed_over(b[c + 3]) {
            if c + len < b.len() {
                lemma_spans_in_range(b, c + len);
                assert(spans_from(b, c) == spans_from(b, c + len));
            } else {
                assert(spans_from(b, c) == Some(Seq::<(usize, usize)>::empty()));
            }
        } else if c + len <= b.len() {
            lemma_spans_in_range(b, c + len);
            match spans_from(b, c + len) {
                Some(rest) => {
                    let s = seq![(c as usize, len as usize)] + rest;
                    assert forall|i: int| 0 <= i < s.len() implies #[trigger] s[i].1 >= 6 && s[i].0
                        >= c && s[i].0 + s[i].1 <= b.len() by {
                        if i > 0 {
                            assert(s[i] == rest[i - 1]);
                        }
                    }
                },
                None => {},
            }
        }
    }
}

/// The bytes of span `p`.
pub open spec fn span_bytes(b: Seq<u8>, p: (usize, usize)) -> Seq<u8> {
    b.subrange(p.0 as int, p.0 + p.1)
}

/// A PES packet holds its fixed header and its header data.
pub open spec fn payload_ok(pkt: Seq<u8>) -> bool {
    pkt.len() >= 9 && spec_payload_start(pkt) <= pkt.len()
}

/// The title stream of a whole PES packet (see [`spec_stream_of`]).
pub open spec fn packet_stream(pkt: Seq<u8>) -> Option<DvdMkvStream> {
    spec_stream_of(pkt[3], pkt.subrange(spec_payload_start(pkt), pkt.len() as int))
}

/// `streams` with `s` recorded once.
pub open spec fn with_stream(streams: Seq<DvdMkvStream>, s: DvdMkvStream) -> Seq<DvdMkvStream> {
    if streams.contains(s) {
        streams
    } else {
        streams.push(s)
    }
}

/// `streams` after recording, in order, the title stream of each packet
/// of `spans` that has one.
pub open spec fn probe_fold(b: Seq<u8>, spans: Seq<(usize, usize)>, streams: Seq<DvdMkvStream>) -> Seq<
    DvdMkvStream,
>
    decreases spans.len(),
{
    if spans.len() == 0 {
        streams
    } else {
        let prev = probe_fold(b, spans.drop_last(), streams);
        match packet_stream(span_bytes(b, spans.last())) {
            Some(s) => with_stream(prev, s),
            None => prev,
        }
    }
}

/// Probing never lists a stream twice: a list without repeats stays
/// without repeats.
pub proof fn lemma_probe_fold_no_duplicates(
    b: Seq<u8>,
    spans: Seq<(usize, usize)>,
    streams: Seq<DvdMkvStream>,
)
    requires
        streams.no_duplicates(),
    ensures
        probe_fold(b, spans, streams).no_duplicates(),
    decreases spans.len(),
{
    if spans.len() > 0 {
        lemma_probe_fold_no_duplicates(b, spans.drop_last(), streams);
        match packet_stream(span_bytes(b, spans.last())) {
            Some(s) => lemma_note_stream_no_duplicates(probe_fold(b, spans.drop_last(), streams), s),
            None => {},
        }
    }
}

/// The sector's framing is sound and each of its PES packets holds its
/// header.
pub open spec fn sector_probe_ok(b: Seq<u8>) -> bool {
    &&& sector_spans(b) is Some
    &&& forall|i: int|
        0 <= i < sector_spans(b).unwrap().len() ==> payload_ok(
            #[trigger] span_bytes(b, sector_spans(b).unwrap()[i]),
        )
}

/// Probe one sector of a title: record, once each and in the order
/// met, the title streams its PES packets belong to. On an error the
/// list is left as it was.
pub fn probe_sector(sector: &[u8], streams: &mut Vec<DvdMkvStream>) -> (r: Result<()>)
    requires
        sector@.len() == SECTOR_LEN,
    ensures
        r is Ok <==> sector_probe_ok(sector@),
        r matches Err(e) ==> e is InvalidUdf && final(streams)@ == old(streams)@,
        r is Ok ==> final(streams)@ == probe_fold(
            sector@,
            sector_spans(sector@).unwrap(),
            old(streams)@,
        ),
{
    let ghost b = sector@;
    let spans = match sector_pes_spans(sector) {
        Ok(v) => v,
        Err(e) => return Err(e),
    };
    proof {
        if pack_header_ok(b) && !looks_like_nav_pack(b) {
            lemma_spans_in_range(b, pack_body_start(b));
        }
    }
    let mut found: Vec<Option<DvdMkvStream>> = Vec::new();
    let mut i: usize = 0;
    while i < spans.len()
        invariant
            b == sector@,
            b.len() == SECTOR_LEN,
            sector_spans(b) == Some(spans@),
            i <= spans@.len(),
            found@.len() == i,
            forall|k: int| 0 <= k < spans@.len() ==> #[trigger] spans@[k].1 >= 6 && spans@[k].0
                + spans@[k].1 <= b.len(),
            forall|k: int|
                0 <= k < i ==> payload_ok(#[trigger] span_bytes(b, spans@[k])) && found@[k]
                    == packet_stream(span_bytes(b, spans@[k])),
        decreases spans@.len() - i,
    {
        let (c, len) = spans[i];
        assert(spans@[i as int].1 >= 6);
        let pkt = slice_subrange(sector, c, c + len);
        assert(pkt@ == span_bytes(b, spans@[i as int]));
        let (ps, pe) = match pes_payload_span(pkt) {
            Ok(p) => p,
            Err(e) => {
                assert(sector_spans(b).unwrap()[i as int] == spans@[i as int]);
                assert(!payload_ok(span_bytes(b, sector_spans(b).unwrap()[i as int])));
                return Err(e);
            },
        };
        let payload = slice_subrange(pkt, ps, pe);
        found.push(stream_of(pkt[3], payload));
        i = i + 1;
    }
    let mut j: usize = 0;
    while j < found.len()
        invariant
            found@.len() == spans@.len(),
            j <= found@.len(),
            forall|k: int|
                0 <= k < spans@.len() ==> found@[k] == packet_stream(
                    #[trigger] span_bytes(b, spans@[k]),
                ),
            streams@ == probe_fold(b, spans@.take(j as int), old(streams)@),
        decreases found@.len() - j,
    {
        proof {
            assert(spans@.take(j + 1).drop_last() =~= spans@.take(j as int));
            assert(spans@.take(j + 1).last() == spans@[j as int]);
        }
        match found[j] {
            Some(s) => note_stream(streams, s),
            None => {},
        }
        j = j + 1;
    }
    proof {
        assert(spans@.take(spans@.len() as int) =~= spans@);
    }
    Ok(())
}

} // verus!
