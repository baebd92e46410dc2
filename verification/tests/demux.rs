use oxideav_dvd::demux::{
    pes_dts, pes_payload_span, pes_pts, probe_sector, sector_pes_spans, stream_of, SECTOR_LEN,
};
use oxideav_dvd::error::Error;
use oxideav_dvd::mkv::DvdMkvStream;

/// A sector opening with an MPEG-2 pack header with `stuffing`
/// stuffing bytes.
fn pack_sector(stuffing: u8) -> Vec<u8> {
    let mut s = vec![0u8; SECTOR_LEN];
    s[0..4].copy_from_slice(&[0x00, 0x00, 0x01, 0xBA]);
    s[4] = 0x44;
    s[13] = 0xF8 | stuffing;
    s
}

/// Write a packet header (`00 00 01 id`, length) at `at`; returns the
/// offset after the packet.
fn put_packet(s: &mut [u8], at: usize, id: u8, len: u16) -> usize {
    s[at..at + 4].copy_from_slice(&[0x00, 0x00, 0x01, id]);
    s[at + 4..at + 6].copy_from_slice(&len.to_be_bytes());
    at + 6 + len as usize
}

/// Fill the rest of the sector from `at` with one padding packet.
fn pad_to_end(s: &mut [u8], at: usize) {
    let len = (SECTOR_LEN - at - 6) as u16;
    put_packet(s, at, 0xBE, len);
}

#[test]
fn pes_spans_skip_system_header_and_padding() {
    let mut s = pack_sector(0);
    let c = put_packet(&mut s, 14, 0xBB, 0x12);
    assert_eq!(c, 38);
    let v = put_packet(&mut s, c, 0xE0, 100);
    let a = put_packet(&mut s, v, 0xBD, 50);
    pad_to_end(&mut s, a);
    let spans = sector_pes_spans(&s).unwrap();
    assert_eq!(spans, vec![(38, 106), (144, 56)]);
}

#[test]
fn pes_spans_follow_pack_stuffing() {
    let mut s = pack_sector(3);
    let v = put_packet(&mut s, 17, 0xE0, 2025);
    assert_eq!(v, SECTOR_LEN);
    assert_eq!(sector_pes_spans(&s).unwrap(), vec![(17, 2031)]);
}

#[test]
fn nav_pack_yields_no_pes() {
    let mut s = pack_sector(0);
    let c = put_packet(&mut s, 14, 0xBB, 0x12);
    let pci = put_packet(&mut s, c, 0xBF, 0x3D4);
    assert_eq!(pci, 0x400);
    let dsi = put_packet(&mut s, pci, 0xBF, 0x3FA);
    assert_eq!(dsi, SECTOR_LEN);
    s[0x406] = 0x01; // DSI substream
    assert_eq!(sector_pes_spans(&s).unwrap(), Vec::<(usize, usize)>::new());
}

#[test]
fn nav_pack_without_dsi_is_rejected() {
    let mut s = pack_sector(0);
    let c = put_packet(&mut s, 14, 0xBB, 0x12);
    let pci = put_packet(&mut s, c, 0xBF, 0x3D4);
    put_packet(&mut s, pci, 0xBE, 0x3FA);
    assert!(matches!(sector_pes_spans(&s), Err(Error::InvalidUdf(_))));
}

#[test]
fn pes_spans_stop_without_start_code() {
    let mut s = pack_sector(0);
    let v = put_packet(&mut s, 14, 0xC0, 10);
    assert_eq!(v, 30);
    // zero bytes follow: no start code, so the walk ends
    assert_eq!(sector_pes_spans(&s).unwrap(), vec![(14, 16)]);
}

#[test]
fn pes_spans_reject_missing_pack_header() {
    let mut s = pack_sector(0);
    s[3] = 0xBB;
    assert!(matches!(sector_pes_spans(&s), Err(Error::InvalidUdf(_))));
    let mut s = pack_sector(0);
    s[4] = 0x24; // MPEG-1 marker bits
    assert!(matches!(sector_pes_spans(&s), Err(Error::InvalidUdf(_))));
}

#[test]
fn pes_spans_reject_packet_past_sector() {
    let mut s = pack_sector(0);
    put_packet(&mut s, 14, 0xE0, 2040);
    assert!(matches!(sector_pes_spans(&s), Err(Error::InvalidUdf(_))));
}

#[test]
fn pes_payload_span_after_header_data() {
    let mut p = vec![0u8; 20];
    p[0..4].copy_from_slice(&[0, 0, 1, 0xE0]);
    p[8] = 5;
    assert_eq!(pes_payload_span(&p), Ok((14, 20)));
    p[8] = 12;
    assert!(matches!(pes_payload_span(&p), Err(Error::InvalidUdf(_))));
    assert!(pes_payload_span(&p[0..8]).is_err());
}

#[test]
fn stream_of_maps_ids_and_substreams() {
    assert_eq!(stream_of(0xE0, &[]), Some(DvdMkvStream::Video));
    assert_eq!(stream_of(0xEF, &[1]), Some(DvdMkvStream::Video));
    assert_eq!(stream_of(0xBD, &[0x81]), Some(DvdMkvStream::Ac3(1)));
    assert_eq!(stream_of(0xBD, &[0x8A]), Some(DvdMkvStream::Dts(2)));
    assert_eq!(stream_of(0xBD, &[0xA7, 0, 0]), Some(DvdMkvStream::Lpcm(7)));
    assert_eq!(stream_of(0xBD, &[0x3F]), Some(DvdMkvStream::Subpicture(31)));
    assert_eq!(stream_of(0xBD, &[0x90]), None);
    assert_eq!(stream_of(0xBD, &[]), None);
    assert_eq!(stream_of(0xC0, &[0x80]), None);
}

#[test]
fn pes_timestamps_decode() {
    // PTS 0x1_2345_6789 and DTS 90000, flags '11', header data 10.
    let mut p = vec![0u8; 24];
    p[0..4].copy_from_slice(&[0, 0, 1, 0xE0]);
    p[7] = 0xC0;
    p[8] = 10;
    let enc = |v: u64, tag: u8| -> [u8; 5] {
        [
            (tag << 4) | (((v >> 30) as u8 & 0x07) << 1) | 1,
            (v >> 22) as u8,
            (((v >> 15) as u8) << 1) | 1,
            (v >> 7) as u8,
            ((v as u8) << 1) | 1,
        ]
    };
    p[9..14].copy_from_slice(&enc(0x1_2345_6789, 3));
    p[14..19].copy_from_slice(&enc(90_000, 1));
    assert_eq!(pes_pts(&p), Some(0x1_2345_6789));
    assert_eq!(pes_dts(&p), Some(90_000));
    p[7] = 0x80;
    assert_eq!(pes_pts(&p), Some(0x1_2345_6789));
    assert_eq!(pes_dts(&p), None);
    p[7] = 0x00;
    assert_eq!(pes_pts(&p), None);
}

#[test]
fn probe_sector_records_streams_once_in_order() {
    let mut s = pack_sector(0);
    let mut at = 14;
    for (id, sub) in [(0xBDu8, 0x81u8), (0xE0, 0), (0xBD, 0x81), (0xBD, 0x21)] {
        let start = at;
        at = put_packet(&mut s, at, id, 20);
        s[start + 8] = 0; // no header data
        s[start + 9] = sub;
    }
    pad_to_end(&mut s, at);
    let mut streams = vec![DvdMkvStream::Video];
    probe_sector(&s, &mut streams).unwrap();
    assert_eq!(
        streams,
        vec![DvdMkvStream::Video, DvdMkvStream::Ac3(1), DvdMkvStream::Subpicture(1)]
    );
}

#[test]
fn probe_sector_error_leaves_streams() {
    let mut s = pack_sector(0);
    let v = put_packet(&mut s, 14, 0xE0, 20);
    s[14 + 8] = 30; // header data runs past the packet
    pad_to_end(&mut s, v);
    let mut streams = vec![DvdMkvStream::Ac3(0)];
    assert!(matches!(probe_sector(&s, &mut streams), Err(Error::InvalidUdf(_))));
    assert_eq!(streams, vec![DvdMkvStream::Ac3(0)]);
}
