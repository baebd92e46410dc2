# oxideav-dvd

Read-only DVD-Video disc logic, written in Verus: the functions under
`src/` carry contracts and are proved against them, except three small
wrappers around outside calls whose contracts are taken on trust —
`disc::to_upper` (`str::to_uppercase`), `mkv::new_codec_id`
(`oxideav_core::CodecId::new`) and `mkv::to_media_type` (the
`oxideav_core::MediaType` of a stream kind).

- `ac3`, `dts`, `lpcm`, `mpeg`: audio and video elementary-stream
  header decoders.
- `copyctl`: copy-control (CPR_MAI / analog protection) decoding.
- `spu`: sub-picture units — control sequences, RLE pixel data.
- `ifo`, `nav`, `vob`: PGC structures, navigation-command decoding,
  highlight and DSI records.
- `uops`: user-operation masks.
- `vm`: the navigation virtual machine (registers, resume stack,
  command execution).
- `engine`: domain transitions, link resolution, the per-PGC playback
  state machine, menu buttons, title plans, stills, stream selection,
  trick-play steps.
- `disc`, `udf`: `VIDEO_TS/` file classification, the `VIDEO_TS/` /
  `AUDIO_TS/` lookup, First-Play PGC bounds, title plans and the disc
  sectors of a cell.
- `demux`: program-stream framing of a VOB sector (pack header, PES
  packets, timestamps) and the title stream of each packet.
- `mkv`, `pipeline`: title selection, chapter cells, chapter timeline
  and stream slots for Matroska export; export-source resolution.

`app/` holds the floating-point helpers, the Matroska codec parameters
built on `oxideav-core`, the sector reads of a title's cells, and the
Matroska muxing of a title's packets through `oxideav-mkv`; its
decisions come from `src/`.
