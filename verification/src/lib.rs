//! Read-only DVD-Video disc logic: audio / video / sub-picture header
//! decoders, copy-control decoding, user-operation masks, the
//! navigation virtual machine, the playback-navigation engine,
//! `VIDEO_TS/` file classification and Matroska export helpers.

pub mod bits;
pub mod error;
pub mod ac3;
pub mod dts;
pub mod copyctl;
pub mod mpeg;
pub mod uops;
pub mod lpcm;
pub mod spu;
pub mod ifo;
pub mod nav;
pub mod vm;
pub mod vob;
pub mod engine;
pub mod udf;
pub mod disc;
pub mod mkv;
pub mod demux;
pub mod pipeline;
