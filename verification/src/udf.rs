//! UDF directory-entry records as the disc classifier reads them: a
//! file's name, kind, length, allocation extents and control-block
//! address.

use vstd::prelude::*;

verus! {

/// A logical block address inside a partition (`lb_addr`).
#[derive(Debug, Clone, Copy, PartialEq, Eq)]
pub struct LbAddr {
    /// Logical block number.
    pub block: u32,
    /// Partition reference number.
    pub partition_ref: u16,
}

/// A long allocation descriptor (`long_ad`).
#[derive(Debug, Clone, Copy, PartialEq, Eq)]
pub struct LongAd {
    /// Extent length in bytes.
    pub length: u32,
    /// Extent type (the top two bits of the length word).
    pub extent_type: u8,
    /// Where the extent starts.
    pub location: LbAddr,
    /// Implementation use.
    pub implementation_use: [u8; 6],
}

/// One allocation extent of a file's data.
#[derive(Debug, Clone, Copy, PartialEq, Eq)]
pub struct ExtentAd {
    /// Extent length in bytes.
    pub length: u32,
    /// First logical block of the extent.
    pub block_location: u32,
}

/// A directory entry: the file's name, whether it is a directory, its
/// data extents, its length and its control block.
#[derive(Debug, Clone)]
pub struct UdfFile {
    /// File name.
    pub name: String,
    /// The entry is a directory.
    pub is_dir: bool,
    /// Data extents, first first.
    pub extents: Vec<ExtentAd>,
    /// File length in bytes.
    pub length: u64,
    /// The file entry's control block.
    pub icb: LongAd,
}

} // verus!
