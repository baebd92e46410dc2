use vstd::prelude::*;

verus! {

/// Errors surfaced by the decoders and the disc-structure readers.
#[derive(Debug, Clone, Copy, PartialEq, Eq)]
pub enum Error {
    /// A structure on the disc (or a stream header) is malformed.
    InvalidUdf(&'static str),
    /// The medium is not a DVD-Video disc, or a required file is absent.
    NotDvdVideo(&'static str),
}

/// Result alias used throughout the crate.
pub type Result<T> = core::result::Result<T, Error>;

} // verus!
