//! Source resolution for title export: a `dvd://` URI or a bare path
//! names the disc image to open.

use vstd::prelude::*;

use vstd::string::StringSliceAdditionalSpecFns;
use vstd::utf8::{encode_utf8, is_char_boundary, pop_first_scalar, valid_utf8};

use crate::error::{Error, Result};

verus! {

/// `"dvd:"`.
pub open spec fn dvd_scheme() -> Seq<u8> {
    seq![0x64u8, 0x76u8, 0x64u8, 0x3Au8]
}

/// `"dvd://"`.
pub open spec fn dvd_uri_prefix() -> Seq<u8> {
    seq![0x64u8, 0x76u8, 0x64u8, 0x3Au8, 0x2Fu8, 0x2Fu8]
}

/// The path a source names, as UTF-8 bytes: a source in the `dvd:`
/// scheme must be `dvd://` followed by a non-empty path (an empty one
/// asks for drive auto-detection, which is refused); any other source
/// is itself a path. `None` when the source is refused.
pub open spec fn spec_source_path(b: Seq<u8>) -> Option<Seq<u8>> {
    if b.len() >= 4 && b.subrange(0, 4) == dvd_scheme() {
        if b.len() > 6 && b.subrange(0, 6) == dvd_uri_prefix() {
            Some(b.subrange(6, b.len() as int))
        } else {
            None
        }
    } else {
        Some(b)
    }
}

proof fn lemma_ascii_prefix_boundary(b: Seq<u8>, k: int)
    requires
        valid_utf8(b),
        0 <= k <= b.len(),
        forall|i: int| 0 <= i < k ==> b[i] < 0x80,
    ensures
        is_char_boundary(b, k),
    decreases k,
{
    if k > 0 {
        let t = b.subrange(1, b.len() as int);
        assert(pop_first_scalar(b) == t);
        assert(valid_utf8(t));
        assert forall|i: int| 0 <= i < k - 1 implies t[i] < 0x80 by {
            assert(t[i] == b[i + 1]);
        }
        lemma_ascii_prefix_boundary(t, k - 1);
    }
}

/// Resolve an export source to the path of the disc image (see
/// [`spec_source_path`]).
pub fn resolve_source(source: &str) -> (r: Result<String>)
    ensures
        match r {
            Ok(p) => spec_source_path(source.spec_bytes()) == Some(encode_utf8(p@)),
            Err(e) => spec_source_path(source.spec_bytes()) is None && e is NotDvdVideo,
        },
{
    let b = source.as_bytes();
    let n = b.len();
    let scheme = n >= 4 && b[0] == 0x64 && b[1] == 0x76 && b[2] == 0x64 && b[3] == 0x3A;
    proof {
        let sub = b@.subrange(0, 4);
        if scheme {
            assert(sub =~= dvd_scheme());
        } else if n >= 4 && sub == dvd_scheme() {
            assert(sub[0] == b[0] && sub[1] == b[1] && sub[2] == b[2] && sub[3] == b[3]);
        }
    }
    if !scheme {
        let p = source.to_owned();
        return Ok(p);
    }
    let full = n > 6 && b[4] == 0x2F && b[5] == 0x2F;
    proof {
        let sub = b@.subrange(0, 6);
        if full {
            assert(sub =~= dvd_uri_prefix());
        } else if n > 6 && sub == dvd_uri_prefix() {
            assert(sub[4] == b[4] && sub[5] == b[5]);
        }
    }
    if !full {
        return Err(Error::NotDvdVideo("dvd:// auto-detect is not supported; name the disc image path"));
    }
    proof {
        vstd::utf8::encode_utf8_valid_utf8(source@);
        lemma_ascii_prefix_boundary(b@, 6);
    }
    let (_head, rest) = source.split_at(6);
    let p = rest.to_owned();
    Ok(p)
}

} // verus!
