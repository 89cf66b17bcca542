//! The fetch cache rules: a time-bounded local cache keyed by a stable hash
//! of the source URL.
//!
//! The artifact store and the origin fetch are I/O and live with the front
//! ends; what is verified here is the key (a stable 64-bit hash and the
//! artifact name derived from it) and the staleness rule: an artifact younger
//! than the window is served, anything else triggers a fresh fetch and
//! overwrite. Cache read errors are treated by callers as "no cache", never
//! as request failures.

use vstd::prelude::*;
use vstd::string::StringSliceAdditionalSpecFns;

use crate::text::decimal_of;
use crate::text::u64_to_decimal;

verus! {

/// How long a cache artifact stays fresh, in seconds.
pub const CACHE_WINDOW_SECS: i64 = 1800;

/// The offset basis of the 64-bit FNV-1a hash.
pub const FNV_OFFSET: u64 = 0xcbf2_9ce4_8422_2325;

/// The prime of the 64-bit FNV-1a hash.
pub const FNV_PRIME: u64 = 0x0000_0100_0000_01b3;

/// The 64-bit FNV-1a hash of `bytes` folded onto `acc`.
pub open spec fn fnv1a(bytes: Seq<u8>, acc: u64) -> u64
    decreases bytes.len(),
{
    if bytes.len() == 0 {
        acc
    } else {
        fnv1a(bytes.drop_first(), (acc ^ (bytes[0] as u64)).wrapping_mul(FNV_PRIME))
    }
}

/// The cache key of a URL: the FNV-1a hash of its bytes.
pub open spec fn url_hash(bytes: Seq<u8>) -> u64 {
    fnv1a(bytes, FNV_OFFSET)
}

/// Computes the cache key of a URL.
pub fn cache_key(url: &str) -> (h: u64)
    ensures
        h == url_hash(url.spec_bytes()),
{
    let bytes = url.as_bytes();
    let mut acc: u64 = FNV_OFFSET;
    let mut i: usize = 0;
    proof {
        assert(bytes@.skip(0) =~= bytes@);
    }
    while i < bytes.len()
        invariant
            i <= bytes@.len(),
            bytes@ == url.spec_bytes(),
            fnv1a(bytes@.skip(i as int), acc) == url_hash(bytes@),
        decreases bytes@.len() - i,
    {
        proof {
            assert(bytes@.skip(i as int)[0] == bytes@[i as int]);
            assert(bytes@.skip(i as int).drop_first() =~= bytes@.skip(i + 1));
        }
        acc = (acc ^ (bytes[i] as u64)).wrapping_mul(FNV_PRIME);
        i = i + 1;
    }
    proof {
        assert(bytes@.skip(bytes@.len() as int) =~= Seq::<u8>::empty());
    }
    acc
}

/// The artifact name a URL is cached under.
pub open spec fn cache_name_of(bytes: Seq<u8>) -> Seq<char> {
    "mk-rss-"@ + decimal_of(url_hash(bytes) as nat)
}

/// Computes the artifact name a URL is cached under: a fixed prefix followed
/// by the decimal cache key.
pub fn cache_file_name(url: &str) -> (r: String)
    ensures
        r@ == cache_name_of(url.spec_bytes()),
{
    let h = cache_key(url);
    let mut r = String::from_str("mk-rss-");
    let digits = u64_to_decimal(h);
    r.append(digits.as_str());
    r
}

/// The staleness rule: an artifact is served exactly when its last-modified
/// instant is not in the future and younger than the window; anything else —
/// including clock skew that puts the artifact in the future — triggers a
/// fresh fetch.
pub fn is_fresh(modified_secs: i64, now_secs: i64) -> (fresh: bool)
    ensures
        fresh == (0 <= now_secs - modified_secs < CACHE_WINDOW_SECS),
{
    let diff: i128 = now_secs as i128 - modified_secs as i128;
    0 <= diff && diff < CACHE_WINDOW_SECS as i128
}

} // verus!
