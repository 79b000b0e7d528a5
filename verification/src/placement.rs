//! Deterministic placement: which zone of the supported region an instance
//! lives in is a function of its name alone, so that the zone chosen when an
//! instance is created can be found again when it is deleted.
//!
//! The name is hashed with 64-bit FNV-1a over its UTF-8 bytes. Neither the
//! hash nor the zone list may change while instances are in flight.

use vstd::prelude::*;
use vstd::utf8::encode_utf8;

verus! {

/// FNV-1a offset basis for 64-bit hashes.
pub const FNV_OFFSET_BASIS: u64 = 0xcbf2_9ce4_8422_2325;

/// FNV-1a prime for 64-bit hashes.
pub const FNV_PRIME: u64 = 0x0000_0100_0000_01b3;

/// One FNV-1a round: fold a byte into the running hash.
pub open spec fn fnv1a_round(hash: u64, byte: u8) -> u64 {
    (((hash ^ (byte as u64)) as int * FNV_PRIME as int) % 0x1_0000_0000_0000_0000) as u64
}

/// The 64-bit FNV-1a hash of a byte sequence.
pub open spec fn fnv1a(bytes: Seq<u8>) -> u64
    decreases bytes.len(),
{
    if bytes.len() == 0 {
        FNV_OFFSET_BASIS
    } else {
        fnv1a_round(fnv1a(bytes.drop_last()), bytes.last())
    }
}

/// Hashes `bytes` with 64-bit FNV-1a.
pub fn fnv1a_hash(bytes: &[u8]) -> (hash: u64)
    ensures
        hash == fnv1a(bytes@),
{
    let mut hash: u64 = FNV_OFFSET_BASIS;
    let mut i: usize = 0;
    while i < bytes.len()
        invariant
            i <= bytes.len(),
            hash == fnv1a(bytes@.take(i as int)),
        decreases bytes.len() - i,
    {
        proof {
            assert(bytes@.take(i as int + 1).drop_last() =~= bytes@.take(i as int));
        }
        hash = (hash ^ (bytes[i] as u64)).wrapping_mul(FNV_PRIME);
        i = i + 1;
    }
    proof {
        assert(bytes@.take(bytes.len() as int) =~= bytes@);
    }
    hash
}

/// Number of zones instances are spread over.
pub const ZONE_COUNT: u64 = 4;

/// The one region instances can be placed in.
pub open spec fn supported_region() -> Seq<char> {
    "us-central1"@
}

/// The zones of the supported region, in the order they are indexed.
pub open spec fn supported_zones() -> Seq<Seq<char>> {
    seq!["us-central1-a"@, "us-central1-b"@, "us-central1-c"@, "us-central1-f"@]
}

/// Position in `supported_zones` of the zone for the instance `name`.
pub open spec fn zone_index(name: Seq<char>) -> int {
    fnv1a(encode_utf8(name)) as int % ZONE_COUNT as int
}

/// The zone for the instance `name` in `region`, or `None` when the region
/// is not supported.
pub open spec fn zone_for(region: Seq<char>, name: Seq<char>) -> Option<Seq<char>> {
    if region == supported_region() {
        Some(supported_zones()[zone_index(name)])
    } else {
        None
    }
}

/// Placement only ever answers with one of the supported zones, and answers
/// at all exactly for the supported region. Being a function of region and
/// name, it gives the same answer every time it is asked.
pub proof fn lemma_zone_is_supported(region: Seq<char>, name: Seq<char>)
    ensures
        zone_for(region, name).is_some() <==> region == supported_region(),
        zone_for(region, name) matches Some(zone) ==> supported_zones().contains(zone),
{
    let index = zone_index(name);
    assert(0 <= index < supported_zones().len());
    assert(supported_zones().contains(supported_zones()[index]));
}

} // verus!
