//! Reading the environment an instance runs in: zone and region names.

use crate::text::{find_last, last_index_of, lemma_last_index_of};
use vstd::prelude::*;
use vstd::string::StrSliceExecFns;
use vstd::string::StringExecFns;

verus! {

/// The region a zone belongs to: the zone's name up to its last hyphen, or
/// the whole name when it has none.
pub open spec fn region_of(zone: Seq<char>) -> Seq<char> {
    match last_index_of(zone, '-') {
        Some(cut) => zone.take(cut),
        None => zone,
    }
}

/// Gets the region from a zone (e.g., `us-central1-f` -> `us-central1`).
pub fn zone_to_region(zone: String) -> (region: String)
    ensures
        region@ == region_of(zone@),
{
    let found = find_last(zone.as_str(), '-');
    match found {
        Some(cut) => {
            proof {
                lemma_last_index_of(zone@, '-');
            }
            String::from_str(zone.as_str().substring_char(0, cut))
        },
        None => zone,
    }
}

/// What follows the last `/` of a path, or the whole path when it has none.
pub open spec fn last_segment(path: Seq<char>) -> Seq<char> {
    match last_index_of(path, '/') {
        Some(cut) => path.skip(cut + 1),
        None => path,
    }
}

/// The zone that a metadata server's answer names: the last segment of the
/// path it returns, unless that segment is empty.
pub open spec fn zone_in_path(zone_path: Seq<char>) -> Option<Seq<char>> {
    if last_segment(zone_path).len() > 0 {
        Some(last_segment(zone_path))
    } else {
        None
    }
}

/// Extracts the zone name from the full path the metadata server returns
/// (e.g., `projects/123/zones/us-central1-f` -> `us-central1-f`). Gives
/// `None` when the path ends in `/` or is empty.
pub fn zone_from_path(zone_path: &str) -> (zone: Option<String>)
    ensures
        zone.deep_view() == zone_in_path(zone_path@),
{
    let length = zone_path.unicode_len();
    let start: usize = match find_last(zone_path, '/') {
        Some(cut) => {
            proof {
                lemma_last_index_of(zone_path@, '/');
            }
            cut + 1
        },
        None => 0,
    };
    if start < length {
        let segment = zone_path.substring_char(start, length);
        assert(segment@ =~= last_segment(zone_path@));
        Some(String::from_str(segment))
    } else {
        assert(last_segment(zone_path@).len() == 0);
        None
    }
}

} // verus!
