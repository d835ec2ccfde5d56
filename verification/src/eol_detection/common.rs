//! The `MAJOR`-only SKU convention shared by the CentOS, Red Hat and
//! Windows images: `MAJOR.MINOR[.PATCH...]` or `MAJOR-SUFFIX`.

use crate::text::{char_index_from, find_char};
use vstd::prelude::*;
use vstd::string::{StrSliceExecFns, StringExecFns};

verus! {

/// The major release identifier of an image SKU: the segment before the
/// first `.` when the SKU carries one, else the segment before the first
/// `-`; nothing on an empty SKU. Minor and patch parts are discarded by
/// design, since the calendars key on the major release cycle.
pub open spec fn spec_parse_major(s: Seq<char>) -> Option<Seq<char>> {
    if s.len() == 0 {
        None
    } else if char_index_from(s, '.', 0) < s.len() {
        Some(s.subrange(0, char_index_from(s, '.', 0)))
    } else {
        Some(s.subrange(0, char_index_from(s, '-', 0)))
    }
}

/// Extracts the major release identifier from an image SKU.
pub fn parse_major(az_version: &String) -> (r: Option<String>)
    ensures
        r is Some <==> spec_parse_major(az_version@) is Some,
        r matches Some(v) ==> v@ == spec_parse_major(az_version@)->Some_0,
{
    let s = az_version.as_str();
    let n = s.unicode_len();
    if n == 0 {
        return None;
    }
    let dot = find_char(s, 0, '.');
    if dot < n {
        Some(String::from_str(s.substring_char(0, dot)))
    } else {
        let dash = find_char(s, 0, '-');
        Some(String::from_str(s.substring_char(0, dash)))
    }
}

} // verus!
