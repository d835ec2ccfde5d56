//! Ubuntu image SKUs, e.g. `18.04-LTS` or `20_04-lts-gen2`.
//!
//! The release identifier is the part before the first `-`; when that part
//! carries exactly one `_`, the underscore stands for the dot of
//! `MAJOR.MINOR` and is put back.

use crate::text::{char_index_from, count_char, find_char, lemma_count_skip_region};
use crate::classify::{classify, spec_classify, spec_status_label, status_label, OsFamily};
use crate::dates::Date;
use crate::eol::EOLEntity;
use crate::vmresult::VMResult;
use vstd::prelude::*;
use vstd::string::{StrSliceExecFns, StringExecFns};

verus! {

/// The normalized release identifier of an Ubuntu image SKU: the segment
/// before the first `-`, with a single `_` inside it rewritten to `.`;
/// nothing on an empty SKU.
pub open spec fn spec_parse_azure_version(s: Seq<char>) -> Option<Seq<char>> {
    if s.len() == 0 {
        None
    } else {
        let first = s.subrange(0, char_index_from(s, '-', 0));
        if count_char(first, '_') == 1 {
            let u = char_index_from(first, '_', 0);
            Some(
                first.subrange(0, u) + seq!['.'] + first.subrange(u + 1, first.len() as int),
            )
        } else {
            Some(first)
        }
    }
}

/// Extracts the normalized Ubuntu release identifier from an image SKU.
pub fn parse_azure_version(az_version: &String) -> (r: Option<String>)
    ensures
        r is Some <==> spec_parse_azure_version(az_version@) is Some,
        r matches Some(v) ==> v@ == spec_parse_azure_version(az_version@)->Some_0,
{
    let s = az_version.as_str();
    let n = s.unicode_len();
    if n == 0 {
        return None;
    }
    let dash = find_char(s, 0, '-');
    let first = s.substring_char(0, dash);
    let flen = first.unicode_len();
    let u1 = find_char(first, 0, '_');
    if u1 < flen {
        let u2 = find_char(first, u1 + 1, '_');
        proof {
            lemma_count_skip_region(first@, '_', 0, u1 as int);
            lemma_count_skip_region(first@, '_', u1 + 1, u2 as int);
        }
        if u2 == flen {
            proof {
                assert(count_char(first@, '_') == 1);
            }
            let a = first.substring_char(0, u1);
            let b = first.substring_char(u1 + 1, flen);
            let r = String::from_str(a).concat(".").concat(b);
            proof {
                reveal_strlit(".");
                assert(r@ =~= spec_parse_azure_version(az_version@)->Some_0);
            }
            Some(r)
        } else {
            proof {
                assert(count_char(first@, '_') >= 2);
            }
            Some(String::from_str(first))
        }
    } else {
        proof {
            lemma_count_skip_region(first@, '_', 0, flen as int);
            assert(count_char(first@, '_') == 0);
        }
        Some(String::from_str(first))
    }
}

/// The report label for one machine's Ubuntu image against the
/// vendor's calendar, seen from the day `today`.
pub fn is_outdated(vm: &VMResult, eol_list: &Vec<EOLEntity>, today: &Date) -> (r: String)
    requires
        today.year < 9999,
    ensures
        r@ == spec_status_label(
            spec_classify(OsFamily::Ubuntu, vm.sku@, eol_list.deep_view(), *today),
        ),
{
    let c = classify(OsFamily::Ubuntu, &vm.sku, eol_list, today);
    status_label(&c)
}

} // verus!
