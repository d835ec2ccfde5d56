//! CentOS image SKUs, e.g. `7.6` or `7-LVM`: the release cycle is the
//! major version alone.

use crate::eol_detection::common::{parse_major, spec_parse_major};
use crate::classify::{classify, spec_classify, spec_status_label, status_label, OsFamily};
use crate::dates::Date;
use crate::eol::EOLEntity;
use crate::vmresult::VMResult;
use vstd::prelude::*;

verus! {

/// Extracts the major release identifier from a CentOS image SKU.
pub fn parse_azure_version(az_version: &String) -> (r: Option<String>)
    ensures
        r is Some <==> spec_parse_major(az_version@) is Some,
        r matches Some(v) ==> v@ == spec_parse_major(az_version@)->Some_0,
{
    parse_major(az_version)
}

/// The report label for one machine's CentOS image against the
/// vendor's calendar, seen from the day `today`.
pub fn is_outdated(vm: &VMResult, eol_list: &Vec<EOLEntity>, today: &Date) -> (r: String)
    requires
        today.year < 9999,
    ensures
        r@ == spec_status_label(
            spec_classify(OsFamily::CentOS, vm.sku@, eol_list.deep_view(), *today),
        ),
{
    let c = classify(OsFamily::CentOS, &vm.sku, eol_list, today);
    status_label(&c)
}

} // verus!
