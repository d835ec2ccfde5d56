//! The output format chosen on the command line.

use crate::text::{iequal, iequal_exec};
use vstd::prelude::*;

verus! {

/// Format of the report file. An unrecognized word maps to `UNKNOWN`,
/// which the caller reports instead of writing anything.
#[derive(Clone, Copy, Debug, PartialEq, Eq, Structural)]
pub enum OutputType {
    EXCEL,
    CSV,
    UNKNOWN,
}

/// The format a word names, compared without regard to ASCII case.
pub open spec fn spec_output_type_of(s: Seq<char>) -> OutputType {
    if iequal(s, "excel"@) {
        OutputType::EXCEL
    } else if iequal(s, "csv"@) {
        OutputType::CSV
    } else {
        OutputType::UNKNOWN
    }
}

impl From<String> for OutputType {
    fn from(other: String) -> (r: Self) {
        if iequal_exec(other.as_str(), "excel") {
            OutputType::EXCEL
        } else if iequal_exec(other.as_str(), "csv") {
            OutputType::CSV
        } else {
            OutputType::UNKNOWN
        }
    }
}

impl vstd::std_specs::convert::FromSpecImpl<String> for OutputType {
    open spec fn obeys_from_spec() -> bool {
        true
    }

    open spec fn from_spec(other: String) -> Self {
        spec_output_type_of(other@)
    }
}

} // verus!
