//! One release cycle of a vendor's end-of-life calendar.
//!
//! A calendar is an ordered sequence of these records, fetched once per
//! vendor by the surrounding binary and read-only for the rest of the run.

use crate::dates::Date;
use vstd::prelude::*;

verus! {

/// One release-cycle record of a vendor's end-of-life calendar.
#[derive(Clone, Debug)]
pub struct EOLEntity {
    /// The cycle identifier the calendar is keyed on, e.g. `"20.04"` or `"7"`.
    pub cycle: String,
    /// Whether the cycle is a long-term-support release.
    pub lts: bool,
    /// First day of the cycle.
    pub release_date: Date,
    /// Latest patch version of the cycle.
    pub latest: String,
    /// Last day of active support.
    pub support: Date,
    /// Last day before the cycle is end-of-life.
    pub eol: Date,
    /// Day the latest patch was released, where the calendar carries it.
    pub latest_release_date: Option<Date>,
}

/// Mathematical image of an [`EOLEntity`].
pub ghost struct EolCycleView {
    pub cycle: Seq<char>,
    pub lts: bool,
    pub release_date: Date,
    pub latest: Seq<char>,
    pub support: Date,
    pub eol: Date,
    pub latest_release_date: Option<Date>,
}

impl View for EOLEntity {
    type V = EolCycleView;

    open spec fn view(&self) -> EolCycleView {
        EolCycleView {
            cycle: self.cycle@,
            lts: self.lts,
            release_date: self.release_date,
            latest: self.latest@,
            support: self.support,
            eol: self.eol,
            latest_release_date: self.latest_release_date,
        }
    }
}

impl DeepView for EOLEntity {
    type V = EolCycleView;

    open spec fn deep_view(&self) -> EolCycleView {
        self.view()
    }
}

} // verus!
