//! End-of-life classification of an image SKU against a vendor's release
//! calendar, and the selection of the vendor family for a record.
//!
//! Classification is a pure function of the SKU, the OS family, the
//! calendar and the given day: parse the SKU with the family's parser,
//! find the calendar entry whose cycle identifier equals the normalized
//! version exactly (first match wins), and compare its end-of-life date
//! with the given day. A cycle ending strictly within the next twelve
//! months is `EndingSoon` for the families with a lookahead window; a
//! cycle whose end-of-life day is exactly the given day stays `Unknown`.

use crate::dates::{date_before, spec_iso_date, spec_one_year_after, Date};
use crate::eol::{EOLEntity, EolCycleView};
use crate::eol_detection::common;
use crate::eol_detection::ubuntu;
use crate::text::{icontains, icontains_exec, imatch_at};
use vstd::prelude::*;
use vstd::string::StringExecFns;

verus! {

/// The operating-system family of an image, chosen once per record.
#[derive(Clone, Copy, Debug, PartialEq, Eq, Structural)]
pub enum OsFamily {
    Ubuntu,
    CentOS,
    Rhel,
    Windows,
    Unknown,
}

/// End-of-life status of a release cycle relative to a given day.
#[derive(Clone, Copy, Debug, PartialEq, Eq, Structural)]
pub enum EolStatus {
    Supported,
    EndingSoon,
    EndOfLife,
    Unknown,
}

/// Family of an image judged by its offer name, case-insensitively, in
/// this priority order: `ubuntu`, `centos`, `rhel`, `windows`.
pub open spec fn spec_detect_os_family(offer: Seq<char>) -> OsFamily {
    if icontains(offer, "ubuntu"@) {
        OsFamily::Ubuntu
    } else if icontains(offer, "centos"@) {
        OsFamily::CentOS
    } else if icontains(offer, "rhel"@) {
        OsFamily::Rhel
    } else if icontains(offer, "windows"@) {
        OsFamily::Windows
    } else {
        OsFamily::Unknown
    }
}

/// Executable counterpart of [`spec_detect_os_family`].
pub fn detect_os_family(offer: &String) -> (r: OsFamily)
    ensures
        r == spec_detect_os_family(offer@),
{
    if icontains_exec(offer.as_str(), "ubuntu") {
        OsFamily::Ubuntu
    } else if icontains_exec(offer.as_str(), "centos") {
        OsFamily::CentOS
    } else if icontains_exec(offer.as_str(), "rhel") {
        OsFamily::Rhel
    } else if icontains_exec(offer.as_str(), "windows") {
        OsFamily::Windows
    } else {
        OsFamily::Unknown
    }
}

/// The families whose classification looks twelve months ahead for
/// cycles that are ending soon.
pub open spec fn spec_has_lookahead(family: OsFamily) -> bool {
    family is Ubuntu || family is CentOS || family is Rhel
}

/// Executable counterpart of [`spec_has_lookahead`].
pub fn has_lookahead(family: OsFamily) -> (r: bool)
    ensures
        r == spec_has_lookahead(family),
{
    match family {
        OsFamily::Ubuntu => true,
        OsFamily::CentOS => true,
        OsFamily::Rhel => true,
        OsFamily::Windows => false,
        OsFamily::Unknown => false,
    }
}

/// The family's normalized release identifier for an image SKU.
pub open spec fn spec_parse(family: OsFamily, s: Seq<char>) -> Option<Seq<char>> {
    match family {
        OsFamily::Ubuntu => ubuntu::spec_parse_azure_version(s),
        OsFamily::CentOS => common::spec_parse_major(s),
        OsFamily::Rhel => common::spec_parse_major(s),
        OsFamily::Windows => common::spec_parse_major(s),
        OsFamily::Unknown => None,
    }
}

/// What classification found for one record: the normalized version (empty
/// when the SKU had none), the status, and for a cycle that is ending soon
/// the end-of-life day itself, rendered `YYYY-MM-DD`.
pub struct ClassificationResult {
    pub detected_version: String,
    pub status: EolStatus,
    pub status_detail: Option<String>,
}

/// Mathematical image of a [`ClassificationResult`].
pub ghost struct ClassificationView {
    pub detected_version: Seq<char>,
    pub status: EolStatus,
    pub status_detail: Option<Seq<char>>,
}

impl View for ClassificationResult {
    type V = ClassificationView;

    open spec fn view(&self) -> ClassificationView {
        ClassificationView {
            detected_version: self.detected_version@,
            status: self.status,
            status_detail: match self.status_detail {
                Some(ref s) => Some(s@),
                None => None,
            },
        }
    }
}

/// First calendar entry at or after position `i` whose cycle identifier
/// equals `v` exactly.
pub open spec fn find_cycle_from(list: Seq<EolCycleView>, v: Seq<char>, i: int) -> Option<
    EolCycleView,
>
    decreases list.len() - i,
{
    if i < 0 || i >= list.len() {
        None
    } else if list[i].cycle == v {
        Some(list[i])
    } else {
        find_cycle_from(list, v, i + 1)
    }
}

/// First calendar entry whose cycle identifier equals `v` exactly.
pub open spec fn spec_find_cycle(list: Seq<EolCycleView>, v: Seq<char>) -> Option<EolCycleView> {
    find_cycle_from(list, v, 0)
}

/// Index of the first calendar entry whose cycle equals `v`, if any.
fn find_cycle(list: &Vec<EOLEntity>, v: &String) -> (r: Option<usize>)
    ensures
        r matches Some(i) ==> i < list.len() && spec_find_cycle(list.deep_view(), v@) == Some(
            list[i as int]@,
        ),
        r is None ==> spec_find_cycle(list.deep_view(), v@) is None,
{
    let ghost dv = list.deep_view();
    let n = list.len();
    let mut i: usize = 0;
    while i < n
        invariant
            0 <= i <= n,
            n == list.len(),
            dv == list.deep_view(),
            spec_find_cycle(dv, v@) == find_cycle_from(dv, v@, i as int),
        decreases n - i,
    {
        if list[i].cycle == *v {
            assert(find_cycle_from(dv, v@, i as int) == Some(dv[i as int]));
            return Some(i);
        }
        assert(find_cycle_from(dv, v@, i as int) == find_cycle_from(dv, v@, i + 1));
        i = i + 1;
    }
    None
}

/// The classification of `sku` for `family` against `list`, seen from the
/// day `today`.
pub open spec fn spec_classify(
    family: OsFamily,
    sku: Seq<char>,
    list: Seq<EolCycleView>,
    today: Date,
) -> ClassificationView {
    match spec_parse(family, sku) {
        None => ClassificationView {
            detected_version: Seq::empty(),
            status: EolStatus::Unknown,
            status_detail: None,
        },
        Some(v) => match spec_find_cycle(list, v) {
            None => ClassificationView {
                detected_version: v,
                status: EolStatus::Unknown,
                status_detail: None,
            },
            Some(entry) => {
                if date_before(entry.eol, today) {
                    ClassificationView {
                        detected_version: v,
                        status: EolStatus::EndOfLife,
                        status_detail: None,
                    }
                } else if date_before(today, entry.eol) {
                    if spec_has_lookahead(family) && date_before(
                        entry.eol,
                        spec_one_year_after(today),
                    ) {
                        ClassificationView {
                            detected_version: v,
                            status: EolStatus::EndingSoon,
                            status_detail: Some(spec_iso_date(entry.eol)),
                        }
                    } else {
                        ClassificationView {
                            detected_version: v,
                            status: EolStatus::Supported,
                            status_detail: None,
                        }
                    }
                } else {
                    ClassificationView {
                        detected_version: v,
                        status: EolStatus::Unknown,
                        status_detail: None,
                    }
                }
            },
        },
    }
}

/// Classifies one image SKU against a vendor calendar.
pub fn classify(family: OsFamily, sku: &String, eol_list: &Vec<EOLEntity>, today: &Date) -> (r:
    ClassificationResult)
    requires
        today.year < 9999,
    ensures
        r@ == spec_classify(family, sku@, eol_list.deep_view(), *today),
{
    let parsed: Option<String> = match family {
        OsFamily::Ubuntu => ubuntu::parse_azure_version(sku),
        OsFamily::CentOS => common::parse_major(sku),
        OsFamily::Rhel => common::parse_major(sku),
        OsFamily::Windows => common::parse_major(sku),
        OsFamily::Unknown => None,
    };
    match parsed {
        None => ClassificationResult {
            detected_version: String::new(),
            status: EolStatus::Unknown,
            status_detail: None,
        },
        Some(v) => match find_cycle(eol_list, &v) {
            None => ClassificationResult {
                detected_version: v,
                status: EolStatus::Unknown,
                status_detail: None,
            },
            Some(i) => {
                let entry = &eol_list[i];
                if entry.eol.is_before(today) {
                    ClassificationResult {
                        detected_version: v,
                        status: EolStatus::EndOfLife,
                        status_detail: None,
                    }
                } else if today.is_before(&entry.eol) {
                    let horizon = today.one_year_after();
                    if has_lookahead(family) && entry.eol.is_before(&horizon) {
                        ClassificationResult {
                            detected_version: v,
                            status: EolStatus::EndingSoon,
                            status_detail: Some(entry.eol.iso_string()),
                        }
                    } else {
                        ClassificationResult {
                            detected_version: v,
                            status: EolStatus::Supported,
                            status_detail: None,
                        }
                    }
                } else {
                    ClassificationResult {
                        detected_version: v,
                        status: EolStatus::Unknown,
                        status_detail: None,
                    }
                }
            },
        },
    }
}

/// The four vendor calendars, fetched once per run and read-only for the
/// rest of it.
pub struct Calendars {
    pub ubuntu: Vec<EOLEntity>,
    pub centos: Vec<EOLEntity>,
    pub windows: Vec<EOLEntity>,
    pub redhat: Vec<EOLEntity>,
}

/// The calendar that a family's classification reads. The unknown family
/// reads none.
pub open spec fn spec_calendar_for(c: &Calendars, family: OsFamily) -> Seq<EolCycleView> {
    match family {
        OsFamily::Ubuntu => c.ubuntu.deep_view(),
        OsFamily::CentOS => c.centos.deep_view(),
        OsFamily::Rhel => c.redhat.deep_view(),
        OsFamily::Windows => c.windows.deep_view(),
        OsFamily::Unknown => Seq::empty(),
    }
}

/// The report label for a classification: `EOL`, `Supported`,
/// `Ending YYYY-MM-DD`, or `--` when nothing is known.
pub open spec fn spec_status_label(c: ClassificationView) -> Seq<char> {
    match c.status {
        EolStatus::EndOfLife => "EOL"@,
        EolStatus::Supported => "Supported"@,
        EolStatus::EndingSoon => match c.status_detail {
            Some(d) => "Ending "@ + d,
            None => "Ending "@,
        },
        EolStatus::Unknown => "--"@,
    }
}

/// Executable counterpart of [`spec_status_label`].
pub fn status_label(c: &ClassificationResult) -> (r: String)
    ensures
        r@ == spec_status_label(c@),
{
    match c.status {
        EolStatus::EndOfLife => String::from_str("EOL"),
        EolStatus::Supported => String::from_str("Supported"),
        EolStatus::EndingSoon => match &c.status_detail {
            Some(d) => String::from_str("Ending ").concat(d.as_str()),
            None => String::from_str("Ending "),
        },
        EolStatus::Unknown => String::from_str("--"),
    }
}

/// The empty offer names no vendor: its family is unknown.
pub proof fn lemma_detect_empty_unknown()
    ensures
        spec_detect_os_family(Seq::<char>::empty()) == OsFamily::Unknown,
{
    reveal_strlit("ubuntu");
    reveal_strlit("centos");
    reveal_strlit("rhel");
    reveal_strlit("windows");
    assert forall|k: int| !imatch_at(Seq::<char>::empty(), "ubuntu"@, k) by {}
    assert forall|k: int| !imatch_at(Seq::<char>::empty(), "centos"@, k) by {}
    assert forall|k: int| !imatch_at(Seq::<char>::empty(), "rhel"@, k) by {}
    assert forall|k: int| !imatch_at(Seq::<char>::empty(), "windows"@, k) by {}
    assert(!icontains(Seq::<char>::empty(), "ubuntu"@));
    assert(!icontains(Seq::<char>::empty(), "centos"@));
    assert(!icontains(Seq::<char>::empty(), "rhel"@));
    assert(!icontains(Seq::<char>::empty(), "windows"@));
}

/// No parser of any family accepts the empty SKU.
pub proof fn lemma_parse_empty_none(family: OsFamily)
    ensures
        spec_parse(family, Seq::<char>::empty()) is None,
{
}

/// If no calendar entry at or after `k` carries the cycle `v`, the search
/// finds nothing.
proof fn lemma_find_cycle_none(list: Seq<EolCycleView>, v: Seq<char>, k: int)
    requires
        forall|i: int| k <= i < list.len() ==> list[i].cycle != v,
    ensures
        find_cycle_from(list, v, k) is None,
    decreases list.len() - k,
{
    if 0 <= k < list.len() {
        lemma_find_cycle_none(list, v, k + 1);
    }
}

/// When no calendar entry carries the normalized version of the SKU, the
/// classification is `Unknown`, whatever else the calendar holds and
/// whatever the day.
pub proof fn lemma_no_matching_cycle_unknown(
    family: OsFamily,
    sku: Seq<char>,
    list: Seq<EolCycleView>,
    today: Date,
)
    requires
        forall|i: int| 0 <= i < list.len() ==> Some(list[i].cycle) != spec_parse(family, sku),
    ensures
        spec_classify(family, sku, list, today).status is Unknown,
{
    match spec_parse(family, sku) {
        None => {},
        Some(v) => {
            assert(forall|i: int| 0 <= i < list.len() ==> list[i].cycle != v);
            lemma_find_cycle_none(list, v, 0);
        },
    }
}

} // verus!
