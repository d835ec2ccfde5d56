//! Layout of the report: one row per inventory record, in the fixed
//! column orders of the CSV and the spreadsheet output, and the emphasis
//! chosen for a row's status. The writers themselves live outside the
//! crate and receive finished strings.

use crate::classify::{
    spec_calendar_for, spec_classify, spec_status_label, Calendars, OsFamily,
};
use crate::dates::Date;
use crate::eol_detection::{centos, redhat, ubuntu, windows};
use crate::text::unwrap_or_empty;
use crate::vmresult::{OsType, RecordView, VMResult};
use vstd::prelude::*;
use vstd::string::StringExecFns;

verus! {

/// Colour family of a report row: red for a cycle past its end of life,
/// green for a supported one, yellow for everything uncertain.
#[derive(Clone, Copy, Debug, PartialEq, Eq, Structural)]
pub enum RowStyle {
    Red,
    Green,
    Yellow,
}

/// The classification of one record against the calendars of its family.
pub open spec fn spec_record_classification(
    vm: RecordView,
    calendars: &Calendars,
    today: Date,
) -> crate::classify::ClassificationView {
    spec_classify(vm.os_family, vm.sku, spec_calendar_for(calendars, vm.os_family), today)
}

/// The detected version and the report label for one record, as the
/// family's parser and classifier yield them.
pub fn version_info(vm: &VMResult, calendars: &Calendars, today: &Date) -> (r: (String, String))
    requires
        today.year < 9999,
    ensures
        r.0@ == spec_record_classification(vm@, calendars, *today).detected_version,
        r.1@ == spec_status_label(spec_record_classification(vm@, calendars, *today)),
{
    match vm.os_family {
        OsFamily::Ubuntu => {
            let version = ubuntu::parse_azure_version(&vm.sku);
            let label = ubuntu::is_outdated(vm, &calendars.ubuntu, today);
            (unwrap_or_empty(version), label)
        },
        OsFamily::CentOS => {
            let version = centos::parse_azure_version(&vm.sku);
            let label = centos::is_outdated(vm, &calendars.centos, today);
            (unwrap_or_empty(version), label)
        },
        OsFamily::Rhel => {
            let version = redhat::parse_azure_version(&vm.sku);
            let label = redhat::is_outdated(vm, &calendars.redhat, today);
            (unwrap_or_empty(version), label)
        },
        OsFamily::Windows => {
            let version = windows::parse_azure_version(&vm.sku);
            let label = windows::is_outdated(vm, &calendars.windows, today);
            (unwrap_or_empty(version), label)
        },
        OsFamily::Unknown => (String::new(), String::from_str("--")),
    }
}

/// How the CSV column renders the OS disk's system: the raw optional
/// value, written out.
pub open spec fn spec_os_type_debug(o: Option<OsType>) -> Seq<char> {
    match o {
        Some(OsType::Windows) => "Some(Windows)"@,
        Some(OsType::Linux) => "Some(Linux)"@,
        None => "None"@,
    }
}

/// Executable counterpart of [`spec_os_type_debug`].
pub fn os_type_debug(o: &Option<OsType>) -> (r: String)
    ensures
        r@ == spec_os_type_debug(*o),
{
    match o {
        Some(OsType::Windows) => String::from_str("Some(Windows)"),
        Some(OsType::Linux) => String::from_str("Some(Linux)"),
        None => String::from_str("None"),
    }
}

/// How the spreadsheet column renders the OS disk's system: its plain
/// name, or `--` where the listing did not name one.
pub open spec fn spec_os_type_label(o: Option<OsType>) -> Seq<char> {
    match o {
        Some(OsType::Windows) => "Windows"@,
        Some(OsType::Linux) => "Linux"@,
        None => "--"@,
    }
}

/// Executable counterpart of [`spec_os_type_label`].
pub fn os_type_label(o: &Option<OsType>) -> (r: String)
    ensures
        r@ == spec_os_type_label(*o),
{
    match o {
        Some(OsType::Windows) => String::from_str("Windows"),
        Some(OsType::Linux) => String::from_str("Linux"),
        None => String::from_str("--"),
    }
}

/// One CSV data line: the detected version, the label, and the record's
/// fields, separated by `;` and closed by a newline.
pub open spec fn spec_csv_line(vm: RecordView, detected: Seq<char>, label: Seq<char>) -> Seq<
    char,
> {
    detected + ";"@ + label + ";"@ + vm.id + ";"@ + spec_os_type_debug(vm.os_type) + ";"@
        + vm.subscription_id + ";"@ + vm.publisher + ";"@ + vm.offer + ";"@ + vm.sku + ";"@
        + vm.version + ";"@ + vm.exact_version + "\n"@
}

/// Renders one record as its CSV data line.
pub fn csv_line(vm: &VMResult, calendars: &Calendars, today: &Date) -> (r: String)
    requires
        today.year < 9999,
    ensures
        r@ == spec_csv_line(
            vm@,
            spec_record_classification(vm@, calendars, *today).detected_version,
            spec_status_label(spec_record_classification(vm@, calendars, *today)),
        ),
{
    let (detected, label) = version_info(vm, calendars, today);
    let os = os_type_debug(&vm.os_type);
    let mut s = detected;
    s.append(";");
    s.append(label.as_str());
    s.append(";");
    s.append(vm.id.as_str());
    s.append(";");
    s.append(os.as_str());
    s.append(";");
    s.append(vm.subscription_id.as_str());
    s.append(";");
    s.append(vm.publisher.as_str());
    s.append(";");
    s.append(vm.offer.as_str());
    s.append(";");
    s.append(vm.sku.as_str());
    s.append(";");
    s.append(vm.version.as_str());
    s.append(";");
    s.append(vm.exact_version.as_str());
    s.append("\n");
    s
}

/// The fixed spreadsheet header cells, in column order.
pub fn excel_header() -> (r: Vec<String>)
    ensures
        r@.len() == 10,
        r@[0]@ == "Detected version"@,
        r@[1]@ == "Deprecated"@,
        r@[2]@ == "OS"@,
        r@[3]@ == "Subscription"@,
        r@[4]@ == "Offer"@,
        r@[5]@ == "SKU"@,
        r@[6]@ == "Version"@,
        r@[7]@ == "Version exact"@,
        r@[8]@ == "Publisher"@,
        r@[9]@ == "Resource ID"@,
{
    let mut v: Vec<String> = Vec::new();
    v.push(String::from_str("Detected version"));
    v.push(String::from_str("Deprecated"));
    v.push(String::from_str("OS"));
    v.push(String::from_str("Subscription"));
    v.push(String::from_str("Offer"));
    v.push(String::from_str("SKU"));
    v.push(String::from_str("Version"));
    v.push(String::from_str("Version exact"));
    v.push(String::from_str("Publisher"));
    v.push(String::from_str("Resource ID"));
    v
}

/// One spreadsheet data row for a record, in column order.
pub fn excel_row(vm: &VMResult, calendars: &Calendars, today: &Date) -> (r: Vec<String>)
    requires
        today.year < 9999,
    ensures
        r@.len() == 10,
        r@[0]@ == spec_record_classification(vm@, calendars, *today).detected_version,
        r@[1]@ == spec_status_label(spec_record_classification(vm@, calendars, *today)),
        r@[2]@ == spec_os_type_label(vm.os_type),
        r@[3]@ == vm.subscription_id@,
        r@[4]@ == vm.offer@,
        r@[5]@ == vm.sku@,
        r@[6]@ == vm.version@,
        r@[7]@ == vm.exact_version@,
        r@[8]@ == vm.publisher@,
        r@[9]@ == vm.id@,
{
    let (detected, label) = version_info(vm, calendars, today);
    let mut v: Vec<String> = Vec::new();
    v.push(detected);
    v.push(label);
    v.push(os_type_label(&vm.os_type));
    v.push(vm.subscription_id.clone());
    v.push(vm.offer.clone());
    v.push(vm.sku.clone());
    v.push(vm.version.clone());
    v.push(vm.exact_version.clone());
    v.push(vm.publisher.clone());
    v.push(vm.id.clone());
    v
}

/// The emphasis for a row label: red for `EOL`, green for `Supported`,
/// yellow for anything else (unknown and ending-soon alike).
pub open spec fn spec_style_for_label(label: Seq<char>) -> RowStyle {
    if label == "EOL"@ {
        RowStyle::Red
    } else if label == "Supported"@ {
        RowStyle::Green
    } else {
        RowStyle::Yellow
    }
}

/// Executable counterpart of [`spec_style_for_label`].
pub fn style_for_label(label: &String) -> (r: RowStyle)
    ensures
        r == spec_style_for_label(label@),
{
    if *label == String::from_str("EOL") {
        RowStyle::Red
    } else if *label == String::from_str("Supported") {
        RowStyle::Green
    } else {
        RowStyle::Yellow
    }
}

} // verus!
