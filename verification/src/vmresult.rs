//! The inventory record produced for every virtual machine found.

use crate::classify::OsFamily;
use vstd::prelude::*;
use vstd::string::StringExecFns;

verus! {

/// Operating system named by a machine's OS disk.
#[derive(Clone, Copy, Debug, PartialEq, Eq, Structural)]
pub enum OsType {
    Windows,
    Linux,
}

/// One virtual machine of the tenant, with the image fields the
/// classification needs. Fields a listing did not carry are empty.
/// Immutable once produced by the enumeration.
#[derive(Clone, Debug)]
pub struct VMResult {
    /// Resource identifier of the machine.
    pub id: String,
    /// Subscription the machine was found in.
    pub subscription_id: String,
    /// Publisher of the machine's image.
    pub publisher: String,
    /// Offer name of the machine's image.
    pub offer: String,
    /// SKU of the machine's image; the version parsers read this.
    pub sku: String,
    /// Version of the machine's image.
    pub version: String,
    /// Exact version of the machine's image.
    pub exact_version: String,
    /// Operating system named by the OS disk, where known.
    pub os_type: Option<OsType>,
    /// Vendor family judged from the offer name.
    pub os_family: OsFamily,
}

/// Mathematical image of a [`VMResult`].
pub ghost struct RecordView {
    pub id: Seq<char>,
    pub subscription_id: Seq<char>,
    pub publisher: Seq<char>,
    pub offer: Seq<char>,
    pub sku: Seq<char>,
    pub version: Seq<char>,
    pub exact_version: Seq<char>,
    pub os_type: Option<OsType>,
    pub os_family: OsFamily,
}

impl View for VMResult {
    type V = RecordView;

    open spec fn view(&self) -> RecordView {
        RecordView {
            id: self.id@,
            subscription_id: self.subscription_id@,
            publisher: self.publisher@,
            offer: self.offer@,
            sku: self.sku@,
            version: self.version@,
            exact_version: self.exact_version@,
            os_type: self.os_type,
            os_family: self.os_family,
        }
    }
}

impl DeepView for VMResult {
    type V = RecordView;

    open spec fn deep_view(&self) -> RecordView {
        self.view()
    }
}

impl VMResult {
    /// The fixed header row of the CSV report.
    pub fn csv_header_line() -> (r: String)
        ensures
            r@
                == "Deprecated;Version (detected);ID;OS;Subscription;Publisher;Offer;SKU;Version;Exact version\n"@,
    {
        String::from_str(
            "Deprecated;Version (detected);ID;OS;Subscription;Publisher;Offer;SKU;Version;Exact version\n",
        )
    }
}

} // verus!
