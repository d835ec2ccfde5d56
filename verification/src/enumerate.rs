//! Extraction of inventory records from listed machine data.
//!
//! The listing itself is paginated network work done outside the crate;
//! what arrives here are plain values: per subscription, the machines with
//! their optional nested fields. A machine whose required fields
//! (properties, storage profile, OS disk) are missing is skipped with a
//! diagnostic; a machine whose image reference alone is missing still
//! yields exactly one record, with empty image fields. No failure of one
//! machine stops the traversal.

use crate::classify::{detect_os_family, spec_detect_os_family};
use crate::text::unwrap_or_empty;
use crate::vmresult::{OsType, RecordView, VMResult};
use vstd::prelude::*;

verus! {

/// Image reference of a machine, as the listing carries it.
#[derive(Clone, Debug)]
pub struct ImageReference {
    pub publisher: Option<String>,
    pub offer: Option<String>,
    pub sku: Option<String>,
    pub version: Option<String>,
    pub exact_version: Option<String>,
}

/// OS disk of a machine, as the listing carries it.
#[derive(Clone, Copy, Debug)]
pub struct OsDisk {
    pub os_type: Option<OsType>,
}

/// Storage profile of a machine, as the listing carries it.
#[derive(Clone, Debug)]
pub struct StorageProfile {
    pub image_reference: Option<ImageReference>,
    pub os_disk: Option<OsDisk>,
}

/// Properties of a machine, as the listing carries them.
#[derive(Clone, Debug)]
pub struct VmProperties {
    pub storage_profile: Option<StorageProfile>,
}

/// One machine of a listing page.
#[derive(Clone, Debug)]
pub struct VmEntry {
    pub id: Option<String>,
    pub properties: Option<VmProperties>,
}

/// One subscription with the machines listed in it.
#[derive(Clone, Debug)]
pub struct SubscriptionListing {
    pub subscription_id: Option<String>,
    pub vms: Vec<VmEntry>,
}

/// Mathematical image of an [`ImageReference`].
pub ghost struct ImageReferenceView {
    pub publisher: Option<Seq<char>>,
    pub offer: Option<Seq<char>>,
    pub sku: Option<Seq<char>>,
    pub version: Option<Seq<char>>,
    pub exact_version: Option<Seq<char>>,
}

/// Mathematical image of a [`StorageProfile`].
pub ghost struct StorageProfileView {
    pub image_reference: Option<ImageReferenceView>,
    pub os_disk: Option<OsDisk>,
}

/// Mathematical image of a [`VmProperties`].
pub ghost struct VmPropertiesView {
    pub storage_profile: Option<StorageProfileView>,
}

/// Mathematical image of a [`VmEntry`].
pub ghost struct VmEntryView {
    pub id: Option<Seq<char>>,
    pub properties: Option<VmPropertiesView>,
}

/// Mathematical image of a [`SubscriptionListing`].
pub ghost struct SubscriptionListingView {
    pub subscription_id: Option<Seq<char>>,
    pub vms: Seq<VmEntryView>,
}

/// View of an optional string as an optional character sequence.
pub open spec fn opt_view(o: Option<String>) -> Option<Seq<char>> {
    match o {
        Some(s) => Some(s@),
        None => None,
    }
}

impl View for ImageReference {
    type V = ImageReferenceView;

    open spec fn view(&self) -> ImageReferenceView {
        ImageReferenceView {
            publisher: opt_view(self.publisher),
            offer: opt_view(self.offer),
            sku: opt_view(self.sku),
            version: opt_view(self.version),
            exact_version: opt_view(self.exact_version),
        }
    }
}

impl View for StorageProfile {
    type V = StorageProfileView;

    open spec fn view(&self) -> StorageProfileView {
        StorageProfileView {
            image_reference: match self.image_reference {
                Some(ref ir) => Some(ir@),
                None => None,
            },
            os_disk: self.os_disk,
        }
    }
}

impl View for VmProperties {
    type V = VmPropertiesView;

    open spec fn view(&self) -> VmPropertiesView {
        VmPropertiesView {
            storage_profile: match self.storage_profile {
                Some(ref sp) => Some(sp@),
                None => None,
            },
        }
    }
}

impl View for VmEntry {
    type V = VmEntryView;

    open spec fn view(&self) -> VmEntryView {
        VmEntryView {
            id: opt_view(self.id),
            properties: match self.properties {
                Some(ref p) => Some(p@),
                None => None,
            },
        }
    }
}

impl DeepView for VmEntry {
    type V = VmEntryView;

    open spec fn deep_view(&self) -> VmEntryView {
        self.view()
    }
}

impl View for SubscriptionListing {
    type V = SubscriptionListingView;

    open spec fn view(&self) -> SubscriptionListingView {
        SubscriptionListingView {
            subscription_id: opt_view(self.subscription_id),
            vms: self.vms.deep_view(),
        }
    }
}

impl DeepView for SubscriptionListing {
    type V = SubscriptionListingView;

    open spec fn deep_view(&self) -> SubscriptionListingView {
        self.view()
    }
}

/// The required nested field a skipped machine was missing.
#[derive(Clone, Copy, Debug, PartialEq, Eq, Structural)]
pub enum MissingField {
    Properties,
    StorageProfile,
    OsDisk,
}

/// Diagnostic for one skipped machine: which machine, and what it lacked.
/// Skipping is never fatal; the diagnostic is reported and the traversal
/// goes on.
#[derive(Clone, Debug)]
pub struct DataQualityError {
    pub resource_id: String,
    pub field: MissingField,
}

/// Mathematical image of a [`DataQualityError`].
pub ghost struct DataQualityErrorView {
    pub resource_id: Seq<char>,
    pub field: MissingField,
}

impl View for DataQualityError {
    type V = DataQualityErrorView;

    open spec fn view(&self) -> DataQualityErrorView {
        DataQualityErrorView { resource_id: self.resource_id@, field: self.field }
    }
}

impl DeepView for DataQualityError {
    type V = DataQualityErrorView;

    open spec fn deep_view(&self) -> DataQualityErrorView {
        self.view()
    }
}

/// The character sequence, or empty where there is none.
pub open spec fn opt_text(o: Option<Seq<char>>) -> Seq<char> {
    match o {
        Some(s) => s,
        None => Seq::empty(),
    }
}

/// A machine listing carries every required nested field.
pub open spec fn entry_complete(v: VmEntryView) -> bool {
    &&& v.properties is Some
    &&& v.properties->Some_0.storage_profile is Some
    &&& v.properties->Some_0.storage_profile->Some_0.os_disk is Some
}

/// The first required field the listing lacks, in the order they are read.
pub open spec fn spec_missing_field(v: VmEntryView) -> MissingField {
    if v.properties is None {
        MissingField::Properties
    } else if v.properties->Some_0.storage_profile is None {
        MissingField::StorageProfile
    } else {
        MissingField::OsDisk
    }
}

/// The diagnostic emitted for an incomplete machine listing.
pub open spec fn spec_diag_of(v: VmEntryView) -> DataQualityErrorView {
    DataQualityErrorView { resource_id: opt_text(v.id), field: spec_missing_field(v) }
}

/// The record a complete machine listing yields: its identifiers, the
/// image fields (empty where the image reference or a field of it is
/// absent), the OS disk's system, and the family judged from the offer.
pub open spec fn spec_record_of(sub: Seq<char>, v: VmEntryView) -> RecordView
    recommends
        entry_complete(v),
{
    let sp = v.properties->Some_0.storage_profile->Some_0;
    let publisher = match sp.image_reference {
        Some(ir) => opt_text(ir.publisher),
        None => Seq::empty(),
    };
    let offer = match sp.image_reference {
        Some(ir) => opt_text(ir.offer),
        None => Seq::empty(),
    };
    let sku = match sp.image_reference {
        Some(ir) => opt_text(ir.sku),
        None => Seq::empty(),
    };
    let version = match sp.image_reference {
        Some(ir) => opt_text(ir.version),
        None => Seq::empty(),
    };
    let exact_version = match sp.image_reference {
        Some(ir) => opt_text(ir.exact_version),
        None => Seq::empty(),
    };
    RecordView {
        id: opt_text(v.id),
        subscription_id: sub,
        publisher: publisher,
        offer: offer,
        sku: sku,
        version: version,
        exact_version: exact_version,
        os_type: sp.os_disk->Some_0.os_type,
        os_family: spec_detect_os_family(offer),
    }
}

/// Turns one listed machine into its inventory record, or into the
/// diagnostic for the first required field it lacks.
pub fn build_record(subscription_id: &String, vm: &VmEntry) -> (r: Result<
    VMResult,
    DataQualityError,
>)
    ensures
        entry_complete(vm@) ==> (r matches Ok(rec) && rec@ == spec_record_of(
            subscription_id@,
            vm@,
        )),
        !entry_complete(vm@) ==> (r matches Err(e) && e@ == spec_diag_of(vm@)),
{
    let id = unwrap_or_empty(vm.id.clone());
    let properties = match &vm.properties {
        Some(p) => p,
        None => {
            return Err(DataQualityError { resource_id: id, field: MissingField::Properties });
        },
    };
    let storage_profile = match &properties.storage_profile {
        Some(p) => p,
        None => {
            return Err(
                DataQualityError { resource_id: id, field: MissingField::StorageProfile },
            );
        },
    };
    let (publisher, offer, sku, version, exact_version) = match &storage_profile.image_reference {
        Some(ir) => (
            unwrap_or_empty(ir.publisher.clone()),
            unwrap_or_empty(ir.offer.clone()),
            unwrap_or_empty(ir.sku.clone()),
            unwrap_or_empty(ir.version.clone()),
            unwrap_or_empty(ir.exact_version.clone()),
        ),
        None => (String::new(), String::new(), String::new(), String::new(), String::new()),
    };
    let os_disk = match &storage_profile.os_disk {
        Some(d) => d,
        None => {
            return Err(DataQualityError { resource_id: id, field: MissingField::OsDisk });
        },
    };
    let os_family = detect_os_family(&offer);
    Ok(
        VMResult {
            id,
            subscription_id: subscription_id.clone(),
            publisher,
            offer,
            sku,
            version,
            exact_version,
            os_type: os_disk.os_type,
            os_family,
        },
    )
}

/// Records of one subscription's machines, in listing order: one per
/// complete machine, none for a skipped one.
pub open spec fn spec_sub_records(sub: Seq<char>, vms: Seq<VmEntryView>) -> Seq<RecordView>
    decreases vms.len(),
{
    if vms.len() == 0 {
        Seq::empty()
    } else {
        spec_sub_records(sub, vms.drop_last()) + (if entry_complete(vms.last()) {
            seq![spec_record_of(sub, vms.last())]
        } else {
            Seq::empty()
        })
    }
}

/// Diagnostics of one subscription's machines, in listing order: one per
/// incomplete machine.
pub open spec fn spec_sub_diags(sub: Seq<char>, vms: Seq<VmEntryView>) -> Seq<
    DataQualityErrorView,
>
    decreases vms.len(),
{
    if vms.len() == 0 {
        Seq::empty()
    } else {
        spec_sub_diags(sub, vms.drop_last()) + (if !entry_complete(vms.last()) {
            seq![spec_diag_of(vms.last())]
        } else {
            Seq::empty()
        })
    }
}

/// Walks one subscription's machines and yields every record and every
/// diagnostic, exactly as listed: no machine is delivered twice and none
/// is dropped, and a skipped machine never stops the traversal.
pub fn records_for_subscription(subscription_id: &String, vms: &Vec<VmEntry>) -> (r: (
    Vec<VMResult>,
    Vec<DataQualityError>,
))
    ensures
        r.0.deep_view() == spec_sub_records(subscription_id@, vms.deep_view()),
        r.1.deep_view() == spec_sub_diags(subscription_id@, vms.deep_view()),
{
    let ghost vdv = vms.deep_view();
    let mut records: Vec<VMResult> = Vec::new();
    let mut diags: Vec<DataQualityError> = Vec::new();
    let n = vms.len();
    assert(records.deep_view() =~= spec_sub_records(subscription_id@, vdv.take(0)));
    assert(diags.deep_view() =~= spec_sub_diags(subscription_id@, vdv.take(0)));
    let mut i: usize = 0;
    while i < n
        invariant
            0 <= i <= n,
            n == vms.len(),
            vdv == vms.deep_view(),
            vdv.len() == n,
            records.deep_view() == spec_sub_records(subscription_id@, vdv.take(i as int)),
            diags.deep_view() == spec_sub_diags(subscription_id@, vdv.take(i as int)),
        decreases n - i,
    {
        let ghost old_records = records.deep_view();
        let ghost old_diags = diags.deep_view();
        match build_record(subscription_id, &vms[i]) {
            Ok(rec) => {
                records.push(rec);
            },
            Err(e) => {
                diags.push(e);
            },
        }
        proof {
            assert(vdv.take(i + 1).drop_last() =~= vdv.take(i as int));
            assert(vdv.take(i + 1).last() == vdv[i as int]);
            assert(vms[i as int].deep_view() == vdv[i as int]);
            if entry_complete(vdv[i as int]) {
                assert(records.deep_view() =~= old_records + seq![
                    spec_record_of(subscription_id@, vdv[i as int]),
                ]);
                assert(diags.deep_view() =~= old_diags);
            } else {
                assert(diags.deep_view() =~= old_diags + seq![spec_diag_of(vdv[i as int])]);
                assert(records.deep_view() =~= old_records);
            }
        }
        i = i + 1;
    }
    proof {
        assert(vdv.take(n as int) =~= vdv);
    }
    (records, diags)
}

/// The subscription identifier a listing is traversed under: the listed
/// one, or empty where the listing lacked it.
pub open spec fn spec_sub_id(s: SubscriptionListingView) -> Seq<char> {
    opt_text(s.subscription_id)
}

/// Records of the whole tenant: each subscription's records in turn.
pub open spec fn spec_tenant_records(subs: Seq<SubscriptionListingView>) -> Seq<RecordView>
    decreases subs.len(),
{
    if subs.len() == 0 {
        Seq::empty()
    } else {
        spec_tenant_records(subs.drop_last()) + spec_sub_records(
            spec_sub_id(subs.last()),
            subs.last().vms,
        )
    }
}

/// Diagnostics of the whole tenant: each subscription's diagnostics in turn.
pub open spec fn spec_tenant_diags(subs: Seq<SubscriptionListingView>) -> Seq<
    DataQualityErrorView,
>
    decreases subs.len(),
{
    if subs.len() == 0 {
        Seq::empty()
    } else {
        spec_tenant_diags(subs.drop_last()) + spec_sub_diags(
            spec_sub_id(subs.last()),
            subs.last().vms,
        )
    }
}

/// Walks every listed subscription and every machine in it, and delivers
/// every record and every diagnostic exactly once, in listing order.
pub fn enumerate_tenant(subs: &Vec<SubscriptionListing>) -> (r: (
    Vec<VMResult>,
    Vec<DataQualityError>,
))
    ensures
        r.0.deep_view() == spec_tenant_records(subs.deep_view()),
        r.1.deep_view() == spec_tenant_diags(subs.deep_view()),
{
    let ghost sdv = subs.deep_view();
    let mut records: Vec<VMResult> = Vec::new();
    let mut diags: Vec<DataQualityError> = Vec::new();
    let n = subs.len();
    assert(records.deep_view() =~= spec_tenant_records(sdv.take(0)));
    assert(diags.deep_view() =~= spec_tenant_diags(sdv.take(0)));
    let mut i: usize = 0;
    while i < n
        invariant
            0 <= i <= n,
            n == subs.len(),
            sdv == subs.deep_view(),
            sdv.len() == n,
            records.deep_view() == spec_tenant_records(sdv.take(i as int)),
            diags.deep_view() == spec_tenant_diags(sdv.take(i as int)),
        decreases n - i,
    {
        let ghost old_records = records.deep_view();
        let ghost old_diags = diags.deep_view();
        let sub_id = unwrap_or_empty(subs[i].subscription_id.clone());
        let (mut part_records, mut part_diags) = records_for_subscription(&sub_id, &subs[i].vms);
        let ghost part_records_dv = part_records.deep_view();
        let ghost part_diags_dv = part_diags.deep_view();
        records.append(&mut part_records);
        diags.append(&mut part_diags);
        proof {
            assert(sdv.take(i + 1).drop_last() =~= sdv.take(i as int));
            assert(sdv.take(i + 1).last() == sdv[i as int]);
            assert(subs[i as int].deep_view() == sdv[i as int]);
            assert(sub_id@ == spec_sub_id(sdv[i as int]));
            assert(records.deep_view() =~= old_records + part_records_dv);
            assert(diags.deep_view() =~= old_diags + part_diags_dv);
        }
        i = i + 1;
    }
    proof {
        assert(sdv.take(n as int) =~= sdv);
    }
    (records, diags)
}

/// Every machine of every listed subscription is complete.
pub open spec fn all_entries_complete(subs: Seq<SubscriptionListingView>) -> bool {
    forall|i: int, j: int|
        0 <= i < subs.len() && 0 <= j < subs[i].vms.len() ==> entry_complete(subs[i].vms[j])
}

/// Number of machines listed over all subscriptions.
pub open spec fn total_vm_count(subs: Seq<SubscriptionListingView>) -> nat
    decreases subs.len(),
{
    if subs.len() == 0 {
        0
    } else {
        total_vm_count(subs.drop_last()) + subs.last().vms.len()
    }
}

/// One subscription of complete machines yields one record per machine.
proof fn lemma_sub_records_complete_len(sub: Seq<char>, vms: Seq<VmEntryView>)
    requires
        forall|j: int| 0 <= j < vms.len() ==> entry_complete(vms[j]),
    ensures
        spec_sub_records(sub, vms).len() == vms.len(),
    decreases vms.len(),
{
    if vms.len() > 0 {
        lemma_sub_records_complete_len(sub, vms.drop_last());
    }
}

/// Over subscriptions of complete machines, the enumeration delivers
/// exactly one record per machine: with `N` subscriptions of `M` machines
/// each, exactly `N * M` records reach the consumer, none dropped and
/// none repeated.
pub proof fn lemma_enumeration_delivers_all(subs: Seq<SubscriptionListingView>)
    requires
        all_entries_complete(subs),
    ensures
        spec_tenant_records(subs).len() == total_vm_count(subs),
    decreases subs.len(),
{
    if subs.len() > 0 {
        assert forall|i: int, j: int|
            0 <= i < subs.drop_last().len() && 0 <= j < subs.drop_last()[i].vms.len()
            implies entry_complete(subs.drop_last()[i].vms[j]) by {
            assert(subs.drop_last()[i] == subs[i]);
        }
        lemma_enumeration_delivers_all(subs.drop_last());
        assert forall|j: int|
            0 <= j < subs.last().vms.len() implies entry_complete(subs.last().vms[j]) by {
            assert(entry_complete(subs[subs.len() - 1].vms[j]));
        }
        lemma_sub_records_complete_len(spec_sub_id(subs.last()), subs.last().vms);
    }
}

/// A complete machine listing whose image reference is absent still
/// yields exactly one record, with every image field empty and the
/// unknown family.
pub proof fn lemma_missing_image_reference(sub: Seq<char>, v: VmEntryView)
    requires
        entry_complete(v),
        v.properties->Some_0.storage_profile->Some_0.image_reference is None,
    ensures
        spec_record_of(sub, v).publisher == Seq::<char>::empty(),
        spec_record_of(sub, v).offer == Seq::<char>::empty(),
        spec_record_of(sub, v).sku == Seq::<char>::empty(),
        spec_record_of(sub, v).version == Seq::<char>::empty(),
        spec_record_of(sub, v).exact_version == Seq::<char>::empty(),
        spec_record_of(sub, v).os_family == crate::classify::OsFamily::Unknown,
{
    crate::classify::lemma_detect_empty_unknown();
}

} // verus!
