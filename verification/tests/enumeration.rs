use vm_eol::classify::{detect_os_family, OsFamily};
use vm_eol::enumerate::{
    build_record, enumerate_tenant, records_for_subscription, ImageReference, MissingField,
    OsDisk, StorageProfile, SubscriptionListing, VmEntry, VmProperties,
};
use vm_eol::vmresult::OsType;

fn image_reference(offer: &str, sku: &str) -> ImageReference {
    ImageReference {
        publisher: Some(String::from("Canonical")),
        offer: Some(String::from(offer)),
        sku: Some(String::from(sku)),
        version: Some(String::from("latest")),
        exact_version: Some(String::from("1.2.3")),
    }
}

fn complete_entry(id: &str, offer: &str, sku: &str) -> VmEntry {
    VmEntry {
        id: Some(String::from(id)),
        properties: Some(VmProperties {
            storage_profile: Some(StorageProfile {
                image_reference: Some(image_reference(offer, sku)),
                os_disk: Some(OsDisk {
                    os_type: Some(OsType::Linux),
                }),
            }),
        }),
    }
}

#[test]
fn complete_entry_yields_full_record() {
    let sub = String::from("s1");
    let r = build_record(&sub, &complete_entry("vm1", "UbuntuServer", "18.04-LTS")).unwrap();
    assert_eq!(r.id, String::from("vm1"));
    assert_eq!(r.subscription_id, String::from("s1"));
    assert_eq!(r.publisher, String::from("Canonical"));
    assert_eq!(r.offer, String::from("UbuntuServer"));
    assert_eq!(r.sku, String::from("18.04-LTS"));
    assert_eq!(r.version, String::from("latest"));
    assert_eq!(r.exact_version, String::from("1.2.3"));
    assert_eq!(r.os_type, Some(OsType::Linux));
    assert_eq!(r.os_family, OsFamily::Ubuntu);
}

#[test]
fn missing_image_reference_still_yields_one_record() {
    // The machine is kept: the image fields stay empty and the family is
    // unknown, but the OS type from the disk is still reported.
    let sub = String::from("s1");
    let entry = VmEntry {
        id: Some(String::from("vm1")),
        properties: Some(VmProperties {
            storage_profile: Some(StorageProfile {
                image_reference: None,
                os_disk: Some(OsDisk {
                    os_type: Some(OsType::Windows),
                }),
            }),
        }),
    };
    let r = build_record(&sub, &entry).unwrap();
    assert_eq!(r.publisher, String::new());
    assert_eq!(r.offer, String::new());
    assert_eq!(r.sku, String::new());
    assert_eq!(r.version, String::new());
    assert_eq!(r.exact_version, String::new());
    assert_eq!(r.os_family, OsFamily::Unknown);
    assert_eq!(r.os_type, Some(OsType::Windows));
    let (records, diags) = records_for_subscription(&sub, &vec![entry]);
    assert_eq!(records.len(), 1);
    assert_eq!(diags.len(), 0);
}

#[test]
fn missing_properties_is_skipped_with_diagnostic() {
    let sub = String::from("s1");
    let entry = VmEntry {
        id: Some(String::from("vm1")),
        properties: None,
    };
    let e = build_record(&sub, &entry).unwrap_err();
    assert_eq!(e.field, MissingField::Properties);
    assert_eq!(e.resource_id, String::from("vm1"));
}

#[test]
fn missing_storage_profile_is_skipped_with_diagnostic() {
    let sub = String::from("s1");
    let entry = VmEntry {
        id: None,
        properties: Some(VmProperties {
            storage_profile: None,
        }),
    };
    let e = build_record(&sub, &entry).unwrap_err();
    assert_eq!(e.field, MissingField::StorageProfile);
    assert_eq!(e.resource_id, String::new());
}

#[test]
fn missing_os_disk_is_skipped_with_diagnostic() {
    let sub = String::from("s1");
    let entry = VmEntry {
        id: Some(String::from("vm2")),
        properties: Some(VmProperties {
            storage_profile: Some(StorageProfile {
                image_reference: Some(image_reference("CentOS", "7.6")),
                os_disk: None,
            }),
        }),
    };
    let e = build_record(&sub, &entry).unwrap_err();
    assert_eq!(e.field, MissingField::OsDisk);
    assert_eq!(e.resource_id, String::from("vm2"));
}

#[test]
fn skipped_machines_do_not_stop_the_traversal() {
    let sub = String::from("s1");
    let vms = vec![
        complete_entry("vm1", "UbuntuServer", "18.04-LTS"),
        VmEntry {
            id: Some(String::from("vm2")),
            properties: None,
        },
        complete_entry("vm3", "CentOS", "7.6"),
    ];
    let (records, diags) = records_for_subscription(&sub, &vms);
    assert_eq!(records.len(), 2);
    assert_eq!(records[0].id, String::from("vm1"));
    assert_eq!(records[1].id, String::from("vm3"));
    assert_eq!(diags.len(), 1);
    assert_eq!(diags[0].resource_id, String::from("vm2"));
}

#[test]
fn every_machine_is_delivered_exactly_once() {
    // Three subscriptions of four machines each: all twelve records
    // arrive, each exactly once, in listing order.
    let mut subs: Vec<SubscriptionListing> = Vec::new();
    for s in 0..3 {
        let mut vms: Vec<VmEntry> = Vec::new();
        for v in 0..4 {
            let id = format!("sub{}-vm{}", s, v);
            vms.push(complete_entry(&id, "UbuntuServer", "18.04-LTS"));
        }
        subs.push(SubscriptionListing {
            subscription_id: Some(format!("sub{}", s)),
            vms,
        });
    }
    let (records, diags) = enumerate_tenant(&subs);
    assert_eq!(records.len(), 12);
    assert_eq!(diags.len(), 0);
    for s in 0..3 {
        for v in 0..4 {
            let expected = format!("sub{}-vm{}", s, v);
            let matching = records.iter().filter(|r| r.id == expected).count();
            assert_eq!(matching, 1);
            assert_eq!(records[s * 4 + v].id, expected);
            assert_eq!(records[s * 4 + v].subscription_id, format!("sub{}", s));
        }
    }
}

#[test]
fn subscription_without_id_uses_empty_id() {
    let subs = vec![SubscriptionListing {
        subscription_id: None,
        vms: vec![complete_entry("vm1", "RHEL", "8.6")],
    }];
    let (records, _) = enumerate_tenant(&subs);
    assert_eq!(records.len(), 1);
    assert_eq!(records[0].subscription_id, String::new());
    assert_eq!(records[0].os_family, OsFamily::Rhel);
}

#[test]
fn family_detection_is_case_insensitive_and_ordered() {
    assert_eq!(
        detect_os_family(&String::from("UbuntuServer")),
        OsFamily::Ubuntu
    );
    assert_eq!(detect_os_family(&String::from("CENTOS")), OsFamily::CentOS);
    assert_eq!(detect_os_family(&String::from("rhel-sap")), OsFamily::Rhel);
    assert_eq!(
        detect_os_family(&String::from("WindowsServer")),
        OsFamily::Windows
    );
    assert_eq!(detect_os_family(&String::from("Debian")), OsFamily::Unknown);
    assert_eq!(detect_os_family(&String::new()), OsFamily::Unknown);
    // Priority order: rhel is judged before windows.
    assert_eq!(
        detect_os_family(&String::from("rhel-on-windows")),
        OsFamily::Rhel
    );
}
