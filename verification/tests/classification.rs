use vm_eol::classify::{classify, status_label, EolStatus, OsFamily};
use vm_eol::dates::{date_from_clock, today_utc, Date};
use vm_eol::eol::EOLEntity;
use vm_eol::eol_detection::{centos, ubuntu, windows};
use vm_eol::vmresult::{OsType, VMResult};

fn entry(cycle: &str, eol: Date) -> EOLEntity {
    EOLEntity {
        cycle: String::from(cycle),
        lts: false,
        release_date: Date {
            year: 2014,
            month: 7,
            day: 7,
        },
        latest: String::from(cycle),
        support: Date {
            year: 2020,
            month: 8,
            day: 6,
        },
        eol,
        latest_release_date: None,
    }
}

fn vm(offer: &str, sku: &str, family: OsFamily) -> VMResult {
    VMResult {
        id: String::from("/subscriptions/s1/vm1"),
        subscription_id: String::from("s1"),
        publisher: String::from("pub"),
        offer: String::from(offer),
        sku: String::from(sku),
        version: String::from("latest"),
        exact_version: String::from("1.2.3"),
        os_type: Some(OsType::Linux),
        os_family: family,
    }
}

fn today() -> Date {
    Date {
        year: 2026,
        month: 1,
        day: 15,
    }
}

#[test]
fn supported_when_eol_far_ahead() {
    // 400 days ahead of the test day, beyond the twelve-month window.
    let cal = vec![entry(
        "7",
        Date {
            year: 2027,
            month: 2,
            day: 19,
        },
    )];
    let c = classify(OsFamily::CentOS, &String::from("7.6"), &cal, &today());
    assert_eq!(c.status, EolStatus::Supported);
    assert_eq!(c.detected_version, String::from("7"));
    assert_eq!(c.status_detail, None);
}

#[test]
fn ending_soon_when_eol_within_a_year() {
    // 200 days ahead of the test day, inside the twelve-month window.
    let eol = Date {
        year: 2026,
        month: 8,
        day: 3,
    };
    let cal = vec![entry("7", eol)];
    let c = classify(OsFamily::CentOS, &String::from("7.6"), &cal, &today());
    assert_eq!(c.status, EolStatus::EndingSoon);
    assert_eq!(c.status_detail, Some(String::from("2026-08-03")));
    assert_eq!(status_label(&c), String::from("Ending 2026-08-03"));
}

#[test]
fn end_of_life_when_eol_past() {
    // 10 days before the test day.
    let cal = vec![entry(
        "7",
        Date {
            year: 2026,
            month: 1,
            day: 5,
        },
    )];
    let c = classify(OsFamily::CentOS, &String::from("7.6"), &cal, &today());
    assert_eq!(c.status, EolStatus::EndOfLife);
    assert_eq!(status_label(&c), String::from("EOL"));
}

#[test]
fn unknown_when_no_cycle_matches() {
    let cal = vec![
        entry(
            "6",
            Date {
                year: 2020,
                month: 11,
                day: 30,
            },
        ),
        entry(
            "8",
            Date {
                year: 2029,
                month: 5,
                day: 31,
            },
        ),
    ];
    let c = classify(OsFamily::CentOS, &String::from("7.6"), &cal, &today());
    assert_eq!(c.status, EolStatus::Unknown);
    assert_eq!(c.detected_version, String::from("7"));
    assert_eq!(status_label(&c), String::from("--"));
}

#[test]
fn unknown_when_eol_is_today() {
    let cal = vec![entry("7", today())];
    let c = classify(OsFamily::CentOS, &String::from("7.6"), &cal, &today());
    assert_eq!(c.status, EolStatus::Unknown);
}

#[test]
fn windows_has_no_lookahead() {
    // 200 days ahead: ending soon for the lookahead families, plain
    // supported for Windows.
    let eol = Date {
        year: 2026,
        month: 8,
        day: 3,
    };
    let cal = vec![entry("2019", eol)];
    let c = classify(
        OsFamily::Windows,
        &String::from("2019-Datacenter"),
        &cal,
        &today(),
    );
    assert_eq!(c.status, EolStatus::Supported);
}

#[test]
fn ubuntu_has_lookahead() {
    let eol = Date {
        year: 2026,
        month: 8,
        day: 3,
    };
    let cal = vec![entry("18.04", eol)];
    let c = classify(OsFamily::Ubuntu, &String::from("18.04-LTS"), &cal, &today());
    assert_eq!(c.status, EolStatus::EndingSoon);
    assert_eq!(c.status_detail, Some(String::from("2026-08-03")));
}

#[test]
fn unknown_family_classifies_unknown() {
    let cal = vec![entry(
        "7",
        Date {
            year: 2027,
            month: 2,
            day: 19,
        },
    )];
    let c = classify(OsFamily::Unknown, &String::from("7.6"), &cal, &today());
    assert_eq!(c.status, EolStatus::Unknown);
    assert_eq!(c.detected_version, String::new());
}

#[test]
fn empty_sku_classifies_unknown() {
    let cal = vec![entry(
        "7",
        Date {
            year: 2027,
            month: 2,
            day: 19,
        },
    )];
    let c = classify(OsFamily::CentOS, &String::new(), &cal, &today());
    assert_eq!(c.status, EolStatus::Unknown);
    assert_eq!(c.detected_version, String::new());
}

#[test]
fn is_outdated_labels() {
    let soon = Date {
        year: 2026,
        month: 8,
        day: 3,
    };
    let past = Date {
        year: 2025,
        month: 4,
        day: 30,
    };
    let far = Date {
        year: 2028,
        month: 4,
        day: 30,
    };
    let m = vm("UbuntuServer", "18.04-LTS", OsFamily::Ubuntu);
    let cal = vec![entry("18.04", past)];
    assert_eq!(ubuntu::is_outdated(&m, &cal, &today()), String::from("EOL"));
    let cal = vec![entry("18.04", far)];
    assert_eq!(
        ubuntu::is_outdated(&m, &cal, &today()),
        String::from("Supported")
    );
    let cal = vec![entry("18.04", soon)];
    assert_eq!(
        ubuntu::is_outdated(&m, &cal, &today()),
        String::from("Ending 2026-08-03")
    );
    let m2 = vm("CentOS", "9-stream", OsFamily::CentOS);
    let cal = vec![entry("7", far)];
    assert_eq!(centos::is_outdated(&m2, &cal, &today()), String::from("--"));
    let m3 = vm("WindowsServer", "2019-Datacenter", OsFamily::Windows);
    let cal = vec![entry("2019", soon)];
    assert_eq!(
        windows::is_outdated(&m3, &cal, &today()),
        String::from("Supported")
    );
}

#[test]
fn first_matching_entry_wins() {
    let cal = vec![
        entry(
            "7",
            Date {
                year: 2025,
                month: 1,
                day: 1,
            },
        ),
        entry(
            "7",
            Date {
                year: 2028,
                month: 1,
                day: 1,
            },
        ),
    ];
    let c = classify(OsFamily::CentOS, &String::from("7.6"), &cal, &today());
    assert_eq!(c.status, EolStatus::EndOfLife);
}

#[test]
fn iso_rendering_pads_fields() {
    let d = Date {
        year: 987,
        month: 8,
        day: 3,
    };
    assert_eq!(d.iso_string(), String::from("0987-08-03"));
    let d = Date {
        year: 2026,
        month: 12,
        day: 31,
    };
    assert_eq!(d.iso_string(), String::from("2026-12-31"));
}

#[test]
fn one_year_after_clamps_leap_day() {
    let d = Date {
        year: 2024,
        month: 2,
        day: 29,
    };
    let e = d.one_year_after();
    assert_eq!(
        e,
        Date {
            year: 2025,
            month: 2,
            day: 28
        }
    );
    let d = Date {
        year: 2026,
        month: 8,
        day: 3,
    };
    assert_eq!(
        d.one_year_after(),
        Date {
            year: 2027,
            month: 8,
            day: 3
        }
    );
}

#[test]
fn date_order_is_calendar_order() {
    let a = Date {
        year: 2026,
        month: 1,
        day: 15,
    };
    let b = Date {
        year: 2026,
        month: 8,
        day: 3,
    };
    assert!(a.is_before(&b));
    assert!(!b.is_before(&a));
    assert!(!a.is_before(&a));
}

#[test]
fn clock_yields_a_valid_date() {
    // Exercises the one call into the clock: the result must be a real
    // calendar day, not an echo of anything handed in.
    let d = today_utc().expect("the clock names a representable day");
    assert!(d.valid());
    assert!((2020..9999).contains(&d.year));
}

#[test]
fn clock_date_accepted_exactly_when_representable() {
    assert_eq!(
        date_from_clock(2026, 1, 15),
        Some(Date {
            year: 2026,
            month: 1,
            day: 15
        })
    );
    assert_eq!(
        date_from_clock(2024, 2, 29),
        Some(Date {
            year: 2024,
            month: 2,
            day: 29
        })
    );
    // A year before 1 or after 9998 leaves no room in the model (the
    // twelve-month horizon must exist too).
    assert_eq!(date_from_clock(0, 6, 1), None);
    assert_eq!(date_from_clock(-5, 6, 1), None);
    assert_eq!(date_from_clock(9999, 6, 1), None);
    // Days no calendar has.
    assert_eq!(date_from_clock(2026, 2, 29), None);
    assert_eq!(date_from_clock(2026, 4, 31), None);
    assert_eq!(date_from_clock(2026, 0, 1), None);
    assert_eq!(date_from_clock(2026, 13, 1), None);
    assert_eq!(date_from_clock(2026, 6, 0), None);
}
