use csaf::advisory::{Advisory, Date, IdKind};
use csaf::date_time::DateTime;
use csaf::definitions::{BranchCategory, NoteCategory, ProductIdT, Reference};
use csaf::document::{Category, CsafVersion, Engine, Generator, PublisherCategory, Status};
use csaf::interop::{
    assemble, compose, product_tree, BranchTracking, Classification, ClassifiedVersion,
    ConversionError, RegistryLookup,
};
use csaf::vulnerability::{RemediationCategory, VulnerabilityId};
use csaf::Csaf;
use rustsec::advisory::Versions;
use rustsec::VersionReq;

fn requirements(texts: &[&str]) -> Vec<VersionReq> {
    texts.iter().map(|text| VersionReq::parse(text).unwrap()).collect()
}

fn versions(patched: &[&str], unaffected: &[&str]) -> Versions {
    Versions::new(requirements(patched), requirements(unaffected)).unwrap()
}

fn texts(items: &[&str]) -> Vec<String> {
    items.iter().map(|item| item.to_string()).collect()
}

fn ids(items: &[&str]) -> Vec<ProductIdT> {
    items.iter().map(|item| ProductIdT(item.to_string())).collect()
}

fn demo_advisory() -> Advisory {
    Advisory {
        id: "RUSTSEC-2024-0001".to_string(),
        package: "demo".to_string(),
        title: "Demo is broken".to_string(),
        description: "Demo breaks on every input.".to_string(),
        date: Date { year: 2024, month: 2, day: 29 },
        aliases: Vec::new(),
        cvss: None,
        references: Vec::new(),
        versions: versions(&[">= 1.0.0"], &["< 0.5.0"]),
    }
}

fn generator() -> Generator {
    Generator {
        engine: Engine { name: "test".to_string(), version: None },
        date: None,
    }
}

fn crossbeam_advisory() -> Advisory {
    Advisory {
        id: "RUSTSEC-2021-0093".to_string(),
        package: "crossbeam-deque".to_string(),
        title: "Data race in crossbeam-deque".to_string(),
        description: "In the affected version of this crate, the result of the race condition is that one or more tasks in the worker queue can be popped twice instead of other tasks that are forgotten and never popped.".to_string(),
        date: Date { year: 2021, month: 7, day: 30 },
        aliases: texts(&["GHSA-pqqp-xmhj-wgcw", "CVE-2021-32810"]),
        cvss: None,
        references: Vec::new(),
        versions: versions(&[">= 0.7.4, < 0.8.0", ">= 0.8.1"], &[]),
    }
}

fn crossbeam_registry() -> RegistryLookup {
    RegistryLookup::Versions(texts(&["0.6.3", "0.7.3", "0.7.4", "0.8.0", "0.8.1"]))
}

#[test]
fn example_advisory_deserializes() {
    let advisory = crossbeam_advisory();
    println!("{:#?}", advisory);
    let document = Csaf::from(&advisory, &crossbeam_registry()).unwrap();
    let status = document.vulnerabilities.unwrap().remove(0).product_status.unwrap();
    assert_eq!(
        status.fixed,
        Some(ids(&["CROSSBEAM-DEQUE-3", "CROSSBEAM-DEQUE-5"]))
    );
    assert_eq!(
        status.known_affected,
        Some(ids(&["CROSSBEAM-DEQUE-1", "CROSSBEAM-DEQUE-2", "CROSSBEAM-DEQUE-4"]))
    );
    assert_eq!(status.known_not_affected, None);
}

#[test]
fn demo_versions_are_classified_in_registry_order() {
    let advisory = demo_advisory();
    let registry = RegistryLookup::Versions(texts(&["0.1.0", "0.9.0", "1.0.0", "1.0.1"]));
    let document = Csaf::convert(&advisory, &registry, generator()).unwrap();

    let mut vulnerabilities = document.vulnerabilities.unwrap();
    assert_eq!(vulnerabilities.len(), 1);
    let record = vulnerabilities.remove(0);
    let status = record.product_status.unwrap();
    assert_eq!(status.fixed, Some(ids(&["DEMO-3", "DEMO-4"])));
    assert_eq!(status.known_affected, Some(ids(&["DEMO-2"])));
    assert_eq!(status.known_not_affected, Some(ids(&["DEMO-1"])));
    assert_eq!(status.first_affected, None);
    assert_eq!(status.first_fixed, None);
    assert_eq!(status.last_affected, None);
    assert_eq!(status.recommended, None);
    assert_eq!(status.under_investigation, None);

    let remediations = record.remediations.unwrap();
    assert_eq!(remediations.len(), 1);
    assert_eq!(remediations[0].category, RemediationCategory::VendorFix);
    assert_eq!(remediations[0].details, "Updated crate versions available");
    assert_eq!(remediations[0].product_ids, Some(ids(&["DEMO-2"])));
    assert_eq!(remediations[0].date, None);
    assert_eq!(remediations[0].url, None);

    let tree = document.product_tree.unwrap();
    assert_eq!(tree.full_product_names, None);
    assert_eq!(tree.product_groups, None);
    assert_eq!(tree.relationships, None);
    let top = tree.branches.unwrap().0;
    assert_eq!(top.len(), 1);
    assert_eq!(top[0].name, "demo");
    assert_eq!(top[0].category, BranchCategory::ProductName);
    assert_eq!(top[0].product, None);
    let children = &top[0].branches.as_ref().unwrap().0;
    let names: Vec<&str> = children.iter().map(|child| child.name.as_str()).collect();
    assert_eq!(names, vec!["1.0.0", "1.0.1", "0.1.0", "0.9.0"]);
    let numbers: Vec<&str> = children
        .iter()
        .map(|child| child.product.as_ref().unwrap().product_id.0.as_str())
        .collect();
    assert_eq!(numbers, vec!["DEMO-3", "DEMO-4", "DEMO-1", "DEMO-2"]);
    let full_names: Vec<&str> = children
        .iter()
        .map(|child| child.product.as_ref().unwrap().name.as_str())
        .collect();
    assert_eq!(full_names, vec!["demo 1.0.0", "demo 1.0.1", "demo 0.1.0", "demo 0.9.0"]);
    for child in children {
        assert_eq!(child.category, BranchCategory::ProductVersion);
        assert_eq!(child.branches, None);
        assert_eq!(child.product.as_ref().unwrap().product_identification_helper, None);
    }
}

#[test]
fn chosen_labels_give_the_demo_identifiers() {
    let list = vec![
        ClassifiedVersion { version: "0.1.0".to_string(), label: Classification::Unaffected },
        ClassifiedVersion { version: "0.9.0".to_string(), label: Classification::Vulnerable },
        ClassifiedVersion { version: "1.0.0".to_string(), label: Classification::Patched },
        ClassifiedVersion { version: "1.0.1".to_string(), label: Classification::Patched },
    ];
    let tracking = BranchTracking::from_classified("demo", &list);
    assert_eq!(tracking.patched.product_ids(), Some(ids(&["DEMO-3", "DEMO-4"])));
    assert_eq!(tracking.vulnerable.product_ids(), Some(ids(&["DEMO-2"])));
    assert_eq!(tracking.unaffected.product_ids(), Some(ids(&["DEMO-1"])));
}

#[test]
fn nothing_classified_gives_an_empty_document() {
    let tracking = BranchTracking::from_classified("demo", &Vec::new());
    assert!(tracking.patched.0.is_empty());
    assert!(tracking.unaffected.0.is_empty());
    assert!(tracking.vulnerable.0.is_empty());

    let tree = product_tree("demo", &tracking);
    let top = tree.branches.unwrap().0;
    assert_eq!(top.len(), 1);
    assert_eq!(top[0].name, "demo");
    assert!(top[0].branches.as_ref().unwrap().0.is_empty());

    let record = assemble(&demo_advisory(), IdKind::RustSec, &Vec::new(), &Vec::new(), &Vec::new());
    assert_eq!(record.remediations, None);
    assert_eq!(record.scores, None);
    let status = record.product_status.unwrap();
    assert_eq!(status.fixed, None);
    assert_eq!(status.known_affected, None);
    assert_eq!(status.known_not_affected, None);
    assert_eq!(status.first_affected, None);
    assert_eq!(status.first_fixed, None);
    assert_eq!(status.last_affected, None);
    assert_eq!(status.recommended, None);
    assert_eq!(status.under_investigation, None);
}

#[test]
fn a_version_that_nothing_holds_is_dropped() {
    let mut advisory = demo_advisory();
    advisory.versions = versions(&[">= 1.0.0"], &[]);
    // A pre-release above the fix: no range holds it and the oracle clears it.
    let registry = RegistryLookup::Versions(texts(&["1.0.1-alpha"]));
    let document = Csaf::convert(&advisory, &registry, generator()).unwrap();
    let record = document.vulnerabilities.unwrap().remove(0);
    assert_eq!(record.remediations, None);
    let status = record.product_status.unwrap();
    assert_eq!(status.fixed, None);
    assert_eq!(status.known_affected, None);
    assert_eq!(status.known_not_affected, None);
    let top = document.product_tree.unwrap().branches.unwrap().0;
    assert_eq!(top.len(), 1);
    assert!(top[0].branches.as_ref().unwrap().0.is_empty());
}

#[test]
fn a_dropped_version_takes_no_number() {
    let mut advisory = demo_advisory();
    advisory.versions = versions(&[">= 1.0.0"], &[]);
    let registry = RegistryLookup::Versions(texts(&["0.9.0", "1.0.1-alpha", "1.0.1"]));
    let document = Csaf::convert(&advisory, &registry, generator()).unwrap();
    let status = document.vulnerabilities.unwrap().remove(0).product_status.unwrap();
    assert_eq!(status.known_affected, Some(ids(&["DEMO-1"])));
    assert_eq!(status.fixed, Some(ids(&["DEMO-2"])));
}

#[test]
fn an_empty_registry_list_converts() {
    let registry = RegistryLookup::Versions(Vec::new());
    let document = Csaf::convert(&demo_advisory(), &registry, generator()).unwrap();
    let record = document.vulnerabilities.unwrap().remove(0);
    assert_eq!(record.remediations, None);
    let top = document.product_tree.unwrap().branches.unwrap().0;
    assert!(top[0].branches.as_ref().unwrap().0.is_empty());
}

#[test]
fn no_patched_version_means_no_remediation() {
    let registry = RegistryLookup::Versions(texts(&["0.1.0", "0.9.0"]));
    let document = Csaf::convert(&demo_advisory(), &registry, generator()).unwrap();
    let record = document.vulnerabilities.unwrap().remove(0);
    assert_eq!(record.remediations, None);
    assert_eq!(record.product_status.unwrap().known_affected, Some(ids(&["DEMO-2"])));
}

#[test]
fn a_remediation_without_vulnerable_products_names_none() {
    let registry = RegistryLookup::Versions(texts(&["1.0.0"]));
    let document = Csaf::convert(&demo_advisory(), &registry, generator()).unwrap();
    let record = document.vulnerabilities.unwrap().remove(0);
    let remediations = record.remediations.unwrap();
    assert_eq!(remediations.len(), 1);
    assert_eq!(remediations[0].product_ids, None);
}

#[test]
fn the_document_describes_itself() {
    let mut advisory = demo_advisory();
    advisory.aliases = texts(&["CVE-2024-1234", "GHSA-aaaa-bbbb-cccc"]);
    advisory.references = texts(&["https://example.com/a", "https://example.com/b"]);
    let registry = RegistryLookup::Versions(Vec::new());
    let document = Csaf::convert(&advisory, &registry, generator()).unwrap().document;

    assert_eq!(document.category, Category::Vex);
    assert_eq!(document.csaf_version, CsafVersion::TwoDotZero);
    assert_eq!(document.title, "Demo is broken");
    assert_eq!(document.publisher.category, PublisherCategory::Coordinator);
    assert_eq!(document.publisher.name, "RUSTSEC");
    assert_eq!(document.publisher.namespace, "https://rustsec.org/");
    assert_eq!(document.publisher.contact_details, None);
    assert_eq!(document.publisher.issuing_authority, None);
    assert_eq!(document.acknowledgments, None);
    assert_eq!(document.aggregate_severity, None);
    assert_eq!(document.distribution, None);
    assert_eq!(document.lang, None);
    assert_eq!(document.notes, None);
    assert_eq!(document.source_lang, None);
    assert_eq!(
        document.references,
        Some(vec![
            Reference {
                url: "https://example.com/a".to_string(),
                summary: "https://example.com/a".to_string(),
                category: None,
            },
            Reference {
                url: "https://example.com/b".to_string(),
                summary: "https://example.com/b".to_string(),
                category: None,
            },
        ])
    );

    let midnight = DateTime {
        year: 2024,
        month: 2,
        day: 29,
        hour: 0,
        minute: 0,
        second: 0,
        nanosecond: 0,
    };
    let tracking = document.tracking;
    assert_eq!(tracking.id, "RUSTSEC-2024-0001");
    assert_eq!(tracking.current_release_date, midnight);
    assert_eq!(tracking.initial_release_date, midnight);
    assert_eq!(tracking.status, Status::Final);
    assert_eq!(tracking.version, "1");
    assert_eq!(tracking.aliases, Some(texts(&["CVE-2024-1234", "GHSA-aaaa-bbbb-cccc"])));
    assert_eq!(tracking.generator, Some(generator()));
    assert_eq!(tracking.revision_history.len(), 1);
    assert_eq!(tracking.revision_history[0].date, midnight);
    assert_eq!(tracking.revision_history[0].number, "1");
    assert_eq!(tracking.revision_history[0].summary, "RUSTSEC Advisory");
    assert_eq!(tracking.revision_history[0].legacy_version, None);
}

#[test]
fn no_aliases_and_no_references_are_left_out() {
    let registry = RegistryLookup::Versions(Vec::new());
    let document = Csaf::convert(&demo_advisory(), &registry, generator()).unwrap().document;
    assert_eq!(document.tracking.aliases, None);
    assert_eq!(document.references, None);
}

#[test]
fn the_record_carries_the_advisory() {
    let record = assemble(&demo_advisory(), IdKind::RustSec, &Vec::new(), &Vec::new(), &Vec::new());
    assert_eq!(record.title, Some("Demo is broken".to_string()));
    assert_eq!(record.cve, None);
    assert_eq!(
        record.ids,
        Some(vec![VulnerabilityId {
            system_name: "RUSTSEC".to_string(),
            text: "RUSTSEC-2024-0001".to_string(),
        }])
    );
    let notes = record.notes.unwrap();
    assert_eq!(notes.len(), 1);
    assert_eq!(notes[0].category, NoteCategory::Description);
    assert_eq!(notes[0].text, "Demo breaks on every input.");
    assert_eq!(notes[0].audience, None);
    assert_eq!(notes[0].title, None);
    assert_eq!(record.acknowledgments, None);
    assert_eq!(record.cwe, None);
    assert_eq!(record.discovery_date, None);
    assert_eq!(record.flags, None);
    assert_eq!(record.involvements, None);
    assert_eq!(record.references, None);
    assert_eq!(record.release_date, None);
    assert_eq!(record.threats, None);
}

#[test]
fn each_naming_authority_has_its_name() {
    let advisory = demo_advisory();
    let cases = [
        (IdKind::RustSec, "RUSTSEC"),
        (IdKind::Cve, "CVE"),
        (IdKind::Ghsa, "GHSA"),
        (IdKind::Talos, "Talos"),
        (IdKind::Other, "Other"),
    ];
    for (kind, name) in cases {
        let record = assemble(&advisory, kind, &Vec::new(), &Vec::new(), &Vec::new());
        assert_eq!(record.ids.unwrap()[0].system_name, name);
        if kind == IdKind::Cve {
            assert_eq!(record.cve, Some("RUSTSEC-2024-0001".to_string()));
        } else {
            assert_eq!(record.cve, None);
        }
    }
}

#[test]
fn the_naming_authority_is_read_from_the_identifier() {
    let registry = RegistryLookup::Versions(Vec::new());
    let cases = [
        ("RUSTSEC-2018-0001", "RUSTSEC", false),
        ("CVE-2017-1000168", "CVE", true),
        ("GHSA-4mmc-49vf-jmcp", "GHSA", false),
        ("TALOS-2017-0468", "Talos", false),
        ("Anonymous-42", "Other", false),
    ];
    for (id, name, is_cve) in cases {
        let mut advisory = demo_advisory();
        advisory.id = id.to_string();
        let document = Csaf::convert(&advisory, &registry, generator()).unwrap();
        let record = document.vulnerabilities.unwrap().remove(0);
        assert_eq!(
            record.ids,
            Some(vec![VulnerabilityId { system_name: name.to_string(), text: id.to_string() }])
        );
        assert_eq!(record.cve, if is_cve { Some(id.to_string()) } else { None });
    }
}

#[test]
fn a_score_names_the_vulnerable_products() {
    let mut advisory = demo_advisory();
    advisory.cvss = Some("CVSS:3.1/AV:N/AC:L/PR:N/UI:R/S:C/C:L/I:L/A:N".to_string());
    let record = assemble(&advisory, IdKind::RustSec, &ids(&["DEMO-3"]), &Vec::new(), &ids(&["DEMO-1", "DEMO-2"]));
    let scores = record.scores.unwrap();
    assert_eq!(scores.len(), 1);
    assert_eq!(scores[0].products, ids(&["DEMO-1", "DEMO-2"]));
    assert_eq!(scores[0].cvss_v2, None);
    assert_eq!(
        scores[0].cvss_v3,
        Some("CVSS:3.1/AV:N/AC:L/PR:N/UI:R/S:C/C:L/I:L/A:N".to_string())
    );
}

#[test]
fn a_score_without_vulnerable_products_names_the_stand_in() {
    let mut advisory = demo_advisory();
    advisory.cvss = Some("CVSS:3.1/AV:N/AC:L/PR:N/UI:R/S:C/C:L/I:L/A:N".to_string());
    let record = assemble(&advisory, IdKind::RustSec, &ids(&["DEMO-1"]), &Vec::new(), &Vec::new());
    let scores = record.scores.unwrap();
    assert_eq!(scores.len(), 1);
    assert_eq!(scores[0].products, ids(&["INVALID"]));
}

#[test]
fn an_identifier_that_cannot_be_read_fails() {
    let mut advisory = demo_advisory();
    advisory.id = "RUSTSEC-20xx-0001".to_string();
    let registry = RegistryLookup::Versions(Vec::new());
    assert_eq!(
        Csaf::convert(&advisory, &registry, generator()),
        Err(ConversionError::UnparseableIdentifier)
    );
    assert_eq!(Csaf::from(&advisory, &registry), Err(ConversionError::UnparseableIdentifier));
}

#[test]
fn a_day_that_the_calendar_lacks_fails() {
    let mut advisory = demo_advisory();
    advisory.date = Date { year: 2023, month: 2, day: 29 };
    let registry = RegistryLookup::Versions(Vec::new());
    assert_eq!(
        Csaf::convert(&advisory, &registry, generator()),
        Err(ConversionError::InvalidDate)
    );
    advisory.date = Date { year: 4_000_000_000, month: 1, day: 1 };
    assert_eq!(
        Csaf::convert(&advisory, &registry, generator()),
        Err(ConversionError::InvalidDate)
    );
}

#[test]
fn a_registry_without_a_list_fails() {
    let advisory = demo_advisory();
    assert_eq!(
        Csaf::convert(&advisory, &RegistryLookup::Unavailable, generator()),
        Err(ConversionError::RegistryUnavailable)
    );
    assert_eq!(
        Csaf::convert(&advisory, &RegistryLookup::PackageNotFound, generator()),
        Err(ConversionError::PackageNotFound)
    );
}

#[test]
fn a_published_version_that_is_none_fails() {
    let advisory = demo_advisory();
    let registry = RegistryLookup::Versions(texts(&["0.1.0", "1.0", "not a version"]));
    assert_eq!(
        Csaf::convert(&advisory, &registry, generator()),
        Err(ConversionError::UnparseableVersion(1))
    );
    assert_eq!(
        BranchTracking::extract_branches("demo", &advisory.versions, &texts(&["one"])),
        Err(ConversionError::UnparseableVersion(0))
    );
}

#[test]
fn the_first_failure_is_reported() {
    let mut advisory = demo_advisory();
    advisory.date = Date { year: 2024, month: 13, day: 1 };
    let broken = RegistryLookup::Versions(texts(&["x"]));
    assert_eq!(
        Csaf::convert(&advisory, &RegistryLookup::Unavailable, generator()),
        Err(ConversionError::InvalidDate)
    );
    advisory.id = "CVE-1-1".to_string();
    assert_eq!(
        Csaf::convert(&advisory, &broken, generator()),
        Err(ConversionError::UnparseableIdentifier)
    );
}

#[test]
fn compose_checks_the_day() {
    let mut advisory = demo_advisory();
    let tracking = BranchTracking::from_classified("demo", &Vec::new());
    let record = assemble(&advisory, IdKind::RustSec, &Vec::new(), &Vec::new(), &Vec::new());
    let composed = compose(&advisory, generator(), product_tree("demo", &tracking), record.clone());
    let document = composed.unwrap();
    assert_eq!(document.vulnerabilities, Some(vec![record.clone()]));
    assert_eq!(document.product_tree, Some(product_tree("demo", &tracking)));

    advisory.date = Date { year: 2024, month: 4, day: 31 };
    assert_eq!(
        compose(&advisory, generator(), product_tree("demo", &tracking), record),
        Err(ConversionError::InvalidDate)
    );
}

#[test]
fn the_package_name_is_upper_cased_in_identifiers() {
    let list = vec![ClassifiedVersion {
        version: "1.0.0".to_string(),
        label: Classification::Patched,
    }];
    let tracking = BranchTracking::from_classified("Stra\u{df}e-rs", &list);
    assert_eq!(tracking.patched.product_ids(), Some(ids(&["STRASSE-RS-1"])));
    assert_eq!(tracking.patched.0[0].product.as_ref().unwrap().name, "Stra\u{df}e-rs 1.0.0");
}

#[test]
fn from_signs_with_this_library_and_the_present_moment() {
    let registry = RegistryLookup::Versions(texts(&["0.9.0"]));
    let document = Csaf::from(&demo_advisory(), &registry).unwrap();
    let generator = document.document.tracking.generator.unwrap();
    assert_eq!(generator.engine.name, "csaf-rs");
    assert_eq!(generator.engine.version, Some("0.4.0".to_string()));
    let date = generator.date.unwrap();
    assert!(date.year >= 2024);
    assert!(1 <= date.month && date.month <= 12);
    assert!(1 <= date.day && date.day <= 31);
    assert!(date.hour < 24 && date.minute < 60 && date.second < 60);
}
