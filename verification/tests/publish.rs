use eveicongenerator::icons::checksum::{checksum, record_checksum, to_hex};
use eveicongenerator::icons::index::ContentCache;
use eveicongenerator::icons::kind::IconKind;
use eveicongenerator::icons::metadata::ServiceMetadata;
use eveicongenerator::icons::publish::{
    iec_entry_name, output_due, plan_iec, plan_service_bundle, service_metadata_name, LinkStrategy,
    OutputMode,
};

fn metadata() -> ServiceMetadata {
    let mut m = ServiceMetadata::new();
    m.put(100, IconKind::Icon, "bp;h1.png".to_string());
    m.put(100, IconKind::Blueprint, "bp;h1.png".to_string());
    m.put(100, IconKind::BlueprintCopy, "bpc;h2.png".to_string());
    m.put(7, IconKind::Render, "r.jpg".to_string());
    m.put(7, IconKind::Icon, "i.png".to_string());
    m.put(100, IconKind::Icon, "bp;h9.png".to_string());
    m
}

#[test]
fn metadata_keeps_first_order_and_last_file() {
    let m = metadata();
    assert_eq!(m.type_count(), 2);
    assert_eq!(m.type_at(0), 100);
    assert_eq!(m.type_at(1), 7);
    assert_eq!(m.get(100, IconKind::Icon).unwrap(), "bp;h9.png");
    assert_eq!(m.get(100, IconKind::Blueprint).unwrap(), "bp;h1.png");
    assert!(m.get(7, IconKind::Blueprint).is_none());
}

#[test]
fn legacy_archive_names() {
    let entries = plan_iec(&metadata());
    let pairs: Vec<(&str, &str)> =
        entries.iter().map(|e| (e.name.as_str(), e.source.as_str())).collect();
    assert_eq!(
        pairs,
        vec![
            ("100_64.png", "bp;h9.png"),
            ("100_bpc_64.png", "bpc;h2.png"),
            ("7_64.png", "i.png"),
            ("7_512.jpg", "r.jpg"),
        ]
    );
    assert_eq!(iec_entry_name(5, IconKind::Icon).unwrap(), "5_64.png");
    assert_eq!(iec_entry_name(5, IconKind::BlueprintCopy).unwrap(), "5_bpc_64.png");
    assert_eq!(iec_entry_name(5, IconKind::Render).unwrap(), "5_512.jpg");
    assert!(iec_entry_name(5, IconKind::Blueprint).is_none());
    assert!(iec_entry_name(5, IconKind::Reaction).is_none());
    assert!(iec_entry_name(5, IconKind::Relic).is_none());
}

#[test]
fn service_bundle_holds_every_cache_file() {
    let mut cache = ContentCache::new(false);
    cache.is_up_to_date("b.png");
    cache.is_up_to_date("a.png");
    assert_eq!(plan_service_bundle(&cache), vec!["a.png".to_string(), "b.png".to_string()]);
    assert_eq!(service_metadata_name(), "service_metadata.json");
}

#[test]
fn checksum_is_md5_of_record() {
    let mut cache = ContentCache::new(false);
    assert_eq!(checksum(&cache), "d41d8cd98f00b204e9800998ecf8427e");
    cache.is_up_to_date("abc");
    assert_eq!(checksum(&cache), "900150983cd24fb0d6963f7d28e17f72");
    assert_eq!(record_checksum(b"abc"), "900150983cd24fb0d6963f7d28e17f72");
    assert_eq!(
        record_checksum(b"The quick brown fox jumps over the lazy dog"),
        "9e107d9d372bb6826bd81d3542a419d6"
    );
}

#[test]
fn checksum_is_the_same_for_the_same_names() {
    let mut first = ContentCache::new(false);
    let mut second = ContentCache::load("x.png", true);
    for name in ["b.png", "a.png"] {
        first.is_up_to_date(name);
    }
    for name in ["a.png", "b.png", "a.png"] {
        second.is_up_to_date(name);
    }
    assert_eq!(checksum(&first), checksum(&second));
    assert_eq!(checksum(&first), checksum(&first));
}

#[test]
fn hex_is_lower_case_with_two_digits_a_byte() {
    assert_eq!(to_hex(&[0x00, 0x0f, 0xa0, 0xff, 0x9c]), "000fa0ff9c");
    assert_eq!(to_hex(&[]), "");
}

#[test]
fn output_is_skipped_only_when_fresh_and_asked() {
    assert!(!output_due(0, 0, true));
    assert!(output_due(0, 0, false));
    assert!(output_due(1, 0, true));
    assert!(output_due(0, 1, true));
}

#[test]
fn printed_checksum_is_silent_and_never_skipped() {
    let printed = OutputMode::Checksum { out: None };
    let written = OutputMode::Checksum { out: Some("sum.txt".to_string()) };
    let web = OutputMode::Web { out: "www".to_string(), copy_files: false, hard_link: true };
    assert!(printed.silent(false));
    assert!(!printed.skips_if_fresh(true));
    assert!(!written.silent(false));
    assert!(written.skips_if_fresh(true));
    assert!(!written.skips_if_fresh(false));
    assert!(web.silent(true));
    assert!(web.skips_if_fresh(true));
    assert!(!OutputMode::IEC { out: "x".to_string() }.is_printed_checksum());
    assert!(!OutputMode::ServiceBundle { out: "x".to_string() }.silent(false));
}

#[test]
fn link_strategy_from_flags() {
    assert_eq!(LinkStrategy::from_flags(true, false), LinkStrategy::Copy);
    assert_eq!(LinkStrategy::from_flags(true, true), LinkStrategy::Copy);
    assert_eq!(LinkStrategy::from_flags(false, true), LinkStrategy::HardLink);
    assert_eq!(LinkStrategy::from_flags(false, false), LinkStrategy::SymLink);
    assert_eq!(LinkStrategy::Copy.name(), "COPYING");
    assert_eq!(LinkStrategy::HardLink.name(), "HARD LINK");
    assert_eq!(LinkStrategy::SymLink.name(), "SOFT LINK");
    assert!(!LinkStrategy::Copy.removes_first());
    assert!(LinkStrategy::HardLink.removes_first());
    assert!(LinkStrategy::SymLink.removes_first());
}
