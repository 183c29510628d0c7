use std::collections::HashMap;

use eveicongenerator::cache::{IndexEntry, ResourceIndex};
use eveicongenerator::icons::data::{IconBuildData, TypeInfo};
use eveicongenerator::icons::export::build_icon_export;
use eveicongenerator::icons::kind::IconKind;
use eveicongenerator::icons::recipe::IconError;

fn store(resources: &[(&str, &str)]) -> ResourceIndex {
    let mut index = ResourceIndex::new();
    for (key, md5) in resources {
        index.insert(
            key,
            IndexEntry { path: format!("aa/{}", md5), md5: md5.to_string(), size: 1, compressed: 1 },
        );
    }
    index
}

fn blueprint_data(type_ids: &[u32]) -> IconBuildData {
    let info = TypeInfo { group_id: 7, icon_id: None, graphic_id: Some(55), meta_group_id: None };
    IconBuildData::new(
        type_ids.iter().map(|t| (*t, info)).collect(),
        HashMap::from([(7, 9)]),
        HashMap::new(),
        HashMap::from([(55, "bp/".to_string())]),
        HashMap::new(),
    )
}

fn blueprint_store() -> ResourceIndex {
    store(&[("bp/55_64_bp.png", "h1"), ("bp/55_64_bpc.png", "h2")])
}

#[test]
fn blueprint_example_metadata_and_files() {
    let b = build_icon_export(&blueprint_data(&[100]), &blueprint_store(), b"", false).unwrap();
    assert_eq!(b.metadata.type_count(), 1);
    assert_eq!(b.metadata.type_at(0), 100);
    assert_eq!(b.metadata.get(100, IconKind::Icon).unwrap(), "bp;h1.png");
    assert_eq!(b.metadata.get(100, IconKind::Blueprint).unwrap(), "bp;h1.png");
    assert_eq!(b.metadata.get(100, IconKind::BlueprintCopy).unwrap(), "bpc;h2.png");
    assert!(b.metadata.get(100, IconKind::Render).is_none());
    assert!(b.metadata.get(100, IconKind::Relic).is_none());
    assert!(b.metadata.get(101, IconKind::Icon).is_none());
    assert_eq!(b.cache.sorted_names(), vec!["bp;h1.png".to_string(), "bpc;h2.png".to_string()]);
    assert_eq!(b.stale.len(), 2);
    assert_eq!(b.stale[0].filename, "bp;h1.png");
    assert_eq!(b.stale[1].filename, "bpc;h2.png");
    assert!(b.missing.is_empty());
    assert_eq!(b.cache.added().len(), 2);
    assert_eq!(b.cache.removed().len(), 0);
}

#[test]
fn second_build_changes_nothing() {
    let data = blueprint_data(&[100, 200]);
    let first = build_icon_export(&data, &blueprint_store(), b"old.png", false).unwrap();
    assert_eq!(first.cache.added().len(), 2);
    assert_eq!(first.cache.removed(), vec!["old.png".to_string()]);
    let record = first.cache.record_bytes();
    let second = build_icon_export(&data, &blueprint_store(), &record, false).unwrap();
    assert!(second.stale.is_empty());
    assert!(second.cache.added().is_empty());
    assert!(second.cache.removed().is_empty());
    assert_eq!(second.cache.record_bytes(), record);
}

#[test]
fn types_with_the_same_resources_share_files() {
    let b = build_icon_export(&blueprint_data(&[100, 200]), &blueprint_store(), b"", false).unwrap();
    assert_eq!(b.cache.sorted_names().len(), 2);
    assert_eq!(b.metadata.type_count(), 2);
    assert_eq!(
        b.metadata.get(100, IconKind::Icon).unwrap(),
        b.metadata.get(200, IconKind::Icon).unwrap()
    );
    assert_eq!(b.stale.len(), 4);
}

#[test]
fn forced_build_makes_every_file() {
    let data = blueprint_data(&[100]);
    let first = build_icon_export(&data, &blueprint_store(), b"", false).unwrap();
    let record = first.cache.record_bytes();
    let forced = build_icon_export(&data, &blueprint_store(), &record, true).unwrap();
    assert_eq!(forced.stale.len(), 2);
    assert!(forced.cache.added().is_empty());
    assert!(forced.cache.removed().is_empty());
}

#[test]
fn build_fails_with_the_first_failure() {
    let info = TypeInfo { group_id: 8, icon_id: Some(1), graphic_id: None, meta_group_id: None };
    let data = IconBuildData::new(
        vec![(1, info), (2, TypeInfo { group_id: 9, ..info })],
        HashMap::new(),
        HashMap::new(),
        HashMap::new(),
        HashMap::new(),
    );
    match build_icon_export(&data, &store(&[]), b"", false) {
        Err(IconError::String(m)) => assert_eq!(m, "group without category: 8"),
        Err(other) => panic!("unexpected: {:?}", other),
        Ok(_) => panic!("build went through"),
    }
}

#[test]
fn build_refuses_a_corrupt_record() {
    match build_icon_export(&blueprint_data(&[100]), &blueprint_store(), &[0xc0], false) {
        Err(IconError::CorruptIndex) => {}
        Err(other) => panic!("unexpected: {:?}", other),
        Ok(_) => panic!("build went through"),
    }
}

#[test]
fn missing_icons_are_collected() {
    let info = TypeInfo { group_id: 7, icon_id: Some(3), graphic_id: None, meta_group_id: None };
    let data = IconBuildData::new(
        vec![(1, info), (2, info)],
        HashMap::from([(7, 6)]),
        HashMap::from([(3, "res:/icons/3.png".to_string())]),
        HashMap::new(),
        HashMap::new(),
    );
    let b = build_icon_export(&data, &store(&[]), b"", false).unwrap();
    assert_eq!(b.missing, vec![1, 2]);
    assert_eq!(b.metadata.type_count(), 0);
    assert!(b.stale.is_empty());
}
