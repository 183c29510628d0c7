use std::collections::HashMap;

use eveicongenerator::cache::{CacheError, IndexEntry, ResourceIndex};
use eveicongenerator::icons::classify::{classify_type, graphic_resource_key, skin_resource_key};
use eveicongenerator::icons::data::{techicon_resource_for_metagroup, IconBuildData, TypeInfo};
use eveicongenerator::icons::kind::IconKind;
use eveicongenerator::icons::recipe::{make_cache_filename, IconError, Recipe};

const T2: &str = "res:/ui/texture/icons/73_16_242.png";

fn entry(md5: &str) -> IndexEntry {
    IndexEntry { path: format!("aa/{}", md5), md5: md5.to_string(), size: 1, compressed: 1 }
}

fn store(resources: &[(&str, &str)]) -> ResourceIndex {
    let mut index = ResourceIndex::new();
    for (key, md5) in resources {
        index.insert(key, entry(md5));
    }
    index
}

fn data(
    categories: &[(u32, u32)],
    icons: &[(u32, &str)],
    folders: &[(u32, &str)],
    skins: &[(u32, u32)],
) -> IconBuildData {
    IconBuildData::new(
        Vec::new(),
        categories.iter().copied().collect::<HashMap<u32, u32>>(),
        icons.iter().map(|(k, v)| (*k, v.to_string())).collect(),
        folders.iter().map(|(k, v)| (*k, v.to_string())).collect(),
        skins.iter().copied().collect(),
    )
}

fn info(group: u32, icon: Option<u32>, graphic: Option<u32>, meta: Option<u32>) -> TypeInfo {
    TypeInfo { group_id: group, icon_id: icon, graphic_id: graphic, meta_group_id: meta }
}

#[test]
fn blueprint_with_both_graphic_resources() {
    let d = data(&[(7, 9)], &[], &[(55, "bp/")], &[]);
    let s = store(&[("bp/55_64_bp.png", "h1"), ("bp/55_64_bpc.png", "h2")]);
    let found = classify_type(100, &info(7, None, Some(55), None), &d, &s).unwrap();
    assert!(!found.missing);
    assert_eq!(found.jobs.len(), 2);
    assert_eq!(found.jobs[0].filename, "bp;h1.png");
    assert_eq!(found.jobs[0].kinds, vec![IconKind::Icon, IconKind::Blueprint]);
    assert_eq!(found.jobs[1].filename, "bpc;h2.png");
    assert_eq!(found.jobs[1].kinds, vec![IconKind::BlueprintCopy]);
    assert!(matches!(&found.jobs[0].recipe, Recipe::Copy { resource, jpeg: false } if resource == "bp/55_64_bp.png"));
    assert!(matches!(&found.jobs[1].recipe, Recipe::Copy { resource, jpeg: false } if resource == "bp/55_64_bpc.png"));
}

#[test]
fn blueprint_with_bp_resource_only() {
    let d = data(&[(7, 9)], &[], &[(55, "bp/")], &[]);
    let s = store(&[("bp/55_64_bp.png", "h1")]);
    let found = classify_type(100, &info(7, None, Some(55), None), &d, &s).unwrap();
    assert_eq!(found.jobs.len(), 1);
    assert_eq!(found.jobs[0].kinds, vec![IconKind::Icon, IconKind::Blueprint]);
}

#[test]
fn graphic_blueprint_with_tech_overlay() {
    let d = data(&[(7, 9)], &[], &[(55, "bp")], &[]);
    let s = store(&[("bp/55_64_bp.png", "h1"), ("bp/55_64_bpc.png", "h2"), (T2, "t2")]);
    let found = classify_type(100, &info(7, None, Some(55), Some(2)), &d, &s).unwrap();
    assert_eq!(found.jobs[0].filename, "bp;h1;t2.png");
    assert_eq!(found.jobs[1].filename, "bpc;h2;t2.png");
    assert!(matches!(&found.jobs[0].recipe, Recipe::Tech { icon, tech } if icon == "bp/55_64_bp.png" && tech == T2));
}

#[test]
fn missing_tech_overlay_is_fatal() {
    let d = data(&[(7, 9)], &[], &[(55, "bp")], &[]);
    let s = store(&[("bp/55_64_bp.png", "h1")]);
    match classify_type(100, &info(7, None, Some(55), Some(2)), &d, &s) {
        Err(IconError::Cache(CacheError::ResourceNotFound(key))) => assert_eq!(key, T2),
        other => panic!("unexpected: {:?}", other),
    }
}

#[test]
fn flat_icon_group_blueprint_falls_back_on_icon() {
    let d = data(&[(12, 9)], &[(3, "res:/icons/3.png")], &[(55, "bp")], &[]);
    let s = store(&[("bp/55_64_bp.png", "h1"), ("res:/icons/3.png", "i3")]);
    let found = classify_type(100, &info(12, Some(3), Some(55), None), &d, &s).unwrap();
    assert_eq!(found.jobs.len(), 2);
    assert_eq!(found.jobs[0].filename, "bp;i3;.png");
    assert_eq!(found.jobs[0].kinds, vec![IconKind::Icon, IconKind::Blueprint]);
    assert_eq!(found.jobs[1].filename, "bpc;i3;.png");
    assert_eq!(found.jobs[1].kinds, vec![IconKind::BlueprintCopy]);
    match &found.jobs[0].recipe {
        Recipe::Blueprint { background, overlay, icon, tier } => {
            assert_eq!(background, "res:/ui/texture/icons/bpo.png");
            assert_eq!(overlay, "res:/ui/texture/icons/bpo_overlay.png");
            assert_eq!(icon, "res:/icons/3.png");
            assert!(tier.is_none());
        }
        other => panic!("unexpected: {:?}", other),
    }
    match &found.jobs[1].recipe {
        Recipe::Blueprint { background, overlay, .. } => {
            assert_eq!(background, "res:/ui/texture/icons/bpc.png");
            assert_eq!(overlay, "res:/ui/texture/icons/bpc_overlay.png");
        }
        other => panic!("unexpected: {:?}", other),
    }
}

#[test]
fn relic_has_its_own_background() {
    let d = data(&[(7, 34)], &[(3, "res:/icons/3.png")], &[], &[]);
    let s = store(&[("res:/icons/3.png", "i3"), (T2, "t2")]);
    let found = classify_type(100, &info(7, Some(3), None, Some(2)), &d, &s).unwrap();
    assert_eq!(found.jobs.len(), 1);
    assert_eq!(found.jobs[0].filename, "relic;i3;t2.png");
    assert_eq!(found.jobs[0].kinds, vec![IconKind::Icon, IconKind::Relic]);
    match &found.jobs[0].recipe {
        Recipe::Blueprint { background, overlay, tier, .. } => {
            assert_eq!(background, "res:/ui/texture/icons/relic.png");
            assert_eq!(overlay, "res:/ui/texture/icons/relic_overlay.png");
            assert_eq!(tier.as_deref(), Some(T2));
        }
        other => panic!("unexpected: {:?}", other),
    }
}

#[test]
fn reaction_is_tagged_as_blueprint_too() {
    let d = data(&[(1888, 9)], &[(3, "res:/icons/3.png")], &[], &[]);
    let s = store(&[("res:/icons/3.png", "i3")]);
    let found = classify_type(100, &info(1888, Some(3), None, None), &d, &s).unwrap();
    assert_eq!(found.jobs.len(), 1);
    assert_eq!(found.jobs[0].filename, "reaction;i3;.png");
    assert_eq!(
        found.jobs[0].kinds,
        vec![IconKind::Icon, IconKind::Reaction, IconKind::Blueprint]
    );
    assert!(matches!(&found.jobs[0].recipe, Recipe::Blueprint { background, .. } if background == "res:/ui/texture/icons/reaction.png"));
}

#[test]
fn blueprint_icon_missing_from_store_is_reported() {
    let d = data(&[(7, 9)], &[(3, "res:/icons/3.png")], &[], &[]);
    let s = store(&[]);
    let found = classify_type(100, &info(7, Some(3), None, None), &d, &s).unwrap();
    assert!(found.jobs.is_empty());
    assert!(found.missing);
}

#[test]
fn unknown_icon_is_fatal() {
    let d = data(&[(7, 6)], &[], &[], &[]);
    let s = store(&[]);
    match classify_type(100, &info(7, Some(33), None, None), &d, &s) {
        Err(IconError::String(m)) => assert_eq!(m, "unknown icon id: 33"),
        other => panic!("unexpected: {:?}", other),
    }
}

#[test]
fn skin_without_material_has_no_icon() {
    let d = data(&[(1950, 91)], &[], &[], &[]);
    let s = store(&[]);
    let found = classify_type(5, &info(1950, None, None, None), &d, &s).unwrap();
    assert!(found.jobs.is_empty());
    assert!(!found.missing);
}

#[test]
fn skin_with_material_has_an_icon() {
    let d = data(&[(1950, 91)], &[], &[], &[(5, 77)]);
    let s = store(&[("res:/ui/texture/classes/skins/icons/77.png", "s77")]);
    let found = classify_type(5, &info(1950, None, None, None), &d, &s).unwrap();
    assert_eq!(found.jobs.len(), 1);
    assert_eq!(found.jobs[0].filename, "s77.png");
    assert_eq!(found.jobs[0].kinds, vec![IconKind::Icon]);
    assert!(matches!(&found.jobs[0].recipe, Recipe::Copy { resource, jpeg: false } if resource == "res:/ui/texture/classes/skins/icons/77.png"));
}

#[test]
fn group_without_category_is_fatal() {
    let d = data(&[], &[], &[], &[]);
    let s = store(&[]);
    match classify_type(5, &info(77, Some(1), None, None), &d, &s) {
        Err(IconError::String(m)) => assert_eq!(m, "group without category: 77"),
        other => panic!("unexpected: {:?}", other),
    }
}

#[test]
fn type_without_ids_has_no_icon() {
    let d = data(&[(7, 6)], &[], &[], &[]);
    let s = store(&[]);
    let found = classify_type(5, &info(7, None, None, None), &d, &s).unwrap();
    assert!(found.jobs.is_empty());
    assert!(!found.missing);
}

#[test]
fn regular_item_prefers_graphic_and_has_render() {
    let d = data(&[(25, 6)], &[(3, "res:/icons/3.png")], &[(55, "ship//")], &[]);
    let s = store(&[("ship/55_64.png", "g64"), ("ship/55_512.jpg", "g512"), ("res:/icons/3.png", "i3")]);
    let found = classify_type(9, &info(25, Some(3), Some(55), None), &d, &s).unwrap();
    assert_eq!(found.jobs.len(), 2);
    assert_eq!(found.jobs[0].filename, "g512.jpg");
    assert_eq!(found.jobs[0].kinds, vec![IconKind::Render]);
    assert!(matches!(&found.jobs[0].recipe, Recipe::Copy { resource, jpeg: true } if resource == "ship/55_512.jpg"));
    assert_eq!(found.jobs[1].filename, "g64.png");
    assert_eq!(found.jobs[1].kinds, vec![IconKind::Icon]);
}

#[test]
fn regular_item_of_flat_icon_group_uses_icon() {
    let d = data(&[(340, 6)], &[(3, "res:/icons/3.png")], &[(55, "ship")], &[]);
    let s = store(&[("ship/55_64.png", "g64"), ("res:/icons/3.png", "i3"), (T2, "t2")]);
    let found = classify_type(9, &info(340, Some(3), Some(55), Some(2)), &d, &s).unwrap();
    assert_eq!(found.jobs.len(), 1);
    assert_eq!(found.jobs[0].filename, "i3;t2.png");
    assert!(matches!(&found.jobs[0].recipe, Recipe::Tech { icon, tech } if icon == "res:/icons/3.png" && tech == T2));
}

#[test]
fn regular_item_without_usable_graphic_or_icon_has_nothing() {
    let d = data(&[(25, 6)], &[], &[(55, "ship")], &[]);
    let s = store(&[("ship/55_512.jpg", "g512")]);
    let found = classify_type(9, &info(25, None, Some(55), None), &d, &s).unwrap();
    assert!(found.jobs.is_empty());
    assert!(!found.missing);
}

#[test]
fn regular_item_with_missing_icon_keeps_render() {
    let d = data(&[(25, 6)], &[(3, "res:/icons/3.png")], &[(55, "ship")], &[]);
    let s = store(&[("ship/55_512.jpg", "g512")]);
    let found = classify_type(9, &info(25, Some(3), Some(55), None), &d, &s).unwrap();
    assert_eq!(found.jobs.len(), 1);
    assert_eq!(found.jobs[0].kinds, vec![IconKind::Render]);
    assert!(found.missing);
}

#[test]
fn resource_keys_are_composed_from_folder_and_number() {
    assert_eq!(graphic_resource_key("a/b///", 12, "_64.png"), "a/b/12_64.png");
    assert_eq!(graphic_resource_key("", 0, "_512.jpg"), "/0_512.jpg");
    assert_eq!(skin_resource_key(4294967295), "res:/ui/texture/classes/skins/icons/4294967295.png");
}

#[test]
fn file_names_join_parts_with_semicolons() {
    let parts = vec!["bp".to_string(), "abc".to_string(), String::new()];
    assert_eq!(make_cache_filename(&parts, ".png"), "bp;abc;.png");
    assert_eq!(make_cache_filename(&vec!["x".to_string()], ".jpg"), "x.jpg");
    assert_eq!(make_cache_filename(&Vec::new(), ".png"), ".png");
}

#[test]
fn tech_overlays_by_meta_group() {
    assert_eq!(techicon_resource_for_metagroup(1), None);
    assert_eq!(techicon_resource_for_metagroup(2), Some("res:/ui/texture/icons/73_16_242.png"));
    assert_eq!(techicon_resource_for_metagroup(14), Some("res:/ui/texture/icons/73_16_243.png"));
    assert_eq!(techicon_resource_for_metagroup(54), Some("res:/ui/texture/shared/structureoverlay.png"));
    assert_eq!(techicon_resource_for_metagroup(7), None);
    assert_eq!(techicon_resource_for_metagroup(0), None);
}

#[test]
fn kinds_have_names_and_extensions() {
    assert_eq!(IconKind::Icon.name(), "icon");
    assert_eq!(IconKind::Blueprint.name(), "bp");
    assert_eq!(IconKind::BlueprintCopy.name(), "bpc");
    assert_eq!(IconKind::Reaction.name(), "reaction");
    assert_eq!(IconKind::Relic.name(), "relic");
    assert_eq!(IconKind::Render.name(), "render");
    assert_eq!(IconKind::Render.extension(), "jpg");
    assert_eq!(IconKind::Icon.extension(), "png");
    for n in 0..6 {
        assert_eq!(IconKind::from_ordinal(n).unwrap().ordinal(), n);
    }
    assert_eq!(IconKind::from_ordinal(6), None);
}

#[test]
fn default_type_info_is_empty() {
    let d = TypeInfo::default();
    assert_eq!(d, TypeInfo { group_id: 0, icon_id: None, graphic_id: None, meta_group_id: None });
}

#[test]
fn errors_have_messages() {
    assert_eq!(IconError::String("x".to_string()).message(), "x");
    assert_eq!(IconError::CorruptIndex.message(), "corrupt cache index");
    assert_eq!(IconError::Dimensions.message(), "Image dimensions do not match");
    assert_eq!(
        IconError::Cache(CacheError::ResourceNotFound("k".to_string())).message(),
        "resource not found: `k`"
    );
    assert_eq!(IconError::Cache(CacheError::NotGameInstall).message(), CacheError::NotGameInstall.message());
}
