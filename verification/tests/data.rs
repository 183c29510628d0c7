use std::collections::HashMap;

use eveicongenerator::fsd::{loader_file_name, loader_module_name, FsdTable};
use eveicongenerator::hardcoded::{export, infrastructure_hold, ship_maintenance_bay, CargoHoldType};
use eveicongenerator::icons::data::TypeInfo;
use eveicongenerator::icons::sde::{is_kept, license_materials, needs_download, Keyed};
use eveicongenerator::sde::ccp_sde::update::{is_fresh, SDEChecksums, SDEKind};
use eveicongenerator::sde::load::{LocalizedString, MasteryLevels};
use eveicongenerator::sde::update::{update_sde, SdeVersion};
use eveicongenerator::util::item_list::{holds, TypeList};
use eveicongenerator::util::units::EVEUnit;
use eveicongenerator::util::user_agent::UserAgent;

fn localized(de: Option<&str>) -> LocalizedString {
    LocalizedString {
        en: "ship".to_string(),
        de: de.map(|s| s.to_string()),
        es: None,
        fr: Some("vaisseau".to_string()),
        ja: None,
        ko: None,
        ru: None,
        zh: None,
    }
}

#[test]
fn localized_strings_fall_back_on_english() {
    let s = localized(Some("Schiff"));
    assert_eq!(s.try_de(), "Schiff");
    assert_eq!(s.try_fr(), "vaisseau");
    assert_eq!(s.try_es(), "ship");
    assert_eq!(s.try_ja(), "ship");
    assert_eq!(s.try_ko(), "ship");
    assert_eq!(s.try_ru(), "ship");
    assert_eq!(s.try_zh(), "ship");
    assert_eq!(localized(None).try_de(), "ship");
}

#[test]
fn archive_kinds_have_urls_and_file_names() {
    assert_eq!(SDEKind::FULL.filename(), "sde.zip");
    assert_eq!(SDEKind::FSD.filename(), "fsd.zip");
    assert_eq!(SDEKind::BSD.filename(), "bsd.zip");
    assert_eq!(SDEKind::UNIVERSE.filename(), "universe.zip");
    assert_eq!(
        SDEKind::FULL.url(),
        "https://eve-static-data-export.s3-eu-west-1.amazonaws.com/tranquility/sde.zip"
    );
    assert_eq!(
        SDEKind::UNIVERSE.url(),
        "https://eve-static-data-export.s3-eu-west-1.amazonaws.com/tranquility/universe.zip"
    );
}

#[test]
fn checksums_are_kept_by_archive() {
    let a = "0123456789abcdef0123456789abcdef";
    let b = "ffffffffffffffffffffffffffffffff";
    let sums = SDEChecksums::default().with(SDEKind::FULL, a).unwrap().with(SDEKind::BSD, b).unwrap();
    assert_eq!(sums.sde(), a);
    assert_eq!(sums.bsd(), b);
    assert_eq!(sums.get(SDEKind::FULL), a);
    assert_eq!(sums.get(SDEKind::BSD), b);
    assert_eq!(sums.fsd(), "\0".repeat(32));
    assert_eq!(sums.get(SDEKind::UNIVERSE), sums.universe());
    assert!(SDEChecksums::default().with(SDEKind::FSD, "short").is_none());
    assert!(SDEChecksums::default().with(SDEKind::FSD, &"é".repeat(16)).is_some());
}

#[test]
fn copy_is_fresh_only_with_the_published_checksum() {
    assert!(is_fresh(Some("abc"), "abc", true));
    assert!(!is_fresh(Some("abc"), "abc", false));
    assert!(!is_fresh(Some("abd"), "abc", true));
    assert!(!is_fresh(None, "abc", true));
}

#[test]
fn export_is_fetched_when_a_later_build_is_published() {
    let v = |n: u32| SdeVersion::sde { buildNumber: n, releaseDate: String::new() };
    assert!(update_sde(&v(1), &v(2)));
    assert!(!update_sde(&v(2), &v(2)));
    assert!(!update_sde(&v(3), &v(2)));
    assert!(update_sde(&SdeVersion::absent(), &v(1)));
    assert_eq!(SdeVersion::absent().build_number(), 0);
    assert!(needs_download(None, 5));
    assert!(needs_download(Some(4), 5));
    assert!(needs_download(Some(6), 5));
    assert!(!needs_download(Some(5), 5));
}

static SHIPS: TypeList<'static> = TypeList {
    included_types: &[5, 9],
    excluded_types: &[9, 21],
    included_groups: &[30, 31],
    excluded_groups: &[31, 41],
    included_categories: &[6],
    excluded_categories: &[7],
};

fn type_info(t: u32) -> (u32, u32) {
    match t {
        5 => (99, 1),
        _ => (41, 1),
    }
}

fn group_info(g: u32) -> (u32, &'static [u32]) {
    match g {
        30 => (1, &[20, 21, 22]),
        40 => (6, &[50, 9]),
        41 => (6, &[60]),
        _ => (7, &[70]),
    }
}

fn category_info(c: u32) -> &'static [u32] {
    match c {
        6 => &[40, 41],
        _ => &[],
    }
}

#[test]
fn type_lists_include_and_exclude() {
    assert!(SHIPS.includes_type(5, 1, 1));
    assert!(!SHIPS.includes_type(9, 1, 1));
    assert!(SHIPS.includes_type(1, 30, 1));
    assert!(!SHIPS.includes_type(1, 31, 1));
    assert!(SHIPS.includes_type(1, 1, 6));
    assert!(!SHIPS.includes_type(5, 1, 7));
    assert!(!SHIPS.includes_type(1, 1, 1));
    assert!(SHIPS.includes(5, type_info));
    assert!(!SHIPS.includes(3, type_info));
    assert!(!TypeList::empty().includes_type(5, 30, 6));
    assert!(holds(&[1, 2, 3], 2));
    assert!(!holds(&[1, 2, 3], 4));
    assert!(!holds(&[], 0));
}

#[test]
fn type_lists_are_written_out_in_order() {
    assert_eq!(SHIPS.flatten(type_info, group_info, category_info), vec![5, 20, 22, 50]);
    static EMPTY: TypeList<'static> = TypeList {
        included_types: &[],
        excluded_types: &[],
        included_groups: &[],
        excluded_groups: &[],
        included_categories: &[],
        excluded_categories: &[],
    };
    assert!(EMPTY.flatten(type_info, group_info, category_info).is_empty());
}

#[test]
fn cargo_holds_carry_what_their_list_includes() {
    let hold = CargoHoldType {
        attribute_id: Some(908),
        filter: Some(SHIPS),
        packaged_ships: false,
        assembled_ships: true,
    };
    assert!(hold.carries(5, 1, 1));
    assert!(!hold.carries(9, 1, 1));
    let any = CargoHoldType { attribute_id: None, filter: None, packaged_ships: true, assembled_ships: true };
    assert!(any.carries(1, 2, 3));
}

#[test]
fn user_agent_needs_a_contact() {
    assert_eq!(UserAgent::new("app", "1.0").build().err(), Some("Must have at least 1 contact"));
    let agent = UserAgent::new("app", "1.0").contact("email", "a@b.c").build().unwrap();
    assert_eq!(agent.as_str(), "app/1.0 (email:a@b.c) eveicongenerator/0.1.0 (+)");
    let agent = UserAgent::new("app", "1.0")
        .contact("email", "a@b.c")
        .contact("discord", "me")
        .comment("first")
        .comment("second")
        .build()
        .unwrap();
    assert_eq!(
        agent.as_str(),
        "app/1.0 (email:a@b.c; discord:me) (; first; second) eveicongenerator/0.1.0 (+)"
    );
}

#[test]
fn units_have_numbers() {
    assert_eq!(EVEUnit::Meter.id(), 1);
    assert_eq!(EVEUnit::MassFraction.id(), 19);
    assert_eq!(EVEUnit::Milliseconds.id(), 101);
    assert_eq!(EVEUnit::ModifierRealPercent.id(), 205);
    assert_eq!(EVEUnit::from_id(116), Some(EVEUnit::TypeID));
    assert_eq!(EVEUnit::from_id(110), None);
    assert_eq!(EVEUnit::from_id(0), None);
}

#[test]
fn build_keeps_types_with_icon_data() {
    let none = TypeInfo { group_id: 1, icon_id: None, graphic_id: None, meta_group_id: Some(2) };
    assert!(!is_kept(&none));
    assert!(is_kept(&TypeInfo { icon_id: Some(0), ..none }));
    assert!(is_kept(&TypeInfo { graphic_id: Some(0), ..none }));
    assert!(is_kept(&TypeInfo { group_id: 1950, ..none }));
    assert!(is_kept(&TypeInfo { group_id: 1955, ..none }));
    assert!(!is_kept(&TypeInfo { group_id: 1956, ..none }));
    assert!(!is_kept(&TypeInfo { group_id: 1949, ..none }));
    assert!(is_kept(&TypeInfo { group_id: 4040, ..none }));
}

#[test]
fn licenses_take_the_material_of_their_skin() {
    let licenses = HashMap::from([(1, 10), (2, 20), (3, 10)]);
    let materials = HashMap::from([(10, 100), (30, 300)]);
    assert_eq!(license_materials(&licenses, &materials), HashMap::from([(1, 100), (3, 100)]));
    assert!(license_materials(&HashMap::new(), &materials).is_empty());
}

#[test]
fn keyed_records_give_key_and_content() {
    let k = Keyed::new(7, "x".to_string());
    assert_eq!(k.key(), 7);
    assert_eq!(k.into_parts(), (7, "x".to_string()));
}

#[test]
fn checksum_file_is_read_line_by_line() {
    let a = "0123456789abcdef0123456789abcdef";
    let b = "11111111111111111111111111111111";
    let c = "22222222222222222222222222222222";
    let d = "33333333333333333333333333333333";
    let text = format!("{a}  sde.zip\n{b}  fsd.zip\r\n{c}  other.zip\n{c}  bsd.zip\n{d}  universe.zip\n");
    let sums = SDEChecksums::parse(&text).unwrap();
    assert_eq!(sums.sde(), a);
    assert_eq!(sums.fsd(), b);
    assert_eq!(sums.bsd(), c);
    assert_eq!(sums.universe(), d);
    assert!(sums.is_complete());
    assert!(!SDEChecksums::default().is_complete());
    assert!(SDEChecksums::parse(&format!("{a}  sde.zip\n{b}  fsd.zip\n{c}  bsd.zip\n")).is_none());
    assert!(SDEChecksums::parse(&format!("{a} sde.zip\n")).is_none());
    assert!(SDEChecksums::parse(&format!("short  other.zip\n{text}")).is_none());
    assert!(SDEChecksums::parse("").is_none());
}

#[test]
fn loaders_are_named_after_their_resource() {
    assert_eq!(loader_file_name("app:/bin64/typesLoader.pyd"), "typesLoader.pyd");
    assert_eq!(loader_file_name("typesLoader.pyd"), "typesLoader.pyd");
    assert_eq!(loader_file_name("a/b/"), "");
    assert_eq!(loader_module_name("typesLoader.pyd"), "typesLoader");
    assert_eq!(loader_module_name("a.b.c"), "a");
    assert_eq!(loader_module_name("plain"), "plain");
    assert_eq!(FsdTable::Types.binary_resource(), "res:/staticdata/types.fsdbinary");
    assert_eq!(FsdTable::Icons.loader_resource(), "app:/bin64/iconIDsLoader.pyd");
    assert_eq!(FsdTable::Graphics.json_name(), "graphics.json");
    assert_eq!(FsdTable::Groups.json_name(), "groups.json");
}

#[test]
fn cargo_holds_are_listed_by_name() {
    let holds = export();
    assert_eq!(holds.len(), 17);
    assert_eq!(holds[0].0, "SMB");
    assert_eq!(holds[16].0, "INFRASTRUCTURE");
    let bay = ship_maintenance_bay();
    assert_eq!(bay.attribute_id, Some(908));
    assert!(bay.assembled_ships && !bay.packaged_ships);
    assert!(bay.carries(1, 1, 6));
    assert!(!bay.carries(1, 1, 7));
    let infra = infrastructure_hold();
    assert_eq!(infra.attribute_id, Some(5646));
    assert!(infra.carries(1, 4736, 1));
    assert!(infra.carries(1, 1, 65));
    assert!(!infra.carries(1, 1, 6));
    assert!(holds[2].1.filter.is_none());
}

#[test]
fn mastery_levels_from_entries() {
    let levels = MasteryLevels::from_entries(vec![(0, vec![1, 2]), (4, vec![9]), (0, vec![3])]).unwrap();
    assert_eq!(levels.lvl1, vec![3]);
    assert!(levels.lvl2.is_empty());
    assert_eq!(levels.lvl5, vec![9]);
    assert_eq!(MasteryLevels::from_entries(vec![(1, vec![1]), (5, vec![2])]).err(), Some(5));
    assert!(MasteryLevels::from_entries(Vec::new()).unwrap().lvl3.is_empty());
}
