use eveicongenerator::icons::kind::IconKind;
use eveicongenerator::icons::metadata::ServiceMetadata;
use eveicongenerator::icons::web::{
    link_file_name, manifest_file_name, manifests, plan_web, plan_web_with, WebFile,
};

fn metadata(types: &[u32]) -> ServiceMetadata {
    let mut m = ServiceMetadata::new();
    for t in types {
        m.put(*t, IconKind::Blueprint, format!("bp;{}.png", t));
        m.put(*t, IconKind::Icon, format!("bp;{}.png", t));
        m.put(*t, IconKind::Render, format!("r{}.jpg", t));
    }
    m
}

fn names(files: &[WebFile]) -> Vec<(&str, &str, bool)> {
    files.iter().map(|f| (f.name.as_str(), f.content.as_str(), f.link)).collect()
}

#[test]
fn web_names() {
    assert_eq!(manifest_file_name(100), "100.json");
    assert_eq!(link_file_name(100, IconKind::Icon), "100_icon.png");
    assert_eq!(link_file_name(100, IconKind::Blueprint), "100_bp.png");
    assert_eq!(link_file_name(100, IconKind::BlueprintCopy), "100_bpc.png");
    assert_eq!(link_file_name(100, IconKind::Reaction), "100_reaction.png");
    assert_eq!(link_file_name(100, IconKind::Relic), "100_relic.png");
    assert_eq!(link_file_name(0, IconKind::Render), "0_render.jpg");
}

#[test]
fn manifests_list_kinds_in_fixed_order() {
    let texts = manifests(&metadata(&[5])).unwrap();
    assert_eq!(texts, vec!["[\"icon\",\"bp\",\"render\"]".to_string()]);
    assert_eq!(manifests(&ServiceMetadata::new()).unwrap(), Vec::<String>::new());
}

#[test]
fn first_run_writes_everything() {
    let plan = plan_web(&metadata(&[5]), &Vec::new(), false).unwrap();
    let expected = vec![
        ("5.json", "[\"icon\",\"bp\",\"render\"]", false),
        ("5_icon.png", "bp;5.png", true),
        ("5_bp.png", "bp;5.png", true),
        ("5_render.jpg", "r5.jpg", true),
    ];
    assert_eq!(names(&plan.created), expected);
    assert_eq!(names(&plan.due), expected);
    assert!(plan.removals.is_empty());
}

#[test]
fn second_run_changes_nothing() {
    let m = metadata(&[5, 6]);
    let first = plan_web(&m, &Vec::new(), false).unwrap();
    let second = plan_web(&m, &first.created, false).unwrap();
    assert!(second.due.is_empty());
    assert!(second.removals.is_empty());
    assert_eq!(names(&second.created), names(&first.created));
}

#[test]
fn forced_run_writes_everything_again() {
    let m = metadata(&[5]);
    let first = plan_web(&m, &Vec::new(), false).unwrap();
    let forced = plan_web(&m, &first.created, true).unwrap();
    assert_eq!(forced.due.len(), 4);
    assert!(forced.removals.is_empty());
}

#[test]
fn files_of_a_removed_type_are_deleted() {
    let first = plan_web(&metadata(&[5, 6]), &Vec::new(), false).unwrap();
    let second = plan_web(&metadata(&[6]), &first.created, false).unwrap();
    assert!(second.due.is_empty());
    assert_eq!(
        second.removals,
        vec![
            "5.json".to_string(),
            "5_icon.png".to_string(),
            "5_bp.png".to_string(),
            "5_render.jpg".to_string()
        ]
    );
    assert_eq!(second.created.len(), 4);
}

#[test]
fn changed_link_target_is_made_again() {
    let mut m = metadata(&[5]);
    let first = plan_web(&m, &Vec::new(), false).unwrap();
    m.put(5, IconKind::Render, "new.jpg".to_string());
    m.put(5, IconKind::Relic, "relic.png".to_string());
    let second = plan_web(&m, &first.created, false).unwrap();
    assert_eq!(
        names(&second.due),
        vec![
            ("5.json", "[\"icon\",\"bp\",\"relic\",\"render\"]", false),
            ("5_relic.png", "relic.png", true),
            ("5_render.jpg", "new.jpg", true),
        ]
    );
    assert!(second.removals.is_empty());
}

#[test]
fn plan_from_given_manifests() {
    let m = metadata(&[5]);
    let old = vec![
        WebFile { name: "5.json".to_string(), content: "M".to_string(), link: false },
        WebFile { name: "stray.png".to_string(), content: "x".to_string(), link: true },
    ];
    let plan = plan_web_with(&m, &vec!["M".to_string()], &old, false);
    assert_eq!(plan.created[0].content, "M");
    assert_eq!(plan.due.len(), 3);
    assert!(plan.due.iter().all(|f| f.link));
    assert_eq!(plan.removals, vec!["stray.png".to_string()]);
}
