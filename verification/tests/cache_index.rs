use eveicongenerator::icons::index::{ContentCache, SEPARATOR};
use eveicongenerator::icons::recipe::IconError;

#[test]
fn fresh_only_if_left_by_last_build() {
    let mut cache = ContentCache::load("a.png\u{1e}b.png", false);
    assert!(cache.is_up_to_date("a.png"));
    assert!(!cache.is_up_to_date("c.png"));
    assert!(cache.needs("a.png"));
    assert!(cache.needs("c.png"));
    assert!(!cache.needs("b.png"));
    assert!(cache.had("b.png"));
}

#[test]
fn forced_build_is_never_fresh() {
    let mut cache = ContentCache::load("a.png", true);
    assert!(!cache.is_up_to_date("a.png"));
    assert!(cache.needs("a.png"));
}

#[test]
fn record_is_sorted_and_separated() {
    let mut cache = ContentCache::new(false);
    for name in ["b;2.png", "a;1.png", "b;2.png", "bp;x.png", "B.png", "a.png"] {
        cache.is_up_to_date(name);
    }
    assert_eq!(cache.record(), "B.png\u{1e}a.png\u{1e}a;1.png\u{1e}b;2.png\u{1e}bp;x.png");
    assert_eq!(cache.record_bytes(), b"B.png\x1ea.png\x1ea;1.png\x1eb;2.png\x1ebp;x.png".to_vec());
    assert_eq!(cache.sorted_names().len(), 5);
    assert_eq!(SEPARATOR, '\u{1e}');
}

#[test]
fn empty_cache_has_empty_record() {
    let cache = ContentCache::new(false);
    assert_eq!(cache.record(), "");
    assert!(cache.added().is_empty());
    assert!(cache.removed().is_empty());
}

#[test]
fn record_round_trip() {
    let mut cache = ContentCache::new(false);
    for name in ["z.png", "é;1.png", "a.jpg"] {
        cache.is_up_to_date(name);
    }
    let bytes = cache.record_bytes();
    let mut again = ContentCache::load_bytes(&bytes, false).unwrap();
    for name in ["z.png", "é;1.png", "a.jpg"] {
        assert!(again.had(name));
        assert!(again.is_up_to_date(name));
    }
    assert!(again.added().is_empty());
    assert!(again.removed().is_empty());
    assert_eq!(again.record_bytes(), bytes);
}

#[test]
fn added_and_removed_are_the_differences() {
    let mut cache = ContentCache::load("a\u{1e}b\u{1e}c", false);
    cache.is_up_to_date("b");
    cache.is_up_to_date("d");
    cache.is_up_to_date("e");
    cache.is_up_to_date("d");
    let mut added = cache.added();
    added.sort();
    assert_eq!(added, vec!["d".to_string(), "e".to_string()]);
    let mut removed = cache.removed();
    removed.sort();
    assert_eq!(removed, vec!["a".to_string(), "c".to_string()]);
}

#[test]
fn record_with_trailing_separator_and_empty_names() {
    let cache = ContentCache::load("a\u{1e}\u{1e}b\u{1e}", false);
    assert!(cache.had("a"));
    assert!(cache.had(""));
    assert!(cache.had("b"));
    let mut removed = cache.removed();
    removed.sort();
    assert_eq!(removed, vec!["".to_string(), "a".to_string(), "b".to_string()]);
}

#[test]
fn corrupt_record_is_fatal() {
    match ContentCache::load_bytes(&[b'a', 0xff, b'b'], false) {
        Err(IconError::CorruptIndex) => {}
        Err(other) => panic!("unexpected: {:?}", other),
        Ok(_) => panic!("corrupt record was read"),
    }
}
