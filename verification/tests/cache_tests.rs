//! Cache behaviour: read-through decode, no invalidation, isolation of
//! returned copies, typed decode failures.

use pkg_json::{Cacher, DecodeError, PackageJson};

#[test]
fn read_through_decodes_and_stores() {
    let mut c = Cacher::new();
    let key = "/proj/package.json".to_owned();
    let m = c.get(&key, r#"{"name": "x"}"#).unwrap();
    assert_eq!(m.name, Some("x".to_owned()));
}

#[test]
fn cache_does_not_refresh_on_changed_content() {
    // The second read-through for the same path keeps returning the first
    // decoded value even though the content changed: a documented
    // limitation, asserted as such.
    let mut c = Cacher::new();
    let key = "/proj/package.json".to_owned();
    let first = c.get(&key, r#"{"name": "old"}"#).unwrap();
    assert_eq!(first.name, Some("old".to_owned()));
    let second = c.get(&key, r#"{"name": "new"}"#).unwrap();
    assert_eq!(second.name, Some("old".to_owned()));
}

#[test]
fn distinct_paths_are_distinct_keys() {
    let mut c = Cacher::new();
    let a = "/a/package.json".to_owned();
    let b = "/b/package.json".to_owned();
    let ma = c.get(&a, r#"{"name": "a"}"#).unwrap();
    let mb = c.get(&b, r#"{"name": "b"}"#).unwrap();
    assert_eq!(ma.name, Some("a".to_owned()));
    assert_eq!(mb.name, Some("b".to_owned()));
}

#[test]
fn returned_manifests_are_independently_mutable() {
    let mut c = Cacher::new();
    let key = "/proj/package.json".to_owned();
    let mut first = c.get(&key, r#"{"name": "x"}"#).unwrap();
    let second = c.get(&key, "ignored").unwrap();
    first.name = Some("changed".to_owned());
    first.version = Some("9.9.9".to_owned());
    assert_eq!(second.name, Some("x".to_owned()));
    assert_eq!(second.version, None);
    // And the store itself is untouched by the caller's mutation.
    let third = c.get(&key, "ignored").unwrap();
    assert_eq!(third.name, Some("x".to_owned()));
}

#[test]
fn decode_failure_is_a_typed_error_and_stores_nothing() {
    let mut c = Cacher::new();
    let key = "/proj/package.json".to_owned();
    let e = c.get(&key, "{not json").unwrap_err();
    assert!(matches!(e, DecodeError::MalformedJson));
    // The failed read-through left no entry: the next call decodes afresh.
    let m = c.get(&key, r#"{"name": "x"}"#).unwrap();
    assert_eq!(m.name, Some("x".to_owned()));
}

#[test]
fn set_stores_an_entry_that_get_returns() {
    let mut c = Cacher::new();
    let key = "/proj/package.json".to_owned();
    let mut m = PackageJson::default();
    m.name = Some("seeded".to_owned());
    c.set(key.clone(), &m);
    let got = c.get(&key, "ignored").unwrap();
    assert_eq!(got.name, Some("seeded".to_owned()));
}
