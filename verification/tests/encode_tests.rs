//! Encoding behaviour: absent fields are omitted, variants keep their
//! shape, and a decode of an encode gives the manifest back.

use pkg_json::{
    BinField, BugsField, ExportsField, ManField, PackageJson, PackageJsonPerson, RecordKey,
    RecordValue, RecordValueHashMapKey, RepositoryField, TypeEnum,
};

#[test]
fn encode_default_emits_only_the_module_type() {
    let m = PackageJson::default();
    assert_eq!(m.encode(), r#"{"type":"commonjs"}"#);
}

#[test]
fn encode_omits_absent_fields() {
    let mut m = PackageJson::default();
    m.name = Some("x".to_owned());
    // serde_json prints object keys sorted; only the two present keys appear.
    assert_eq!(m.encode(), r#"{"name":"x","type":"commonjs"}"#);
    assert!(!m.encode().contains("null"));
}

#[test]
fn encode_keeps_variant_shapes() {
    let mut m = PackageJson::default();
    m.bin = Some(BinField::Str("./cli.js".to_owned()));
    assert_eq!(m.encode(), r#"{"bin":"./cli.js","type":"commonjs"}"#);
    m.bin = Some(BinField::Record(vec![(
        "mytool".to_owned(),
        "./cli.js".to_owned(),
    )]));
    assert_eq!(m.encode(), r#"{"bin":{"mytool":"./cli.js"},"type":"commonjs"}"#);
}

fn full_manifest() -> PackageJson {
    let mut m = PackageJson::default();
    m.name = Some("pkg".to_owned());
    m.version = Some("1.2.3".to_owned());
    m.description = Some("a package".to_owned());
    m.keywords = Some(vec!["k1".to_owned(), "k2".to_owned()]);
    m.homepage = Some("https://x.test".to_owned());
    m.bugs = Some(BugsField::UrlAndEmail {
        url: "https://x.test/issues".to_owned(),
        email: "b@x.test".to_owned(),
    });
    m.license = Some("MIT".to_owned());
    m.repository = Some(RepositoryField::UrlAndType {
        type_: "git".to_owned(),
        url: "https://x.test/r.git".to_owned(),
        directory: Some("pkg".to_owned()),
    });
    m.scripts = Some(vec![("build".to_owned(), "tsc".to_owned())]);
    m.private = Some(true);
    m.author = Some(PackageJsonPerson::Object {
        name: "Jane".to_owned(),
        email: Some("jane@x.com".to_owned()),
        url: None,
    });
    m.contributors = Some(vec![
        PackageJsonPerson::Str("Joe".to_owned()),
        PackageJsonPerson::Object {
            name: "Ann".to_owned(),
            email: None,
            url: Some("https://ann.test".to_owned()),
        },
    ]);
    m.files = Some(vec!["src".to_owned()]);
    m.main = Some("index.js".to_owned());
    m.browser = Some("browser.js".to_owned());
    m.bin = Some(BinField::Record(vec![(
        "mytool".to_owned(),
        "./cli.js".to_owned(),
    )]));
    m.man = Some(ManField::StringVec(vec!["./a.1".to_owned()]));
    m.dependencies = Some(vec![("a".to_owned(), "^1.0.0".to_owned())]);
    m.dev_dependencies = Some(vec![("b".to_owned(), "~2.0.0".to_owned())]);
    m.optional_dependencies = Some(vec![("c".to_owned(), "3.0.0".to_owned())]);
    m.peer_dependencies = Some(vec![("d".to_owned(), "*".to_owned())]);
    m.types = Some("index.d.ts".to_owned());
    m.typings = Some("index.d.ts".to_owned());
    m.module = Some("index.mjs".to_owned());
    m.type_ = TypeEnum::Module;
    m.exports = Some(ExportsField::Record(vec![
        (RecordKey::Dot, RecordValue::Str("./index.js".to_owned())),
        (
            RecordKey::Import,
            // Entries already sorted by wire key: the text round trip goes
            // through serde_json, which keeps objects sorted.
            RecordValue::HashMap(vec![
                (
                    RecordValueHashMapKey::Str("./sub".to_owned()),
                    "./sub.js".to_owned(),
                ),
                (RecordValueHashMapKey::Import, "./esm.mjs".to_owned()),
            ]),
        ),
        (RecordKey::Node, RecordValue::Str("./node.js".to_owned())),
    ]));
    m.workspaces = Some(vec!["packages/a".to_owned()]);
    m
}

#[test]
fn round_trip_full_manifest() {
    let m = full_manifest();
    let text = m.encode();
    let back = PackageJson::decode(&text).unwrap();
    assert_eq!(back, m);
}

#[test]
fn round_trip_string_variants() {
    let mut m = PackageJson::default();
    m.bugs = Some(BugsField::Str("https://x.test/issues".to_owned()));
    m.repository = Some(RepositoryField::Str("github:u/r".to_owned()));
    m.author = Some(PackageJsonPerson::Str("Jane <jane@x.com>".to_owned()));
    m.bin = Some(BinField::Str("./cli.js".to_owned()));
    m.man = Some(ManField::Str("./doc.1".to_owned()));
    m.exports = Some(ExportsField::Str("./index.js".to_owned()));
    let back = PackageJson::decode(&m.encode()).unwrap();
    assert_eq!(back, m);
}

#[test]
fn round_trip_keeps_empty_collections_distinct_from_absent() {
    let mut m = PackageJson::default();
    m.keywords = Some(vec![]);
    m.scripts = Some(vec![]);
    let back = PackageJson::decode(&m.encode()).unwrap();
    assert_eq!(back.keywords, Some(vec![]));
    assert_eq!(back.scripts, Some(vec![]));
    assert_eq!(back, m);
}

#[test]
fn to_json_and_from_json_are_inverse_on_trees() {
    let m = full_manifest();
    let tree = m.to_json();
    let back = PackageJson::from_json(&tree).unwrap();
    assert_eq!(back, m);
}
