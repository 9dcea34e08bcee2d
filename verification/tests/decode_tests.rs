//! Decoding behaviour: default fill, polymorphic shapes, shape-mismatch
//! errors, unknown-key tolerance.

use pkg_json::{
    BinField, BugsField, DecodeError, ExportsField, ManField, PackageJson, PackageJsonPerson,
    RecordKey, RecordValue, RecordValueHashMapKey, RepositoryField, TypeEnum,
};

#[test]
fn default_fill_empty_object() {
    let m = PackageJson::decode("{}").unwrap();
    assert_eq!(m, PackageJson::default());
    assert!(matches!(m.type_, TypeEnum::Commonjs));
    assert_eq!(m.name, None);
    assert_eq!(m.exports, None);
}

#[test]
fn person_field_string_shape() {
    let m = PackageJson::decode(r#"{"author": "Jane <jane@x.com>"}"#).unwrap();
    assert_eq!(
        m.author,
        Some(PackageJsonPerson::Str("Jane <jane@x.com>".to_owned()))
    );
}

#[test]
fn person_field_object_shape() {
    let m = PackageJson::decode(r#"{"author": {"name": "Jane", "email": "jane@x.com"}}"#).unwrap();
    assert_eq!(
        m.author,
        Some(PackageJsonPerson::Object {
            name: "Jane".to_owned(),
            email: Some("jane@x.com".to_owned()),
            url: None,
        })
    );
}

#[test]
fn bin_field_string_shape() {
    let m = PackageJson::decode(r#"{"bin": "./cli.js"}"#).unwrap();
    assert_eq!(m.bin, Some(BinField::Str("./cli.js".to_owned())));
}

#[test]
fn bin_field_mapping_shape() {
    let m = PackageJson::decode(r#"{"bin": {"mytool": "./cli.js"}}"#).unwrap();
    assert_eq!(
        m.bin,
        Some(BinField::Record(vec![(
            "mytool".to_owned(),
            "./cli.js".to_owned()
        )]))
    );
}

#[test]
fn bin_field_shape_mismatch_names_field() {
    let e = PackageJson::decode(r#"{"bin": 42}"#).unwrap_err();
    match e {
        DecodeError::ShapeMismatch { field } => assert_eq!(field, "bin"),
        other => panic!("expected a shape mismatch, got {:?}", other),
    }
}

#[test]
fn unknown_keys_are_tolerated() {
    let m = PackageJson::decode(r#"{"name": "x", "futureField": {"anything": true}}"#).unwrap();
    assert_eq!(m.name, Some("x".to_owned()));
    let mut expected = PackageJson::default();
    expected.name = Some("x".to_owned());
    assert_eq!(m, expected);
}

#[test]
fn malformed_json_is_reported() {
    let e = PackageJson::decode("{not json").unwrap_err();
    assert!(matches!(e, DecodeError::MalformedJson));
}

#[test]
fn root_must_be_an_object() {
    let e = PackageJson::decode("[1, 2]").unwrap_err();
    match e {
        DecodeError::ShapeMismatch { field } => assert_eq!(field, ""),
        other => panic!("expected a shape mismatch, got {:?}", other),
    }
}

#[test]
fn module_type_tags() {
    let m = PackageJson::decode(r#"{"type": "module"}"#).unwrap();
    assert!(matches!(m.type_, TypeEnum::Module));
    let m = PackageJson::decode(r#"{"type": "commonjs"}"#).unwrap();
    assert!(matches!(m.type_, TypeEnum::Commonjs));
}

#[test]
fn unknown_module_type_is_an_error() {
    let e = PackageJson::decode(r#"{"type": "esm"}"#).unwrap_err();
    match e {
        DecodeError::UnknownModuleType { found } => assert_eq!(found, "esm"),
        other => panic!("expected an unknown module type, got {:?}", other),
    }
}

#[test]
fn non_string_module_type_is_a_shape_mismatch() {
    let e = PackageJson::decode(r#"{"type": 42}"#).unwrap_err();
    match e {
        DecodeError::ShapeMismatch { field } => assert_eq!(field, "type"),
        other => panic!("expected a shape mismatch, got {:?}", other),
    }
}

#[test]
fn bugs_field_both_shapes() {
    let m = PackageJson::decode(r#"{"bugs": "https://x.test/issues"}"#).unwrap();
    assert_eq!(m.bugs, Some(BugsField::Str("https://x.test/issues".to_owned())));
    let m =
        PackageJson::decode(r#"{"bugs": {"url": "https://x.test/issues", "email": "b@x.test"}}"#)
            .unwrap();
    assert_eq!(
        m.bugs,
        Some(BugsField::UrlAndEmail {
            url: "https://x.test/issues".to_owned(),
            email: "b@x.test".to_owned(),
        })
    );
}

#[test]
fn bugs_object_missing_email_is_a_mismatch() {
    let e = PackageJson::decode(r#"{"bugs": {"url": "https://x.test/issues"}}"#).unwrap_err();
    match e {
        DecodeError::ShapeMismatch { field } => assert_eq!(field, "bugs"),
        other => panic!("expected a shape mismatch, got {:?}", other),
    }
}

#[test]
fn repository_field_both_shapes() {
    let m = PackageJson::decode(r#"{"repository": "github:user/repo"}"#).unwrap();
    assert_eq!(
        m.repository,
        Some(RepositoryField::Str("github:user/repo".to_owned()))
    );
    let m = PackageJson::decode(
        r#"{"repository": {"type": "git", "url": "https://x.test/r.git", "directory": "pkg"}}"#,
    )
    .unwrap();
    assert_eq!(
        m.repository,
        Some(RepositoryField::UrlAndType {
            type_: "git".to_owned(),
            url: "https://x.test/r.git".to_owned(),
            directory: Some("pkg".to_owned()),
        })
    );
}

#[test]
fn man_field_both_shapes() {
    let m = PackageJson::decode(r#"{"man": "./doc.1"}"#).unwrap();
    assert_eq!(m.man, Some(ManField::Str("./doc.1".to_owned())));
    let m = PackageJson::decode(r#"{"man": ["./a.1", "./b.1"]}"#).unwrap();
    assert_eq!(
        m.man,
        Some(ManField::StringVec(vec![
            "./a.1".to_owned(),
            "./b.1".to_owned()
        ]))
    );
}

#[test]
fn exports_field_nested_shapes() {
    let m = PackageJson::decode(r#"{"exports": "./index.js"}"#).unwrap();
    assert_eq!(m.exports, Some(ExportsField::Str("./index.js".to_owned())));
    let m = PackageJson::decode(
        r#"{"exports": {".": "./index.js", "import": {"import": "./esm.mjs", "./sub": "./sub.js"}}}"#,
    )
    .unwrap();
    assert_eq!(
        m.exports,
        Some(ExportsField::Record(vec![
            (RecordKey::Dot, RecordValue::Str("./index.js".to_owned())),
            (
                RecordKey::Import,
                // serde_json keeps object entries sorted by key, so the
                // "./sub" entry precedes "import".
                RecordValue::HashMap(vec![
                    (
                        RecordValueHashMapKey::Str("./sub".to_owned()),
                        "./sub.js".to_owned()
                    ),
                    (RecordValueHashMapKey::Import, "./esm.mjs".to_owned()),
                ])
            ),
        ]))
    );
}

#[test]
fn scripts_and_dependencies_mappings() {
    let m = PackageJson::decode(
        r#"{"scripts": {"build": "tsc"}, "dependencies": {"a": "^1.0.0"}, "devDependencies": {"b": "~2.0.0"}}"#,
    )
    .unwrap();
    assert_eq!(
        m.scripts,
        Some(vec![("build".to_owned(), "tsc".to_owned())])
    );
    assert_eq!(
        m.dependencies,
        Some(vec![("a".to_owned(), "^1.0.0".to_owned())])
    );
    assert_eq!(
        m.dev_dependencies,
        Some(vec![("b".to_owned(), "~2.0.0".to_owned())])
    );
}

#[test]
fn null_fields_decode_to_absent() {
    let m = PackageJson::decode(r#"{"name": null, "keywords": null}"#).unwrap();
    assert_eq!(m.name, None);
    assert_eq!(m.keywords, None);
}

#[test]
fn keywords_with_non_string_element_is_a_mismatch() {
    let e = PackageJson::decode(r#"{"keywords": ["a", 1]}"#).unwrap_err();
    match e {
        DecodeError::ShapeMismatch { field } => assert_eq!(field, "keywords"),
        other => panic!("expected a shape mismatch, got {:?}", other),
    }
}

#[test]
fn private_flag_both_values() {
    let m = PackageJson::decode(r#"{"private": true}"#).unwrap();
    assert_eq!(m.private, Some(true));
    let m = PackageJson::decode(r#"{"private": false}"#).unwrap();
    assert_eq!(m.private, Some(false));
}
