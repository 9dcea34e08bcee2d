//! Decoding a JSON tree into a manifest: each polymorphic field tries its
//! legal shapes in a fixed, documented order (the plain string shape first,
//! then the object or array shapes) and commits to the first structural
//! match; a value that matches no shape is a shape-mismatch error naming
//! the field. Unrecognized keys are ignored; `null` counts as absent.

use vstd::prelude::*;

use crate::field_enum::{
    BinField, BinV, BugsField, BugsV, ExportsField, ExportsV, ManField, ManV, PackageJsonPerson,
    PersonV, RecordKey, RecordKeyV, RecordValue, RecordValueHashMapKey, RecordValueKeyV,
    RecordValueV, RepositoryField, RepositoryV, TypeEnum,
};
use crate::json::{arr_view, json_parse, lemma_arr_view, lemma_obj_view, obj_get, obj_lookup,
    obj_view, parse_json, Json, JsonV};
use crate::package_json::{ManifestV, PackageJson};

verus! {

/// A failed decode: the input is not JSON at all, or a field's value fits
/// no legal shape for that field (the root document counts as the field
/// with the empty name), or the module-type field carries an unknown tag.
#[derive(Debug, PartialEq)]
pub enum DecodeError {
    MalformedJson,
    ShapeMismatch { field: String },
    UnknownModuleType { found: String },
}

/// Ghost model of [`DecodeError`].
pub enum DecodeErrorV {
    MalformedJson,
    ShapeMismatch { field: Seq<char> },
    UnknownModuleType { found: Seq<char> },
}

impl DeepView for DecodeError {
    type V = DecodeErrorV;

    open spec fn deep_view(&self) -> DecodeErrorV {
        match self {
            DecodeError::MalformedJson => DecodeErrorV::MalformedJson,
            DecodeError::ShapeMismatch { field } => DecodeErrorV::ShapeMismatch { field: field@ },
            DecodeError::UnknownModuleType { found } => DecodeErrorV::UnknownModuleType {
                found: found@,
            },
        }
    }
}

impl Clone for DecodeError {
    /// An independent copy with the same model.
    fn clone(&self) -> (res: Self)
        ensures
            res.deep_view() == self.deep_view(),
    {
        match self {
            DecodeError::MalformedJson => DecodeError::MalformedJson,
            DecodeError::ShapeMismatch { field } => DecodeError::ShapeMismatch {
                field: field.clone(),
            },
            DecodeError::UnknownModuleType { found } => DecodeError::UnknownModuleType {
                found: found.clone(),
            },
        }
    }
}

// ------------------------------------------------------------------
// Shape decoders on the tree model. Each returns `None` on a value that
// matches no legal shape of the field.
// ------------------------------------------------------------------

/// A plain string value.
pub open spec fn sd_str(j: JsonV) -> Option<Seq<char>> {
    match j {
        JsonV::Str(s) => Some(s),
        _ => None,
    }
}

/// A plain boolean value.
pub open spec fn sd_bool(j: JsonV) -> Option<bool> {
    match j {
        JsonV::Bool(b) => Some(b),
        _ => None,
    }
}

/// A list in which every element is a string.
pub open spec fn sd_str_seq(a: Seq<JsonV>) -> Option<Seq<Seq<char>>> {
    if forall|i: int| 0 <= i < a.len() ==> a[i] is Str {
        Some(Seq::new(a.len(), |i: int| a[i]->Str_0))
    } else {
        None
    }
}

/// An array of strings.
pub open spec fn sd_str_arr(j: JsonV) -> Option<Seq<Seq<char>>> {
    match j {
        JsonV::Arr(a) => sd_str_seq(a),
        _ => None,
    }
}

/// An object in which every value is a string, kept as a pair list.
pub open spec fn sd_str_pairs(o: Seq<(Seq<char>, JsonV)>) -> Option<Seq<(Seq<char>, Seq<char>)>> {
    if forall|i: int| 0 <= i < o.len() ==> o[i].1 is Str {
        Some(Seq::new(o.len(), |i: int| (o[i].0, o[i].1->Str_0)))
    } else {
        None
    }
}

/// A string-to-string mapping.
pub open spec fn sd_str_map(j: JsonV) -> Option<Seq<(Seq<char>, Seq<char>)>> {
    match j {
        JsonV::Obj(o) => sd_str_pairs(o),
        _ => None,
    }
}

/// An optional string property inside an object shape: absent or `null`
/// decodes to the absent state, a string to itself, all else mismatches.
pub open spec fn sd_opt_str_prop(f: Option<JsonV>) -> Option<Option<Seq<char>>> {
    match f {
        None => Some(None),
        Some(JsonV::Null) => Some(None),
        Some(JsonV::Str(s)) => Some(Some(s)),
        Some(_) => None,
    }
}

/// The issue-tracker field: a string, or an object with required string
/// properties `url` and `email`.
pub open spec fn sd_bugs(j: JsonV) -> Option<BugsV> {
    match j {
        JsonV::Str(s) => Some(BugsV::Str(s)),
        JsonV::Obj(o) => match (obj_get(o, "url"@), obj_get(o, "email"@)) {
            (Some(JsonV::Str(url)), Some(JsonV::Str(email))) => Some(
                BugsV::UrlAndEmail { url, email },
            ),
            _ => None,
        },
        _ => None,
    }
}

/// The source-location field: a string, or an object with required string
/// properties `type` and `url` and an optional `directory`.
pub open spec fn sd_repository(j: JsonV) -> Option<RepositoryV> {
    match j {
        JsonV::Str(s) => Some(RepositoryV::Str(s)),
        JsonV::Obj(o) => match (obj_get(o, "type"@), obj_get(o, "url"@)) {
            (Some(JsonV::Str(type_)), Some(JsonV::Str(url))) => match sd_opt_str_prop(
                obj_get(o, "directory"@),
            ) {
                Some(directory) => Some(RepositoryV::UrlAndType { type_, url, directory }),
                None => None,
            },
            _ => None,
        },
        _ => None,
    }
}

/// The person field: free text, or an object with a required string `name`
/// and optional `email` and `url`.
pub open spec fn sd_person(j: JsonV) -> Option<PersonV> {
    match j {
        JsonV::Str(s) => Some(PersonV::Str(s)),
        JsonV::Obj(o) => match obj_get(o, "name"@) {
            Some(JsonV::Str(name)) => match (
                sd_opt_str_prop(obj_get(o, "email"@)),
                sd_opt_str_prop(obj_get(o, "url"@)),
            ) {
                (Some(email), Some(url)) => Some(PersonV::Object { name, email, url }),
                _ => None,
            },
            _ => None,
        },
        _ => None,
    }
}

/// A list in which every element is a person.
pub open spec fn sd_person_seq(a: Seq<JsonV>) -> Option<Seq<PersonV>> {
    if forall|i: int| 0 <= i < a.len() ==> sd_person(#[trigger] a[i]) is Some {
        Some(Seq::new(a.len(), |i: int| sd_person(a[i]).unwrap()))
    } else {
        None
    }
}

/// The contributors field: an array of persons.
pub open spec fn sd_contributors(j: JsonV) -> Option<Seq<PersonV>> {
    match j {
        JsonV::Arr(a) => sd_person_seq(a),
        _ => None,
    }
}

/// The executable-map field: a string, or a string-to-string mapping.
pub open spec fn sd_bin(j: JsonV) -> Option<BinV> {
    match j {
        JsonV::Str(s) => Some(BinV::Str(s)),
        JsonV::Obj(o) => match sd_str_pairs(o) {
            Some(m) => Some(BinV::Record(m)),
            None => None,
        },
        _ => None,
    }
}

/// The manual-page field: a string, or an array of strings.
pub open spec fn sd_man(j: JsonV) -> Option<ManV> {
    match j {
        JsonV::Str(s) => Some(ManV::Str(s)),
        JsonV::Arr(a) => match sd_str_seq(a) {
            Some(v) => Some(ManV::StringVec(v)),
            None => None,
        },
        _ => None,
    }
}

/// A conditional-export key: one of the recognized tags, or the subpath
/// itself. Total: every string is a legal key.
pub open spec fn sd_rkey(k: Seq<char>) -> RecordKeyV {
    if k == "import"@ {
        RecordKeyV::Import
    } else if k == "require"@ {
        RecordKeyV::Require
    } else if k == "."@ {
        RecordKeyV::Dot
    } else if k == "node"@ {
        RecordKeyV::Node
    } else if k == "browser"@ {
        RecordKeyV::Browser
    } else {
        RecordKeyV::Str(k)
    }
}

/// A nested conditional-export key.
pub open spec fn sd_rvkey(k: Seq<char>) -> RecordValueKeyV {
    if k == "import"@ {
        RecordValueKeyV::Import
    } else if k == "require"@ {
        RecordValueKeyV::Require
    } else {
        RecordValueKeyV::Str(k)
    }
}

/// The nested conditional-export mapping: every value must be a string.
pub open spec fn sd_rv_pairs(o: Seq<(Seq<char>, JsonV)>) -> Option<
    Seq<(RecordValueKeyV, Seq<char>)>,
> {
    if forall|i: int| 0 <= i < o.len() ==> o[i].1 is Str {
        Some(Seq::new(o.len(), |i: int| (sd_rvkey(o[i].0), o[i].1->Str_0)))
    } else {
        None
    }
}

/// A conditional-export value: a string, or a nested mapping.
pub open spec fn sd_rvalue(j: JsonV) -> Option<RecordValueV> {
    match j {
        JsonV::Str(s) => Some(RecordValueV::Str(s)),
        JsonV::Obj(o) => match sd_rv_pairs(o) {
            Some(m) => Some(RecordValueV::HashMap(m)),
            None => None,
        },
        _ => None,
    }
}

/// The entry-points mapping: every value must decode.
pub open spec fn sd_exports_pairs(o: Seq<(Seq<char>, JsonV)>) -> Option<
    Seq<(RecordKeyV, RecordValueV)>,
> {
    if forall|i: int| 0 <= i < o.len() ==> sd_rvalue(#[trigger] o[i].1) is Some {
        Some(Seq::new(o.len(), |i: int| (sd_rkey(o[i].0), sd_rvalue(o[i].1).unwrap())))
    } else {
        None
    }
}

/// The entry-points field: a string, or a conditional-export mapping.
pub open spec fn sd_exports(j: JsonV) -> Option<ExportsV> {
    match j {
        JsonV::Str(s) => Some(ExportsV::Str(s)),
        JsonV::Obj(o) => match sd_exports_pairs(o) {
            Some(m) => Some(ExportsV::Record(m)),
            None => None,
        },
        _ => None,
    }
}

/// The module-type field: absent means the default tag; present it must be
/// one of the two recognized tags; any other string is an unknown-module-
/// type error, any other shape a mismatch.
pub open spec fn sd_type(f: Option<JsonV>) -> Result<TypeEnum, DecodeErrorV> {
    match f {
        None => Ok(TypeEnum::Commonjs),
        Some(JsonV::Str(s)) => if s == "module"@ {
            Ok(TypeEnum::Module)
        } else if s == "commonjs"@ {
            Ok(TypeEnum::Commonjs)
        } else {
            Err(DecodeErrorV::UnknownModuleType { found: s })
        },
        Some(_) => Err(DecodeErrorV::ShapeMismatch { field: "type"@ }),
    }
}

// Per-field wrappers: a recognized key that is absent or `null` decodes to
// the absent state; otherwise its value must match a legal shape.

/// An optional string field.
pub open spec fn sd_f_str(f: Option<JsonV>) -> Option<Option<Seq<char>>> {
    match f {
        None => Some(None),
        Some(JsonV::Null) => Some(None),
        Some(v) => match sd_str(v) {
            Some(x) => Some(Some(x)),
            None => None,
        },
    }
}

/// An optional boolean field.
pub open spec fn sd_f_bool(f: Option<JsonV>) -> Option<Option<bool>> {
    match f {
        None => Some(None),
        Some(JsonV::Null) => Some(None),
        Some(v) => match sd_bool(v) {
            Some(x) => Some(Some(x)),
            None => None,
        },
    }
}

/// An optional string-array field.
pub open spec fn sd_f_str_arr(f: Option<JsonV>) -> Option<Option<Seq<Seq<char>>>> {
    match f {
        None => Some(None),
        Some(JsonV::Null) => Some(None),
        Some(v) => match sd_str_arr(v) {
            Some(x) => Some(Some(x)),
            None => None,
        },
    }
}

/// An optional string-mapping field.
pub open spec fn sd_f_str_map(f: Option<JsonV>) -> Option<Option<Seq<(Seq<char>, Seq<char>)>>> {
    match f {
        None => Some(None),
        Some(JsonV::Null) => Some(None),
        Some(v) => match sd_str_map(v) {
            Some(x) => Some(Some(x)),
            None => None,
        },
    }
}

/// The optional issue-tracker field.
pub open spec fn sd_f_bugs(f: Option<JsonV>) -> Option<Option<BugsV>> {
    match f {
        None => Some(None),
        Some(JsonV::Null) => Some(None),
        Some(v) => match sd_bugs(v) {
            Some(x) => Some(Some(x)),
            None => None,
        },
    }
}

/// The optional source-location field.
pub open spec fn sd_f_repository(f: Option<JsonV>) -> Option<Option<RepositoryV>> {
    match f {
        None => Some(None),
        Some(JsonV::Null) => Some(None),
        Some(v) => match sd_repository(v) {
            Some(x) => Some(Some(x)),
            None => None,
        },
    }
}

/// The optional person field.
pub open spec fn sd_f_person(f: Option<JsonV>) -> Option<Option<PersonV>> {
    match f {
        None => Some(None),
        Some(JsonV::Null) => Some(None),
        Some(v) => match sd_person(v) {
            Some(x) => Some(Some(x)),
            None => None,
        },
    }
}

/// The optional contributors field.
pub open spec fn sd_f_contributors(f: Option<JsonV>) -> Option<Option<Seq<PersonV>>> {
    match f {
        None => Some(None),
        Some(JsonV::Null) => Some(None),
        Some(v) => match sd_contributors(v) {
            Some(x) => Some(Some(x)),
            None => None,
        },
    }
}

/// The optional executable-map field.
pub open spec fn sd_f_bin(f: Option<JsonV>) -> Option<Option<BinV>> {
    match f {
        None => Some(None),
        Some(JsonV::Null) => Some(None),
        Some(v) => match sd_bin(v) {
            Some(x) => Some(Some(x)),
            None => None,
        },
    }
}

/// The optional manual-page field.
pub open spec fn sd_f_man(f: Option<JsonV>) -> Option<Option<ManV>> {
    match f {
        None => Some(None),
        Some(JsonV::Null) => Some(None),
        Some(v) => match sd_man(v) {
            Some(x) => Some(Some(x)),
            None => None,
        },
    }
}

/// The optional entry-points field.
pub open spec fn sd_f_exports(f: Option<JsonV>) -> Option<Option<ExportsV>> {
    match f {
        None => Some(None),
        Some(JsonV::Null) => Some(None),
        Some(v) => match sd_exports(v) {
            Some(x) => Some(Some(x)),
            None => None,
        },
    }
}

/// Decoding of a manifest object: each recognized key is looked up and its
/// value decoded; the first field (in declaration order) whose value fits
/// no legal shape names the shape-mismatch error; unrecognized keys are
/// ignored.
pub open spec fn spec_from_obj(o: Seq<(Seq<char>, JsonV)>) -> Result<ManifestV, DecodeErrorV> {
    if sd_f_str(obj_get(o, "name"@)) is None {
        Err(DecodeErrorV::ShapeMismatch { field: "name"@ })
    } else if sd_f_str(obj_get(o, "version"@)) is None {
        Err(DecodeErrorV::ShapeMismatch { field: "version"@ })
    } else if sd_f_str(obj_get(o, "description"@)) is None {
        Err(DecodeErrorV::ShapeMismatch { field: "description"@ })
    } else if sd_f_str_arr(obj_get(o, "keywords"@)) is None {
        Err(DecodeErrorV::ShapeMismatch { field: "keywords"@ })
    } else if sd_f_str(obj_get(o, "homepage"@)) is None {
        Err(DecodeErrorV::ShapeMismatch { field: "homepage"@ })
    } else if sd_f_bugs(obj_get(o, "bugs"@)) is None {
        Err(DecodeErrorV::ShapeMismatch { field: "bugs"@ })
    } else if sd_f_str(obj_get(o, "license"@)) is None {
        Err(DecodeErrorV::ShapeMismatch { field: "license"@ })
    } else if sd_f_repository(obj_get(o, "repository"@)) is None {
        Err(DecodeErrorV::ShapeMismatch { field: "repository"@ })
    } else if sd_f_str_map(obj_get(o, "scripts"@)) is None {
        Err(DecodeErrorV::ShapeMismatch { field: "scripts"@ })
    } else if sd_f_bool(obj_get(o, "private"@)) is None {
        Err(DecodeErrorV::ShapeMismatch { field: "private"@ })
    } else if sd_f_person(obj_get(o, "author"@)) is None {
        Err(DecodeErrorV::ShapeMismatch { field: "author"@ })
    } else if sd_f_contributors(obj_get(o, "contributors"@)) is None {
        Err(DecodeErrorV::ShapeMismatch { field: "contributors"@ })
    } else if sd_f_str_arr(obj_get(o, "files"@)) is None {
        Err(DecodeErrorV::ShapeMismatch { field: "files"@ })
    } else if sd_f_str(obj_get(o, "main"@)) is None {
        Err(DecodeErrorV::ShapeMismatch { field: "main"@ })
    } else if sd_f_str(obj_get(o, "browser"@)) is None {
        Err(DecodeErrorV::ShapeMismatch { field: "browser"@ })
    } else if sd_f_bin(obj_get(o, "bin"@)) is None {
        Err(DecodeErrorV::ShapeMismatch { field: "bin"@ })
    } else if sd_f_man(obj_get(o, "man"@)) is None {
        Err(DecodeErrorV::ShapeMismatch { field: "man"@ })
    } else if sd_f_str_map(obj_get(o, "dependencies"@)) is None {
        Err(DecodeErrorV::ShapeMismatch { field: "dependencies"@ })
    } else if sd_f_str_map(obj_get(o, "devDependencies"@)) is None {
        Err(DecodeErrorV::ShapeMismatch { field: "devDependencies"@ })
    } else if sd_f_str_map(obj_get(o, "optionalDependencies"@)) is None {
        Err(DecodeErrorV::ShapeMismatch { field: "optionalDependencies"@ })
    } else if sd_f_str_map(obj_get(o, "peerDependencies"@)) is None {
        Err(DecodeErrorV::ShapeMismatch { field: "peerDependencies"@ })
    } else if sd_f_str(obj_get(o, "types"@)) is None {
        Err(DecodeErrorV::ShapeMismatch { field: "types"@ })
    } else if sd_f_str(obj_get(o, "typings"@)) is None {
        Err(DecodeErrorV::ShapeMismatch { field: "typings"@ })
    } else if sd_f_str(obj_get(o, "module"@)) is None {
        Err(DecodeErrorV::ShapeMismatch { field: "module"@ })
    } else if sd_type(obj_get(o, "type"@)) is Err {
        Err(sd_type(obj_get(o, "type"@))->Err_0)
    } else if sd_f_exports(obj_get(o, "exports"@)) is None {
        Err(DecodeErrorV::ShapeMismatch { field: "exports"@ })
    } else if sd_f_str_arr(obj_get(o, "workspaces"@)) is None {
        Err(DecodeErrorV::ShapeMismatch { field: "workspaces"@ })
    } else {
        Ok(ManifestV {
            name: sd_f_str(obj_get(o, "name"@)).unwrap(),
            version: sd_f_str(obj_get(o, "version"@)).unwrap(),
            description: sd_f_str(obj_get(o, "description"@)).unwrap(),
            keywords: sd_f_str_arr(obj_get(o, "keywords"@)).unwrap(),
            homepage: sd_f_str(obj_get(o, "homepage"@)).unwrap(),
            bugs: sd_f_bugs(obj_get(o, "bugs"@)).unwrap(),
            license: sd_f_str(obj_get(o, "license"@)).unwrap(),
            repository: sd_f_repository(obj_get(o, "repository"@)).unwrap(),
            scripts: sd_f_str_map(obj_get(o, "scripts"@)).unwrap(),
            private: sd_f_bool(obj_get(o, "private"@)).unwrap(),
            author: sd_f_person(obj_get(o, "author"@)).unwrap(),
            contributors: sd_f_contributors(obj_get(o, "contributors"@)).unwrap(),
            files: sd_f_str_arr(obj_get(o, "files"@)).unwrap(),
            main: sd_f_str(obj_get(o, "main"@)).unwrap(),
            browser: sd_f_str(obj_get(o, "browser"@)).unwrap(),
            bin: sd_f_bin(obj_get(o, "bin"@)).unwrap(),
            man: sd_f_man(obj_get(o, "man"@)).unwrap(),
            dependencies: sd_f_str_map(obj_get(o, "dependencies"@)).unwrap(),
            dev_dependencies: sd_f_str_map(obj_get(o, "devDependencies"@)).unwrap(),
            optional_dependencies: sd_f_str_map(obj_get(o, "optionalDependencies"@)).unwrap(),
            peer_dependencies: sd_f_str_map(obj_get(o, "peerDependencies"@)).unwrap(),
            types: sd_f_str(obj_get(o, "types"@)).unwrap(),
            typings: sd_f_str(obj_get(o, "typings"@)).unwrap(),
            module: sd_f_str(obj_get(o, "module"@)).unwrap(),
            type_: sd_type(obj_get(o, "type"@))->Ok_0,
            exports: sd_f_exports(obj_get(o, "exports"@)).unwrap(),
            workspaces: sd_f_str_arr(obj_get(o, "workspaces"@)).unwrap(),
        })
    }
}

/// Decoding of a tree: the root must be an object (the empty field name
/// stands for the document root in the error).
pub open spec fn spec_from_json(j: JsonV) -> Result<ManifestV, DecodeErrorV> {
    match j {
        JsonV::Obj(o) => spec_from_obj(o),
        _ => Err(DecodeErrorV::ShapeMismatch { field: ""@ }),
    }
}

/// Decoding of a text: tokenizing errors come first, then shape checks.
pub open spec fn spec_decode_text(s: Seq<char>) -> Result<ManifestV, DecodeErrorV> {
    match json_parse(s) {
        None => Err(DecodeErrorV::MalformedJson),
        Some(j) => spec_from_json(j),
    }
}

// ------------------------------------------------------------------
// Executable decoders, each proved against its shape decoder above.
// ------------------------------------------------------------------

/// Whether a string equals a literal.
fn str_is(k: &String, lit: &str) -> (r: bool)
    ensures
        r == (k@ == lit@),
{
    *k == lit.to_owned()
}

/// A list of strings out of a JSON array.
fn dec_str_vec(a: &Vec<Json>) -> (r: Result<Vec<String>, ()>)
    ensures
        match r {
            Ok(v) => sd_str_seq(arr_view(a@)) == Some(v.deep_view()),
            Err(_) => sd_str_seq(arr_view(a@)) is None,
        },
{
    proof {
        lemma_arr_view(a@);
    }
    let ghost av = arr_view(a@);
    let mut out: Vec<String> = Vec::new();
    let n = a.len();
    for i in 0..n
        invariant
            n == a.len(),
            av == arr_view(a@),
            av.len() == n,
            forall|l: int| #![trigger a@[l]] 0 <= l < n ==> av[l] == a@[l].deep_view(),
            out@.len() == i,
            forall|l: int| 0 <= l < i ==> av[l] is Str,
            forall|l: int| 0 <= l < i ==> #[trigger] out@[l]@ == av[l]->Str_0,
    {
        match &a[i] {
            Json::Str(s) => { out.push(s.clone()) },
            _ => {
                proof {
                    assert(!(av[i as int] is Str));
                }
                return Err(());
            },
        }
    }
    proof {
        assert(out.deep_view() =~= Seq::new(av.len(), |i: int| av[i]->Str_0));
    }
    Ok(out)
}

/// A string-to-string pair list out of a JSON object.
fn dec_str_pairs(o: &Vec<(String, Json)>) -> (r: Result<Vec<(String, String)>, ()>)
    ensures
        match r {
            Ok(v) => sd_str_pairs(obj_view(o@)) == Some(v.deep_view()),
            Err(_) => sd_str_pairs(obj_view(o@)) is None,
        },
{
    proof {
        lemma_obj_view(o@);
    }
    let ghost ov = obj_view(o@);
    let mut out: Vec<(String, String)> = Vec::new();
    let n = o.len();
    for i in 0..n
        invariant
            n == o.len(),
            ov == obj_view(o@),
            ov.len() == n,
            forall|l: int| #![trigger o@[l]] 0 <= l < n ==> ov[l] == (o@[l].0@, o@[l].1.deep_view()),
            out@.len() == i,
            forall|l: int| 0 <= l < i ==> ov[l].1 is Str,
            forall|l: int| 0 <= l < i ==> #[trigger] out@[l].deep_view() == (ov[l].0, ov[l].1->Str_0),
    {
        match &o[i].1 {
            Json::Str(s) => { out.push((o[i].0.clone(), s.clone())) },
            _ => {
                proof {
                    assert(!(ov[i as int].1 is Str));
                }
                return Err(());
            },
        }
    }
    proof {
        assert(out.deep_view() =~= Seq::new(ov.len(), |i: int| (ov[i].0, ov[i].1->Str_0)));
    }
    Ok(out)
}

/// An optional string property inside an object shape.
fn dec_opt_str_prop(f: Option<&Json>) -> (r: Result<Option<String>, ()>)
    ensures
        match r {
            Ok(x) => sd_opt_str_prop(f.deep_view()) == Some(x.deep_view()),
            Err(_) => sd_opt_str_prop(f.deep_view()) is None,
        },
{
    match f {
        None => Ok(None),
        Some(Json::Null) => Ok(None),
        Some(Json::Str(s)) => Ok(Some(s.clone())),
        Some(_) => Err(()),
    }
}

/// The issue-tracker field's value.
fn dec_bugs(j: &Json) -> (r: Result<BugsField, ()>)
    ensures
        match r {
            Ok(b) => sd_bugs(j.deep_view()) == Some(b.deep_view()),
            Err(_) => sd_bugs(j.deep_view()) is None,
        },
{
    match j {
        Json::Str(s) => Ok(BugsField::Str(s.clone())),
        Json::Obj(o) => {
            let url = obj_lookup(o, &"url".to_owned());
            let email = obj_lookup(o, &"email".to_owned());
            match (url, email) {
                (Some(Json::Str(u)), Some(Json::Str(e))) => Ok(BugsField::UrlAndEmail {
                    url: u.clone(),
                    email: e.clone(),
                }),
                _ => Err(()),
            }
        },
        _ => Err(()),
    }
}

/// The source-location field's value.
fn dec_repository(j: &Json) -> (r: Result<RepositoryField, ()>)
    ensures
        match r {
            Ok(x) => sd_repository(j.deep_view()) == Some(x.deep_view()),
            Err(_) => sd_repository(j.deep_view()) is None,
        },
{
    match j {
        Json::Str(s) => Ok(RepositoryField::Str(s.clone())),
        Json::Obj(o) => {
            let type_ = obj_lookup(o, &"type".to_owned());
            let url = obj_lookup(o, &"url".to_owned());
            match (type_, url) {
                (Some(Json::Str(t)), Some(Json::Str(u))) => {
                    match dec_opt_str_prop(obj_lookup(o, &"directory".to_owned())) {
                        Ok(directory) => Ok(RepositoryField::UrlAndType {
                            type_: t.clone(),
                            url: u.clone(),
                            directory,
                        }),
                        Err(_) => Err(()),
                    }
                },
                _ => Err(()),
            }
        },
        _ => Err(()),
    }
}

/// The person field's value.
fn dec_person(j: &Json) -> (r: Result<PackageJsonPerson, ()>)
    ensures
        match r {
            Ok(p) => sd_person(j.deep_view()) == Some(p.deep_view()),
            Err(_) => sd_person(j.deep_view()) is None,
        },
{
    match j {
        Json::Str(s) => Ok(PackageJsonPerson::Str(s.clone())),
        Json::Obj(o) => {
            match obj_lookup(o, &"name".to_owned()) {
                Some(Json::Str(name)) => {
                    let email = dec_opt_str_prop(obj_lookup(o, &"email".to_owned()));
                    let url = dec_opt_str_prop(obj_lookup(o, &"url".to_owned()));
                    match (email, url) {
                        (Ok(email), Ok(url)) => Ok(PackageJsonPerson::Object {
                            name: name.clone(),
                            email,
                            url,
                        }),
                        _ => Err(()),
                    }
                },
                _ => Err(()),
            }
        },
        _ => Err(()),
    }
}

/// A list of persons out of a JSON array.
fn dec_person_vec(a: &Vec<Json>) -> (r: Result<Vec<PackageJsonPerson>, ()>)
    ensures
        match r {
            Ok(v) => sd_person_seq(arr_view(a@)) == Some(v.deep_view()),
            Err(_) => sd_person_seq(arr_view(a@)) is None,
        },
{
    proof {
        lemma_arr_view(a@);
    }
    let ghost av = arr_view(a@);
    let mut out: Vec<PackageJsonPerson> = Vec::new();
    let n = a.len();
    for i in 0..n
        invariant
            n == a.len(),
            av == arr_view(a@),
            av.len() == n,
            forall|l: int| #![trigger a@[l]] 0 <= l < n ==> av[l] == a@[l].deep_view(),
            out@.len() == i,
            forall|l: int| 0 <= l < i ==> sd_person(#[trigger] av[l]) is Some,
            forall|l: int| 0 <= l < i ==> #[trigger] out@[l].deep_view() == sd_person(av[l]).unwrap(),
    {
        match dec_person(&a[i]) {
            Ok(p) => { out.push(p) },
            Err(_) => {
                proof {
                    assert(sd_person(av[i as int]) is None);
                }
                return Err(());
            },
        }
    }
    proof {
        assert(out.deep_view() =~= Seq::new(av.len(), |i: int| sd_person(av[i]).unwrap()));
    }
    Ok(out)
}

/// The executable-map field's value.
fn dec_bin(j: &Json) -> (r: Result<BinField, ()>)
    ensures
        match r {
            Ok(b) => sd_bin(j.deep_view()) == Some(b.deep_view()),
            Err(_) => sd_bin(j.deep_view()) is None,
        },
{
    match j {
        Json::Str(s) => Ok(BinField::Str(s.clone())),
        Json::Obj(o) => match dec_str_pairs(o) {
            Ok(m) => Ok(BinField::Record(m)),
            Err(_) => Err(()),
        },
        _ => Err(()),
    }
}

/// The manual-page field's value.
fn dec_man(j: &Json) -> (r: Result<ManField, ()>)
    ensures
        match r {
            Ok(m) => sd_man(j.deep_view()) == Some(m.deep_view()),
            Err(_) => sd_man(j.deep_view()) is None,
        },
{
    match j {
        Json::Str(s) => Ok(ManField::Str(s.clone())),
        Json::Arr(a) => match dec_str_vec(a) {
            Ok(v) => Ok(ManField::StringVec(v)),
            Err(_) => Err(()),
        },
        _ => Err(()),
    }
}

/// A conditional-export key.
fn dec_rkey(k: &String) -> (r: RecordKey)
    ensures
        r.deep_view() == sd_rkey(k@),
{
    if str_is(k, "import") {
        RecordKey::Import
    } else if str_is(k, "require") {
        RecordKey::Require
    } else if str_is(k, ".") {
        RecordKey::Dot
    } else if str_is(k, "node") {
        RecordKey::Node
    } else if str_is(k, "browser") {
        RecordKey::Browser
    } else {
        RecordKey::Str(k.clone())
    }
}

/// A nested conditional-export key.
fn dec_rvkey(k: &String) -> (r: RecordValueHashMapKey)
    ensures
        r.deep_view() == sd_rvkey(k@),
{
    if str_is(k, "import") {
        RecordValueHashMapKey::Import
    } else if str_is(k, "require") {
        RecordValueHashMapKey::Require
    } else {
        RecordValueHashMapKey::Str(k.clone())
    }
}

/// A conditional-export value.
fn dec_rvalue(j: &Json) -> (r: Result<RecordValue, ()>)
    ensures
        match r {
            Ok(v) => sd_rvalue(j.deep_view()) == Some(v.deep_view()),
            Err(_) => sd_rvalue(j.deep_view()) is None,
        },
{
    match j {
        Json::Str(s) => Ok(RecordValue::Str(s.clone())),
        Json::Obj(o) => {
            proof {
                lemma_obj_view(o@);
            }
            let ghost ov = obj_view(o@);
            let mut out: Vec<(RecordValueHashMapKey, String)> = Vec::new();
            let n = o.len();
            for i in 0..n
                invariant
                    n == o.len(),
                    ov == obj_view(o@),
                    ov.len() == n,
                    forall|l: int| #![trigger o@[l]] 0 <= l < n ==> ov[l] == (
                        o@[l].0@,
                        o@[l].1.deep_view(),
                    ),
                    j.deep_view() == JsonV::Obj(ov),
                    out@.len() == i,
                    forall|l: int| 0 <= l < i ==> ov[l].1 is Str,
                    forall|l: int| 0 <= l < i ==> #[trigger] out@[l].deep_view() == (
                        sd_rvkey(ov[l].0),
                        ov[l].1->Str_0,
                    ),
            {
                match &o[i].1 {
                    Json::Str(s) => {
                        let k = dec_rvkey(&o[i].0);
                        out.push((k, s.clone()));
                    },
                    _ => {
                        proof {
                            assert(!(ov[i as int].1 is Str));
                        }
                        return Err(());
                    },
                }
            }
            proof {
                assert(out.deep_view() =~= Seq::new(
                    ov.len(),
                    |i: int| (sd_rvkey(ov[i].0), ov[i].1->Str_0),
                ));
            }
            Ok(RecordValue::HashMap(out))
        },
        _ => Err(()),
    }
}

/// The entry-points field's value.
fn dec_exports(j: &Json) -> (r: Result<ExportsField, ()>)
    ensures
        match r {
            Ok(e) => sd_exports(j.deep_view()) == Some(e.deep_view()),
            Err(_) => sd_exports(j.deep_view()) is None,
        },
{
    match j {
        Json::Str(s) => Ok(ExportsField::Str(s.clone())),
        Json::Obj(o) => {
            proof {
                lemma_obj_view(o@);
            }
            let ghost ov = obj_view(o@);
            let mut out: Vec<(RecordKey, RecordValue)> = Vec::new();
            let n = o.len();
            for i in 0..n
                invariant
                    n == o.len(),
                    ov == obj_view(o@),
                    ov.len() == n,
                    forall|l: int| #![trigger o@[l]] 0 <= l < n ==> ov[l] == (
                        o@[l].0@,
                        o@[l].1.deep_view(),
                    ),
                    j.deep_view() == JsonV::Obj(ov),
                    out@.len() == i,
                    forall|l: int| 0 <= l < i ==> sd_rvalue(#[trigger] ov[l].1) is Some,
                    forall|l: int| 0 <= l < i ==> #[trigger] out@[l].deep_view() == (
                        sd_rkey(ov[l].0),
                        sd_rvalue(ov[l].1).unwrap(),
                    ),
            {
                match dec_rvalue(&o[i].1) {
                    Ok(v) => {
                        let k = dec_rkey(&o[i].0);
                        out.push((k, v));
                    },
                    Err(_) => {
                        proof {
                            assert(sd_rvalue(ov[i as int].1) is None);
                        }
                        return Err(());
                    },
                }
            }
            proof {
                assert(out.deep_view() =~= Seq::new(
                    ov.len(),
                    |i: int| (sd_rkey(ov[i].0), sd_rvalue(ov[i].1).unwrap()),
                ));
            }
            Ok(ExportsField::Record(out))
        },
        _ => Err(()),
    }
}

// Per-field executable wrappers, mirroring the `sd_f_*` decoders.

/// An optional string field's value.
fn df_str(f: Option<&Json>) -> (r: Result<Option<String>, ()>)
    ensures
        match r {
            Ok(x) => sd_f_str(f.deep_view()) == Some(x.deep_view()),
            Err(_) => sd_f_str(f.deep_view()) is None,
        },
{
    match f {
        None => Ok(None),
        Some(Json::Null) => Ok(None),
        Some(Json::Str(s)) => Ok(Some(s.clone())),
        Some(_) => Err(()),
    }
}

/// An optional boolean field's value.
fn df_bool(f: Option<&Json>) -> (r: Result<Option<bool>, ()>)
    ensures
        match r {
            Ok(x) => sd_f_bool(f.deep_view()) == Some(x.deep_view()),
            Err(_) => sd_f_bool(f.deep_view()) is None,
        },
{
    match f {
        None => Ok(None),
        Some(Json::Null) => Ok(None),
        Some(Json::Bool(b)) => Ok(Some(*b)),
        Some(_) => Err(()),
    }
}

/// An optional string-array field's value.
fn df_str_arr(f: Option<&Json>) -> (r: Result<Option<Vec<String>>, ()>)
    ensures
        match r {
            Ok(x) => sd_f_str_arr(f.deep_view()) == Some(x.deep_view()),
            Err(_) => sd_f_str_arr(f.deep_view()) is None,
        },
{
    match f {
        None => Ok(None),
        Some(Json::Null) => Ok(None),
        Some(Json::Arr(a)) => match dec_str_vec(a) {
            Ok(v) => Ok(Some(v)),
            Err(_) => Err(()),
        },
        Some(_) => Err(()),
    }
}

/// An optional string-mapping field's value.
fn df_str_map(f: Option<&Json>) -> (r: Result<Option<Vec<(String, String)>>, ()>)
    ensures
        match r {
            Ok(x) => sd_f_str_map(f.deep_view()) == Some(x.deep_view()),
            Err(_) => sd_f_str_map(f.deep_view()) is None,
        },
{
    match f {
        None => Ok(None),
        Some(Json::Null) => Ok(None),
        Some(Json::Obj(o)) => match dec_str_pairs(o) {
            Ok(v) => Ok(Some(v)),
            Err(_) => Err(()),
        },
        Some(_) => Err(()),
    }
}

/// The optional issue-tracker field's value.
fn df_bugs(f: Option<&Json>) -> (r: Result<Option<BugsField>, ()>)
    ensures
        match r {
            Ok(x) => sd_f_bugs(f.deep_view()) == Some(x.deep_view()),
            Err(_) => sd_f_bugs(f.deep_view()) is None,
        },
{
    match f {
        None => Ok(None),
        Some(Json::Null) => Ok(None),
        Some(j) => match dec_bugs(j) {
            Ok(b) => Ok(Some(b)),
            Err(_) => Err(()),
        },
    }
}

/// The optional source-location field's value.
fn df_repository(f: Option<&Json>) -> (r: Result<Option<RepositoryField>, ()>)
    ensures
        match r {
            Ok(x) => sd_f_repository(f.deep_view()) == Some(x.deep_view()),
            Err(_) => sd_f_repository(f.deep_view()) is None,
        },
{
    match f {
        None => Ok(None),
        Some(Json::Null) => Ok(None),
        Some(j) => match dec_repository(j) {
            Ok(x) => Ok(Some(x)),
            Err(_) => Err(()),
        },
    }
}

/// The optional person field's value.
fn df_person(f: Option<&Json>) -> (r: Result<Option<PackageJsonPerson>, ()>)
    ensures
        match r {
            Ok(x) => sd_f_person(f.deep_view()) == Some(x.deep_view()),
            Err(_) => sd_f_person(f.deep_view()) is None,
        },
{
    match f {
        None => Ok(None),
        Some(Json::Null) => Ok(None),
        Some(j) => match dec_person(j) {
            Ok(p) => Ok(Some(p)),
            Err(_) => Err(()),
        },
    }
}

/// The optional contributors field's value.
fn df_contributors(f: Option<&Json>) -> (r: Result<Option<Vec<PackageJsonPerson>>, ()>)
    ensures
        match r {
            Ok(x) => sd_f_contributors(f.deep_view()) == Some(x.deep_view()),
            Err(_) => sd_f_contributors(f.deep_view()) is None,
        },
{
    match f {
        None => Ok(None),
        Some(Json::Null) => Ok(None),
        Some(Json::Arr(a)) => match dec_person_vec(a) {
            Ok(v) => Ok(Some(v)),
            Err(_) => Err(()),
        },
        Some(_) => Err(()),
    }
}

/// The optional executable-map field's value.
fn df_bin(f: Option<&Json>) -> (r: Result<Option<BinField>, ()>)
    ensures
        match r {
            Ok(x) => sd_f_bin(f.deep_view()) == Some(x.deep_view()),
            Err(_) => sd_f_bin(f.deep_view()) is None,
        },
{
    match f {
        None => Ok(None),
        Some(Json::Null) => Ok(None),
        Some(j) => match dec_bin(j) {
            Ok(b) => Ok(Some(b)),
            Err(_) => Err(()),
        },
    }
}

/// The optional manual-page field's value.
fn df_man(f: Option<&Json>) -> (r: Result<Option<ManField>, ()>)
    ensures
        match r {
            Ok(x) => sd_f_man(f.deep_view()) == Some(x.deep_view()),
            Err(_) => sd_f_man(f.deep_view()) is None,
        },
{
    match f {
        None => Ok(None),
        Some(Json::Null) => Ok(None),
        Some(j) => match dec_man(j) {
            Ok(m) => Ok(Some(m)),
            Err(_) => Err(()),
        },
    }
}

/// The optional entry-points field's value.
fn df_exports(f: Option<&Json>) -> (r: Result<Option<ExportsField>, ()>)
    ensures
        match r {
            Ok(x) => sd_f_exports(f.deep_view()) == Some(x.deep_view()),
            Err(_) => sd_f_exports(f.deep_view()) is None,
        },
{
    match f {
        None => Ok(None),
        Some(Json::Null) => Ok(None),
        Some(j) => match dec_exports(j) {
            Ok(e) => Ok(Some(e)),
            Err(_) => Err(()),
        },
    }
}

/// The module-type field's value.
fn df_type(f: Option<&Json>) -> (r: Result<TypeEnum, DecodeError>)
    ensures
        match r {
            Ok(t) => sd_type(f.deep_view()) == Ok::<TypeEnum, DecodeErrorV>(t),
            Err(e) => sd_type(f.deep_view()) == Err::<TypeEnum, DecodeErrorV>(e.deep_view()),
        },
{
    match f {
        None => Ok(TypeEnum::Commonjs),
        Some(Json::Str(s)) => {
            if str_is(s, "module") {
                Ok(TypeEnum::Module)
            } else if str_is(s, "commonjs") {
                Ok(TypeEnum::Commonjs)
            } else {
                Err(DecodeError::UnknownModuleType { found: s.clone() })
            }
        },
        Some(_) => Err(DecodeError::ShapeMismatch { field: "type".to_owned() }),
    }
}

/// Decoded values of one third of the manifest fields (an internal
/// staging struct keeping each verification query small).
struct FieldsA {
    name: Option<String>,
    version: Option<String>,
    description: Option<String>,
    keywords: Option<Vec<String>>,
    homepage: Option<String>,
    bugs: Option<BugsField>,
    license: Option<String>,
    repository: Option<RepositoryField>,
    scripts: Option<Vec<(String, String)>>,
}

/// Decodes one third of the fields, in declaration order.
fn from_obj_a(o: &Vec<(String, Json)>) -> (r: Result<FieldsA, DecodeError>)
    ensures
        match r {
            Ok(p) => ({
                &&& sd_f_str(obj_get(obj_view(o@), "name"@)) == Some(p.name.deep_view())
                &&& sd_f_str(obj_get(obj_view(o@), "version"@)) == Some(p.version.deep_view())
                &&& sd_f_str(obj_get(obj_view(o@), "description"@)) == Some(p.description.deep_view())
                &&& sd_f_str_arr(obj_get(obj_view(o@), "keywords"@)) == Some(p.keywords.deep_view())
                &&& sd_f_str(obj_get(obj_view(o@), "homepage"@)) == Some(p.homepage.deep_view())
                &&& sd_f_bugs(obj_get(obj_view(o@), "bugs"@)) == Some(p.bugs.deep_view())
                &&& sd_f_str(obj_get(obj_view(o@), "license"@)) == Some(p.license.deep_view())
                &&& sd_f_repository(obj_get(obj_view(o@), "repository"@)) == Some(p.repository.deep_view())
                &&& sd_f_str_map(obj_get(obj_view(o@), "scripts"@)) == Some(p.scripts.deep_view())
            }),
            Err(e) => spec_from_obj(obj_view(o@)) == Err::<ManifestV, DecodeErrorV>(e.deep_view()),
        },
{
    let name = match df_str(obj_lookup(o, &"name".to_owned())) {
        Ok(x) => x,
        Err(_) => {
            return Err(DecodeError::ShapeMismatch { field: "name".to_owned() });
        },
    };
    let version = match df_str(obj_lookup(o, &"version".to_owned())) {
        Ok(x) => x,
        Err(_) => {
            return Err(DecodeError::ShapeMismatch { field: "version".to_owned() });
        },
    };
    let description = match df_str(obj_lookup(o, &"description".to_owned())) {
        Ok(x) => x,
        Err(_) => {
            return Err(DecodeError::ShapeMismatch { field: "description".to_owned() });
        },
    };
    let keywords = match df_str_arr(obj_lookup(o, &"keywords".to_owned())) {
        Ok(x) => x,
        Err(_) => {
            return Err(DecodeError::ShapeMismatch { field: "keywords".to_owned() });
        },
    };
    let homepage = match df_str(obj_lookup(o, &"homepage".to_owned())) {
        Ok(x) => x,
        Err(_) => {
            return Err(DecodeError::ShapeMismatch { field: "homepage".to_owned() });
        },
    };
    let bugs = match df_bugs(obj_lookup(o, &"bugs".to_owned())) {
        Ok(x) => x,
        Err(_) => {
            return Err(DecodeError::ShapeMismatch { field: "bugs".to_owned() });
        },
    };
    let license = match df_str(obj_lookup(o, &"license".to_owned())) {
        Ok(x) => x,
        Err(_) => {
            return Err(DecodeError::ShapeMismatch { field: "license".to_owned() });
        },
    };
    let repository = match df_repository(obj_lookup(o, &"repository".to_owned())) {
        Ok(x) => x,
        Err(_) => {
            return Err(DecodeError::ShapeMismatch { field: "repository".to_owned() });
        },
    };
    let scripts = match df_str_map(obj_lookup(o, &"scripts".to_owned())) {
        Ok(x) => x,
        Err(_) => {
            return Err(DecodeError::ShapeMismatch { field: "scripts".to_owned() });
        },
    };
    Ok(FieldsA {
        name,
        version,
        description,
        keywords,
        homepage,
        bugs,
        license,
        repository,
        scripts,
    })
}

/// Decoded values of one third of the manifest fields (an internal
/// staging struct keeping each verification query small).
struct FieldsB {
    private: Option<bool>,
    author: Option<PackageJsonPerson>,
    contributors: Option<Vec<PackageJsonPerson>>,
    files: Option<Vec<String>>,
    main: Option<String>,
    browser: Option<String>,
    bin: Option<BinField>,
    man: Option<ManField>,
    dependencies: Option<Vec<(String, String)>>,
}

/// Decodes one third of the fields, in declaration order.
fn from_obj_b(o: &Vec<(String, Json)>) -> (r: Result<FieldsB, DecodeError>)
    requires
        sd_f_str(obj_get(obj_view(o@), "name"@)) is Some,
        sd_f_str(obj_get(obj_view(o@), "version"@)) is Some,
        sd_f_str(obj_get(obj_view(o@), "description"@)) is Some,
        sd_f_str_arr(obj_get(obj_view(o@), "keywords"@)) is Some,
        sd_f_str(obj_get(obj_view(o@), "homepage"@)) is Some,
        sd_f_bugs(obj_get(obj_view(o@), "bugs"@)) is Some,
        sd_f_str(obj_get(obj_view(o@), "license"@)) is Some,
        sd_f_repository(obj_get(obj_view(o@), "repository"@)) is Some,
        sd_f_str_map(obj_get(obj_view(o@), "scripts"@)) is Some,
    ensures
        match r {
            Ok(p) => ({
                &&& sd_f_bool(obj_get(obj_view(o@), "private"@)) == Some(p.private.deep_view())
                &&& sd_f_person(obj_get(obj_view(o@), "author"@)) == Some(p.author.deep_view())
                &&& sd_f_contributors(obj_get(obj_view(o@), "contributors"@)) == Some(p.contributors.deep_view())
                &&& sd_f_str_arr(obj_get(obj_view(o@), "files"@)) == Some(p.files.deep_view())
                &&& sd_f_str(obj_get(obj_view(o@), "main"@)) == Some(p.main.deep_view())
                &&& sd_f_str(obj_get(obj_view(o@), "browser"@)) == Some(p.browser.deep_view())
                &&& sd_f_bin(obj_get(obj_view(o@), "bin"@)) == Some(p.bin.deep_view())
                &&& sd_f_man(obj_get(obj_view(o@), "man"@)) == Some(p.man.deep_view())
                &&& sd_f_str_map(obj_get(obj_view(o@), "dependencies"@)) == Some(p.dependencies.deep_view())
            }),
            Err(e) => spec_from_obj(obj_view(o@)) == Err::<ManifestV, DecodeErrorV>(e.deep_view()),
        },
{
    let private = match df_bool(obj_lookup(o, &"private".to_owned())) {
        Ok(x) => x,
        Err(_) => {
            return Err(DecodeError::ShapeMismatch { field: "private".to_owned() });
        },
    };
    let author = match df_person(obj_lookup(o, &"author".to_owned())) {
        Ok(x) => x,
        Err(_) => {
            return Err(DecodeError::ShapeMismatch { field: "author".to_owned() });
        },
    };
    let contributors = match df_contributors(obj_lookup(o, &"contributors".to_owned())) {
        Ok(x) => x,
        Err(_) => {
            return Err(DecodeError::ShapeMismatch { field: "contributors".to_owned() });
        },
    };
    let files = match df_str_arr(obj_lookup(o, &"files".to_owned())) {
        Ok(x) => x,
        Err(_) => {
            return Err(DecodeError::ShapeMismatch { field: "files".to_owned() });
        },
    };
    let main = match df_str(obj_lookup(o, &"main".to_owned())) {
        Ok(x) => x,
        Err(_) => {
            return Err(DecodeError::ShapeMismatch { field: "main".to_owned() });
        },
    };
    let browser = match df_str(obj_lookup(o, &"browser".to_owned())) {
        Ok(x) => x,
        Err(_) => {
            return Err(DecodeError::ShapeMismatch { field: "browser".to_owned() });
        },
    };
    let bin = match df_bin(obj_lookup(o, &"bin".to_owned())) {
        Ok(x) => x,
        Err(_) => {
            return Err(DecodeError::ShapeMismatch { field: "bin".to_owned() });
        },
    };
    let man = match df_man(obj_lookup(o, &"man".to_owned())) {
        Ok(x) => x,
        Err(_) => {
            return Err(DecodeError::ShapeMismatch { field: "man".to_owned() });
        },
    };
    let dependencies = match df_str_map(obj_lookup(o, &"dependencies".to_owned())) {
        Ok(x) => x,
        Err(_) => {
            return Err(DecodeError::ShapeMismatch { field: "dependencies".to_owned() });
        },
    };
    Ok(FieldsB {
        private,
        author,
        contributors,
        files,
        main,
        browser,
        bin,
        man,
        dependencies,
    })
}

/// Decoded values of one third of the manifest fields (an internal
/// staging struct keeping each verification query small).
struct FieldsC {
    dev_dependencies: Option<Vec<(String, String)>>,
    optional_dependencies: Option<Vec<(String, String)>>,
    peer_dependencies: Option<Vec<(String, String)>>,
    types: Option<String>,
    typings: Option<String>,
    module: Option<String>,
    type_: TypeEnum,
    exports: Option<ExportsField>,
    workspaces: Option<Vec<String>>,
}

/// Decodes one third of the fields, in declaration order.
fn from_obj_c(o: &Vec<(String, Json)>) -> (r: Result<FieldsC, DecodeError>)
    requires
        sd_f_str(obj_get(obj_view(o@), "name"@)) is Some,
        sd_f_str(obj_get(obj_view(o@), "version"@)) is Some,
        sd_f_str(obj_get(obj_view(o@), "description"@)) is Some,
        sd_f_str_arr(obj_get(obj_view(o@), "keywords"@)) is Some,
        sd_f_str(obj_get(obj_view(o@), "homepage"@)) is Some,
        sd_f_bugs(obj_get(obj_view(o@), "bugs"@)) is Some,
        sd_f_str(obj_get(obj_view(o@), "license"@)) is Some,
        sd_f_repository(obj_get(obj_view(o@), "repository"@)) is Some,
        sd_f_str_map(obj_get(obj_view(o@), "scripts"@)) is Some,
        sd_f_bool(obj_get(obj_view(o@), "private"@)) is Some,
        sd_f_person(obj_get(obj_view(o@), "author"@)) is Some,
        sd_f_contributors(obj_get(obj_view(o@), "contributors"@)) is Some,
        sd_f_str_arr(obj_get(obj_view(o@), "files"@)) is Some,
        sd_f_str(obj_get(obj_view(o@), "main"@)) is Some,
        sd_f_str(obj_get(obj_view(o@), "browser"@)) is Some,
        sd_f_bin(obj_get(obj_view(o@), "bin"@)) is Some,
        sd_f_man(obj_get(obj_view(o@), "man"@)) is Some,
        sd_f_str_map(obj_get(obj_view(o@), "dependencies"@)) is Some,
    ensures
        match r {
            Ok(p) => ({
                &&& sd_f_str_map(obj_get(obj_view(o@), "devDependencies"@)) == Some(p.dev_dependencies.deep_view())
                &&& sd_f_str_map(obj_get(obj_view(o@), "optionalDependencies"@)) == Some(p.optional_dependencies.deep_view())
                &&& sd_f_str_map(obj_get(obj_view(o@), "peerDependencies"@)) == Some(p.peer_dependencies.deep_view())
                &&& sd_f_str(obj_get(obj_view(o@), "types"@)) == Some(p.types.deep_view())
                &&& sd_f_str(obj_get(obj_view(o@), "typings"@)) == Some(p.typings.deep_view())
                &&& sd_f_str(obj_get(obj_view(o@), "module"@)) == Some(p.module.deep_view())
                &&& sd_type(obj_get(obj_view(o@), "type"@)) == Ok::<TypeEnum, DecodeErrorV>(p.type_)
                &&& sd_f_exports(obj_get(obj_view(o@), "exports"@)) == Some(p.exports.deep_view())
                &&& sd_f_str_arr(obj_get(obj_view(o@), "workspaces"@)) == Some(p.workspaces.deep_view())
            }),
            Err(e) => spec_from_obj(obj_view(o@)) == Err::<ManifestV, DecodeErrorV>(e.deep_view()),
        },
{
    let dev_dependencies = match df_str_map(obj_lookup(o, &"devDependencies".to_owned())) {
        Ok(x) => x,
        Err(_) => {
            return Err(DecodeError::ShapeMismatch { field: "devDependencies".to_owned() });
        },
    };
    let optional_dependencies = match df_str_map(obj_lookup(o, &"optionalDependencies".to_owned())) {
        Ok(x) => x,
        Err(_) => {
            return Err(DecodeError::ShapeMismatch { field: "optionalDependencies".to_owned() });
        },
    };
    let peer_dependencies = match df_str_map(obj_lookup(o, &"peerDependencies".to_owned())) {
        Ok(x) => x,
        Err(_) => {
            return Err(DecodeError::ShapeMismatch { field: "peerDependencies".to_owned() });
        },
    };
    let types = match df_str(obj_lookup(o, &"types".to_owned())) {
        Ok(x) => x,
        Err(_) => {
            return Err(DecodeError::ShapeMismatch { field: "types".to_owned() });
        },
    };
    let typings = match df_str(obj_lookup(o, &"typings".to_owned())) {
        Ok(x) => x,
        Err(_) => {
            return Err(DecodeError::ShapeMismatch { field: "typings".to_owned() });
        },
    };
    let module = match df_str(obj_lookup(o, &"module".to_owned())) {
        Ok(x) => x,
        Err(_) => {
            return Err(DecodeError::ShapeMismatch { field: "module".to_owned() });
        },
    };
    let type_ = match df_type(obj_lookup(o, &"type".to_owned())) {
        Ok(t) => t,
        Err(e) => {
            return Err(e);
        },
    };
    let exports = match df_exports(obj_lookup(o, &"exports".to_owned())) {
        Ok(x) => x,
        Err(_) => {
            return Err(DecodeError::ShapeMismatch { field: "exports".to_owned() });
        },
    };
    let workspaces = match df_str_arr(obj_lookup(o, &"workspaces".to_owned())) {
        Ok(x) => x,
        Err(_) => {
            return Err(DecodeError::ShapeMismatch { field: "workspaces".to_owned() });
        },
    };
    Ok(FieldsC {
        dev_dependencies,
        optional_dependencies,
        peer_dependencies,
        types,
        typings,
        module,
        type_,
        exports,
        workspaces,
    })
}

impl PackageJson {
    /// Decodes a manifest out of a JSON tree: the root must be an object;
    /// each recognized key is tried against its legal shapes in the fixed
    /// order, unrecognized keys are ignored, absent fields stay absent, and
    /// the module type defaults to its tag.
    pub fn from_json(j: &Json) -> (r: Result<PackageJson, DecodeError>)
        ensures
            match r {
                Ok(m) => spec_from_json(j.deep_view()) == Ok::<ManifestV, DecodeErrorV>(
                    m.deep_view(),
                ),
                Err(e) => spec_from_json(j.deep_view()) == Err::<ManifestV, DecodeErrorV>(
                    e.deep_view(),
                ),
            },
    {
        let o = match j {
            Json::Obj(o) => o,
            _ => {
                return Err(DecodeError::ShapeMismatch { field: "".to_owned() });
            },
        };
        let a = match from_obj_a(o) {
            Ok(a) => a,
            Err(e) => {
                return Err(e);
            },
        };
        let b = match from_obj_b(o) {
            Ok(b) => b,
            Err(e) => {
                return Err(e);
            },
        };
        let c = match from_obj_c(o) {
            Ok(c) => c,
            Err(e) => {
                return Err(e);
            },
        };
        Ok(PackageJson {
            name: a.name,
            version: a.version,
            description: a.description,
            keywords: a.keywords,
            homepage: a.homepage,
            bugs: a.bugs,
            license: a.license,
            repository: a.repository,
            scripts: a.scripts,
            private: b.private,
            author: b.author,
            contributors: b.contributors,
            files: b.files,
            main: b.main,
            browser: b.browser,
            bin: b.bin,
            man: b.man,
            dependencies: b.dependencies,
            dev_dependencies: c.dev_dependencies,
            optional_dependencies: c.optional_dependencies,
            peer_dependencies: c.peer_dependencies,
            types: c.types,
            typings: c.typings,
            module: c.module,
            type_: c.type_,
            exports: c.exports,
            workspaces: c.workspaces,
        })
    }

    /// Decodes a manifest out of JSON text: a text the tokenizer refuses is
    /// a malformed-JSON error; shape checks follow as in [`Self::from_json`].
    pub fn decode(s: &str) -> (r: Result<PackageJson, DecodeError>)
        ensures
            match r {
                Ok(m) => spec_decode_text(s@) == Ok::<ManifestV, DecodeErrorV>(m.deep_view()),
                Err(e) => spec_decode_text(s@) == Err::<ManifestV, DecodeErrorV>(e.deep_view()),
            },
    {
        match parse_json(s) {
            None => Err(DecodeError::MalformedJson),
            Some(j) => PackageJson::from_json(&j),
        }
    }
}

} // verus!
