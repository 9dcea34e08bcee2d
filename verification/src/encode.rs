//! Encoding a manifest back into a JSON tree: the structural inverse of
//! decoding. A field in the absent state omits its key entirely (it never
//! becomes `null`); a polymorphic field in variant X re-encodes as the JSON
//! shape belonging to X; keys are emitted in declaration order.

use vstd::prelude::*;

use crate::field_enum::{
    BinField, BinV, BugsField, BugsV, ExportsField, ExportsV, ManField, ManV, PackageJsonPerson,
    PersonV, RecordKey, RecordKeyV, RecordValue, RecordValueHashMapKey, RecordValueKeyV,
    RecordValueV, RepositoryField, RepositoryV, TypeEnum,
};
use crate::json::{arr_view, json_render, lemma_arr_view, lemma_obj_view, obj_view, render_json,
    Json, JsonV};
use crate::package_json::{ManifestV, PackageJson};

verus! {

/// The field-list contribution of one optional field: nothing when absent,
/// one binding when present.
pub open spec fn seg(k: Seq<char>, o: Option<JsonV>) -> Seq<(Seq<char>, JsonV)> {
    match o {
        None => Seq::empty(),
        Some(j) => seq![(k, j)],
    }
}

/// An optional string as an optional tree.
pub open spec fn se_str_opt(o: Option<Seq<char>>) -> Option<JsonV> {
    match o {
        None => None,
        Some(s) => Some(JsonV::Str(s)),
    }
}

/// An optional boolean as an optional tree.
pub open spec fn se_bool_opt(o: Option<bool>) -> Option<JsonV> {
    match o {
        None => None,
        Some(b) => Some(JsonV::Bool(b)),
    }
}

/// A string list as an array tree.
pub open spec fn se_str_arr(v: Seq<Seq<char>>) -> JsonV {
    JsonV::Arr(Seq::new(v.len(), |i: int| JsonV::Str(v[i])))
}

/// An optional string list as an optional tree.
pub open spec fn se_str_arr_opt(o: Option<Seq<Seq<char>>>) -> Option<JsonV> {
    match o {
        None => None,
        Some(v) => Some(se_str_arr(v)),
    }
}

/// A string-to-string mapping as an object tree.
pub open spec fn se_str_map(m: Seq<(Seq<char>, Seq<char>)>) -> JsonV {
    JsonV::Obj(Seq::new(m.len(), |i: int| (m[i].0, JsonV::Str(m[i].1))))
}

/// An optional string-to-string mapping as an optional tree.
pub open spec fn se_str_map_opt(o: Option<Seq<(Seq<char>, Seq<char>)>>) -> Option<JsonV> {
    match o {
        None => None,
        Some(m) => Some(se_str_map(m)),
    }
}

/// The issue-tracker field's tree: its variant's own shape.
pub open spec fn se_bugs(b: BugsV) -> JsonV {
    match b {
        BugsV::Str(s) => JsonV::Str(s),
        BugsV::UrlAndEmail { url, email } => JsonV::Obj(
            seq![("url"@, JsonV::Str(url)), ("email"@, JsonV::Str(email))],
        ),
    }
}

pub open spec fn se_bugs_opt(o: Option<BugsV>) -> Option<JsonV> {
    match o {
        None => None,
        Some(b) => Some(se_bugs(b)),
    }
}

/// The source-location field's tree.
pub open spec fn se_repository(r: RepositoryV) -> JsonV {
    match r {
        RepositoryV::Str(s) => JsonV::Str(s),
        RepositoryV::UrlAndType { type_, url, directory } => JsonV::Obj(
            seq![("type"@, JsonV::Str(type_)), ("url"@, JsonV::Str(url))] + seg(
                "directory"@,
                se_str_opt(directory),
            ),
        ),
    }
}

pub open spec fn se_repository_opt(o: Option<RepositoryV>) -> Option<JsonV> {
    match o {
        None => None,
        Some(r) => Some(se_repository(r)),
    }
}

/// The person field's tree.
pub open spec fn se_person(p: PersonV) -> JsonV {
    match p {
        PersonV::Str(s) => JsonV::Str(s),
        PersonV::Object { name, email, url } => JsonV::Obj(
            seq![("name"@, JsonV::Str(name))] + seg("email"@, se_str_opt(email)) + seg(
                "url"@,
                se_str_opt(url),
            ),
        ),
    }
}

pub open spec fn se_person_opt(o: Option<PersonV>) -> Option<JsonV> {
    match o {
        None => None,
        Some(p) => Some(se_person(p)),
    }
}

/// A person list as an array tree.
pub open spec fn se_person_arr(v: Seq<PersonV>) -> JsonV {
    JsonV::Arr(Seq::new(v.len(), |i: int| se_person(v[i])))
}

pub open spec fn se_contributors_opt(o: Option<Seq<PersonV>>) -> Option<JsonV> {
    match o {
        None => None,
        Some(v) => Some(se_person_arr(v)),
    }
}

/// The executable-map field's tree.
pub open spec fn se_bin(b: BinV) -> JsonV {
    match b {
        BinV::Str(s) => JsonV::Str(s),
        BinV::Record(m) => se_str_map(m),
    }
}

pub open spec fn se_bin_opt(o: Option<BinV>) -> Option<JsonV> {
    match o {
        None => None,
        Some(b) => Some(se_bin(b)),
    }
}

/// The manual-page field's tree.
pub open spec fn se_man(m: ManV) -> JsonV {
    match m {
        ManV::Str(s) => JsonV::Str(s),
        ManV::StringVec(v) => se_str_arr(v),
    }
}

pub open spec fn se_man_opt(o: Option<ManV>) -> Option<JsonV> {
    match o {
        None => None,
        Some(m) => Some(se_man(m)),
    }
}

/// A conditional-export key's wire form.
pub open spec fn se_rkey(k: RecordKeyV) -> Seq<char> {
    match k {
        RecordKeyV::Import => "import"@,
        RecordKeyV::Require => "require"@,
        RecordKeyV::Dot => "."@,
        RecordKeyV::Node => "node"@,
        RecordKeyV::Browser => "browser"@,
        RecordKeyV::Str(s) => s,
    }
}

/// A nested conditional-export key's wire form.
pub open spec fn se_rvkey(k: RecordValueKeyV) -> Seq<char> {
    match k {
        RecordValueKeyV::Import => "import"@,
        RecordValueKeyV::Require => "require"@,
        RecordValueKeyV::Str(s) => s,
    }
}

/// A conditional-export value's tree.
pub open spec fn se_rvalue(v: RecordValueV) -> JsonV {
    match v {
        RecordValueV::Str(s) => JsonV::Str(s),
        RecordValueV::HashMap(m) => JsonV::Obj(
            Seq::new(m.len(), |i: int| (se_rvkey(m[i].0), JsonV::Str(m[i].1))),
        ),
    }
}

/// The entry-points field's tree.
pub open spec fn se_exports(e: ExportsV) -> JsonV {
    match e {
        ExportsV::Str(s) => JsonV::Str(s),
        ExportsV::Record(m) => JsonV::Obj(
            Seq::new(m.len(), |i: int| (se_rkey(m[i].0), se_rvalue(m[i].1))),
        ),
    }
}

pub open spec fn se_exports_opt(o: Option<ExportsV>) -> Option<JsonV> {
    match o {
        None => None,
        Some(e) => Some(se_exports(e)),
    }
}

/// The module-type field's tree: always present.
pub open spec fn se_type(t: TypeEnum) -> JsonV {
    match t {
        TypeEnum::Module => JsonV::Str("module"@),
        TypeEnum::Commonjs => JsonV::Str("commonjs"@),
    }
}

/// The encoded field list, in declaration order; absent fields contribute
/// nothing, the module-type field is always present.
pub open spec fn spec_encode_fields(m: ManifestV) -> Seq<(Seq<char>, JsonV)> {
    seg("name"@, se_str_opt(m.name)) + seg("version"@, se_str_opt(m.version)) + seg(
        "description"@,
        se_str_opt(m.description),
    ) + seg("keywords"@, se_str_arr_opt(m.keywords)) + seg("homepage"@, se_str_opt(m.homepage))
        + seg("bugs"@, se_bugs_opt(m.bugs)) + seg("license"@, se_str_opt(m.license)) + seg(
        "repository"@,
        se_repository_opt(m.repository),
    ) + seg("scripts"@, se_str_map_opt(m.scripts)) + seg("private"@, se_bool_opt(m.private)) + seg(
        "author"@,
        se_person_opt(m.author),
    ) + seg("contributors"@, se_contributors_opt(m.contributors)) + seg(
        "files"@,
        se_str_arr_opt(m.files),
    ) + seg("main"@, se_str_opt(m.main)) + seg("browser"@, se_str_opt(m.browser)) + seg(
        "bin"@,
        se_bin_opt(m.bin),
    ) + seg("man"@, se_man_opt(m.man)) + seg("dependencies"@, se_str_map_opt(m.dependencies)) + seg(
        "devDependencies"@,
        se_str_map_opt(m.dev_dependencies),
    ) + seg("optionalDependencies"@, se_str_map_opt(m.optional_dependencies)) + seg(
        "peerDependencies"@,
        se_str_map_opt(m.peer_dependencies),
    ) + seg("types"@, se_str_opt(m.types)) + seg("typings"@, se_str_opt(m.typings)) + seg(
        "module"@,
        se_str_opt(m.module),
    ) + seg("type"@, Some(se_type(m.type_))) + seg("exports"@, se_exports_opt(m.exports)) + seg(
        "workspaces"@,
        se_str_arr_opt(m.workspaces),
    )
}

/// The encoded tree of a manifest.
pub open spec fn spec_encode(m: ManifestV) -> JsonV {
    JsonV::Obj(spec_encode_fields(m))
}

// ------------------------------------------------------------------
// Executable encoder, proved against the spec encoder.
// ------------------------------------------------------------------

/// Appending one binding appends its model.
proof fn lemma_obj_view_push(s: Seq<(String, Json)>, p: (String, Json))
    ensures
        obj_view(s.push(p)) == obj_view(s) + seq![(p.0@, p.1.deep_view())],
    decreases s.len(),
{
    if s.len() == 0 {
        assert(s.push(p).drop_first() =~= Seq::empty());
        assert(s =~= Seq::empty());
        assert(obj_view(s.push(p)) =~= obj_view(s) + seq![(p.0@, p.1.deep_view())]);
    } else {
        assert(s.push(p).drop_first() =~= s.drop_first().push(p));
        lemma_obj_view_push(s.drop_first(), p);
        assert(s.push(p)[0] == s[0]);
        assert(obj_view(s.push(p)) == seq![(s[0].0@, s[0].1.deep_view())] + obj_view(
            s.drop_first().push(p),
        ));
        assert(obj_view(s.push(p)) =~= obj_view(s) + seq![(p.0@, p.1.deep_view())]);
    }
}

/// Appends a field's contribution: nothing when the value is absent, one
/// binding otherwise.
fn push_field(fields: &mut Vec<(String, Json)>, k: String, v: Option<Json>)
    ensures
        obj_view(final(fields)@) == obj_view(old(fields)@) + seg(k@, v.deep_view()),
{
    match v {
        None => {
            proof {
                assert(obj_view(fields@) =~= obj_view(fields@) + seg(k@, None::<JsonV>));
            }
        },
        Some(j) => {
            let ghost g0 = fields@;
            fields.push((k, j));
            proof {
                lemma_obj_view_push(g0, fields@.last());
                assert(fields@ == g0.push(fields@.last()));
            }
        },
    }
}

/// An optional string's tree.
fn json_of_opt_string(o: &Option<String>) -> (r: Option<Json>)
    ensures
        r.deep_view() == se_str_opt(o.deep_view()),
{
    match o {
        None => None,
        Some(s) => Some(Json::Str(s.clone())),
    }
}

/// An optional boolean's tree.
fn json_of_opt_bool(o: &Option<bool>) -> (r: Option<Json>)
    ensures
        r.deep_view() == se_bool_opt(o.deep_view()),
{
    match o {
        None => None,
        Some(b) => Some(Json::Bool(*b)),
    }
}

/// A string list's array tree.
fn str_vec_to_json(v: &Vec<String>) -> (j: Json)
    ensures
        j.deep_view() == se_str_arr(v.deep_view()),
{
    let mut out: Vec<Json> = Vec::new();
    let n = v.len();
    for i in 0..n
        invariant
            n == v.len(),
            out@.len() == i,
            forall|l: int| 0 <= l < i ==> #[trigger] out@[l].deep_view() == JsonV::Str(v@[l]@),
    {
        out.push(Json::Str(v[i].clone()));
    }
    proof {
        lemma_arr_view(out@);
        let ghost target = Seq::new(v.deep_view().len(), |i: int| JsonV::Str(v.deep_view()[i]));
        assert forall|l: int| 0 <= l < out@.len() implies arr_view(out@)[l] == target[l] by {
            assert(arr_view(out@)[l] == out@[l].deep_view());
        }
        assert(arr_view(out@) =~= target);
    }
    Json::Arr(out)
}

fn json_of_opt_str_vec(o: &Option<Vec<String>>) -> (r: Option<Json>)
    ensures
        r.deep_view() == se_str_arr_opt(o.deep_view()),
{
    match o {
        None => None,
        Some(v) => Some(str_vec_to_json(v)),
    }
}

/// A string-to-string mapping's object tree.
fn str_map_to_json(v: &Vec<(String, String)>) -> (j: Json)
    ensures
        j.deep_view() == se_str_map(v.deep_view()),
{
    let mut out: Vec<(String, Json)> = Vec::new();
    let n = v.len();
    for i in 0..n
        invariant
            n == v.len(),
            out@.len() == i,
            forall|l: int| #![trigger out@[l]] 0 <= l < i ==> out@[l].0@ == v@[l].0@
                && out@[l].1.deep_view() == JsonV::Str(v@[l].1@),
    {
        out.push((v[i].0.clone(), Json::Str(v[i].1.clone())));
    }
    proof {
        lemma_obj_view(out@);
        let ghost target = Seq::new(
            v.deep_view().len(),
            |i: int| (v.deep_view()[i].0, JsonV::Str(v.deep_view()[i].1)),
        );
        assert forall|l: int| 0 <= l < out@.len() implies obj_view(out@)[l] == target[l] by {
            assert(obj_view(out@)[l] == (out@[l].0@, out@[l].1.deep_view()));
        }
        assert(obj_view(out@) =~= target);
    }
    Json::Obj(out)
}

fn json_of_opt_str_map(o: &Option<Vec<(String, String)>>) -> (r: Option<Json>)
    ensures
        r.deep_view() == se_str_map_opt(o.deep_view()),
{
    match o {
        None => None,
        Some(v) => Some(str_map_to_json(v)),
    }
}

/// The issue-tracker field's tree.
fn bugs_to_json(b: &BugsField) -> (j: Json)
    ensures
        j.deep_view() == se_bugs(b.deep_view()),
{
    match b {
        BugsField::Str(s) => Json::Str(s.clone()),
        BugsField::UrlAndEmail { url, email } => {
            let mut out: Vec<(String, Json)> = Vec::new();
            let ghost g0 = out@;
            out.push(("url".to_owned(), Json::Str(url.clone())));
            proof {
                lemma_obj_view_push(g0, out@.last());
                assert(out@ == g0.push(out@.last()));
            }
            let ghost g1 = out@;
            out.push(("email".to_owned(), Json::Str(email.clone())));
            proof {
                lemma_obj_view_push(g1, out@.last());
                assert(out@ == g1.push(out@.last()));
                assert(obj_view(out@) =~= seq![
                    ("url"@, JsonV::Str(url@)),
                    ("email"@, JsonV::Str(email@)),
                ]);
            }
            Json::Obj(out)
        },
    }
}

fn json_of_opt_bugs(o: &Option<BugsField>) -> (r: Option<Json>)
    ensures
        r.deep_view() == se_bugs_opt(o.deep_view()),
{
    match o {
        None => None,
        Some(b) => Some(bugs_to_json(b)),
    }
}

/// The source-location field's tree.
fn repository_to_json(x: &RepositoryField) -> (j: Json)
    ensures
        j.deep_view() == se_repository(x.deep_view()),
{
    match x {
        RepositoryField::Str(s) => Json::Str(s.clone()),
        RepositoryField::UrlAndType { type_, url, directory } => {
            let mut out: Vec<(String, Json)> = Vec::new();
            let ghost g0 = out@;
            out.push(("type".to_owned(), Json::Str(type_.clone())));
            proof {
                lemma_obj_view_push(g0, out@.last());
                assert(out@ == g0.push(out@.last()));
            }
            let ghost g1 = out@;
            out.push(("url".to_owned(), Json::Str(url.clone())));
            proof {
                lemma_obj_view_push(g1, out@.last());
                assert(out@ == g1.push(out@.last()));
                assert(obj_view(out@) =~= seq![
                    ("type"@, JsonV::Str(type_@)),
                    ("url"@, JsonV::Str(url@)),
                ]);
            }
            push_field(&mut out, "directory".to_owned(), json_of_opt_string(directory));
            proof {
                assert(obj_view(out@) == seq![
                    ("type"@, JsonV::Str(type_@)),
                    ("url"@, JsonV::Str(url@)),
                ] + seg("directory"@, se_str_opt(directory.deep_view())));
            }
            Json::Obj(out)
        },
    }
}

fn json_of_opt_repository(o: &Option<RepositoryField>) -> (r: Option<Json>)
    ensures
        r.deep_view() == se_repository_opt(o.deep_view()),
{
    match o {
        None => None,
        Some(x) => Some(repository_to_json(x)),
    }
}

/// The person field's tree.
fn person_to_json(p: &PackageJsonPerson) -> (j: Json)
    ensures
        j.deep_view() == se_person(p.deep_view()),
{
    match p {
        PackageJsonPerson::Str(s) => Json::Str(s.clone()),
        PackageJsonPerson::Object { name, email, url } => {
            let mut out: Vec<(String, Json)> = Vec::new();
            let ghost g0 = out@;
            out.push(("name".to_owned(), Json::Str(name.clone())));
            proof {
                lemma_obj_view_push(g0, out@.last());
                assert(out@ == g0.push(out@.last()));
                assert(obj_view(out@) =~= seq![("name"@, JsonV::Str(name@))]);
            }
            push_field(&mut out, "email".to_owned(), json_of_opt_string(email));
            push_field(&mut out, "url".to_owned(), json_of_opt_string(url));
            Json::Obj(out)
        },
    }
}

fn json_of_opt_person(o: &Option<PackageJsonPerson>) -> (r: Option<Json>)
    ensures
        r.deep_view() == se_person_opt(o.deep_view()),
{
    match o {
        None => None,
        Some(p) => Some(person_to_json(p)),
    }
}

/// A person list's array tree.
fn person_vec_to_json(v: &Vec<PackageJsonPerson>) -> (j: Json)
    ensures
        j.deep_view() == se_person_arr(v.deep_view()),
{
    let mut out: Vec<Json> = Vec::new();
    let n = v.len();
    for i in 0..n
        invariant
            n == v.len(),
            out@.len() == i,
            forall|l: int| 0 <= l < i ==> #[trigger] out@[l].deep_view() == se_person(
                v@[l].deep_view(),
            ),
    {
        out.push(person_to_json(&v[i]));
    }
    proof {
        lemma_arr_view(out@);
        let ghost target = Seq::new(v.deep_view().len(), |i: int| se_person(v.deep_view()[i]));
        assert forall|l: int| 0 <= l < out@.len() implies arr_view(out@)[l] == target[l] by {
            assert(arr_view(out@)[l] == out@[l].deep_view());
        }
        assert(arr_view(out@) =~= target);
    }
    Json::Arr(out)
}

fn json_of_opt_contributors(o: &Option<Vec<PackageJsonPerson>>) -> (r: Option<Json>)
    ensures
        r.deep_view() == se_contributors_opt(o.deep_view()),
{
    match o {
        None => None,
        Some(v) => Some(person_vec_to_json(v)),
    }
}

/// The executable-map field's tree.
fn bin_to_json(b: &BinField) -> (j: Json)
    ensures
        j.deep_view() == se_bin(b.deep_view()),
{
    match b {
        BinField::Str(s) => Json::Str(s.clone()),
        BinField::Record(m) => str_map_to_json(m),
    }
}

fn json_of_opt_bin(o: &Option<BinField>) -> (r: Option<Json>)
    ensures
        r.deep_view() == se_bin_opt(o.deep_view()),
{
    match o {
        None => None,
        Some(b) => Some(bin_to_json(b)),
    }
}

/// The manual-page field's tree.
fn man_to_json(m: &ManField) -> (j: Json)
    ensures
        j.deep_view() == se_man(m.deep_view()),
{
    match m {
        ManField::Str(s) => Json::Str(s.clone()),
        ManField::StringVec(v) => str_vec_to_json(v),
    }
}

fn json_of_opt_man(o: &Option<ManField>) -> (r: Option<Json>)
    ensures
        r.deep_view() == se_man_opt(o.deep_view()),
{
    match o {
        None => None,
        Some(m) => Some(man_to_json(m)),
    }
}

/// A conditional-export key's wire form.
fn rkey_to_string(k: &RecordKey) -> (r: String)
    ensures
        r@ == se_rkey(k.deep_view()),
{
    match k {
        RecordKey::Import => "import".to_owned(),
        RecordKey::Require => "require".to_owned(),
        RecordKey::Dot => ".".to_owned(),
        RecordKey::Node => "node".to_owned(),
        RecordKey::Browser => "browser".to_owned(),
        RecordKey::Str(s) => s.clone(),
    }
}

/// A nested conditional-export key's wire form.
fn rvkey_to_string(k: &RecordValueHashMapKey) -> (r: String)
    ensures
        r@ == se_rvkey(k.deep_view()),
{
    match k {
        RecordValueHashMapKey::Import => "import".to_owned(),
        RecordValueHashMapKey::Require => "require".to_owned(),
        RecordValueHashMapKey::Str(s) => s.clone(),
    }
}

/// A conditional-export value's tree.
fn rvalue_to_json(v: &RecordValue) -> (j: Json)
    ensures
        j.deep_view() == se_rvalue(v.deep_view()),
{
    match v {
        RecordValue::Str(s) => Json::Str(s.clone()),
        RecordValue::HashMap(m) => {
            let mut out: Vec<(String, Json)> = Vec::new();
            let n = m.len();
            for i in 0..n
                invariant
                    n == m.len(),
                    out@.len() == i,
                    forall|l: int| #![trigger out@[l]] 0 <= l < i ==> out@[l].0@ == se_rvkey(
                        m@[l].0.deep_view(),
                    ) && out@[l].1.deep_view() == JsonV::Str(m@[l].1@),
            {
                let k = rvkey_to_string(&m[i].0);
                out.push((k, Json::Str(m[i].1.clone())));
            }
            proof {
                lemma_obj_view(out@);
                let ghost target = Seq::new(
                    m.deep_view().len(),
                    |i: int| (se_rvkey(m.deep_view()[i].0), JsonV::Str(m.deep_view()[i].1)),
                );
                assert forall|l: int| 0 <= l < out@.len() implies obj_view(out@)[l] == target[l] by {
                    assert(obj_view(out@)[l] == (out@[l].0@, out@[l].1.deep_view()));
                }
                assert(obj_view(out@) =~= target);
            }
            Json::Obj(out)
        },
    }
}

/// The entry-points field's tree.
fn exports_to_json(e: &ExportsField) -> (j: Json)
    ensures
        j.deep_view() == se_exports(e.deep_view()),
{
    match e {
        ExportsField::Str(s) => Json::Str(s.clone()),
        ExportsField::Record(m) => {
            let mut out: Vec<(String, Json)> = Vec::new();
            let n = m.len();
            for i in 0..n
                invariant
                    n == m.len(),
                    out@.len() == i,
                    forall|l: int| #![trigger out@[l]] 0 <= l < i ==> out@[l].0@ == se_rkey(
                        m@[l].0.deep_view(),
                    ) && out@[l].1.deep_view() == se_rvalue(m@[l].1.deep_view()),
            {
                let k = rkey_to_string(&m[i].0);
                let v = rvalue_to_json(&m[i].1);
                out.push((k, v));
            }
            proof {
                lemma_obj_view(out@);
                let ghost target = Seq::new(
                    m.deep_view().len(),
                    |i: int| (se_rkey(m.deep_view()[i].0), se_rvalue(m.deep_view()[i].1)),
                );
                assert forall|l: int| 0 <= l < out@.len() implies obj_view(out@)[l] == target[l] by {
                    assert(obj_view(out@)[l] == (out@[l].0@, out@[l].1.deep_view()));
                }
                assert(obj_view(out@) =~= target);
            }
            Json::Obj(out)
        },
    }
}

fn json_of_opt_exports(o: &Option<ExportsField>) -> (r: Option<Json>)
    ensures
        r.deep_view() == se_exports_opt(o.deep_view()),
{
    match o {
        None => None,
        Some(e) => Some(exports_to_json(e)),
    }
}

/// The module-type field's tree.
fn type_to_json(t: &TypeEnum) -> (j: Json)
    ensures
        j.deep_view() == se_type(*t),
{
    match t {
        TypeEnum::Module => Json::Str("module".to_owned()),
        TypeEnum::Commonjs => Json::Str("commonjs".to_owned()),
    }
}

impl PackageJson {
    /// Encodes the manifest as a JSON tree: keys in declaration order,
    /// absent fields omitted, each polymorphic field in its variant's own
    /// shape, the module-type tag always present.
    #[verifier::rlimit(60)]
    pub fn to_json(&self) -> (j: Json)
        ensures
            j.deep_view() == spec_encode(self.deep_view()),
    {
        let mut fields: Vec<(String, Json)> = Vec::new();
        proof {
            assert(obj_view(fields@) =~= Seq::empty());
        }
        push_field(&mut fields, "name".to_owned(), json_of_opt_string(&self.name));
        proof {
            assert(Seq::empty() + seg("name"@, se_str_opt(self.name.deep_view())) =~= seg(
                "name"@,
                se_str_opt(self.name.deep_view()),
            ));
        }
        push_field(&mut fields, "version".to_owned(), json_of_opt_string(&self.version));
        push_field(&mut fields, "description".to_owned(), json_of_opt_string(&self.description));
        push_field(&mut fields, "keywords".to_owned(), json_of_opt_str_vec(&self.keywords));
        push_field(&mut fields, "homepage".to_owned(), json_of_opt_string(&self.homepage));
        push_field(&mut fields, "bugs".to_owned(), json_of_opt_bugs(&self.bugs));
        push_field(&mut fields, "license".to_owned(), json_of_opt_string(&self.license));
        push_field(&mut fields, "repository".to_owned(), json_of_opt_repository(&self.repository));
        push_field(&mut fields, "scripts".to_owned(), json_of_opt_str_map(&self.scripts));
        push_field(&mut fields, "private".to_owned(), json_of_opt_bool(&self.private));
        push_field(&mut fields, "author".to_owned(), json_of_opt_person(&self.author));
        push_field(
            &mut fields,
            "contributors".to_owned(),
            json_of_opt_contributors(&self.contributors),
        );
        push_field(&mut fields, "files".to_owned(), json_of_opt_str_vec(&self.files));
        push_field(&mut fields, "main".to_owned(), json_of_opt_string(&self.main));
        push_field(&mut fields, "browser".to_owned(), json_of_opt_string(&self.browser));
        push_field(&mut fields, "bin".to_owned(), json_of_opt_bin(&self.bin));
        push_field(&mut fields, "man".to_owned(), json_of_opt_man(&self.man));
        push_field(&mut fields, "dependencies".to_owned(), json_of_opt_str_map(&self.dependencies));
        push_field(
            &mut fields,
            "devDependencies".to_owned(),
            json_of_opt_str_map(&self.dev_dependencies),
        );
        push_field(
            &mut fields,
            "optionalDependencies".to_owned(),
            json_of_opt_str_map(&self.optional_dependencies),
        );
        push_field(
            &mut fields,
            "peerDependencies".to_owned(),
            json_of_opt_str_map(&self.peer_dependencies),
        );
        push_field(&mut fields, "types".to_owned(), json_of_opt_string(&self.types));
        push_field(&mut fields, "typings".to_owned(), json_of_opt_string(&self.typings));
        push_field(&mut fields, "module".to_owned(), json_of_opt_string(&self.module));
        push_field(&mut fields, "type".to_owned(), Some(type_to_json(&self.type_)));
        push_field(&mut fields, "exports".to_owned(), json_of_opt_exports(&self.exports));
        push_field(&mut fields, "workspaces".to_owned(), json_of_opt_str_vec(&self.workspaces));
        proof {
            assert(obj_view(fields@) == spec_encode_fields(self.deep_view()));
        }
        Json::Obj(fields)
    }

    /// Encodes the manifest as JSON text, through the tree of
    /// [`Self::to_json`].
    pub fn encode(&self) -> (r: String)
        ensures
            r@ == json_render(spec_encode(self.deep_view())),
    {
        let j = self.to_json();
        render_json(&j)
    }
}

} // verus!
