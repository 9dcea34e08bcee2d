//! The library's laws, stated over the specification models and proved
//! once for all values: decoding the empty object yields the default
//! manifest; encoding then decoding a manifest gives it back; a cached
//! key is never refreshed by later content.

use vstd::prelude::*;

use crate::cacher::spec_cache_get;
use crate::decode::{
    sd_bin, sd_bugs, sd_contributors, sd_exports, sd_man, sd_person, sd_repository, sd_rkey,
    sd_rvalue, sd_rvkey, sd_str_arr, sd_str_map, sd_f_bin, sd_f_bool, sd_f_bugs,
    sd_f_contributors, sd_f_exports, sd_f_man, sd_f_person, sd_f_repository, sd_f_str,
    sd_f_str_arr, sd_f_str_map, sd_type, spec_from_json, spec_from_obj, DecodeErrorV,
};
use crate::encode::{
    se_bin, se_bugs, se_contributors_opt, se_exports, se_man, se_person, se_person_arr,
    se_repository, se_rkey, se_rvalue, se_rvkey, se_str_arr, se_str_map, se_type, seg,
    spec_encode, spec_encode_fields,
};
use crate::field_enum::{
    BinV, BugsV, ExportsV, ManV, PersonV, RecordKeyV, RecordValueKeyV, RecordValueV, RepositoryV,
    TypeEnum,
};
use crate::json::{obj_get, JsonV};
use crate::package_json::{spec_default_manifest, ManifestV};

verus! {

/// Decoding the empty JSON object yields the all-absent manifest with the
/// default module type.
pub proof fn lemma_default_fill()
    ensures
        spec_from_json(JsonV::Obj(Seq::empty())) == Ok::<ManifestV, DecodeErrorV>(
            spec_default_manifest(),
        ),
{
    assert(spec_from_obj(Seq::empty()) == Ok::<ManifestV, DecodeErrorV>(spec_default_manifest()));
}

/// Once a key is cached, a second read-through for it returns the first
/// decoded value whatever content the file now holds: no invalidation.
pub proof fn lemma_cache_no_refresh(
    m0: Map<Seq<char>, ManifestV>,
    key: Seq<char>,
    c1: Seq<char>,
    c2: Seq<char>,
)
    requires
        spec_cache_get(m0, key, c1).1 is Ok,
    ensures
        spec_cache_get(spec_cache_get(m0, key, c1).0, key, c2).1 == spec_cache_get(m0, key, c1).1,
{
}

// ------------------------------------------------------------------
// Round trip: conditions and per-variant lemmas.
// ------------------------------------------------------------------

/// A subpath key round-trips only when it is not spelled like one of the
/// recognized tags (such a key decodes to the tag instead).
pub open spec fn rt_wf_rkey(k: RecordKeyV) -> bool {
    match k {
        RecordKeyV::Str(s) => s != "import"@ && s != "require"@ && s != "."@ && s != "node"@ && s
            != "browser"@,
        _ => true,
    }
}

/// The nested-key form of the same condition.
pub open spec fn rt_wf_rvkey(k: RecordValueKeyV) -> bool {
    match k {
        RecordValueKeyV::Str(s) => s != "import"@ && s != "require"@,
        _ => true,
    }
}

/// A conditional-export value round-trips when its nested keys do.
pub open spec fn rt_wf_rvalue(v: RecordValueV) -> bool {
    match v {
        RecordValueV::Str(_) => true,
        RecordValueV::HashMap(m) => forall|i: int|
            0 <= i < m.len() ==> rt_wf_rvkey(#[trigger] m[i].0),
    }
}

/// The entry-points field round-trips when all its keys do.
pub open spec fn rt_wf_exports(e: ExportsV) -> bool {
    match e {
        ExportsV::Str(_) => true,
        ExportsV::Record(m) => forall|i: int|
            0 <= i < m.len() ==> rt_wf_rkey(#[trigger] m[i].0) && rt_wf_rvalue(m[i].1),
    }
}

/// A manifest round-trips when its entry-points keys are not spelled like
/// the recognized tags; every other field round-trips unconditionally.
pub open spec fn rt_wf(m: ManifestV) -> bool {
    match m.exports {
        None => true,
        Some(e) => rt_wf_exports(e),
    }
}

proof fn lemma_rt_rkey(k: RecordKeyV)
    requires
        rt_wf_rkey(k),
    ensures
        sd_rkey(se_rkey(k)) == k,
{
    reveal_strlit("import");
    reveal_strlit("require");
    reveal_strlit(".");
    reveal_strlit("node");
    reveal_strlit("browser");
    assert(("import"@).len() == 6);
    assert(("require"@).len() == 7);
    assert(("."@).len() == 1);
    assert(("node"@).len() == 4);
    assert(("browser"@).len() == 7);
    assert(("require"@)[0] == 'r');
    assert(("browser"@)[0] == 'b');
}

proof fn lemma_rt_rvkey(k: RecordValueKeyV)
    requires
        rt_wf_rvkey(k),
    ensures
        sd_rvkey(se_rvkey(k)) == k,
{
    reveal_strlit("import");
    reveal_strlit("require");
    assert(("import"@).len() == 6);
    assert(("require"@).len() == 7);
}

proof fn lemma_rt_rvalue(v: RecordValueV)
    requires
        rt_wf_rvalue(v),
    ensures
        sd_rvalue(se_rvalue(v)) == Some(v),
{
    match v {
        RecordValueV::Str(_) => {},
        RecordValueV::HashMap(m) => {
            let f = Seq::new(m.len(), |i: int| (se_rvkey(m[i].0), JsonV::Str(m[i].1)));
            assert(forall|i: int| 0 <= i < f.len() ==> #[trigger] f[i].1 is Str);
            assert forall|i: int| 0 <= i < m.len() implies (
                sd_rvkey(#[trigger] f[i].0),
                f[i].1->Str_0,
            ) == m[i] by {
                lemma_rt_rvkey(m[i].0);
            }
            assert(Seq::new(f.len(), |i: int| (sd_rvkey(f[i].0), f[i].1->Str_0)) =~= m);
        },
    }
}

proof fn lemma_rt_exports(e: ExportsV)
    requires
        rt_wf_exports(e),
    ensures
        sd_exports(se_exports(e)) == Some(e),
{
    match e {
        ExportsV::Str(_) => {},
        ExportsV::Record(m) => {
            let f = Seq::new(m.len(), |i: int| (se_rkey(m[i].0), se_rvalue(m[i].1)));
            assert forall|i: int| 0 <= i < f.len() implies sd_rvalue(#[trigger] f[i].1)
                is Some by {
                lemma_rt_rvalue(m[i].1);
            }
            assert forall|i: int| 0 <= i < m.len() implies (
                sd_rkey(#[trigger] f[i].0),
                sd_rvalue(f[i].1).unwrap(),
            ) == m[i] by {
                lemma_rt_rkey(m[i].0);
                lemma_rt_rvalue(m[i].1);
            }
            assert(Seq::new(f.len(), |i: int| (sd_rkey(f[i].0), sd_rvalue(f[i].1).unwrap()))
                =~= m);
        },
    }
}

proof fn lemma_rt_bugs(b: BugsV)
    ensures
        sd_bugs(se_bugs(b)) == Some(b),
{
    match b {
        BugsV::Str(_) => {},
        BugsV::UrlAndEmail { url, email } => {
            reveal_strlit("url");
            reveal_strlit("email");
            assert(("url"@).len() == 3);
            assert(("email"@).len() == 5);
            let f = seq![("url"@, JsonV::Str(url)), ("email"@, JsonV::Str(email))];
            assert(f.drop_first() =~= seq![("email"@, JsonV::Str(email))]);
            assert(f.drop_first().drop_first() =~= Seq::<(Seq<char>, JsonV)>::empty());
            assert(obj_get(f, "url"@) == Some(JsonV::Str(url)));
            assert(obj_get(f.drop_first(), "email"@) == Some(JsonV::Str(email)));
            assert(obj_get(f, "email"@) == Some(JsonV::Str(email)));
        },
    }
}

proof fn lemma_rt_repository(x: RepositoryV)
    ensures
        sd_repository(se_repository(x)) == Some(x),
{
    match x {
        RepositoryV::Str(_) => {},
        RepositoryV::UrlAndType { type_, url, directory } => {
            reveal_strlit("type");
            reveal_strlit("url");
            reveal_strlit("directory");
            assert(("type"@).len() == 4);
            assert(("url"@).len() == 3);
            assert(("directory"@).len() == 9);
            let head = seq![("type"@, JsonV::Str(type_)), ("url"@, JsonV::Str(url))];
            let f = head + seg("directory"@, crate::encode::se_str_opt(directory));
            match directory {
                None => {
                    assert(f =~= head);
                    assert(f.drop_first() =~= seq![("url"@, JsonV::Str(url))]);
                    assert(f.drop_first().drop_first() =~= Seq::<(Seq<char>, JsonV)>::empty());
                    assert(obj_get(f, "type"@) == Some(JsonV::Str(type_)));
                    assert(obj_get(f.drop_first(), "url"@) == Some(JsonV::Str(url)));
                    assert(obj_get(f, "url"@) == Some(JsonV::Str(url)));
                    assert(obj_get(f.drop_first().drop_first(), "directory"@) is None);
                    assert(obj_get(f.drop_first(), "directory"@) is None);
                    assert(obj_get(f, "directory"@) is None);
                },
                Some(d) => {
                    assert(f =~= seq![
                        ("type"@, JsonV::Str(type_)),
                        ("url"@, JsonV::Str(url)),
                        ("directory"@, JsonV::Str(d)),
                    ]);
                    assert(f.drop_first() =~= seq![
                        ("url"@, JsonV::Str(url)),
                        ("directory"@, JsonV::Str(d)),
                    ]);
                    assert(f.drop_first().drop_first() =~= seq![("directory"@, JsonV::Str(d))]);
                    assert(f.drop_first().drop_first().drop_first() =~= Seq::<(
                        Seq<char>,
                        JsonV,
                    )>::empty());
                    assert(obj_get(f, "type"@) == Some(JsonV::Str(type_)));
                    assert(obj_get(f.drop_first(), "url"@) == Some(JsonV::Str(url)));
                    assert(obj_get(f, "url"@) == Some(JsonV::Str(url)));
                    assert(obj_get(f.drop_first().drop_first(), "directory"@) == Some(
                        JsonV::Str(d),
                    ));
                    assert(obj_get(f.drop_first(), "directory"@) == Some(JsonV::Str(d)));
                    assert(obj_get(f, "directory"@) == Some(JsonV::Str(d)));
                },
            }
        },
    }
}

proof fn lemma_rt_person(p: PersonV)
    ensures
        sd_person(se_person(p)) == Some(p),
{
    match p {
        PersonV::Str(_) => {},
        PersonV::Object { name, email, url } => {
            reveal_strlit("name");
            reveal_strlit("email");
            reveal_strlit("url");
            assert(("name"@).len() == 4);
            assert(("email"@).len() == 5);
            assert(("url"@).len() == 3);
            let f = seq![("name"@, JsonV::Str(name))] + seg(
                "email"@,
                crate::encode::se_str_opt(email),
            ) + seg("url"@, crate::encode::se_str_opt(url));
            match (email, url) {
                (None, None) => {
                    assert(f =~= seq![("name"@, JsonV::Str(name))]);
                    assert(f.drop_first() =~= Seq::<(Seq<char>, JsonV)>::empty());
                    assert(obj_get(f, "name"@) == Some(JsonV::Str(name)));
                    assert(obj_get(f.drop_first(), "email"@) is None);
                    assert(obj_get(f, "email"@) is None);
                    assert(obj_get(f.drop_first(), "url"@) is None);
                    assert(obj_get(f, "url"@) is None);
                },
                (Some(e), None) => {
                    assert(f =~= seq![("name"@, JsonV::Str(name)), ("email"@, JsonV::Str(e))]);
                    assert(f.drop_first() =~= seq![("email"@, JsonV::Str(e))]);
                    assert(f.drop_first().drop_first() =~= Seq::<(Seq<char>, JsonV)>::empty());
                    assert(obj_get(f, "name"@) == Some(JsonV::Str(name)));
                    assert(obj_get(f.drop_first(), "email"@) == Some(JsonV::Str(e)));
                    assert(obj_get(f, "email"@) == Some(JsonV::Str(e)));
                    assert(obj_get(f.drop_first().drop_first(), "url"@) is None);
                    assert(obj_get(f.drop_first(), "url"@) is None);
                    assert(obj_get(f, "url"@) is None);
                },
                (None, Some(u)) => {
                    assert(f =~= seq![("name"@, JsonV::Str(name)), ("url"@, JsonV::Str(u))]);
                    assert(f.drop_first() =~= seq![("url"@, JsonV::Str(u))]);
                    assert(f.drop_first().drop_first() =~= Seq::<(Seq<char>, JsonV)>::empty());
                    assert(obj_get(f, "name"@) == Some(JsonV::Str(name)));
                    assert(obj_get(f.drop_first(), "email"@) is None);
                    assert(obj_get(f, "email"@) is None);
                    assert(obj_get(f.drop_first(), "url"@) == Some(JsonV::Str(u)));
                    assert(obj_get(f, "url"@) == Some(JsonV::Str(u)));
                },
                (Some(e), Some(u)) => {
                    assert(f =~= seq![
                        ("name"@, JsonV::Str(name)),
                        ("email"@, JsonV::Str(e)),
                        ("url"@, JsonV::Str(u)),
                    ]);
                    assert(f.drop_first() =~= seq![
                        ("email"@, JsonV::Str(e)),
                        ("url"@, JsonV::Str(u)),
                    ]);
                    assert(f.drop_first().drop_first() =~= seq![("url"@, JsonV::Str(u))]);
                    assert(f.drop_first().drop_first().drop_first() =~= Seq::<(
                        Seq<char>,
                        JsonV,
                    )>::empty());
                    assert(obj_get(f, "name"@) == Some(JsonV::Str(name)));
                    assert(obj_get(f.drop_first(), "email"@) == Some(JsonV::Str(e)));
                    assert(obj_get(f, "email"@) == Some(JsonV::Str(e)));
                    assert(obj_get(f.drop_first().drop_first(), "url"@) == Some(JsonV::Str(u)));
                    assert(obj_get(f.drop_first(), "url"@) == Some(JsonV::Str(u)));
                    assert(obj_get(f, "url"@) == Some(JsonV::Str(u)));
                },
            }
        },
    }
}

proof fn lemma_rt_str_arr(v: Seq<Seq<char>>)
    ensures
        sd_str_arr(se_str_arr(v)) == Some(v),
{
    let a = Seq::new(v.len(), |i: int| JsonV::Str(v[i]));
    assert(forall|i: int| 0 <= i < a.len() ==> #[trigger] a[i] is Str);
    assert(Seq::new(a.len(), |i: int| a[i]->Str_0) =~= v);
}

proof fn lemma_rt_str_map(m: Seq<(Seq<char>, Seq<char>)>)
    ensures
        sd_str_map(se_str_map(m)) == Some(m),
{
    let o = Seq::new(m.len(), |i: int| (m[i].0, JsonV::Str(m[i].1)));
    assert(forall|i: int| 0 <= i < o.len() ==> #[trigger] o[i].1 is Str);
    assert(Seq::new(o.len(), |i: int| (o[i].0, o[i].1->Str_0)) =~= m);
}

proof fn lemma_rt_man(m: ManV)
    ensures
        sd_man(se_man(m)) == Some(m),
{
    match m {
        ManV::Str(_) => {},
        ManV::StringVec(v) => {
            lemma_rt_str_arr(v);
        },
    }
}

proof fn lemma_rt_bin(b: BinV)
    ensures
        sd_bin(se_bin(b)) == Some(b),
{
    match b {
        BinV::Str(_) => {},
        BinV::Record(m) => {
            lemma_rt_str_map(m);
        },
    }
}

proof fn lemma_rt_person_arr(v: Seq<PersonV>)
    ensures
        sd_contributors(se_person_arr(v)) == Some(v),
{
    let a = Seq::new(v.len(), |i: int| se_person(v[i]));
    assert forall|i: int| 0 <= i < a.len() implies sd_person(#[trigger] a[i]) is Some by {
        lemma_rt_person(v[i]);
    }
    assert forall|i: int| 0 <= i < a.len() implies sd_person(#[trigger] a[i]).unwrap()
        == v[i] by {
        lemma_rt_person(v[i]);
    }
    assert(Seq::new(a.len(), |i: int| sd_person(a[i]).unwrap()) =~= v);
}

proof fn lemma_rt_type(t: TypeEnum)
    ensures
        sd_type(Some(se_type(t))) == Ok::<TypeEnum, DecodeErrorV>(t),
{
    reveal_strlit("module");
    reveal_strlit("commonjs");
    assert(("module"@).len() == 6);
    assert(("commonjs"@).len() == 8);
}

/// Lookup distributes over concatenation of field lists.
broadcast proof fn lemma_obj_get_concat(
    a: Seq<(Seq<char>, JsonV)>,
    b: Seq<(Seq<char>, JsonV)>,
    k: Seq<char>,
)
    ensures
        #[trigger] obj_get(a + b, k) == if obj_get(a, k) is Some {
            obj_get(a, k)
        } else {
            obj_get(b, k)
        },
    decreases a.len(),
{
    if a.len() == 0 {
        assert(a + b =~= b);
    } else {
        assert((a + b)[0] == a[0]);
        assert((a + b).drop_first() =~= a.drop_first() + b);
        lemma_obj_get_concat(a.drop_first(), b, k);
    }
}

/// Lookup in a single field's contribution.
broadcast proof fn lemma_obj_get_seg(k1: Seq<char>, o: Option<JsonV>, k: Seq<char>)
    ensures
        #[trigger] obj_get(seg(k1, o), k) == if k1 == k {
            o
        } else {
            None::<JsonV>
        },
{
    if o is Some {
        let j = o.unwrap();
        assert(seg(k1, o) =~= seq![(k1, j)]);
        assert(seq![(k1, j)].drop_first() =~= Seq::<(Seq<char>, JsonV)>::empty());
        assert(obj_get(Seq::<(Seq<char>, JsonV)>::empty(), k) is None);
        assert(obj_get(seq![(k1, j)].drop_first(), k) is None);
        assert(obj_get(seg(k1, o), k) == (if k1 == k {
            o
        } else {
            None::<JsonV>
        }));
    } else {
        assert(seg(k1, o) =~= Seq::<(Seq<char>, JsonV)>::empty());
        assert(obj_get(seg(k1, o), k) is None);
        assert(obj_get(seg(k1, o), k) == (if k1 == k {
            o
        } else {
            None::<JsonV>
        }));
    }
}

/// Round trip: decoding an encoded manifest gives the manifest back,
/// field for field — absent fields stay absent, variant tags are kept.
/// The one condition: an entry-points subpath key spelled exactly like a
/// recognized tag (such as `"import"`) decodes to the tag, so such keys
/// are left out.
#[verifier::rlimit(100)]
pub proof fn lemma_round_trip(m: ManifestV)
    requires
        rt_wf(m),
    ensures
        spec_from_json(spec_encode(m)) == Ok::<ManifestV, DecodeErrorV>(m),
{
    broadcast use lemma_obj_get_concat, lemma_obj_get_seg;

    reveal_strlit("name");
    reveal_strlit("version");
    reveal_strlit("description");
    reveal_strlit("keywords");
    reveal_strlit("homepage");
    reveal_strlit("bugs");
    reveal_strlit("license");
    reveal_strlit("repository");
    reveal_strlit("scripts");
    reveal_strlit("private");
    reveal_strlit("author");
    reveal_strlit("contributors");
    reveal_strlit("files");
    reveal_strlit("main");
    reveal_strlit("browser");
    reveal_strlit("bin");
    reveal_strlit("man");
    reveal_strlit("dependencies");
    reveal_strlit("devDependencies");
    reveal_strlit("optionalDependencies");
    reveal_strlit("peerDependencies");
    reveal_strlit("types");
    reveal_strlit("typings");
    reveal_strlit("module");
    reveal_strlit("type");
    reveal_strlit("exports");
    reveal_strlit("workspaces");
    assert(("name"@).len() == 4);
    assert(("version"@).len() == 7);
    assert(("description"@).len() == 11);
    assert(("keywords"@).len() == 8);
    assert(("homepage"@).len() == 8);
    assert(("bugs"@).len() == 4);
    assert(("license"@).len() == 7);
    assert(("repository"@).len() == 10);
    assert(("scripts"@).len() == 7);
    assert(("private"@).len() == 7);
    assert(("author"@).len() == 6);
    assert(("contributors"@).len() == 12);
    assert(("files"@).len() == 5);
    assert(("main"@).len() == 4);
    assert(("browser"@).len() == 7);
    assert(("bin"@).len() == 3);
    assert(("man"@).len() == 3);
    assert(("dependencies"@).len() == 12);
    assert(("devDependencies"@).len() == 15);
    assert(("optionalDependencies"@).len() == 20);
    assert(("peerDependencies"@).len() == 16);
    assert(("types"@).len() == 5);
    assert(("typings"@).len() == 7);
    assert(("module"@).len() == 6);
    assert(("type"@).len() == 4);
    assert(("exports"@).len() == 7);
    assert(("workspaces"@).len() == 10);
    assert(("bin"@)[0] == 'b');
    assert(("man"@)[0] == 'm');
    assert(("name"@)[0] == 'n');
    assert(("bugs"@)[0] == 'b');
    assert(("main"@)[0] == 'm');
    assert(("type"@)[0] == 't');
    assert(("files"@)[0] == 'f');
    assert(("types"@)[0] == 't');
    assert(("author"@)[0] == 'a');
    assert(("module"@)[0] == 'm');
    assert(("version"@)[0] == 'v');
    assert(("license"@)[0] == 'l');
    assert(("scripts"@)[0] == 's');
    assert(("private"@)[0] == 'p');
    assert(("browser"@)[0] == 'b');
    assert(("typings"@)[0] == 't');
    assert(("exports"@)[0] == 'e');
    assert(("keywords"@)[0] == 'k');
    assert(("homepage"@)[0] == 'h');
    assert(("repository"@)[0] == 'r');
    assert(("workspaces"@)[0] == 'w');
    assert(("contributors"@)[0] == 'c');
    assert(("dependencies"@)[0] == 'd');

    let f = spec_encode_fields(m);
    assert(obj_get(f, "name"@) == crate::encode::se_str_opt(m.name));
    assert(obj_get(f, "version"@) == crate::encode::se_str_opt(m.version));
    assert(obj_get(f, "description"@) == crate::encode::se_str_opt(m.description));
    assert(obj_get(f, "keywords"@) == crate::encode::se_str_arr_opt(m.keywords));
    assert(obj_get(f, "homepage"@) == crate::encode::se_str_opt(m.homepage));
    assert(obj_get(f, "bugs"@) == crate::encode::se_bugs_opt(m.bugs));
    assert(obj_get(f, "license"@) == crate::encode::se_str_opt(m.license));
    assert(obj_get(f, "repository"@) == crate::encode::se_repository_opt(m.repository));
    assert(obj_get(f, "scripts"@) == crate::encode::se_str_map_opt(m.scripts));
    assert(obj_get(f, "private"@) == crate::encode::se_bool_opt(m.private));
    assert(obj_get(f, "author"@) == crate::encode::se_person_opt(m.author));
    assert(obj_get(f, "contributors"@) == se_contributors_opt(m.contributors));
    assert(obj_get(f, "files"@) == crate::encode::se_str_arr_opt(m.files));
    assert(obj_get(f, "main"@) == crate::encode::se_str_opt(m.main));
    assert(obj_get(f, "browser"@) == crate::encode::se_str_opt(m.browser));
    assert(obj_get(f, "bin"@) == crate::encode::se_bin_opt(m.bin));
    assert(obj_get(f, "man"@) == crate::encode::se_man_opt(m.man));
    assert(obj_get(f, "dependencies"@) == crate::encode::se_str_map_opt(m.dependencies));
    assert(obj_get(f, "devDependencies"@) == crate::encode::se_str_map_opt(m.dev_dependencies));
    assert(obj_get(f, "optionalDependencies"@) == crate::encode::se_str_map_opt(
        m.optional_dependencies,
    ));
    assert(obj_get(f, "peerDependencies"@) == crate::encode::se_str_map_opt(m.peer_dependencies));
    assert(obj_get(f, "types"@) == crate::encode::se_str_opt(m.types));
    assert(obj_get(f, "typings"@) == crate::encode::se_str_opt(m.typings));
    assert(obj_get(f, "module"@) == crate::encode::se_str_opt(m.module));
    assert(obj_get(f, "type"@) == Some(se_type(m.type_)));
    assert(obj_get(f, "exports"@) == crate::encode::se_exports_opt(m.exports));
    assert(obj_get(f, "workspaces"@) == crate::encode::se_str_arr_opt(m.workspaces));

    if m.keywords is Some {
        lemma_rt_str_arr(m.keywords.unwrap());
    }
    if m.bugs is Some {
        lemma_rt_bugs(m.bugs.unwrap());
    }
    if m.repository is Some {
        lemma_rt_repository(m.repository.unwrap());
    }
    if m.scripts is Some {
        lemma_rt_str_map(m.scripts.unwrap());
    }
    if m.author is Some {
        lemma_rt_person(m.author.unwrap());
    }
    if m.contributors is Some {
        lemma_rt_person_arr(m.contributors.unwrap());
    }
    if m.files is Some {
        lemma_rt_str_arr(m.files.unwrap());
    }
    if m.bin is Some {
        lemma_rt_bin(m.bin.unwrap());
    }
    if m.man is Some {
        lemma_rt_man(m.man.unwrap());
    }
    if m.dependencies is Some {
        lemma_rt_str_map(m.dependencies.unwrap());
    }
    if m.dev_dependencies is Some {
        lemma_rt_str_map(m.dev_dependencies.unwrap());
    }
    if m.optional_dependencies is Some {
        lemma_rt_str_map(m.optional_dependencies.unwrap());
    }
    if m.peer_dependencies is Some {
        lemma_rt_str_map(m.peer_dependencies.unwrap());
    }
    lemma_rt_type(m.type_);
    if m.exports is Some {
        lemma_rt_exports(m.exports.unwrap());
    }
    if m.workspaces is Some {
        lemma_rt_str_arr(m.workspaces.unwrap());
    }

    assert(sd_f_str(obj_get(f, "name"@)) == Some(m.name));
    assert(sd_f_str(obj_get(f, "version"@)) == Some(m.version));
    assert(sd_f_str(obj_get(f, "description"@)) == Some(m.description));
    assert(sd_f_str_arr(obj_get(f, "keywords"@)) == Some(m.keywords));
    assert(sd_f_str(obj_get(f, "homepage"@)) == Some(m.homepage));
    assert(sd_f_bugs(obj_get(f, "bugs"@)) == Some(m.bugs));
    assert(sd_f_str(obj_get(f, "license"@)) == Some(m.license));
    assert(sd_f_repository(obj_get(f, "repository"@)) == Some(m.repository));
    assert(sd_f_str_map(obj_get(f, "scripts"@)) == Some(m.scripts));
    assert(sd_f_bool(obj_get(f, "private"@)) == Some(m.private));
    assert(sd_f_person(obj_get(f, "author"@)) == Some(m.author));
    assert(sd_f_contributors(obj_get(f, "contributors"@)) == Some(m.contributors));
    assert(sd_f_str_arr(obj_get(f, "files"@)) == Some(m.files));
    assert(sd_f_str(obj_get(f, "main"@)) == Some(m.main));
    assert(sd_f_str(obj_get(f, "browser"@)) == Some(m.browser));
    assert(sd_f_bin(obj_get(f, "bin"@)) == Some(m.bin));
    assert(sd_f_man(obj_get(f, "man"@)) == Some(m.man));
    assert(sd_f_str_map(obj_get(f, "dependencies"@)) == Some(m.dependencies));
    assert(sd_f_str_map(obj_get(f, "devDependencies"@)) == Some(m.dev_dependencies));
    assert(sd_f_str_map(obj_get(f, "optionalDependencies"@)) == Some(m.optional_dependencies));
    assert(sd_f_str_map(obj_get(f, "peerDependencies"@)) == Some(m.peer_dependencies));
    assert(sd_f_str(obj_get(f, "types"@)) == Some(m.types));
    assert(sd_f_str(obj_get(f, "typings"@)) == Some(m.typings));
    assert(sd_f_str(obj_get(f, "module"@)) == Some(m.module));
    assert(sd_type(obj_get(f, "type"@)) == Ok::<TypeEnum, DecodeErrorV>(m.type_));
    assert(sd_f_exports(obj_get(f, "exports"@)) == Some(m.exports));
    assert(sd_f_str_arr(obj_get(f, "workspaces"@)) == Some(m.workspaces));

    assert(spec_from_obj(f) == Ok::<ManifestV, DecodeErrorV>(m));
}

} // verus!
