//! A path-keyed read-through cache of decoded manifests. Keys are compared
//! as exact text (no canonicalization: two spellings of one file are two
//! keys — a documented limitation, not corrected here). An entry, once
//! stored, is never invalidated or refreshed within the cache's lifetime;
//! callers always receive independent deep copies, never references into
//! the store. A failed read-through returns the decode error instead of
//! aborting; the store is then left unchanged.

use vstd::prelude::*;

use crate::decode::{spec_decode_text, DecodeError, DecodeErrorV};
use crate::package_json::{ManifestV, PackageJson};

verus! {

/// A lookup-keyed store of previously decoded values.
pub struct Cacher<T> {
    value: Vec<(String, T)>,
}

/// The mathematical content of the store: a map from key text to manifest
/// model, the earliest entry of a key winning.
pub open spec fn entries_model(s: Seq<(String, PackageJson)>) -> Map<Seq<char>, ManifestV>
    decreases s.len(),
{
    if s.len() == 0 {
        Map::empty()
    } else {
        entries_model(s.drop_first()).insert(s[0].0@, s[0].1.deep_view())
    }
}

/// The model of a decode-or-fetch result.
pub open spec fn res_view(r: Result<PackageJson, DecodeError>) -> Result<ManifestV, DecodeErrorV> {
    match r {
        Ok(m) => Ok(m.deep_view()),
        Err(e) => Err(e.deep_view()),
    }
}

/// One read-through step: a hit returns the stored model and changes
/// nothing — whatever the supplied content now says; a miss decodes the
/// content, stores the result on success, and leaves the store unchanged
/// on failure.
pub open spec fn spec_cache_get(
    m: Map<Seq<char>, ManifestV>,
    key: Seq<char>,
    content: Seq<char>,
) -> (Map<Seq<char>, ManifestV>, Result<ManifestV, DecodeErrorV>) {
    if m.contains_key(key) {
        (m, Ok(m[key]))
    } else {
        match spec_decode_text(content) {
            Ok(v) => (m.insert(key, v), Ok(v)),
            Err(e) => (m, Err(e)),
        }
    }
}

/// The store maps `k` exactly when some entry holds it.
proof fn lemma_model_contains(s: Seq<(String, PackageJson)>, k: Seq<char>)
    ensures
        entries_model(s).contains_key(k) <==> (exists|j: int|
            0 <= j < s.len() && (#[trigger] s[j].0@) == k),
    decreases s.len(),
{
    if s.len() > 0 {
        let rest = s.drop_first();
        lemma_model_contains(rest, k);
        if s[0].0@ == k {
            assert(entries_model(s).contains_key(k));
        } else {
            assert forall|j: int| 0 <= j < rest.len() && (#[trigger] rest[j].0@) == k implies (
            s[j + 1].0@) == k by {
                assert(rest[j] == s[j + 1]);
            }
            assert forall|j: int| 1 <= j < s.len() && (#[trigger] s[j].0@) == k implies (rest[j
                - 1].0@) == k by {
                assert(rest[j - 1] == s[j]);
            }
        }
    }
}

/// The earliest entry holding `k` gives the store's value at `k`.
proof fn lemma_model_first(s: Seq<(String, PackageJson)>, k: Seq<char>, j: int)
    requires
        0 <= j < s.len(),
        s[j].0@ == k,
        forall|l: int| 0 <= l < j ==> s[l].0@ != k,
    ensures
        entries_model(s).contains_key(k),
        entries_model(s)[k] == s[j].1.deep_view(),
    decreases s.len(),
{
    let rest = s.drop_first();
    if j == 0 {
        assert(entries_model(s)[k] == s[0].1.deep_view());
    } else {
        assert(rest[j - 1] == s[j]);
        assert forall|l: int| 0 <= l < j - 1 implies rest[l].0@ != k by {
            assert(rest[l] == s[l + 1]);
        }
        lemma_model_first(rest, k, j - 1);
        assert(s[0].0@ != k);
    }
}

impl Cacher<PackageJson> {
    /// The store's mathematical content.
    pub closed spec fn model(&self) -> Map<Seq<char>, ManifestV> {
        entries_model(self.value@)
    }

    /// An empty cache.
    pub fn new() -> (c: Self)
        ensures
            c.model() == Map::<Seq<char>, ManifestV>::empty(),
    {
        Cacher { value: Vec::new() }
    }

    /// Index of the earliest entry holding `key`, if any.
    fn find(&self, key: &String) -> (r: Option<usize>)
        ensures
            match r {
                Some(i) => i < self.value@.len() && self.value@[i as int].0@ == key@ && (forall|
                    l: int,
                |
                    0 <= l < i ==> self.value@[l].0@ != key@),
                None => forall|l: int| 0 <= l < self.value@.len() ==> self.value@[l].0@ != key@,
            },
    {
        let n = self.value.len();
        for i in 0..n
            invariant
                n == self.value@.len(),
                forall|l: int| 0 <= l < i ==> self.value@[l].0@ != key@,
        {
            if self.value[i].0 == *key {
                return Some(i);
            }
        }
        None
    }

    /// Stores a copy of `value` under `key`, shadowing any earlier entry.
    pub fn set(&mut self, key: String, value: &PackageJson)
        ensures
            final(self).model() == old(self).model().insert(key@, value.deep_view()),
    {
        let ghost old_entries = self.value@;
        let v = value.clone();
        self.value.insert(0, (key, v));
        proof {
            assert(self.value@.drop_first() =~= old_entries);
        }
    }

    /// The read-through lookup: on a hit, an independent copy of the stored
    /// manifest — the supplied content is ignored, the store unchanged; on
    /// a miss, `content` is decoded, the result stored and a copy returned,
    /// or the decode error returned with the store unchanged.
    pub fn get(&mut self, key: &String, content: &str) -> (r: Result<PackageJson, DecodeError>)
        ensures
            final(self).model() == spec_cache_get(old(self).model(), key@, content@).0,
            res_view(r) == spec_cache_get(old(self).model(), key@, content@).1,
    {
        match self.find(key) {
            Some(i) => {
                proof {
                    lemma_model_first(self.value@, key@, i as int);
                }
                Ok(self.value[i].1.clone())
            },
            None => {
                proof {
                    lemma_model_contains(self.value@, key@);
                }
                match PackageJson::decode(content) {
                    Ok(m) => {
                        self.set(key.clone(), &m);
                        Ok(m)
                    },
                    Err(e) => Err(e),
                }
            },
        }
    }
}

} // verus!
