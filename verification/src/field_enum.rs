//! The polymorphic manifest fields: each is one logical concept with more
//! than one legal JSON shape, modelled as an explicit tagged sum type, with
//! a ghost model (`...V`) for contracts.

use vstd::prelude::*;

verus! {

/// The module-type indicator: the only manifest field with a default value.
#[derive(Debug, Clone, Copy, PartialEq, Eq, Structural)]
pub enum TypeEnum {
    Module,
    Commonjs,
}

impl Default for TypeEnum {
    /// The module-type tag assumed when a manifest does not name one.
    fn default() -> (r: Self)
        ensures
            r == TypeEnum::Commonjs,
    {
        TypeEnum::Commonjs
    }
}

/// Issue tracker: a URL, or a URL together with an email address.
#[derive(Debug, PartialEq)]
pub enum BugsField {
    Str(String),
    UrlAndEmail { url: String, email: String },
}

/// Ghost model of [`BugsField`].
pub enum BugsV {
    Str(Seq<char>),
    UrlAndEmail { url: Seq<char>, email: Seq<char> },
}

/// Source location: a shorthand reference, or a type tag with a URL and an
/// optional subdirectory.
#[derive(Debug, PartialEq)]
pub enum RepositoryField {
    Str(String),
    UrlAndType { type_: String, url: String, directory: Option<String> },
}

/// Ghost model of [`RepositoryField`].
pub enum RepositoryV {
    Str(Seq<char>),
    UrlAndType { type_: Seq<char>, url: Seq<char>, directory: Option<Seq<char>> },
}

/// Executables: one binary, or a mapping from command name to file path.
#[derive(Debug, PartialEq)]
pub enum BinField {
    Str(String),
    Record(Vec<(String, String)>),
}

/// Ghost model of [`BinField`].
pub enum BinV {
    Str(Seq<char>),
    Record(Seq<(Seq<char>, Seq<char>)>),
}

/// Manual pages: one file, or an ordered list of files.
#[derive(Debug, PartialEq)]
pub enum ManField {
    Str(String),
    StringVec(Vec<String>),
}

/// Ghost model of [`ManField`].
pub enum ManV {
    Str(Seq<char>),
    StringVec(Seq<Seq<char>>),
}

/// A person: free text, or a required name with optional email and URL.
#[derive(Debug, PartialEq)]
pub enum PackageJsonPerson {
    Str(String),
    Object { name: String, email: Option<String>, url: Option<String> },
}

/// Ghost model of [`PackageJsonPerson`].
pub enum PersonV {
    Str(Seq<char>),
    Object { name: Seq<char>, email: Option<Seq<char>>, url: Option<Seq<char>> },
}

/// Entry points: one universal entry point, or a mapping from conditional
/// export keys to values.
#[derive(Debug, PartialEq)]
pub enum ExportsField {
    Str(String),
    Record(Vec<(RecordKey, RecordValue)>),
}

/// Ghost model of [`ExportsField`].
pub enum ExportsV {
    Str(Seq<char>),
    Record(Seq<(RecordKeyV, RecordValueV)>),
}

/// A conditional export key: one of the recognized tags, or an arbitrary
/// subpath.
#[derive(Debug, PartialEq)]
pub enum RecordKey {
    Import,
    Require,
    Dot,
    Node,
    Browser,
    Str(String),
}

/// Ghost model of [`RecordKey`].
pub enum RecordKeyV {
    Import,
    Require,
    Dot,
    Node,
    Browser,
    Str(Seq<char>),
}

/// A conditional export value: a path, or a further mapping from a smaller
/// key set to paths.
#[derive(Debug, PartialEq)]
pub enum RecordValue {
    Str(String),
    HashMap(Vec<(RecordValueHashMapKey, String)>),
}

/// Ghost model of [`RecordValue`].
pub enum RecordValueV {
    Str(Seq<char>),
    HashMap(Seq<(RecordValueKeyV, Seq<char>)>),
}

/// The key of a nested conditional export mapping.
#[derive(Debug, PartialEq)]
pub enum RecordValueHashMapKey {
    Import,
    Require,
    Str(String),
}

/// Ghost model of [`RecordValueHashMapKey`].
pub enum RecordValueKeyV {
    Import,
    Require,
    Str(Seq<char>),
}

impl DeepView for TypeEnum {
    type V = TypeEnum;

    open spec fn deep_view(&self) -> TypeEnum {
        *self
    }
}

impl DeepView for BugsField {
    type V = BugsV;

    open spec fn deep_view(&self) -> BugsV {
        match self {
            BugsField::Str(s) => BugsV::Str(s@),
            BugsField::UrlAndEmail { url, email } => BugsV::UrlAndEmail {
                url: url@,
                email: email@,
            },
        }
    }
}

impl DeepView for RepositoryField {
    type V = RepositoryV;

    open spec fn deep_view(&self) -> RepositoryV {
        match self {
            RepositoryField::Str(s) => RepositoryV::Str(s@),
            RepositoryField::UrlAndType { type_, url, directory } => RepositoryV::UrlAndType {
                type_: type_@,
                url: url@,
                directory: directory.deep_view(),
            },
        }
    }
}

impl DeepView for BinField {
    type V = BinV;

    open spec fn deep_view(&self) -> BinV {
        match self {
            BinField::Str(s) => BinV::Str(s@),
            BinField::Record(v) => BinV::Record(v.deep_view()),
        }
    }
}

impl DeepView for ManField {
    type V = ManV;

    open spec fn deep_view(&self) -> ManV {
        match self {
            ManField::Str(s) => ManV::Str(s@),
            ManField::StringVec(v) => ManV::StringVec(v.deep_view()),
        }
    }
}

impl DeepView for PackageJsonPerson {
    type V = PersonV;

    open spec fn deep_view(&self) -> PersonV {
        match self {
            PackageJsonPerson::Str(s) => PersonV::Str(s@),
            PackageJsonPerson::Object { name, email, url } => PersonV::Object {
                name: name@,
                email: email.deep_view(),
                url: url.deep_view(),
            },
        }
    }
}

impl DeepView for RecordKey {
    type V = RecordKeyV;

    open spec fn deep_view(&self) -> RecordKeyV {
        match self {
            RecordKey::Import => RecordKeyV::Import,
            RecordKey::Require => RecordKeyV::Require,
            RecordKey::Dot => RecordKeyV::Dot,
            RecordKey::Node => RecordKeyV::Node,
            RecordKey::Browser => RecordKeyV::Browser,
            RecordKey::Str(s) => RecordKeyV::Str(s@),
        }
    }
}

impl DeepView for RecordValueHashMapKey {
    type V = RecordValueKeyV;

    open spec fn deep_view(&self) -> RecordValueKeyV {
        match self {
            RecordValueHashMapKey::Import => RecordValueKeyV::Import,
            RecordValueHashMapKey::Require => RecordValueKeyV::Require,
            RecordValueHashMapKey::Str(s) => RecordValueKeyV::Str(s@),
        }
    }
}

impl DeepView for RecordValue {
    type V = RecordValueV;

    open spec fn deep_view(&self) -> RecordValueV {
        match self {
            RecordValue::Str(s) => RecordValueV::Str(s@),
            RecordValue::HashMap(v) => RecordValueV::HashMap(v.deep_view()),
        }
    }
}

impl DeepView for ExportsField {
    type V = ExportsV;

    open spec fn deep_view(&self) -> ExportsV {
        match self {
            ExportsField::Str(s) => ExportsV::Str(s@),
            ExportsField::Record(v) => ExportsV::Record(v.deep_view()),
        }
    }
}

/// Copy of an optional string, preserving its model.
pub fn clone_opt_string(o: &Option<String>) -> (r: Option<String>)
    ensures
        r.deep_view() == o.deep_view(),
{
    match o {
        Some(s) => Some(s.clone()),
        None => None,
    }
}

/// Copy of a string list, preserving its model.
pub fn clone_string_vec(v: &Vec<String>) -> (r: Vec<String>)
    ensures
        r.deep_view() == v.deep_view(),
{
    let mut out: Vec<String> = Vec::new();
    let n = v.len();
    for i in 0..n
        invariant
            n == v.len(),
            out@.len() == i,
            forall|l: int| 0 <= l < i ==> #[trigger] out@[l]@ == v@[l]@,
    {
        out.push(v[i].clone());
    }
    proof {
        assert(out.deep_view() =~= v.deep_view());
    }
    out
}

/// Copy of an optional string list, preserving its model.
pub fn clone_opt_string_vec(o: &Option<Vec<String>>) -> (r: Option<Vec<String>>)
    ensures
        r.deep_view() == o.deep_view(),
{
    match o {
        Some(v) => Some(clone_string_vec(v)),
        None => None,
    }
}

/// Copy of a string-to-string record, preserving its model.
pub fn clone_str_map(v: &Vec<(String, String)>) -> (r: Vec<(String, String)>)
    ensures
        r.deep_view() == v.deep_view(),
{
    let mut out: Vec<(String, String)> = Vec::new();
    let n = v.len();
    for i in 0..n
        invariant
            n == v.len(),
            out@.len() == i,
            forall|l: int| 0 <= l < i ==> #[trigger] out@[l].deep_view() == v@[l].deep_view(),
    {
        out.push((v[i].0.clone(), v[i].1.clone()));
    }
    proof {
        assert(out.deep_view() =~= v.deep_view());
    }
    out
}

/// Copy of an optional string-to-string record, preserving its model.
pub fn clone_opt_str_map(o: &Option<Vec<(String, String)>>) -> (r: Option<Vec<(String, String)>>)
    ensures
        r.deep_view() == o.deep_view(),
{
    match o {
        Some(v) => Some(clone_str_map(v)),
        None => None,
    }
}

impl Clone for BugsField {
    /// An independent copy with the same model.
    fn clone(&self) -> (res: Self)
        ensures
            res.deep_view() == self.deep_view(),
    {
        match self {
            BugsField::Str(s) => BugsField::Str(s.clone()),
            BugsField::UrlAndEmail { url, email } => BugsField::UrlAndEmail {
                url: url.clone(),
                email: email.clone(),
            },
        }
    }
}

impl Clone for RepositoryField {
    /// An independent copy with the same model.
    fn clone(&self) -> (res: Self)
        ensures
            res.deep_view() == self.deep_view(),
    {
        match self {
            RepositoryField::Str(s) => RepositoryField::Str(s.clone()),
            RepositoryField::UrlAndType { type_, url, directory } => RepositoryField::UrlAndType {
                type_: type_.clone(),
                url: url.clone(),
                directory: clone_opt_string(directory),
            },
        }
    }
}

impl Clone for BinField {
    /// An independent copy with the same model.
    fn clone(&self) -> (res: Self)
        ensures
            res.deep_view() == self.deep_view(),
    {
        match self {
            BinField::Str(s) => BinField::Str(s.clone()),
            BinField::Record(v) => BinField::Record(clone_str_map(v)),
        }
    }
}

impl Clone for ManField {
    /// An independent copy with the same model.
    fn clone(&self) -> (res: Self)
        ensures
            res.deep_view() == self.deep_view(),
    {
        match self {
            ManField::Str(s) => ManField::Str(s.clone()),
            ManField::StringVec(v) => ManField::StringVec(clone_string_vec(v)),
        }
    }
}

impl Clone for PackageJsonPerson {
    /// An independent copy with the same model.
    fn clone(&self) -> (res: Self)
        ensures
            res.deep_view() == self.deep_view(),
    {
        match self {
            PackageJsonPerson::Str(s) => PackageJsonPerson::Str(s.clone()),
            PackageJsonPerson::Object { name, email, url } => PackageJsonPerson::Object {
                name: name.clone(),
                email: clone_opt_string(email),
                url: clone_opt_string(url),
            },
        }
    }
}

/// Copy of a person list, preserving its model.
pub fn clone_person_vec(v: &Vec<PackageJsonPerson>) -> (r: Vec<PackageJsonPerson>)
    ensures
        r.deep_view() == v.deep_view(),
{
    let mut out: Vec<PackageJsonPerson> = Vec::new();
    let n = v.len();
    for i in 0..n
        invariant
            n == v.len(),
            out@.len() == i,
            forall|l: int| 0 <= l < i ==> #[trigger] out@[l].deep_view() == v@[l].deep_view(),
    {
        out.push(v[i].clone());
    }
    proof {
        assert(out.deep_view() =~= v.deep_view());
    }
    out
}

impl Clone for RecordKey {
    /// An independent copy with the same model.
    fn clone(&self) -> (res: Self)
        ensures
            res.deep_view() == self.deep_view(),
    {
        match self {
            RecordKey::Import => RecordKey::Import,
            RecordKey::Require => RecordKey::Require,
            RecordKey::Dot => RecordKey::Dot,
            RecordKey::Node => RecordKey::Node,
            RecordKey::Browser => RecordKey::Browser,
            RecordKey::Str(s) => RecordKey::Str(s.clone()),
        }
    }
}

impl Clone for RecordValueHashMapKey {
    /// An independent copy with the same model.
    fn clone(&self) -> (res: Self)
        ensures
            res.deep_view() == self.deep_view(),
    {
        match self {
            RecordValueHashMapKey::Import => RecordValueHashMapKey::Import,
            RecordValueHashMapKey::Require => RecordValueHashMapKey::Require,
            RecordValueHashMapKey::Str(s) => RecordValueHashMapKey::Str(s.clone()),
        }
    }
}

impl Clone for RecordValue {
    /// An independent copy with the same model.
    fn clone(&self) -> (res: Self)
        ensures
            res.deep_view() == self.deep_view(),
    {
        match self {
            RecordValue::Str(s) => RecordValue::Str(s.clone()),
            RecordValue::HashMap(v) => {
                let mut out: Vec<(RecordValueHashMapKey, String)> = Vec::new();
                let n = v.len();
                for i in 0..n
                    invariant
                        n == v.len(),
                        out@.len() == i,
                        forall|l: int| 0 <= l < i ==> #[trigger] out@[l].deep_view()
                            == v@[l].deep_view(),
                {
                    out.push((v[i].0.clone(), v[i].1.clone()));
                }
                proof {
                    assert(out.deep_view() =~= v.deep_view());
                }
                RecordValue::HashMap(out)
            },
        }
    }
}

impl Clone for ExportsField {
    /// An independent copy with the same model.
    fn clone(&self) -> (res: Self)
        ensures
            res.deep_view() == self.deep_view(),
    {
        match self {
            ExportsField::Str(s) => ExportsField::Str(s.clone()),
            ExportsField::Record(v) => {
                let mut out: Vec<(RecordKey, RecordValue)> = Vec::new();
                let n = v.len();
                for i in 0..n
                    invariant
                        n == v.len(),
                        out@.len() == i,
                        forall|l: int| 0 <= l < i ==> #[trigger] out@[l].deep_view()
                            == v@[l].deep_view(),
                {
                    out.push((v[i].0.clone(), v[i].1.clone()));
                }
                proof {
                    assert(out.deep_view() =~= v.deep_view());
                }
                ExportsField::Record(out)
            },
        }
    }
}

} // verus!
