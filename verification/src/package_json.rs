//! The manifest root type: every recognized field, each optional except the
//! module-type indicator, together with its ghost model.

use vstd::prelude::*;

use crate::field_enum::{
    BinField, BinV, BugsField, BugsV, ExportsField, ExportsV, ManField, ManV, PackageJsonPerson,
    PersonV, RepositoryField, RepositoryV, TypeEnum, clone_opt_str_map, clone_opt_string,
    clone_opt_string_vec, clone_person_vec,
};

verus! {

/// The decoded in-memory representation of a package descriptor file.
/// Absence of a field is distinct from any present value; a field absent in
/// the JSON stays `None` here and is omitted again on encoding.
/// String-to-string mappings are kept as ordered pair lists.
#[derive(Debug, PartialEq)]
pub struct PackageJson {
    pub name: Option<String>,
    pub version: Option<String>,
    pub description: Option<String>,
    pub keywords: Option<Vec<String>>,
    pub homepage: Option<String>,
    pub bugs: Option<BugsField>,
    pub license: Option<String>,
    pub repository: Option<RepositoryField>,
    pub scripts: Option<Vec<(String, String)>>,
    pub private: Option<bool>,
    pub author: Option<PackageJsonPerson>,
    pub contributors: Option<Vec<PackageJsonPerson>>,
    pub files: Option<Vec<String>>,
    pub main: Option<String>,
    pub browser: Option<String>,
    pub bin: Option<BinField>,
    pub man: Option<ManField>,
    pub dependencies: Option<Vec<(String, String)>>,
    pub dev_dependencies: Option<Vec<(String, String)>>,
    pub optional_dependencies: Option<Vec<(String, String)>>,
    pub peer_dependencies: Option<Vec<(String, String)>>,
    pub types: Option<String>,
    pub typings: Option<String>,
    pub module: Option<String>,
    pub type_: TypeEnum,
    pub exports: Option<ExportsField>,
    pub workspaces: Option<Vec<String>>,
}

/// Ghost model of [`PackageJson`].
pub struct ManifestV {
    pub name: Option<Seq<char>>,
    pub version: Option<Seq<char>>,
    pub description: Option<Seq<char>>,
    pub keywords: Option<Seq<Seq<char>>>,
    pub homepage: Option<Seq<char>>,
    pub bugs: Option<BugsV>,
    pub license: Option<Seq<char>>,
    pub repository: Option<RepositoryV>,
    pub scripts: Option<Seq<(Seq<char>, Seq<char>)>>,
    pub private: Option<bool>,
    pub author: Option<PersonV>,
    pub contributors: Option<Seq<PersonV>>,
    pub files: Option<Seq<Seq<char>>>,
    pub main: Option<Seq<char>>,
    pub browser: Option<Seq<char>>,
    pub bin: Option<BinV>,
    pub man: Option<ManV>,
    pub dependencies: Option<Seq<(Seq<char>, Seq<char>)>>,
    pub dev_dependencies: Option<Seq<(Seq<char>, Seq<char>)>>,
    pub optional_dependencies: Option<Seq<(Seq<char>, Seq<char>)>>,
    pub peer_dependencies: Option<Seq<(Seq<char>, Seq<char>)>>,
    pub types: Option<Seq<char>>,
    pub typings: Option<Seq<char>>,
    pub module: Option<Seq<char>>,
    pub type_: TypeEnum,
    pub exports: Option<ExportsV>,
    pub workspaces: Option<Seq<Seq<char>>>,
}

impl DeepView for PackageJson {
    type V = ManifestV;

    open spec fn deep_view(&self) -> ManifestV {
        ManifestV {
            name: self.name.deep_view(),
            version: self.version.deep_view(),
            description: self.description.deep_view(),
            keywords: self.keywords.deep_view(),
            homepage: self.homepage.deep_view(),
            bugs: self.bugs.deep_view(),
            license: self.license.deep_view(),
            repository: self.repository.deep_view(),
            scripts: self.scripts.deep_view(),
            private: self.private.deep_view(),
            author: self.author.deep_view(),
            contributors: self.contributors.deep_view(),
            files: self.files.deep_view(),
            main: self.main.deep_view(),
            browser: self.browser.deep_view(),
            bin: self.bin.deep_view(),
            man: self.man.deep_view(),
            dependencies: self.dependencies.deep_view(),
            dev_dependencies: self.dev_dependencies.deep_view(),
            optional_dependencies: self.optional_dependencies.deep_view(),
            peer_dependencies: self.peer_dependencies.deep_view(),
            types: self.types.deep_view(),
            typings: self.typings.deep_view(),
            module: self.module.deep_view(),
            type_: self.type_,
            exports: self.exports.deep_view(),
            workspaces: self.workspaces.deep_view(),
        }
    }
}

/// The all-absent manifest: every optional field absent, the module type at
/// its default tag.
pub open spec fn spec_default_manifest() -> ManifestV {
    ManifestV {
        name: None,
        version: None,
        description: None,
        keywords: None,
        homepage: None,
        bugs: None,
        license: None,
        repository: None,
        scripts: None,
        private: None,
        author: None,
        contributors: None,
        files: None,
        main: None,
        browser: None,
        bin: None,
        man: None,
        dependencies: None,
        dev_dependencies: None,
        optional_dependencies: None,
        peer_dependencies: None,
        types: None,
        typings: None,
        module: None,
        type_: TypeEnum::Commonjs,
        exports: None,
        workspaces: None,
    }
}

impl Default for PackageJson {
    /// The manifest with every optional field absent and the default module
    /// type.
    fn default() -> (res: Self)
        ensures
            res.deep_view() == spec_default_manifest(),
    {
        PackageJson {
            name: None,
            version: None,
            description: None,
            keywords: None,
            homepage: None,
            bugs: None,
            license: None,
            repository: None,
            scripts: None,
            private: None,
            author: None,
            contributors: None,
            files: None,
            main: None,
            browser: None,
            bin: None,
            man: None,
            dependencies: None,
            dev_dependencies: None,
            optional_dependencies: None,
            peer_dependencies: None,
            types: None,
            typings: None,
            module: None,
            type_: TypeEnum::Commonjs,
            exports: None,
            workspaces: None,
        }
    }
}

impl Clone for PackageJson {
    /// An independent deep copy with the same model: callers of the cache
    /// receive such copies and can never reach the stored entry.
    fn clone(&self) -> (res: Self)
        ensures
            res.deep_view() == self.deep_view(),
    {
        PackageJson {
            name: clone_opt_string(&self.name),
            version: clone_opt_string(&self.version),
            description: clone_opt_string(&self.description),
            keywords: clone_opt_string_vec(&self.keywords),
            homepage: clone_opt_string(&self.homepage),
            bugs: match &self.bugs {
                Some(b) => Some(b.clone()),
                None => None,
            },
            license: clone_opt_string(&self.license),
            repository: match &self.repository {
                Some(r) => Some(r.clone()),
                None => None,
            },
            scripts: clone_opt_str_map(&self.scripts),
            private: match &self.private {
                Some(p) => Some(*p),
                None => None,
            },
            author: match &self.author {
                Some(a) => Some(a.clone()),
                None => None,
            },
            contributors: match &self.contributors {
                Some(c) => Some(clone_person_vec(c)),
                None => None,
            },
            files: clone_opt_string_vec(&self.files),
            main: clone_opt_string(&self.main),
            browser: clone_opt_string(&self.browser),
            bin: match &self.bin {
                Some(b) => Some(b.clone()),
                None => None,
            },
            man: match &self.man {
                Some(m) => Some(m.clone()),
                None => None,
            },
            dependencies: clone_opt_str_map(&self.dependencies),
            dev_dependencies: clone_opt_str_map(&self.dev_dependencies),
            optional_dependencies: clone_opt_str_map(&self.optional_dependencies),
            peer_dependencies: clone_opt_str_map(&self.peer_dependencies),
            types: clone_opt_string(&self.types),
            typings: clone_opt_string(&self.typings),
            module: clone_opt_string(&self.module),
            type_: self.type_,
            exports: match &self.exports {
                Some(e) => Some(e.clone()),
                None => None,
            },
            workspaces: clone_opt_string_vec(&self.workspaces),
        }
    }
}

} // verus!
