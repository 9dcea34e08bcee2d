//! A verified model of the `package.json` manifest format: a strongly typed
//! schema with polymorphic fields (string-or-object, string-or-array,
//! string-or-map), an explicit shape-trying decoder, a structural encoder,
//! and a path-keyed read-through cache for decoded manifests.

pub mod json;
pub mod field_enum;
pub mod package_json;
pub mod decode;
pub mod encode;
pub mod cacher;
pub mod laws;

pub use cacher::Cacher;
pub use decode::DecodeError;
pub use field_enum::{
    BinField, BugsField, ExportsField, ManField, PackageJsonPerson, RecordKey, RecordValue,
    RecordValueHashMapKey, RepositoryField, TypeEnum,
};
pub use json::Json;
pub use package_json::PackageJson;
