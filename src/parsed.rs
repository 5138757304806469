//! The manifest parsers of `cargo_manifest` and `toml`. Parsed values are
//! opaque here; they are read only through the functions below.

use vstd::prelude::*;

verus! {

/// `toml::Value`, a parsed TOML value.
#[verifier::external_type_specification]
#[verifier::external_body]
pub struct ExTomlValue(toml::Value);

/// `toml::map::Map`, the table type behind `toml::Table`.
#[verifier::external_type_specification]
#[verifier::external_body]
#[verifier::reject_recursive_types(K)]
#[verifier::reject_recursive_types(V)]
pub struct ExTomlMap<K, V>(toml::map::Map<K, V>);

/// `cargo_manifest::Manifest`, a parsed `Cargo.toml`.
#[verifier::external_type_specification]
#[verifier::external_body]
#[verifier::reject_recursive_types(PackageMetadata)]
#[verifier::reject_recursive_types(WorkspaceMetadata)]
pub struct ExManifest<PackageMetadata, WorkspaceMetadata>(cargo_manifest::Manifest<PackageMetadata, WorkspaceMetadata>);

/// `cargo_manifest::Package`, the `[package]` section of a manifest.
#[verifier::external_type_specification]
#[verifier::external_body]
#[verifier::reject_recursive_types(Metadata)]
pub struct ExPackage<Metadata>(cargo_manifest::Package<Metadata>);

/// `cargo_manifest::MaybeInherited`, a field given locally or inherited
/// from the workspace.
#[verifier::external_type_specification]
#[verifier::external_body]
#[verifier::reject_recursive_types(T)]
pub struct ExMaybeInherited<T>(cargo_manifest::MaybeInherited<T>);

/// `cargo_manifest::Error`, why a manifest did not parse.
#[verifier::external_type_specification]
#[verifier::external_body]
pub struct ExManifestError(cargo_manifest::Error);

/// Relies on `cargo_manifest::MaybeInherited::as_local`: the value when it
/// is given locally, `None` when it is inherited.
pub assume_specification<T>[ cargo_manifest::MaybeInherited::<T>::as_local ](
    m: cargo_manifest::MaybeInherited<T>,
) -> Option<T>;

/// Relies on `toml::Value::as_array`: the elements of an array value.
pub assume_specification[ toml::Value::as_array ](v: &toml::Value) -> Option<&Vec<toml::Value>>;

/// Relies on `toml::Value::as_str`: the text of a string value.
pub assume_specification[ toml::Value::as_str ](v: &toml::Value) -> Option<&str>;

/// Relies on `toml::Value::as_integer`: the number of an integer value.
pub assume_specification[ toml::Value::as_integer ](v: &toml::Value) -> Option<i64>;

/// Whether `cargo_manifest::Manifest::from_slice` accepts the text as a
/// manifest.
pub uninterp spec fn manifest_parses(text: Seq<char>) -> bool;

/// Relies on `cargo_manifest::Manifest::from_slice`: parses a manifest;
/// whether it succeeds depends on the text alone.
#[verifier::external_body]
pub(crate) fn parse_manifest(text: &str) -> (r: Result<cargo_manifest::Manifest, cargo_manifest::Error>)
    ensures
        r is Ok <==> manifest_parses(text@),
{
    cargo_manifest::Manifest::from_slice(text.as_bytes())
}

/// Relies on the `package` field of `cargo_manifest::Manifest`: the
/// `[package]` section, if the manifest has one.
#[verifier::external_body]
pub(crate) fn manifest_package(m: cargo_manifest::Manifest) -> Option<cargo_manifest::Package> {
    m.package
}

/// Relies on the `keywords` field of `cargo_manifest::Package`: the
/// package's keywords, if it declares any.
#[verifier::external_body]
pub(crate) fn package_keywords(p: cargo_manifest::Package) -> Option<cargo_manifest::MaybeInherited<Vec<String>>> {
    p.keywords
}

/// Relies on `str::parse::<toml::Table>`: parses a TOML document.
#[verifier::external_body]
pub(crate) fn parse_table(text: &str) -> Option<toml::Table> {
    text.parse::<toml::Table>().ok()
}

/// Relies on `toml::map::Map::get`: the value under a key of a table.
#[verifier::external_body]
pub(crate) fn table_get<'a>(t: &'a toml::Table, key: &str) -> Option<&'a toml::Value> {
    t.get(key)
}

/// Relies on `toml::Value::get`: the value under a key of a table value;
/// `None` for a missing key or a value that is no table.
#[verifier::external_body]
pub(crate) fn value_get<'a>(v: &'a toml::Value, key: &str) -> Option<&'a toml::Value> {
    v.get(key)
}

} // verus!
