//! Vetting the license that a downloaded package declares in its
//! `typst.toml`.

use vstd::prelude::*;
use crate::text::{concat3, owned};

verus! {

/// A TOML table (toml's `Map`).
#[verifier::external_type_specification]
#[verifier::external_body]
#[verifier::reject_recursive_types(K)]
#[verifier::reject_recursive_types(V)]
pub struct ExTomlMap<K, V>(toml::map::Map<K, V>);

/// A TOML value.
#[verifier::external_type_specification]
#[verifier::external_body]
pub struct ExTomlValue(toml::Value);

/// The error of toml's parser.
#[verifier::external_type_specification]
#[verifier::external_body]
pub struct ExTomlError(toml::de::Error);

/// A TOML value as far as the license check tells values apart.
pub enum TomlData {
    Text(Seq<char>),
    Table(Map<Seq<char>, TomlData>),
    Other,
}

/// The entries of a TOML table.
pub uninterp spec fn toml_table_data(t: toml::Table) -> Map<Seq<char>, TomlData>;

/// What a TOML value holds.
pub uninterp spec fn toml_value_data(v: toml::Value) -> TomlData;

/// The table that toml's parser reads from `text`, if `text` is TOML.
pub uninterp spec fn parsed_toml(text: Seq<char>) -> Option<Map<Seq<char>, TomlData>>;

/// Parses a TOML document into a table (`toml::from_str::<toml::Table>`).
#[verifier::external_body]
fn parse_toml_table(text: &str) -> (r: Result<toml::Table, toml::de::Error>)
    ensures
        r is Ok <==> parsed_toml(text@) is Some,
        r matches Ok(t) ==> parsed_toml(text@) == Some(toml_table_data(t)),
{
    toml::from_str::<toml::Table>(text)
}

/// The value of a key of a table (`Map::get`).
#[verifier::external_body]
fn table_get<'a>(t: &'a toml::Table, key: &str) -> (r: Option<&'a toml::Value>)
    ensures
        r is Some <==> toml_table_data(*t).dom().contains(key@),
        r matches Some(v) ==> toml_value_data(*v) == toml_table_data(*t)[key@],
{
    t.get(key)
}

/// The table that a value is, if it is one (`Value::as_table`).
#[verifier::external_body]
fn value_as_table(v: &toml::Value) -> (r: Option<&toml::Table>)
    ensures
        r is Some <==> toml_value_data(*v) is Table,
        r matches Some(t) ==> toml_value_data(*v) == TomlData::Table(toml_table_data(*t)),
{
    v.as_table()
}

/// The string that a value is, if it is one (`Value::as_str`).
#[verifier::external_body]
fn value_as_str(v: &toml::Value) -> (r: Option<&str>)
    ensures
        r is Some <==> toml_value_data(*v) is Text,
        r matches Some(s) ==> toml_value_data(*v) == TomlData::Text(s@),
{
    v.as_str()
}

/// What the manifest of a package says about its license.
pub enum LicenseLookup {
    NotToml,
    NoPackageTable,
    NoLicense,
    License(Seq<char>),
}

/// The license in the `package` table of a parsed manifest.
pub open spec fn manifest_license(doc: Option<Map<Seq<char>, TomlData>>) -> LicenseLookup {
    match doc {
        None => LicenseLookup::NotToml,
        Some(top) => {
            if !top.dom().contains("package"@) || !(top["package"@] is Table) {
                LicenseLookup::NoPackageTable
            } else {
                let package = top["package"@]->Table_0;
                if !package.dom().contains("license"@) || !(package["license"@] is Text) {
                    LicenseLookup::NoLicense
                } else {
                    LicenseLookup::License(package["license"@]->Text_0)
                }
            }
        },
    }
}

pub open spec fn strings_view(v: Seq<String>) -> Seq<Seq<char>> {
    v.map_values(|s: String| s@)
}

/// The verdict on a downloaded package, given the text of its `typst.toml`
/// (`None` when the archive has none) and the licenses that are allowed.
pub open spec fn license_verdict(manifest: Option<Seq<char>>, allowed: Seq<Seq<char>>) -> Result<(), Seq<char>> {
    match manifest {
        None => Err("Could not find `typst.toml` in downloaded package"@),
        Some(text) => match manifest_license(parsed_toml(text)) {
            LicenseLookup::NotToml => Err("typst.toml was not valid toml"@),
            LicenseLookup::NoPackageTable => Err("typst.toml has no package table"@),
            LicenseLookup::NoLicense => Err("package defines no license"@),
            LicenseLookup::License(l) => if allowed.contains(l) {
                Ok(())
            } else {
                Err("License '"@ + l + "' is not allowed."@)
            },
        },
    }
}

pub open spec fn result_view(r: Result<(), String>) -> Result<(), Seq<char>> {
    match r {
        Ok(()) => Ok(()),
        Err(e) => Err(e@),
    }
}

/// Whether `allowed` holds `license`.
pub fn is_allowed(license: &str, allowed: &Vec<String>) -> (r: bool)
    ensures
        r == strings_view(allowed@).contains(license@),
{
    let ghost view = strings_view(allowed@);
    let mut i: usize = 0;
    while i < allowed.len()
        invariant
            view == strings_view(allowed@),
            i <= allowed.len(),
            forall|j: int| 0 <= j < i ==> view[j] != license@,
        decreases allowed.len() - i,
    {
        if crate::text::str_eq(allowed[i].as_str(), license) {
            assert(view[i as int] == license@);
            return true;
        }
        i = i + 1;
    }
    assert(!view.contains(license@));
    false
}

/// Checks the license of a downloaded package: its `typst.toml` must name,
/// in its `package` table, a `license` that `allowed_licenses` holds.
pub fn validate_license(manifest: Option<&str>, allowed_licenses: &Vec<String>) -> (r: Result<(), String>)
    ensures
        result_view(r) == license_verdict(
            match manifest {
                Some(t) => Some(t@),
                None => None::<Seq<char>>,
            },
            strings_view(allowed_licenses@),
        ),
{
    let text = match manifest {
        None => return Err(owned("Could not find `typst.toml` in downloaded package")),
        Some(t) => t,
    };
    let table = match parse_toml_table(text) {
        Err(_) => return Err(owned("typst.toml was not valid toml")),
        Ok(t) => t,
    };
    let package = match table_get(&table, "package") {
        None => return Err(owned("typst.toml has no package table")),
        Some(v) => match value_as_table(v) {
            None => return Err(owned("typst.toml has no package table")),
            Some(p) => p,
        },
    };
    let license = match table_get(package, "license") {
        None => return Err(owned("package defines no license")),
        Some(v) => match value_as_str(v) {
            None => return Err(owned("package defines no license")),
            Some(l) => l,
        },
    };
    if is_allowed(license, allowed_licenses) {
        Ok(())
    } else {
        Err(concat3("License '", license, "' is not allowed."))
    }
}


/// The license check accepts a manifest whose `package.license` is the
/// string `license` exactly when `license` equals one of the allowed
/// licenses; otherwise it refuses it, naming the license.
pub proof fn lemma_license_must_equal_an_allowed_one(
    text: Seq<char>,
    license: Seq<char>,
    allowed: Seq<Seq<char>>,
)
    requires
        parsed_toml(text) is Some,
        parsed_toml(text)->0.dom().contains("package"@),
        parsed_toml(text)->0["package"@] is Table,
        parsed_toml(text)->0["package"@]->Table_0.dom().contains("license"@),
        parsed_toml(text)->0["package"@]->Table_0["license"@] == TomlData::Text(license),
    ensures
        license_verdict(Some(text), allowed) is Ok <==> exists|i: int| 0 <= i < allowed.len() && allowed[i] == license,
        !(exists|i: int| 0 <= i < allowed.len() && allowed[i] == license) ==> license_verdict(Some(text), allowed)
            == Err::<(), Seq<char>>("License '"@ + license + "' is not allowed."@),
{
}


/// The characters of a list of strings: one entry per string, in order.
pub proof fn lemma_strings_view(v: Seq<String>)
    ensures
        strings_view(v).len() == v.len(),
        forall|i: int| 0 <= i < v.len() ==> #[trigger] strings_view(v)[i] == v[i]@,
{
}

} // verus!
