//! Typst package specifications (`@namespace/name:major.minor.patch`) and
//! the names derived from them.

use vstd::prelude::*;
use crate::text::{concat3, decimal, decimal_text};

verus! {

/// The version of a typst package.
#[derive(Clone, Copy)]
pub struct PackageVersion {
    pub major: u32,
    pub minor: u32,
    pub patch: u32,
}

/// A typst package: namespace, name and version.
pub struct PackageSpec {
    pub namespace: String,
    pub name: String,
    pub version: PackageVersion,
}

pub struct PackageSpecView {
    pub namespace: Seq<char>,
    pub name: Seq<char>,
    pub version: PackageVersion,
}

impl Clone for PackageSpec {
    fn clone(&self) -> (r: Self)
        ensures
            r@ == self@,
    {
        PackageSpec { namespace: self.namespace.clone(), name: self.name.clone(), version: self.version }
    }
}

impl View for PackageSpec {
    type V = PackageSpecView;

    open spec fn view(&self) -> PackageSpecView {
        PackageSpecView { namespace: self.namespace@, name: self.name@, version: self.version }
    }
}

/// `major.minor.patch`, each in decimal.
pub open spec fn version_text(v: PackageVersion) -> Seq<char> {
    decimal_text(v.major as nat) + "."@ + decimal_text(v.minor as nat) + "."@ + decimal_text(
        v.patch as nat,
    )
}

/// `@namespace/name:version`, as typst writes a package specification.
pub open spec fn spec_text(p: PackageSpecView) -> Seq<char> {
    "@"@ + p.namespace + "/"@ + p.name + ":"@ + version_text(p.version)
}

/// `namespace/name-version`: where a package's archive lives below the
/// package root, without its extension.
pub open spec fn rel_path_text(p: PackageSpecView) -> Seq<char> {
    p.namespace + "/"@ + p.name + "-"@ + version_text(p.version)
}

impl PackageVersion {
    /// The version as typst writes it (`major.minor.patch`).
    pub fn to_text(&self) -> (r: String)
        ensures
            r@ == version_text(*self),
    {
        let mut r = decimal(self.major);
        r.append(".");
        let minor = decimal(self.minor);
        r.append(minor.as_str());
        r.append(".");
        let patch = decimal(self.patch);
        r.append(patch.as_str());
        r
    }
}

impl PackageSpec {
    /// A package specification from its parts.
    pub fn new(namespace: String, name: String, version: PackageVersion) -> (r: Self)
        ensures
            r@ == (PackageSpecView { namespace: namespace@, name: name@, version }),
    {
        PackageSpec { namespace, name, version }
    }

    /// The specification as typst writes it (`@namespace/name:version`).
    pub fn to_text(&self) -> (r: String)
        ensures
            r@ == spec_text(self@),
    {
        let mut r = concat3("@", self.namespace.as_str(), "/");
        r.append(self.name.as_str());
        r.append(":");
        let v = self.version.to_text();
        r.append(v.as_str());
        r
    }

    /// Reads a package specification such as `@preview/lilaq:0.6.0`; the
    /// error says what is wrong with the text.
    pub fn parse(text: &str) -> (r: Result<PackageSpec, String>)
        ensures
            parsed_package_spec(text@) == match r {
                Ok(p) => Ok(p@),
                Err(e) => Err::<PackageSpecView, Seq<char>>(e@),
            },
    {
        typst_package_spec(text)
    }
}

/// What typst's parser of package specifications makes of `text`: the
/// specification, or its error message.
pub uninterp spec fn parsed_package_spec(text: Seq<char>) -> Result<PackageSpecView, Seq<char>>;

/// Parses a package specification with typst
/// (`<typst_syntax::package::PackageSpec as FromStr>::from_str`) and copies
/// the result, or the error message, into the library's types.
#[verifier::external_body]
fn typst_package_spec(text: &str) -> (r: Result<PackageSpec, String>)
    ensures
        parsed_package_spec(text@) == match r {
            Ok(p) => Ok(p@),
            Err(e) => Err::<PackageSpecView, Seq<char>>(e@),
        },
{
    match <typst_syntax::package::PackageSpec as std::str::FromStr>::from_str(text) {
        Ok(p) => Ok(PackageSpec {
            namespace: p.namespace.to_string(),
            name: p.name.to_string(),
            version: PackageVersion { major: p.version.major, minor: p.version.minor, patch: p.version.patch },
        }),
        Err(e) => Err(e.to_string()),
    }
}

/// Where a package's archive lives below the package root, without the
/// `.tar` extension: `namespace/name-version`.
pub fn rel_path(package: &PackageSpec) -> (r: String)
    ensures
        r@ == rel_path_text(package@),
{
    let mut r = concat3(package.namespace.as_str(), "/", package.name.as_str());
    r.append("-");
    let v = package.version.to_text();
    r.append(v.as_str());
    r
}

} // verus!
