//! The preprocessor's settings (`[preprocessor.typst]` in `book.toml`) and
//! the decisions taken on them.

use vstd::prelude::*;
use crate::download::AutoDownload;
use crate::license::strings_view;
use crate::paths::{join_path, joined_path};
use crate::text::{concat2, concat3, owned, str_eq};
use crate::world::MdbookWorld;
use crate::linker::Linker;
use crate::paths::path_is_relative;

verus! {

/// A setting's value, as far as the settings tell values apart.
pub enum ConfigValue {
    /// A string.
    Text(String),
    /// A boolean.
    Boolean(bool),
    /// Any other value, as TOML writes it.
    Other(String),
}

/// The preprocessor's settings.
pub struct Config {
    /// `auto-download`: `false`, `true`, or the program that fetches packages.
    pub auto_download: ConfigValue,
    /// `package-root`: the directory that holds package archives, below the
    /// book's root.
    pub package_root: String,
    /// `allowed-licenses`: the licenses that fetched packages may have, if
    /// not the default ones.
    pub allowed_licenses: Option<Vec<String>>,
    /// `svg-dir`: the subdirectory of the book source to write SVG files
    /// to, if chapters are to link to them rather than hold them inline.
    pub svg_dir: Option<String>,
}

/// The default of `auto-download`: no fetching.
pub fn toml_false() -> (r: ConfigValue)
    ensures
        r == ConfigValue::Boolean(false),
{
    ConfigValue::Boolean(false)
}

/// The default of `package-root`.
pub fn typst_pkgs() -> (r: String)
    ensures
        r@ == "typst-pkgs"@,
{
    owned("typst-pkgs")
}

impl Default for Config {
    fn default() -> (r: Self)
        ensures
            r.auto_download == ConfigValue::Boolean(false),
            r.package_root@ == "typst-pkgs"@,
            r.allowed_licenses is None,
            r.svg_dir is None,
    {
        Config { auto_download: toml_false(), package_root: typst_pkgs(), allowed_licenses: None, svg_dir: None }
    }
}

/// How `auto-download` chooses the way packages are fetched: a string
/// names a program, `true` means the built-in downloader, `false` means
/// none; anything else is an error.
pub open spec fn auto_download_choice(value: ConfigValue) -> Result<Option<AutoDownload>, Seq<char>> {
    match value {
        ConfigValue::Text(program) => Ok(Some(AutoDownload::Custom(program))),
        ConfigValue::Boolean(true) => Ok(Some(AutoDownload::BuiltIn)),
        ConfigValue::Boolean(false) => Ok(None),
        ConfigValue::Other(v) => Err(
            "Unexpected value '"@ + v@ + "' for preprocessor.typst.autodownload, expected String or Boolean"@,
        ),
    }
}

/// Reads the `auto-download` setting.
pub fn auto_download_setting(value: ConfigValue) -> (r: Result<Option<AutoDownload>, String>)
    ensures
        match (r, auto_download_choice(value)) {
            (Ok(a), Ok(b)) => a == b,
            (Err(e), Err(m)) => e@ == m,
            _ => false,
        },
{
    match value {
        ConfigValue::Text(program) => Ok(Some(AutoDownload::Custom(program))),
        ConfigValue::Boolean(true) => Ok(Some(AutoDownload::BuiltIn)),
        ConfigValue::Boolean(false) => Ok(None),
        ConfigValue::Other(v) => Err(
            concat3(
                "Unexpected value '",
                v.as_str(),
                "' for preprocessor.typst.autodownload, expected String or Boolean",
            ),
        ),
    }
}

/// The licenses that packages fetched while building a book may have.
pub fn default_allowed_licenses() -> (r: Vec<String>)
    ensures
        strings_view(r@) == seq!["MIT"@, "MIT OR Apache-2.0"@],
{
    let mut r: Vec<String> = Vec::new();
    r.push(owned("MIT"));
    r.push(owned("MIT OR Apache-2.0"));
    assert(strings_view(r@) =~= seq!["MIT"@, "MIT OR Apache-2.0"@]);
    r
}

/// The licenses that the settings allow: `allowed-licenses`, or the
/// default ones.
pub open spec fn allowed_by(config_licenses: Option<Seq<String>>) -> Seq<Seq<char>> {
    match config_licenses {
        Some(v) => strings_view(v),
        None => seq!["MIT"@, "MIT OR Apache-2.0"@],
    }
}

/// The rendering settings for a book with root directory `root` and source
/// directory `src` (relative to the root), under `config`.
pub fn book_world(root: &str, src: &str, config: Config) -> (r: Result<MdbookWorld, String>)
    ensures
        match (r, auto_download_choice(config.auto_download)) {
            (Ok(w), Ok(a)) => {
                &&& w.pkg_root@ == joined_path(root@, config.package_root@)
                &&& w.book_source@ == joined_path(root@, src@)
                &&& w.auto_download == a
                &&& strings_view(w.allowed_licenses@) == allowed_by(
                    match config.allowed_licenses {
                        Some(v) => Some(v@),
                        None => None::<Seq<String>>,
                    },
                )
            },
            (Err(e), Err(m)) => e@ == m,
            _ => false,
        },
{
    let pkg_root = join_path(root, config.package_root.as_str());
    let book_source = join_path(root, src);
    let auto_download = match auto_download_setting(config.auto_download) {
        Ok(a) => a,
        Err(e) => return Err(e),
    };
    let allowed = match config.allowed_licenses {
        Some(v) => v,
        None => default_allowed_licenses(),
    };
    Ok(MdbookWorld::new(pkg_root, auto_download, allowed, book_source))
}

/// How a book's chapters get their SVG: inline, or, with `svg-dir`, as
/// files in that subdirectory of the book source; `None` where `svg-dir`
/// is not a relative path.
pub fn book_linker(book_source: &str, svg_dir: Option<&str>) -> (r: Option<Linker>)
    ensures
        svg_dir is None ==> (r matches Some(l) && l.is_inline()),
        svg_dir matches Some(d) ==> (r is Some <==> path_is_relative(d@)),
        svg_dir matches Some(d) ==> (r matches Some(l) ==> !l.is_inline() && l.book_source() == book_source@
            && l.generated_subdir() == d@),
{
    match svg_dir {
        None => Some(Linker::new_inline()),
        Some(dir) => Linker::try_new_in_source(book_source, dir),
    }
}

/// Whether the preprocessor supports an mdBook renderer: only `html`.
pub fn supports(backend: &str) -> (r: Result<(), String>)
    ensures
        backend@ == "html"@ ==> r is Ok,
        backend@ != "html"@ ==> (r matches Err(e) && e@ == backend@ + " backend is not supported."@),
{
    if str_eq(backend, "html") {
        Ok(())
    } else {
        Err(concat2(backend, " backend is not supported."))
    }
}

} // verus!
