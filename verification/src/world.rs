//! Where the files that a typst document asks for come from.

use vstd::prelude::*;
use vstd::string::StringSliceAdditionalSpecFns;
use crate::download::{AutoDownload, archive_name, package_archive};
use crate::package::PackageSpec;
use crate::paths::{join_path, joined_path, normalize, normalized_path, path_has_prefix, starts_with};

verus! {

/// The settings under which the typst snippets of a book are rendered.
pub struct MdbookWorld {
    /// The directory that holds package archives.
    pub pkg_root: String,
    /// The book's source directory.
    pub book_source: String,
    /// How packages that are missing are fetched, if they are.
    pub auto_download: Option<AutoDownload>,
    /// The licenses that fetched packages may have.
    pub allowed_licenses: Vec<String>,
}

/// A file that typst asks for while rendering a snippet.
pub enum FileRequest {
    /// A file of a package, by its path inside the package (without a
    /// leading slash).
    Package { package: PackageSpec, path: String },
    /// The snippet itself.
    Main,
    /// A file of the book, by its path below the book source (without a
    /// leading slash).
    Project { path: String },
}

/// Where to get a requested file from.
pub enum FileAction {
    /// From the package archive `tar`, which is fetched first if `fetch`
    /// says so, at the path `entry` inside it.
    Package { tar: String, fetch: bool, entry: String },
    /// The snippet's own text.
    Main,
    /// The file at `path`.
    Read { path: String },
    /// Nowhere: the file lies outside the book source.
    AccessDenied,
}

/// The archive of a package in the package root: `name-version.tar`, where
/// the built-in downloader puts it and the manual installation places it.
pub open spec fn package_tar(pkg_root: Seq<char>, package: crate::package::PackageSpecView) -> Seq<char> {
    joined_path(pkg_root, archive_name(package))
}

/// A book file's path below the book source, normalized.
pub open spec fn project_file(book_source: Seq<char>, path: Seq<char>) -> Seq<char> {
    normalized_path(joined_path(book_source, path))
}

impl MdbookWorld {
    /// The settings for rendering a book's snippets.
    pub fn new(
        pkg_root: String,
        auto_download: Option<AutoDownload>,
        allowed_licenses: Vec<String>,
        book_source: String,
    ) -> (r: Self)
        ensures
            r.pkg_root == pkg_root,
            r.book_source == book_source,
            r.auto_download == auto_download,
            r.allowed_licenses == allowed_licenses,
    {
        MdbookWorld { pkg_root, book_source, auto_download, allowed_licenses }
    }

    /// Where to get a file that typst asks for.  A package file comes from
    /// the package's archive; a book file is read only if its normalized
    /// path lies inside the book source.
    pub fn locate(&self, request: FileRequest) -> (r: FileAction)
        ensures
            r is Read ==> path_has_prefix(r->path@, self.book_source@),
            match request {
                FileRequest::Package { package, path } => r matches FileAction::Package { tar, fetch, entry }
                    && tar@ == package_tar(self.pkg_root@, package@) && fetch == self.auto_download is Some
                    && entry@ == path@,
                FileRequest::Main => r is Main,
                FileRequest::Project { path } => {
                    let file = project_file(self.book_source@, path@);
                    if path_has_prefix(file, self.book_source@) {
                        r matches FileAction::Read { path } && path@ == file
                    } else {
                        r is AccessDenied
                    }
                },
            },
    {
        match request {
            FileRequest::Package { package, path } => {
                let tar = package_archive(self.pkg_root.as_str(), &package);
                FileAction::Package { tar, fetch: self.auto_download.is_some(), entry: path }
            },
            FileRequest::Main => FileAction::Main,
            FileRequest::Project { path } => {
                let joined = join_path(self.book_source.as_str(), path.as_str());
                let file = normalize(joined.as_str());
                if !starts_with(file.as_str(), self.book_source.as_str()) {
                    FileAction::AccessDenied
                } else {
                    FileAction::Read { path: file }
                }
            },
        }
    }
}


/// Whether an archive entry whose path has the bytes `entry_path` is the
/// package file `wanted` (a path inside the package, without a leading
/// slash): the bytes must be exactly those of `wanted`.
pub fn entry_matches(entry_path: &[u8], wanted: &str) -> (r: bool)
    ensures
        r == (entry_path@ == wanted.spec_bytes()),
{
    let w = wanted.as_bytes();
    if entry_path.len() != w.len() {
        return false;
    }
    let mut i: usize = 0;
    while i < w.len()
        invariant
            entry_path@.len() == w@.len(),
            w@ == wanted.spec_bytes(),
            i <= w.len(),
            forall|j: int| 0 <= j < i ==> entry_path@[j] == w@[j],
        decreases w.len() - i,
    {
        if entry_path[i] != w[i] {
            return false;
        }
        i = i + 1;
    }
    assert(entry_path@ =~= w@);
    true
}

} // verus!
