//! How rendered SVG gets into a chapter: inline, or as a file of the book
//! source that the chapter links to.

use vstd::prelude::*;
use std::hash::{Hash, Hasher};
use crate::markdown::{div_wrap, div_wrapped};
use crate::paths::{component_count, is_relative, join_path, joined_path, path_component_count, path_is_relative};
use crate::text::{concat3, hex_fixed, hex_text, owned};

verus! {

/// The hash of a path under a fresh `DefaultHasher`.
pub uninterp spec fn path_hash(p: Seq<char>) -> u64;

/// The hash of a string under a fresh `DefaultHasher`.
pub uninterp spec fn text_hash(s: Seq<char>) -> u64;

/// Hashes `Path::new(p)` with a fresh `std::hash::DefaultHasher` and
/// returns `finish()`.  Fresh default hashers all start alike, so the hash
/// depends on the path alone.
#[verifier::external_body]
fn hash_path(p: &str) -> (r: u64)
    ensures
        r == path_hash(p@),
{
    let mut h = std::hash::DefaultHasher::new();
    std::path::Path::new(p).hash(&mut h);
    h.finish()
}

/// Hashes the string `s` with a fresh `std::hash::DefaultHasher` and
/// returns `finish()`.
#[verifier::external_body]
fn hash_text(s: &str) -> (r: u64)
    ensures
        r == text_hash(s@),
{
    let mut h = std::hash::DefaultHasher::new();
    s.hash(&mut h);
    h.finish()
}

/// `PPPPPPPPPPPPPPPP_CCCCCCCCCCCCCCCC.svg`: the two hashes as sixteen
/// upper-case hexadecimal digits each.
pub open spec fn svg_file_name(path_h: u64, content_h: u64) -> Seq<char> {
    hex_text(path_h as nat, 16) + "_"@ + hex_text(content_h as nat, 16) + ".svg"@
}

/// The name of the SVG file generated for a snippet of the page `path` whose
/// content is `content`.
pub open spec fn svg_name_of(path: Seq<char>, content: Seq<char>) -> Seq<char> {
    svg_file_name(path_hash(path), text_hash(content))
}

/// The name of the SVG file for a page's snippet, from hashes of the page's
/// path and of its content.
pub fn svg_name(path: &str, content: &str) -> (r: String)
    ensures
        r@ == svg_name_of(path@, content@),
{
    let path_h = hash_path(path);
    let content_h = hash_text(content);
    let a = hex_fixed(path_h, 16);
    let b = hex_fixed(content_h, 16);
    let mut r = concat3(a.as_str(), "_", b.as_str());
    r.append(".svg");
    r
}

/// `..` joined `n` times: the way up from a page `n` directories deep.
pub open spec fn up_path(n: nat) -> Seq<char>
    decreases n,
{
    if n == 0 {
        ""@
    } else {
        joined_path(up_path((n - 1) as nat), ".."@)
    }
}

fn up_path_exec(n: usize) -> (r: String)
    ensures
        r@ == up_path(n as nat),
{
    let mut r = owned("");
    let mut i: usize = 0;
    while i < n
        invariant
            i <= n,
            r@ == up_path(i as nat),
        decreases n - i,
    {
        r = join_path(r.as_str(), "..");
        i = i + 1;
    }
    r
}

/// The link from the page `source` to the generated file `name` in
/// `generated_subdir`: one `..` per directory of the page, then the
/// directory, then the name.
pub open spec fn svg_link_path(source: Seq<char>, generated_subdir: Seq<char>, name: Seq<char>) -> Seq<char> {
    let depth = path_component_count(source);
    let ups: nat = if depth == 0 { 0 } else { (depth - 1) as nat };
    joined_path(joined_path(up_path(ups), generated_subdir), name)
}

/// The markdown that shows the generated file at `link`.
pub open spec fn image_markdown(link: Seq<char>) -> Seq<char> {
    "\n\n![](./"@ + link + ")\n\n"@
}

enum LinkerInner {
    Inline,
    Source { book_source: String, generated_subdir: String },
}

/// Puts rendered SVG into chapters: inline, or as files of the book source
/// that the chapters link to.
pub struct Linker {
    inner: LinkerInner,
}

/// A file to write: its path and its contents.
pub struct SvgFile {
    pub path: String,
    pub contents: String,
}

/// What takes the place of a snippet: the markdown to put in, and the file
/// that has to be written first, if any.
pub struct LinkedSvg {
    pub file: Option<SvgFile>,
    pub markdown: String,
}

impl Linker {
    /// Whether SVG goes into the chapters inline.
    pub closed spec fn is_inline(&self) -> bool {
        self.inner is Inline
    }

    /// The book source of a linker that writes files.
    pub closed spec fn book_source(&self) -> Seq<char> {
        match self.inner {
            LinkerInner::Source { book_source, .. } => book_source@,
            LinkerInner::Inline => Seq::empty(),
        }
    }

    /// The subdirectory of the book source that generated files go to.
    pub closed spec fn generated_subdir(&self) -> Seq<char> {
        match self.inner {
            LinkerInner::Source { generated_subdir, .. } => generated_subdir@,
            LinkerInner::Inline => Seq::empty(),
        }
    }

    /// A linker that puts SVG into the chapters inline.
    pub fn new_inline() -> (r: Self)
        ensures
            r.is_inline(),
    {
        Linker { inner: LinkerInner::Inline }
    }

    /// A linker that writes SVG to files in `generated_subdir` of the book
    /// source and links to them.  The caller empties that directory first
    /// (see `generated_dir`).
    pub fn new_in_source(book_source: &str, generated_subdir: &str) -> (r: Self)
        requires
            path_is_relative(generated_subdir@),
        ensures
            !r.is_inline(),
            r.book_source() == book_source@,
            r.generated_subdir() == generated_subdir@,
    {
        Linker {
            inner: LinkerInner::Source {
                book_source: owned(book_source),
                generated_subdir: owned(generated_subdir),
            },
        }
    }

    /// `new_in_source`, or `None` where `generated_subdir` is not a relative
    /// path.
    pub fn try_new_in_source(book_source: &str, generated_subdir: &str) -> (r: Option<Self>)
        ensures
            r is Some <==> path_is_relative(generated_subdir@),
            r matches Some(l) ==> !l.is_inline() && l.book_source() == book_source@
                && l.generated_subdir() == generated_subdir@,
    {
        if is_relative(generated_subdir) {
            Some(Self::new_in_source(book_source, generated_subdir))
        } else {
            None
        }
    }

    /// The directory that generated files go to, for a linker that writes
    /// files.
    pub fn generated_dir(&self) -> (r: Option<String>)
        ensures
            self.is_inline() ==> r is None,
            !self.is_inline() ==> (r matches Some(d) && d@ == joined_path(
                self.book_source(),
                self.generated_subdir(),
            )),
    {
        match &self.inner {
            LinkerInner::Inline => None,
            LinkerInner::Source { book_source, generated_subdir } => Some(
                join_path(book_source.as_str(), generated_subdir.as_str()),
            ),
        }
    }

    /// What takes the place of a snippet of the page `source_path` (whose
    /// content is `source_content`) that rendered to `svg`.  Inline, the SVG
    /// itself wrapped in a `typst` div; otherwise a file in the generated
    /// directory, named after hashes of the page's path and content, and a
    /// wrapped image link to it, relative to the page.
    pub fn replace(&self, source_path: &str, source_content: &str, svg: String) -> (r: LinkedSvg)
        ensures
            self.is_inline() ==> r.file is None && r.markdown@ == div_wrapped(svg@),
            !self.is_inline() ==> {
                let name = svg_name_of(source_path@, source_content@);
                &&& r.file matches Some(f)
                &&& f.path@ == joined_path(joined_path(self.book_source(), self.generated_subdir()), name)
                &&& f.contents@ == svg@
                &&& r.markdown@ == div_wrapped(
                    image_markdown(svg_link_path(source_path@, self.generated_subdir(), name)),
                )
            },
    {
        match &self.inner {
            LinkerInner::Inline => LinkedSvg { file: None, markdown: div_wrap(svg.as_str()) },
            LinkerInner::Source { book_source, generated_subdir } => {
                let name = svg_name(source_path, source_content);
                let dir = join_path(book_source.as_str(), generated_subdir.as_str());
                let output = join_path(dir.as_str(), name.as_str());
                let depth = component_count(source_path);
                let ups: usize = if depth == 0 { 0 } else { depth - 1 };
                let up = up_path_exec(ups);
                let in_dir = join_path(up.as_str(), generated_subdir.as_str());
                let link = join_path(in_dir.as_str(), name.as_str());
                let image = concat3("\n\n![](./", link.as_str(), ")\n\n");
                LinkedSvg {
                    file: Some(SvgFile { path: output, contents: svg }),
                    markdown: div_wrap(image.as_str()),
                }
            },
        }
    }
}


/// A generated file's name has thirty-seven characters: two runs of
/// sixteen hexadecimal digits, an underscore and `.svg`.
pub proof fn lemma_svg_name_length(path_h: u64, content_h: u64)
    ensures
        svg_file_name(path_h, content_h).len() == 37,
{
    crate::text::lemma_hex_text_len(path_h as nat, 16);
    crate::text::lemma_hex_text_len(content_h as nat, 16);
    reveal_strlit("_");
    reveal_strlit(".svg");
}


/// The image link of a page climbs out of every directory the page is in:
/// a page of `k >= 1` components links through `k - 1` times `..`, then the
/// generated directory, then the file; the way up from one directory
/// deeper is the way up from here followed by one more `..`.
pub proof fn lemma_link_climbs_every_directory(source: Seq<char>, generated_subdir: Seq<char>, name: Seq<char>)
    requires
        path_component_count(source) >= 1,
    ensures
        svg_link_path(source, generated_subdir, name) == joined_path(
            joined_path(up_path((path_component_count(source) - 1) as nat), generated_subdir),
            name,
        ),
        up_path(0) == ""@,
        forall|k: nat| #[trigger] up_path(k + 1) == joined_path(up_path(k), ".."@),
{
    assert forall|k: nat| #[trigger] up_path(k + 1) == joined_path(up_path(k), ".."@) by {
        assert((k + 1 - 1) as nat == k);
    }
}

} // verus!
