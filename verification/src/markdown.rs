//! Finding the typst snippets of a chapter and putting rendered output in
//! their place.

use vstd::prelude::*;
use vstd::utf8::*;
use vstd::string::StringSliceAdditionalSpecFns;
use pulldown_cmark::{CodeBlockKind, DefaultBrokenLinkCallback, Event, LinkType, OffsetIter, Parser, Tag, TagEnd};
use crate::text::{
    byte_slice, concat3, leading_slashes, lemma_encode_concat, owned, slice_ok, str_eq, strip_prefix,
    trim_leading_slashes,
};
use vstd::string::StrSliceExecFns;
use crate::paths::{join_path, joined_path, parent, path_parent};

verus! {

broadcast use encode_utf8_decode_utf8;

/// The event iterator of pulldown-cmark that also yields byte ranges.
#[verifier::external_type_specification]
#[verifier::external_body]
#[verifier::reject_recursive_types(F)]
pub struct ExOffsetIter<'a, F>(OffsetIter<'a, F>);

/// The parser's default handling of broken links (none).
#[verifier::external_type_specification]
#[verifier::external_body]
pub struct ExDefaultBrokenLinkCallback(DefaultBrokenLinkCallback);

/// What the preprocessor tells apart among markdown events.
pub enum MdEventKind {
    /// Start of a fenced code block, with its information line.
    FencedCodeStart(String),
    /// Start of an autolink (`<scheme://...>`), with its destination.
    AutolinkStart(String),
    /// End of a code block.
    CodeBlockEnd,
    /// Any other event.
    Other,
}

pub enum MdEventKindView {
    FencedCodeStart(Seq<char>),
    AutolinkStart(Seq<char>),
    CodeBlockEnd,
    Other,
}

impl View for MdEventKind {
    type V = MdEventKindView;

    open spec fn view(&self) -> MdEventKindView {
        match self {
            MdEventKind::FencedCodeStart(info) => MdEventKindView::FencedCodeStart(info@),
            MdEventKind::AutolinkStart(dest) => MdEventKindView::AutolinkStart(dest@),
            MdEventKind::CodeBlockEnd => MdEventKindView::CodeBlockEnd,
            MdEventKind::Other => MdEventKindView::Other,
        }
    }
}

/// A markdown event with the byte range of the source that it covers.
pub struct MdEvent {
    pub kind: MdEventKind,
    pub start: usize,
    pub end: usize,
}

pub struct MdEventView {
    pub kind: MdEventKindView,
    pub start: int,
    pub end: int,
}

impl View for MdEvent {
    type V = MdEventView;

    open spec fn view(&self) -> MdEventView {
        MdEventView { kind: self.kind@, start: self.start as int, end: self.end as int }
    }
}

/// The events, with byte ranges, that pulldown-cmark's parser (default
/// options) yields for `text`.
pub uninterp spec fn markdown_events(text: Seq<char>) -> Seq<MdEventView>;

/// The events that an offset iterator has still to yield.
pub uninterp spec fn pending_events(it: OffsetIter<'_>) -> Seq<MdEventView>;

/// Starts pulldown-cmark's parser on `text` (`Parser::new(text).into_offset_iter()`).
/// The iterator yields the events of `markdown_events(text)`.
#[verifier::external_body]
fn markdown_offset_iter(text: &str) -> (it: OffsetIter<'_>)
    ensures
        pending_events(it) == markdown_events(text@),
{
    Parser::new(text).into_offset_iter()
}

/// The next event of the iterator (`OffsetIter::next`), told apart as
/// `MdEventKind` says; `None` once every event was yielded.
#[verifier::external_body]
fn next_event(it: &mut OffsetIter<'_>) -> (r: Option<MdEvent>)
    ensures
        pending_events(*old(it)).len() == 0 ==> r is None,
        pending_events(*old(it)).len() > 0 ==> {
            &&& r matches Some(e)
            &&& e@ == pending_events(*old(it))[0]
            &&& pending_events(*final(it)) == pending_events(*old(it)).drop_first()
        },
{
    let (event, range) = it.next()?;
    let kind = match event {
        Event::Start(Tag::CodeBlock(CodeBlockKind::Fenced(info))) => MdEventKind::FencedCodeStart(info.to_string()),
        Event::Start(Tag::Link { link_type: LinkType::Autolink, dest_url, .. }) => MdEventKind::AutolinkStart(dest_url.to_string()),
        Event::End(TagEnd::CodeBlock) => MdEventKind::CodeBlockEnd,
        _ => MdEventKind::Other,
    };
    Some(MdEvent { kind, start: range.start, end: range.end })
}

/// Where the typst code of a snippet comes from.
pub enum TypstSource {
    /// The code of a fenced code block.
    Inline(String),
    /// A file of the book, named by an autolink `<typst://file>`.
    File(String),
}

pub enum TypstSourceView {
    Inline(Seq<char>),
    File(Seq<char>),
}

impl View for TypstSource {
    type V = TypstSourceView;

    open spec fn view(&self) -> TypstSourceView {
        match self {
            TypstSource::Inline(t) => TypstSourceView::Inline(t@),
            TypstSource::File(f) => TypstSourceView::File(f@),
        }
    }
}

/// A typst snippet of a chapter: the byte range that the rendered output
/// replaces, and the code to render.
pub struct TypstBlock {
    pub start: usize,
    pub end: usize,
    pub source: TypstSource,
}

pub struct TypstBlockView {
    pub start: int,
    pub end: int,
    pub source: TypstSourceView,
}

impl View for TypstBlock {
    type V = TypstBlockView;

    open spec fn view(&self) -> TypstBlockView {
        TypstBlockView { start: self.start as int, end: self.end as int, source: self.source@ }
    }
}

pub open spec fn blocks_view(v: Seq<TypstBlock>) -> Seq<TypstBlockView> {
    v.map_values(|b: TypstBlock| b@)
}

/// The information line that marks a code block as typst.
pub open spec fn typst_info() -> Seq<char> {
    "typst"@
}

/// The scheme of autolinks that name a typst file.
pub open spec fn typst_scheme() -> Seq<char> {
    "typst://"@
}

pub open spec fn prepend_blocks(
    acc: Seq<TypstBlockView>,
    rest: Option<Seq<TypstBlockView>>,
) -> Option<Seq<TypstBlockView>> {
    match rest {
        Some(s) => Some(acc + s),
        None => None,
    }
}

/// The typst snippets that a chapter's events describe, in order; `None`
/// where a typst code block is not closed right after its one text event,
/// or where that text does not fall on character boundaries.
///
/// A fenced code block whose information line is exactly `typst` yields its
/// text; an empty one (closed right after it opens) yields empty text.  An autolink
/// whose destination starts with `typst://` names the file after it.
pub open spec fn scan_events(evs: Seq<MdEventView>, bytes: Seq<u8>) -> Option<Seq<TypstBlockView>>
    decreases evs.len(),
{
    if evs.len() == 0 {
        Some(seq![])
    } else {
        let e = evs[0];
        match e.kind {
            MdEventKindView::FencedCodeStart(info) => {
                if info != typst_info() {
                    scan_events(evs.drop_first(), bytes)
                } else if evs.len() < 2 {
                    None
                } else {
                    let t = evs[1];
                    if t.kind is CodeBlockEnd {
                        let b = TypstBlockView { start: e.start, end: e.end, source: TypstSourceView::Inline(seq![]) };
                        prepend_blocks(seq![b], scan_events(evs.skip(2), bytes))
                    } else if evs.len() < 3 || !(evs[2].kind is CodeBlockEnd) {
                        None
                    } else if !slice_ok(bytes, t.start, t.end) {
                        None
                    } else {
                        let b = TypstBlockView {
                            start: e.start,
                            end: e.end,
                            source: TypstSourceView::Inline(decode_utf8(bytes.subrange(t.start, t.end))),
                        };
                        prepend_blocks(seq![b], scan_events(evs.skip(3), bytes))
                    }
                }
            },
            MdEventKindView::AutolinkStart(dest) => {
                if typst_scheme().is_prefix_of(dest) {
                    let b = TypstBlockView {
                        start: e.start,
                        end: e.end,
                        source: TypstSourceView::File(dest.skip(typst_scheme().len() as int)),
                    };
                    prepend_blocks(seq![b], scan_events(evs.drop_first(), bytes))
                } else {
                    scan_events(evs.drop_first(), bytes)
                }
            },
            _ => scan_events(evs.drop_first(), bytes),
        }
    }
}

/// The typst snippets of a chapter, in the order in which they occur.
pub open spec fn chapter_blocks(content: &str) -> Option<Seq<TypstBlockView>> {
    scan_events(markdown_events(content@), content.spec_bytes())
}

/// Finds the typst snippets of a chapter: fenced code blocks whose
/// information line is `typst`, and autolinks `<typst://file>`.
pub fn typst_blocks(content: &str) -> (r: Option<Vec<TypstBlock>>)
    ensures
        chapter_blocks(content) == match r {
            Some(v) => Some(blocks_view(v@)),
            None => None::<Seq<TypstBlockView>>,
        },
{
    let ghost bytes = content.spec_bytes();
    let mut it = markdown_offset_iter(content);
    let mut blocks: Vec<TypstBlock> = Vec::new();
    loop
        invariant
            bytes == content.spec_bytes(),
            chapter_blocks(content) == prepend_blocks(
                blocks_view(blocks@),
                scan_events(pending_events(it), bytes),
            ),
        decreases pending_events(it).len(),
    {
        let ghost before = pending_events(it);
        let ghost acc = blocks_view(blocks@);
        let ev = match next_event(&mut it) {
            None => {
                assert(acc + seq![] =~= acc);
                return Some(blocks);
            },
            Some(ev) => ev,
        };
        match ev.kind {
            MdEventKind::FencedCodeStart(info) => {
                if !str_eq(info.as_str(), "typst") {
                    continue;
                }
                let text_ev = match next_event(&mut it) {
                    None => return None,
                    Some(t) => t,
                };
                let is_end = match text_ev.kind {
                    MdEventKind::CodeBlockEnd => true,
                    _ => false,
                };
                let text = if is_end {
                    String::new()
                } else {
                    match next_event(&mut it) {
                        Some(MdEvent { kind: MdEventKind::CodeBlockEnd, .. }) => {},
                        _ => return None,
                    }
                    match byte_slice(content, text_ev.start, text_ev.end) {
                        None => return None,
                        Some(t) => t,
                    }
                };
                let block = TypstBlock { start: ev.start, end: ev.end, source: TypstSource::Inline(text) };
                blocks.push(block);
                proof {
                    let used: int = if is_end { 2 } else { 3 };
                    assert(pending_events(it) == before.skip(used));
                    assert(blocks_view(blocks@) =~= acc + seq![block@]);
                }
            },
            MdEventKind::AutolinkStart(dest) => {
                if let Some(file) = strip_prefix(dest.as_str(), "typst://") {
                    let block = TypstBlock { start: ev.start, end: ev.end, source: TypstSource::File(file) };
                    blocks.push(block);
                    proof {
                        assert(blocks_view(blocks@) =~= acc + seq![block@]);
                    }
                }
            },
            _ => {},
        }
    }
}


/// The markup that wraps rendered typst output in a chapter.
pub open spec fn div_wrapped(text: Seq<char>) -> Seq<char> {
    "<div class=\"typst\">"@ + text + "</div>"@
}

/// Wraps rendered output in `<div class="typst">` and `</div>`.
pub fn div_wrap(text: &str) -> (r: String)
    ensures
        r@ == div_wrapped(text@),
{
    concat3("<div class=\"typst\">", text, "</div>")
}

/// Text that takes the place of a byte range of a chapter.
pub struct Replacement {
    pub start: usize,
    pub end: usize,
    pub text: String,
}

pub struct ReplacementView {
    pub start: int,
    pub end: int,
    pub text: Seq<char>,
}

impl View for Replacement {
    type V = ReplacementView;

    open spec fn view(&self) -> ReplacementView {
        ReplacementView { start: self.start as int, end: self.end as int, text: self.text@ }
    }
}

pub open spec fn replacements_view(v: Seq<Replacement>) -> Seq<ReplacementView> {
    v.map_values(|r: Replacement| r@)
}

/// Whether the replacements can be made from byte `from` on: each starts
/// at or after the end of the one before, and every cut falls on a
/// character boundary inside the text.
pub open spec fn splice_ok(bytes: Seq<u8>, reps: Seq<ReplacementView>, from: int) -> bool
    decreases reps.len(),
{
    if reps.len() == 0 {
        slice_ok(bytes, from, bytes.len() as int)
    } else {
        slice_ok(bytes, from, reps[0].start) && splice_ok(bytes, reps.drop_first(), reps[0].end)
    }
}

/// The bytes of the text from byte `from` on, with each replacement in
/// place of its range.
pub open spec fn spliced(bytes: Seq<u8>, reps: Seq<ReplacementView>, from: int) -> Seq<u8>
    decreases reps.len(),
{
    if reps.len() == 0 {
        bytes.subrange(from, bytes.len() as int)
    } else {
        bytes.subrange(from, reps[0].start) + encode_utf8(reps[0].text) + spliced(
            bytes,
            reps.drop_first(),
            reps[0].end,
        )
    }
}

/// Puts each replacement in place of its byte range of `content`; `None`
/// where the ranges are out of order, out of bounds, or cut a character.
pub fn replace_ranges(content: &str, reps: &Vec<Replacement>) -> (r: Option<String>)
    ensures
        r is Some <==> splice_ok(content.spec_bytes(), replacements_view(reps@), 0),
        r matches Some(out) ==> encode_utf8(out@) == spliced(
            content.spec_bytes(),
            replacements_view(reps@),
            0,
        ),
{
    let ghost bytes = content.spec_bytes();
    let ghost view = replacements_view(reps@);
    let mut output = String::new();
    let mut last: usize = 0;
    let mut i: usize = 0;
    assert(view.skip(0) =~= view);
    while i < reps.len()
        invariant
            bytes == content.spec_bytes(),
            view == replacements_view(reps@),
            i <= reps.len(),
            splice_ok(bytes, view, 0) == splice_ok(bytes, view.skip(i as int), last as int),
            spliced(bytes, view, 0) == encode_utf8(output@) + spliced(bytes, view.skip(i as int), last as int),
        decreases reps.len() - i,
    {
        let rep = &reps[i];
        assert(view.skip(i as int)[0] == rep@);
        assert(view.skip(i as int).drop_first() =~= view.skip(i + 1));
        let piece = match byte_slice(content, last, rep.start) {
            None => return None,
            Some(p) => p,
        };
        let ghost before = output@;
        output.append(piece.as_str());
        output.append(rep.text.as_str());
        proof {
            lemma_encode_concat(before, piece@);
            lemma_encode_concat(before + piece@, rep.text@);
            assert(output@ == before + piece@ + rep.text@);
        }
        last = rep.end;
        i = i + 1;
    }
    let tail = match byte_slice(content, last, content.as_bytes().len()) {
        None => return None,
        Some(t) => t,
    };
    let ghost before = output@;
    output.append(tail.as_str());
    proof {
        lemma_encode_concat(before, tail@);
    }
    Some(output)
}


/// The replacements for a chapter's snippets: each snippet's range takes
/// the markdown made for it.
pub open spec fn chapter_replacements(blocks: Seq<TypstBlockView>, markdown: Seq<Seq<char>>) -> Seq<ReplacementView> {
    Seq::new(
        blocks.len(),
        |i: int| ReplacementView { start: blocks[i].start, end: blocks[i].end, text: markdown[i] },
    )
}

/// Puts the markdown made for each snippet of a chapter (see
/// `Linker::replace`) in the snippet's place; `None` where there is not one
/// piece per snippet or the snippets' ranges cannot be cut out of the
/// chapter in order.
pub fn render_chapter(content: &str, blocks: &Vec<TypstBlock>, markdown: &Vec<String>) -> (r: Option<String>)
    ensures
        r is Some <==> blocks.len() == markdown.len() && splice_ok(
            content.spec_bytes(),
            chapter_replacements(blocks_view(blocks@), crate::license::strings_view(markdown@)),
            0,
        ),
        r matches Some(out) ==> encode_utf8(out@) == spliced(
            content.spec_bytes(),
            chapter_replacements(blocks_view(blocks@), crate::license::strings_view(markdown@)),
            0,
        ),
{
    if blocks.len() != markdown.len() {
        return None;
    }
    let ghost target = chapter_replacements(blocks_view(blocks@), crate::license::strings_view(markdown@));
    let mut reps: Vec<Replacement> = Vec::new();
    let mut i: usize = 0;
    while i < blocks.len()
        invariant
            blocks.len() == markdown.len(),
            target == chapter_replacements(blocks_view(blocks@), crate::license::strings_view(markdown@)),
            i <= blocks.len(),
            replacements_view(reps@) =~= target.take(i as int),
        decreases blocks.len() - i,
    {
        let text = markdown[i].clone();
        let rep = Replacement { start: blocks[i].start, end: blocks[i].end, text };
        assert(blocks_view(blocks@)[i as int] == blocks@[i as int]@);
        assert(crate::license::strings_view(markdown@)[i as int] == markdown@[i as int]@);
        assert(target[i as int] == rep@);
        let ghost old_reps = reps@;
        reps.push(rep);
        assert(replacements_view(reps@) =~= replacements_view(old_reps).push(rep@));
        i = i + 1;
    }
    assert(target.take(i as int) =~= target);
    replace_ranges(content, &reps)
}

/// A chapter with no typst snippet comes out of `render_chapter`
/// unchanged: the cuts at its start and end fall on character boundaries,
/// and splicing in no replacement leaves all its bytes.
pub proof fn lemma_no_snippets_unchanged(content: &str)
    ensures
        splice_ok(content.spec_bytes(), seq![], 0),
        spliced(content.spec_bytes(), seq![], 0) == content.spec_bytes(),
        chapter_replacements(seq![], seq![]) == Seq::<ReplacementView>::empty(),
{
    let bytes = content.spec_bytes();
    encode_utf8_valid_utf8(content@);
    is_char_boundary_start_end_of_seq(bytes);
    assert(bytes.subrange(0, bytes.len() as int) =~= bytes);
    assert(chapter_replacements(seq![], seq![]) =~= Seq::<ReplacementView>::empty());
}

/// What to render for a snippet.
pub enum CompileJob {
    /// The code of a code block, rendered as the page `source_path`.
    Inline { source_path: String, text: String },
    /// The file that the autolink names as `file`: it is `source_path`
    /// below the book source, read from `full_path`.
    Include { file: String, source_path: String, full_path: String },
}

/// The path below the book source of a file that the page `chapter_path`
/// includes as `file`: an absolute name is taken from the book source (all
/// its leading slashes dropped, so it cannot name a file outside), a
/// relative one from the page's directory.
pub open spec fn include_path(chapter_path: Seq<char>, file: Seq<char>) -> Seq<char> {
    if file.len() > 0 && file[0] == '/' {
        file.skip(leading_slashes(file) as int)
    } else {
        match path_parent(chapter_path) {
            Some(dir) => joined_path(dir, file),
            None => file,
        }
    }
}

/// What to render for a snippet of the page `chapter_path` (below the book
/// source) of a book whose source is `book_source`.
pub fn compile_job(source: TypstSource, chapter_path: &str, book_source: &str) -> (r: CompileJob)
    ensures
        match source {
            TypstSource::Inline(text) => {
                &&& r matches CompileJob::Inline { source_path, text: t }
                &&& r->Inline_source_path@ == chapter_path@
                &&& r->Inline_text@ == text@
            },
            TypstSource::File(file) => {
                &&& r matches CompileJob::Include { file: f, source_path, full_path }
                &&& r->Include_file@ == file@
                &&& r->Include_source_path@ == include_path(chapter_path@, file@)
                &&& r->Include_full_path@ == joined_path(book_source@, r->Include_source_path@)
            },
        },
{
    match source {
        TypstSource::Inline(text) => CompileJob::Inline { source_path: owned(chapter_path), text },
        TypstSource::File(file) => {
            let absolute = file.as_str().unicode_len() > 0 && file.as_str().get_char(0) == '/';
            let source_path = if absolute {
                trim_leading_slashes(file.as_str())
            } else {
                match parent(chapter_path) {
                    Some(dir) => join_path(dir.as_str(), file.as_str()),
                    None => owned(file.as_str()),
                }
            };
            let full_path = join_path(book_source, source_path.as_str());
            CompileJob::Include { file, source_path, full_path }
        },
    }
}

/// Why reading an included file failed.
pub enum ReadFailure {
    NotFound,
    InvalidData,
    Other,
}

/// The error for an included file that could not be read, where the
/// preprocessor words one itself; `None` where the read error stands as it
/// is.
pub fn include_error(kind: ReadFailure, file: &str) -> (r: Option<String>)
    ensures
        kind is NotFound ==> (r matches Some(m) && m@ == "Could not find file '"@ + file@ + "' in book source."@),
        kind is InvalidData ==> (r matches Some(m) && m@ == "File to be included '"@ + file@ + "' contains invalid UTF-8"@),
        kind is Other ==> r is None,
{
    match kind {
        ReadFailure::NotFound => Some(concat3("Could not find file '", file, "' in book source.")),
        ReadFailure::InvalidData => Some(concat3("File to be included '", file, "' contains invalid UTF-8")),
        ReadFailure::Other => None,
    }
}


/// An included file named absolutely (`<typst:///...>`, with any number of
/// slashes) resolves to a path that does not start with a slash, so joining
/// it to the book source stays below the book source rather than replacing
/// it.
pub proof fn lemma_absolute_include_is_relative(chapter_path: Seq<char>, file: Seq<char>)
    requires
        file.len() > 0,
        file[0] == '/',
    ensures
        include_path(chapter_path, file).len() == 0 || include_path(chapter_path, file)[0] != '/',
{
    crate::text::lemma_no_slash_after_trim(file);
}

/// An empty typst code block (closed right after it opens) is a snippet of
/// empty code spanning the block.
pub proof fn lemma_empty_block_has_empty_code(evs: Seq<MdEventView>, bytes: Seq<u8>)
    requires
        evs.len() >= 2,
        evs[0].kind == MdEventKindView::FencedCodeStart(typst_info()),
        evs[1].kind is CodeBlockEnd,
    ensures
        scan_events(evs, bytes) == prepend_blocks(
            seq![TypstBlockView { start: evs[0].start, end: evs[0].end, source: TypstSourceView::Inline(seq![]) }],
            scan_events(evs.skip(2), bytes),
        ),
{
}


/// The snippets of a chapter's events, one event group at a time: a typst
/// code block with text (start, text, end) gives one snippet of that text
/// and scanning goes on right after its end; an empty typst block (start,
/// end) gives one snippet of empty code; a `typst://` autolink gives one
/// file snippet; any other event gives none.  So every typst block and
/// link of the chapter yields its own snippet, in order.
pub proof fn lemma_scan_one_group_at_a_time(
    e: MdEventView,
    t: MdEventView,
    c: MdEventView,
    rest: Seq<MdEventView>,
    bytes: Seq<u8>,
)
    ensures
        e.kind == MdEventKindView::FencedCodeStart(typst_info()) && !(t.kind is CodeBlockEnd) && c.kind is CodeBlockEnd
            && slice_ok(bytes, t.start, t.end) ==> scan_events(seq![e, t, c] + rest, bytes) == prepend_blocks(
            seq![TypstBlockView { start: e.start, end: e.end, source: TypstSourceView::Inline(decode_utf8(bytes.subrange(t.start, t.end))) }],
            scan_events(rest, bytes),
        ),
        e.kind == MdEventKindView::FencedCodeStart(typst_info()) && c.kind is CodeBlockEnd ==> scan_events(
            seq![e, c] + rest,
            bytes,
        ) == prepend_blocks(
            seq![TypstBlockView { start: e.start, end: e.end, source: TypstSourceView::Inline(seq![]) }],
            scan_events(rest, bytes),
        ),
        e.kind is AutolinkStart && typst_scheme().is_prefix_of(e.kind->AutolinkStart_0) ==> scan_events(
            seq![e] + rest,
            bytes,
        ) == prepend_blocks(
            seq![TypstBlockView { start: e.start, end: e.end, source: TypstSourceView::File(e.kind->AutolinkStart_0.skip(typst_scheme().len() as int)) }],
            scan_events(rest, bytes),
        ),
        (e.kind is Other || e.kind is CodeBlockEnd) ==> scan_events(seq![e] + rest, bytes) == scan_events(rest, bytes),
{
    assert((seq![e, t, c] + rest).skip(3) =~= rest);
    assert((seq![e, c] + rest).skip(2) =~= rest);
    assert((seq![e] + rest).drop_first() =~= rest);
}

/// Every snippet gets its own replacement: the i-th replacement cuts out
/// the i-th snippet's range and puts in the i-th piece of markdown.
pub proof fn lemma_every_snippet_replaced(blocks: Seq<TypstBlockView>, markdown: Seq<Seq<char>>)
    ensures
        chapter_replacements(blocks, markdown).len() == blocks.len(),
        forall|i: int| 0 <= i < blocks.len() ==> #[trigger] chapter_replacements(blocks, markdown)[i] == (ReplacementView {
            start: blocks[i].start,
            end: blocks[i].end,
            text: markdown[i],
        }),
{
}

/// How much the replacements lengthen the text: each adds its text's
/// encoding and removes its range.
pub open spec fn growth(reps: Seq<ReplacementView>) -> int
    decreases reps.len(),
{
    if reps.len() == 0 {
        0
    } else {
        encode_utf8(reps[0].text).len() - (reps[0].end - reps[0].start) + growth(reps.drop_first())
    }
}

/// Splicing keeps every byte outside the replaced ranges and puts in every
/// replacement: the result is the text from `from` on, lengthened by each
/// replacement's text and shortened by each replaced range.
pub proof fn lemma_splice_length(bytes: Seq<u8>, reps: Seq<ReplacementView>, from: int)
    requires
        splice_ok(bytes, reps, from),
    ensures
        spliced(bytes, reps, from).len() == bytes.len() - from + growth(reps),
    decreases reps.len(),
{
    if reps.len() > 0 {
        lemma_splice_length(bytes, reps.drop_first(), reps[0].end);
    }
}


/// A typst code block that is not closed right after its one text event is
/// no well-formed chapter: the scan gives `None`, and so does a text that
/// cuts a character.
pub proof fn lemma_scan_refuses_unclosed_blocks(
    e: MdEventView,
    t: MdEventView,
    rest: Seq<MdEventView>,
    bytes: Seq<u8>,
)
    requires
        e.kind == MdEventKindView::FencedCodeStart(typst_info()),
    ensures
        scan_events(seq![e], bytes) is None,
        !(t.kind is CodeBlockEnd) && (rest.len() == 0 || !(rest[0].kind is CodeBlockEnd)) ==> scan_events(
            seq![e, t] + rest,
            bytes,
        ) is None,
        !(t.kind is CodeBlockEnd) && rest.len() > 0 && rest[0].kind is CodeBlockEnd && !slice_ok(
            bytes,
            t.start,
            t.end,
        ) ==> scan_events(seq![e, t] + rest, bytes) is None,
{
    assert((seq![e, t] + rest)[1] == t);
    assert(rest.len() > 0 ==> (seq![e, t] + rest)[2] == rest[0]);
}

/// A file that a page names relatively is taken from the page's directory.
pub proof fn lemma_relative_include_from_page_dir(chapter_path: Seq<char>, file: Seq<char>)
    requires
        file.len() == 0 || file[0] != '/',
    ensures
        path_parent(chapter_path) matches Some(dir) ==> include_path(chapter_path, file) == joined_path(dir, file),
        path_parent(chapter_path) is None ==> include_path(chapter_path, file) == file,
{
}

/// One replacement puts its text between the bytes before its range and
/// the bytes after it.
pub proof fn lemma_splice_one(bytes: Seq<u8>, rep: ReplacementView)
    ensures
        spliced(bytes, seq![rep], 0) == bytes.subrange(0, rep.start) + encode_utf8(rep.text) + bytes.subrange(
            rep.end,
            bytes.len() as int,
        ),
        splice_ok(bytes, seq![rep], 0) == (slice_ok(bytes, 0, rep.start) && slice_ok(bytes, rep.end, bytes.len() as int)),
{
    let none = Seq::<ReplacementView>::empty();
    assert(seq![rep].drop_first() =~= none);
    assert(seq![rep][0] == rep);
    assert(spliced(bytes, none, rep.end) == bytes.subrange(rep.end, bytes.len() as int));
    assert(splice_ok(bytes, none, rep.end) == slice_ok(bytes, rep.end, bytes.len() as int));
}


/// The views of snippets and of replacements: one entry per element, in
/// order.
pub proof fn lemma_views_keep_every_element(blocks: Seq<TypstBlock>, reps: Seq<Replacement>)
    ensures
        blocks_view(blocks).len() == blocks.len(),
        forall|i: int| 0 <= i < blocks.len() ==> #[trigger] blocks_view(blocks)[i] == blocks[i]@,
        replacements_view(reps).len() == reps.len(),
        forall|i: int| 0 <= i < reps.len() ==> #[trigger] replacements_view(reps)[i] == reps[i]@,
{
}

} // verus!
