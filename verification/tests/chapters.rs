use mdbook_typst::markdown::{
    compile_job, div_wrap, include_error, render_chapter, replace_ranges, typst_blocks, CompileJob, ReadFailure,
    Replacement, TypstBlock, TypstSource,
};

fn inline_text(b: &TypstBlock) -> Option<&str> {
    match &b.source {
        TypstSource::Inline(t) => Some(t.as_str()),
        TypstSource::File(_) => None,
    }
}

fn file_name(b: &TypstBlock) -> Option<&str> {
    match &b.source {
        TypstSource::File(f) => Some(f.as_str()),
        TypstSource::Inline(_) => None,
    }
}

#[test]
fn div_wrap_exact() {
    assert_eq!(div_wrap("x"), "<div class=\"typst\">x</div>");
    assert_eq!(div_wrap(""), "<div class=\"typst\"></div>");
}

#[test]
fn typst_code_blocks_are_found() {
    let content = "# Title\n\n```typst\nMy typst document\n```\n\nAfter.\n";
    let blocks = typst_blocks(content).unwrap();
    assert_eq!(blocks.len(), 1);
    assert_eq!(inline_text(&blocks[0]), Some("My typst document\n"));
    assert_eq!(&content[blocks[0].start..blocks[0].end], "```typst\nMy typst document\n```");
}

#[test]
fn other_code_blocks_are_left_alone() {
    let content = "```rust\nfn main() {}\n```\n\n```typstx\na\n```\n\n    indented typst\n";
    assert_eq!(typst_blocks(content).unwrap().len(), 0);
}

#[test]
fn typst_autolinks_name_files() {
    let content = "See <typst://included.typ> and <https://typst.app> and <typst:///abs.typ>.\n";
    let blocks = typst_blocks(content).unwrap();
    assert_eq!(blocks.len(), 2);
    assert_eq!(file_name(&blocks[0]), Some("included.typ"));
    assert_eq!(&content[blocks[0].start..blocks[0].end], "<typst://included.typ>");
    assert_eq!(file_name(&blocks[1]), Some("/abs.typ"));
}

#[test]
fn empty_typst_block_has_empty_code() {
    let content = "```typst\n```\n";
    let blocks = typst_blocks(content).unwrap();
    assert_eq!(blocks.len(), 1);
    assert_eq!(blocks[0].start, 0);
    assert_eq!(&content[blocks[0].start..blocks[0].end], "```typst\n```");
    assert_eq!(inline_text(&blocks[0]), Some(""));
}

#[test]
fn chapter_rendering_replaces_each_snippet() {
    let content = "A\n\n```typst\n1\n```\n\nB <typst://f.typ> C\n";
    let blocks = typst_blocks(content).unwrap();
    let out = render_chapter(content, &blocks, &vec![div_wrap("<svg1/>"), div_wrap("<svg2/>")]).unwrap();
    assert_eq!(
        out,
        "A\n\n<div class=\"typst\"><svg1/></div>\n\nB <div class=\"typst\"><svg2/></div> C\n"
    );
}

#[test]
fn chapter_without_snippets_is_unchanged() {
    let content = "# Plain chapter\n\nNothing héré.\n";
    let blocks = typst_blocks(content).unwrap();
    assert!(blocks.is_empty());
    assert_eq!(render_chapter(content, &blocks, &Vec::new()), Some(content.to_string()));
}

#[test]
fn rendering_needs_one_piece_per_snippet() {
    let content = "```typst\n1\n```\n";
    let blocks = typst_blocks(content).unwrap();
    assert_eq!(render_chapter(content, &blocks, &Vec::new()), None);
}

#[test]
fn replace_ranges_checks_order_and_boundaries() {
    let rep = |start, end, text: &str| Replacement { start, end, text: text.to_string() };
    assert_eq!(replace_ranges("abcdef", &vec![rep(1, 2, "X"), rep(4, 6, "YZ")]), Some("aXcdYZ".to_string()));
    assert_eq!(replace_ranges("abcdef", &vec![rep(4, 6, "Y"), rep(1, 2, "X")]), None);
    assert_eq!(replace_ranges("abcdef", &vec![rep(4, 7, "Y")]), None);
    assert_eq!(replace_ranges("aé", &vec![rep(2, 3, "Y")]), None);
    assert_eq!(replace_ranges("aé", &vec![rep(1, 3, "e")]), Some("ae".to_string()));
    assert_eq!(replace_ranges("", &Vec::new()), Some(String::new()));
}

#[test]
fn compile_jobs_resolve_included_files() {
    match compile_job(TypstSource::Inline("x".to_string()), "nested/nested.md", "/b/src") {
        CompileJob::Inline { source_path, text } => {
            assert_eq!(source_path, "nested/nested.md");
            assert_eq!(text, "x");
        }
        _ => panic!("expected inline"),
    }
    match compile_job(TypstSource::File("nested.typ".to_string()), "nested/nested.md", "/b/src") {
        CompileJob::Include { file, source_path, full_path } => {
            assert_eq!(file, "nested.typ");
            assert_eq!(source_path, "nested/nested.typ");
            assert_eq!(full_path, "/b/src/nested/nested.typ");
        }
        _ => panic!("expected include"),
    }
    match compile_job(TypstSource::File("/included.typ".to_string()), "nested/nested.md", "/b/src") {
        CompileJob::Include { source_path, full_path, .. } => {
            assert_eq!(source_path, "included.typ");
            assert_eq!(full_path, "/b/src/included.typ");
        }
        _ => panic!("expected include"),
    }
    match compile_job(TypstSource::File("../included.typ".to_string()), "nested/nested.md", "/b/src") {
        CompileJob::Include { source_path, full_path, .. } => {
            assert_eq!(source_path, "nested/../included.typ");
            assert_eq!(full_path, "/b/src/nested/../included.typ");
        }
        _ => panic!("expected include"),
    }
    match compile_job(TypstSource::File("included.typ".to_string()), "typst.md", "/b/src") {
        CompileJob::Include { source_path, .. } => assert_eq!(source_path, "included.typ"),
        _ => panic!("expected include"),
    }
}

#[test]
fn absolute_includes_stay_in_the_book_source() {
    match compile_job(TypstSource::File("////etc/x".to_string()), "nested/nested.md", "/b/src") {
        CompileJob::Include { source_path, full_path, .. } => {
            assert_eq!(source_path, "etc/x");
            assert_eq!(full_path, "/b/src/etc/x");
        }
        _ => panic!("expected include"),
    }
    match compile_job(TypstSource::File("/".to_string()), "a.md", "/b/src") {
        CompileJob::Include { source_path, .. } => assert_eq!(source_path, ""),
        _ => panic!("expected include"),
    }
}

#[test]
fn include_errors() {
    assert_eq!(
        include_error(ReadFailure::NotFound, "a.typ"),
        Some("Could not find file 'a.typ' in book source.".to_string())
    );
    assert_eq!(
        include_error(ReadFailure::InvalidData, "a.typ"),
        Some("File to be included 'a.typ' contains invalid UTF-8".to_string())
    );
    assert_eq!(include_error(ReadFailure::Other, "a.typ"), None);
}
