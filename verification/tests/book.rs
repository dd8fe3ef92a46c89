use mdbook_typst::config::{
    auto_download_setting, book_linker, book_world, default_allowed_licenses, supports, toml_false, typst_pkgs,
    Config, ConfigValue,
};
use mdbook_typst::download::AutoDownload;
use mdbook_typst::linker::{svg_name, Linker};
use mdbook_typst::package::{PackageSpec, PackageVersion};
use mdbook_typst::world::{entry_matches, FileAction, FileRequest, MdbookWorld};

fn world() -> MdbookWorld {
    MdbookWorld::new(
        "/book/typst-pkgs".to_string(),
        Some(AutoDownload::BuiltIn),
        default_allowed_licenses(),
        "/book/src".to_string(),
    )
}

fn lilaq() -> PackageSpec {
    PackageSpec::new("preview".to_string(), "lilaq".to_string(), PackageVersion { major: 0, minor: 6, patch: 0 })
}

#[test]
fn defaults() {
    let c = Config::default();
    assert!(matches!(c.auto_download, ConfigValue::Boolean(false)));
    assert_eq!(c.package_root, "typst-pkgs");
    assert!(c.allowed_licenses.is_none());
    assert!(c.svg_dir.is_none());
    assert!(matches!(toml_false(), ConfigValue::Boolean(false)));
    assert_eq!(typst_pkgs(), "typst-pkgs");
    assert_eq!(default_allowed_licenses(), vec!["MIT".to_string(), "MIT OR Apache-2.0".to_string()]);
}

#[test]
fn auto_download_settings() {
    assert!(matches!(auto_download_setting(ConfigValue::Boolean(false)), Ok(None)));
    assert!(matches!(auto_download_setting(ConfigValue::Boolean(true)), Ok(Some(AutoDownload::BuiltIn))));
    match auto_download_setting(ConfigValue::Text("get.sh".to_string())) {
        Ok(Some(AutoDownload::Custom(p))) => assert_eq!(p, "get.sh"),
        _ => panic!("expected a custom downloader"),
    }
    match auto_download_setting(ConfigValue::Other("3".to_string())) {
        Err(e) => assert_eq!(
            e,
            "Unexpected value '3' for preprocessor.typst.autodownload, expected String or Boolean"
        ),
        _ => panic!("expected an error"),
    }
}

#[test]
fn book_world_joins_paths_and_licenses() {
    let w = book_world("/home/me/book", "src", Config::default()).ok().unwrap();
    assert_eq!(w.pkg_root, "/home/me/book/typst-pkgs");
    assert_eq!(w.book_source, "/home/me/book/src");
    assert!(w.auto_download.is_none());
    assert_eq!(w.allowed_licenses, vec!["MIT".to_string(), "MIT OR Apache-2.0".to_string()]);

    let mut c = Config::default();
    c.allowed_licenses = Some(vec!["Apache-2.0".to_string()]);
    c.auto_download = ConfigValue::Boolean(true);
    let w = book_world("/b", "src", c).ok().unwrap();
    assert_eq!(w.allowed_licenses, vec!["Apache-2.0".to_string()]);
    assert!(matches!(w.auto_download, Some(AutoDownload::BuiltIn)));

    let mut c = Config::default();
    c.auto_download = ConfigValue::Other("[]".to_string());
    assert!(book_world("/b", "src", c).is_err());
}

#[test]
fn only_html_is_supported() {
    assert_eq!(supports("html"), Ok(()));
    assert_eq!(supports("pdf"), Err("pdf backend is not supported.".to_string()));
}

#[test]
fn linker_choice() {
    assert!(book_linker("/b/src", None).unwrap().generated_dir().is_none());
    let l = book_linker("/b/src", Some("_typst_generated")).unwrap();
    assert_eq!(l.generated_dir(), Some("/b/src/_typst_generated".to_string()));
    assert!(book_linker("/b/src", Some("/abs")).is_none());
}

#[test]
fn package_files_come_from_the_archive() {
    match world().locate(FileRequest::Package { package: lilaq(), path: "lib.typ".to_string() }) {
        FileAction::Package { tar, fetch, entry } => {
            assert_eq!(tar, "/book/typst-pkgs/lilaq-0.6.0.tar");
            assert!(fetch);
            assert_eq!(entry, "lib.typ");
        }
        _ => panic!("expected a package file"),
    }
}

#[test]
fn main_file_is_the_snippet() {
    assert!(matches!(world().locate(FileRequest::Main), FileAction::Main));
}

#[test]
fn book_files_are_read_from_the_source() {
    match world().locate(FileRequest::Project { path: "nested/../img/a.png".to_string() }) {
        FileAction::Read { path } => assert_eq!(path, "/book/src/img/a.png"),
        _ => panic!("expected a read"),
    }
}

#[test]
fn files_outside_the_source_are_denied() {
    let w = world();
    assert!(matches!(w.locate(FileRequest::Project { path: "../secret.txt".to_string() }), FileAction::AccessDenied));
    assert!(matches!(w.locate(FileRequest::Project { path: "a/../../../etc/passwd".to_string() }), FileAction::AccessDenied));
}

#[test]
fn inline_linker_wraps_the_svg() {
    let l = Linker::new_inline();
    let r = l.replace("chapter.md", "code", "<svg/>".to_string());
    assert!(r.file.is_none());
    assert_eq!(r.markdown, "<div class=\"typst\"><svg/></div>");
    let r2 = l.replace("other/page.md", "else", "<svg/>".to_string());
    assert_eq!(r2.markdown, r.markdown);
}

#[test]
fn svg_names_are_two_hashes() {
    let n = svg_name("nested/page.md", "#set page(width: auto)");
    assert_eq!(n.len(), 37);
    assert!(n.ends_with(".svg"));
    assert_eq!(&n[16..17], "_");
    assert!(n[..16].chars().all(|c| c.is_ascii_digit() || ('A'..='F').contains(&c)));
    assert_eq!(n, svg_name("nested/page.md", "#set page(width: auto)"));
    assert_ne!(n, svg_name("nested/page.md", "#set page(width: 1cm)"));
    assert_ne!(n[..16], svg_name("page.md", "#set page(width: auto)")[..16]);
}

#[test]
fn source_linker_writes_a_file_and_links_to_it() {
    let l = Linker::try_new_in_source("/b/src", "_gen").unwrap();
    let name = svg_name("nested/page.md", "code");
    let r = l.replace("nested/page.md", "code", "<svg/>".to_string());
    let f = r.file.unwrap();
    assert_eq!(f.path, format!("/b/src/_gen/{name}"));
    assert_eq!(f.contents, "<svg/>");
    assert_eq!(r.markdown, format!("<div class=\"typst\">\n\n![](./../_gen/{name})\n\n</div>"));
    let r = l.replace("page.md", "code", "<svg/>".to_string());
    let name = svg_name("page.md", "code");
    assert_eq!(r.markdown, format!("<div class=\"typst\">\n\n![](./_gen/{name})\n\n</div>"));
}

#[test]
fn archive_entries_match_by_exact_path() {
    assert!(entry_matches(b"lib.typ", "lib.typ"));
    assert!(entry_matches("dé/x".as_bytes(), "dé/x"));
    assert!(!entry_matches(b"./lib.typ", "lib.typ"));
    assert!(!entry_matches(b"lib.ty", "lib.typ"));
    assert!(!entry_matches(b"lib.tyq", "lib.typ"));
}
