use mdbook_typst::package::{PackageSpec, PackageVersion, rel_path};
use mdbook_typst::text::{byte_slice, decimal, hex_fixed, str_eq, strip_prefix, trim_leading_slashes};

fn lilaq() -> PackageSpec {
    PackageSpec::new(
        "preview".to_string(),
        "lilaq".to_string(),
        PackageVersion { major: 0, minor: 6, patch: 0 },
    )
}

#[test]
fn decimal_renders_digits() {
    assert_eq!(decimal(0), "0");
    assert_eq!(decimal(7), "7");
    assert_eq!(decimal(10), "10");
    assert_eq!(decimal(4294967295), "4294967295");
}

#[test]
fn hex_is_padded_upper_case() {
    assert_eq!(hex_fixed(0xBEEF, 16), "000000000000BEEF");
    assert_eq!(hex_fixed(u64::MAX, 16), "FFFFFFFFFFFFFFFF");
    assert_eq!(hex_fixed(0x1234, 2), "34");
    assert_eq!(hex_fixed(5, 0), "");
}

#[test]
fn string_comparison_and_prefix() {
    assert!(str_eq("typst", "typst"));
    assert!(!str_eq("typst", "typ"));
    assert!(!str_eq("typst", "Typst"));
    assert_eq!(strip_prefix("typst://a.typ", "typst://"), Some("a.typ".to_string()));
    assert_eq!(strip_prefix("typst:/a.typ", "typst://"), None);
    assert_eq!(strip_prefix("typ", "typst://"), None);
    assert_eq!(strip_prefix("héllo", "hé"), Some("llo".to_string()));
}

#[test]
fn byte_slice_respects_char_boundaries() {
    let s = "aé b";
    assert_eq!(byte_slice(s, 0, 1), Some("a".to_string()));
    assert_eq!(byte_slice(s, 1, 3), Some("é".to_string()));
    assert_eq!(byte_slice(s, 1, 2), None);
    assert_eq!(byte_slice(s, 3, 2), None);
    assert_eq!(byte_slice(s, 0, 6), None);
    assert_eq!(byte_slice(s, 5, 5), Some(String::new()));
}

#[test]
fn package_spec_text() {
    assert_eq!(lilaq().to_text(), "@preview/lilaq:0.6.0");
    let v = PackageVersion { major: 12, minor: 0, patch: 345 };
    assert_eq!(v.to_text(), "12.0.345");
}

#[test]
fn rel_path_is_namespace_name_version() {
    assert_eq!(rel_path(&lilaq()), "preview/lilaq-0.6.0");
}

#[test]
fn parse_reads_a_package_spec() {
    let p = PackageSpec::parse("@preview/lilaq:0.6.0").unwrap();
    assert_eq!(p.namespace, "preview");
    assert_eq!(p.name, "lilaq");
    assert_eq!((p.version.major, p.version.minor, p.version.patch), (0, 6, 0));
    assert_eq!(p.to_text(), "@preview/lilaq:0.6.0");
}

#[test]
fn parse_rejects_malformed_specs() {
    assert!(PackageSpec::parse("preview/lilaq:0.6.0").is_err());
    assert!(PackageSpec::parse("@preview/lilaq").is_err());
    assert!(PackageSpec::parse("@preview/lilaq:0.6").is_err());
    assert!(PackageSpec::parse("@preview/lilaq:0.6.0.1").is_err());
}

#[test]
fn leading_slashes_are_trimmed() {
    assert_eq!(trim_leading_slashes("///a/b"), "a/b");
    assert_eq!(trim_leading_slashes("a//b"), "a//b");
    assert_eq!(trim_leading_slashes("//"), "");
    assert_eq!(trim_leading_slashes(""), "");
}
