//! Version probing: token extraction, numeral parsing, generation
//! classification and the resolver's cache.

use x_win::gnome_shell::{parse_gnome_version, parse_u32_str, GnomeVersion};
use x_win::text::u32_to_string;
use x_win::{ShellGeneration, VersionResolver};

#[test]
fn decimal_rendering() {
    assert_eq!(u32_to_string(0), "0");
    assert_eq!(u32_to_string(7), "7");
    assert_eq!(u32_to_string(40), "40");
    assert_eq!(u32_to_string(u32::MAX), "4294967295");
}

#[test]
fn probe_output_third_token() {
    assert_eq!(parse_gnome_version("GNOME Shell 45.2"), "45.2");
    assert_eq!(parse_gnome_version("GNOME Shell 45.2\n"), "45.2");
    assert_eq!(parse_gnome_version("  GNOME   Shell   40.beta  extra"), "40.beta");
    assert_eq!(parse_gnome_version("GNOME\u{a0}Shell\u{2003}45.2"), "45.2");
    assert_eq!(parse_gnome_version("GNOME Shell"), "999");
    assert_eq!(parse_gnome_version(""), "999");
    assert_eq!(parse_gnome_version("   \n\t "), "999");
}

#[test]
fn numeral_parsing() {
    assert_eq!(parse_u32_str("45"), Some(45));
    assert_eq!(parse_u32_str("+45"), Some(45));
    assert_eq!(parse_u32_str("0"), Some(0));
    assert_eq!(parse_u32_str("4294967295"), Some(u32::MAX));
    assert_eq!(parse_u32_str("4294967296"), None);
    assert_eq!(parse_u32_str(""), None);
    assert_eq!(parse_u32_str("+"), None);
    assert_eq!(parse_u32_str("4a"), None);
    assert_eq!(parse_u32_str("-4"), None);
}

#[test]
fn version_classification() {
    let v = GnomeVersion::new("40.2");
    assert_eq!(v.version, 40);
    assert!(v.use_eval);
    assert_eq!(v.generation(), ShellGeneration::LegacyEval);

    let v = GnomeVersion::new("41");
    assert_eq!(v.version, 41);
    assert!(!v.use_eval);
    assert_eq!(v.generation(), ShellGeneration::LegacyExtension);

    let v = GnomeVersion::new("44.9");
    assert_eq!(v.generation(), ShellGeneration::LegacyExtension);

    let v = GnomeVersion::new("45.1");
    assert_eq!(v.version, 45);
    assert!(!v.use_eval);
    assert_eq!(v.generation(), ShellGeneration::ModernExtension);
}

#[test]
fn unparsable_version_selects_sentinel() {
    for text in ["", "beta", ".4", "999", "4294967296.1", "-3.0"] {
        let v = GnomeVersion::new(text);
        assert_eq!(v.version, 999);
        assert!(!v.use_eval);
        assert_eq!(v.generation(), ShellGeneration::ModernExtension);
    }
}

#[test]
fn resolver_is_idempotent() {
    let mut resolver = VersionResolver::new();
    let first = resolver.resolve(Some("GNOME Shell 40.2"));
    assert_eq!(first.version, 40);
    assert!(first.use_eval);
    let second = resolver.resolve(Some("GNOME Shell 45.0"));
    assert_eq!(second, first);
    let third = resolver.resolve(None);
    assert_eq!(third, first);
}

#[test]
fn resolver_probe_failure_sentinel() {
    let mut resolver = VersionResolver::new();
    let v = resolver.resolve(None);
    assert_eq!(v.version, 999);
    assert!(!v.use_eval);
    let again = resolver.resolve(Some("GNOME Shell 40.2"));
    assert_eq!(again, v);
}
