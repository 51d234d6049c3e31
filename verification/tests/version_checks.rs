//! Version comparator behaviour on concrete release strings.

use envready::errors::StageError;
use envready::version::check_kernel_version;
use envready::version::parse_version;
use envready::version::version_compatible;

#[test]
fn suffixed_version_at_threshold_is_compatible() {
    assert!(check_kernel_version("5.17.0-generic").is_ok());
}

#[test]
fn older_version_is_incompatible() {
    let r = check_kernel_version("5.16.9");
    assert!(matches!(
        r,
        Err(StageError::IncompatibleKernelVersion { minimum: (5, 17, 0) })
    ));
}

#[test]
fn newer_major_is_compatible() {
    assert!(check_kernel_version("6.0.0").is_ok());
}

#[test]
fn equal_triple_is_compatible() {
    assert!(version_compatible((5, 17, 0), (5, 17, 0)));
}

#[test]
fn higher_minor_beats_lower_patch() {
    assert!(version_compatible((5, 18, 0), (5, 17, 9)));
}

#[test]
fn lower_major_is_incompatible() {
    assert!(!version_compatible((4, 20, 99), (5, 17, 0)));
}

#[test]
fn higher_patch_is_compatible() {
    assert!(version_compatible((5, 17, 1), (5, 17, 0)));
}

#[test]
fn parse_strips_platform_suffix() {
    assert_eq!(parse_version("6.5.0-custom"), Some((6, 5, 0)));
}

#[test]
fn parse_with_trailing_newline_in_suffix() {
    assert_eq!(parse_version("6.5.0-35-generic\n"), Some((6, 5, 0)));
}

#[test]
fn parse_ignores_fourth_component() {
    assert_eq!(parse_version("5.17.0.1-foo"), Some((5, 17, 0)));
}

#[test]
fn parse_needs_three_components() {
    assert_eq!(parse_version("6.5"), None);
    assert_eq!(parse_version("6"), None);
    assert_eq!(parse_version(""), None);
}

#[test]
fn parse_rejects_non_digits() {
    assert_eq!(parse_version("6.5.x"), None);
    assert_eq!(parse_version("6..0"), None);
}

#[test]
fn parse_rejects_overflowing_component() {
    assert_eq!(parse_version("99999999999.0.0"), None);
    assert_eq!(parse_version("4294967295.0.0"), Some((4294967295, 0, 0)));
    assert_eq!(parse_version("4294967296.0.0"), None);
}

#[test]
fn parse_accepts_leading_zeros() {
    assert_eq!(parse_version("6.05.0"), Some((6, 5, 0)));
}

#[test]
fn parse_rejects_version_hidden_behind_hyphen() {
    assert_eq!(parse_version("generic-5.17.0"), None);
}
