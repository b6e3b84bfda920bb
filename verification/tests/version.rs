use dynlint::version::{
    check_driver_version, is_outdated, is_whitespace, reported_version, VersionCheckError,
};

#[test]
fn reported_version_is_last_word() {
    assert_eq!(reported_version("dynlint-driver 2.1.0\n"), Some("2.1.0"));
    assert_eq!(reported_version("a b c  \t\r\n"), Some("c"));
    assert_eq!(reported_version("a b\u{3000}\u{a0}"), Some("b"));
    assert_eq!(reported_version("noversion"), None);
    assert_eq!(reported_version("   "), None);
    assert_eq!(reported_version(""), None);
}

#[test]
fn whitespace_matches_std() {
    for c in char::MIN..=char::MAX {
        assert_eq!(is_whitespace(c), c.is_whitespace(), "{:?}", c);
    }
}

#[test]
fn same_version_is_current() {
    assert_eq!(check_driver_version(b"dynlint-driver 2.1.0\n", "2.1.0").ok(), Some(false));
}

#[test]
fn older_version_is_outdated() {
    assert_eq!(check_driver_version(b"dynlint-driver 2.0.9\n", "2.1.0").ok(), Some(true));
    assert_eq!(check_driver_version(b"dynlint-driver 1.9.9", "2.0.0").ok(), Some(true));
}

#[test]
fn newer_version_is_current() {
    assert_eq!(check_driver_version(b"dynlint-driver 3.0.0", "2.1.0").ok(), Some(false));
}

#[test]
fn versions_compare_numerically() {
    assert_eq!(check_driver_version(b"driver 1.10.0", "1.9.0").ok(), Some(false));
    assert_eq!(check_driver_version(b"driver 1.9.0", "1.10.0").ok(), Some(true));
}

#[test]
fn prerelease_precedes_release() {
    assert_eq!(check_driver_version(b"driver 2.0.0-rc.1", "2.0.0").ok(), Some(true));
    assert_eq!(check_driver_version(b"driver 2.0.0", "2.0.0-rc.1").ok(), Some(false));
    assert_eq!(check_driver_version(b"driver 2.0.0-rc.2", "2.0.0-rc.10").ok(), Some(true));
}

#[test]
fn invalid_utf8_is_reported() {
    let bytes = [b'd', b' ', 0xff, b'1'];
    let expected = std::str::from_utf8(&bytes).unwrap_err().to_string();
    match check_driver_version(&bytes, "2.1.0") {
        Err(VersionCheckError::InvalidUtf8 { reason }) => assert_eq!(reason, expected),
        _ => panic!("unexpected result"),
    }
    let (outdated, warning) = is_outdated(Ok(&bytes), "2.1.0");
    assert!(outdated);
    assert_eq!(warning, Some(expected));
}

#[test]
fn own_version_refusal_is_the_warning() {
    let (outdated, warning) = is_outdated(Ok(b"dynlint-driver 2.1.0\n"), "2.1");
    assert!(outdated);
    assert_eq!(warning.as_deref(), Some("unexpected end of input while parsing minor version number"));
}

#[test]
fn build_metadata_orders_numerically() {
    assert_eq!(check_driver_version(b"driver 1.0.0+build.9", "1.0.0+build.10").ok(), Some(true));
    assert_eq!(check_driver_version(b"driver 1.0.0+build.10", "1.0.0+build.9").ok(), Some(false));
    assert_eq!(check_driver_version(b"driver 1.0.0", "1.0.0+build").ok(), Some(true));
    assert_eq!(check_driver_version(b"driver 1.0.0-alpha.1", "1.0.0-alpha.beta").ok(), Some(true));
}

#[test]
fn missing_version_is_reported() {
    let err = check_driver_version(b"dynlint-driver\n", "2.1.0").unwrap_err();
    assert!(matches!(err, VersionCheckError::MissingVersion));
    assert_eq!(err.message(), "Could not determine driver version");
}

#[test]
fn unparsable_driver_version_is_reported() {
    let err = check_driver_version(b"dynlint-driver 2.1\n", "2.1.0").unwrap_err();
    match &err {
        VersionCheckError::UnparsableDriverVersion { reported } => assert_eq!(reported, "2.1"),
        _ => panic!("unexpected error"),
    }
    assert_eq!(err.message(), "Could not parse driver version `2.1`");
}

#[test]
fn unparsable_own_version_is_reported() {
    let err = check_driver_version(b"dynlint-driver 2.1.0", "").unwrap_err();
    assert!(matches!(err, VersionCheckError::UnparsableOwnVersion { .. }));
    assert_eq!(err.message(), "empty string, expected a semver version");
}

#[test]
fn failed_run_counts_as_outdated() {
    let (outdated, warning) = is_outdated(Err("No such file".to_string()), "2.1.0");
    assert!(outdated);
    assert_eq!(warning.as_deref(), Some("No such file"));
}

#[test]
fn unreadable_version_counts_as_outdated() {
    let (outdated, warning) = is_outdated(Ok(b"garbage"), "2.1.0");
    assert!(outdated);
    assert_eq!(warning.as_deref(), Some("Could not determine driver version"));
}

#[test]
fn readable_version_gives_no_warning() {
    assert_eq!(is_outdated(Ok(b"dynlint-driver 2.1.0\n"), "2.1.0"), (false, None));
    assert_eq!(is_outdated(Ok(b"dynlint-driver 2.0.0\n"), "2.1.0"), (true, None));
}

use dynlint::version::{compare_versions, parse_version};

#[test]
fn compare_parsed_versions() {
    let ours = parse_version("0.9.0");
    let theirs = parse_version("0.10.0");
    assert!(ours.is_ok() && theirs.is_ok());
    assert_eq!(compare_versions("0.10.0", &theirs, &ours).ok(), Some(false));
    assert_eq!(compare_versions("0.9.0", &ours, &theirs).ok(), Some(true));
    assert_eq!(compare_versions("0.9.0", &ours, &ours).ok(), Some(false));
}

#[test]
fn compare_reports_driver_refusal_first() {
    let bad = parse_version("0.9");
    let also_bad = parse_version("");
    assert!(bad.is_err() && also_bad.is_err());
    match compare_versions("0.9", &bad, &also_bad) {
        Err(VersionCheckError::UnparsableDriverVersion { reported }) => assert_eq!(reported, "0.9"),
        _ => panic!("unexpected result"),
    }
    let good = parse_version("1.0.0");
    match compare_versions("1.0.0", &good, &also_bad) {
        Err(e @ VersionCheckError::UnparsableOwnVersion { .. }) => {
            assert_eq!(e.message(), "empty string, expected a semver version")
        }
        _ => panic!("unexpected result"),
    }
}

#[test]
fn version_text_characters_are_limited() {
    assert!(parse_version("1.0.0 ").is_err());
    assert!(parse_version("1.0.0_x").is_err());
    assert!(parse_version("1.0.0-a.b+c-d.1").is_ok());
    assert!(parse_version("01.0.0").is_err());
    assert!(parse_version("18446744073709551616.0.0").is_err());
    assert!(parse_version("18446744073709551615.0.0").is_ok());
}
