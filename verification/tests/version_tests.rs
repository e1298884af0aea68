use llbot_cli::version::compare_versions;

#[test]
fn segment_comparison_not_lexical() {
    // lexically "1.10.0" < "1.2.0", numerically it is newer
    assert!(compare_versions("1.2.0", "1.10.0"));
    assert!(!compare_versions("1.10.0", "1.2.0"));
}

#[test]
fn equal_versions_are_not_newer() {
    assert!(!compare_versions("1.0.0", "1.0.0"));
    assert!(!compare_versions("0.0.0", "0.0.0"));
}

#[test]
fn older_is_not_newer() {
    assert!(!compare_versions("2.0.0", "1.9.9"));
    assert!(compare_versions("1.9.9", "2.0.0"));
}

#[test]
fn missing_trailing_segments_read_as_zero() {
    assert!(!compare_versions("1.0", "1.0.0"));
    assert!(!compare_versions("1.0.0", "1.0"));
    assert!(compare_versions("1", "1.0.1"));
}

#[test]
fn leading_v_is_stripped() {
    assert!(compare_versions("v1.2.3", "1.2.4"));
    assert!(compare_versions("1.2.3", "V1.2.4"));
    assert!(!compare_versions("v1.2.3", "v1.2.3"));
}

#[test]
fn prerelease_suffix_is_stripped_per_segment() {
    assert!(compare_versions("1.2.3", "1.2.4-beta"));
    assert!(!compare_versions("1.2.4-beta", "1.2.4"));
}

#[test]
fn unparsable_segments_are_dropped() {
    // "not installed" has no numeric segment: anything nonzero is newer
    assert!(compare_versions("not installed", "2.0.0"));
    assert!(compare_versions("not installed", "0.0.1"));
    assert!(!compare_versions("2.0.0", "not installed"));
}

#[test]
fn asymmetry_spot_checks() {
    let pairs = [
        ("1.2.0", "1.10.0"),
        ("0.9", "1"),
        ("3.4.5", "3.4.5"),
        ("not installed", "2.0.0"),
        ("v2", "2.0.0"),
    ];
    for (a, b) in pairs {
        assert!(!(compare_versions(a, b) && compare_versions(b, a)));
    }
}
