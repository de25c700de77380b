use ue_types::version::Version;

#[test]
fn test_version() {
    let v1 = Version::new(1, 2, 3, 4);
    assert_eq!(v1.to_string(), "1.2.3.4");

    let v2 = Version::from_semver(1, 2, 3);
    assert_eq!(v2.to_string(), "1.2.3");

    let parsed = Version::parse("1.2.3.4").unwrap();
    assert_eq!(parsed, v1);

    assert!(v1.is_compatible_with(v2));
}

#[test]
fn test_version_parse_errors() {
    assert_eq!(Version::parse("1.2"), Err("Invalid version format"));
    assert_eq!(Version::parse("1.2.3.4.5"), Err("Invalid version format"));
    assert_eq!(Version::parse(""), Err("Invalid version format"));
    assert_eq!(Version::parse("x.2.3"), Err("Invalid major version"));
    assert_eq!(Version::parse("1..3"), Err("Invalid minor version"));
    assert_eq!(Version::parse("1.2.70000"), Err("Invalid patch version"));
    assert_eq!(Version::parse("1.2.3.-4"), Err("Invalid build number"));
}

#[test]
fn test_version_parse_accepts_plus_and_bounds() {
    // The standard unsigned parser accepts a leading plus sign.
    assert_eq!(Version::parse("+1.2.3"), Ok(Version::new(1, 2, 3, 0)));
    assert_eq!(
        Version::parse("65535.0.0.65535"),
        Ok(Version::new(65535, 0, 0, 65535))
    );
    assert_eq!(Version::parse("65536.0.0"), Err("Invalid major version"));
}

#[test]
fn test_version_default_and_compatibility() {
    let d = Version::default();
    assert_eq!(d, Version::new(1, 0, 0, 0));
    assert_eq!(d.to_string(), "1.0.0");
    assert!(!d.is_compatible_with(Version::new(2, 0, 0, 0)));
}
