use greengrass_nucleus::arn::{parse, ParseError};

#[test]
fn arn_is_split_from_the_right() {
    let arn = parse("arn:aws:greengrass:us-east-1:1234:configuration:thing/dev1:3").unwrap();
    assert_eq!(arn.thing_name, "dev1");
    assert_eq!(arn.deployment_version, 3);
    assert_eq!(arn.full_arn, "arn:aws:greengrass:us-east-1:1234:configuration:thing/dev1:3");
}

#[test]
fn arn_of_any_name_and_version_parses_to_them() {
    for name in ["dev1", "a", "my-thing_01", "thing:with:colons", "ünï", ""] {
        for version in [0u64, 1, 42, 1234567890, u64::MAX] {
            let raw = format!("arn:aws:greengrass:eu-west-1:1:configuration:thing/{}:{}", name, version);
            let arn = parse(&raw).unwrap();
            assert_eq!(arn.thing_name, name);
            assert_eq!(arn.deployment_version, version);
            assert_eq!(arn.full_arn, raw);
        }
    }
}

#[test]
fn version_may_have_leading_zeros() {
    assert_eq!(parse("thing/dev1:0007").unwrap().deployment_version, 7);
}

#[test]
fn thing_name_is_what_follows_the_last_slash() {
    assert_eq!(parse("a/b/c/dev1:3").unwrap().thing_name, "dev1");
    assert_eq!(parse("/:3").unwrap().thing_name, "");
    assert_eq!(parse("a:b/c:d:3").unwrap().thing_name, "c:d");
}

#[test]
fn arn_without_trailing_version_is_rejected() {
    for raw in [
        "",
        "thing/dev1",
        "arn:aws:greengrass:us-east-1:1234:configuration:thing/dev1",
        "thing/dev1:",
        "thing/dev1:abc",
        "thing/dev1:3a",
        "thing/dev1:-3",
        "thing/dev1:+3",
        "thing/dev1: 3",
        "thing/dev1:3 ",
        "thing/dev1:3.0",
        "thing:3/dev1",
    ] {
        assert_eq!(parse(raw).unwrap_err(), ParseError::MissingVersion, "{:?}", raw);
    }
}

#[test]
fn version_that_does_not_fit_is_rejected() {
    assert_eq!(parse("thing/dev1:18446744073709551615").unwrap().deployment_version, u64::MAX);
    assert_eq!(
        parse("thing/dev1:18446744073709551616").unwrap_err(),
        ParseError::VersionOutOfRange
    );
    assert_eq!(
        parse("thing/dev1:99999999999999999999999999").unwrap_err(),
        ParseError::VersionOutOfRange
    );
    assert_eq!(parse("dev1:99999999999999999999999999").unwrap_err(), ParseError::VersionOutOfRange);
}

#[test]
fn arn_without_thing_segment_is_rejected() {
    for raw in ["dev1:3", "arn:aws:greengrass:us-east-1:1234:configuration:dev1:3", ":3"] {
        assert_eq!(parse(raw).unwrap_err(), ParseError::MissingThingSegment, "{:?}", raw);
    }
    assert_eq!(parse("thing:3/dev1:4").unwrap().thing_name, "dev1");
    assert_eq!(parse("a:b:3/").unwrap_err(), ParseError::MissingVersion);
}
