use zuuid::version::{InvalidVersionArgument, UuidVersion};

#[test]
fn test_uuid_version_from_str() {
    assert_eq!("4".parse::<UuidVersion>().unwrap(), UuidVersion::V4);
    assert_eq!("7".parse::<UuidVersion>().unwrap(), UuidVersion::V7);
    assert_eq!("v4".parse::<UuidVersion>().unwrap(), UuidVersion::V4);
    assert_eq!("v7".parse::<UuidVersion>().unwrap(), UuidVersion::V7);
    assert_eq!("V4".parse::<UuidVersion>().unwrap(), UuidVersion::V4);
    assert_eq!("V7".parse::<UuidVersion>().unwrap(), UuidVersion::V7);
    assert!("5".parse::<UuidVersion>().is_err());
    assert!("invalid".parse::<UuidVersion>().is_err());
}

#[test]
fn parse_accepts_the_six_spellings() {
    assert_eq!(UuidVersion::parse("4"), Ok(UuidVersion::V4));
    assert_eq!(UuidVersion::parse("v4"), Ok(UuidVersion::V4));
    assert_eq!(UuidVersion::parse("V4"), Ok(UuidVersion::V4));
    assert_eq!(UuidVersion::parse("7"), Ok(UuidVersion::V7));
    assert_eq!(UuidVersion::parse("v7"), Ok(UuidVersion::V7));
    assert_eq!(UuidVersion::parse("V7"), Ok(UuidVersion::V7));
}

#[test]
fn parse_rejects_everything_else_and_keeps_the_text() {
    for text in ["5", "", "v", "V", "44", "v5", "x4", "4v", "v47", " 4", "4 ", "invalid", "\u{ff16}", "vv4"] {
        assert_eq!(
            UuidVersion::parse(text),
            Err(InvalidVersionArgument { value: text.to_string() }),
            "{:?}",
            text
        );
    }
}

#[test]
fn parse_agrees_with_from_str() {
    for text in ["4", "7", "v4", "V7", "5", "", "version"] {
        assert_eq!(text.parse::<UuidVersion>(), UuidVersion::parse(text));
    }
}

#[test]
fn default_version_is_v4() {
    assert_eq!(UuidVersion::default(), UuidVersion::V4);
}

#[test]
fn version_names() {
    assert_eq!(UuidVersion::V4.as_str(), "v4");
    assert_eq!(UuidVersion::V7.as_str(), "v7");
}
