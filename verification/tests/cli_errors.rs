use zuuid::binder::UsageFailure;
use zuuid::cli::{Cli, CliError};
use zuuid::messages::Language;
use zuuid::version::{InvalidVersionArgument, UuidVersion};

fn invalid(text: &str) -> CliError {
    CliError::InvalidVersion(InvalidVersionArgument { value: text.to_string() })
}

fn usage_failure(result: Result<Cli, CliError>) -> UsageFailure {
    match result {
        Err(CliError::Usage(failure)) => failure,
        other => panic!("no usage failure: {:?}", other),
    }
}

#[test]
fn version_five_is_an_invalid_version() {
    let error = Cli::try_parse_from(["zuuid", "-V", "5"]).unwrap_err();
    assert_eq!(error, invalid("5"));
    assert_eq!(error.exit_code(), 2);
    assert!(error.use_stderr());
    assert_eq!(error.report(Language::English), "Invalid UUID version: 5. Valid values: 4, 7");
}

#[test]
fn invalid_versions_keep_their_text() {
    assert_eq!(Cli::try_parse_from(["zuuid", "-v", "invalid"]), Err(invalid("invalid")));
    assert_eq!(Cli::try_parse_from(["zuuid", "--uuid-version", "v5"]), Err(invalid("v5")));
    assert_eq!(Cli::try_parse_from(["zuuid", "--uuid-version=47"]), Err(invalid("47")));
    assert_eq!(Cli::try_parse_from(["zuuid", "-V9", "-U"]), Err(invalid("9")));
}

#[test]
fn invalid_version_report_in_chinese() {
    let error = invalid("six");
    assert_eq!(
        error.report(Language::Chinese),
        "\u{65e0}\u{6548}\u{7684} UUID \u{7248}\u{672c}\u{ff1a}six\u{3002}\u{6709}\u{6548}\u{503c}\u{ff1a}4\u{3001}7"
    );
}

#[test]
fn version_spellings_on_the_command_line() {
    for (text, version) in [
        ("4", UuidVersion::V4),
        ("v4", UuidVersion::V4),
        ("V4", UuidVersion::V4),
        ("7", UuidVersion::V7),
        ("v7", UuidVersion::V7),
        ("V7", UuidVersion::V7),
    ] {
        assert_eq!(Cli::try_parse_from(["zuuid", "-V", text]).unwrap().version, version);
    }
}

#[test]
fn defaults_without_options() {
    let cli = Cli::try_parse_from(["zuuid"]).unwrap();
    assert_eq!(
        cli,
        Cli { version: UuidVersion::V4, uppercase: false, simple: false, full: false, count: 1 }
    );
}

#[test]
fn all_options_at_once() {
    let cli = Cli::try_parse_from(["zuuid", "-fsU", "-n", "12", "-v", "V7"]).unwrap();
    assert_eq!(
        cli,
        Cli { version: UuidVersion::V7, uppercase: true, simple: true, full: true, count: 12 }
    );
}

#[test]
fn count_zero_is_accepted() {
    assert_eq!(Cli::try_parse_from(["zuuid", "-n", "0"]).unwrap().count, 0);
    assert_eq!(Cli::try_parse_from(["zuuid", "--count=0"]).unwrap().count, 0);
}

#[test]
fn try_parse_takes_owned_tokens() {
    let args: Vec<String> = ["zuuid", "-S", "--count", "3"].iter().map(|t| t.to_string()).collect();
    let cli = Cli::try_parse(&args).unwrap();
    assert!(cli.simple);
    assert!(!cli.full);
    assert_eq!(cli.count, 3);
    let args: Vec<String> = ["zuuid", "-V", "8"].iter().map(|t| t.to_string()).collect();
    assert_eq!(Cli::try_parse(&args), Err(invalid("8")));
}

#[test]
fn unknown_flag_is_a_usage_error() {
    let failure = usage_failure(Cli::try_parse_from(["zuuid", "--bogus"]));
    assert_eq!(failure.exit_code, 2);
    assert!(failure.use_stderr);
    assert!(failure.message.contains("--bogus"));
    let error = CliError::Usage(failure.clone());
    assert_eq!(error.exit_code(), 2);
    assert!(error.use_stderr());
    assert_eq!(error.report(Language::Chinese), failure.message);
}

#[test]
fn count_that_is_no_number_is_a_usage_error() {
    for text in ["many", "-1", "1.5", ""] {
        let failure = usage_failure(Cli::try_parse_from(["zuuid", "-n", text]));
        assert_eq!(failure.exit_code, 2, "{:?}", text);
        assert!(failure.use_stderr);
    }
}

#[test]
fn missing_value_is_a_usage_error() {
    let failure = usage_failure(Cli::try_parse_from(["zuuid", "-V"]));
    assert_eq!(failure.exit_code, 2);
    let failure = usage_failure(Cli::try_parse_from(["zuuid", "--count"]));
    assert_eq!(failure.exit_code, 2);
}

#[test]
fn stray_word_is_a_usage_error() {
    let failure = usage_failure(Cli::try_parse_from(["zuuid", "seven"]));
    assert_eq!(failure.exit_code, 2);
    assert!(failure.use_stderr);
}

#[test]
fn help_is_answered_on_standard_output() {
    for flag in ["--help", "-h"] {
        let failure = usage_failure(Cli::try_parse_from(["zuuid", flag]));
        assert_eq!(failure.exit_code, 0);
        assert!(!failure.use_stderr);
        assert!(failure.message.contains("Generate UUID v4/v7"));
        assert!(failure.message.contains("--uuid-version <VERSION>"));
        assert!(failure.message.contains("--count <COUNT>"));
        assert!(failure.message.contains("Output UUID in uppercase"));
        assert!(failure.message.contains("[alias: -S]"));
        let error = CliError::Usage(failure);
        assert_eq!(error.exit_code(), 0);
        assert!(!error.use_stderr());
    }
}

#[test]
fn from_values_reads_the_version() {
    assert_eq!(
        Cli::from_values("v7", true, false, true, 9),
        Ok(Cli { version: UuidVersion::V7, uppercase: true, simple: false, full: true, count: 9 })
    );
    assert_eq!(
        Cli::from_values("4", false, true, false, 0),
        Ok(Cli { version: UuidVersion::V4, uppercase: false, simple: true, full: false, count: 0 })
    );
    assert_eq!(Cli::from_values("5", true, true, true, 1), Err(invalid("5")));
    assert_eq!(Cli::from_values("", false, false, false, 1), Err(invalid("")));
}

#[test]
fn from_bound_reads_what_was_found() {
    assert_eq!(
        Cli::from_bound(Some("V7".to_string()), Some(true), Some(false), Some(true), Some(5)),
        Ok(Cli { version: UuidVersion::V7, uppercase: true, simple: false, full: true, count: 5 })
    );
    assert_eq!(
        Cli::from_bound(Some("4".to_string()), Some(false), Some(true), Some(false), Some(0)),
        Ok(Cli { version: UuidVersion::V4, uppercase: false, simple: true, full: false, count: 0 })
    );
}

#[test]
fn from_bound_fills_in_the_defaults() {
    assert_eq!(
        Cli::from_bound(None, None, None, None, None),
        Ok(Cli { version: UuidVersion::V4, uppercase: false, simple: false, full: false, count: 1 })
    );
    assert_eq!(
        Cli::from_bound(Some("7".to_string()), None, Some(true), None, None),
        Ok(Cli { version: UuidVersion::V7, uppercase: false, simple: true, full: false, count: 1 })
    );
}

#[test]
fn from_bound_rejects_a_version_that_names_none() {
    assert_eq!(Cli::from_bound(Some("5".to_string()), Some(true), None, None, Some(3)), Err(invalid("5")));
    assert_eq!(Cli::from_bound(Some(String::new()), None, None, None, None), Err(invalid("")));
}

#[test]
fn each_flag_of_the_table_is_bound() {
    let cli = Cli::try_parse_from(["zuuid", "--uuid-version", "7", "--upper", "--simple", "--full", "--count", "2"]).unwrap();
    assert_eq!(cli, Cli { version: UuidVersion::V7, uppercase: true, simple: true, full: true, count: 2 });
    let cli = Cli::try_parse_from(["zuuid", "-V", "7", "-U", "-s", "-f", "-n", "2"]).unwrap();
    assert_eq!(cli, Cli { version: UuidVersion::V7, uppercase: true, simple: true, full: true, count: 2 });
    let cli = Cli::try_parse_from(["zuuid", "-v", "7", "-u", "-S", "-F"]).unwrap();
    assert_eq!(cli, Cli { version: UuidVersion::V7, uppercase: true, simple: true, full: true, count: 1 });
}

#[test]
fn switches_take_no_value() {
    let failure = usage_failure(Cli::try_parse_from(["zuuid", "--upper=yes"]));
    assert_eq!(failure.exit_code, 2);
    let failure = usage_failure(Cli::try_parse_from(["zuuid", "--full", "on"]));
    assert_eq!(failure.exit_code, 2);
}
