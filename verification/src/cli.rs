//! The options of the command line.

use vstd::prelude::*;
use crate::binder::{
    action_name, arg_action, arg_default_value, arg_help, arg_long, arg_new, arg_parse_as_usize,
    arg_settings, arg_short, arg_value_name, arg_visible_short_alias, clap_binding, command_about,
    command_arg, command_args, command_new, command_settings, command_try_get_matches_from, found,
    matches_switch, matches_text, matches_usize, usage_exit_code, OptionKind, Settings,
    UsageFailure,
};
use crate::messages::{invalid_version_text, Language, Messages};
use crate::version::{version_of_text, InvalidVersionArgument, UuidVersion};

verus! {

/// The options of one run.
#[derive(Clone, Copy, Debug, PartialEq, Eq)]
pub struct Cli {
    /// The version of the identifiers to generate.
    pub version: UuidVersion,
    /// Whether to write them in upper case.
    pub uppercase: bool,
    /// Whether the compact rendering was asked for.
    pub simple: bool,
    /// Whether the hyphenated rendering was asked for.
    pub full: bool,
    /// How many identifiers to generate.
    pub count: usize,
}

/// Why a command line gave no options.
#[derive(Clone, Debug, PartialEq, Eq)]
pub enum CliError {
    /// The value of the version option names no known version.
    InvalidVersion(InvalidVersionArgument),
    /// The binder refused the command line, or answered it with a text.
    Usage(UsageFailure),
}

/// The status with which a process ends after `error`: that of a usage
/// error for an invalid version, and the binder's own otherwise.
pub open spec fn exit_code_of(error: CliError) -> i32 {
    match error {
        CliError::InvalidVersion(_) => usage_exit_code(true),
        CliError::Usage(failure) => failure.exit_code,
    }
}

/// What is shown to the user for `error`: the report of an invalid version
/// in the user's language, or the binder's own text.
pub open spec fn report_of(error: CliError, language: Language) -> Seq<char> {
    match error {
        CliError::InvalidVersion(argument) => invalid_version_text(language, argument.value@),
        CliError::Usage(failure) => failure.message@,
    }
}

/// What every error that comes from binding a command line has: the
/// rejected version names none, and the binder's status fits its stream.
pub open spec fn is_binding_error(error: CliError) -> bool {
    match error {
        CliError::InvalidVersion(argument) => version_of_text(argument.value@) is None,
        CliError::Usage(failure) => failure.exit_code == usage_exit_code(failure.use_stderr),
    }
}

/// The settings of a switch: its id, its short flag, its long flag, one
/// alias of the short flag, its help, and the action that sets it.
pub open spec fn switch_settings(
    id: Seq<char>,
    short: char,
    long: Seq<char>,
    alias: char,
    help: Seq<char>,
) -> Settings {
    map![
        "id"@ => id,
        "short"@ => seq![short],
        "long"@ => long,
        "visible_short_alias"@ => seq![alias],
        "help"@ => help,
        "action"@ => action_name(OptionKind::Switch),
    ]
}

/// The settings of an option with a value: its id, its short flag, its long
/// flag, its help, the action that stores the value, the placeholder of the
/// value, and the value that it has when it is not given.
pub open spec fn valued_settings(
    id: Seq<char>,
    short: char,
    long: Seq<char>,
    name: Seq<char>,
    default: Seq<char>,
    help: Seq<char>,
) -> Settings {
    map![
        "id"@ => id,
        "short"@ => seq![short],
        "long"@ => long,
        "help"@ => help,
        "action"@ => action_name(OptionKind::Value),
        "value_name"@ => name,
        "default_value"@ => default,
    ]
}

/// The settings of the tool's command: its name and its description.
pub open spec fn tool_settings() -> Settings {
    map!["name"@ => "zuuid"@, "about"@ => "Generate UUID v4/v7"@]
}

/// The arguments of the tool's command, in the order of its help: the
/// version with its alias `-v`, the three switches, and the count, which is
/// kept as a number.
pub open spec fn tool_arguments() -> Seq<Settings> {
    seq![
        valued_settings(
            "version"@,
            'V',
            "uuid-version"@,
            "VERSION"@,
            "4"@,
            "UUID version to generate (4 or 7, default: 4)"@,
        ).insert("visible_short_alias"@, seq!['v']),
        switch_settings("uppercase"@, 'U', "upper"@, 'u', "Output UUID in uppercase"@),
        switch_settings("simple"@, 's', "simple"@, 'S', "Output UUID without hyphens (32 chars)"@),
        switch_settings(
            "full"@,
            'f',
            "full"@,
            'F',
            "Output UUID with hyphens in full format (36 chars)"@,
        ),
        valued_settings(
            "count"@,
            'n',
            "count"@,
            "COUNT"@,
            "1"@,
            "Number of UUIDs to generate (default: 1)"@,
        ).insert("value_parser"@, "usize"@),
    ]
}

/// The value that was found, or the default.
pub open spec fn given_or<V>(value: Option<V>, default: V) -> V {
    match value {
        Some(v) => v,
        None => default,
    }
}

/// The text that an optional string holds.
pub open spec fn text_of(value: Option<String>) -> Option<Seq<char>> {
    match value {
        Some(text) => Some(text@),
        None => None,
    }
}

/// `r` is what the bound values give: the options with the version that the
/// text names, or the error that carries the text where it names none. A
/// value that was not bound has its default: version 4, a switch off, a
/// count of 1.
pub open spec fn is_outcome_for(
    r: Result<Cli, CliError>,
    version: Option<Seq<char>>,
    uppercase: Option<bool>,
    simple: Option<bool>,
    full: Option<bool>,
    count: Option<usize>,
) -> bool {
    let text = given_or(version, "4"@);
    match version_of_text(text) {
        Some(v) => r == Ok::<Cli, CliError>(
            Cli {
                version: v,
                uppercase: given_or(uppercase, false),
                simple: given_or(simple, false),
                full: given_or(full, false),
                count: given_or(count, 1),
            },
        ),
        None => r matches Err(CliError::InvalidVersion(argument)) && argument.value@ == text,
    }
}

/// `r` is what binding `tokens` with the tool's command gives. Where `clap`
/// fails, it is a usage failure whose status fits its stream. Where `clap`
/// binds, it is the outcome for the values bound to `version`, `uppercase`,
/// `simple`, `full` and `count`.
pub open spec fn is_parse_of(r: Result<Cli, CliError>, tokens: Seq<Seq<char>>) -> bool {
    match clap_binding(tool_settings(), tool_arguments(), tokens) {
        Some(bound) => is_outcome_for(
            r,
            found(bound.0, "version"@),
            found(bound.1, "uppercase"@),
            found(bound.1, "simple"@),
            found(bound.1, "full"@),
            found(bound.2, "count"@),
        ),
        None => r matches Err(CliError::Usage(failure)) && failure.exit_code == usage_exit_code(
            failure.use_stderr,
        ),
    }
}

/// The texts of a fixed list of tokens.
pub open spec fn texts_of<const N: usize>(args: [&str; N]) -> Seq<Seq<char>> {
    Seq::new(N as nat, |i: int| args@[i]@)
}

/// No setting made before an alias is added goes by the alias's name.
proof fn lemma_alias_key_is_apart()
    ensures
        "visible_short_alias"@ != "id"@,
        "visible_short_alias"@ != "short"@,
        "visible_short_alias"@ != "long"@,
        "visible_short_alias"@ != "help"@,
        "visible_short_alias"@ != "action"@,
        "visible_short_alias"@ != "value_name"@,
        "visible_short_alias"@ != "default_value"@,
{
    reveal_strlit("visible_short_alias");
    reveal_strlit("id");
    reveal_strlit("short");
    reveal_strlit("long");
    reveal_strlit("help");
    reveal_strlit("action");
    reveal_strlit("value_name");
    reveal_strlit("default_value");
    assert("visible_short_alias"@.len() == 19);
    assert("id"@.len() == 2);
    assert("short"@.len() == 5);
    assert("long"@.len() == 4);
    assert("help"@.len() == 4);
    assert("action"@.len() == 6);
    assert("value_name"@.len() == 10);
    assert("default_value"@.len() == 13);
}

impl CliError {
    /// The status with which the process should end. For an invalid version
    /// it is never zero.
    pub fn exit_code(&self) -> (code: i32)
        ensures
            code == exit_code_of(*self),
            self is InvalidVersion ==> code == 2,
    {
        match self {
            CliError::InvalidVersion(_) => 2,
            CliError::Usage(failure) => failure.exit_code,
        }
    }

    /// Whether the report belongs on the diagnostic stream rather than on
    /// standard output. Only a text that the user asked for does not.
    pub fn use_stderr(&self) -> (diagnostic: bool)
        ensures
            diagnostic == match *self {
                CliError::InvalidVersion(_) => true,
                CliError::Usage(failure) => failure.use_stderr,
            },
    {
        match self {
            CliError::InvalidVersion(_) => true,
            CliError::Usage(failure) => failure.use_stderr,
        }
    }

    /// The text to show to the user.
    pub fn report(&self, language: Language) -> (text: String)
        ensures
            text@ == report_of(*self, language),
    {
        match self {
            CliError::InvalidVersion(argument) => Messages::new(language).invalid_version(
                argument.value.as_str(),
            ),
            CliError::Usage(failure) => failure.message.clone(),
        }
    }
}

/// A switch: a short flag, a long flag, and a second short flag in the other
/// case.
fn switch(
    id: &'static str,
    short: char,
    long: &'static str,
    alias: char,
    help: &'static str,
) -> (arg: clap::Arg)
    requires
        short != '-',
        alias != '-',
    ensures
        arg_settings(arg) == switch_settings(id@, short, long@, alias, help@),
{
    let arg = arg_new(id);
    let arg = arg_short(arg, short);
    let arg = arg_long(arg, long);
    proof {
        lemma_alias_key_is_apart();
    }
    let arg = arg_visible_short_alias(arg, alias);
    let arg = arg_help(arg, help);
    arg_action(arg, OptionKind::Switch)
}

/// An option with one value and a default for it.
fn valued(
    id: &'static str,
    short: char,
    long: &'static str,
    name: &'static str,
    default: &'static str,
    help: &'static str,
) -> (arg: clap::Arg)
    requires
        short != '-',
    ensures
        arg_settings(arg) == valued_settings(id@, short, long@, name@, default@, help@),
{
    let arg = arg_new(id);
    let arg = arg_short(arg, short);
    let arg = arg_long(arg, long);
    let arg = arg_help(arg, help);
    let arg = arg_action(arg, OptionKind::Value);
    let arg = arg_value_name(arg, name);
    arg_default_value(arg, default)
}

impl Cli {
    /// The command line of the tool, as `clap` is to bind it:
    ///
    /// | short | long | alias | meaning | default |
    /// |---|---|---|---|---|
    /// | `-V` | `--uuid-version` | `-v` | version, 4 or 7 | 4 |
    /// | `-U` | `--upper` | `-u` | upper case | off |
    /// | `-s` | `--simple` | `-S` | compact rendering | off |
    /// | `-f` | `--full` | `-F` | hyphenated rendering | off |
    /// | `-n` | `--count` | | number of identifiers | 1 |
    fn command() -> (command: clap::Command)
        ensures
            command_settings(command) == tool_settings(),
            command_args(command) == tool_arguments(),
    {
        let version = valued(
            "version",
            'V',
            "uuid-version",
            "VERSION",
            "4",
            "UUID version to generate (4 or 7, default: 4)",
        );
        proof {
            lemma_alias_key_is_apart();
        }
        let version = arg_visible_short_alias(version, 'v');
        let uppercase = switch("uppercase", 'U', "upper", 'u', "Output UUID in uppercase");
        let simple = switch(
            "simple",
            's',
            "simple",
            'S',
            "Output UUID without hyphens (32 chars)",
        );
        let full = switch(
            "full",
            'f',
            "full",
            'F',
            "Output UUID with hyphens in full format (36 chars)",
        );
        let count = valued(
            "count",
            'n',
            "count",
            "COUNT",
            "1",
            "Number of UUIDs to generate (default: 1)",
        );
        let count = arg_parse_as_usize(count);
        let command = command_new("zuuid");
        let command = command_about(command, "Generate UUID v4/v7");
        let command = command_arg(command, version);
        let command = command_arg(command, uppercase);
        let command = command_arg(command, simple);
        let command = command_arg(command, full);
        command_arg(command, count)
    }

    /// The options for the values that the binder found. The version is
    /// read here: its text must name one, or the error carries the text.
    pub fn from_values(version: &str, uppercase: bool, simple: bool, full: bool, count: usize) -> (r:
        Result<Cli, CliError>)
        ensures
            match r {
                Ok(cli) => {
                    &&& version_of_text(version@) == Some(cli.version)
                    &&& cli.uppercase == uppercase
                    &&& cli.simple == simple
                    &&& cli.full == full
                    &&& cli.count == count
                },
                Err(error) => {
                    &&& version_of_text(version@) is None
                    &&& error matches CliError::InvalidVersion(argument)
                    &&& argument.value@ == version@
                },
            },
    {
        match UuidVersion::parse(version) {
            Ok(version) => Ok(Cli { version, uppercase, simple, full, count }),
            Err(argument) => Err(CliError::InvalidVersion(argument)),
        }
    }

    /// The options for what the binder found, where a value that it did not
    /// find has its default.
    pub fn from_bound(
        version: Option<String>,
        uppercase: Option<bool>,
        simple: Option<bool>,
        full: Option<bool>,
        count: Option<usize>,
    ) -> (r: Result<Cli, CliError>)
        ensures
            is_outcome_for(r, text_of(version), uppercase, simple, full, count),
    {
        let uppercase = uppercase.unwrap_or(false);
        let simple = simple.unwrap_or(false);
        let full = full.unwrap_or(false);
        let count = count.unwrap_or(1);
        match version {
            Some(text) => Cli::from_values(text.as_str(), uppercase, simple, full, count),
            None => Cli::from_values("4", uppercase, simple, full, count),
        }
    }

    /// Binds a command line, program name first, to options.
    ///
    /// The tokens are handed to `clap` with the command of the table at
    /// `command`. `clap` decides what each token means and whether the line
    /// is acceptable at all; where it is not, the failure is `clap`'s. The
    /// values that `clap` bound are then read by `from_bound`, so that a
    /// version that names none is an error that carries its text.
    pub fn try_parse(args: &Vec<String>) -> (r: Result<Cli, CliError>)
        ensures
            is_parse_of(r, args.deep_view()),
            r matches Err(error) ==> is_binding_error(error),
    {
        match command_try_get_matches_from(Cli::command(), args) {
            Err(failure) => Err(CliError::Usage(failure)),
            Ok(matches) => {
                let version = matches_text(&matches, "version");
                let uppercase = matches_switch(&matches, "uppercase");
                let simple = matches_switch(&matches, "simple");
                let full = matches_switch(&matches, "full");
                let count = matches_usize(&matches, "count");
                Cli::from_bound(version, uppercase, simple, full, count)
            },
        }
    }

    /// `try_parse` for a fixed list of tokens.
    pub fn try_parse_from<const N: usize>(args: [&str; N]) -> (r: Result<Cli, CliError>)
        ensures
            is_parse_of(r, texts_of(args)),
            r matches Err(error) ==> is_binding_error(error),
    {
        let mut tokens: Vec<String> = Vec::new();
        let mut i: usize = 0;
        while i < N
            invariant
                i <= N,
                tokens.len() == i,
                forall|k: int| 0 <= k < i ==> #[trigger] tokens[k]@ == args@[k]@,
            decreases N - i,
        {
            tokens.push(args[i].to_owned());
            i += 1;
        }
        assert(tokens.deep_view() =~= texts_of(args));
        Cli::try_parse(&tokens)
    }
}

} // verus!
