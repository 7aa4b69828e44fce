//! The `clap` crate, as far as the command line of this tool needs it.
//!
//! `clap` binds the tokens of a command line to values. Its types are opaque
//! here; what they hold is spoken of through names. The settings of an
//! argument and of a command are maps from the name of the builder method
//! that made a setting to the text it was given, and the functions of this
//! file that wrap those methods say how each changes them. A command comes
//! only from `command_new` and the calls that follow it here, so that these
//! settings are all it holds. What `clap` binds a command line to is a
//! function of the command and the tokens; it has a name, `clap_binding`,
//! and nothing is claimed of its value. `clap` checks the consistency of a
//! command with debug assertions when it first parses with it, so parsing
//! is admitted only with the one command that this crate builds, which is
//! laid out in `cli`.

use vstd::prelude::*;
use crate::cli::{tool_arguments, tool_settings};

verus! {

/// `clap::Command`: the description of a command line. Opaque here.
#[verifier::external_type_specification]
#[verifier::external_body]
pub struct ExCommand(clap::Command);

/// `clap::Arg`: the description of one argument. Opaque here.
#[verifier::external_type_specification]
#[verifier::external_body]
pub struct ExArg(clap::Arg);

/// `clap::ArgMatches`: the values that a command line was bound to. Opaque
/// here.
#[verifier::external_type_specification]
#[verifier::external_body]
pub struct ExArgMatches(clap::ArgMatches);

/// What an option does when it is met on the command line.
#[derive(Clone, Copy, Debug, PartialEq, Eq, Structural)]
pub enum OptionKind {
    /// It takes one value.
    Value,
    /// It takes none and is either set or not.
    Switch,
}

/// A command line that the binder did not turn into options: a usage error,
/// or a request for help that it answers with a text.
#[derive(Clone, Debug, PartialEq, Eq)]
pub struct UsageFailure {
    /// The text to show, without styling.
    pub message: String,
    /// The status with which the process should end.
    pub exit_code: i32,
    /// Whether the text belongs on the diagnostic stream.
    pub use_stderr: bool,
}

/// Settings by the name of the builder method that made them.
pub type Settings = Map<Seq<char>, Seq<char>>;

/// The settings of an argument: for each of `id`, `short`, `long`,
/// `visible_short_alias`, `help`, `action`, `value_name`, `default_value`
/// and `value_parser` that was set, the text it holds. A short flag is the
/// text of its one character; the aliases are the text of their characters
/// in the order in which they were added.
pub uninterp spec fn arg_settings(arg: clap::Arg) -> Map<Seq<char>, Seq<char>>;

/// The settings of a command itself: its `name` and its `about`.
pub uninterp spec fn command_settings(command: clap::Command) -> Map<Seq<char>, Seq<char>>;

/// The settings of the arguments of a command, in the order in which they
/// were added to it.
pub uninterp spec fn command_args(command: clap::Command) -> Seq<Map<Seq<char>, Seq<char>>>;

/// The arguments whose bound value is a text, by id, each with its value.
/// It is what `clap::ArgMatches::try_get_one::<String>` finds.
pub uninterp spec fn matched_texts(matches: clap::ArgMatches) -> Map<Seq<char>, Seq<char>>;

/// The switches by id, each with whether it was set. It is what
/// `clap::ArgMatches::try_get_one::<bool>` finds.
pub uninterp spec fn matched_switches(matches: clap::ArgMatches) -> Map<Seq<char>, bool>;

/// The arguments whose bound value is a `usize`, by id, each with its
/// value. It is what `clap::ArgMatches::try_get_one::<usize>` finds.
pub uninterp spec fn matched_numbers(matches: clap::ArgMatches) -> Map<Seq<char>, usize>;

/// What `clap::Command::try_get_matches_from` binds the tokens to, for a
/// command of the given settings and arguments: the texts, switches and
/// numbers of the matches, or `None` where it fails. What that is for a
/// given command line, only `clap` says.
pub uninterp spec fn clap_binding(
    settings: Map<Seq<char>, Seq<char>>,
    args: Seq<Map<Seq<char>, Seq<char>>>,
    tokens: Seq<Seq<char>>,
) -> Option<(Map<Seq<char>, Seq<char>>, Map<Seq<char>, bool>, Map<Seq<char>, usize>)>;

/// No setting at all.
pub open spec fn no_settings() -> Settings {
    Map::empty()
}

/// No argument at all.
pub open spec fn no_arguments() -> Seq<Settings> {
    Seq::empty()
}

/// The value under `key`, if there is one.
pub open spec fn found<V>(values: Map<Seq<char>, V>, key: Seq<char>) -> Option<V> {
    if values.contains_key(key) {
        Some(values[key])
    } else {
        None
    }
}

/// The short aliases that the settings hold; none where none was added.
pub open spec fn short_aliases(settings: Settings) -> Seq<char> {
    if settings.contains_key("visible_short_alias"@) {
        settings["visible_short_alias"@]
    } else {
        Seq::empty()
    }
}

/// The name of the action that `clap` performs for an option of `kind`.
pub open spec fn action_name(kind: OptionKind) -> Seq<char> {
    match kind {
        OptionKind::Value => "Set"@,
        OptionKind::Switch => "SetTrue"@,
    }
}

/// The status that `clap` gives a failure: 2 for an error, which goes to the
/// diagnostic stream, and 0 for a text that was asked for.
pub open spec fn usage_exit_code(use_stderr: bool) -> i32 {
    if use_stderr {
        2
    } else {
        0
    }
}

/// `clap::Command::new`: a command of the given name, with no other setting
/// and no argument.
#[verifier::external_body]
pub(crate) fn command_new(name: &'static str) -> (command: clap::Command)
    ensures
        command_settings(command) == no_settings().insert("name"@, name@),
        command_args(command) == no_arguments(),
{
    clap::Command::new(name)
}

/// `clap::Command::about`: sets the one-line description shown in the help
/// and leaves the rest.
#[verifier::external_body]
pub(crate) fn command_about(command: clap::Command, about: &'static str) -> (changed:
    clap::Command)
    ensures
        command_settings(changed) == command_settings(command).insert("about"@, about@),
        command_args(changed) == command_args(command),
{
    command.about(about)
}

/// `clap::Command::arg`: adds the argument behind those that the command
/// has.
#[verifier::external_body]
pub(crate) fn command_arg(command: clap::Command, arg: clap::Arg) -> (changed: clap::Command)
    ensures
        command_settings(changed) == command_settings(command),
        command_args(changed) == command_args(command).push(arg_settings(arg)),
{
    command.arg(arg)
}

/// `clap::Arg::new`: an argument with the given id and nothing else.
#[verifier::external_body]
pub(crate) fn arg_new(id: &'static str) -> (arg: clap::Arg)
    ensures
        arg_settings(arg) == no_settings().insert("id"@, id@),
{
    clap::Arg::new(id)
}

/// `clap::Arg::short`: sets the character of the short flag. `clap` asserts
/// that it is no dash.
#[verifier::external_body]
pub(crate) fn arg_short(arg: clap::Arg, short: char) -> (changed: clap::Arg)
    requires
        short != '-',
    ensures
        arg_settings(changed) == arg_settings(arg).insert("short"@, seq![short]),
{
    arg.short(short)
}

/// `clap::Arg::long`: sets the name of the long flag.
#[verifier::external_body]
pub(crate) fn arg_long(arg: clap::Arg, long: &'static str) -> (changed: clap::Arg)
    ensures
        arg_settings(changed) == arg_settings(arg).insert("long"@, long@),
{
    arg.long(long)
}

/// `clap::Arg::visible_short_alias`: adds one more character for the short
/// flag, shown in the help, behind those added before. `clap` asserts that
/// it is no dash.
#[verifier::external_body]
pub(crate) fn arg_visible_short_alias(arg: clap::Arg, alias: char) -> (changed: clap::Arg)
    requires
        alias != '-',
    ensures
        arg_settings(changed) == arg_settings(arg).insert(
            "visible_short_alias"@,
            short_aliases(arg_settings(arg)).push(alias),
        ),
{
    arg.visible_short_alias(alias)
}

/// `clap::Arg::help`: sets the description shown in the help.
#[verifier::external_body]
pub(crate) fn arg_help(arg: clap::Arg, help: &'static str) -> (changed: clap::Arg)
    ensures
        arg_settings(changed) == arg_settings(arg).insert("help"@, help@),
{
    arg.help(help)
}

/// `clap::Arg::action`: sets what the argument does when it is met, `Set`
/// for an option with a value and `SetTrue` for a switch.
#[verifier::external_body]
pub(crate) fn arg_action(arg: clap::Arg, kind: OptionKind) -> (changed: clap::Arg)
    ensures
        arg_settings(changed) == arg_settings(arg).insert("action"@, action_name(kind)),
{
    match kind {
        OptionKind::Value => arg.action(clap::ArgAction::Set),
        OptionKind::Switch => arg.action(clap::ArgAction::SetTrue),
    }
}

/// `clap::Arg::value_name`: sets the placeholder for the value in the help.
#[verifier::external_body]
pub(crate) fn arg_value_name(arg: clap::Arg, name: &'static str) -> (changed: clap::Arg)
    ensures
        arg_settings(changed) == arg_settings(arg).insert("value_name"@, name@),
{
    arg.value_name(name)
}

/// `clap::Arg::default_value`: sets the value used when the argument is not
/// given.
#[verifier::external_body]
pub(crate) fn arg_default_value(arg: clap::Arg, value: &'static str) -> (changed: clap::Arg)
    ensures
        arg_settings(changed) == arg_settings(arg).insert("default_value"@, value@),
{
    arg.default_value(value)
}

/// `clap::Arg::value_parser` with `clap`'s parser for unsigned numbers, so
/// that the value is kept as a `usize` and anything else is a usage error.
#[verifier::external_body]
pub(crate) fn arg_parse_as_usize(arg: clap::Arg) -> (changed: clap::Arg)
    ensures
        arg_settings(changed) == arg_settings(arg).insert("value_parser"@, "usize"@),
{
    arg.value_parser(clap::builder::RangedU64ValueParser::<usize>::new())
}

/// `clap::Command::try_get_matches_from`: binds the tokens, the first of
/// which is the program's name. What it binds them to is `clap_binding` of
/// the command and the tokens: the matches hold it, and there is a failure
/// where there is none. A failure is handed on as its text, its exit status
/// and its stream, which `clap::Error` gives by `Display`, `exit_code` and
/// `use_stderr`; the status is 2 on the diagnostic stream and 0 otherwise.
///
/// In a debug build `clap` asserts here that the command is consistent: that
/// no id and no flag is given to two arguments, that each default passes its
/// parser, and more of the kind. So only the tool's own command is admitted,
/// which is consistent: its ids, its flags and their aliases are all
/// different and none is that of the help, and its defaults are a text and
/// a number.
#[verifier::external_body]
pub(crate) fn command_try_get_matches_from(command: clap::Command, args: &Vec<String>) -> (r:
    Result<clap::ArgMatches, UsageFailure>)
    requires
        command_settings(command) == tool_settings(),
        command_args(command) == tool_arguments(),
    ensures
        match r {
            Ok(matches) => clap_binding(
                command_settings(command),
                command_args(command),
                args.deep_view(),
            ) == Some(
                (matched_texts(matches), matched_switches(matches), matched_numbers(matches)),
            ),
            Err(failure) => {
                &&& clap_binding(
                    command_settings(command),
                    command_args(command),
                    args.deep_view(),
                ) is None
                &&& failure.exit_code == usage_exit_code(failure.use_stderr)
            },
        },
{
    match command.try_get_matches_from(args) {
        Ok(matches) => Ok(matches),
        Err(error) => Err(
            UsageFailure {
                message: error.to_string(),
                exit_code: error.exit_code(),
                use_stderr: error.use_stderr(),
            },
        ),
    }
}

/// `clap::ArgMatches::try_get_one` for an argument whose value is a text:
/// the value that was bound to the argument `id`. `None` where the id is
/// unknown, the argument has no value, or its value is no text.
#[verifier::external_body]
pub(crate) fn matches_text(matches: &clap::ArgMatches, id: &str) -> (value: Option<String>)
    ensures
        match value {
            Some(text) => found(matched_texts(*matches), id@) == Some(text@),
            None => found(matched_texts(*matches), id@) is None,
        },
{
    matches.try_get_one::<String>(id).ok().flatten().cloned()
}

/// `clap::ArgMatches::try_get_one` for a switch: whether the argument `id`
/// was set. `None` where the id is unknown or the argument is no switch.
#[verifier::external_body]
pub(crate) fn matches_switch(matches: &clap::ArgMatches, id: &str) -> (value: Option<bool>)
    ensures
        value == found(matched_switches(*matches), id@),
{
    matches.try_get_one::<bool>(id).ok().flatten().copied()
}

/// `clap::ArgMatches::try_get_one` for an argument whose value is a number:
/// the value that was bound to the argument `id`. `None` where the id is
/// unknown, the argument has no value, or its value is no `usize`.
#[verifier::external_body]
pub(crate) fn matches_usize(matches: &clap::ArgMatches, id: &str) -> (value: Option<usize>)
    ensures
        value == found(matched_numbers(*matches), id@),
{
    matches.try_get_one::<usize>(id).ok().flatten().copied()
}

} // verus!
