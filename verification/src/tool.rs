//! One run of the tool, from the raw argument list to what is to be printed.

use vstd::prelude::*;
use crate::cli::{is_binding_error, is_parse_of, Cli, CliError};
use crate::identifier::{
    chosen_layout, generate_uuid, has_form, has_version, rendered,
};
use crate::messages::{conflict_notice_text, Language, Messages};
use crate::precedence::{determine_format_precedence, resolved, FormatPrecedence};

verus! {

/// What a run prints.
#[derive(Debug)]
pub struct Output {
    /// The two lines of the conflict warning, for the diagnostic stream.
    /// They come before every identifier and once, however many there are.
    pub warning: Option<(String, String)>,
    /// The identifiers, one for each line of standard output, in the order
    /// in which they were generated.
    pub lines: Vec<String>,
}

/// The text is that of some identifier of the version that the options ask
/// for, in the layout and case that they and the precedence select.
pub open spec fn is_line_for(text: Seq<char>, cli: Cli, prefer_full: bool) -> bool {
    &&& exists|bytes: Seq<u8>| #[trigger]
        has_version(bytes, cli.version) && text == rendered(
            bytes,
            chosen_layout(cli.simple, cli.full, prefer_full),
            cli.uppercase,
        )
    &&& has_form(text, chosen_layout(cli.simple, cli.full, prefer_full), cli.uppercase)
}

/// Generates as many identifiers as the options ask for, each formatted as
/// they say. With a count of zero there is none.
pub fn generate_lines(cli: &Cli, prefer_full: bool) -> (lines: Vec<String>)
    ensures
        lines.len() == cli.count,
        forall|i: int| 0 <= i < lines.len() ==> is_line_for(#[trigger] lines[i]@, *cli, prefer_full),
{
    let mut lines: Vec<String> = Vec::new();
    let mut i: usize = 0;
    while i < cli.count
        invariant
            i <= cli.count,
            lines.len() == i,
            forall|k: int| 0 <= k < lines.len() ==> is_line_for(#[trigger] lines[k]@, *cli, prefer_full),
        decreases cli.count - i,
    {
        let text = generate_uuid(cli.version, cli.uppercase, cli.simple, cli.full, prefer_full);
        lines.push(text);
        i += 1;
    }
    lines
}

/// `r` is what a run gives where binding the command line gave `parsed` and
/// the raw argument list gave `precedence`.
///
/// Where binding failed, the run ends with that error and prints nothing.
/// Where it gave options, the warning is there exactly when a conflict was
/// detected, in `language` and naming the preferred format; and there are
/// as many identifiers as the options count, each of the version, layout
/// and case that the options and the precedence select.
pub open spec fn is_run_for(
    r: Result<Output, CliError>,
    parsed: Result<Cli, CliError>,
    precedence: FormatPrecedence,
    language: Language,
) -> bool {
    match parsed {
        Ok(cli) => {
            &&& r matches Ok(output)
            &&& output.warning is Some == precedence.conflict_detected
            &&& output.warning matches Some(warning) ==> {
                &&& warning.0@ == conflict_notice_text(language, precedence.prefer_full).0
                &&& warning.1@ == conflict_notice_text(language, precedence.prefer_full).1
            }
            &&& output.lines.len() == cli.count
            &&& forall|i: int|
                0 <= i < output.lines.len() ==> #[trigger] is_line_for(
                    output.lines[i]@,
                    cli,
                    precedence.prefer_full,
                )
        },
        Err(error) => r == Err::<Output, CliError>(error),
    }
}

/// Runs the tool on a raw argument list, program name first.
///
/// The precedence between the two format flags is taken from the raw list,
/// the options from binding it with the tool's command. A list that gives no
/// options ends the run with the error of the binding and nothing to print:
/// so does a version that names none. Otherwise the warning is there exactly
/// when both format flags were seen in the raw list, and there are as many
/// identifiers as the options ask for, none with a count of zero.
pub fn run(args: &Vec<String>, language: Language) -> (r: Result<Output, CliError>)
    ensures
        exists|parsed: Result<Cli, CliError>|
            {
                &&& #[trigger] is_parse_of(parsed, args.deep_view())
                &&& is_run_for(r, parsed, resolved(args.deep_view()), language)
            },
        r matches Err(error) ==> is_binding_error(error),
{
    let precedence = determine_format_precedence(args);
    let cli = Cli::try_parse(args)?;
    let warning = if precedence.conflict_detected {
        Some(Messages::new(language).conflict_notice(precedence.prefer_full))
    } else {
        None
    };
    let lines = generate_lines(&cli, precedence.prefer_full);
    Ok(Output { warning, lines })
}

} // verus!
