//! The command line.

use vstd::prelude::*;
use crate::error::{CliError, CliErrorView};
use crate::text::{law_trimmed, trimmed, white_space};
use crate::tmux::texts;

verus! {

/// What `-h` and `--help` show.
pub const HELP_TEXT: &'static str =
    "Usage: ts <session-name>\n\nOptions:\n  -h, --help  Show this help and exit";

/// What the command line asks for.
#[derive(Debug, Clone, PartialEq, Eq)]
pub enum CliCommand {
    /// To show the help.
    Help,
    /// To create and enter the session of this name.
    CreateSession(String),
}

/// The contents of a [`CliCommand`].
pub ghost enum CliCommandView {
    Help,
    CreateSession(Seq<char>),
}

impl View for CliCommand {
    type V = CliCommandView;

    open spec fn view(&self) -> CliCommandView {
        match self {
            CliCommand::Help => CliCommandView::Help,
            CliCommand::CreateSession(session_name) => CliCommandView::CreateSession(
                session_name@,
            ),
        }
    }
}

/// What a command line asks for. Its first word is the name of the program.
pub open spec fn requested(args: Seq<Seq<char>>) -> Result<CliCommandView, CliErrorView> {
    if args.len() < 2 {
        Err(CliErrorView::MissingSessionName)
    } else if args.len() > 2 {
        Err(CliErrorView::TooManyArguments)
    } else if trimmed(args[1]) == "-h"@ || trimmed(args[1]) == "--help"@ {
        Ok(CliCommandView::Help)
    } else if trimmed(args[1]).len() == 0 {
        Err(CliErrorView::EmptySessionName)
    } else {
        Ok(CliCommandView::CreateSession(trimmed(args[1])))
    }
}

/// Reads a command line, whose first word is the name of the program.
pub fn parse_command(args: &[&str]) -> (res: Result<CliCommand, CliError>)
    ensures
        match res {
            Ok(command) => requested(texts(args@)) == Ok::<CliCommandView, CliErrorView>(command@),
            Err(error) => requested(texts(args@)) == Err::<CliCommandView, CliErrorView>(error@),
        },
{
    if args.len() < 2 {
        return Err(CliError::MissingSessionName);
    }
    if args.len() > 2 {
        return Err(CliError::TooManyArguments);
    }
    let session_name = args[1].trim().to_owned();
    if session_name == "-h".to_owned() || session_name == "--help".to_owned() {
        return Ok(CliCommand::Help);
    }
    if session_name.as_str().is_empty() {
        return Err(CliError::EmptySessionName);
    }
    Ok(CliCommand::CreateSession(session_name))
}

/// A command line has to have exactly one word after the name of the program.
pub proof fn law_one_argument(args: Seq<Seq<char>>)
    ensures
        requested(args) == Err::<CliCommandView, CliErrorView>(CliErrorView::MissingSessionName)
            <==> args.len() < 2,
        requested(args) == Err::<CliCommandView, CliErrorView>(CliErrorView::TooManyArguments)
            <==> args.len() > 2,
{
}

/// The argument, without the white space around it, is the name of the session,
/// as it stands and however long it is. Only `-h` and `--help` ask for the help,
/// and only an argument that holds white space alone is refused as empty.
pub proof fn law_argument_is_the_session_name(
    program: Seq<char>,
    before: Seq<char>,
    word: Seq<char>,
    after: Seq<char>,
)
    requires
        forall|i: int| 0 <= i < before.len() ==> white_space(#[trigger] before[i]),
        forall|i: int| 0 <= i < after.len() ==> white_space(#[trigger] after[i]),
        word.len() > 0 ==> !white_space(word[0]) && !white_space(word[word.len() - 1]),
    ensures
        ({
            let command = requested(seq![program, before + word + after]);
            if word == "-h"@ || word == "--help"@ {
                command == Ok::<CliCommandView, CliErrorView>(CliCommandView::Help)
            } else if word.len() > 0 {
                command == Ok::<CliCommandView, CliErrorView>(CliCommandView::CreateSession(word))
            } else {
                command == Err::<CliCommandView, CliErrorView>(CliErrorView::EmptySessionName)
            }
        }),
{
    law_trimmed(before, word, after);
    reveal_strlit("-h");
    reveal_strlit("--help");
}

/// A command is known by its kind and by the whole name of its session.
pub proof fn law_command_view(command: CliCommand)
    ensures
        command is Help <==> command@ == CliCommandView::Help,
        command matches CliCommand::CreateSession(session_name) ==> command@
            == CliCommandView::CreateSession(session_name@),
{
}

} // verus!
