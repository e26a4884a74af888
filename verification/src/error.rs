//! What can go wrong, what it is called, and the exit code that it gives.

use vstd::prelude::*;

verus! {

/// The one-line usage of the command.
pub const USAGE: &'static str = "Usage: ts <session-name>";

/// Why the command failed.
#[derive(Debug, Clone, PartialEq, Eq)]
pub enum CliError {
    /// No argument was given.
    MissingSessionName,
    /// The argument holds white space only.
    EmptySessionName,
    /// More than one argument was given.
    TooManyArguments,
    /// There is no tmux to run.
    TmuxUnavailable,
    /// A session with the wanted name is there already.
    SessionAlreadyExists(String),
    /// tmux could not do what it was asked to.
    TmuxCommandFailed { action: &'static str, details: String },
}

/// The contents of a [`CliError`].
pub ghost enum CliErrorView {
    MissingSessionName,
    EmptySessionName,
    TooManyArguments,
    TmuxUnavailable,
    SessionAlreadyExists(Seq<char>),
    TmuxCommandFailed { action: Seq<char>, details: Seq<char> },
}

impl View for CliError {
    type V = CliErrorView;

    open spec fn view(&self) -> CliErrorView {
        match self {
            CliError::MissingSessionName => CliErrorView::MissingSessionName,
            CliError::EmptySessionName => CliErrorView::EmptySessionName,
            CliError::TooManyArguments => CliErrorView::TooManyArguments,
            CliError::TmuxUnavailable => CliErrorView::TmuxUnavailable,
            CliError::SessionAlreadyExists(session_name) => CliErrorView::SessionAlreadyExists(
                session_name@,
            ),
            CliError::TmuxCommandFailed { action, details } => CliErrorView::TmuxCommandFailed {
                action: action@,
                details: details@,
            },
        }
    }
}

impl CliErrorView {
    /// Whether the command line itself was wrong.
    pub open spec fn is_usage_error(self) -> bool {
        self is MissingSessionName || self is EmptySessionName || self is TooManyArguments
    }

    /// The exit code.
    pub open spec fn code(self) -> u8 {
        if self.is_usage_error() {
            2
        } else if self is TmuxUnavailable {
            127
        } else {
            1
        }
    }

    /// What the user is told.
    pub open spec fn message(self) -> Seq<char> {
        match self {
            CliErrorView::MissingSessionName => "error: missing session name\n"@ + USAGE@,
            CliErrorView::EmptySessionName => "error: session name cannot be empty\n"@ + USAGE@,
            CliErrorView::TooManyArguments => "error: expected exactly one session name\n"@
                + USAGE@,
            CliErrorView::TmuxUnavailable =>
                "error: tmux is not installed or not available in PATH"@,
            CliErrorView::SessionAlreadyExists(session_name) => "error: tmux session '"@
                + session_name + "' already exists"@,
            CliErrorView::TmuxCommandFailed { action, details } => "error: failed to "@ + action
                + ": "@ + details,
        }
    }
}

impl CliError {
    /// The exit code of the command: 2 for a wrong command line, 127 where
    /// there is no tmux, 1 for anything else.
    pub fn exit_code(&self) -> (code: u8)
        ensures
            code == self@.code(),
            self@.is_usage_error() ==> code == 2,
            self@ is TmuxUnavailable ==> code == 127,
            !self@.is_usage_error() && !(self@ is TmuxUnavailable) ==> code == 1,
    {
        match self {
            CliError::MissingSessionName
            | CliError::EmptySessionName
            | CliError::TooManyArguments => 2,
            CliError::TmuxUnavailable => 127,
            CliError::SessionAlreadyExists(_) => 1,
            CliError::TmuxCommandFailed { .. } => 1,
        }
    }

    /// What the user is told.
    pub fn to_string(&self) -> (message: String)
        ensures
            message@ == self@.message(),
    {
        match self {
            CliError::MissingSessionName => "error: missing session name\n".to_owned().concat(
                USAGE,
            ),
            CliError::EmptySessionName => "error: session name cannot be empty\n".to_owned().concat(
                USAGE,
            ),
            CliError::TooManyArguments =>
                "error: expected exactly one session name\n".to_owned().concat(USAGE),
            CliError::TmuxUnavailable =>
                "error: tmux is not installed or not available in PATH".to_owned(),
            CliError::SessionAlreadyExists(session_name) => "error: tmux session '".to_owned()
                .concat(session_name.as_str()).concat("' already exists"),
            CliError::TmuxCommandFailed { action, details } => "error: failed to ".to_owned()
                .concat(action).concat(": ").concat(details.as_str()),
        }
    }
}

/// The exit code is 2 for a command line without a session name, with an empty
/// one or with too many arguments, 127 without tmux, and 1 for any other error.
pub proof fn law_exit_codes(session_name: Seq<char>, action: Seq<char>, details: Seq<char>)
    ensures
        CliErrorView::MissingSessionName.code() == 2,
        CliErrorView::EmptySessionName.code() == 2,
        CliErrorView::TooManyArguments.code() == 2,
        CliErrorView::TmuxUnavailable.code() == 127,
        CliErrorView::SessionAlreadyExists(session_name).code() == 1,
        (CliErrorView::TmuxCommandFailed { action, details }).code() == 1,
{
}

/// The user is told what is wrong and, where it is the command line, how the
/// command is used; the name of a session, an action and its details are told
/// whole.
pub proof fn law_messages(session_name: Seq<char>, action: Seq<char>, details: Seq<char>)
    ensures
        CliErrorView::MissingSessionName.message() == "error: missing session name\n"@
            + "Usage: ts <session-name>"@,
        CliErrorView::EmptySessionName.message() == "error: session name cannot be empty\n"@
            + "Usage: ts <session-name>"@,
        CliErrorView::TooManyArguments.message() == "error: expected exactly one session name\n"@
            + "Usage: ts <session-name>"@,
        CliErrorView::TmuxUnavailable.message()
            == "error: tmux is not installed or not available in PATH"@,
        CliErrorView::SessionAlreadyExists(session_name).message() == "error: tmux session '"@
            + session_name + "' already exists"@,
        (CliErrorView::TmuxCommandFailed { action, details }).message() == "error: failed to "@
            + action + ": "@ + details,
{
}

/// An error is known by its kind and by all the text that it holds.
pub proof fn law_error_view(error: CliError)
    ensures
        error is MissingSessionName <==> error@ is MissingSessionName,
        error is EmptySessionName <==> error@ is EmptySessionName,
        error is TooManyArguments <==> error@ is TooManyArguments,
        error is TmuxUnavailable <==> error@ is TmuxUnavailable,
        error is SessionAlreadyExists <==> error@ is SessionAlreadyExists,
        error matches CliError::SessionAlreadyExists(session_name) ==> error@
            == CliErrorView::SessionAlreadyExists(session_name@),
        error is TmuxCommandFailed <==> error@ is TmuxCommandFailed,
        error matches CliError::TmuxCommandFailed { action, details } ==> error@ == (
        CliErrorView::TmuxCommandFailed { action: action@, details: details@ }),
{
}

} // verus!
