//! What a call of each function comes to, said of its arguments, of the
//! conversation before and after it, and of its result.

use vstd::prelude::*;
use vstd::utf8::{decode_utf8, valid_utf8};
use crate::cli::{law_argument_is_the_session_name, parse_command, CliCommand};
use crate::entry::{
    enter_session, entering_talk, has_active_tmux_client_context, SessionEntryMode,
};
use crate::error::{CliError, CliErrorView};
use crate::run::{run, session_talk};
use crate::script::script;
use crate::session::{
    cleanup_session, configure_steps, configure_window, create_session, creation_talk,
    ensure_session_absent, rollback_session_creation, session_creation_rollback_error,
};
use crate::text::{law_printed, lossy_text, printed, white_space};
use crate::tmux::{
    format_tmux_output, format_tmux_status, io_error, map_tmux_io_error, output_details,
    parse_tmux_identifier, reply_view, run_tmux_checked, run_tmux_checked_with_options,
    run_tmux_identifier, run_tmux_output, run_tmux_output_with_env, run_tmux_status_with_env,
    texts, tmux_client_context_evidence, tmux_command, Conversation, Outcome, Stop, TmuxCommand,
    TmuxCommandView, TmuxEnvPolicy, TmuxIoError, TmuxOutput, TmuxReply, TmuxRequest,
    TmuxRequestView, TmuxStatus, TmuxStdioPolicy,
};

verus! {

// Text and errors

/// The exit code of each error.
pub proof fn law_exit_code(error: CliError, code: u8)
    requires
        call_ensures(CliError::exit_code, (&error,), code),
    ensures
        code == match error {
            CliError::MissingSessionName => 2u8,
            CliError::EmptySessionName => 2u8,
            CliError::TooManyArguments => 2u8,
            CliError::TmuxUnavailable => 127u8,
            CliError::SessionAlreadyExists(_) => 1u8,
            CliError::TmuxCommandFailed { .. } => 1u8,
        },
{
}

/// What the user is told of each error.
pub proof fn law_to_string(error: CliError, message: String)
    requires
        call_ensures(CliError::to_string, (&error,), message),
    ensures
        message@ == match error {
            CliError::MissingSessionName => "error: missing session name\n"@
                + "Usage: ts <session-name>"@,
            CliError::EmptySessionName => "error: session name cannot be empty\n"@
                + "Usage: ts <session-name>"@,
            CliError::TooManyArguments => "error: expected exactly one session name\n"@
                + "Usage: ts <session-name>"@,
            CliError::TmuxUnavailable => "error: tmux is not installed or not available in PATH"@,
            CliError::SessionAlreadyExists(session_name) => "error: tmux session '"@
                + session_name@ + "' already exists"@,
            CliError::TmuxCommandFailed { action, details } => "error: failed to "@ + action@
                + ": "@ + details@,
        },
{
}

/// The one argument, without the white space around it, is the name of the
/// session, as it stands; `-h` and `--help` ask for the help, and white space alone
/// is refused.
pub proof fn law_parse_command(
    args: &[&str],
    before: Seq<char>,
    word: Seq<char>,
    after: Seq<char>,
    res: Result<CliCommand, CliError>,
)
    requires
        call_ensures(parse_command, (args,), res),
        args@.len() == 2 ==> {
            &&& args@[1]@ == before + word + after
            &&& forall|i: int| 0 <= i < before.len() ==> white_space(#[trigger] before[i])
            &&& forall|i: int| 0 <= i < after.len() ==> white_space(#[trigger] after[i])
            &&& word.len() > 0 ==> !white_space(word[0]) && !white_space(word[word.len() - 1])
        },
    ensures
        res == Err::<CliCommand, CliError>(CliError::MissingSessionName) <==> args@.len() < 2,
        res == Err::<CliCommand, CliError>(CliError::TooManyArguments) <==> args@.len() > 2,
        args@.len() == 2 ==> if word == "-h"@ || word == "--help"@ {
            res == Ok::<CliCommand, CliError>(CliCommand::Help)
        } else if word.len() == 0 {
            res == Err::<CliCommand, CliError>(CliError::EmptySessionName)
        } else {
            res matches Ok(CliCommand::CreateSession(session_name)) && session_name@ == word
        },
{
    if args@.len() == 2 {
        law_argument_is_the_session_name(args@[0]@, before, word, after);
        assert(texts(args@) =~= seq![args@[0]@, before + word + after]);
    }
}

/// The identifier in what tmux printed is all of it but the white space around.
pub proof fn law_parse_tmux_identifier(
    stdout: &[u8],
    action: &'static str,
    before: Seq<char>,
    text: Seq<char>,
    after: Seq<char>,
    res: Result<String, CliError>,
)
    requires
        call_ensures(parse_tmux_identifier, (stdout, action), res),
        (if valid_utf8(stdout@) {
            decode_utf8(stdout@)
        } else {
            lossy_text(stdout@)
        }) == before + text + after,
        forall|i: int| 0 <= i < before.len() ==> white_space(#[trigger] before[i]),
        forall|i: int| 0 <= i < after.len() ==> white_space(#[trigger] after[i]),
        text.len() > 0 ==> !white_space(text[0]) && !white_space(text[text.len() - 1]),
    ensures
        res is Ok <==> text.len() > 0,
        res is Ok ==> res->Ok_0@ == text,
        res is Err ==> res->Err_0@ == (CliErrorView::TmuxCommandFailed {
            action: action@,
            details: "tmux exited successfully without returning the expected identifier"@,
        }),
{
    law_printed(stdout@, before, text, after);
}

/// What tmux printed names a client if and only if it is more than white space.
pub proof fn law_tmux_client_context_evidence(
    stdout: &[u8],
    before: Seq<char>,
    text: Seq<char>,
    after: Seq<char>,
    res: bool,
)
    requires
        call_ensures(tmux_client_context_evidence, (stdout,), res),
        (if valid_utf8(stdout@) {
            decode_utf8(stdout@)
        } else {
            lossy_text(stdout@)
        }) == before + text + after,
        forall|i: int| 0 <= i < before.len() ==> white_space(#[trigger] before[i]),
        forall|i: int| 0 <= i < after.len() ==> white_space(#[trigger] after[i]),
        text.len() > 0 ==> !white_space(text[0]) && !white_space(text[text.len() - 1]),
    ensures
        res <==> text.len() > 0,
{
    law_printed(stdout@, before, text, after);
}

/// What is told of a failed command.
pub proof fn law_format_tmux_output(output: TmuxOutput, res: String)
    requires
        call_ensures(format_tmux_output, (&output,), res),
    ensures
        ({
            let out = printed(output.stdout@);
            let err = printed(output.stderr@);
            &&& err.len() > 0 && out.len() > 0 ==> res@ == err + "; stdout: "@ + out
            &&& err.len() > 0 && out.len() == 0 ==> res@ == err
            &&& err.len() == 0 && out.len() > 0 ==> res@ == out
            &&& err.len() == 0 && out.len() == 0 ==> res@
                == "tmux exited with a non-zero status without additional output"@
        }),
{
}

/// What is told of a failed command at the terminal.
pub proof fn law_format_tmux_status(status: TmuxStatus, res: String)
    requires
        call_ensures(format_tmux_status, (&status,), res),
    ensures
        res@ == status.description@,
{
}

/// What is told of a command that cannot be run.
pub proof fn law_map_tmux_io_error(error: TmuxIoError, action: &'static str, res: CliError)
    requires
        call_ensures(map_tmux_io_error, (&error, action), res),
    ensures
        error.kind is NotFound <==> res == CliError::TmuxUnavailable,
        error.kind is Other ==> res@ == (CliErrorView::TmuxCommandFailed {
            action: action@,
            details: error.description@,
        }),
{
}

/// A command runs `tmux` with exactly these arguments.
pub proof fn law_tmux_command<const N: usize>(
    args: [&str; N],
    env_policy: TmuxEnvPolicy,
    res: TmuxCommand,
)
    requires
        call_ensures(tmux_command::<N>, (args, env_policy), res),
    ensures
        res.program@ == "tmux"@,
        res.args@.len() == N,
        forall|i: int| 0 <= i < N ==> (#[trigger] res.args@[i])@ == args@[i]@,
        env_policy is Preserve ==> res.removed_env@.len() == 0,
        env_policy is ClearTmux ==> {
            &&& res.removed_env@.len() == 2
            &&& res.removed_env@[0]@ == "TMUX"@
            &&& res.removed_env@[1]@ == "TMUX_PANE"@
        },
{
    assert(res@.args.len() == N);
    assert forall|i: int| 0 <= i < N implies (#[trigger] res.args@[i])@ == args@[i]@ by {
        assert(res@.args[i] == texts(args@)[i]);
    }
    assert(res@.removed_env.len() == res.removed_env@.len());
    if env_policy is ClearTmux {
        assert(res@.removed_env[0] == "TMUX"@);
        assert(res@.removed_env[1] == "TMUX_PANE"@);
    }
}

// Rolling back and entering

/// The error after a failed setup and a failed cleanup.
pub proof fn law_session_creation_rollback_error(
    setup_error: CliError,
    cleanup_error: CliError,
    res: CliError,
)
    requires
        call_ensures(session_creation_rollback_error, (setup_error, cleanup_error), res),
    ensures
        res@ == (CliErrorView::TmuxCommandFailed {
            action: "clean up the partially created tmux session"@,
            details: "session setup failed: "@ + setup_error@.message() + "; cleanup failed: "@
                + cleanup_error@.message(),
        }),
{
}

/// A success is handed on as it is. A failure stays the error, unless the cleanup
/// of the session fails too.
pub proof fn law_rollback_session_creation<T, Cleanup: FnOnce(&str) -> Result<(), CliError>>(
    session_name: &str,
    result: Result<T, CliError>,
    cleanup: Cleanup,
    res: Result<T, CliError>,
)
    requires
        call_ensures(
            rollback_session_creation::<T, Cleanup>,
            (session_name, result, cleanup),
            res,
        ),
    ensures
        result is Ok <==> res is Ok,
        result is Ok ==> res == result,
        result is Err ==> exists|cleaned: Result<(), CliError>| #[trigger]
            call_ensures(cleanup, (session_name,), cleaned) && {
                &&& cleaned is Ok ==> res == result
                &&& cleaned is Err ==> res->Err_0@ == (CliErrorView::TmuxCommandFailed {
                    action: "clean up the partially created tmux session"@,
                    details: "session setup failed: "@ + result->Err_0@.message()
                        + "; cleanup failed: "@ + cleaned->Err_0@.message(),
                })
            },
{
}

/// The client is switched if and only if `TMUX` is set to something and there is a
/// client.
pub proof fn law_from_tmux_context(
    tmux_env: Option<&str>,
    has_active_client_context: bool,
    res: SessionEntryMode,
)
    requires
        call_ensures(
            SessionEntryMode::from_tmux_context,
            (tmux_env, has_active_client_context),
            res,
        ),
    ensures
        res == SessionEntryMode::SwitchClient <==> tmux_env is Some && tmux_env->0@.len() > 0
            && has_active_client_context,
{
}

/// To attach, tmux must not see a tmux around it; to switch, it has to.
pub proof fn law_tmux_env_policy(mode: SessionEntryMode, res: TmuxEnvPolicy)
    requires
        call_ensures(SessionEntryMode::tmux_env_policy, (mode,), res),
    ensures
        res is ClearTmux <==> mode is AttachSession,
{
}

/// Either way tmux talks to the terminal.
pub proof fn law_stdio_policy(mode: SessionEntryMode, res: TmuxStdioPolicy)
    requires
        call_ensures(SessionEntryMode::stdio_policy, (mode,), res),
    ensures
        res is Inherit,
{
}

// The conversation

/// Nothing has been said in a new conversation.
pub proof fn law_new(res: Conversation)
    requires
        call_ensures(Conversation::new, (), res),
    ensures
        res@.replies.len() == 0,
        res@.answered.len() == 0,
{
}

/// A reply is noted whole and after the others, and the next pass starts anew.
pub proof fn law_record(tmux: &mut Conversation, reply: TmuxReply, res: ())
    requires
        call_ensures(Conversation::record, (tmux, reply), res),
    ensures
        final(tmux)@.answered.len() == 0,
        final(tmux)@.replies.len() == old(tmux)@.replies.len() + 1,
        final(tmux)@.replies.last() == reply_view(reply),
        forall|i: int|
            0 <= i < old(tmux)@.replies.len() ==> #[trigger] final(tmux)@.replies[i] == old(
                tmux,
            )@.replies[i],
{
}

/// The requests that were answered are shown, all of them and in order.
pub proof fn law_answered(tmux: Conversation, res: &Vec<TmuxRequest>)
    requires
        call_ensures(Conversation::answered, (&tmux,), res),
    ensures
        res@.len() == tmux@.answered.len(),
        forall|i: int| 0 <= i < res@.len() ==> (#[trigger] res@[i])@ == tmux@.answered[i],
{
    assert(res@.map_values(|request: TmuxRequest| request@).len() == res@.len());
    assert forall|i: int| 0 <= i < res@.len() implies (#[trigger] res@[i])@
        == tmux@.answered[i] by {
        assert(res@.map_values(|request: TmuxRequest| request@)[i] == res@[i]@);
    }
}

// One request

/// A command with these arguments is run in the environment that is wanted, and its
/// output is handed on, however the command ended.
pub proof fn law_run_tmux_output_with_env<const N: usize>(
    tmux: &mut Conversation,
    args: [&str; N],
    action: &'static str,
    env_policy: TmuxEnvPolicy,
    res: Result<&TmuxOutput, Stop>,
)
    requires
        call_ensures(run_tmux_output_with_env::<N>, (tmux, args, action, env_policy), res),
    ensures
        ({
            let before = old(tmux)@;
            let after = final(tmux)@;
            let request = (TmuxRequestView {
                command: TmuxCommandView {
                    program: "tmux"@,
                    args: args@.map_values(|arg: &str| arg@),
                    removed_env: match env_policy {
                        TmuxEnvPolicy::Preserve => seq![],
                        TmuxEnvPolicy::ClearTmux => seq!["TMUX"@, "TMUX_PANE"@],
                    },
                },
                stdio_policy: TmuxStdioPolicy::Capture,
            });
            &&& after.replies == before.replies
            &&& before.answered.len() >= before.replies.len() ==> {
                &&& after.answered == before.answered
                &&& res is Err && res->Err_0 is Waiting && res->Err_0->Waiting_0@ == request
            }
            &&& before.answered.len() < before.replies.len() ==> {
                let reply = before.replies[before.answered.len() as int];
                &&& after.answered == before.answered.push(request)
                &&& reply is Ok ==> res is Ok && res->Ok_0.deep_view() == reply->Ok_0
                &&& reply is Err ==> res is Err && res->Err_0 is Failed
                    && res->Err_0->Failed_0@ == io_error(reply->Err_0, action@)
            }
        }),
{
    let before = old(tmux)@;
    let after = final(tmux)@;
    assert(before.answered + seq![] =~= before.answered);
    if before.answered.len() < before.replies.len() {
        assert(before.unheard()[0] == before.replies[before.answered.len() as int]);
        assert(before.answered + seq![after.answered.last()] =~= before.answered.push(
            after.answered.last(),
        ));
    }
}

/// A command with these arguments is run, and its output is handed on, however the
/// command ended.
pub proof fn law_run_tmux_output<const N: usize>(
    tmux: &mut Conversation,
    args: [&str; N],
    action: &'static str,
    res: Result<&TmuxOutput, Stop>,
)
    requires
        call_ensures(run_tmux_output::<N>, (tmux, args, action), res),
    ensures
        ({
            let before = old(tmux)@;
            let after = final(tmux)@;
            let request = (TmuxRequestView {
                command: TmuxCommandView {
                    program: "tmux"@,
                    args: args@.map_values(|arg: &str| arg@),
                    removed_env: seq![],
                },
                stdio_policy: TmuxStdioPolicy::Capture,
            });
            &&& after.replies == before.replies
            &&& before.answered.len() >= before.replies.len() ==> {
                &&& after.answered == before.answered
                &&& res is Err && res->Err_0 is Waiting && res->Err_0->Waiting_0@ == request
            }
            &&& before.answered.len() < before.replies.len() ==> {
                let reply = before.replies[before.answered.len() as int];
                &&& after.answered == before.answered.push(request)
                &&& reply is Ok ==> res is Ok && res->Ok_0.deep_view() == reply->Ok_0
                &&& reply is Err ==> res is Err && res->Err_0 is Failed
                    && res->Err_0->Failed_0@ == io_error(reply->Err_0, action@)
            }
        }),
{
    let before = old(tmux)@;
    let after = final(tmux)@;
    assert(before.answered + seq![] =~= before.answered);
    if before.answered.len() < before.replies.len() {
        assert(before.unheard()[0] == before.replies[before.answered.len() as int]);
        assert(before.answered + seq![after.answered.last()] =~= before.answered.push(
            after.answered.last(),
        ));
    }
}

/// A command with these arguments is run at the terminal, and its status is handed
/// on, whatever it is.
pub proof fn law_run_tmux_status_with_env<const N: usize>(
    tmux: &mut Conversation,
    args: [&str; N],
    action: &'static str,
    env_policy: TmuxEnvPolicy,
    res: Result<&TmuxStatus, Stop>,
)
    requires
        call_ensures(run_tmux_status_with_env::<N>, (tmux, args, action, env_policy), res),
    ensures
        ({
            let before = old(tmux)@;
            let after = final(tmux)@;
            let request = (TmuxRequestView {
                command: TmuxCommandView {
                    program: "tmux"@,
                    args: args@.map_values(|arg: &str| arg@),
                    removed_env: match env_policy {
                        TmuxEnvPolicy::Preserve => seq![],
                        TmuxEnvPolicy::ClearTmux => seq!["TMUX"@, "TMUX_PANE"@],
                    },
                },
                stdio_policy: TmuxStdioPolicy::Inherit,
            });
            &&& after.replies == before.replies
            &&& before.answered.len() >= before.replies.len() ==> {
                &&& after.answered == before.answered
                &&& res is Err && res->Err_0 is Waiting && res->Err_0->Waiting_0@ == request
            }
            &&& before.answered.len() < before.replies.len() ==> {
                let reply = before.replies[before.answered.len() as int];
                &&& after.answered == before.answered.push(request)
                &&& reply is Ok ==> res is Ok && res->Ok_0.success == reply->Ok_0.success
                &&& reply is Ok ==> res->Ok_0.description@ == reply->Ok_0.description
                &&& reply is Err ==> res is Err && res->Err_0 is Failed
                    && res->Err_0->Failed_0@ == io_error(reply->Err_0, action@)
            }
        }),
{
    let before = old(tmux)@;
    let after = final(tmux)@;
    assert(before.answered + seq![] =~= before.answered);
    if before.answered.len() < before.replies.len() {
        assert(before.unheard()[0] == before.replies[before.answered.len() as int]);
        assert(before.answered + seq![after.answered.last()] =~= before.answered.push(
            after.answered.last(),
        ));
    }
}

/// A command with these arguments is run as it is wanted. Its status alone decides
/// whether it has worked.
pub proof fn law_run_tmux_checked_with_options<const N: usize>(
    tmux: &mut Conversation,
    args: [&str; N],
    action: &'static str,
    env_policy: TmuxEnvPolicy,
    stdio_policy: TmuxStdioPolicy,
    res: Result<(), Stop>,
)
    requires
        call_ensures(
            run_tmux_checked_with_options::<N>,
            (tmux, args, action, env_policy, stdio_policy),
            res,
        ),
    ensures
        ({
            let before = old(tmux)@;
            let after = final(tmux)@;
            let request = (TmuxRequestView {
                command: TmuxCommandView {
                    program: "tmux"@,
                    args: args@.map_values(|arg: &str| arg@),
                    removed_env: match env_policy {
                        TmuxEnvPolicy::Preserve => seq![],
                        TmuxEnvPolicy::ClearTmux => seq!["TMUX"@, "TMUX_PANE"@],
                    },
                },
                stdio_policy: stdio_policy,
            });
            &&& after.replies == before.replies
            &&& before.answered.len() >= before.replies.len() ==> {
                &&& after.answered == before.answered
                &&& res is Err && res->Err_0 is Waiting && res->Err_0->Waiting_0@ == request
            }
            &&& before.answered.len() < before.replies.len() ==> {
                let reply = before.replies[before.answered.len() as int];
                &&& after.answered == before.answered.push(request)
                &&& res is Ok <==> reply is Ok && reply->Ok_0.success
                &&& reply is Ok && !reply->Ok_0.success ==> res is Err && res->Err_0 is Failed
                    && res->Err_0->Failed_0@ == (CliErrorView::TmuxCommandFailed {
                        action: action@,
                        details: match stdio_policy {
                            TmuxStdioPolicy::Capture => output_details(reply->Ok_0),
                            TmuxStdioPolicy::Inherit => reply->Ok_0.description,
                        },
                    })
                &&& reply is Err ==> res is Err && res->Err_0 is Failed
                    && res->Err_0->Failed_0@ == io_error(reply->Err_0, action@)
            }
        }),
{
    let before = old(tmux)@;
    let after = final(tmux)@;
    assert(before.answered + seq![] =~= before.answered);
    if before.answered.len() < before.replies.len() {
        assert(before.unheard()[0] == before.replies[before.answered.len() as int]);
        assert(before.answered + seq![after.answered.last()] =~= before.answered.push(
            after.answered.last(),
        ));
    }
}

/// A command with these arguments is run. Its status alone decides whether it has
/// worked.
pub proof fn law_run_tmux_checked<const N: usize>(
    tmux: &mut Conversation,
    args: [&str; N],
    action: &'static str,
    res: Result<(), Stop>,
)
    requires
        call_ensures(run_tmux_checked::<N>, (tmux, args, action), res),
    ensures
        ({
            let before = old(tmux)@;
            let after = final(tmux)@;
            let request = (TmuxRequestView {
                command: TmuxCommandView {
                    program: "tmux"@,
                    args: args@.map_values(|arg: &str| arg@),
                    removed_env: seq![],
                },
                stdio_policy: TmuxStdioPolicy::Capture,
            });
            &&& after.replies == before.replies
            &&& before.answered.len() >= before.replies.len() ==> {
                &&& after.answered == before.answered
                &&& res is Err && res->Err_0 is Waiting && res->Err_0->Waiting_0@ == request
            }
            &&& before.answered.len() < before.replies.len() ==> {
                let reply = before.replies[before.answered.len() as int];
                &&& after.answered == before.answered.push(request)
                &&& res is Ok <==> reply is Ok && reply->Ok_0.success
                &&& reply is Ok && !reply->Ok_0.success ==> res is Err && res->Err_0 is Failed
                    && res->Err_0->Failed_0@ == (CliErrorView::TmuxCommandFailed {
                        action: action@,
                        details: output_details(reply->Ok_0),
                    })
                &&& reply is Err ==> res is Err && res->Err_0 is Failed
                    && res->Err_0->Failed_0@ == io_error(reply->Err_0, action@)
            }
        }),
{
    let before = old(tmux)@;
    let after = final(tmux)@;
    assert(before.answered + seq![] =~= before.answered);
    if before.answered.len() < before.replies.len() {
        assert(before.unheard()[0] == before.replies[before.answered.len() as int]);
        assert(before.answered + seq![after.answered.last()] =~= before.answered.push(
            after.answered.last(),
        ));
    }
}

/// A command with these arguments is run. It has to succeed and to print something,
/// and what it printed is the identifier.
pub proof fn law_run_tmux_identifier<const N: usize>(
    tmux: &mut Conversation,
    args: [&str; N],
    action: &'static str,
    res: Result<String, Stop>,
)
    requires
        call_ensures(run_tmux_identifier::<N>, (tmux, args, action), res),
    ensures
        ({
            let before = old(tmux)@;
            let after = final(tmux)@;
            let request = (TmuxRequestView {
                command: TmuxCommandView {
                    program: "tmux"@,
                    args: args@.map_values(|arg: &str| arg@),
                    removed_env: seq![],
                },
                stdio_policy: TmuxStdioPolicy::Capture,
            });
            &&& after.replies == before.replies
            &&& before.answered.len() >= before.replies.len() ==> {
                &&& after.answered == before.answered
                &&& res is Err && res->Err_0 is Waiting && res->Err_0->Waiting_0@ == request
            }
            &&& before.answered.len() < before.replies.len() ==> {
                let reply = before.replies[before.answered.len() as int];
                &&& after.answered == before.answered.push(request)
                &&& res is Ok <==> reply is Ok && reply->Ok_0.success && printed(
                    reply->Ok_0.stdout,
                ).len() > 0
                &&& res is Ok ==> res->Ok_0@ == printed(reply->Ok_0.stdout)
                &&& reply is Ok && !reply->Ok_0.success ==> res is Err && res->Err_0 is Failed
                    && res->Err_0->Failed_0@ == (CliErrorView::TmuxCommandFailed {
                        action: action@,
                        details: output_details(reply->Ok_0),
                    })
                &&& reply is Ok && reply->Ok_0.success && res is Err ==> res->Err_0 is Failed
                    && res->Err_0->Failed_0@ == (CliErrorView::TmuxCommandFailed {
                        action: action@,
                        details: "tmux exited successfully without returning the expected identifier"@,
                    })
                &&& reply is Err ==> res is Err && res->Err_0 is Failed
                    && res->Err_0->Failed_0@ == io_error(reply->Err_0, action@)
            }
        }),
{
    let before = old(tmux)@;
    let after = final(tmux)@;
    assert(before.answered + seq![] =~= before.answered);
    if before.answered.len() < before.replies.len() {
        assert(before.unheard()[0] == before.replies[before.answered.len() as int]);
        assert(before.answered + seq![after.answered.last()] =~= before.answered.push(
            after.answered.last(),
        ));
    }
}

/// tmux is asked for a session of exactly this name, and only where it has none is
/// the way free.
pub proof fn law_ensure_session_absent(
    tmux: &mut Conversation,
    session_name: &str,
    res: Result<(), Stop>,
)
    requires
        call_ensures(ensure_session_absent, (tmux, session_name), res),
    ensures
        ({
            let before = old(tmux)@;
            let after = final(tmux)@;
            let request = (TmuxRequestView {
                command: TmuxCommandView {
                    program: "tmux"@,
                    args: seq!["has-session"@, "-t"@, session_name@],
                    removed_env: seq![],
                },
                stdio_policy: TmuxStdioPolicy::Capture,
            });
            &&& after.replies == before.replies
            &&& before.answered.len() >= before.replies.len() ==> {
                &&& after.answered == before.answered
                &&& res is Err && res->Err_0 is Waiting && res->Err_0->Waiting_0@ == request
            }
            &&& before.answered.len() < before.replies.len() ==> {
                let reply = before.replies[before.answered.len() as int];
                &&& after.answered == before.answered.push(request)
                &&& res is Ok <==> reply is Ok && !reply->Ok_0.success
                &&& reply is Ok && reply->Ok_0.success ==> res is Err && res->Err_0 is Failed
                    && res->Err_0->Failed_0@ == CliErrorView::SessionAlreadyExists(session_name@)
                &&& reply is Err ==> res is Err && res->Err_0 is Failed
                    && res->Err_0->Failed_0@ == io_error(
                        reply->Err_0,
                        "check whether the tmux session already exists"@,
                    )
            }
        }),
{
    let before = old(tmux)@;
    let after = final(tmux)@;
    assert(before.answered + seq![] =~= before.answered);
    if before.answered.len() < before.replies.len() {
        assert(before.unheard()[0] == before.replies[before.answered.len() as int]);
        assert(before.answered + seq![after.answered.last()] =~= before.answered.push(
            after.answered.last(),
        ));
    }
}

/// tmux is told to remove the session of exactly this name. Its status alone decides
/// whether it has.
pub proof fn law_cleanup_session(
    tmux: &mut Conversation,
    session_name: &str,
    res: Result<(), Stop>,
)
    requires
        call_ensures(cleanup_session, (tmux, session_name), res),
    ensures
        ({
            let before = old(tmux)@;
            let after = final(tmux)@;
            let request = (TmuxRequestView {
                command: TmuxCommandView {
                    program: "tmux"@,
                    args: seq!["kill-session"@, "-t"@, session_name@],
                    removed_env: seq![],
                },
                stdio_policy: TmuxStdioPolicy::Capture,
            });
            &&& after.replies == before.replies
            &&& before.answered.len() >= before.replies.len() ==> {
                &&& after.answered == before.answered
                &&& res is Err && res->Err_0 is Waiting && res->Err_0->Waiting_0@ == request
            }
            &&& before.answered.len() < before.replies.len() ==> {
                let reply = before.replies[before.answered.len() as int];
                &&& after.answered == before.answered.push(request)
                &&& res is Ok <==> reply is Ok && reply->Ok_0.success
                &&& reply is Ok && !reply->Ok_0.success ==> res is Err && res->Err_0 is Failed
                    && res->Err_0->Failed_0@ == (CliErrorView::TmuxCommandFailed {
                        action: "clean up the partially created tmux session"@,
                        details: output_details(reply->Ok_0),
                    })
                &&& reply is Err ==> res is Err && res->Err_0 is Failed
                    && res->Err_0->Failed_0@ == io_error(
                        reply->Err_0,
                        "clean up the partially created tmux session"@,
                    )
            }
        }),
{
    let before = old(tmux)@;
    let after = final(tmux)@;
    assert(before.answered + seq![] =~= before.answered);
    if before.answered.len() < before.replies.len() {
        assert(before.unheard()[0] == before.replies[before.answered.len() as int]);
        assert(before.answered + seq![after.answered.last()] =~= before.answered.push(
            after.answered.last(),
        ));
    }
}

/// There is a client if and only if tmux, asked for it, succeeds and prints
/// something.
pub proof fn law_has_active_tmux_client_context(
    tmux: &mut Conversation,
    res: Result<bool, Stop>,
)
    requires
        call_ensures(has_active_tmux_client_context, (tmux,), res),
    ensures
        ({
            let before = old(tmux)@;
            let after = final(tmux)@;
            let request = (TmuxRequestView {
                command: TmuxCommandView {
                    program: "tmux"@,
                    args: seq!["display-message"@, "-p"@, "#{client_pid}"@],
                    removed_env: seq![],
                },
                stdio_policy: TmuxStdioPolicy::Capture,
            });
            &&& after.replies == before.replies
            &&& before.answered.len() >= before.replies.len() ==> {
                &&& after.answered == before.answered
                &&& res is Err && res->Err_0 is Waiting && res->Err_0->Waiting_0@ == request
            }
            &&& before.answered.len() < before.replies.len() ==> {
                let reply = before.replies[before.answered.len() as int];
                &&& after.answered == before.answered.push(request)
                &&& res is Ok
                &&& res->Ok_0 <==> reply is Ok && reply->Ok_0.success && printed(
                    reply->Ok_0.stdout,
                ).len() > 0
            }
        }),
{
    let before = old(tmux)@;
    let after = final(tmux)@;
    assert(before.answered + seq![] =~= before.answered);
    if before.answered.len() < before.replies.len() {
        assert(before.unheard()[0] == before.replies[before.answered.len() as int]);
        assert(before.answered + seq![after.answered.last()] =~= before.answered.push(
            after.answered.last(),
        ));
    }
}

/// The client is switched if and only if `TMUX` is set to something and tmux names a
/// client.
pub proof fn law_detect(
    tmux: &mut Conversation,
    tmux_env: Option<&str>,
    res: Result<SessionEntryMode, Stop>,
)
    requires
        call_ensures(SessionEntryMode::detect, (tmux, tmux_env), res),
    ensures
        ({
            let before = old(tmux)@;
            let after = final(tmux)@;
            let request = (TmuxRequestView {
                command: TmuxCommandView {
                    program: "tmux"@,
                    args: seq!["display-message"@, "-p"@, "#{client_pid}"@],
                    removed_env: seq![],
                },
                stdio_policy: TmuxStdioPolicy::Capture,
            });
            &&& after.replies == before.replies
            &&& before.answered.len() >= before.replies.len() ==> {
                &&& after.answered == before.answered
                &&& res is Err && res->Err_0 is Waiting && res->Err_0->Waiting_0@ == request
            }
            &&& before.answered.len() < before.replies.len() ==> {
                let reply = before.replies[before.answered.len() as int];
                &&& after.answered == before.answered.push(request)
                &&& res is Ok
                &&& res->Ok_0 == SessionEntryMode::SwitchClient <==> {
                    &&& tmux_env is Some && tmux_env->0@.len() > 0
                    &&& reply is Ok && reply->Ok_0.success
                    &&& printed(reply->Ok_0.stdout).len() > 0
                }
            }
        }),
{
    let before = old(tmux)@;
    let after = final(tmux)@;
    assert(before.answered + seq![] =~= before.answered);
    if before.answered.len() < before.replies.len() {
        assert(before.unheard()[0] == before.replies[before.answered.len() as int]);
        assert(before.answered + seq![after.answered.last()] =~= before.answered.push(
            after.answered.last(),
        ));
    }
}

/// The session of exactly this name is entered in this mode, at the terminal. The
/// status of the command alone decides whether it was.
pub proof fn law_enter(
    tmux: &mut Conversation,
    mode: SessionEntryMode,
    session_name: &str,
    res: Result<(), Stop>,
)
    requires
        call_ensures(SessionEntryMode::enter, (mode, tmux, session_name), res),
    ensures
        ({
            let before = old(tmux)@;
            let after = final(tmux)@;
            let request = (TmuxRequestView {
                command: TmuxCommandView {
                    program: "tmux"@,
                    args: match mode {
                        SessionEntryMode::AttachSession => {
                            seq!["attach-session"@, "-t"@, session_name@]
                        },
                        SessionEntryMode::SwitchClient => {
                            seq!["switch-client"@, "-t"@, session_name@]
                        },
                    },
                    removed_env: match mode {
                        SessionEntryMode::AttachSession => seq!["TMUX"@, "TMUX_PANE"@],
                        SessionEntryMode::SwitchClient => seq![],
                    },
                },
                stdio_policy: TmuxStdioPolicy::Inherit,
            });
            let action = match mode {
                        SessionEntryMode::AttachSession => "attach to the tmux session"@,
                        SessionEntryMode::SwitchClient => {
                            "switch the active tmux client to the session"@
                        },
                    };
            &&& after.replies == before.replies
            &&& before.answered.len() >= before.replies.len() ==> {
                &&& after.answered == before.answered
                &&& res is Err && res->Err_0 is Waiting && res->Err_0->Waiting_0@ == request
            }
            &&& before.answered.len() < before.replies.len() ==> {
                let reply = before.replies[before.answered.len() as int];
                &&& after.answered == before.answered.push(request)
                &&& res is Ok <==> reply is Ok && reply->Ok_0.success
                &&& reply is Ok && !reply->Ok_0.success ==> res is Err && res->Err_0 is Failed
                    && res->Err_0->Failed_0@ == (CliErrorView::TmuxCommandFailed {
                        action,
                        details: reply->Ok_0.description,
                    })
                &&& reply is Err ==> res is Err && res->Err_0 is Failed
                    && res->Err_0->Failed_0@ == io_error(reply->Err_0, action)
            }
        }),
{
    let before = old(tmux)@;
    let after = final(tmux)@;
    assert(before.answered + seq![] =~= before.answered);
    if before.answered.len() < before.replies.len() {
        assert(before.unheard()[0] == before.replies[before.answered.len() as int]);
        assert(before.answered + seq![after.answered.last()] =~= before.answered.push(
            after.answered.last(),
        ));
    }
}

// Several requests

/// A window is configured by the requests of its steps, and the result tells how
/// they ended.
pub proof fn law_call_of_configure_window(
    tmux: &mut Conversation,
    window_target: &str,
    window_name: &str,
    res: Result<(), Stop>,
)
    requires
        call_ensures(configure_window, (tmux, window_target, window_name), res),
    ensures
        ({
            let talk = script(
                configure_steps(window_target@, window_name@),
                old(tmux)@.unheard(),
            );
            &&& final(tmux)@.replies == old(tmux)@.replies
            &&& final(tmux)@.answered == old(tmux)@.answered + talk.answered
            &&& match res {
                Ok(()) => talk.outcome == Outcome::<()>::Done(Ok(())),
                Err(Stop::Waiting(request)) => talk.outcome == Outcome::<()>::Waiting(request@),
                Err(Stop::Failed(error)) => talk.outcome == Outcome::<()>::Done(Err(error@)),
            }
        }),
{
}

/// A session is created by the requests of its creation, and the result tells how
/// they ended.
pub proof fn law_call_of_create_session(
    tmux: &mut Conversation,
    session_name: &str,
    res: Result<(), Stop>,
)
    requires
        call_ensures(create_session, (tmux, session_name), res),
    ensures
        ({
            let talk = creation_talk(session_name@, old(tmux)@.unheard());
            &&& final(tmux)@.replies == old(tmux)@.replies
            &&& final(tmux)@.answered == old(tmux)@.answered + talk.answered
            &&& match res {
                Ok(()) => talk.outcome == Outcome::<()>::Done(Ok(())),
                Err(Stop::Waiting(request)) => talk.outcome == Outcome::<()>::Waiting(request@),
                Err(Stop::Failed(error)) => talk.outcome == Outcome::<()>::Done(Err(error@)),
            }
        }),
{
}

/// A session is entered by the requests of its entry, and the result tells how they
/// ended.
pub proof fn law_call_of_enter_session(
    tmux: &mut Conversation,
    session_name: &str,
    tmux_env: Option<&str>,
    res: Result<(), Stop>,
)
    requires
        call_ensures(enter_session, (tmux, session_name, tmux_env), res),
    ensures
        ({
            let env = match tmux_env {
                Some(value) => Some(value@),
                None => None,
            };
            let talk = entering_talk(session_name@, env, old(tmux)@.unheard());
            &&& final(tmux)@.replies == old(tmux)@.replies
            &&& final(tmux)@.answered == old(tmux)@.answered + talk.answered
            &&& match res {
                Ok(()) => talk.outcome == Outcome::<()>::Done(Ok(())),
                Err(Stop::Waiting(request)) => talk.outcome == Outcome::<()>::Waiting(request@),
                Err(Stop::Failed(error)) => talk.outcome == Outcome::<()>::Done(Err(error@)),
            }
        }),
{
}

/// A run at its start, with the replies so far. The help and a wrong command line
/// ask tmux nothing. Any other word is the name of a session, as it stands: the run
/// is the conversation that makes that session, and its result tells how it ended.
pub proof fn law_call_of_run(
    tmux: &mut Conversation,
    args: &[&str],
    tmux_env: Option<&str>,
    before: Seq<char>,
    word: Seq<char>,
    after: Seq<char>,
    res: Result<Option<String>, Stop>,
)
    requires
        call_ensures(run, (tmux, args, tmux_env), res),
        old(tmux)@.answered.len() == 0,
        args@.len() == 2 ==> {
            &&& args@[1]@ == before + word + after
            &&& forall|i: int| 0 <= i < before.len() ==> white_space(#[trigger] before[i])
            &&& forall|i: int| 0 <= i < after.len() ==> white_space(#[trigger] after[i])
            &&& word.len() > 0 ==> !white_space(word[0]) && !white_space(word[word.len() - 1])
        },
    ensures
        ({
            let env = match tmux_env {
                Some(value) => Some(value@),
                None => None,
            };
            let talk = session_talk(word, env, old(tmux)@.replies);
            let asked = final(tmux)@.answered;
            let usage = |error: CliErrorView|
                asked.len() == 0 && res is Err && res->Err_0 is Failed && res->Err_0->Failed_0@
                    == error;
            &&& final(tmux)@.replies == old(tmux)@.replies
            &&& args@.len() < 2 ==> usage(CliErrorView::MissingSessionName)
            &&& args@.len() > 2 ==> usage(CliErrorView::TooManyArguments)
            &&& args@.len() == 2 ==> if word == "-h"@ || word == "--help"@ {
                &&& asked.len() == 0
                &&& res is Ok && res->Ok_0 is Some
                &&& res->Ok_0->0@
                    == "Usage: ts <session-name>\n\nOptions:\n  -h, --help  Show this help and exit"@
            } else if word.len() == 0 {
                usage(CliErrorView::EmptySessionName)
            } else {
                &&& asked == talk.answered
                &&& match res {
                    Ok(message) => message is None && talk.outcome == Outcome::<()>::Done(Ok(())),
                    Err(Stop::Waiting(request)) => talk.outcome == Outcome::<()>::Waiting(request@),
                    Err(Stop::Failed(error)) => talk.outcome == Outcome::<()>::Done(Err(error@)),
                }
            }
        }),
{
    assert(old(tmux)@.unheard() =~= old(tmux)@.replies);
    assert(texts(args@).len() == args@.len());
    if args@.len() == 2 {
        law_argument_is_the_session_name(args@[0]@, before, word, after);
        assert(texts(args@) =~= seq![args@[0]@, before + word + after]);
    }
}

} // verus!
