//! What holds of the command as a whole, whatever tmux replies.

use vstd::prelude::*;
use crate::cli::{requested, CliCommandView};
use crate::entry::{client_request, client_talk, entering_talk, names_client, SessionEntryMode};
use crate::error::CliErrorView;
use crate::run::{run_talk, session_talk};
use crate::script::{lemma_halt, lemma_halt_after, passed, requests, script};
use crate::session::{
    absence_talk, after_cleanup, cleaning_up, configure_steps, creating, creation_talk,
    further_windows, guarded_talk, has_session_request, kill_session_request,
    new_session_request, new_window_step, printed_in, rollback_error, select_step, setup_steps,
};
use crate::text::{lemma_trimmed_twice, printed, trimmed};
use crate::tmux::{
    checked, identifier_of, io_error, Outcome, Talk, TmuxIoErrorKind, TmuxReplyView,
    TmuxRequestView, TmuxStdioPolicy,
};

verus! {

/// Whether tmux ran a command and it succeeded.
pub open spec fn succeeded(reply: TmuxReplyView) -> bool {
    reply matches Ok(output) && output.success
}

/// Whether tmux ran a command and it failed.
pub open spec fn refused(reply: TmuxReplyView) -> bool {
    reply matches Ok(output) && !output.success
}

/// Whether a conversation got as far as a session: tmux said that there was none
/// of the name, and then created it.
pub open spec fn session_made(replies: Seq<TmuxReplyView>) -> bool {
    replies.len() >= 2 && refused(replies[0]) && succeeded(replies[1])
}

/// All the requests of a talk, the one that it waits for among them.
pub open spec fn made<T>(talk: Talk<T>) -> Seq<TmuxRequestView> {
    match talk.outcome {
        Outcome::Waiting(request) => talk.answered.push(request),
        Outcome::Done(_) => talk.answered,
    }
}

// The command line

/// The name of a session holds something, has no white space around it and is
/// not an option.
pub proof fn law_session_names(args: Seq<Seq<char>>)
    ensures
        requested(args) matches Ok(CliCommandView::CreateSession(session_name)) ==> {
            &&& session_name.len() > 0
            &&& trimmed(session_name) == session_name
            &&& session_name != "-h"@
            &&& session_name != "--help"@
        },
{
    if args.len() == 2 {
        lemma_trimmed_twice(args[1]);
    }
}

/// Neither the name of the program nor white space around the argument matters.
pub proof fn law_only_the_trimmed_argument_counts(args: Seq<Seq<char>>, other: Seq<Seq<char>>)
    requires
        args.len() == 2,
        other.len() == 2,
        trimmed(args[1]) == trimmed(other[1]),
    ensures
        requested(args) == requested(other),
{
}

/// Where no session is asked for, tmux is not asked anything: the help is shown,
/// or the command line is refused.
pub proof fn law_no_session_no_request(
    args: Seq<Seq<char>>,
    tmux_env: Option<Seq<char>>,
    replies: Seq<TmuxReplyView>,
)
    ensures
        ({
            let talk = run_talk(args, tmux_env, replies);
            match requested(args) {
                Ok(CliCommandView::Help) => {
                    &&& talk.answered.len() == 0
                    &&& talk.outcome == Outcome::<Option<Seq<char>>>::Done(
                        Ok(
                            Some(
                                "Usage: ts <session-name>\n\nOptions:\n  -h, --help  Show this help and exit"@,
                            ),
                        ),
                    )
                },
                Ok(CliCommandView::CreateSession(_)) => made(talk).len() > 0,
                Err(error) => {
                    &&& error.is_usage_error()
                    &&& talk.answered.len() == 0
                    &&& talk.outcome == Outcome::<Option<Seq<char>>>::Done(Err(error))
                },
            }
        }),
{
}

// The session

/// A session that is there already is left alone: after the one question that
/// shows it, the run is over.
pub proof fn law_existing_session_is_refused(
    session_name: Seq<char>,
    tmux_env: Option<Seq<char>>,
    replies: Seq<TmuxReplyView>,
)
    requires
        replies.len() > 0,
        replies[0] is Ok && replies[0]->Ok_0.success,
    ensures
        session_talk(session_name, tmux_env, replies).answered.len() == 1,
        session_talk(session_name, tmux_env, replies).answered[0].command.program == "tmux"@,
        session_talk(session_name, tmux_env, replies).answered[0].command.args == seq![
            "has-session"@,
            "-t"@,
            session_name,
        ],
        session_talk(session_name, tmux_env, replies).outcome == Outcome::<()>::Done(
            Err(CliErrorView::SessionAlreadyExists(session_name)),
        ),
{
}

/// Where there is no tmux to run, the first question shows it, and the run is
/// over.
pub proof fn law_missing_tmux_is_reported(
    session_name: Seq<char>,
    tmux_env: Option<Seq<char>>,
    replies: Seq<TmuxReplyView>,
)
    requires
        replies.len() > 0,
        replies[0] matches Err(error) && error.kind == TmuxIoErrorKind::NotFound,
    ensures
        session_talk(session_name, tmux_env, replies).answered.len() == 1,
        session_talk(session_name, tmux_env, replies).answered[0].command.program == "tmux"@,
        session_talk(session_name, tmux_env, replies).answered[0].command.args == seq![
            "has-session"@,
            "-t"@,
            session_name,
        ],
        session_talk(session_name, tmux_env, replies).outcome == Outcome::<()>::Done(
            Err(CliErrorView::TmuxUnavailable),
        ),
{
}

/// The first thing that a run does is to ask whether there is a session of the
/// name. Unless tmux has said that there is none, it does nothing else.
pub proof fn law_absence_comes_first(
    session_name: Seq<char>,
    tmux_env: Option<Seq<char>>,
    replies: Seq<TmuxReplyView>,
)
    ensures
        ({
            let talk = session_talk(session_name, tmux_env, replies);
            &&& made(talk).len() > 0
            &&& made(talk)[0].command.program == "tmux"@
            &&& made(talk)[0].command.args == seq!["has-session"@, "-t"@, session_name]
            &&& made(talk).len() > 1 ==> replies.len() > 0 && replies[0] is Ok
                && !replies[0]->Ok_0.success
        }),
{
}

/// A session that tmux has created is removed where setting it up or entering it
/// fails: the last request that was answered is the one that removes it.
pub proof fn law_partial_session_is_removed(
    session_name: Seq<char>,
    tmux_env: Option<Seq<char>>,
    replies: Seq<TmuxReplyView>,
)
    requires
        replies.len() >= 2,
        replies[0] is Ok && !replies[0]->Ok_0.success,
        replies[1] is Ok && replies[1]->Ok_0.success,
    ensures
        ({
            let talk = session_talk(session_name, tmux_env, replies);
            talk.outcome matches Outcome::Done(Err(_)) ==> {
                &&& talk.answered.len() > 0
                &&& talk.answered.last().command.program == "tmux"@
                &&& talk.answered.last().command.args == seq!["kill-session"@, "-t"@, session_name]
            }
        }),
{
}

/// The tmux command that a request runs.
pub open spec fn subcommand(request: TmuxRequestView) -> Seq<char> {
    request.command.args[0]
}

/// The request that removes a session is like no other.
proof fn lemma_removal_is_unlike(session_name: Seq<char>)
    ensures
        subcommand(kill_session_request(session_name)).len() == 12,
        subcommand(has_session_request(session_name)).len() != 12,
        subcommand(new_session_request(session_name)).len() != 12,
        subcommand(client_request()).len() != 12,
        forall|mode: SessionEntryMode|
            subcommand(#[trigger] mode.entry_request(session_name)).len() != 12,
{
    reveal_strlit("kill-session");
    reveal_strlit("has-session");
    reveal_strlit("new-session");
    reveal_strlit("display-message");
    reveal_strlit("attach-session");
    reveal_strlit("switch-client");
}

/// No step of a setup removes a session.
proof fn lemma_setup_removes_nothing(
    session_name: Seq<char>,
    id: Seq<char>,
    unheard: Seq<TmuxReplyView>,
)
    ensures
        ({
            let steps = setup_steps(session_name, id, unheard);
            &&& steps.len() == 12
            &&& forall|i: int|
                0 <= i < 12 ==> subcommand(#[trigger] requests(steps)[i]).len() != 12
        }),
{
    reveal_with_fuel(further_windows, 3);
    reveal_strlit("rename-window");
    reveal_strlit("set-window-option");
    reveal_strlit("new-window");
    reveal_strlit("select-window");
    assert(further_windows(session_name, unheard, 1).len() == 4);
    assert(further_windows(session_name, unheard, 2).len() == 8);
}

/// Whether removing the session is the last thing that a talk does, if it does
/// it, and a sign of failure.
spec fn removes_last(talk: Talk<()>) -> bool {
    forall|i: int|
        0 <= i < made(talk).len() && subcommand(#[trigger] made(talk)[i]).len() == 12 ==> i
            == made(talk).len() - 1 && !(talk.outcome matches Outcome::Done(Ok(_)))
}

/// Whether a talk removes nothing.
spec fn removes_nothing(talk: Talk<()>) -> bool {
    forall|i: int| 0 <= i < made(talk).len() ==> subcommand(#[trigger] made(talk)[i]).len() != 12
}

proof fn lemma_guarded_removes_last(
    session_name: Seq<char>,
    attempt: Talk<()>,
    unheard: Seq<TmuxReplyView>,
)
    requires
        removes_nothing(attempt),
    ensures
        removes_last(guarded_talk(session_name, attempt, unheard)),
{
    let talk = guarded_talk(session_name, attempt, unheard);
    if attempt.outcome matches Outcome::Done(Err(_)) {
        assert forall|i: int|
            0 <= i < made(talk).len() && subcommand(#[trigger] made(talk)[i]).len() == 12
        implies i == made(talk).len() - 1 by {
            if i < attempt.answered.len() {
                assert(made(talk)[i] == made(attempt)[i]);
            }
        }
    } else {
        assert(made(talk) =~= made(attempt));
    }
}

proof fn lemma_creation_removes_last(session_name: Seq<char>, unheard: Seq<TmuxReplyView>)
    ensures
        removes_last(creation_talk(session_name, unheard)),
        !(unheard.len() > 0 && succeeded(unheard[0])) ==> removes_nothing(
            creation_talk(session_name, unheard),
        ),
{
    lemma_removal_is_unlike(session_name);
    let talk = creation_talk(session_name, unheard);
    if unheard.len() > 0 && succeeded(unheard[0]) {
        let rest = unheard.skip(1);
        let attempt = match identifier_of(unheard[0], creating()) {
            Ok(id) => script(setup_steps(session_name, id, rest), rest),
            Err(error) => Talk::silent(Err(error)),
        };
        if let Ok(id) = identifier_of(unheard[0], creating()) {
            let steps = setup_steps(session_name, id, rest);
            lemma_setup_removes_nothing(session_name, id, rest);
            lemma_halt(steps, rest, 0);
            assert forall|i: int| 0 <= i < made(attempt).len() implies subcommand(
                #[trigger] made(attempt)[i],
            ).len() != 12 by {
                assert(made(attempt)[i] == requests(steps)[i]);
            }
        }
        lemma_guarded_removes_last(session_name, attempt, rest);
        let guarded = guarded_talk(session_name, attempt, rest);
        assert forall|i: int|
            0 <= i < made(talk).len() && subcommand(#[trigger] made(talk)[i]).len() == 12
        implies i == made(talk).len() - 1 && !(talk.outcome matches Outcome::Done(Ok(_))) by {
            if i > 0 {
                assert(made(talk)[i] == made(guarded)[i - 1]);
            }
        }
    }
}

proof fn lemma_entering_removes_nothing(
    session_name: Seq<char>,
    tmux_env: Option<Seq<char>>,
    unheard: Seq<TmuxReplyView>,
)
    ensures
        removes_nothing(entering_talk(session_name, tmux_env, unheard)),
{
    lemma_removal_is_unlike(session_name);
    let mode = SessionEntryMode::fitting(tmux_env, names_client(unheard[0]));
    assert(subcommand(mode.entry_request(session_name)).len() != 12);
}

/// Only a session that this run has made is removed, once, as the last thing
/// that the run does, and only in a run that has failed.
pub proof fn law_only_a_failed_session_is_removed(
    session_name: Seq<char>,
    tmux_env: Option<Seq<char>>,
    replies: Seq<TmuxReplyView>,
)
    ensures
        ({
            let talk = session_talk(session_name, tmux_env, replies);
            forall|i: int|
                0 <= i < made(talk).len() && (#[trigger] made(talk)[i]).command.args[0]
                    == "kill-session"@ ==> {
                    &&& replies.len() >= 2
                    &&& replies[0] is Ok && !replies[0]->Ok_0.success
                    &&& replies[1] is Ok && replies[1]->Ok_0.success
                    &&& i == made(talk).len() - 1
                    &&& !(talk.outcome matches Outcome::Done(Ok(_)))
                }
        }),
{
    let talk = session_talk(session_name, tmux_env, replies);
    lemma_removal_is_unlike(session_name);
    let absence = absence_talk(session_name, replies);
    let rest = replies.skip(absence.answered.len() as int);
    let creation = creation_talk(session_name, rest);
    let created = rest.skip(creation.answered.len() as int);
    let attempt = entering_talk(session_name, tmux_env, created);
    let entering = guarded_talk(session_name, attempt, created);
    lemma_creation_removes_last(session_name, rest);
    lemma_entering_removes_nothing(session_name, tmux_env, created);
    lemma_guarded_removes_last(session_name, attempt, created);
    if absence.outcome matches Outcome::Done(Ok(_)) {
        assert forall|i: int|
            0 <= i < made(talk).len() && (#[trigger] made(talk)[i]).command.args[0]
                == "kill-session"@ implies {
            &&& session_made(replies)
            &&& i == made(talk).len() - 1
            &&& !(talk.outcome matches Outcome::Done(Ok(_)))
        } by {
            let n = creation.answered.len();
            if i == 0 {
                assert(made(talk)[i] == has_session_request(session_name));
            } else if creation.outcome matches Outcome::Done(Ok(_)) {
                assert(made(creation) == creation.answered);
                if i <= n {
                    assert(made(talk)[i] == made(creation)[i - 1]);
                } else {
                    assert(made(talk)[i] == made(entering)[i - 1 - n]);
                }
            } else {
                assert(made(talk)[i] == made(creation)[i - 1]);
            }
        }
    } else {
        assert forall|i: int| 0 <= i < made(talk).len() implies (#[trigger] made(
            talk,
        )[i]).command.args[0] != "kill-session"@ by {
            assert(made(talk)[i] == has_session_request(session_name));
        }
    }
}

/// What is left of a failure after the cleanup: the failure itself, where the
/// cleanup worked, and else an error whose details tell of both.
pub proof fn law_failure_outlives_cleanup(
    session_name: Seq<char>,
    attempt: Talk<()>,
    setup_error: CliErrorView,
    unheard: Seq<TmuxReplyView>,
)
    requires
        attempt.outcome == Outcome::<()>::Done(Err(setup_error)),
        attempt.answered.len() < unheard.len(),
    ensures
        ({
            let reply = unheard[attempt.answered.len() as int];
            let outcome = guarded_talk(session_name, attempt, unheard).outcome;
            match checked(
                reply,
                "clean up the partially created tmux session"@,
                TmuxStdioPolicy::Capture,
            ) {
                Ok(()) => outcome == Outcome::<()>::Done(Err(setup_error)),
                Err(cleanup_error) => outcome == Outcome::<()>::Done(
                    Err(
                        CliErrorView::TmuxCommandFailed {
                            action: "clean up the partially created tmux session"@,
                            details: "session setup failed: "@ + setup_error.message()
                                + "; cleanup failed: "@ + cleanup_error.message(),
                        },
                    ),
                ),
            }
        }),
{
}

/// The error of a failed setup and a failed cleanup tells of both, whole and in
/// this order.
pub proof fn law_rollback_error(setup_error: CliErrorView, cleanup_error: CliErrorView)
    ensures
        rollback_error(setup_error, cleanup_error) == (CliErrorView::TmuxCommandFailed {
            action: "clean up the partially created tmux session"@,
            details: "session setup failed: "@ + setup_error.message() + "; cleanup failed: "@
                + cleanup_error.message(),
        }),
{
}

/// The requests of a run that ends well, where tmux calls the windows `first`,
/// `second` and `third` and the session is entered in the given mode.
pub open spec fn workspace_requests(
    session_name: Seq<char>,
    first: Seq<char>,
    second: Seq<char>,
    third: Seq<char>,
    mode: SessionEntryMode,
) -> Seq<TmuxRequestView> {
    seq![has_session_request(session_name), new_session_request(session_name)] + requests(
        configure_steps(first, "agent"@),
    ) + seq![new_window_step(session_name).request] + requests(configure_steps(second, "vim"@))
        + seq![new_window_step(session_name).request] + requests(
        configure_steps(third, "terminal"@),
    ) + seq![select_step(first).request, client_request(), mode.entry_request(session_name)]
}

/// A run that ends well has made one session with three windows, `agent`, `vim`
/// and `terminal`, none of which renames itself, has selected the first, and has
/// entered the session: by switching the client, where it ran in one, and else by
/// attaching the terminal.
pub proof fn law_workspace_layout(
    session_name: Seq<char>,
    tmux_env: Option<Seq<char>>,
    replies: Seq<TmuxReplyView>,
)
    ensures
        ({
            let talk = session_talk(session_name, tmux_env, replies);
            talk.outcome matches Outcome::Done(Ok(_)) ==> {
                &&& replies.len() >= 16
                &&& talk.answered == workspace_requests(
                    session_name,
                    printed_in(replies[1]),
                    printed_in(replies[5]),
                    printed_in(replies[9]),
                    SessionEntryMode::fitting(tmux_env, names_client(replies[14])),
                )
                // Under the identifiers that tmux gave them, the windows get their names
                &&& talk.answered.len() == 16
                &&& talk.answered[2].command.args == seq![
                    "rename-window"@,
                    "-t"@,
                    printed(replies[1]->Ok_0.stdout),
                    "agent"@,
                ]
                &&& talk.answered[6].command.args == seq![
                    "rename-window"@,
                    "-t"@,
                    printed(replies[5]->Ok_0.stdout),
                    "vim"@,
                ]
                &&& talk.answered[10].command.args == seq![
                    "rename-window"@,
                    "-t"@,
                    printed(replies[9]->Ok_0.stdout),
                    "terminal"@,
                ]
                // Automatic renaming is off for each of them
                &&& forall|w: int|
                    0 <= w < 3 ==> {
                        let target = printed((#[trigger] replies[4 * w + 1])->Ok_0.stdout);
                        &&& talk.answered[4 * w + 3].command.args == seq![
                            "set-window-option"@,
                            "-t"@,
                            target,
                            "automatic-rename"@,
                            "off"@,
                        ]
                        &&& talk.answered[4 * w + 4].command.args == seq![
                            "set-window-option"@,
                            "-t"@,
                            target,
                            "allow-rename"@,
                            "off"@,
                        ]
                    }
                // The first one is selected
                &&& talk.answered[13].command.args == seq![
                    "select-window"@,
                    "-t"@,
                    printed(replies[1]->Ok_0.stdout),
                ]
            }
        }),
{
    let talk = session_talk(session_name, tmux_env, replies);
    if talk.outcome matches Outcome::Done(Ok(_)) {
        let rest = replies.skip(1);
        let setup = rest.skip(1);
        let id = printed_in(replies[1]);
        let steps = setup_steps(session_name, id, setup);
        lemma_halt(steps, setup, 0);
        reveal_with_fuel(further_windows, 3);
        assert(further_windows(session_name, setup, 1).len() == 4);
        assert(further_windows(session_name, setup, 2).len() == 8);
        assert(creation_talk(session_name, rest).answered.len() == 13);
        let created = rest.skip(13);
        assert(entering_talk(session_name, tmux_env, created).answered.len() == 2);
        assert(created[0] == replies[14]);
        assert(setup[3] == replies[5]);
        assert(setup[7] == replies[9]);
        assert(talk.answered =~= workspace_requests(
            session_name,
            id,
            printed_in(replies[5]),
            printed_in(replies[9]),
            SessionEntryMode::fitting(tmux_env, names_client(replies[14])),
        ));
        lemma_workspace_requests(
            session_name,
            id,
            printed_in(replies[5]),
            printed_in(replies[9]),
            SessionEntryMode::fitting(tmux_env, names_client(replies[14])),
        );
        assert forall|w: int| 0 <= w < 3 implies {
            let target = printed((#[trigger] replies[4 * w + 1])->Ok_0.stdout);
            &&& talk.answered[4 * w + 3].command.args == seq![
                "set-window-option"@,
                "-t"@,
                target,
                "automatic-rename"@,
                "off"@,
            ]
            &&& talk.answered[4 * w + 4].command.args == seq![
                "set-window-option"@,
                "-t"@,
                target,
                "allow-rename"@,
                "off"@,
            ]
        } by {
            assert(w == 0 || w == 1 || w == 2);
        }
    }
}

/// A run ends well only where tmux has said so at every step: it had no session of
/// the name, every command that it was then given has succeeded, the last one at
/// the terminal among them, and every window has an identifier. Only the question
/// for a client may fail.
pub proof fn law_success_is_told_by_tmux(
    session_name: Seq<char>,
    tmux_env: Option<Seq<char>>,
    replies: Seq<TmuxReplyView>,
)
    requires
        session_talk(session_name, tmux_env, replies).outcome == Outcome::<()>::Done(Ok(())),
    ensures
        replies.len() >= 16,
        replies[0] is Ok && !replies[0]->Ok_0.success,
        forall|i: int|
            1 <= i < 16 && i != 14 ==> (#[trigger] replies[i]) is Ok && replies[i]->Ok_0.success,
        printed(replies[1]->Ok_0.stdout).len() > 0,
        printed(replies[5]->Ok_0.stdout).len() > 0,
        printed(replies[9]->Ok_0.stdout).len() > 0,
{
    law_workspace_layout(session_name, tmux_env, replies);
    let rest = replies.skip(1);
    let setup = rest.skip(1);
    let id = printed_in(replies[1]);
    let steps = setup_steps(session_name, id, setup);
    lemma_setup_at(session_name, replies);
    let asked = workspace_requests(
        session_name,
        id,
        printed_in(replies[5]),
        printed_in(replies[9]),
        SessionEntryMode::AttachSession,
    );
    assert(steps.len() == 12);
    lemma_halt(steps, setup, 0);
    assert(passed(steps, setup, 12));
    assert forall|i: int| 1 <= i < 16 && i != 14 implies succeeded(#[trigger] replies[i]) by {
        if 2 <= i < 14 {
            assert(steps[i - 2].fault(setup[i - 2]) is None);
            assert(setup[i - 2] == replies[i]);
        } else if i == 15 {
            assert(creation_talk(session_name, rest).answered.len() == 13);
            assert(rest.skip(13).skip(1)[0] == replies[15]);
        }
    }
    assert(steps[3].fault(setup[3]) is None);
    assert(steps[7].fault(setup[7]) is None);
}

/// Where tmux knows no session of the name and does all that it is asked to, the
/// run ends well. Whether tmux names a client does not matter for that.
pub proof fn law_willing_tmux_makes_the_workspace(
    session_name: Seq<char>,
    tmux_env: Option<Seq<char>>,
    replies: Seq<TmuxReplyView>,
)
    requires
        replies.len() >= 16,
        replies[0] is Ok && !replies[0]->Ok_0.success,
        forall|i: int|
            1 <= i < 16 && i != 14 ==> (#[trigger] replies[i]) is Ok && replies[i]->Ok_0.success,
        printed(replies[1]->Ok_0.stdout).len() > 0,
        printed(replies[5]->Ok_0.stdout).len() > 0,
        printed(replies[9]->Ok_0.stdout).len() > 0,
    ensures
        session_talk(session_name, tmux_env, replies).outcome == Outcome::<()>::Done(Ok(())),
{
    let rest = replies.skip(1);
    let setup = rest.skip(1);
    let id = printed_in(replies[1]);
    let steps = setup_steps(session_name, id, setup);
    reveal_with_fuel(further_windows, 3);
    assert(further_windows(session_name, setup, 1).len() == 4);
    assert(further_windows(session_name, setup, 2).len() == 8);
    assert forall|i: int| 0 <= i < 12 implies (#[trigger] steps[i]).fault(setup[i]) is None by {
        assert(setup[i] == replies[i + 2]);
        assert(succeeded(replies[i + 2]));
    }
    lemma_halt_after(steps, setup, 0, 12);
    assert(creation_talk(session_name, rest).answered.len() == 13);
    assert(rest.skip(13)[1] == replies[15]);
}

/// A run makes at most seventeen requests: with that many replies it is over.
pub proof fn law_run_ends(
    args: Seq<Seq<char>>,
    tmux_env: Option<Seq<char>>,
    replies: Seq<TmuxReplyView>,
)
    ensures
        made(run_talk(args, tmux_env, replies)).len() <= 17,
        replies.len() >= 17 ==> run_talk(args, tmux_env, replies).outcome is Done,
{
    if let Ok(CliCommandView::CreateSession(session_name)) = requested(args) {
        let absence = absence_talk(session_name, replies);
        let rest = replies.skip(absence.answered.len() as int);
        let creation = creation_talk(session_name, rest);
        if rest.len() > 0 {
            if let Ok(id) = identifier_of(rest[0], creating()) {
                let setup = rest.skip(1);
                lemma_setup_removes_nothing(session_name, id, setup);
                lemma_halt(setup_steps(session_name, id, setup), setup, 0);
            }
        }
        assert(made(creation).len() <= 14);
    }
}

/// A run that is asked for a session is the conversation that makes it, with
/// nothing to show at its end.
pub proof fn law_run_makes_the_session(
    args: Seq<Seq<char>>,
    session_name: Seq<char>,
    tmux_env: Option<Seq<char>>,
    replies: Seq<TmuxReplyView>,
)
    requires
        requested(args) == Ok::<CliCommandView, CliErrorView>(
            CliCommandView::CreateSession(session_name),
        ),
    ensures
        ({
            let run = run_talk(args, tmux_env, replies);
            let session = session_talk(session_name, tmux_env, replies);
            &&& run.answered == session.answered
            &&& match session.outcome {
                Outcome::Waiting(request) => run.outcome == Outcome::<
                    Option<Seq<char>>,
                >::Waiting(request),
                Outcome::Done(Ok(())) => run.outcome == Outcome::<Option<Seq<char>>>::Done(
                    Ok(None),
                ),
                Outcome::Done(Err(error)) => run.outcome == Outcome::<Option<Seq<char>>>::Done(
                    Err(error),
                ),
            }
        }),
{
    let session = session_talk(session_name, tmux_env, replies);
    assert(session.answered + seq![] =~= session.answered);
}

/// A client is switched if and only if the terminal runs one: `TMUX` is set to
/// something, and tmux answers with something when asked for its client. To attach
/// the terminal, tmux is kept from seeing a tmux around it; to switch the client,
/// it is not. Either way it talks to the terminal, and its status decides.
pub proof fn law_entry_mode(
    tmux_env: Option<Seq<char>>,
    reply: TmuxReplyView,
    client: bool,
    mode: SessionEntryMode,
    session_name: Seq<char>,
    unheard: Seq<TmuxReplyView>,
)
    ensures
        SessionEntryMode::fitting(tmux_env, client) == SessionEntryMode::SwitchClient <==> tmux_env
            is Some && tmux_env->0.len() > 0 && client,
        names_client(reply) <==> reply is Ok && reply->Ok_0.success && printed(
            reply->Ok_0.stdout,
        ).len() > 0,
        mode.deep_view() == mode,
        ({
            let attaching = mode == SessionEntryMode::AttachSession;
            let action = if attaching {
                "attach to the tmux session"@
            } else {
                "switch the active tmux client to the session"@
            };
            let talk = mode.entry_talk(session_name, unheard);
            let request = if unheard.len() == 0 {
                talk.outcome->Waiting_0
            } else {
                talk.answered[0]
            };
            &&& unheard.len() == 0 ==> talk.answered.len() == 0 && talk.outcome is Waiting
            &&& unheard.len() > 0 ==> talk.answered.len() == 1 && talk.outcome == Outcome::<
                (),
            >::Done(checked(unheard[0], action, TmuxStdioPolicy::Inherit))
            &&& request.command.program == "tmux"@
            &&& attaching ==> request.command.args == seq!["attach-session"@, "-t"@, session_name]
            &&& attaching ==> request.command.removed_env == seq!["TMUX"@, "TMUX_PANE"@]
            &&& !attaching ==> request.command.args == seq!["switch-client"@, "-t"@, session_name]
            &&& !attaching ==> request.command.removed_env.len() == 0
            &&& request.stdio_policy is Inherit
        }),
{
}

/// To find out whether there is a client, and which mode fits, tmux is asked one
/// question; whatever comes of it, it is no error.
pub proof fn law_client_question(tmux_env: Option<Seq<char>>, unheard: Seq<TmuxReplyView>)
    ensures
        ({
            let question = seq!["display-message"@, "-p"@, "#{client_pid}"@];
            let asks = |request: TmuxRequestView|
                {
                    &&& request.command.program == "tmux"@
                    &&& request.command.args == question
                    &&& request.command.removed_env.len() == 0
                    &&& request.stdio_policy is Capture
                };
            let client = client_talk(unheard);
            let detection = SessionEntryMode::detection_talk(tmux_env, unheard);
            let named = unheard[0] is Ok && unheard[0]->Ok_0.success && printed(
                unheard[0]->Ok_0.stdout,
            ).len() > 0;
            if unheard.len() == 0 {
                &&& client.answered.len() == 0
                &&& client.outcome is Waiting && asks(client.outcome->Waiting_0)
                &&& detection.answered.len() == 0
                &&& detection.outcome is Waiting && asks(detection.outcome->Waiting_0)
            } else {
                &&& client.answered.len() == 1 && asks(client.answered[0])
                &&& client.outcome == Outcome::Done(Ok(named))
                &&& detection.answered.len() == 1 && asks(detection.answered[0])
                &&& detection.outcome == Outcome::Done(
                    Ok(
                        if tmux_env is Some && tmux_env->0.len() > 0 && named {
                            SessionEntryMode::SwitchClient
                        } else {
                            SessionEntryMode::AttachSession
                        },
                    ),
                )
            }
        }),
{
}

/// The window `target` is renamed to `window_name` and kept from renaming itself,
/// by these three commands in this order. Each is run if and only if the ones
/// before it have succeeded; the first that has not ends it. `n` is a number of
/// commands that have succeeded.
pub proof fn law_configure_window(
    target: Seq<char>,
    window_name: Seq<char>,
    unheard: Seq<TmuxReplyView>,
    n: int,
)
    requires
        0 <= n <= 3,
        n <= unheard.len(),
        forall|i: int| 0 <= i < n ==> (#[trigger] unheard[i]) is Ok && unheard[i]->Ok_0.success,
    ensures
        ({
            let plan = seq![
                seq!["rename-window"@, "-t"@, target, window_name],
                seq!["set-window-option"@, "-t"@, target, "automatic-rename"@, "off"@],
                seq!["set-window-option"@, "-t"@, target, "allow-rename"@, "off"@],
            ];
            let action = if n == 0 {
                "rename a tmux window"@
            } else {
                "disable tmux window auto-renaming"@
            };
            let talk = script(configure_steps(target, window_name), unheard);
            &&& talk.answered.len() >= n
            &&& forall|i: int|
                0 <= i < talk.answered.len() ==> {
                    let request = #[trigger] talk.answered[i];
                    &&& i < 3
                    &&& request.command.program == "tmux"@
                    &&& request.command.args == plan[i]
                    &&& request.command.removed_env.len() == 0
                    &&& request.stdio_policy is Capture
                }
            &&& n == 3 ==> talk.answered.len() == 3 && talk.outcome == Outcome::<()>::Done(Ok(()))
            &&& n < 3 && n == unheard.len() ==> {
                &&& talk.answered.len() == n
                &&& talk.outcome matches Outcome::Waiting(request) && {
                    &&& request.command.program == "tmux"@
                    &&& request.command.args == plan[n]
                    &&& request.command.removed_env.len() == 0
                    &&& request.stdio_policy is Capture
                }
            }
            &&& n < 3 && n < unheard.len() && !(unheard[n] is Ok && unheard[n]->Ok_0.success) ==> {
                &&& talk.answered.len() == n + 1
                &&& talk.outcome == Outcome::<()>::Done(
                    checked(unheard[n], action, TmuxStdioPolicy::Capture),
                )
                &&& checked(unheard[n], action, TmuxStdioPolicy::Capture) is Err
            }
        }),
{
    let steps = configure_steps(target, window_name);
    assert forall|i: int| 0 <= i < n implies (#[trigger] steps[i]).fault(unheard[i]) is None by {
        assert(unheard[i] is Ok);
    }
    lemma_halt_after(steps, unheard, 0, n);
    lemma_halt(steps, unheard, n);
}

/// The requests that make a session and enter it. `n` is a number of replies that
/// tmux has given without a fault: it has no session of the name, and it has done
/// whatever else it was asked to, and named the windows that it made. Whether it
/// names a client is never a fault.
///
/// These are the requests, in this order and in this manner, each made where there
/// was no fault before it. A run without a fault ends well after the last of them.
#[verifier::rlimit(50)]
pub proof fn law_session_requests(
    session_name: Seq<char>,
    tmux_env: Option<Seq<char>>,
    replies: Seq<TmuxReplyView>,
    n: int,
)
    requires
        0 <= n <= 16,
        n <= replies.len(),
        n > 0 ==> replies[0] is Ok && !replies[0]->Ok_0.success,
        forall|i: int|
            1 <= i < n && i != 14 ==> (#[trigger] replies[i]) is Ok && replies[i]->Ok_0.success,
        n > 1 ==> printed(replies[1]->Ok_0.stdout).len() > 0,
        n > 5 ==> printed(replies[5]->Ok_0.stdout).len() > 0,
        n > 9 ==> printed(replies[9]->Ok_0.stdout).len() > 0,
    ensures
        ({
            let first = printed(replies[1]->Ok_0.stdout);
            let second = printed(replies[5]->Ok_0.stdout);
            let third = printed(replies[9]->Ok_0.stdout);
            let switching = {
                &&& tmux_env is Some && tmux_env->0.len() > 0
                &&& replies[14] is Ok && replies[14]->Ok_0.success
                &&& printed(replies[14]->Ok_0.stdout).len() > 0
            };
            let entry = if switching {
                "switch-client"@
            } else {
                "attach-session"@
            };
            let target = session_name + ":"@;
            let plan = seq![
                seq!["has-session"@, "-t"@, session_name],
                seq!["new-session"@, "-dP"@, "-F"@, "#{window_id}"@, "-s"@, session_name],
                seq!["rename-window"@, "-t"@, first, "agent"@],
                seq!["set-window-option"@, "-t"@, first, "automatic-rename"@, "off"@],
                seq!["set-window-option"@, "-t"@, first, "allow-rename"@, "off"@],
                seq!["new-window"@, "-dP"@, "-F"@, "#{window_id}"@, "-t"@, target],
                seq!["rename-window"@, "-t"@, second, "vim"@],
                seq!["set-window-option"@, "-t"@, second, "automatic-rename"@, "off"@],
                seq!["set-window-option"@, "-t"@, second, "allow-rename"@, "off"@],
                seq!["new-window"@, "-dP"@, "-F"@, "#{window_id}"@, "-t"@, target],
                seq!["rename-window"@, "-t"@, third, "terminal"@],
                seq!["set-window-option"@, "-t"@, third, "automatic-rename"@, "off"@],
                seq!["set-window-option"@, "-t"@, third, "allow-rename"@, "off"@],
                seq!["select-window"@, "-t"@, first],
                seq!["display-message"@, "-p"@, "#{client_pid}"@],
                seq![entry, "-t"@, session_name],
            ];
            let as_planned = |i: int, request: TmuxRequestView|
                {
                    &&& request.command.args == plan[i]
                    &&& request.command.program == "tmux"@
                    &&& i < 15 ==> request.stdio_policy is Capture
                    &&& i == 15 ==> request.stdio_policy is Inherit
                    &&& i < 15 || switching ==> request.command.removed_env.len() == 0
                    &&& i == 15 && !switching ==> request.command.removed_env == seq![
                        "TMUX"@,
                        "TMUX_PANE"@,
                    ]
                };
            let talk = session_talk(session_name, tmux_env, replies);
            &&& talk.answered.len() >= n
            &&& forall|i: int|
                0 <= i <= n && i < talk.answered.len() ==> as_planned(
                    i,
                    #[trigger] talk.answered[i],
                )
            &&& n < 16 && n == replies.len() ==> {
                &&& talk.answered.len() == n
                &&& talk.outcome matches Outcome::Waiting(request) && as_planned(n, request)
            }
            &&& n == 16 ==> talk.answered.len() == 16 && talk.outcome == Outcome::<()>::Done(
                Ok(()),
            )
        }),
{
    let first = printed(replies[1]->Ok_0.stdout);
    let second = printed(replies[5]->Ok_0.stdout);
    let third = printed(replies[9]->Ok_0.stdout);
    let switching = {
        &&& tmux_env is Some && tmux_env->0.len() > 0
        &&& replies[14] is Ok && replies[14]->Ok_0.success
        &&& printed(replies[14]->Ok_0.stdout).len() > 0
    };
    let entry = if switching {
        "switch-client"@
    } else {
        "attach-session"@
    };
    let target = session_name + ":"@;
    let plan = seq![
        seq!["has-session"@, "-t"@, session_name],
        seq!["new-session"@, "-dP"@, "-F"@, "#{window_id}"@, "-s"@, session_name],
        seq!["rename-window"@, "-t"@, first, "agent"@],
        seq!["set-window-option"@, "-t"@, first, "automatic-rename"@, "off"@],
        seq!["set-window-option"@, "-t"@, first, "allow-rename"@, "off"@],
        seq!["new-window"@, "-dP"@, "-F"@, "#{window_id}"@, "-t"@, target],
        seq!["rename-window"@, "-t"@, second, "vim"@],
        seq!["set-window-option"@, "-t"@, second, "automatic-rename"@, "off"@],
        seq!["set-window-option"@, "-t"@, second, "allow-rename"@, "off"@],
        seq!["new-window"@, "-dP"@, "-F"@, "#{window_id}"@, "-t"@, target],
        seq!["rename-window"@, "-t"@, third, "terminal"@],
        seq!["set-window-option"@, "-t"@, third, "automatic-rename"@, "off"@],
        seq!["set-window-option"@, "-t"@, third, "allow-rename"@, "off"@],
        seq!["select-window"@, "-t"@, first],
        seq!["display-message"@, "-p"@, "#{client_pid}"@],
        seq![entry, "-t"@, session_name],
    ];
    let mode = SessionEntryMode::fitting(tmux_env, names_client(replies[14]));
    let asked = workspace_requests(session_name, first, second, third, mode);
    lemma_session_at(session_name, tmux_env, replies, n);
    lemma_workspace_requests(session_name, first, second, third, mode);
    assert(switching <==> mode == SessionEntryMode::SwitchClient);
    assert forall|i: int| 0 <= i < 16 implies {
        &&& (#[trigger] asked[i]).command.args == plan[i]
        &&& asked[i].command.program == "tmux"@
        &&& i < 15 ==> asked[i].stdio_policy is Capture
        &&& i == 15 ==> asked[i].stdio_policy is Inherit
        &&& i < 15 || switching ==> asked[i].command.removed_env.len() == 0
        &&& i == 15 && !switching ==> asked[i].command.removed_env == seq!["TMUX"@, "TMUX_PANE"@]
    } by {
        assert(asked[0].command.args == plan[0]);
        assert(asked[1].command.args == plan[1]);
        assert(asked[2].command.args == plan[2]);
        assert(asked[3].command.args == plan[3]);
        assert(asked[4].command.args == plan[4]);
        assert(asked[5].command.args == plan[5]);
        assert(asked[6].command.args == plan[6]);
        assert(asked[7].command.args == plan[7]);
        assert(asked[8].command.args == plan[8]);
        assert(asked[9].command.args == plan[9]);
        assert(asked[10].command.args == plan[10]);
        assert(asked[11].command.args == plan[11]);
        assert(asked[12].command.args == plan[12]);
        assert(asked[13].command.args == plan[13]);
        assert(asked[14].command.args == plan[14]);
        assert(asked[15].command.args == plan[15]);
    }
    let talk = session_talk(session_name, tmux_env, replies);
    assert forall|i: int| 0 <= i <= n && i < talk.answered.len() implies 0 <= i < 16
        && #[trigger] talk.answered[i] == asked[i] by {}
}

/// A fault before there is a session ends the run there: a session of the name
/// that is there already, a question that could not be put, or a session that tmux
/// does not create.
pub proof fn law_faults_before_the_session(
    session_name: Seq<char>,
    tmux_env: Option<Seq<char>>,
    replies: Seq<TmuxReplyView>,
)
    requires
        replies.len() > 0,
    ensures
        ({
            let talk = session_talk(session_name, tmux_env, replies);
            &&& replies[0] is Ok && replies[0]->Ok_0.success ==> {
                &&& talk.answered.len() == 1
                &&& talk.outcome == Outcome::<()>::Done(
                    Err(CliErrorView::SessionAlreadyExists(session_name)),
                )
            }
            &&& replies[0] is Err ==> {
                &&& talk.answered.len() == 1
                &&& talk.outcome == Outcome::<()>::Done(
                    Err(
                        io_error(
                            replies[0]->Err_0,
                            "check whether the tmux session already exists"@,
                        ),
                    ),
                )
            }
            &&& replies[0] is Ok && !replies[0]->Ok_0.success && replies.len() > 1 && !(replies[1]
                is Ok && replies[1]->Ok_0.success) ==> {
                let result = checked(
                    replies[1],
                    "create the detached tmux session"@,
                    TmuxStdioPolicy::Capture,
                );
                &&& talk.answered.len() == 2
                &&& talk.outcome == Outcome::<()>::Done(result)
                &&& result is Err
            }
        }),
{
}

/// A fault once tmux has created the session: the session is removed at once, by
/// its full name, and then the run is over. The error is that of the fault, with
/// the action that failed, or, where the removal fails too, one that tells of both.
/// `n` is the number of replies before the fault.
#[verifier::rlimit(50)]
pub proof fn law_faults_after_the_session(
    session_name: Seq<char>,
    tmux_env: Option<Seq<char>>,
    replies: Seq<TmuxReplyView>,
    n: int,
)
    requires
        0 <= n <= 16,
        n <= replies.len(),
        n > 0 ==> replies[0] is Ok && !replies[0]->Ok_0.success,
        forall|i: int|
            1 <= i < n && i != 14 ==> (#[trigger] replies[i]) is Ok && replies[i]->Ok_0.success,
        n > 1 ==> printed(replies[1]->Ok_0.stdout).len() > 0,
        n > 5 ==> printed(replies[5]->Ok_0.stdout).len() > 0,
        n > 9 ==> printed(replies[9]->Ok_0.stdout).len() > 0,
        1 <= n < 16,
        n != 14,
        n < replies.len(),
        // The fault: the command has not worked, or a window has no identifier
        (n > 1 && !(replies[n] is Ok && replies[n]->Ok_0.success)) || ((n == 1 || n == 5 || n
            == 9) && replies[n] is Ok && replies[n]->Ok_0.success && printed(
            replies[n]->Ok_0.stdout,
        ).len() == 0),
    ensures
        ({
            let switching = {
                &&& tmux_env is Some && tmux_env->0.len() > 0
                &&& replies[14] is Ok && replies[14]->Ok_0.success
                &&& printed(replies[14]->Ok_0.stdout).len() > 0
            };
            let action = if n == 1 {
                "create the detached tmux session"@
            } else if n == 5 || n == 9 {
                "create tmux windows"@
            } else if n == 2 || n == 6 || n == 10 {
                "rename a tmux window"@
            } else if n == 13 {
                "select the starting tmux window"@
            } else if n < 13 {
                "disable tmux window auto-renaming"@
            } else if switching {
                "switch the active tmux client to the session"@
            } else {
                "attach to the tmux session"@
            };
            let fault = if replies[n] is Ok && replies[n]->Ok_0.success {
                CliErrorView::TmuxCommandFailed {
                    action,
                    details: "tmux exited successfully without returning the expected identifier"@,
                }
            } else if n == 15 {
                checked(replies[n], action, TmuxStdioPolicy::Inherit)->Err_0
            } else {
                checked(replies[n], action, TmuxStdioPolicy::Capture)->Err_0
            };
            let removes = |request: TmuxRequestView|
                {
                    &&& request.command.program == "tmux"@
                    &&& request.command.args == seq!["kill-session"@, "-t"@, session_name]
                    &&& request.command.removed_env.len() == 0
                    &&& request.stdio_policy is Capture
                };
            let talk = session_talk(session_name, tmux_env, replies);
            &&& replies.len() == n + 1 ==> {
                &&& talk.answered.len() == n + 1
                &&& talk.outcome matches Outcome::Waiting(request) && removes(request)
            }
            &&& replies.len() > n + 1 ==> {
                let removal = checked(
                    replies[n + 1],
                    "clean up the partially created tmux session"@,
                    TmuxStdioPolicy::Capture,
                );
                &&& talk.answered.len() == n + 2
                &&& removes(talk.answered[n + 1])
                &&& removal is Ok ==> talk.outcome == Outcome::<()>::Done(Err(fault))
                &&& removal is Err ==> talk.outcome == Outcome::<()>::Done(
                    Err(
                        CliErrorView::TmuxCommandFailed {
                            action: "clean up the partially created tmux session"@,
                            details: "session setup failed: "@ + fault.message()
                                + "; cleanup failed: "@ + removal->Err_0.message(),
                        },
                    ),
                )
            }
        }),
{
    lemma_session_at(session_name, tmux_env, replies, n);
}

/// Where the requests of a run stand.
proof fn lemma_workspace_requests(
    session_name: Seq<char>,
    first: Seq<char>,
    second: Seq<char>,
    third: Seq<char>,
    mode: SessionEntryMode,
)
    ensures
        ({
            let asked = workspace_requests(session_name, first, second, third, mode);
            let window = new_window_step(session_name).request;
            &&& asked.len() == 16
            &&& asked[0] == has_session_request(session_name)
            &&& asked[1] == new_session_request(session_name)
            &&& asked[2] == configure_steps(first, "agent"@)[0].request
            &&& asked[3] == configure_steps(first, "agent"@)[1].request
            &&& asked[4] == configure_steps(first, "agent"@)[2].request
            &&& asked[5] == window
            &&& asked[6] == configure_steps(second, "vim"@)[0].request
            &&& asked[7] == configure_steps(second, "vim"@)[1].request
            &&& asked[8] == configure_steps(second, "vim"@)[2].request
            &&& asked[9] == window
            &&& asked[10] == configure_steps(third, "terminal"@)[0].request
            &&& asked[11] == configure_steps(third, "terminal"@)[1].request
            &&& asked[12] == configure_steps(third, "terminal"@)[2].request
            &&& asked[13] == select_step(first).request
            &&& asked[14] == client_request()
            &&& asked[15] == mode.entry_request(session_name)
        }),
{
}

/// The action of a request of a run.
spec fn action_at(n: int, mode: SessionEntryMode) -> Seq<char> {
    if n == 1 {
        "create the detached tmux session"@
    } else if n == 5 || n == 9 {
        "create tmux windows"@
    } else if n == 2 || n == 6 || n == 10 {
        "rename a tmux window"@
    } else if n == 13 {
        "select the starting tmux window"@
    } else if n < 13 {
        "disable tmux window auto-renaming"@
    } else {
        mode.entering()
    }
}

/// Where a conversation stands after `n` replies without a fault.
proof fn lemma_session_at(
    session_name: Seq<char>,
    tmux_env: Option<Seq<char>>,
    replies: Seq<TmuxReplyView>,
    n: int,
)
    requires
        0 <= n <= 16,
        n <= replies.len(),
        n > 0 ==> refused(replies[0]),
        forall|i: int| 1 <= i < n && i != 14 ==> succeeded(#[trigger] replies[i]),
        n > 1 ==> printed_in(replies[1]).len() > 0,
        n > 5 ==> printed_in(replies[5]).len() > 0,
        n > 9 ==> printed_in(replies[9]).len() > 0,
    ensures
        ({
            let mode = SessionEntryMode::fitting(tmux_env, names_client(replies[14]));
            let asked = workspace_requests(
                session_name,
                printed_in(replies[1]),
                printed_in(replies[5]),
                printed_in(replies[9]),
                mode,
            );
            let talk = session_talk(session_name, tmux_env, replies);
            let wanted = n == 1 || n == 5 || n == 9;
            let result = if wanted {
                match identifier_of(replies[n], action_at(n, mode)) {
                    Ok(_) => Ok(()),
                    Err(error) => Err(error),
                }
            } else if n == 15 {
                checked(replies[n], action_at(n, mode), TmuxStdioPolicy::Inherit)
            } else {
                checked(replies[n], action_at(n, mode), TmuxStdioPolicy::Capture)
            };
            &&& talk.answered.len() >= n
            &&& forall|i: int|
                0 <= i <= n && i < talk.answered.len() ==> #[trigger] talk.answered[i] == asked[i]
            &&& n == 16 ==> talk.answered.len() == 16 && talk.outcome == Outcome::<()>::Done(
                Ok(()),
            )
            &&& n < 16 && n == replies.len() ==> talk.answered.len() == n && talk.outcome
                == Outcome::<()>::Waiting(asked[n])
            &&& n == 1 && n < replies.len() && !succeeded(replies[n]) ==> talk.answered.len() == 2
                && talk.outcome == Outcome::<()>::Done(
                checked(replies[1], action_at(1, mode), TmuxStdioPolicy::Capture),
            )
            &&& 1 <= n < 16 && n != 14 && n < replies.len() && result is Err && (n > 1
                || succeeded(replies[n])) ==> {
                &&& replies.len() == n + 1 ==> {
                    &&& talk.answered.len() == n + 1
                    &&& talk.outcome == Outcome::<()>::Waiting(kill_session_request(session_name))
                }
                &&& replies.len() > n + 1 ==> {
                    &&& talk.answered.len() == n + 2
                    &&& talk.answered[n + 1] == kill_session_request(session_name)
                    &&& talk.outcome == Outcome::<()>::Done(
                        Err(
                            after_cleanup(
                                result->Err_0,
                                checked(replies[n + 1], cleaning_up(), TmuxStdioPolicy::Capture),
                            ),
                        ),
                    )
                }
            }
        }),
{
    let mode = SessionEntryMode::fitting(tmux_env, names_client(replies[14]));
    let id = printed_in(replies[1]);
    lemma_workspace_requests(
        session_name,
        id,
        printed_in(replies[5]),
        printed_in(replies[9]),
        mode,
    );
    let talk = session_talk(session_name, tmux_env, replies);
    let absence = absence_talk(session_name, replies);
    let rest = replies.skip(1);
    let setup = rest.skip(1);
    if n >= 1 {
        assert(absence.answered.len() == 1);
        let creation = creation_talk(session_name, rest);
        if n >= 2 {
            let steps = setup_steps(session_name, id, setup);
            let m = if n - 2 < 12 {
                n - 2
            } else {
                12int
            };
            lemma_setup_at(session_name, replies);
            assert forall|i: int| 0 <= i < m implies (#[trigger] steps[i]).fault(setup[i])
                is None by {
                assert(setup[i] == replies[i + 2]);
                assert(succeeded(replies[i + 2]));
            }
            assert(passed(steps, setup, m));
            lemma_halt_after(steps, setup, 0, m);
            lemma_halt(steps, setup, m);
            let attempt = script(steps, setup);
            assert(creation.answered =~= seq![new_session_request(session_name)] + guarded_talk(
                session_name,
                attempt,
                setup,
            ).answered);
            if m < setup.len() {
                assert(setup[m] == replies[m + 2]);
            }
            if m == 12 {
                assert(creation.answered.len() == 13);
                let created = rest.skip(13);
                assert(created.len() == replies.len() - 14);
                if created.len() > 0 {
                    assert(created[0] == replies[14]);
                    assert(entering_talk(session_name, tmux_env, created).answered.len() >= 1);
                }
                if created.len() > 1 {
                    assert(created.skip(1)[0] == replies[15]);
                }
                if created.len() > 2 {
                    assert(created.skip(2)[0] == replies[16]);
                }
            } else if replies.len() > n + 1 {
                assert(setup.skip(m + 1)[0] == replies[n + 1]);
            }
        } else if replies.len() > 2 {
            assert(setup.skip(0)[0] == replies[2]);
        }
    }
}

/// The steps of a setup are requests of the run.
proof fn lemma_setup_at(session_name: Seq<char>, replies: Seq<TmuxReplyView>)
    requires
        replies.len() >= 2,
    ensures
        ({
            let setup = replies.skip(1).skip(1);
            let steps = setup_steps(session_name, printed_in(replies[1]), setup);
            forall|mode: SessionEntryMode|
                {
                    let asked = #[trigger] workspace_requests(
                        session_name,
                        printed_in(replies[1]),
                        printed_in(replies[5]),
                        printed_in(replies[9]),
                        mode,
                    );
                    &&& steps.len() == 12
                    &&& forall|i: int|
                        0 <= i < 12 && i <= setup.len() ==> {
                            &&& (#[trigger] steps[i]).request == asked[i + 2]
                            &&& steps[i].wants_identifier == (i == 3 || i == 7)
                            &&& steps[i].action == action_at(i + 2, mode)
                        }
                }
        }),
{
    let setup = replies.skip(1).skip(1);
    let id = printed_in(replies[1]);
    let steps = setup_steps(session_name, id, setup);
    reveal_with_fuel(further_windows, 3);
    assert(further_windows(session_name, setup, 1).len() == 4);
    assert(further_windows(session_name, setup, 2).len() == 8);
    assert forall|mode: SessionEntryMode|
        {
            let asked = #[trigger] workspace_requests(
                session_name,
                id,
                printed_in(replies[5]),
                printed_in(replies[9]),
                mode,
            );
            forall|i: int|
                0 <= i < 12 && i <= setup.len() ==> {
                    &&& (#[trigger] steps[i]).request == asked[i + 2]
                    &&& steps[i].wants_identifier == (i == 3 || i == 7)
                    &&& steps[i].action == action_at(i + 2, mode)
                }
        } by {
        lemma_workspace_requests(
            session_name,
            id,
            printed_in(replies[5]),
            printed_in(replies[9]),
            mode,
        );
        if setup.len() > 3 {
            assert(setup[3] == replies[5]);
        }
        if setup.len() > 7 {
            assert(setup[7] == replies[9]);
        }
    }
}

} // verus!
