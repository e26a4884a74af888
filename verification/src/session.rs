//! Making a session: its windows, and what becomes of it where something fails.

use vstd::prelude::*;
use crate::error::{CliError, CliErrorView};
use crate::script::{
    checked_step, identifier_step, lemma_halt_after, lemma_next_part, lemma_next_step,
    lemma_script_bound, lemma_unheard_after, passed, requests, script, Step,
};
use crate::text::printed;
use crate::tmux::{
    captured, checked, format_tmux_output, identifier_of, output_of, parse_tmux_identifier,
    outcome, run_tmux_checked, run_tmux_identifier, run_tmux_output, single, texts, Conversation,
    ConversationView, Outcome, Stop, Talk, TmuxReplyView, TmuxRequestView, TmuxStdioPolicy,
};

verus! {

/// The windows of a session, in order.
pub const WINDOW_NAMES: [&'static str; 3] = ["agent", "vim", "terminal"];

// What is said to tmux

/// The request by which tmux tells whether a session is there.
pub open spec fn has_session_request(session_name: Seq<char>) -> TmuxRequestView {
    captured(seq!["has-session"@, "-t"@, session_name])
}

/// The request that creates a session with its first window.
pub open spec fn new_session_request(session_name: Seq<char>) -> TmuxRequestView {
    captured(
        seq![
            "new-session"@,
            "-dP"@,
            "-F"@,
            "#{window_id}"@,
            "-s"@,
            session_name,
        ],
    )
}

/// The request that removes a session.
pub open spec fn kill_session_request(session_name: Seq<char>) -> TmuxRequestView {
    captured(seq!["kill-session"@, "-t"@, session_name])
}

/// The step that creates a further window in a session.
pub open spec fn new_window_step(session_name: Seq<char>) -> Step {
    identifier_step(
        seq![
            "new-window"@,
            "-dP"@,
            "-F"@,
            "#{window_id}"@,
            "-t"@,
            session_name + ":"@,
        ],
        "create tmux windows"@,
    )
}

/// The step that turns an option of a window off.
pub open spec fn option_off_step(target: Seq<char>, option: Seq<char>) -> Step {
    checked_step(
        seq!["set-window-option"@, "-t"@, target, option, "off"@],
        "disable tmux window auto-renaming"@,
    )
}

/// The steps that give a window its name for good.
pub open spec fn configure_steps(target: Seq<char>, window_name: Seq<char>) -> Seq<Step> {
    seq![
        checked_step(
            seq!["rename-window"@, "-t"@, target, window_name],
            "rename a tmux window"@,
        ),
        option_off_step(target, "automatic-rename"@),
        option_off_step(target, "allow-rename"@),
    ]
}

/// The step that makes a window the current one of its session.
pub open spec fn select_step(target: Seq<char>) -> Step {
    checked_step(
        seq!["select-window"@, "-t"@, target],
        "select the starting tmux window"@,
    )
}

/// What tmux printed in a reply.
pub open spec fn printed_in(reply: TmuxReplyView) -> Seq<char> {
    printed(reply->Ok_0.stdout)
}

/// The first `count` windows after the first one: each is created and then
/// configured under the identifier that tmux gave it. `unheard` are the replies
/// from the configuration of the first window on.
pub open spec fn further_windows(
    session_name: Seq<char>,
    unheard: Seq<TmuxReplyView>,
    count: nat,
) -> Seq<Step>
    decreases count,
{
    if count == 0 {
        seq![]
    } else {
        let earlier = further_windows(session_name, unheard, (count - 1) as nat);
        earlier + seq![new_window_step(session_name)] + configure_steps(
            printed_in(unheard[(3 + earlier.len()) as int]),
            WINDOW_NAMES@[count as int]@,
        )
    }
}

/// The steps from the new session to the finished one.
pub open spec fn setup_steps(
    session_name: Seq<char>,
    first_window_id: Seq<char>,
    unheard: Seq<TmuxReplyView>,
) -> Seq<Step> {
    configure_steps(first_window_id, WINDOW_NAMES@[0]@) + further_windows(
        session_name,
        unheard,
        2,
    ) + seq![select_step(first_window_id)]
}

/// The action of which creating a session is spoken.
pub open spec fn creating() -> Seq<char> {
    "create the detached tmux session"@
}

/// The action of which removing a session is spoken.
pub open spec fn cleaning_up() -> Seq<char> {
    "clean up the partially created tmux session"@
}

/// The error that tells of a failed setup and of the failed cleanup after it.
pub open spec fn rollback_error(
    setup_error: CliErrorView,
    cleanup_error: CliErrorView,
) -> CliErrorView {
    CliErrorView::TmuxCommandFailed {
        action: cleaning_up(),
        details: "session setup failed: "@ + setup_error.message() + "; cleanup failed: "@
            + cleanup_error.message(),
    }
}

/// The error that is left of a failed setup and the cleanup after it.
pub open spec fn after_cleanup(
    setup_error: CliErrorView,
    cleanup: Result<(), CliErrorView>,
) -> CliErrorView {
    match cleanup {
        Ok(()) => setup_error,
        Err(cleanup_error) => rollback_error(setup_error, cleanup_error),
    }
}

/// The part of a conversation that makes sure that there is no session yet.
pub open spec fn absence_talk(session_name: Seq<char>, unheard: Seq<TmuxReplyView>) -> Talk<()> {
    single(
        has_session_request(session_name),
        unheard,
        |reply: TmuxReplyView|
            match output_of(reply, "check whether the tmux session already exists"@) {
                Ok(output) => if output.success {
                    Err(CliErrorView::SessionAlreadyExists(session_name))
                } else {
                    Ok(())
                },
                Err(error) => Err(error),
            },
    )
}

/// The part of a conversation that removes a session.
pub open spec fn cleanup_talk(session_name: Seq<char>, unheard: Seq<TmuxReplyView>) -> Talk<()> {
    single(
        kill_session_request(session_name),
        unheard,
        |reply: TmuxReplyView| checked(reply, cleaning_up(), TmuxStdioPolicy::Capture),
    )
}

/// `attempt`, after which the session is removed where the attempt failed.
/// `unheard` are the replies from the attempt on.
pub open spec fn guarded_talk(
    session_name: Seq<char>,
    attempt: Talk<()>,
    unheard: Seq<TmuxReplyView>,
) -> Talk<()> {
    match attempt.outcome {
        Outcome::Done(Err(setup_error)) => {
            let cleanup = cleanup_talk(
                session_name,
                unheard.skip(attempt.answered.len() as int),
            );
            Talk {
                answered: attempt.answered + cleanup.answered,
                outcome: match cleanup.outcome {
                    Outcome::Waiting(request) => Outcome::Waiting(request),
                    Outcome::Done(result) => Outcome::Done(Err(after_cleanup(setup_error, result))),
                },
            }
        },
        _ => attempt,
    }
}

/// The part of a conversation that creates a session. From the time that tmux
/// has created it, a failure removes it again.
pub open spec fn creation_talk(session_name: Seq<char>, unheard: Seq<TmuxReplyView>) -> Talk<()> {
    let request = new_session_request(session_name);
    if unheard.len() == 0 {
        Talk { answered: seq![], outcome: Outcome::Waiting(request) }
    } else {
        let rest = unheard.skip(1);
        let talk = match checked(unheard[0], creating(), TmuxStdioPolicy::Capture) {
            Ok(()) => guarded_talk(
                session_name,
                match identifier_of(unheard[0], creating()) {
                    Ok(first_window_id) => script(
                        setup_steps(session_name, first_window_id, rest),
                        rest,
                    ),
                    Err(error) => Talk::silent(Err(error)),
                },
                rest,
            ),
            Err(error) => Talk::silent(Err(error)),
        };
        talk.preceded_by(seq![request])
    }
}

// Saying it

/// Makes sure that there is no session of this name yet.
pub fn ensure_session_absent(tmux: &mut Conversation, session_name: &str) -> (res: Result<
    (),
    Stop,
>)
    ensures
        absence_talk(session_name@, old(tmux)@.unheard()).took_place(
            old(tmux)@,
            final(tmux)@,
            res,
        ),
{
    let args = ["has-session", "-t", session_name];
    assert(texts(args@) =~= seq!["has-session"@, "-t"@, session_name@]);
    let output = run_tmux_output(tmux, args, "check whether the tmux session already exists")?;
    if output.status.success {
        return Err(Stop::Failed(CliError::SessionAlreadyExists(session_name.to_owned())));
    }
    Ok(())
}

/// Removes a session.
pub fn cleanup_session(tmux: &mut Conversation, session_name: &str) -> (res: Result<(), Stop>)
    ensures
        cleanup_talk(session_name@, old(tmux)@.unheard()).took_place(
            old(tmux)@,
            final(tmux)@,
            res,
        ),
{
    let args = ["kill-session", "-t", session_name];
    assert(texts(args@) =~= seq!["kill-session"@, "-t"@, session_name@]);
    run_tmux_checked(tmux, args, "clean up the partially created tmux session")
}

/// The error that tells of a failed setup and of the failed cleanup after it.
pub fn session_creation_rollback_error(setup_error: CliError, cleanup_error: CliError) -> (res:
    CliError)
    ensures
        res@ == rollback_error(setup_error@, cleanup_error@),
{
    CliError::TmuxCommandFailed {
        action: "clean up the partially created tmux session",
        details: "session setup failed: ".to_owned()
            .concat(setup_error.to_string().as_str())
            .concat("; cleanup failed: ")
            .concat(cleanup_error.to_string().as_str()),
    }
}

/// Hands a success on as it is. After a failure, and only then, cleans up once;
/// the failure stays the error, unless the cleanup fails too: then the error
/// tells of both.
pub fn rollback_session_creation<T, Cleanup>(
    session_name: &str,
    result: Result<T, CliError>,
    cleanup: Cleanup,
) -> (res: Result<T, CliError>) where Cleanup: FnOnce(&str) -> Result<(), CliError>
    requires
        result is Err ==> cleanup.requires((session_name,)),
    ensures
        result is Ok ==> res == result,
        result matches Err(setup_error) ==> exists|cleaned: Result<(), CliError>|
            #![auto]
            {
                &&& cleanup.ensures((session_name,), cleaned)
                &&& cleaned is Ok ==> res == result
                &&& cleaned matches Err(cleanup_error) ==> res matches Err(error) && error@
                    == rollback_error(setup_error@, cleanup_error@)
            },
{
    match result {
        Ok(value) => Ok(value),
        Err(setup_error) => match cleanup(session_name) {
            Ok(()) => Err(setup_error),
            Err(cleanup_error) => Err(session_creation_rollback_error(setup_error, cleanup_error)),
        },
    }
}

/// Removes the session where making it has failed. While a reply is still
/// awaited, nothing has.
pub(crate) fn roll_back_failure(
    tmux: &mut Conversation,
    session_name: &str,
    result: Result<(), Stop>,
) -> (res: Result<(), Stop>)
    ensures
        guarded_talk(
            session_name@,
            Talk { answered: seq![], outcome: outcome(result) },
            old(tmux)@.unheard(),
        ).took_place(old(tmux)@, final(tmux)@, res),
{
    assert(old(tmux)@ =~= old(tmux)@.after(seq![]));
    assert(old(tmux)@.unheard().skip(0) =~= old(tmux)@.unheard());
    let setup_error = match result {
        Ok(()) => return Ok(()),
        Err(Stop::Waiting(request)) => return Err(Stop::Waiting(request)),
        Err(Stop::Failed(setup_error)) => setup_error,
    };
    let ghost talk = cleanup_talk(session_name@, old(tmux)@.unheard());
    assert(seq![] + talk.answered =~= talk.answered);
    let cleaned: Result<(), CliError> = match cleanup_session(tmux, session_name) {
        Ok(()) => Ok(()),
        Err(Stop::Waiting(request)) => return Err(Stop::Waiting(request)),
        Err(Stop::Failed(cleanup_error)) => Err(cleanup_error),
    };
    let cleanup = |_session_name: &str| -> (res: Result<(), CliError>)
        ensures
            (res == cleaned),
        { cleaned };
    match rollback_session_creation::<(), _>(session_name, Err(setup_error), cleanup) {
        Ok(()) => Ok(()),
        Err(error) => Err(Stop::Failed(error)),
    }
}

/// An attempt may be made first and guarded afterwards.
pub(crate) proof fn lemma_guarded_after(
    session_name: Seq<char>,
    before: ConversationView,
    attempt: Talk<()>,
)
    requires
        attempt.answered.len() <= before.unheard().len(),
    ensures
        ({
            let whole = guarded_talk(session_name, attempt, before.unheard());
            let now = before.after(attempt.answered);
            let rest = guarded_talk(
                session_name,
                Talk { answered: seq![], outcome: attempt.outcome },
                now.unheard(),
            );
            &&& whole.outcome == rest.outcome
            &&& before.after(whole.answered) == now.after(rest.answered)
        }),
{
    let whole = guarded_talk(session_name, attempt, before.unheard());
    let now = before.after(attempt.answered);
    lemma_unheard_after(before, attempt.answered);
    assert(now.unheard().skip(0) =~= now.unheard());
    let rest = guarded_talk(
        session_name,
        Talk { answered: seq![], outcome: attempt.outcome },
        now.unheard(),
    );
    assert(before.after(whole.answered) =~= now.after(rest.answered));
}

/// Gives a window its name for good.
pub fn configure_window(
    tmux: &mut Conversation,
    window_target: &str,
    window_name: &str,
) -> (res: Result<(), Stop>)
    ensures
        script(
            configure_steps(window_target@, window_name@),
            old(tmux)@.unheard(),
        ).took_place(old(tmux)@, final(tmux)@, res),
{
    let ghost before = tmux@;
    let ghost unheard = before.unheard();
    let ghost steps = configure_steps(window_target@, window_name@);
    proof {
        lemma_next_step(before, steps, 0);
    }
    let args = ["rename-window", "-t", window_target, window_name];
    assert(texts(args@) =~= seq!["rename-window"@, "-t"@, window_target@, window_name@]);
    run_tmux_checked(tmux, args, "rename a tmux window")?;
    let options = ["automatic-rename", "allow-rename"];
    for i in 0..options.len()
        invariant
            options@ == ["automatic-rename", "allow-rename"]@,
            unheard == before.unheard(),
            steps == configure_steps(window_target@, window_name@),
            old(tmux)@ == before,
            passed(steps, unheard, i + 1),
            tmux@ == before.after(requests(steps).take(i + 1)),
    {
        proof {
            lemma_next_step(before, steps, i + 1);
        }
        let args = ["set-window-option", "-t", window_target, options[i], "off"];
        assert(texts(args@) =~= seq![
            "set-window-option"@,
            "-t"@,
            window_target@,
            options@[i as int]@,
            "off"@,
        ]);
        run_tmux_checked(tmux, args, "disable tmux window auto-renaming")?;
    }
    proof {
        lemma_halt_after(steps, unheard, 0, 3);
        assert(requests(steps).take(3) =~= requests(steps));
    }
    Ok(())
}

/// Where the steps of a setup stand.
proof fn lemma_setup_steps(
    session_name: Seq<char>,
    first_window_id: Seq<char>,
    unheard: Seq<TmuxReplyView>,
)
    ensures
        ({
            let steps = setup_steps(session_name, first_window_id, unheard);
            &&& steps.len() == 12
            &&& steps.subrange(0, 3) == configure_steps(first_window_id, WINDOW_NAMES@[0]@)
            &&& forall|w: int|
                1 <= w < 3 ==> #[trigger] steps[4 * w - 1] == new_window_step(session_name)
                    && steps.subrange(4 * w, 4 * w + 3) == configure_steps(
                    printed_in(unheard[4 * w - 1]),
                    WINDOW_NAMES@[w]@,
                )
            &&& steps[11] == select_step(first_window_id)
        }),
{
    let steps = setup_steps(session_name, first_window_id, unheard);
    reveal_with_fuel(further_windows, 3);
    assert(further_windows(session_name, unheard, 1).len() == 4);
    assert(further_windows(session_name, unheard, 2).len() == 8);
    assert(steps.subrange(0, 3) =~= configure_steps(first_window_id, WINDOW_NAMES@[0]@));
    assert(steps.subrange(4, 7) =~= configure_steps(printed_in(unheard[3]), WINDOW_NAMES@[1]@));
    assert(steps.subrange(8, 11) =~= configure_steps(printed_in(unheard[7]), WINDOW_NAMES@[2]@));
    assert(steps[3] == new_window_step(session_name));
    assert(steps[7] == new_window_step(session_name));
}

/// Configures the first window of a session, adds and configures the others, and
/// selects the first.
pub(crate) fn set_up_windows(
    tmux: &mut Conversation,
    session_name: &str,
    first_window_id: &str,
) -> (res: Result<(), Stop>)
    ensures
        script(
            setup_steps(session_name@, first_window_id@, old(tmux)@.unheard()),
            old(tmux)@.unheard(),
        ).took_place(old(tmux)@, final(tmux)@, res),
{
    let ghost before = tmux@;
    let ghost unheard = before.unheard();
    let ghost steps = setup_steps(session_name@, first_window_id@, unheard);
    let session_target = session_name.to_owned().concat(":");
    proof {
        lemma_setup_steps(session_name@, first_window_id@, unheard);
        lemma_next_part(
            before,
            steps,
            0,
            configure_steps(first_window_id@, WINDOW_NAMES@[0]@),
        );
        assert(before =~= before.after(requests(steps).take(0)));
    }
    configure_window(tmux, first_window_id, WINDOW_NAMES[0])?;
    for w in 1..WINDOW_NAMES.len()
        invariant
            old(tmux)@ == before,
            unheard == before.unheard(),
            steps == setup_steps(session_name@, first_window_id@, unheard),
            session_target@ == session_name@ + ":"@,
            passed(steps, unheard, 4 * w - 1),
            tmux@ == before.after(requests(steps).take(4 * w - 1)),
    {
        proof {
            lemma_setup_steps(session_name@, first_window_id@, unheard);
            lemma_next_step(before, steps, 4 * w - 1);
            lemma_unheard_after(before, requests(steps).take(4 * w - 1));
        }
        let args = [
            "new-window",
            "-dP",
            "-F",
            "#{window_id}",
            "-t",
            session_target.as_str(),
        ];
        assert(texts(args@) =~= seq![
            "new-window"@,
            "-dP"@,
            "-F"@,
            "#{window_id}"@,
            "-t"@,
            session_name@ + ":"@,
        ]);
        let window_id = run_tmux_identifier(tmux, args, "create tmux windows")?;
        proof {
            lemma_next_part(
                before,
                steps,
                4 * w as int,
                configure_steps(window_id@, WINDOW_NAMES@[w as int]@),
            );
        }
        configure_window(tmux, window_id.as_str(), WINDOW_NAMES[w])?;
    }
    proof {
        lemma_setup_steps(session_name@, first_window_id@, unheard);
        lemma_next_step(before, steps, 11);
        if passed(steps, unheard, 12) {
            lemma_halt_after(steps, unheard, 0, 12);
            assert(requests(steps).take(12) =~= requests(steps));
        }
    }
    let args = ["select-window", "-t", first_window_id];
    assert(texts(args@) =~= seq!["select-window"@, "-t"@, first_window_id@]);
    run_tmux_checked(tmux, args, "select the starting tmux window")
}

/// Creates a session with its windows. Where that fails after tmux has created
/// the session, the session is removed again.
pub fn create_session(tmux: &mut Conversation, session_name: &str) -> (res: Result<(), Stop>)
    ensures
        creation_talk(session_name@, old(tmux)@.unheard()).took_place(
            old(tmux)@,
            final(tmux)@,
            res,
        ),
{
    let ghost before = tmux@;
    let ghost unheard = before.unheard();
    let action = "create the detached tmux session";
    let args = ["new-session", "-dP", "-F", "#{window_id}", "-s", session_name];
    assert(texts(args@) =~= seq![
        "new-session"@,
        "-dP"@,
        "-F"@,
        "#{window_id}"@,
        "-s"@,
        session_name@,
    ]);
    let output = run_tmux_output(tmux, args, action)?;
    let ghost request = new_session_request(session_name@);
    let ghost created = before.after(seq![request]);
    proof {
        lemma_unheard_after(before, seq![request]);
        assert(before.after(seq![request] + seq![]) =~= created);
    }
    if !output.status.success {
        return Err(
            Stop::Failed(
                CliError::TmuxCommandFailed { action, details: format_tmux_output(output) },
            ),
        );
    }
    let first_window_id = parse_tmux_identifier(&output.stdout, action);
    proof {
        let attempt = match identifier_of(unheard[0], creating()) {
            Ok(id) => script(
                setup_steps(session_name@, id, created.unheard()),
                created.unheard(),
            ),
            Err(error) => Talk::silent(Err(error)),
        };
        if let Ok(id) = identifier_of(unheard[0], creating()) {
            lemma_script_bound(
                setup_steps(session_name@, id, created.unheard()),
                created.unheard(),
            );
        } else {
            assert(created.after(seq![]) =~= created);
        }
        lemma_guarded_after(session_name@, created, attempt);
        let guarded = guarded_talk(session_name@, attempt, created.unheard());
        assert(before.after(seq![request] + guarded.answered) =~= created.after(
            guarded.answered,
        ));
    }
    let setup = match first_window_id {
        Ok(first_window_id) => set_up_windows(tmux, session_name, first_window_id.as_str()),
        Err(error) => Err(Stop::Failed(error)),
    };
    roll_back_failure(tmux, session_name, setup)
}

} // verus!
