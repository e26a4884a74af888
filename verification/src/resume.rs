//! A pass over a conversation says again what the pass before it has said, and
//! goes on from there.

use vstd::prelude::*;
use crate::entry::{client_request, entering_talk, names_client, SessionEntryMode};
use crate::error::CliErrorView;
use crate::run::{run_talk, session_talk};
use crate::cli::{requested, CliCommandView};
use crate::script::{halt, lemma_halt, lemma_halt_after, passed, script, Step};
use crate::session::{
    absence_talk, cleanup_talk, creating, creation_talk, further_windows, guarded_talk,
    new_session_request, setup_steps,
};
use crate::tmux::{
    checked, identifier_of, single, Outcome, Talk, TmuxReplyView, TmuxRequestView, TmuxStdioPolicy,
};

verus! {

/// Whether `later` goes on from `now`, where `later` has one more reply to hear
/// than `unheard`. A talk that is over stays as it is. A talk that waits has
/// taken all the replies; the one more goes to the request that it waits for, and
/// the requests before are the same.
pub open spec fn resumes<T>(now: Talk<T>, unheard: Seq<TmuxReplyView>, later: Talk<T>) -> bool {
    match now.outcome {
        Outcome::Waiting(request) => {
            &&& now.answered.len() == unheard.len()
            &&& later.answered.len() > unheard.len()
            &&& later.answered.take(unheard.len() as int + 1) == now.answered.push(request)
        },
        Outcome::Done(_) => {
            &&& now.answered.len() <= unheard.len()
            &&& later == now
        },
    }
}

proof fn lemma_single_resumes<T>(
    request: TmuxRequestView,
    unheard: Seq<TmuxReplyView>,
    reply: TmuxReplyView,
    meaning: spec_fn(TmuxReplyView) -> Result<T, CliErrorView>,
)
    ensures
        resumes(
            single(request, unheard, meaning),
            unheard,
            single(request, unheard.push(reply), meaning),
        ),
{
    let later = single(request, unheard.push(reply), meaning);
    if unheard.len() == 0 {
        assert(later.answered.take(1) =~= single(request, unheard, meaning).answered.push(request));
    } else {
        assert(unheard.push(reply)[0] == unheard[0]);
    }
}

proof fn lemma_preceded_resumes<T>(
    now: Talk<T>,
    later: Talk<T>,
    before: Seq<TmuxRequestView>,
    unheard: Seq<TmuxReplyView>,
)
    requires
        before.len() <= unheard.len(),
        resumes(now, unheard.skip(before.len() as int), later),
    ensures
        resumes(now.preceded_by(before), unheard, later.preceded_by(before)),
{
    if let Outcome::Waiting(request) = now.outcome {
        assert(later.preceded_by(before).answered.take(unheard.len() as int + 1) =~= before
            + later.answered.take(unheard.len() - before.len() + 1));
        assert(now.preceded_by(before).answered.push(request) =~= before + now.answered.push(
            request,
        ));
    }
}

proof fn lemma_followed_resumes<T, U>(
    now: Talk<T>,
    later: Talk<T>,
    unheard: Seq<TmuxReplyView>,
    next_now: Talk<U>,
    next_later: Talk<U>,
)
    requires
        resumes(now, unheard, later),
        now.outcome matches Outcome::Done(Ok(_)) ==> resumes(
            next_now,
            unheard.skip(now.answered.len() as int),
            next_later,
        ),
    ensures
        resumes(now.followed_by(next_now), unheard, later.followed_by(next_later)),
{
    match now.outcome {
        Outcome::Done(Ok(_)) => {
            lemma_preceded_resumes(next_now, next_later, now.answered, unheard);
        },
        Outcome::Done(Err(_)) => {},
        Outcome::Waiting(request) => {
            assert(later.followed_by(next_later).answered.take(unheard.len() as int + 1)
                =~= later.answered.take(unheard.len() as int + 1));
        },
    }
}

proof fn lemma_guarded_resumes(
    session_name: Seq<char>,
    now: Talk<()>,
    later: Talk<()>,
    unheard: Seq<TmuxReplyView>,
    reply: TmuxReplyView,
)
    requires
        resumes(now, unheard, later),
    ensures
        resumes(
            guarded_talk(session_name, now, unheard),
            unheard,
            guarded_talk(session_name, later, unheard.push(reply)),
        ),
{
    let guarded_now = guarded_talk(session_name, now, unheard);
    let guarded_later = guarded_talk(session_name, later, unheard.push(reply));
    match now.outcome {
        Outcome::Done(Err(_)) => {
            let n = now.answered.len() as int;
            let rest = unheard.skip(n);
            assert(unheard.push(reply).skip(n) =~= rest.push(reply));
            let cleanup_now = cleanup_talk(session_name, rest);
            let cleanup_later = cleanup_talk(session_name, rest.push(reply));
            if rest.len() == 0 {
                assert(guarded_later.answered.take(n + 1) =~= guarded_now.answered.push(
                    guarded_now.outcome->Waiting_0,
                ));
            } else {
                assert(rest.push(reply)[0] == rest[0]);
            }
        },
        Outcome::Done(Ok(_)) => {},
        Outcome::Waiting(request) => {
            assert(guarded_later.answered.take(unheard.len() as int + 1) =~= later.answered.take(
                unheard.len() as int + 1,
            ));
        },
    }
}

/// A step is known by the time that it is reached.
proof fn lemma_setup_steps_agree(
    session_name: Seq<char>,
    id: Seq<char>,
    unheard: Seq<TmuxReplyView>,
    reply: TmuxReplyView,
)
    ensures
        ({
            let now = setup_steps(session_name, id, unheard);
            let later = setup_steps(session_name, id, unheard.push(reply));
            &&& now.len() == later.len() == 12
            &&& forall|i: int|
                0 <= i < 12 && i <= unheard.len() ==> #[trigger] now[i] == later[i]
        }),
{
    reveal_with_fuel(further_windows, 3);
    assert(further_windows(session_name, unheard, 1).len() == 4);
    assert(further_windows(session_name, unheard, 2).len() == 8);
    assert(further_windows(session_name, unheard.push(reply), 1).len() == 4);
    assert(further_windows(session_name, unheard.push(reply), 2).len() == 8);
    if unheard.len() > 3 {
        assert(unheard.push(reply)[3] == unheard[3]);
    }
    if unheard.len() > 7 {
        assert(unheard.push(reply)[7] == unheard[7]);
    }
}

/// A script whose steps are known by the time that they are reached resumes.
proof fn lemma_script_resumes(
    now: Seq<Step>,
    later: Seq<Step>,
    unheard: Seq<TmuxReplyView>,
    reply: TmuxReplyView,
)
    requires
        now.len() == later.len(),
        forall|i: int| 0 <= i < now.len() && i <= unheard.len() ==> #[trigger] now[i] == later[i],
        unheard.len() >= now.len() ==> now == later,
    ensures
        resumes(script(now, unheard), unheard, script(later, unheard.push(reply))),
{
    let more = unheard.push(reply);
    let n = halt(now, unheard, 0);
    lemma_halt(now, unheard, 0);
    assert forall|i: int| 0 <= i < n implies (#[trigger] later[i]).fault(more[i]) is None by {
        assert(now[i].fault(unheard[i]) is None);
        assert(more[i] == unheard[i]);
    }
    assert(passed(later, more, n));
    lemma_halt_after(later, more, 0, n);
    lemma_halt(later, more, n);
    let talk = script(now, unheard);
    let later_talk = script(later, more);
    if n == now.len() {
        assert(now == later);
    } else if n == unheard.len() {
        assert(later_talk.answered.take(n + 1) =~= talk.answered.push(now[n].request));
    } else {
        assert(more[n] == unheard[n]);
        assert(halt(later, more, n) == n);
        assert(later_talk.answered =~= talk.answered);
    }
}

proof fn lemma_creation_resumes(
    session_name: Seq<char>,
    unheard: Seq<TmuxReplyView>,
    reply: TmuxReplyView,
)
    ensures
        resumes(
            creation_talk(session_name, unheard),
            unheard,
            creation_talk(session_name, unheard.push(reply)),
        ),
{
    let now = creation_talk(session_name, unheard);
    let later = creation_talk(session_name, unheard.push(reply));
    if unheard.len() == 0 {
        assert(later.answered.take(1) =~= now.answered.push(now.outcome->Waiting_0));
    } else {
        let request = new_session_request(session_name);
        let rest = unheard.skip(1);
        assert(unheard.push(reply)[0] == unheard[0]);
        assert(unheard.push(reply).skip(1) =~= rest.push(reply));
        match checked(unheard[0], creating(), TmuxStdioPolicy::Capture) {
            Err(_) => {},
            Ok(()) => {
                match identifier_of(unheard[0], creating()) {
                    Ok(id) => {
                        let steps = setup_steps(session_name, id, rest);
                        let later_steps = setup_steps(session_name, id, rest.push(reply));
                        lemma_setup_steps_agree(session_name, id, rest, reply);
                        if rest.len() >= 12 {
                            assert(steps =~= later_steps);
                        }
                        lemma_script_resumes(steps, later_steps, rest, reply);
                        let attempt = script(steps, rest);
                        let later_attempt = script(later_steps, rest.push(reply));
                        lemma_guarded_resumes(session_name, attempt, later_attempt, rest, reply);
                        lemma_preceded_resumes(
                            guarded_talk(session_name, attempt, rest),
                            guarded_talk(session_name, later_attempt, rest.push(reply)),
                            seq![request],
                            unheard,
                        );
                    },
                    Err(error) => {
                        let attempt = Talk::silent(Err(error));
                        lemma_guarded_resumes(session_name, attempt, attempt, rest, reply);
                        lemma_preceded_resumes(
                            guarded_talk(session_name, attempt, rest),
                            guarded_talk(session_name, attempt, rest.push(reply)),
                            seq![request],
                            unheard,
                        );
                    },
                }
            },
        }
    }
}

proof fn lemma_entering_resumes(
    session_name: Seq<char>,
    tmux_env: Option<Seq<char>>,
    unheard: Seq<TmuxReplyView>,
    reply: TmuxReplyView,
)
    ensures
        resumes(
            entering_talk(session_name, tmux_env, unheard),
            unheard,
            entering_talk(session_name, tmux_env, unheard.push(reply)),
        ),
{
    let more = unheard.push(reply);
    let detection = SessionEntryMode::detection_talk(tmux_env, unheard);
    let later_detection = SessionEntryMode::detection_talk(tmux_env, more);
    let mode = SessionEntryMode::fitting(tmux_env, names_client(unheard[0]));
    let later_mode = SessionEntryMode::fitting(tmux_env, names_client(more[0]));
    lemma_single_resumes(
        client_request(),
        unheard,
        reply,
        |r: TmuxReplyView| Ok(SessionEntryMode::fitting(tmux_env, names_client(r))),
    );
    assert(resumes(detection, unheard, later_detection));
    let next = mode.entry_talk(session_name, unheard.skip(1));
    let later_next = later_mode.entry_talk(session_name, more.skip(1));
    if unheard.len() > 0 {
        assert(more.skip(1) =~= unheard.skip(1).push(reply));
        assert(more[0] == unheard[0]);
        lemma_single_resumes(
            mode.entry_request(session_name),
            unheard.skip(1),
            reply,
            |r: TmuxReplyView| checked(r, mode.entering(), TmuxStdioPolicy::Inherit),
        );
        assert(resumes(next, unheard.skip(1), later_next));
    }
    lemma_followed_resumes(detection, later_detection, unheard, next, later_next);
}

proof fn lemma_session_resumes(
    session_name: Seq<char>,
    tmux_env: Option<Seq<char>>,
    replies: Seq<TmuxReplyView>,
    reply: TmuxReplyView,
)
    ensures
        resumes(
            session_talk(session_name, tmux_env, replies),
            replies,
            session_talk(session_name, tmux_env, replies.push(reply)),
        ),
{
    let more = replies.push(reply);
    let absence = absence_talk(session_name, replies);
    let later_absence = absence_talk(session_name, more);
    assert(resumes(absence, replies, later_absence)) by {
        if replies.len() == 0 {
            assert(later_absence.answered.take(1) =~= absence.answered.push(
                absence.outcome->Waiting_0,
            ));
        } else {
            assert(more[0] == replies[0]);
        }
    }
    let checked_replies = replies.skip(absence.answered.len() as int);
    let later_checked = more.skip(later_absence.answered.len() as int);
    let creation = creation_talk(session_name, checked_replies);
    let later_creation = creation_talk(session_name, later_checked);
    let created = checked_replies.skip(creation.answered.len() as int);
    let later_created = later_checked.skip(later_creation.answered.len() as int);
    let attempt = entering_talk(session_name, tmux_env, created);
    let later_attempt = entering_talk(session_name, tmux_env, later_created);
    let entering = guarded_talk(session_name, attempt, created);
    let later_entering = guarded_talk(session_name, later_attempt, later_created);
    if absence.outcome matches Outcome::Done(Ok(_)) {
        assert(later_checked =~= checked_replies.push(reply));
        lemma_creation_resumes(session_name, checked_replies, reply);
        if creation.outcome matches Outcome::Done(Ok(_)) {
            assert(later_created =~= created.push(reply));
            lemma_entering_resumes(session_name, tmux_env, created, reply);
            lemma_guarded_resumes(session_name, attempt, later_attempt, created, reply);
        }
        lemma_followed_resumes(
            creation,
            later_creation,
            checked_replies,
            entering,
            later_entering,
        );
    }
    lemma_followed_resumes(
        absence,
        later_absence,
        replies,
        creation.followed_by(entering),
        later_creation.followed_by(later_entering),
    );
}

/// A run may be repeated from its start whenever a reply has come in: with one
/// more reply it makes the same requests as before, takes the new reply for the
/// request that it waited for, and goes on. A run that is over stays as it is,
/// whatever replies are added.
pub proof fn law_run_resumes(
    args: Seq<Seq<char>>,
    tmux_env: Option<Seq<char>>,
    replies: Seq<TmuxReplyView>,
    reply: TmuxReplyView,
)
    ensures
        ({
            let now = run_talk(args, tmux_env, replies);
            let later = run_talk(args, tmux_env, replies.push(reply));
            match now.outcome {
                Outcome::Waiting(request) => {
                    &&& now.answered.len() == replies.len()
                    &&& later.answered.len() > replies.len()
                    &&& later.answered.take(replies.len() as int + 1) == now.answered.push(request)
                },
                Outcome::Done(_) => {
                    &&& now.answered.len() <= replies.len()
                    &&& later == now
                },
            }
        }),
{
    if let Ok(CliCommandView::CreateSession(session_name)) = requested(args) {
        lemma_session_resumes(session_name, tmux_env, replies, reply);
        let now = session_talk(session_name, tmux_env, replies);
        let later = session_talk(session_name, tmux_env, replies.push(reply));
        let end = Talk::<Option<Seq<char>>>::silent(Ok(None));
        lemma_followed_resumes(now, later, replies, end, end);
    }
}

} // verus!
