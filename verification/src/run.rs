//! The command as a whole.

use vstd::prelude::*;
use crate::cli::{parse_command, requested, CliCommand, CliCommandView, HELP_TEXT};
use crate::entry::{enter_session, entering_talk};
use crate::script::{lemma_script_bound, lemma_unheard_after};
use crate::session::{
    absence_talk, create_session, creating, creation_talk, ensure_session_absent, guarded_talk,
    lemma_guarded_after, roll_back_failure, setup_steps,
};
use crate::tmux::{identifier_of, texts, Conversation, Stop, Talk, TmuxReplyView};

verus! {

/// The conversation that creates and enters a session: there must be none of
/// its name, it is created, and it is entered, or else removed.
pub open spec fn session_talk(
    session_name: Seq<char>,
    tmux_env: Option<Seq<char>>,
    replies: Seq<TmuxReplyView>,
) -> Talk<()> {
    let absence = absence_talk(session_name, replies);
    let checked = replies.skip(absence.answered.len() as int);
    let creation = creation_talk(session_name, checked);
    let created = checked.skip(creation.answered.len() as int);
    let entering = guarded_talk(
        session_name,
        entering_talk(session_name, tmux_env, created),
        created,
    );
    absence.followed_by(creation.followed_by(entering))
}

/// The conversation of a whole run, and the message that is left at its end.
pub open spec fn run_talk(
    args: Seq<Seq<char>>,
    tmux_env: Option<Seq<char>>,
    replies: Seq<TmuxReplyView>,
) -> Talk<Option<Seq<char>>> {
    match requested(args) {
        Err(error) => Talk::silent(Err(error)),
        Ok(CliCommandView::Help) => Talk::silent(Ok(Some(HELP_TEXT@))),
        Ok(CliCommandView::CreateSession(session_name)) => session_talk(
            session_name,
            tmux_env,
            replies,
        ).followed_by(Talk::silent(Ok(None))),
    }
}

/// Creating a session takes no more replies than there are.
pub proof fn lemma_creation_bound(session_name: Seq<char>, unheard: Seq<TmuxReplyView>)
    ensures
        creation_talk(session_name, unheard).answered.len() <= unheard.len(),
{
    if unheard.len() > 0 {
        let rest = unheard.skip(1);
        if let Ok(id) = identifier_of(unheard[0], creating()) {
            lemma_script_bound(setup_steps(session_name, id, rest), rest);
        }
    }
}

/// Runs the command with the command line `args`, whose first word is the name
/// of the program. `tmux_env` is the value of `TMUX`. Gives the message that is
/// left to show.
pub fn run(tmux: &mut Conversation, args: &[&str], tmux_env: Option<&str>) -> (res: Result<
    Option<String>,
    Stop,
>)
    ensures
        run_talk(texts(args@), tmux_env.deep_view(), old(tmux)@.unheard()).took_place(
            old(tmux)@,
            final(tmux)@,
            res,
        ),
{
    let ghost before = tmux@;
    assert(before.after(seq![]) =~= before);
    let session_name = match parse_command(args) {
        Ok(CliCommand::Help) => return Ok(Some(HELP_TEXT.to_owned())),
        Ok(CliCommand::CreateSession(session_name)) => session_name,
        Err(error) => return Err(Stop::Failed(error)),
    };
    let ghost env = tmux_env.deep_view();
    let ghost absence = absence_talk(session_name@, before.unheard());
    let ghost checked = before.after(absence.answered);
    let ghost creation = creation_talk(session_name@, checked.unheard());
    let ghost created = checked.after(creation.answered);
    let ghost attempt = entering_talk(session_name@, env, created.unheard());
    let ghost entering = guarded_talk(session_name@, attempt, created.unheard());
    proof {
        lemma_unheard_after(before, absence.answered);
        lemma_creation_bound(session_name@, checked.unheard());
        lemma_unheard_after(checked, creation.answered);
        lemma_guarded_after(session_name@, created, attempt);
        assert(before.after(absence.answered + creation.answered) =~= created);
        assert(before.after(absence.answered + (creation.answered + entering.answered))
            =~= created.after(entering.answered));
        let session = session_talk(session_name@, env, before.unheard());
        assert(session.answered + seq![] =~= session.answered);
    }
    ensure_session_absent(tmux, session_name.as_str())?;
    create_session(tmux, session_name.as_str())?;
    let entered = enter_session(tmux, session_name.as_str(), tmux_env);
    roll_back_failure(tmux, session_name.as_str(), entered)?;
    Ok(None)
}

} // verus!
