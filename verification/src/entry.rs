//! Entering a session.

use vstd::prelude::*;
use crate::script::lemma_unheard_after;
use crate::text::printed;
use crate::tmux::{
    captured, checked, request, run_tmux_checked_with_options, run_tmux_output, single, texts,
    tmux_client_context_evidence, Conversation, Stop, Talk, TmuxEnvPolicy, TmuxReplyView,
    TmuxRequestView, TmuxStdioPolicy,
};

verus! {

/// How a session is entered.
#[derive(Debug, Clone, Copy, PartialEq, Eq, Structural)]
pub enum SessionEntryMode {
    /// The terminal is attached to the session.
    AttachSession,
    /// The tmux client that the terminal runs is switched to the session.
    SwitchClient,
}

/// The request by which tmux tells of its client.
pub open spec fn client_request() -> TmuxRequestView {
    captured(seq!["display-message"@, "-p"@, "#{client_pid}"@])
}

/// Whether a reply to that request names a client.
pub open spec fn names_client(reply: TmuxReplyView) -> bool {
    reply matches Ok(output) && output.success && printed(output.stdout).len() > 0
}

/// The part of a conversation that finds out whether there is a client.
pub open spec fn client_talk(unheard: Seq<TmuxReplyView>) -> Talk<bool> {
    single(client_request(), unheard, |reply: TmuxReplyView| Ok(names_client(reply)))
}

/// Whether the terminal runs a tmux client: `TMUX` is set to something, and tmux
/// names a client.
pub open spec fn inside_client(tmux_env: Option<Seq<char>>, client: bool) -> bool {
    (tmux_env matches Some(value) && value.len() > 0) && client
}

impl SessionEntryMode {
    /// Inside a client that client is switched, elsewhere the terminal is attached.
    pub open spec fn fitting(tmux_env: Option<Seq<char>>, client: bool) -> SessionEntryMode {
        if inside_client(tmux_env, client) {
            SessionEntryMode::SwitchClient
        } else {
            SessionEntryMode::AttachSession
        }
    }

    /// The request that enters a session. It talks to the terminal. To attach,
    /// tmux must not know of a tmux around it.
    pub open spec fn entry_request(self, session_name: Seq<char>) -> TmuxRequestView {
        match self {
            SessionEntryMode::AttachSession => request(
                seq!["attach-session"@, "-t"@, session_name],
                TmuxEnvPolicy::ClearTmux,
                TmuxStdioPolicy::Inherit,
            ),
            SessionEntryMode::SwitchClient => request(
                seq!["switch-client"@, "-t"@, session_name],
                TmuxEnvPolicy::Preserve,
                TmuxStdioPolicy::Inherit,
            ),
        }
    }

    /// The action of which entering a session is spoken.
    pub open spec fn entering(self) -> Seq<char> {
        match self {
            SessionEntryMode::AttachSession => "attach to the tmux session"@,
            SessionEntryMode::SwitchClient => "switch the active tmux client to the session"@,
        }
    }

    /// The part of a conversation that enters a session in this mode.
    pub open spec fn entry_talk(
        self,
        session_name: Seq<char>,
        unheard: Seq<TmuxReplyView>,
    ) -> Talk<()> {
        single(
            self.entry_request(session_name),
            unheard,
            |reply: TmuxReplyView| checked(reply, self.entering(), TmuxStdioPolicy::Inherit),
        )
    }

    /// The part of a conversation that finds the mode that fits.
    pub open spec fn detection_talk(
        tmux_env: Option<Seq<char>>,
        unheard: Seq<TmuxReplyView>,
    ) -> Talk<SessionEntryMode> {
        single(
            client_request(),
            unheard,
            |reply: TmuxReplyView| Ok(SessionEntryMode::fitting(tmux_env, names_client(reply))),
        )
    }
}

impl DeepView for SessionEntryMode {
    type V = SessionEntryMode;

    open spec fn deep_view(&self) -> SessionEntryMode {
        *self
    }
}

/// The part of a conversation that enters a session in the mode that fits.
pub open spec fn entering_talk(
    session_name: Seq<char>,
    tmux_env: Option<Seq<char>>,
    unheard: Seq<TmuxReplyView>,
) -> Talk<()> {
    let detection = SessionEntryMode::detection_talk(tmux_env, unheard);
    let mode = SessionEntryMode::fitting(tmux_env, names_client(unheard[0]));
    detection.followed_by(mode.entry_talk(session_name, unheard.skip(1)))
}

/// Whether there is a tmux client. Where tmux cannot tell, there is none.
pub fn has_active_tmux_client_context(tmux: &mut Conversation) -> (res: Result<bool, Stop>)
    ensures
        client_talk(old(tmux)@.unheard()).took_place(old(tmux)@, final(tmux)@, res),
{
    let args = ["display-message", "-p", "#{client_pid}"];
    assert(texts(args@) =~= seq!["display-message"@, "-p"@, "#{client_pid}"@]);
    match run_tmux_output(tmux, args, "detect an active tmux client context") {
        Ok(output) => Ok(output.status.success && tmux_client_context_evidence(&output.stdout)),
        Err(Stop::Waiting(request)) => Err(Stop::Waiting(request)),
        Err(Stop::Failed(_)) => Ok(false),
    }
}

impl SessionEntryMode {
    /// The mode that fits. `tmux_env` is the value of `TMUX`.
    pub fn detect(tmux: &mut Conversation, tmux_env: Option<&str>) -> (res: Result<
        SessionEntryMode,
        Stop,
    >)
        ensures
            SessionEntryMode::detection_talk(
                tmux_env.deep_view(),
                old(tmux)@.unheard(),
            ).took_place(old(tmux)@, final(tmux)@, res),
    {
        let client = has_active_tmux_client_context(tmux)?;
        Ok(SessionEntryMode::from_tmux_context(tmux_env, client))
    }

    /// The mode that fits, where it is known whether there is a client.
    pub fn from_tmux_context(tmux_env: Option<&str>, has_active_client_context: bool) -> (res:
        SessionEntryMode)
        ensures
            res == SessionEntryMode::fitting(tmux_env.deep_view(), has_active_client_context),
    {
        let inside = match tmux_env {
            Some(value) => !value.is_empty(),
            None => false,
        };
        if inside && has_active_client_context {
            SessionEntryMode::SwitchClient
        } else {
            SessionEntryMode::AttachSession
        }
    }

    /// What the command that enters a session sees of a tmux around it.
    pub fn tmux_env_policy(self) -> (res: TmuxEnvPolicy)
        ensures
            res == match self {
                SessionEntryMode::AttachSession => TmuxEnvPolicy::ClearTmux,
                SessionEntryMode::SwitchClient => TmuxEnvPolicy::Preserve,
            },
    {
        match self {
            SessionEntryMode::AttachSession => TmuxEnvPolicy::ClearTmux,
            SessionEntryMode::SwitchClient => TmuxEnvPolicy::Preserve,
        }
    }

    /// The command that enters a session talks to the terminal.
    pub fn stdio_policy(self) -> (res: TmuxStdioPolicy)
        ensures
            res == TmuxStdioPolicy::Inherit,
    {
        TmuxStdioPolicy::Inherit
    }

    /// Enters a session in this mode.
    pub fn enter(self, tmux: &mut Conversation, session_name: &str) -> (res: Result<(), Stop>)
        ensures
            self.entry_talk(session_name@, old(tmux)@.unheard()).took_place(
                old(tmux)@,
                final(tmux)@,
                res,
            ),
    {
        let args = match self {
            SessionEntryMode::AttachSession => ["attach-session", "-t", session_name],
            SessionEntryMode::SwitchClient => ["switch-client", "-t", session_name],
        };
        assert(texts(args@) =~= match self {
            SessionEntryMode::AttachSession => seq!["attach-session"@, "-t"@, session_name@],
            SessionEntryMode::SwitchClient => seq!["switch-client"@, "-t"@, session_name@],
        });
        let action = match self {
            SessionEntryMode::AttachSession => "attach to the tmux session",
            SessionEntryMode::SwitchClient => "switch the active tmux client to the session",
        };
        run_tmux_checked_with_options(
            tmux,
            args,
            action,
            self.tmux_env_policy(),
            self.stdio_policy(),
        )
    }
}

/// Enters a session in the mode that fits. `tmux_env` is the value of `TMUX`.
pub fn enter_session(
    tmux: &mut Conversation,
    session_name: &str,
    tmux_env: Option<&str>,
) -> (res: Result<(), Stop>)
    ensures
        entering_talk(session_name@, tmux_env.deep_view(), old(tmux)@.unheard()).took_place(
            old(tmux)@,
            final(tmux)@,
            res,
        ),
{
    let ghost before = tmux@;
    let ghost detection = SessionEntryMode::detection_talk(tmux_env.deep_view(), before.unheard());
    let mode = SessionEntryMode::detect(tmux, tmux_env)?;
    proof {
        lemma_unheard_after(before, detection.answered);
        let talk = mode.entry_talk(session_name@, tmux@.unheard());
        assert(before.after(detection.answered + talk.answered) =~= tmux@.after(talk.answered));
    }
    mode.enter(tmux, session_name)
}

} // verus!
