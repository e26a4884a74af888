//! The decisions of `ts`, a small helper that creates and enters a predictable
//! tmux workspace.
//!
//! The library starts no process. It holds a [`Conversation`] with tmux: a
//! function makes its requests one by one and decides by the replies. Where the
//! reply to a request is not there yet, the function stops and hands the request
//! out ([`Stop::Waiting`]). The caller runs it, records the reply
//! ([`Conversation::record`]) and calls [`run`] again, which says the same as
//! before and goes on from there.

pub mod calls;
pub mod cli;
pub mod entry;
pub mod error;
pub mod laws;
pub mod resume;
pub mod run;
pub mod script;
pub mod session;
pub mod text;
pub mod tmux;

pub use crate::cli::{parse_command, CliCommand, HELP_TEXT};
pub use crate::entry::{enter_session, has_active_tmux_client_context, SessionEntryMode};
pub use crate::error::{CliError, USAGE};
pub use crate::run::run;
pub use crate::session::{
    cleanup_session, configure_window, create_session, ensure_session_absent,
    rollback_session_creation, session_creation_rollback_error, WINDOW_NAMES,
};
pub use crate::tmux::{
    format_tmux_output, format_tmux_status, map_tmux_io_error, parse_tmux_identifier,
    run_tmux_checked, run_tmux_checked_with_options, run_tmux_identifier, run_tmux_output,
    run_tmux_output_with_env, run_tmux_status_with_env, tmux_client_context_evidence,
    tmux_command, Conversation, Stop, TmuxCommand, TmuxEnvPolicy, TmuxIoError, TmuxIoErrorKind,
    TmuxOutput, TmuxReply, TmuxRequest, TmuxStatus, TmuxStdioPolicy,
};
