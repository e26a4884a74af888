use std::cell::{Cell, RefCell};

use tmux_session_bootstrap::{
    parse_command, parse_tmux_identifier, rollback_session_creation, run,
    session_creation_rollback_error, tmux_client_context_evidence, CliCommand, CliError,
    Conversation, SessionEntryMode, TmuxEnvPolicy, TmuxStdioPolicy, HELP_TEXT, WINDOW_NAMES,
};

#[test]
fn parse_command_requires_an_argument() {
    assert_eq!(parse_command(&["ts"]), Err(CliError::MissingSessionName));
}

#[test]
fn parse_command_rejects_empty_values() {
    assert_eq!(
        parse_command(&["ts", "   "]),
        Err(CliError::EmptySessionName)
    );
}

#[test]
fn parse_command_rejects_extra_arguments() {
    assert_eq!(
        parse_command(&["ts", "demo", "extra"]),
        Err(CliError::TooManyArguments)
    );
}

#[test]
fn parse_command_trims_surrounding_whitespace() {
    assert_eq!(
        parse_command(&["ts", "  demo  "]),
        Ok(CliCommand::CreateSession("demo".to_owned()))
    );
}

#[test]
fn parse_command_supports_long_help_flag() {
    assert_eq!(parse_command(&["ts", "--help"]), Ok(CliCommand::Help));
}

#[test]
fn parse_command_supports_short_help_flag() {
    assert_eq!(parse_command(&["ts", "-h"]), Ok(CliCommand::Help));
}

#[test]
fn run_returns_help_text_for_long_help_flag() {
    assert_eq!(
        run(&mut Conversation::new(), &["ts", "--help"], None),
        Ok(Some(HELP_TEXT.to_owned()))
    );
}

#[test]
fn run_returns_help_text_for_short_help_flag() {
    assert_eq!(
        run(&mut Conversation::new(), &["ts", "-h"], None),
        Ok(Some(HELP_TEXT.to_owned()))
    );
}

#[test]
fn help_text_matches_cli_contract() {
    assert_eq!(
        HELP_TEXT,
        "Usage: ts <session-name>\n\nOptions:\n  -h, --help  Show this help and exit"
    );
}

#[test]
fn window_names_match_cli_contract() {
    assert_eq!(WINDOW_NAMES, ["agent", "vim", "terminal"]);
}

#[test]
fn session_entry_mode_uses_attach_session_outside_tmux() {
    assert_eq!(
        SessionEntryMode::from_tmux_context(None, false),
        SessionEntryMode::AttachSession
    );
}

#[test]
fn session_entry_mode_uses_attach_session_for_empty_tmux_env() {
    assert_eq!(
        SessionEntryMode::from_tmux_context(Some(""), true),
        SessionEntryMode::AttachSession
    );
}

#[test]
fn session_entry_mode_uses_attach_session_for_stale_tmux_env_without_client_context() {
    assert_eq!(
        SessionEntryMode::from_tmux_context(Some("/tmp/tmux-1000/default,123,0"), false),
        SessionEntryMode::AttachSession
    );
}

#[test]
fn session_entry_mode_uses_switch_client_only_with_live_client_context() {
    assert_eq!(
        SessionEntryMode::from_tmux_context(Some("/tmp/tmux-1000/default,123,0"), true),
        SessionEntryMode::SwitchClient
    );
}

#[test]
fn attach_session_entry_clears_tmux_env_and_inherits_stdio() {
    let entry_mode = SessionEntryMode::AttachSession;

    assert_eq!(entry_mode.tmux_env_policy(), TmuxEnvPolicy::ClearTmux);
    assert_eq!(entry_mode.stdio_policy(), TmuxStdioPolicy::Inherit);
}

#[test]
fn switch_client_entry_preserves_tmux_env_and_inherits_stdio() {
    let entry_mode = SessionEntryMode::SwitchClient;

    assert_eq!(entry_mode.tmux_env_policy(), TmuxEnvPolicy::Preserve);
    assert_eq!(entry_mode.stdio_policy(), TmuxStdioPolicy::Inherit);
}

#[test]
fn tmux_client_context_evidence_rejects_empty_output() {
    assert!(!tmux_client_context_evidence(b"\n"));
}

#[test]
fn tmux_client_context_evidence_accepts_non_empty_output() {
    assert!(tmux_client_context_evidence(b"4242\n"));
}

#[test]
fn parse_tmux_identifier_trims_newlines() {
    assert_eq!(
        parse_tmux_identifier(b"@42\n", "read tmux identifier"),
        Ok("@42".to_owned())
    );
}

#[test]
fn parse_tmux_identifier_rejects_empty_output() {
    assert_eq!(
        parse_tmux_identifier(b"\n", "read tmux identifier"),
        Err(CliError::TmuxCommandFailed {
            action: "read tmux identifier",
            details: "tmux exited successfully without returning the expected identifier"
                .to_owned(),
        })
    );
}

#[test]
fn rollback_session_creation_skips_cleanup_after_success() {
    let cleanup_called = Cell::new(false);

    let result = rollback_session_creation("demo", Ok(()), |_| {
        cleanup_called.set(true);
        Ok(())
    });

    assert_eq!(result, Ok(()));
    assert!(!cleanup_called.get());
}

#[test]
fn rollback_session_creation_returns_original_error_after_successful_cleanup() {
    let cleanup_session_name = RefCell::new(None);
    let setup_error = CliError::TmuxCommandFailed {
        action: "rename a tmux window",
        details: "rename failed".to_owned(),
    };

    let result =
        rollback_session_creation::<(), _>("demo", Err(setup_error.clone()), |session_name| {
            cleanup_session_name.replace(Some(session_name.to_owned()));
            Ok(())
        });

    assert_eq!(result, Err(setup_error));
    assert_eq!(cleanup_session_name.into_inner(), Some("demo".to_owned()));
}

#[test]
fn rollback_session_creation_reports_cleanup_failure_with_original_context() {
    let setup_error = CliError::TmuxCommandFailed {
        action: "create tmux windows",
        details: "new-window failed".to_owned(),
    };
    let cleanup_error = CliError::TmuxCommandFailed {
        action: "clean up the partially created tmux session",
        details: "kill-session failed".to_owned(),
    };

    let result = rollback_session_creation::<(), _>("demo", Err(setup_error.clone()), |_| {
        Err(cleanup_error.clone())
    });

    assert_eq!(
        result,
        Err(session_creation_rollback_error(setup_error, cleanup_error))
    );
}
