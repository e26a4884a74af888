use tmux_session_bootstrap::{
    cleanup_session, configure_window, create_session, ensure_session_absent, enter_session,
    format_tmux_output, format_tmux_status, has_active_tmux_client_context, map_tmux_io_error,
    parse_command, parse_tmux_identifier, run, run_tmux_checked, run_tmux_checked_with_options,
    run_tmux_identifier, run_tmux_output, run_tmux_output_with_env, run_tmux_status_with_env,
    session_creation_rollback_error, tmux_client_context_evidence, tmux_command, CliCommand,
    CliError, Conversation, SessionEntryMode, Stop, TmuxCommand, TmuxEnvPolicy, TmuxIoError,
    TmuxIoErrorKind, TmuxOutput, TmuxReply, TmuxRequest, TmuxStatus, TmuxStdioPolicy, USAGE,
};

fn reply(success: bool, stdout: &[u8], stderr: &[u8]) -> TmuxReply {
    Ok(TmuxOutput {
        status: TmuxStatus {
            success,
            description: if success { "exit status: 0" } else { "exit status: 1" }.to_owned(),
        },
        stdout: stdout.to_vec(),
        stderr: stderr.to_vec(),
    })
}

fn good(stdout: &str) -> TmuxReply {
    reply(true, stdout.as_bytes(), b"")
}

fn bad(stderr: &str) -> TmuxReply {
    reply(false, b"", stderr.as_bytes())
}

fn not_found() -> TmuxReply {
    Err(TmuxIoError {
        kind: TmuxIoErrorKind::NotFound,
        description: "no such file".to_owned(),
    })
}

fn denied() -> TmuxReply {
    Err(TmuxIoError {
        kind: TmuxIoErrorKind::Other,
        description: "permission denied".to_owned(),
    })
}

fn failed(action: &'static str, details: &str) -> CliError {
    CliError::TmuxCommandFailed {
        action,
        details: details.to_owned(),
    }
}

fn heard(replies: Vec<TmuxReply>) -> Conversation {
    let mut tmux = Conversation::new();
    for reply in replies {
        tmux.record(reply);
    }
    tmux
}

fn lines(tmux: &Conversation) -> Vec<String> {
    tmux.answered().iter().map(|request| request.command.args.join(" ")).collect()
}

/// A tmux that has no session and does what it is asked to.
fn willing(request: &TmuxRequest, windows: &mut usize) -> TmuxReply {
    match request.command.args[0].as_str() {
        "has-session" => bad("can't find session"),
        "new-session" | "new-window" => {
            *windows += 1;
            good(&format!("@{}\n", *windows))
        }
        "display-message" => good("4242\n"),
        _ => good(""),
    }
}

/// Runs `ts` against `tmux` to its end. Gives the result and the requests.
fn converse<F: FnMut(usize, &TmuxRequest) -> TmuxReply>(
    args: &[&str],
    tmux_env: Option<&str>,
    mut tmux: F,
) -> (Result<Option<String>, CliError>, Vec<TmuxRequest>) {
    let mut conversation = Conversation::new();
    let mut requests: Vec<TmuxRequest> = Vec::new();
    loop {
        let result = run(&mut conversation, args, tmux_env);
        assert_eq!(conversation.answered(), &requests);
        match result {
            Ok(message) => return (Ok(message), requests),
            Err(Stop::Failed(error)) => return (Err(error), requests),
            Err(Stop::Waiting(request)) => {
                conversation.record(tmux(requests.len(), &request));
                requests.push(request);
            }
        }
    }
}

fn words(requests: &[TmuxRequest]) -> Vec<String> {
    requests.iter().map(|request| request.command.args.join(" ")).collect()
}

const WORKSPACE: [&str; 14] = [
    "has-session -t demo",
    "new-session -dP -F #{window_id} -s demo",
    "rename-window -t @1 agent",
    "set-window-option -t @1 automatic-rename off",
    "set-window-option -t @1 allow-rename off",
    "new-window -dP -F #{window_id} -t demo:",
    "rename-window -t @2 vim",
    "set-window-option -t @2 automatic-rename off",
    "set-window-option -t @2 allow-rename off",
    "new-window -dP -F #{window_id} -t demo:",
    "rename-window -t @3 terminal",
    "set-window-option -t @3 automatic-rename off",
    "set-window-option -t @3 allow-rename off",
    "select-window -t @1",
];

// Whole runs

#[test]
fn a_workspace_is_made_and_the_terminal_attached() {
    let mut windows = 0;
    let (result, requests) =
        converse(&["ts", " demo "], None, |_, request| willing(request, &mut windows));
    assert_eq!(result, Ok(None));
    let mut expected: Vec<String> = WORKSPACE.iter().map(|line| line.to_string()).collect();
    expected.push("display-message -p #{client_pid}".to_owned());
    expected.push("attach-session -t demo".to_owned());
    assert_eq!(words(&requests), expected);
    for request in &requests[..15] {
        assert_eq!(request.command.program, "tmux");
        assert!(request.command.removed_env.is_empty());
        assert_eq!(request.stdio_policy, TmuxStdioPolicy::Capture);
    }
    assert_eq!(requests[15].command.removed_env, vec!["TMUX", "TMUX_PANE"]);
    assert_eq!(requests[15].stdio_policy, TmuxStdioPolicy::Inherit);
}

#[test]
fn inside_a_client_the_client_is_switched() {
    let mut windows = 0;
    let (result, requests) = converse(&["ts", "demo"], Some("/tmp/tmux"), |_, request| {
        willing(request, &mut windows)
    });
    assert_eq!(result, Ok(None));
    assert_eq!(requests.len(), 16);
    assert_eq!(requests[15].command.args, vec!["switch-client", "-t", "demo"]);
    assert!(requests[15].command.removed_env.is_empty());
    assert_eq!(requests[15].stdio_policy, TmuxStdioPolicy::Inherit);
}

#[test]
fn an_existing_session_is_left_alone() {
    let (result, requests) = converse(&["ts", "demo"], None, |_, _| good(""));
    assert_eq!(result, Err(CliError::SessionAlreadyExists("demo".to_owned())));
    assert_eq!(words(&requests), vec!["has-session -t demo"]);
}

#[test]
fn without_tmux_the_first_request_ends_the_run() {
    let (result, requests) = converse(&["ts", "demo"], None, |_, _| not_found());
    assert_eq!(result, Err(CliError::TmuxUnavailable));
    assert_eq!(words(&requests), vec!["has-session -t demo"]);
}

#[test]
fn a_session_that_was_not_created_is_not_removed() {
    let (result, requests) =
        converse(&["ts", "demo"], None, |_, _| reply(false, b"", b" duplicate session \n"));
    assert_eq!(
        result,
        Err(failed("create the detached tmux session", "duplicate session"))
    );
    assert_eq!(words(&requests), &WORKSPACE[..2]);
}

#[test]
fn any_failure_after_creation_removes_the_session() {
    for fault in 2..16 {
        if fault == 14 {
            continue;
        }
        let mut windows = 0;
        let (result, requests) = converse(&["ts", "demo"], None, |i, request| {
            if i == fault {
                bad("no")
            } else {
                willing(request, &mut windows)
            }
        });
        let error = match fault {
            5 | 9 => failed("create tmux windows", "no"),
            2 | 6 | 10 => failed("rename a tmux window", "no"),
            13 => failed("select the starting tmux window", "no"),
            15 => failed("attach to the tmux session", "exit status: 1"),
            _ => failed("disable tmux window auto-renaming", "no"),
        };
        assert_eq!(result, Err(error));
        assert_eq!(requests.len(), fault + 2);
        assert_eq!(words(&requests)[fault + 1], "kill-session -t demo");
    }
}

#[test]
fn a_created_session_without_an_identifier_is_removed() {
    let (result, requests) = converse(&["ts", "demo"], None, |i, _| match i {
        0 => bad(""),
        1 => good(" \n"),
        _ => good(""),
    });
    assert_eq!(
        result,
        Err(failed(
            "create the detached tmux session",
            "tmux exited successfully without returning the expected identifier"
        ))
    );
    assert_eq!(
        words(&requests),
        vec![WORKSPACE[0], WORKSPACE[1], "kill-session -t demo"]
    );
}

#[test]
fn a_failed_cleanup_is_reported_with_the_failure() {
    let mut windows = 0;
    let (result, requests) = converse(&["ts", "demo"], None, |i, request| match i {
        2 => bad("no rename"),
        3 => bad("no kill"),
        _ => willing(request, &mut windows),
    });
    assert_eq!(
        result,
        Err(failed(
            "clean up the partially created tmux session",
            "session setup failed: error: failed to rename a tmux window: no rename; \
             cleanup failed: error: failed to clean up the partially created tmux session: no kill"
        ))
    );
    assert_eq!(requests.len(), 4);
}

#[test]
fn the_longest_run_makes_seventeen_requests() {
    let mut windows = 0;
    let (result, requests) = converse(&["ts", "demo"], None, |i, request| {
        if i >= 15 {
            denied()
        } else {
            willing(request, &mut windows)
        }
    });
    assert!(result.is_err());
    assert_eq!(requests.len(), 17);
}

#[test]
fn a_client_that_tmux_cannot_name_is_none() {
    for silence in [bad("no server"), good(" \n"), not_found(), denied()] {
        let mut windows = 0;
        let mut silence = Some(silence);
        let (result, requests) = converse(&["ts", "demo"], Some("/tmp/tmux"), |i, request| {
            if i == 14 {
                silence.take().unwrap()
            } else {
                willing(request, &mut windows)
            }
        });
        assert_eq!(result, Ok(None));
        assert_eq!(words(&requests)[15], "attach-session -t demo");
    }
}

#[test]
fn wrong_command_lines_ask_nothing() {
    for (args, error) in [
        (vec![], CliError::MissingSessionName),
        (vec!["ts"], CliError::MissingSessionName),
        (vec!["ts", "\t\n"], CliError::EmptySessionName),
        (vec!["ts", "-h", "--help"], CliError::TooManyArguments),
    ] {
        let (result, requests) = converse(&args, None, |_, _| good(""));
        assert_eq!(result, Err(error));
        assert!(requests.is_empty());
    }
}

#[test]
fn a_run_that_is_over_ignores_further_replies() {
    let mut tmux = heard(vec![good(""), bad("x"), good("@1")]);
    assert_eq!(
        run(&mut tmux, &["ts", "demo"], None),
        Err(Stop::Failed(CliError::SessionAlreadyExists("demo".to_owned())))
    );
    assert_eq!(lines(&tmux), vec!["has-session -t demo"]);
}

// Parts

#[test]
fn a_request_without_a_reply_is_handed_out() {
    let mut tmux = Conversation::new();
    let expected = TmuxRequest {
        command: TmuxCommand {
            program: "tmux",
            args: vec!["has-session".to_owned(), "-t".to_owned(), "demo".to_owned()],
            removed_env: vec![],
        },
        stdio_policy: TmuxStdioPolicy::Capture,
    };
    assert_eq!(ensure_session_absent(&mut tmux, "demo"), Err(Stop::Waiting(expected)));
    assert!(tmux.answered().is_empty());
    tmux.record(bad(""));
    assert_eq!(ensure_session_absent(&mut tmux, "demo"), Ok(()));
    assert_eq!(lines(&tmux), vec!["has-session -t demo"]);
}

#[test]
fn absence_that_cannot_be_checked_is_an_error() {
    assert_eq!(
        ensure_session_absent(&mut heard(vec![denied()]), "demo"),
        Err(Stop::Failed(failed(
            "check whether the tmux session already exists",
            "permission denied"
        )))
    );
}

#[test]
fn creation_is_a_part_of_its_own() {
    let mut replies = vec![good("@1")];
    replies.extend((0..3).map(|_| good("")));
    for id in ["@2", "@3"] {
        replies.push(good(id));
        replies.extend((0..3).map(|_| good("")));
    }
    replies.push(good(""));
    let mut tmux = heard(replies);
    assert_eq!(create_session(&mut tmux, "demo"), Ok(()));
    assert_eq!(lines(&tmux), &WORKSPACE[1..]);
}

#[test]
fn a_window_is_configured_up_to_the_first_fault() {
    let mut tmux = heard(vec![good(""), good(""), good("")]);
    assert_eq!(configure_window(&mut tmux, "@7", "vim"), Ok(()));
    assert_eq!(
        lines(&tmux),
        vec![
            "rename-window -t @7 vim",
            "set-window-option -t @7 automatic-rename off",
            "set-window-option -t @7 allow-rename off",
        ]
    );
    let mut tmux = heard(vec![good(""), bad("no option"), good("")]);
    assert_eq!(
        configure_window(&mut tmux, "@7", "vim"),
        Err(Stop::Failed(failed("disable tmux window auto-renaming", "no option")))
    );
    assert_eq!(tmux.answered().len(), 2);
}

#[test]
fn a_session_is_cleaned_up() {
    let mut tmux = heard(vec![good("")]);
    assert_eq!(cleanup_session(&mut tmux, "demo"), Ok(()));
    assert_eq!(lines(&tmux), vec!["kill-session -t demo"]);
    assert_eq!(
        cleanup_session(&mut heard(vec![bad("gone")]), "demo"),
        Err(Stop::Failed(failed("clean up the partially created tmux session", "gone")))
    );
}

#[test]
fn entering_reports_the_status() {
    assert_eq!(
        enter_session(&mut heard(vec![good("7"), bad("ignored")]), "demo", Some("x")),
        Err(Stop::Failed(failed(
            "switch the active tmux client to the session",
            "exit status: 1"
        )))
    );
    assert_eq!(
        SessionEntryMode::AttachSession.enter(&mut heard(vec![denied()]), "demo"),
        Err(Stop::Failed(failed("attach to the tmux session", "permission denied")))
    );
    assert_eq!(
        SessionEntryMode::detect(&mut heard(vec![good("7")]), Some("x")),
        Ok(SessionEntryMode::SwitchClient)
    );
    assert_eq!(has_active_tmux_client_context(&mut heard(vec![good("7")])), Ok(true));
    assert_eq!(has_active_tmux_client_context(&mut heard(vec![not_found()])), Ok(false));
}

#[test]
fn commands_carry_their_environment() {
    let command = tmux_command(["attach-session", "-t", "demo"], TmuxEnvPolicy::ClearTmux);
    assert_eq!(command.program, "tmux");
    assert_eq!(command.args, vec!["attach-session", "-t", "demo"]);
    assert_eq!(command.removed_env, vec!["TMUX", "TMUX_PANE"]);
    assert!(tmux_command([], TmuxEnvPolicy::Preserve).removed_env.is_empty());
}

#[test]
fn outputs_are_handed_on_however_they_end() {
    let mut tmux = heard(vec![reply(false, b"out", b"err")]);
    let output = run_tmux_output(&mut tmux, ["x"], "try");
    assert_eq!(output.map(|output| output.stdout.clone()), Ok(b"out".to_vec()));
    let mut tmux = heard(vec![not_found()]);
    let output = run_tmux_output_with_env(&mut tmux, ["x"], "try", TmuxEnvPolicy::ClearTmux);
    assert_eq!(output, Err(Stop::Failed(CliError::TmuxUnavailable)));
    assert_eq!(tmux.answered()[0].command.removed_env, vec!["TMUX", "TMUX_PANE"]);
    let mut tmux = heard(vec![bad("")]);
    let status = run_tmux_status_with_env(&mut tmux, ["x"], "try", TmuxEnvPolicy::Preserve);
    assert_eq!(status.map(|status| status.success), Ok(false));
    assert_eq!(tmux.answered()[0].stdio_policy, TmuxStdioPolicy::Inherit);
}

#[test]
fn checked_commands_have_to_succeed() {
    assert_eq!(run_tmux_checked(&mut heard(vec![good("")]), ["x"], "try"), Ok(()));
    assert_eq!(
        run_tmux_checked(&mut heard(vec![reply(false, b"out", b"err")]), ["x"], "try"),
        Err(Stop::Failed(failed("try", "err; stdout: out")))
    );
    assert_eq!(
        run_tmux_checked_with_options(
            &mut heard(vec![reply(false, b"out", b"err")]),
            ["x"],
            "try",
            TmuxEnvPolicy::Preserve,
            TmuxStdioPolicy::Inherit,
        ),
        Err(Stop::Failed(failed("try", "exit status: 1")))
    );
}

#[test]
fn identifiers_have_to_be_printed() {
    assert_eq!(
        run_tmux_identifier(&mut heard(vec![good(" @5\n")]), ["x"], "try"),
        Ok("@5".to_owned())
    );
    assert_eq!(
        run_tmux_identifier(&mut heard(vec![good("\n")]), ["x"], "try"),
        Err(Stop::Failed(failed(
            "try",
            "tmux exited successfully without returning the expected identifier"
        )))
    );
    assert_eq!(
        run_tmux_identifier(&mut heard(vec![reply(false, b"@5", b"")]), ["x"], "try"),
        Err(Stop::Failed(failed("try", "@5")))
    );
    assert_eq!(
        run_tmux_identifier(&mut heard(vec![denied()]), ["x"], "try"),
        Err(Stop::Failed(failed("try", "permission denied")))
    );
}

#[test]
fn details_name_what_was_printed() {
    let details = |stdout: &[u8], stderr: &[u8]| {
        format_tmux_output(&reply(false, stdout, stderr).unwrap())
    };
    assert_eq!(details(b"", b" err\n"), "err");
    assert_eq!(details(b" out\n", b"\n"), "out");
    assert_eq!(details(b"out\n", b"err\n"), "err; stdout: out");
    assert_eq!(
        details(b" \n", b"\t"),
        "tmux exited with a non-zero status without additional output"
    );
    assert_eq!(
        format_tmux_status(&reply(false, b"", b"").unwrap().status),
        "exit status: 1"
    );
}

#[test]
fn commands_that_cannot_run_are_told_apart() {
    assert_eq!(
        map_tmux_io_error(&not_found().unwrap_err(), "try"),
        CliError::TmuxUnavailable
    );
    assert_eq!(
        map_tmux_io_error(&denied().unwrap_err(), "try"),
        failed("try", "permission denied")
    );
}

// Errors

#[test]
fn errors_have_messages_and_exit_codes() {
    for (error, message, code) in [
        (
            CliError::MissingSessionName,
            "error: missing session name\nUsage: ts <session-name>",
            2,
        ),
        (
            CliError::EmptySessionName,
            "error: session name cannot be empty\nUsage: ts <session-name>",
            2,
        ),
        (
            CliError::TooManyArguments,
            "error: expected exactly one session name\nUsage: ts <session-name>",
            2,
        ),
        (
            CliError::TmuxUnavailable,
            "error: tmux is not installed or not available in PATH",
            127,
        ),
        (
            CliError::SessionAlreadyExists("demo".to_owned()),
            "error: tmux session 'demo' already exists",
            1,
        ),
        (failed("try", "it broke"), "error: failed to try: it broke", 1),
    ] {
        assert_eq!(error.to_string(), message);
        assert_eq!(error.exit_code(), code);
    }
    assert_eq!(USAGE, "Usage: ts <session-name>");
}

#[test]
fn a_rollback_error_holds_both_messages() {
    assert_eq!(
        session_creation_rollback_error(failed("try", "a"), CliError::TmuxUnavailable),
        failed(
            "clean up the partially created tmux session",
            "session setup failed: error: failed to try: a; cleanup failed: \
             error: tmux is not installed or not available in PATH"
        )
    );
}

// Text

#[test]
fn the_argument_is_trimmed_and_nothing_else_changes_it() {
    assert_eq!(
        parse_command(&["anything", "\u{3000}my project\u{85}\n"]),
        Ok(CliCommand::CreateSession("my project".to_owned()))
    );
    assert_eq!(parse_command(&["ts", " -h "]), Ok(CliCommand::Help));
    assert_eq!(
        parse_command(&["ts", "-help"]),
        Ok(CliCommand::CreateSession("-help".to_owned()))
    );
}

#[test]
fn trimming_drops_white_space_and_no_other_character() {
    let white_space = |c: char| {
        matches!(
            c,
            '\u{9}'..='\u{D}'
                | ' '
                | '\u{85}'
                | '\u{A0}'
                | '\u{1680}'
                | '\u{2000}'..='\u{200A}'
                | '\u{2028}'
                | '\u{2029}'
                | '\u{202F}'
                | '\u{205F}'
                | '\u{3000}'
        )
    };
    for c in '\0'..=char::MAX {
        let text = c.to_string();
        assert_eq!(tmux_client_context_evidence(text.as_bytes()), !white_space(c));
    }
}

#[test]
fn bytes_that_are_no_text_are_replaced() {
    assert_eq!(
        parse_tmux_identifier(b" a\xFFb\n", "try"),
        Ok("a\u{FFFD}b".to_owned())
    );
    assert!(tmux_client_context_evidence(b" \xC3 "));
    assert_eq!(
        parse_tmux_identifier("\u{A0}gr\u{FC}n\n".as_bytes(), "try"),
        Ok("gr\u{FC}n".to_owned())
    );
}
