//! The conversation with tmux: commands, requests, replies, and what a reply
//! means.

use vstd::prelude::*;
use vstd::utf8::valid_utf8;
use crate::error::{CliError, CliErrorView};
use crate::text::{printed, printed_text};

verus! {

/// What a tmux command sees of the tmux that `ts` itself may run in.
#[derive(Debug, Clone, Copy, PartialEq, Eq, Structural)]
pub enum TmuxEnvPolicy {
    /// The environment is handed on as it is.
    Preserve,
    /// The variables by which tmux knows that it is nested are taken out.
    ClearTmux,
}

/// What becomes of the standard streams of a tmux command.
#[derive(Debug, Clone, Copy, PartialEq, Eq, Structural)]
pub enum TmuxStdioPolicy {
    /// What the command prints is collected.
    Capture,
    /// The command talks to the terminal.
    Inherit,
}

/// A command line, ready to be started.
#[derive(Debug, Clone, PartialEq, Eq)]
pub struct TmuxCommand {
    pub program: &'static str,
    pub args: Vec<String>,
    /// The environment variables that the command must not see.
    pub removed_env: Vec<&'static str>,
}

/// The contents of a [`TmuxCommand`].
#[verifier::ext_equal]
pub ghost struct TmuxCommandView {
    pub program: Seq<char>,
    pub args: Seq<Seq<char>>,
    pub removed_env: Seq<Seq<char>>,
}

impl View for TmuxCommand {
    type V = TmuxCommandView;

    open spec fn view(&self) -> TmuxCommandView {
        TmuxCommandView {
            program: self.program@,
            args: self.args@.map_values(|arg: String| arg@),
            removed_env: texts(self.removed_env@),
        }
    }
}

/// A command that is to be run.
#[derive(Debug, Clone, PartialEq, Eq)]
pub struct TmuxRequest {
    pub command: TmuxCommand,
    pub stdio_policy: TmuxStdioPolicy,
}

/// The contents of a [`TmuxRequest`].
pub ghost struct TmuxRequestView {
    pub command: TmuxCommandView,
    pub stdio_policy: TmuxStdioPolicy,
}

impl View for TmuxRequest {
    type V = TmuxRequestView;

    open spec fn view(&self) -> TmuxRequestView {
        TmuxRequestView { command: self.command@, stdio_policy: self.stdio_policy }
    }
}

/// How a command ended.
#[derive(Debug, Clone, PartialEq, Eq)]
pub struct TmuxStatus {
    pub success: bool,
    /// The status as the system describes it.
    pub description: String,
}

impl DeepView for TmuxStatus {
    type V = (bool, Seq<char>);

    open spec fn deep_view(&self) -> (bool, Seq<char>) {
        (self.success, self.description@)
    }
}

/// How a command ended and what it printed, which is nothing where it talked
/// to the terminal.
#[derive(Debug, Clone, PartialEq, Eq)]
pub struct TmuxOutput {
    pub status: TmuxStatus,
    pub stdout: Vec<u8>,
    pub stderr: Vec<u8>,
}

/// The contents of a [`TmuxOutput`].
pub ghost struct TmuxOutputView {
    pub success: bool,
    pub description: Seq<char>,
    pub stdout: Seq<u8>,
    pub stderr: Seq<u8>,
}

impl DeepView for TmuxOutput {
    type V = TmuxOutputView;

    open spec fn deep_view(&self) -> TmuxOutputView {
        TmuxOutputView {
            success: self.status.success,
            description: self.status.description@,
            stdout: self.stdout@,
            stderr: self.stderr@,
        }
    }
}

/// Why a command could not be started.
#[derive(Debug, Clone, Copy, PartialEq, Eq, Structural)]
pub enum TmuxIoErrorKind {
    /// There is no such program.
    NotFound,
    /// Anything else.
    Other,
}

/// A command that could not be run.
#[derive(Debug, Clone, PartialEq, Eq)]
pub struct TmuxIoError {
    pub kind: TmuxIoErrorKind,
    /// The error as the system describes it.
    pub description: String,
}

/// The contents of a [`TmuxIoError`].
pub ghost struct TmuxIoErrorView {
    pub kind: TmuxIoErrorKind,
    pub description: Seq<char>,
}

impl View for TmuxIoError {
    type V = TmuxIoErrorView;

    open spec fn view(&self) -> TmuxIoErrorView {
        TmuxIoErrorView { kind: self.kind, description: self.description@ }
    }
}

/// What came of a request.
pub type TmuxReply = Result<TmuxOutput, TmuxIoError>;

/// The contents of a [`TmuxReply`].
pub type TmuxReplyView = Result<TmuxOutputView, TmuxIoErrorView>;

pub open spec fn reply_view(reply: TmuxReply) -> TmuxReplyView {
    match reply {
        Ok(output) => Ok(output.deep_view()),
        Err(error) => Err(error@),
    }
}

/// The contents of some strings.
pub open spec fn texts(strings: Seq<&str>) -> Seq<Seq<char>> {
    strings.map_values(|s: &str| s@)
}

// The conversation

/// A pass over a conversation with tmux. It holds the replies that tmux has
/// given so far and the requests that they answer. A request is answered by the
/// first reply that no earlier request of the pass has taken; where there is
/// none, the pass stops, waiting for it.
#[derive(Debug, PartialEq, Eq)]
pub struct Conversation {
    replies: Vec<TmuxReply>,
    answered: Vec<TmuxRequest>,
}

/// The contents of a [`Conversation`].
#[verifier::ext_equal]
pub ghost struct ConversationView {
    /// The replies so far, in order.
    pub replies: Seq<TmuxReplyView>,
    /// The requests of this pass that took one, in order.
    pub answered: Seq<TmuxRequestView>,
}

impl View for Conversation {
    type V = ConversationView;

    closed spec fn view(&self) -> ConversationView {
        ConversationView {
            replies: self.replies@.map_values(|reply: TmuxReply| reply_view(reply)),
            answered: self.answered@.map_values(|request: TmuxRequest| request@),
        }
    }
}

impl ConversationView {
    /// The replies that are left for the requests to come.
    pub open spec fn unheard(self) -> Seq<TmuxReplyView> {
        if self.answered.len() <= self.replies.len() {
            self.replies.skip(self.answered.len() as int)
        } else {
            seq![]
        }
    }

    /// The conversation when `requests` have been answered too.
    pub open spec fn after(self, requests: Seq<TmuxRequestView>) -> ConversationView {
        ConversationView { answered: self.answered + requests, ..self }
    }
}

/// Why a pass over a conversation ended before its time.
#[derive(Debug, Clone, PartialEq, Eq)]
pub enum Stop {
    /// The reply to this request is not there yet.
    Waiting(TmuxRequest),
    /// The command failed.
    Failed(CliError),
}

/// How a pass over a conversation ends.
pub ghost enum Outcome<T> {
    Waiting(TmuxRequestView),
    Done(Result<T, CliErrorView>),
}

/// The outcome that a result stands for.
pub open spec fn outcome<T: DeepView>(result: Result<T, Stop>) -> Outcome<T::V> {
    match result {
        Ok(value) => Outcome::Done(Ok(value.deep_view())),
        Err(Stop::Waiting(request)) => Outcome::Waiting(request@),
        Err(Stop::Failed(error)) => Outcome::Done(Err(error@)),
    }
}

/// A part of a conversation: the requests that were answered in it, and how it
/// ended.
pub ghost struct Talk<T> {
    pub answered: Seq<TmuxRequestView>,
    pub outcome: Outcome<T>,
}

/// The part of a conversation that is one request: `meaning` says what its reply
/// comes to.
pub open spec fn single<T>(
    request: TmuxRequestView,
    unheard: Seq<TmuxReplyView>,
    meaning: spec_fn(TmuxReplyView) -> Result<T, CliErrorView>,
) -> Talk<T> {
    if unheard.len() == 0 {
        Talk { answered: seq![], outcome: Outcome::Waiting(request) }
    } else {
        Talk { answered: seq![request], outcome: Outcome::Done(meaning(unheard[0])) }
    }
}

impl<T> Talk<T> {
    /// Whether this is what a function said to tmux, and how it ended, where it
    /// found the conversation in the state `before`, left it in the state `after`
    /// and returned `result`.
    pub open spec fn took_place<R: DeepView<V = T>>(
        self,
        before: ConversationView,
        after: ConversationView,
        result: Result<R, Stop>,
    ) -> bool {
        &&& after == before.after(self.answered)
        &&& outcome(result) == self.outcome
    }
}

impl Conversation {
    /// A conversation in which nothing has been said yet.
    pub fn new() -> (res: Conversation)
        ensures
            res@.replies == Seq::<TmuxReplyView>::empty(),
            res@.answered == Seq::<TmuxRequestView>::empty(),
    {
        Conversation { replies: Vec::new(), answered: Vec::new() }
    }

    /// Notes the reply that the last pass waited for, and goes back to the start
    /// for the next pass.
    pub fn record(&mut self, reply: TmuxReply)
        ensures
            final(self)@.replies == old(self)@.replies.push(reply_view(reply)),
            final(self)@.answered == Seq::<TmuxRequestView>::empty(),
    {
        self.replies.push(reply);
        self.answered = Vec::new();
    }

    /// The requests of this pass that were answered.
    pub fn answered(&self) -> (res: &Vec<TmuxRequest>)
        ensures
            res@.map_values(|request: TmuxRequest| request@) == self@.answered,
    {
        &self.answered
    }

    /// Makes a request: gives its reply, or stops to wait for it.
    fn ask(&mut self, request: TmuxRequest) -> (res: Result<&TmuxReply, Stop>)
        ensures
            old(self)@.unheard().len() == 0 ==> {
                &&& final(self)@ == old(self)@
                &&& res == Err::<&TmuxReply, Stop>(Stop::Waiting(request))
            },
            old(self)@.unheard().len() > 0 ==> {
                &&& final(self)@ == old(self)@.after(seq![request@])
                &&& res matches Ok(reply) && reply_view(*reply) == old(self)@.unheard()[0]
            },
    {
        let next: usize = self.answered.len();
        if next < self.replies.len() {
            self.answered.push(request);
            assert(self@ =~= old(self)@.after(seq![request@]));
            Ok(&self.replies[next])
        } else {
            Err(Stop::Waiting(request))
        }
    }
}

// Requests

/// The command line `tmux` with `args`.
pub open spec fn command(args: Seq<Seq<char>>, env_policy: TmuxEnvPolicy) -> TmuxCommandView {
    TmuxCommandView {
        program: "tmux"@,
        args,
        removed_env: match env_policy {
            TmuxEnvPolicy::Preserve => seq![],
            TmuxEnvPolicy::ClearTmux => seq!["TMUX"@, "TMUX_PANE"@],
        },
    }
}

/// The request to run `tmux` with `args`.
pub open spec fn request(
    args: Seq<Seq<char>>,
    env_policy: TmuxEnvPolicy,
    stdio_policy: TmuxStdioPolicy,
) -> TmuxRequestView {
    TmuxRequestView { command: command(args, env_policy), stdio_policy }
}

/// The request to run `tmux` with `args` in the environment as it is and to
/// collect what it prints.
pub open spec fn captured(args: Seq<Seq<char>>) -> TmuxRequestView {
    request(args, TmuxEnvPolicy::Preserve, TmuxStdioPolicy::Capture)
}

/// The command line `tmux` with `args`.
pub fn tmux_command<const N: usize>(args: [&str; N], env_policy: TmuxEnvPolicy) -> (res:
    TmuxCommand)
    ensures
        res@ == command(texts(args@), env_policy),
{
    let mut owned: Vec<String> = Vec::new();
    for i in 0..N
        invariant
            owned@.len() == i,
            forall|j: int| 0 <= j < i ==> (#[trigger] owned@[j])@ == args@[j]@,
    {
        owned.push(args[i].to_owned());
    }
    let mut removed_env: Vec<&'static str> = Vec::new();
    if matches!(env_policy, TmuxEnvPolicy::ClearTmux) {
        removed_env.push("TMUX");
        removed_env.push("TMUX_PANE");
    }
    let res = TmuxCommand { program: "tmux", args: owned, removed_env };
    assert(res@ =~= command(texts(args@), env_policy));
    res
}

// Replies

/// The error that stands for a command that could not be run.
pub open spec fn io_error(error: TmuxIoErrorView, action: Seq<char>) -> CliErrorView {
    match error.kind {
        TmuxIoErrorKind::NotFound => CliErrorView::TmuxUnavailable,
        TmuxIoErrorKind::Other => CliErrorView::TmuxCommandFailed {
            action,
            details: error.description,
        },
    }
}

/// What a captured command has to say about itself.
pub open spec fn output_details(output: TmuxOutputView) -> Seq<char> {
    let stderr = printed(output.stderr);
    let stdout = printed(output.stdout);
    if stderr.len() == 0 && stdout.len() == 0 {
        "tmux exited with a non-zero status without additional output"@
    } else if stderr.len() == 0 {
        stdout
    } else if stdout.len() == 0 {
        stderr
    } else {
        stderr + "; stdout: "@ + stdout
    }
}

/// The output of a command that was run, however it ended.
pub open spec fn output_of(reply: TmuxReplyView, action: Seq<char>) -> Result<
    TmuxOutputView,
    CliErrorView,
> {
    match reply {
        Ok(output) => Ok(output),
        Err(error) => Err(io_error(error, action)),
    }
}

/// Whether a command was run and succeeded, and what to say where it did not.
pub open spec fn checked(
    reply: TmuxReplyView,
    action: Seq<char>,
    stdio_policy: TmuxStdioPolicy,
) -> Result<(), CliErrorView> {
    match reply {
        Ok(output) => if output.success {
            Ok(())
        } else {
            Err(
                CliErrorView::TmuxCommandFailed {
                    action,
                    details: match stdio_policy {
                        TmuxStdioPolicy::Capture => output_details(output),
                        TmuxStdioPolicy::Inherit => output.description,
                    },
                },
            )
        },
        Err(error) => Err(io_error(error, action)),
    }
}

/// The identifier that a command printed.
pub open spec fn identifier(stdout: Seq<u8>, action: Seq<char>) -> Result<
    Seq<char>,
    CliErrorView,
> {
    if printed(stdout).len() > 0 {
        Ok(printed(stdout))
    } else {
        Err(
            CliErrorView::TmuxCommandFailed {
                action,
                details: "tmux exited successfully without returning the expected identifier"@,
            },
        )
    }
}

/// The identifier that a command printed where it was run and succeeded.
pub open spec fn identifier_of(reply: TmuxReplyView, action: Seq<char>) -> Result<
    Seq<char>,
    CliErrorView,
> {
    match checked(reply, action, TmuxStdioPolicy::Capture) {
        Ok(()) => identifier(reply->Ok_0.stdout, action),
        Err(error) => Err(error),
    }
}

/// The error that stands for a command that could not be run.
pub fn map_tmux_io_error(error: &TmuxIoError, action: &'static str) -> (res: CliError)
    ensures
        res@ == io_error(error@, action@),
{
    match error.kind {
        TmuxIoErrorKind::NotFound => CliError::TmuxUnavailable,
        TmuxIoErrorKind::Other => CliError::TmuxCommandFailed {
            action,
            details: error.description.clone(),
        },
    }
}

/// What a captured command has to say about itself.
pub fn format_tmux_output(output: &TmuxOutput) -> (res: String)
    ensures
        res@ == output_details(output.deep_view()),
{
    let stderr = printed_text(&output.stderr);
    let stdout = printed_text(&output.stdout);
    match (stderr.as_str().is_empty(), stdout.as_str().is_empty()) {
        (false, true) => stderr,
        (true, false) => stdout,
        (false, false) => stderr.concat("; stdout: ").concat(stdout.as_str()),
        (true, true) => "tmux exited with a non-zero status without additional output".to_owned(),
    }
}

/// What is known of a command that talked to the terminal.
pub fn format_tmux_status(status: &TmuxStatus) -> (res: String)
    ensures
        res@ == status.description@,
{
    status.description.clone()
}

/// The identifier that a command printed.
pub fn parse_tmux_identifier(stdout: &[u8], action: &'static str) -> (res: Result<
    String,
    CliError,
>)
    ensures
        match res {
            Ok(name) => identifier(stdout@, action@) == Ok::<Seq<char>, CliErrorView>(name@),
            Err(error) => identifier(stdout@, action@) == Err::<Seq<char>, CliErrorView>(error@),
        },
        !valid_utf8(stdout@) ==> res is Ok,
{
    let name = printed_text(stdout);
    if name.as_str().is_empty() {
        Err(
            CliError::TmuxCommandFailed {
                action,
                details: "tmux exited successfully without returning the expected identifier"
                    .to_owned(),
            },
        )
    } else {
        Ok(name)
    }
}

/// Whether what tmux printed names a client.
pub fn tmux_client_context_evidence(stdout: &[u8]) -> (res: bool)
    ensures
        res == (printed(stdout@).len() > 0),
        !valid_utf8(stdout@) ==> res,
{
    !printed_text(stdout).as_str().is_empty()
}

// Requests and their replies

/// Runs a command in the given environment and collects what it prints.
pub fn run_tmux_output_with_env<'a, const N: usize>(
    tmux: &'a mut Conversation,
    args: [&str; N],
    action: &'static str,
    env_policy: TmuxEnvPolicy,
) -> (res: Result<&'a TmuxOutput, Stop>)
    ensures
        single(
            request(texts(args@), env_policy, TmuxStdioPolicy::Capture),
            old(tmux)@.unheard(),
            |reply: TmuxReplyView| output_of(reply, action@),
        ).took_place(old(tmux)@, final(tmux)@, res),
{
    let request = TmuxRequest {
        command: tmux_command(args, env_policy),
        stdio_policy: TmuxStdioPolicy::Capture,
    };
    assert(old(tmux)@ =~= old(tmux)@.after(seq![]));
    match tmux.ask(request)? {
        Ok(output) => Ok(output),
        Err(error) => Err(Stop::Failed(map_tmux_io_error(error, action))),
    }
}

/// Runs a command in the given environment, at the terminal.
pub fn run_tmux_status_with_env<'a, const N: usize>(
    tmux: &'a mut Conversation,
    args: [&str; N],
    action: &'static str,
    env_policy: TmuxEnvPolicy,
) -> (res: Result<&'a TmuxStatus, Stop>)
    ensures
        single(
            request(texts(args@), env_policy, TmuxStdioPolicy::Inherit),
            old(tmux)@.unheard(),
            |reply: TmuxReplyView|
                match output_of(reply, action@) {
                    Ok(output) => Ok((output.success, output.description)),
                    Err(error) => Err(error),
                },
        ).took_place(old(tmux)@, final(tmux)@, res),
{
    let request = TmuxRequest {
        command: tmux_command(args, env_policy),
        stdio_policy: TmuxStdioPolicy::Inherit,
    };
    assert(old(tmux)@ =~= old(tmux)@.after(seq![]));
    match tmux.ask(request)? {
        Ok(output) => Ok(&output.status),
        Err(error) => Err(Stop::Failed(map_tmux_io_error(error, action))),
    }
}

/// Runs a command in the environment as it is and collects what it prints.
pub fn run_tmux_output<'a, const N: usize>(
    tmux: &'a mut Conversation,
    args: [&str; N],
    action: &'static str,
) -> (res: Result<&'a TmuxOutput, Stop>)
    ensures
        single(
            captured(texts(args@)),
            old(tmux)@.unheard(),
            |reply: TmuxReplyView| output_of(reply, action@),
        ).took_place(old(tmux)@, final(tmux)@, res),
{
    run_tmux_output_with_env(tmux, args, action, TmuxEnvPolicy::Preserve)
}

/// Runs a command that has to succeed.
pub fn run_tmux_checked_with_options<const N: usize>(
    tmux: &mut Conversation,
    args: [&str; N],
    action: &'static str,
    env_policy: TmuxEnvPolicy,
    stdio_policy: TmuxStdioPolicy,
) -> (res: Result<(), Stop>)
    ensures
        single(
            request(texts(args@), env_policy, stdio_policy),
            old(tmux)@.unheard(),
            |reply: TmuxReplyView| checked(reply, action@, stdio_policy),
        ).took_place(old(tmux)@, final(tmux)@, res),
{
    match stdio_policy {
        TmuxStdioPolicy::Capture => {
            let output = run_tmux_output_with_env(tmux, args, action, env_policy)?;
            if output.status.success {
                Ok(())
            } else {
                Err(
                    Stop::Failed(
                        CliError::TmuxCommandFailed { action, details: format_tmux_output(output) },
                    ),
                )
            }
        },
        TmuxStdioPolicy::Inherit => {
            let status = run_tmux_status_with_env(tmux, args, action, env_policy)?;
            if status.success {
                Ok(())
            } else {
                Err(
                    Stop::Failed(
                        CliError::TmuxCommandFailed { action, details: format_tmux_status(status) },
                    ),
                )
            }
        },
    }
}

/// Runs a command that has to succeed, in the environment as it is, and
/// collects what it prints.
pub fn run_tmux_checked<const N: usize>(
    tmux: &mut Conversation,
    args: [&str; N],
    action: &'static str,
) -> (res: Result<(), Stop>)
    ensures
        single(
            captured(texts(args@)),
            old(tmux)@.unheard(),
            |reply: TmuxReplyView| checked(reply, action@, TmuxStdioPolicy::Capture),
        ).took_place(old(tmux)@, final(tmux)@, res),
{
    run_tmux_checked_with_options(
        tmux,
        args,
        action,
        TmuxEnvPolicy::Preserve,
        TmuxStdioPolicy::Capture,
    )
}

/// Runs a command that has to succeed and to print an identifier.
pub fn run_tmux_identifier<const N: usize>(
    tmux: &mut Conversation,
    args: [&str; N],
    action: &'static str,
) -> (res: Result<String, Stop>)
    ensures
        single(
            captured(texts(args@)),
            old(tmux)@.unheard(),
            |reply: TmuxReplyView| identifier_of(reply, action@),
        ).took_place(old(tmux)@, final(tmux)@, res),
{
    let output = run_tmux_output_with_env(tmux, args, action, TmuxEnvPolicy::Preserve)?;
    if output.status.success {
        match parse_tmux_identifier(&output.stdout, action) {
            Ok(name) => Ok(name),
            Err(error) => Err(Stop::Failed(error)),
        }
    } else {
        Err(
            Stop::Failed(
                CliError::TmuxCommandFailed { action, details: format_tmux_output(output) },
            ),
        )
    }
}

// Laws

/// Strings are known by their contents, in order.
pub proof fn law_texts(strings: Seq<&str>)
    ensures
        texts(strings).len() == strings.len(),
        forall|i: int| 0 <= i < strings.len() ==> #[trigger] texts(strings)[i] == strings[i]@,
{
}

/// A request is known by its program, by all its arguments and all the variables
/// that are taken out for it, and by what becomes of its streams.
pub proof fn law_request_view(request: TmuxRequest)
    ensures
        request@.command.program == request.command.program@,
        request@.command.args.len() == request.command.args@.len(),
        forall|i: int|
            0 <= i < request.command.args@.len() ==> #[trigger] request@.command.args[i]
                == request.command.args@[i]@,
        request@.command.removed_env.len() == request.command.removed_env@.len(),
        forall|i: int|
            0 <= i < request.command.removed_env@.len()
                ==> #[trigger] request@.command.removed_env[i] == request.command.removed_env@[i]@,
        request@.stdio_policy == request.stdio_policy,
{
}

/// A reply is known by how the command ended and by every byte that it printed,
/// or by why it could not be run.
pub proof fn law_reply_view(reply: TmuxReply)
    ensures
        reply is Ok <==> reply_view(reply) is Ok,
        reply matches Ok(output) ==> {
            let view = reply_view(reply)->Ok_0;
            &&& view == output.deep_view()
            &&& view.success == output.status.success
            &&& view.description == output.status.description@
            &&& view.stdout == output.stdout@
            &&& view.stderr == output.stderr@
            &&& output.status.deep_view() == (view.success, view.description)
        },
        reply matches Err(error) ==> {
            let view = reply_view(reply)->Err_0;
            &&& view == error@
            &&& view.kind == error.kind
            &&& view.description == error.description@
        },
{
}

/// The replies that are left are those after the ones that were taken.
pub proof fn law_unheard(tmux: ConversationView)
    requires
        tmux.answered.len() <= tmux.replies.len(),
    ensures
        tmux.unheard().len() == tmux.replies.len() - tmux.answered.len(),
        forall|i: int|
            0 <= i < tmux.unheard().len() ==> #[trigger] tmux.unheard()[i]
                == tmux.replies[tmux.answered.len() + i],
{
}

/// Where there are no more replies than were taken, none is left.
pub proof fn law_nothing_unheard(tmux: ConversationView)
    requires
        tmux.answered.len() >= tmux.replies.len(),
    ensures
        tmux.unheard().len() == 0,
{
}

/// A talk that took place left the replies as they were, added its requests to
/// the ones before it and nothing else, and was told of by its result: the request
/// that it waits for, the value that it came to, or its error.
pub proof fn law_took_place<R: DeepView>(
    talk: Talk<R::V>,
    before: ConversationView,
    after: ConversationView,
    result: Result<R, Stop>,
)
    ensures
        talk.took_place(before, after, result) <==> {
            &&& after.replies == before.replies
            &&& after.answered == before.answered + talk.answered
            &&& match result {
                Err(Stop::Waiting(request)) => talk.outcome == Outcome::<R::V>::Waiting(request@),
                Ok(value) => talk.outcome == Outcome::<R::V>::Done(Ok(value.deep_view())),
                Err(Stop::Failed(error)) => talk.outcome == Outcome::<R::V>::Done(Err(error@)),
            }
        },
{
    if after.replies == before.replies && after.answered == before.answered + talk.answered {
        assert(after =~= before.after(talk.answered));
    }
}

/// One request is made once. Without a reply it is waited for; with one it is
/// answered, and the reply comes to what it means.
pub proof fn law_single<T>(
    request: TmuxRequestView,
    unheard: Seq<TmuxReplyView>,
    meaning: spec_fn(TmuxReplyView) -> Result<T, CliErrorView>,
)
    ensures
        ({
            let talk = single(request, unheard, meaning);
            if unheard.len() == 0 {
                &&& talk.answered.len() == 0
                &&& talk.outcome == Outcome::<T>::Waiting(request)
            } else {
                &&& talk.answered.len() == 1
                &&& talk.answered[0] == request
                &&& talk.outcome == Outcome::<T>::Done(meaning(unheard[0]))
            }
        }),
{
}

/// A request runs `tmux` with the arguments as they are given. `TMUX` and
/// `TMUX_PANE` are taken out of the environment where that is wanted, and nothing
/// is taken out elsewhere.
pub proof fn law_request(
    args: Seq<Seq<char>>,
    env_policy: TmuxEnvPolicy,
    stdio_policy: TmuxStdioPolicy,
)
    ensures
        request(args, env_policy, stdio_policy).command == command(args, env_policy),
        request(args, env_policy, stdio_policy).stdio_policy == stdio_policy,
        command(args, env_policy).program == "tmux"@,
        command(args, env_policy).args == args,
        env_policy is Preserve ==> command(args, env_policy).removed_env.len() == 0,
        env_policy is ClearTmux ==> command(args, env_policy).removed_env == seq![
            "TMUX"@,
            "TMUX_PANE"@,
        ],
        captured(args).command.program == "tmux"@,
        captured(args).command.args == args,
        captured(args).command.removed_env.len() == 0,
        captured(args).stdio_policy is Capture,
{
}

/// A command that cannot be run is reported as a missing tmux where the program
/// was not found, and else with the action and the description of the error.
pub proof fn law_command_that_cannot_run(error: TmuxIoErrorView, action: Seq<char>)
    ensures
        error.kind is NotFound ==> io_error(error, action) == CliErrorView::TmuxUnavailable,
        error.kind is Other ==> io_error(error, action) == (CliErrorView::TmuxCommandFailed {
            action,
            details: error.description,
        }),
        output_of(Err(error), action) == Err::<TmuxOutputView, CliErrorView>(
            io_error(error, action),
        ),
        forall|stdio_policy: TmuxStdioPolicy| #[trigger]
            checked(Err(error), action, stdio_policy) == Err::<(), CliErrorView>(
                io_error(error, action),
            ),
        identifier_of(Err(error), action) == Err::<Seq<char>, CliErrorView>(
            io_error(error, action),
        ),
{
}

/// A command that was run has done its work if and only if it says so by its
/// status, whatever it printed and wherever it talked to. The error of one that
/// has not tells of the action and of what the command printed or, at the
/// terminal, of its status.
pub proof fn law_status_decides(output: TmuxOutputView, action: Seq<char>)
    ensures
        output_of(Ok(output), action) == Ok::<TmuxOutputView, CliErrorView>(output),
        forall|stdio_policy: TmuxStdioPolicy|
            #[trigger] checked(Ok(output), action, stdio_policy) is Ok <==> output.success,
        !output.success ==> checked(Ok(output), action, TmuxStdioPolicy::Capture) == Err::<
            (),
            CliErrorView,
        >(CliErrorView::TmuxCommandFailed { action, details: output_details(output) }),
        !output.success ==> checked(Ok(output), action, TmuxStdioPolicy::Inherit) == Err::<
            (),
            CliErrorView,
        >(CliErrorView::TmuxCommandFailed { action, details: output.description }),
{
}

/// What a failed command printed to its two streams is told whole, without the
/// white space around it; where it printed nothing, that is said.
pub proof fn law_output_details(output: TmuxOutputView)
    ensures
        ({
            let out = printed(output.stdout);
            let err = printed(output.stderr);
            let details = output_details(output);
            &&& err.len() > 0 && out.len() > 0 ==> details == err + "; stdout: "@ + out
            &&& err.len() > 0 && out.len() == 0 ==> details == err
            &&& err.len() == 0 && out.len() > 0 ==> details == out
            &&& err.len() == 0 && out.len() == 0 ==> details
                == "tmux exited with a non-zero status without additional output"@
        }),
{
}

/// An identifier is all that a command printed, without the white space around
/// it. There is one if and only if the command succeeded and printed something.
pub proof fn law_identifier(output: TmuxOutputView, action: Seq<char>)
    ensures
        ({
            let text = printed(output.stdout);
            let blank = CliErrorView::TmuxCommandFailed {
                action,
                details: "tmux exited successfully without returning the expected identifier"@,
            };
            let found = identifier(output.stdout, action);
            let result = identifier_of(Ok(output), action);
            &&& text.len() > 0 ==> found == Ok::<Seq<char>, CliErrorView>(text)
            &&& text.len() == 0 ==> found == Err::<Seq<char>, CliErrorView>(blank)
            &&& output.success && text.len() > 0 ==> result == Ok::<Seq<char>, CliErrorView>(text)
            &&& output.success && text.len() == 0 ==> result == Err::<Seq<char>, CliErrorView>(
                blank,
            )
            &&& !output.success ==> result == Err::<Seq<char>, CliErrorView>(
                CliErrorView::TmuxCommandFailed { action, details: output_details(output) },
            )
        }),
{
}

} // verus!
