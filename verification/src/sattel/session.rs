//! One supervised run of the crawler, as a state machine.
//!
//! The loop that owns the child process feeds the session one input at a
//! time (a cancel request, a response of the user, a line of the child's
//! output) and carries out the action that the session answers with. The
//! session decides; it never touches the process itself.

use vstd::prelude::*;
use crate::sattel::progress::{forwards, next_count, ProgressCoalescer};
use crate::sattel::wire::{line_message, message_option_view, read_line};
use crate::sattel::{
    Error, ErrorView, Message, MessageView, ProgressBarMessagePayload, ProgressBarMessagePayloadView,
    RequestSubject,
};

verus! {

/// How many responses of the user the queue in front of the session holds
/// at least, so that none is dropped while the loop is busy.
pub const RESPONSE_QUEUE_DEPTH: usize = 100;

/// Where a session stands.
#[derive(Clone, Copy, Debug, PartialEq, Eq, Structural)]
pub enum SessionPhase {
    /// The child is being spawned.
    Starting,
    /// Inputs are being relayed.
    Running,
    /// The child said it was done, or closed its output.
    Completing,
    /// The user cancelled.
    Cancelling,
    /// The child reported an error, or wrote a line that is no message.
    Failing,
    /// The child has exited and the outcome was handed out.
    Terminated,
}

/// How a session ended.
#[derive(Clone, Debug, PartialEq, Eq)]
pub enum Outcome {
    Completed,
    Cancelled,
    /// The crawler reported this error.
    Failed(Error),
    /// The crawler wrote this line, which is no message of the protocol.
    ProtocolViolation(String),
    /// The crawler could not be started, for this reason.
    SpawnFailed(String),
}

/// Mathematical value of an [`Outcome`].
pub enum OutcomeView {
    Completed,
    Cancelled,
    Failed(ErrorView),
    ProtocolViolation(Seq<char>),
    SpawnFailed(Seq<char>),
}

impl View for Outcome {
    type V = OutcomeView;

    open spec fn view(&self) -> OutcomeView {
        match *self {
            Outcome::Completed => OutcomeView::Completed,
            Outcome::Cancelled => OutcomeView::Cancelled,
            Outcome::Failed(error) => OutcomeView::Failed(error@),
            Outcome::ProtocolViolation(line) => OutcomeView::ProtocolViolation(line@),
            Outcome::SpawnFailed(reason) => OutcomeView::SpawnFailed(reason@),
        }
    }
}

impl OutcomeView {
    /// What the caller of the session gets: success where the crawler was
    /// done or the user cancelled, else the error. A line that is no message
    /// and a failed start are reported in the shape of a crawler's error.
    pub open spec fn result(self) -> Result<(), ErrorView> {
        match self {
            OutcomeView::Completed => Ok(()),
            OutcomeView::Cancelled => Ok(()),
            OutcomeView::Failed(error) => Err(error),
            OutcomeView::ProtocolViolation(line) => Err(
                ErrorView { exception: "ProtocolViolation"@, message: line },
            ),
            OutcomeView::SpawnFailed(reason) => Err(ErrorView { exception: "SpawnFailed"@, message: reason }),
        }
    }
}

impl Outcome {
    /// What the caller of the session gets: success where the crawler was
    /// done or the user cancelled, else the error.
    pub fn into_result(self) -> (result: Result<(), Error>)
        ensures
            match self@.result() {
                Ok(_) => result is Ok,
                Err(error) => result is Err && result->Err_0@ == error,
            },
    {
        match self {
            Outcome::Completed => Ok(()),
            Outcome::Cancelled => Ok(()),
            Outcome::Failed(error) => Err(error),
            Outcome::ProtocolViolation(line) => Err(
                Error { exception: "ProtocolViolation".to_owned(), message: line },
            ),
            Outcome::SpawnFailed(reason) => Err(Error { exception: "SpawnFailed".to_owned(), message: reason }),
        }
    }

    /// A copy of the outcome.
    pub fn duplicate(&self) -> (copy: Outcome)
        ensures
            copy@ == self@,
    {
        match self {
            Outcome::Completed => Outcome::Completed,
            Outcome::Cancelled => Outcome::Cancelled,
            Outcome::Failed(error) => Outcome::Failed(error.duplicate()),
            Outcome::ProtocolViolation(line) => Outcome::ProtocolViolation(line.clone()),
            Outcome::SpawnFailed(reason) => Outcome::SpawnFailed(reason.clone()),
        }
    }
}

/// What the loop hands to the session.
#[derive(Clone, Debug, PartialEq, Eq)]
pub enum SessionInput {
    /// The child runs, and its input and output are in the loop's hands.
    Spawned,
    /// The child could not be started.
    SpawnFailed(String),
    /// The user asks to cancel.
    Cancel,
    /// The user supplied a string for the child.
    Response(String),
    /// The child wrote a line.
    Line(String),
    /// The child closed its output.
    EndOfStream,
    /// The child has exited.
    ChildExited,
}

/// Mathematical value of a [`SessionInput`].
pub enum SessionInputView {
    Spawned,
    SpawnFailed(Seq<char>),
    Cancel,
    Response(Seq<char>),
    Line(Seq<char>),
    EndOfStream,
    ChildExited,
}

impl View for SessionInput {
    type V = SessionInputView;

    open spec fn view(&self) -> SessionInputView {
        match *self {
            SessionInput::Spawned => SessionInputView::Spawned,
            SessionInput::SpawnFailed(reason) => SessionInputView::SpawnFailed(reason@),
            SessionInput::Cancel => SessionInputView::Cancel,
            SessionInput::Response(text) => SessionInputView::Response(text@),
            SessionInput::Line(text) => SessionInputView::Line(text@),
            SessionInput::EndOfStream => SessionInputView::EndOfStream,
            SessionInput::ChildExited => SessionInputView::ChildExited,
        }
    }
}

/// A notification for the user interface.
#[derive(Clone, Debug, PartialEq, Eq)]
pub enum UiEvent {
    LoginFailed,
    Crawl(String),
    ProgressBar(ProgressBarMessagePayload),
    Request(RequestSubject),
}

/// Mathematical value of a [`UiEvent`].
pub enum UiEventView {
    LoginFailed,
    Crawl(Seq<char>),
    ProgressBar(ProgressBarMessagePayloadView),
    Request(RequestSubject),
}

impl View for UiEvent {
    type V = UiEventView;

    open spec fn view(&self) -> UiEventView {
        match *self {
            UiEvent::LoginFailed => UiEventView::LoginFailed,
            UiEvent::Crawl(name) => UiEventView::Crawl(name@),
            UiEvent::ProgressBar(payload) => UiEventView::ProgressBar(payload@),
            UiEvent::Request(subject) => UiEventView::Request(subject),
        }
    }
}

/// What the loop is to do next.
#[derive(Clone, Debug, PartialEq, Eq)]
pub enum SessionAction {
    /// Nothing: wait for the next input.
    Nothing,
    /// Notify the user interface.
    Emit(UiEvent),
    /// Write the string and a line terminator to the child's input, and flush.
    WriteLine(String),
    /// Put the string into the queue of responses, as if the user had supplied it.
    Respond(String),
    /// Hand the string to the diagnostic log.
    Log(String),
    /// Stop listening, kill the child if it still runs, and wait for its exit.
    Teardown,
    /// Return this outcome to the caller.
    Finish(Outcome),
}

/// Mathematical value of a [`SessionAction`].
pub enum SessionActionView {
    Nothing,
    Emit(UiEventView),
    WriteLine(Seq<char>),
    Respond(Seq<char>),
    Log(Seq<char>),
    Teardown,
    Finish(OutcomeView),
}

impl View for SessionAction {
    type V = SessionActionView;

    open spec fn view(&self) -> SessionActionView {
        match *self {
            SessionAction::Nothing => SessionActionView::Nothing,
            SessionAction::Emit(event) => SessionActionView::Emit(event@),
            SessionAction::WriteLine(text) => SessionActionView::WriteLine(text@),
            SessionAction::Respond(text) => SessionActionView::Respond(text@),
            SessionAction::Log(text) => SessionActionView::Log(text@),
            SessionAction::Teardown => SessionActionView::Teardown,
            SessionAction::Finish(outcome) => SessionActionView::Finish(outcome@),
        }
    }
}

/// Mathematical value of a [`Session`].
pub struct SessionView {
    pub phase: SessionPhase,
    /// Advances that arrived since the last one that was passed on.
    pub pending: nat,
    pub config_file: Seq<char>,
    pub json_args: Seq<char>,
    /// How the session ends, from the moment it starts to close.
    pub outcome: OutcomeView,
}

/// The session as it starts to close with an outcome.
pub open spec fn closing(s: SessionView, phase: SessionPhase, outcome: OutcomeView) -> SessionView {
    SessionView { phase, outcome, ..s }
}

/// What a running session does with a line of the child: the message that
/// the line holds, or nothing where it holds none.
pub open spec fn react(s: SessionView, message: Option<MessageView>, line: Seq<char>) -> (
    SessionView,
    SessionActionView,
) {
    match message {
        None => (
            closing(s, SessionPhase::Failing, OutcomeView::ProtocolViolation(line)),
            SessionActionView::Teardown,
        ),
        Some(MessageView::Error(error)) => (
            closing(s, SessionPhase::Failing, OutcomeView::Failed(error)),
            SessionActionView::Teardown,
        ),
        Some(MessageView::LoginFailed) => (s, SessionActionView::Emit(UiEventView::LoginFailed)),
        Some(MessageView::Crawl { name }) => (s, SessionActionView::Emit(UiEventView::Crawl(name))),
        Some(MessageView::ProgressBar(payload)) => (
            SessionView { pending: next_count(s.pending, payload.event), ..s },
            if forwards(s.pending, payload.event) {
                SessionActionView::Emit(UiEventView::ProgressBar(payload))
            } else {
                SessionActionView::Nothing
            },
        ),
        Some(MessageView::Request { subject }) => match subject {
            RequestSubject::ConfigFilePath => (s, SessionActionView::Respond(s.config_file)),
            RequestSubject::JsonArgs => (s, SessionActionView::Respond(s.json_args)),
            _ => (s, SessionActionView::Emit(UiEventView::Request(subject))),
        },
        Some(MessageView::Log { info }) => (s, SessionActionView::Log(info)),
        Some(MessageView::Done) => (
            closing(s, SessionPhase::Completing, OutcomeView::Completed),
            SessionActionView::Teardown,
        ),
    }
}

/// What a session does with an input: the session afterwards and the action
/// for the loop.
pub open spec fn step(s: SessionView, input: SessionInputView) -> (SessionView, SessionActionView) {
    match s.phase {
        SessionPhase::Starting => match input {
            SessionInputView::Spawned => (
                SessionView { phase: SessionPhase::Running, ..s },
                SessionActionView::Nothing,
            ),
            SessionInputView::SpawnFailed(reason) => (
                closing(s, SessionPhase::Terminated, OutcomeView::SpawnFailed(reason)),
                SessionActionView::Finish(OutcomeView::SpawnFailed(reason)),
            ),
            _ => (s, SessionActionView::Nothing),
        },
        SessionPhase::Running => match input {
            SessionInputView::Cancel => (
                closing(s, SessionPhase::Cancelling, OutcomeView::Cancelled),
                SessionActionView::Teardown,
            ),
            SessionInputView::Response(text) => (s, SessionActionView::WriteLine(text)),
            SessionInputView::Line(text) => react(s, line_message(text), text),
            SessionInputView::EndOfStream => (
                closing(s, SessionPhase::Completing, OutcomeView::Completed),
                SessionActionView::Teardown,
            ),
            _ => (s, SessionActionView::Nothing),
        },
        SessionPhase::Completing | SessionPhase::Cancelling | SessionPhase::Failing => match input {
            SessionInputView::ChildExited => (
                SessionView { phase: SessionPhase::Terminated, ..s },
                SessionActionView::Finish(s.outcome),
            ),
            _ => (s, SessionActionView::Nothing),
        },
        SessionPhase::Terminated => (s, SessionActionView::Nothing),
    }
}

/// One supervised run of the crawler.
pub struct Session {
    phase: SessionPhase,
    throttle: ProgressCoalescer,
    config_file: String,
    json_args: String,
    outcome: Outcome,
}

impl View for Session {
    type V = SessionView;

    closed spec fn view(&self) -> SessionView {
        SessionView {
            phase: self.phase,
            pending: self.throttle.pending(),
            config_file: self.config_file@,
            json_args: self.json_args@,
            outcome: self.outcome@,
        }
    }
}

impl Session {
    /// A session that is about to spawn the crawler for a configuration file.
    pub fn new(config_file: String, json_args: String) -> (session: Session)
        ensures
            session@ == (SessionView {
                phase: SessionPhase::Starting,
                pending: 0,
                config_file: config_file@,
                json_args: json_args@,
                outcome: OutcomeView::Completed,
            }),
    {
        Session {
            phase: SessionPhase::Starting,
            throttle: ProgressCoalescer::new(),
            config_file,
            json_args,
            outcome: Outcome::Completed,
        }
    }

    /// Where the session stands.
    pub fn phase(&self) -> (phase: SessionPhase)
        ensures
            phase == self@.phase,
    {
        self.phase
    }

    /// The arguments to start the crawler with: the JSON arguments, then the
    /// path of the configuration file.
    pub fn arguments(&self) -> (arguments: Vec<String>)
        ensures
            arguments@.len() == 2,
            arguments@[0]@ == self@.json_args,
            arguments@[1]@ == self@.config_file,
    {
        let mut arguments: Vec<String> = Vec::new();
        arguments.push(self.json_args.clone());
        arguments.push(self.config_file.clone());
        arguments
    }

    /// Starts to close the session with an outcome.
    fn close(&mut self, phase: SessionPhase, outcome: Outcome)
        ensures
            final(self)@ == closing(old(self)@, phase, outcome@),
    {
        self.phase = phase;
        self.outcome = outcome;
    }

    /// Takes what a line of the child was read as: the message, or nothing
    /// where the line holds none. A session that does not run lets it pass.
    pub fn on_message(&mut self, message: Option<Message>, line: String) -> (action: SessionAction)
        ensures
            (final(self)@, action@) == if old(self)@.phase == SessionPhase::Running {
                react(old(self)@, message_option_view(message), line@)
            } else {
                (old(self)@, SessionActionView::Nothing)
            },
    {
        if self.phase != SessionPhase::Running {
            return SessionAction::Nothing;
        }
        match message {
            None => {
                self.close(SessionPhase::Failing, Outcome::ProtocolViolation(line));
                SessionAction::Teardown
            },
            Some(Message::Error(error)) => {
                self.close(SessionPhase::Failing, Outcome::Failed(error));
                SessionAction::Teardown
            },
            Some(Message::LoginFailed) => SessionAction::Emit(UiEvent::LoginFailed),
            Some(Message::Crawl { name }) => SessionAction::Emit(UiEvent::Crawl(name)),
            Some(Message::ProgressBar(payload)) => {
                if self.throttle.offer(&payload.event) {
                    SessionAction::Emit(UiEvent::ProgressBar(payload))
                } else {
                    SessionAction::Nothing
                }
            },
            Some(Message::Request { subject }) => match subject {
                RequestSubject::ConfigFilePath => SessionAction::Respond(self.config_file.clone()),
                RequestSubject::JsonArgs => SessionAction::Respond(self.json_args.clone()),
                _ => SessionAction::Emit(UiEvent::Request(subject)),
            },
            Some(Message::Log { info }) => SessionAction::Log(info),
            Some(Message::Done) => {
                self.close(SessionPhase::Completing, Outcome::Completed);
                SessionAction::Teardown
            },
        }
    }

    /// Takes one input and answers with the action for the loop.
    pub fn handle(&mut self, input: SessionInput) -> (action: SessionAction)
        ensures
            (final(self)@, action@) == step(old(self)@, input@),
    {
        match self.phase {
            SessionPhase::Starting => match input {
                SessionInput::Spawned => {
                    self.phase = SessionPhase::Running;
                    SessionAction::Nothing
                },
                SessionInput::SpawnFailed(reason) => {
                    let outcome = Outcome::SpawnFailed(reason);
                    let reported = outcome.duplicate();
                    self.close(SessionPhase::Terminated, outcome);
                    SessionAction::Finish(reported)
                },
                _ => SessionAction::Nothing,
            },
            SessionPhase::Running => match input {
                SessionInput::Cancel => {
                    self.close(SessionPhase::Cancelling, Outcome::Cancelled);
                    SessionAction::Teardown
                },
                SessionInput::Response(text) => SessionAction::WriteLine(text),
                SessionInput::Line(text) => {
                    let message = read_line(text.as_str());
                    self.on_message(message, text)
                },
                SessionInput::EndOfStream => {
                    self.close(SessionPhase::Completing, Outcome::Completed);
                    SessionAction::Teardown
                },
                _ => SessionAction::Nothing,
            },
            SessionPhase::Completing | SessionPhase::Cancelling | SessionPhase::Failing => match input {
                SessionInput::ChildExited => {
                    self.phase = SessionPhase::Terminated;
                    SessionAction::Finish(self.outcome.duplicate())
                },
                _ => SessionAction::Nothing,
            },
            SessionPhase::Terminated => SessionAction::Nothing,
        }
    }
}

/// Whether the session is closing: teardown was asked for, the child's exit is awaited.
pub open spec fn is_closing(phase: SessionPhase) -> bool {
    phase == SessionPhase::Completing || phase == SessionPhase::Cancelling || phase
        == SessionPhase::Failing
}

/// A cancel request to a running session asks for the teardown, and the
/// child's exit then ends the session with the outcome `Cancelled`, whatever
/// arrives in between.
pub proof fn lemma_cancel_ends_cancelled(s: SessionView, between: SessionInputView)
    requires
        s.phase == SessionPhase::Running,
        !(between is ChildExited),
    ensures
        step(s, SessionInputView::Cancel).1 == SessionActionView::Teardown,
        step(s, SessionInputView::Cancel).0.phase == SessionPhase::Cancelling,
        step(step(s, SessionInputView::Cancel).0, between) == (
            step(s, SessionInputView::Cancel).0,
            SessionActionView::Nothing,
        ),
        step(step(s, SessionInputView::Cancel).0, SessionInputView::ChildExited).1
            == SessionActionView::Finish(OutcomeView::Cancelled),
        step(step(s, SessionInputView::Cancel).0, SessionInputView::ChildExited).0.phase
            == SessionPhase::Terminated,
{
}

/// A session leaves the running phase only with a teardown, and is
/// terminated only together with its outcome.
pub proof fn lemma_every_exit_tears_down(s: SessionView, input: SessionInputView)
    ensures
        s.phase == SessionPhase::Running && step(s, input).0.phase != SessionPhase::Running ==> is_closing(
            step(s, input).0.phase,
        ) && step(s, input).1 == SessionActionView::Teardown,
        is_closing(s.phase) ==> (step(s, input).0.phase == s.phase && step(s, input).1
            == SessionActionView::Nothing) || (input is ChildExited && step(s, input).0.phase
            == SessionPhase::Terminated && step(s, input).1 == SessionActionView::Finish(s.outcome)),
        s.phase == SessionPhase::Terminated ==> step(s, input) == (s, SessionActionView::Nothing),
        step(s, input).1 is Finish ==> step(s, input).0.phase == SessionPhase::Terminated && s.phase
            != SessionPhase::Terminated && s.phase != SessionPhase::Running,
{
}

/// A line that holds no message, and an error that the crawler reports, end
/// the session as failed: with the line, or with the error as reported.
pub proof fn lemma_bad_line_fails(s: SessionView, line: Seq<char>)
    requires
        s.phase == SessionPhase::Running,
    ensures
        line_message(line) is None ==> step(s, SessionInputView::Line(line)) == (
            closing(s, SessionPhase::Failing, OutcomeView::ProtocolViolation(line)),
            SessionActionView::Teardown,
        ),
        line_message(line) matches Some(MessageView::Error(error)) ==> step(
            s,
            SessionInputView::Line(line),
        ) == (closing(s, SessionPhase::Failing, OutcomeView::Failed(error)), SessionActionView::Teardown),
{
}

/// The session after it took all of `inputs`, one by one.
pub open spec fn run_state(s: SessionView, inputs: Seq<SessionInputView>) -> SessionView
    decreases inputs.len(),
{
    if inputs.len() == 0 {
        s
    } else {
        step(run_state(s, inputs.drop_last()), inputs.last()).0
    }
}

/// The action with which the session answers the input at position `k` of `inputs`.
pub open spec fn run_action(s: SessionView, inputs: Seq<SessionInputView>, k: int) -> SessionActionView
    recommends
        0 <= k < inputs.len(),
{
    step(run_state(s, inputs.take(k)), inputs[k]).1
}

/// How many of the first `n` answers ask for the teardown.
pub open spec fn teardowns(s: SessionView, inputs: Seq<SessionInputView>, n: int) -> nat
    decreases n,
{
    if n <= 0 {
        0
    } else {
        teardowns(s, inputs, n - 1) + if run_action(s, inputs, n - 1) is Teardown {
            1nat
        } else {
            0nat
        }
    }
}

/// How many of the first `n` answers hand out an outcome.
pub open spec fn outcomes(s: SessionView, inputs: Seq<SessionInputView>, n: int) -> nat
    decreases n,
{
    if n <= 0 {
        0
    } else {
        outcomes(s, inputs, n - 1) + if run_action(s, inputs, n - 1) is Finish {
            1nat
        } else {
            0nat
        }
    }
}

/// Where a session stands tells what it has asked for so far. While it
/// starts and runs: neither teardown nor outcome. While it closes: the
/// teardown, once, and no outcome. When it is terminated: one outcome, and
/// one teardown unless the child could not be started.
pub proof fn lemma_teardown_and_outcome_counts(s: SessionView, inputs: Seq<SessionInputView>, n: int)
    requires
        s.phase == SessionPhase::Starting,
        0 <= n <= inputs.len(),
    ensures
        ({
            let now = run_state(s, inputs.take(n));
            let torn = teardowns(s, inputs, n);
            let handed = outcomes(s, inputs, n);
            &&& now.phase == SessionPhase::Starting || now.phase == SessionPhase::Running ==> torn == 0
                && handed == 0
            &&& is_closing(now.phase) ==> torn == 1 && handed == 0
            &&& now.phase == SessionPhase::Terminated ==> handed == 1 && (torn == 1 || (torn == 0
                && now.outcome is SpawnFailed))
        }),
    decreases n,
{
    if n == 0 {
        assert(inputs.take(0).len() == 0);
    } else {
        lemma_teardown_and_outcome_counts(s, inputs, n - 1);
        let before = run_state(s, inputs.take(n - 1));
        assert(inputs.take(n).drop_last() =~= inputs.take(n - 1));
        assert(inputs.take(n).last() == inputs[n - 1]);
        assert(run_state(s, inputs.take(n)) == step(before, inputs[n - 1]).0);
        assert(run_action(s, inputs, n - 1) == step(before, inputs[n - 1]).1);
    }
}

/// Every exit tears down first: a session that started the child hands out
/// its outcome only after it asked for the teardown, which it asks for once;
/// and it hands out one outcome at most.
pub proof fn lemma_teardown_before_outcome(s: SessionView, inputs: Seq<SessionInputView>, k: int)
    requires
        s.phase == SessionPhase::Starting,
        0 <= k < inputs.len(),
        run_action(s, inputs, k) is Finish,
    ensures
        outcomes(s, inputs, k) == 0,
        outcomes(s, inputs, inputs.len() as int) == 1,
        run_action(s, inputs, k)->Finish_0 is SpawnFailed ==> teardowns(s, inputs, inputs.len() as int) == 0,
        !(run_action(s, inputs, k)->Finish_0 is SpawnFailed) ==> teardowns(s, inputs, k) == 1 && teardowns(
            s,
            inputs,
            inputs.len() as int,
        ) == 1,
{
    lemma_teardown_and_outcome_counts(s, inputs, k);
    lemma_closing_outcome_is_not_spawn_failure(s, inputs, k);
    let before = run_state(s, inputs.take(k));
    assert(inputs.take(k + 1).drop_last() =~= inputs.take(k));
    assert(inputs.take(k + 1).last() == inputs[k]);
    assert(run_state(s, inputs.take(k + 1)) == step(before, inputs[k]).0);
    assert(teardowns(s, inputs, k + 1) == teardowns(s, inputs, k));
    assert(outcomes(s, inputs, k + 1) == outcomes(s, inputs, k) + 1);
    lemma_terminated_stays(s, inputs, k + 1, inputs.len() as int);
}

/// Once a session is terminated it stays as it is and answers with nothing.
pub proof fn lemma_terminated_stays(s: SessionView, inputs: Seq<SessionInputView>, n: int, m: int)
    requires
        0 <= n <= m <= inputs.len(),
        run_state(s, inputs.take(n)).phase == SessionPhase::Terminated,
    ensures
        run_state(s, inputs.take(m)) == run_state(s, inputs.take(n)),
        teardowns(s, inputs, m) == teardowns(s, inputs, n),
        outcomes(s, inputs, m) == outcomes(s, inputs, n),
    decreases m - n,
{
    if n < m {
        lemma_terminated_stays(s, inputs, n, m - 1);
        assert(inputs.take(m).drop_last() =~= inputs.take(m - 1));
        assert(inputs.take(m).last() == inputs[m - 1]);
    }
}

/// While a session closes, its outcome is not that of a failed start.
pub proof fn lemma_closing_outcome_is_not_spawn_failure(s: SessionView, inputs: Seq<SessionInputView>, n: int)
    requires
        s.phase == SessionPhase::Starting,
        0 <= n <= inputs.len(),
    ensures
        is_closing(run_state(s, inputs.take(n)).phase) ==> !(run_state(s, inputs.take(n)).outcome is SpawnFailed),
    decreases n,
{
    if n == 0 {
        assert(inputs.take(0).len() == 0);
    } else {
        lemma_closing_outcome_is_not_spawn_failure(s, inputs, n - 1);
        assert(inputs.take(n).drop_last() =~= inputs.take(n - 1));
        assert(inputs.take(n).last() == inputs[n - 1]);
    }
}

} // verus!
