use reiter::sattel::session::{
    Outcome, Session, SessionAction, SessionInput, SessionPhase, UiEvent, RESPONSE_QUEUE_DEPTH,
};
use reiter::sattel::{Error, Message, ProgressBarEvent, ProgressBarMessagePayload, RequestSubject};

fn running() -> Session {
    let mut session = Session::new("/cfg/sattel.cfg".to_owned(), "{\"a\":1}".to_owned());
    assert_eq!(session.phase(), SessionPhase::Starting);
    assert_eq!(session.handle(SessionInput::Spawned), SessionAction::Nothing);
    assert_eq!(session.phase(), SessionPhase::Running);
    session
}

fn line(text: &str) -> SessionInput {
    SessionInput::Line(text.to_owned())
}

#[test]
fn arguments_are_json_args_then_config_file() {
    let session = Session::new("/cfg/sattel.cfg".to_owned(), "{}".to_owned());
    assert_eq!(session.arguments(), vec!["{}".to_owned(), "/cfg/sattel.cfg".to_owned()]);
}

#[test]
fn spawn_failure_ends_the_session_at_once() {
    let mut session = Session::new("c".to_owned(), "{}".to_owned());
    assert_eq!(
        session.handle(SessionInput::SpawnFailed("no such file".to_owned())),
        SessionAction::Finish(Outcome::SpawnFailed("no such file".to_owned()))
    );
    assert_eq!(session.phase(), SessionPhase::Terminated);
    assert_eq!(session.handle(SessionInput::Spawned), SessionAction::Nothing);
    assert_eq!(session.phase(), SessionPhase::Terminated);
}

#[test]
fn nothing_is_relayed_before_the_child_runs() {
    let mut session = Session::new("c".to_owned(), "{}".to_owned());
    assert_eq!(session.handle(line(r#"{"kind":"loginFailed"}"#)), SessionAction::Nothing);
    assert_eq!(session.handle(SessionInput::Cancel), SessionAction::Nothing);
    assert_eq!(session.handle(SessionInput::Response("x".to_owned())), SessionAction::Nothing);
    assert_eq!(session.phase(), SessionPhase::Starting);
}

#[test]
fn of_250_advances_the_100th_and_200th_are_forwarded() {
    let mut session = running();
    let mut forwarded = Vec::new();
    for n in 1..=250u32 {
        let text = format!(r#"{{"kind":"progressBar","id":{},"event":{{"kind":"advance","progress":{}}}}}"#, n % 3, n);
        match session.handle(line(&text)) {
            SessionAction::Nothing => {}
            SessionAction::Emit(UiEvent::ProgressBar(payload)) => forwarded.push(payload),
            other => panic!("unexpected action {:?}", other),
        }
    }
    assert_eq!(
        forwarded,
        vec![
            ProgressBarMessagePayload { id: 100 % 3, event: ProgressBarEvent::Advance { progress: 100 } },
            ProgressBarMessagePayload { id: 200 % 3, event: ProgressBarEvent::Advance { progress: 200 } },
        ]
    );
    let done = ProgressBarMessagePayload { id: 1, event: ProgressBarEvent::Done };
    assert_eq!(
        session.handle(line(r#"{"kind":"progressBar","id":1,"event":{"kind":"done"}}"#)),
        SessionAction::Emit(UiEvent::ProgressBar(done))
    );
    assert_eq!(session.phase(), SessionPhase::Running);
}

#[test]
fn other_progress_updates_do_not_disturb_the_count() {
    let mut session = running();
    let advance = r#"{"kind":"progressBar","id":1,"event":{"kind":"advance","progress":1}}"#;
    for _ in 0..99 {
        assert_eq!(session.handle(line(advance)), SessionAction::Nothing);
    }
    assert!(matches!(
        session.handle(line(r#"{"kind":"progressBar","id":2,"event":{"kind":"setTotal","total":5}}"#)),
        SessionAction::Emit(UiEvent::ProgressBar(_))
    ));
    assert!(matches!(
        session.handle(line(r#"{"kind":"progressBar","id":2,"event":{"kind":"begin","bar":"crawl","path":"p"}}"#)),
        SessionAction::Emit(UiEvent::ProgressBar(_))
    ));
    assert!(matches!(session.handle(line(advance)), SessionAction::Emit(UiEvent::ProgressBar(_))));
    assert_eq!(session.handle(line(advance)), SessionAction::Nothing);
}

#[test]
fn cancel_tears_down_and_ends_cancelled() {
    let mut session = running();
    assert_eq!(session.handle(SessionInput::Cancel), SessionAction::Teardown);
    assert_eq!(session.phase(), SessionPhase::Cancelling);
    assert_eq!(session.handle(line(r#"{"kind":"loginFailed"}"#)), SessionAction::Nothing);
    assert_eq!(session.handle(SessionInput::Response("late".to_owned())), SessionAction::Nothing);
    assert_eq!(session.handle(SessionInput::EndOfStream), SessionAction::Nothing);
    assert_eq!(session.handle(SessionInput::Cancel), SessionAction::Nothing);
    assert_eq!(session.phase(), SessionPhase::Cancelling);
    assert_eq!(session.handle(SessionInput::ChildExited), SessionAction::Finish(Outcome::Cancelled));
    assert_eq!(session.phase(), SessionPhase::Terminated);
    assert_eq!(session.handle(SessionInput::ChildExited), SessionAction::Nothing);
}

#[test]
fn responses_are_written_to_the_child() {
    let mut session = running();
    assert_eq!(
        session.handle(SessionInput::Response("hunter2".to_owned())),
        SessionAction::WriteLine("hunter2".to_owned())
    );
    assert_eq!(session.phase(), SessionPhase::Running);
}

#[test]
fn requests_are_answered_or_forwarded() {
    let mut session = running();
    assert_eq!(
        session.handle(line(r#"{"kind":"request","subject":"password"}"#)),
        SessionAction::Emit(UiEvent::Request(RequestSubject::Password))
    );
    assert_eq!(
        session.handle(line(r#"{"kind":"request","subject":"username"}"#)),
        SessionAction::Emit(UiEvent::Request(RequestSubject::Username))
    );
    assert_eq!(
        session.handle(line(r#"{"kind":"request","subject":"configFilePath"}"#)),
        SessionAction::Respond("/cfg/sattel.cfg".to_owned())
    );
    assert_eq!(
        session.handle(line(r#"{"kind":"request","subject":"jsonArgs"}"#)),
        SessionAction::Respond("{\"a\":1}".to_owned())
    );
}

#[test]
fn notifications_and_logs() {
    let mut session = running();
    assert_eq!(session.handle(line(r#"{"kind":"loginFailed"}"#)), SessionAction::Emit(UiEvent::LoginFailed));
    assert_eq!(
        session.handle(line(r#"{"kind":"crawl","name":"algebra"}"#)),
        SessionAction::Emit(UiEvent::Crawl("algebra".to_owned()))
    );
    assert_eq!(
        session.handle(line(r#"{"kind":"log","info":"fetching"}"#)),
        SessionAction::Log("fetching".to_owned())
    );
    assert_eq!(session.phase(), SessionPhase::Running);
}

#[test]
fn reported_error_fails_the_session() {
    let mut session = running();
    assert_eq!(
        session.handle(line(r#"{"kind":"error","exception":"E","message":"m"}"#)),
        SessionAction::Teardown
    );
    assert_eq!(session.phase(), SessionPhase::Failing);
    assert_eq!(
        session.handle(SessionInput::ChildExited),
        SessionAction::Finish(Outcome::Failed(Error { exception: "E".to_owned(), message: "m".to_owned() }))
    );
    assert_eq!(session.phase(), SessionPhase::Terminated);
}

#[test]
fn malformed_line_fails_the_session() {
    let mut session = running();
    assert_eq!(session.handle(line("{oops")), SessionAction::Teardown);
    assert_eq!(session.phase(), SessionPhase::Failing);
    assert_eq!(
        session.handle(SessionInput::ChildExited),
        SessionAction::Finish(Outcome::ProtocolViolation("{oops".to_owned()))
    );
}

#[test]
fn done_and_end_of_stream_complete_the_session() {
    let mut session = running();
    assert_eq!(session.handle(line(r#"{"kind":"done"}"#)), SessionAction::Teardown);
    assert_eq!(session.phase(), SessionPhase::Completing);
    assert_eq!(session.handle(SessionInput::ChildExited), SessionAction::Finish(Outcome::Completed));
    let mut session = running();
    assert_eq!(session.handle(SessionInput::EndOfStream), SessionAction::Teardown);
    assert_eq!(session.phase(), SessionPhase::Completing);
    assert_eq!(session.handle(SessionInput::ChildExited), SessionAction::Finish(Outcome::Completed));
    assert_eq!(session.phase(), SessionPhase::Terminated);
}

#[test]
fn child_exit_is_awaited_only_after_teardown() {
    let mut session = running();
    assert_eq!(session.handle(SessionInput::ChildExited), SessionAction::Nothing);
    assert_eq!(session.phase(), SessionPhase::Running);
}

#[test]
fn on_message_takes_what_a_line_was_read_as() {
    let mut session = running();
    assert_eq!(
        session.on_message(Some(Message::Crawl { name: "n".to_owned() }), "raw".to_owned()),
        SessionAction::Emit(UiEvent::Crawl("n".to_owned()))
    );
    assert_eq!(session.on_message(None, "raw".to_owned()), SessionAction::Teardown);
    assert_eq!(session.phase(), SessionPhase::Failing);
    assert_eq!(session.on_message(Some(Message::Done), "x".to_owned()), SessionAction::Nothing);
    assert_eq!(session.phase(), SessionPhase::Failing);
    assert_eq!(
        session.handle(SessionInput::ChildExited),
        SessionAction::Finish(Outcome::ProtocolViolation("raw".to_owned()))
    );
    assert_eq!(Outcome::Cancelled.duplicate(), Outcome::Cancelled);
}

#[test]
fn outcomes_as_results() {
    assert_eq!(Outcome::Completed.into_result(), Ok(()));
    assert_eq!(Outcome::Cancelled.into_result(), Ok(()));
    let error = Error { exception: "E".to_owned(), message: "m".to_owned() };
    assert_eq!(Outcome::Failed(error.clone()).into_result(), Err(error));
    assert_eq!(
        Outcome::ProtocolViolation("{".to_owned()).into_result(),
        Err(Error { exception: "ProtocolViolation".to_owned(), message: "{".to_owned() })
    );
    assert_eq!(
        Outcome::SpawnFailed("denied".to_owned()).into_result(),
        Err(Error { exception: "SpawnFailed".to_owned(), message: "denied".to_owned() })
    );
}

#[test]
fn response_queue_takes_a_burst() {
    assert_eq!(RESPONSE_QUEUE_DEPTH, 100);
}
