use send_to_qbt::failure::{Failure, FailureKind};
use send_to_qbt::locator::TorrentLocator;
use send_to_qbt::notification::OutcomeNotification;
use send_to_qbt::orchestrator::{exit_status, step, Action, Event, State};
use send_to_qbt::settings::{Credentials, ServiceConfig};

fn arguments(given: &[&str]) -> Event {
    Event::Arguments(given.iter().map(|text| text.to_string()).collect())
}

fn settings() -> ServiceConfig {
    ServiceConfig {
        credentials: Credentials { username: "admin".to_string(), password: "secret".to_string() },
        host_address: "http://localhost:8080".to_string(),
    }
}

fn failure(kind: FailureKind, text: &str) -> Failure {
    Failure { kind, message: text.to_string() }
}

fn refused(text: &str) -> Result<(), String> {
    Err(text.to_string())
}

fn error_notification(text: &str) -> OutcomeNotification {
    OutcomeNotification { title: "Error".to_string(), body: text.to_string() }
}

/// Takes one step per event and keeps what was asked for. Events that do not
/// belong where the run stands are passed over.
fn drive(events: Vec<Event>) -> (State, Vec<Action>) {
    let mut state = State::Start;
    let mut actions = Vec::new();
    for event in events {
        let before = state.clone();
        match step(state, event) {
            Some(taken) => {
                state = taken.state;
                actions.push(taken.action);
            }
            None => state = before,
        }
    }
    (state, actions)
}

fn notifications(actions: &[Action]) -> Vec<&OutcomeNotification> {
    let mut found = Vec::new();
    for action in actions {
        if let Action::Notify { notification } = action {
            found.push(notification);
        }
    }
    found
}

fn reaches_out(action: &Action) -> bool {
    matches!(action, Action::ResolveConfig | Action::Authenticate { .. } | Action::Submit { .. })
}

#[test]
fn magnet_link_accepted_by_the_daemon() {
    let (state, actions) = drive(vec![
        arguments(&["send-to-qbt", "magnet:?xt=urn:btih:ABC123"]),
        Event::ConfigOutcome(Ok(settings())),
        Event::AuthOutcome(Ok(())),
        Event::SubmitOutcome(Ok(())),
        Event::NotifyOutcome(Ok(())),
    ]);
    assert_eq!(state, State::Done);
    assert_eq!(actions.len(), 5);
    assert!(matches!(actions[0], Action::ResolveConfig));
    match &actions[1] {
        Action::Authenticate { host_address, credentials } => {
            assert_eq!(host_address, "http://localhost:8080");
            assert_eq!(credentials, &settings().credentials);
        }
        other => panic!("{:?}", other),
    }
    match &actions[2] {
        Action::Submit { request } => {
            let text = format!("{:?}", request.descriptor);
            assert!(text.contains("vector: [\"magnet:?xt=urn:btih:ABC123\"]"), "{}", text);
            assert!(text.contains("paths: []"), "{}", text);
        }
        other => panic!("{:?}", other),
    }
    match &actions[3] {
        Action::Notify { notification } => {
            assert_eq!(notification.title, "Torrent added");
            assert_eq!(notification.body, "Added torrent successfully :)");
        }
        other => panic!("{:?}", other),
    }
    match &actions[4] {
        Action::Exit { outcome } => {
            assert_eq!(outcome, &Ok(()));
            assert_eq!(exit_status(outcome), 0);
        }
        other => panic!("{:?}", other),
    }
    assert_eq!(notifications(&actions).len(), 1);
}

#[test]
fn local_file_with_rejected_credentials() {
    let (state, actions) = drive(vec![
        arguments(&["send-to-qbt", "/home/user/file.torrent"]),
        Event::ConfigOutcome(Ok(settings())),
        Event::AuthOutcome(refused("the credetials are wrong.")),
        Event::NotifyOutcome(Ok(())),
    ]);
    let expected = failure(FailureKind::Auth, "the credetials are wrong.");
    assert_eq!(state, State::ErrorState { failure: expected.clone() });
    assert_eq!(actions.len(), 4);
    assert!(matches!(actions[0], Action::ResolveConfig));
    assert!(matches!(actions[1], Action::Authenticate { .. }));
    assert_eq!(notifications(&actions), vec![&error_notification("the credetials are wrong.")]);
    match &actions[3] {
        Action::Exit { outcome } => {
            assert_eq!(outcome, &Err(expected));
            assert_ne!(exit_status(outcome), 0);
        }
        other => panic!("{:?}", other),
    }
    assert!(!actions.iter().any(|action| matches!(action, Action::Submit { .. })));
}

#[test]
fn no_argument_at_all() {
    let (state, actions) = drive(vec![arguments(&["send-to-qbt"]), Event::NotifyOutcome(Ok(()))]);
    let expected = failure(FailureKind::Usage, "Invalid number of arguments.");
    assert_eq!(state, State::ErrorState { failure: expected.clone() });
    assert_eq!(actions.len(), 2);
    assert_eq!(notifications(&actions), vec![&error_notification("Invalid number of arguments.")]);
    match &actions[1] {
        Action::Exit { outcome } => {
            assert_eq!(outcome, &Err(expected));
            assert_eq!(exit_status(outcome), 1);
        }
        other => panic!("{:?}", other),
    }
    assert!(!actions.iter().any(reaches_out));
}

#[test]
fn too_many_arguments() {
    let (state, actions) = drive(vec![
        arguments(&["send-to-qbt", "a.torrent", "b.torrent"]),
        Event::ConfigOutcome(Ok(settings())),
        Event::AuthOutcome(Ok(())),
        Event::SubmitOutcome(Ok(())),
        Event::NotifyOutcome(Ok(())),
    ]);
    assert!(matches!(state, State::ErrorState { .. }));
    assert_eq!(notifications(&actions), vec![&error_notification("Invalid number of arguments.")]);
    assert!(!actions.iter().any(reaches_out));
}

#[test]
fn first_step_classifies_the_argument() {
    let taken = step(State::Start, arguments(&["send-to-qbt", "https://example.org/a.torrent"]))
        .unwrap();
    assert_eq!(
        taken.state,
        State::UriRead {
            locator: TorrentLocator::Remote("https://example.org/a.torrent".to_string())
        }
    );
    assert!(matches!(taken.action, Action::ResolveConfig));
    let taken = step(State::Start, arguments(&["send-to-qbt", "a.torrent"])).unwrap();
    assert_eq!(
        taken.state,
        State::UriRead { locator: TorrentLocator::LocalFile("a.torrent".to_string()) }
    );
}

#[test]
fn unresolved_settings_end_the_run() {
    let missing = failure(FailureKind::Config, "missing configuration field \"password\"");
    let (state, actions) = drive(vec![
        arguments(&["send-to-qbt", "magnet:?xt=urn:btih:ABC123"]),
        Event::ConfigOutcome(Err(missing.clone())),
        Event::NotifyOutcome(Ok(())),
        Event::AuthOutcome(Ok(())),
        Event::SubmitOutcome(Ok(())),
    ]);
    assert_eq!(state, State::ErrorState { failure: missing.clone() });
    assert_eq!(actions.len(), 3);
    assert!(matches!(actions[0], Action::ResolveConfig));
    assert_eq!(
        notifications(&actions),
        vec![&error_notification("missing configuration field \"password\"")]
    );
    assert!(matches!(&actions[2], Action::Exit { outcome: Err(reason) } if reason == &missing));
    assert!(!actions
        .iter()
        .any(|action| matches!(action, Action::Authenticate { .. } | Action::Submit { .. })));
}

#[test]
fn request_refused_by_the_daemon() {
    let (state, actions) = drive(vec![
        arguments(&["send-to-qbt", "/home/user/file.torrent"]),
        Event::ConfigOutcome(Ok(settings())),
        Event::AuthOutcome(Ok(())),
        Event::SubmitOutcome(refused("there was an error during a request. error code: 415")),
        Event::NotifyOutcome(Ok(())),
    ]);
    let expected =
        failure(FailureKind::Submission, "there was an error during a request. error code: 415");
    assert_eq!(state, State::ErrorState { failure: expected.clone() });
    assert_eq!(actions.len(), 5);
    match &actions[2] {
        Action::Submit { request } => {
            let text = format!("{:?}", request.descriptor);
            assert!(text.contains("paths: [\"/home/user/file.torrent\"]"), "{}", text);
            assert!(text.contains("vector: []"), "{}", text);
        }
        other => panic!("{:?}", other),
    }
    assert_eq!(
        notifications(&actions),
        vec![&error_notification("there was an error during a request. error code: 415")]
    );
    assert!(matches!(&actions[4], Action::Exit { outcome: Err(reason) } if reason == &expected));
}

#[test]
fn success_that_cannot_be_shown_ends_in_failure() {
    let (state, actions) = drive(vec![
        arguments(&["send-to-qbt", "magnet:?xt=urn:btih:ABC123"]),
        Event::ConfigOutcome(Ok(settings())),
        Event::AuthOutcome(Ok(())),
        Event::SubmitOutcome(Ok(())),
        Event::NotifyOutcome(refused("no notification daemon")),
    ]);
    let expected = failure(FailureKind::Notify, "no notification daemon");
    assert_eq!(state, State::ErrorState { failure: expected.clone() });
    assert_eq!(actions.len(), 5);
    assert_eq!(notifications(&actions), vec![&OutcomeNotification::success()]);
    assert!(matches!(&actions[4], Action::Exit { outcome: Err(reason) } if reason == &expected));
}

#[test]
fn failure_that_cannot_be_shown_ends_with_the_notifier_failure() {
    let (state, actions) = drive(vec![
        arguments(&["send-to-qbt"]),
        Event::NotifyOutcome(refused("no notification daemon")),
    ]);
    let expected = failure(FailureKind::Notify, "no notification daemon");
    assert_eq!(state, State::ErrorState { failure: expected.clone() });
    assert_eq!(notifications(&actions).len(), 1);
    assert!(matches!(&actions[1], Action::Exit { outcome: Err(reason) } if reason == &expected));
}

#[test]
fn events_out_of_place_cause_no_step() {
    assert!(step(State::Start, Event::AuthOutcome(Ok(()))).is_none());
    assert!(step(State::Start, Event::NotifyOutcome(Ok(()))).is_none());
    assert!(step(State::Start, Event::ConfigOutcome(Ok(settings()))).is_none());
    let reading = State::UriRead { locator: TorrentLocator::LocalFile("a".to_string()) };
    assert!(step(reading.clone(), arguments(&["send-to-qbt", "a"])).is_none());
    assert!(step(reading, Event::SubmitOutcome(Ok(()))).is_none());
    let resolved = State::ConfigResolved { locator: TorrentLocator::LocalFile("a".to_string()) };
    assert!(step(resolved, Event::SubmitOutcome(Ok(()))).is_none());
    assert!(step(State::Authenticated, Event::AuthOutcome(Ok(()))).is_none());
    assert!(step(State::Submitted, Event::SubmitOutcome(Ok(()))).is_none());
}

#[test]
fn a_finished_run_takes_no_step() {
    assert!(step(State::Done, Event::NotifyOutcome(Ok(()))).is_none());
    assert!(step(State::Done, arguments(&["send-to-qbt", "a"])).is_none());
    assert!(step(State::Done, Event::SubmitOutcome(Ok(()))).is_none());
}

#[test]
fn a_failed_run_only_ends() {
    let failed = State::ErrorState { failure: failure(FailureKind::Auth, "no") };
    assert!(step(failed.clone(), arguments(&["send-to-qbt", "a"])).is_none());
    assert!(step(failed.clone(), Event::ConfigOutcome(Ok(settings()))).is_none());
    assert!(step(failed.clone(), Event::AuthOutcome(Ok(()))).is_none());
    assert!(step(failed.clone(), Event::SubmitOutcome(Ok(()))).is_none());
    let taken = step(failed.clone(), Event::NotifyOutcome(Ok(()))).unwrap();
    assert_eq!(taken.state, failed);
    assert!(matches!(taken.action, Action::Exit { outcome: Err(_) }));
}

#[test]
fn at_most_one_notification_whatever_arrives() {
    let (_, actions) = drive(vec![
        Event::NotifyOutcome(Ok(())),
        arguments(&["send-to-qbt", "magnet:?x"]),
        arguments(&["send-to-qbt"]),
        Event::ConfigOutcome(Ok(settings())),
        Event::ConfigOutcome(Err(failure(FailureKind::Config, "late"))),
        Event::AuthOutcome(refused("first")),
        Event::AuthOutcome(refused("second")),
        Event::SubmitOutcome(refused("third")),
        Event::NotifyOutcome(refused("fourth")),
        Event::NotifyOutcome(Ok(())),
    ]);
    assert_eq!(notifications(&actions), vec![&error_notification("first")]);
}

#[test]
fn no_notification_while_the_run_is_under_way() {
    let (state, actions) = drive(vec![
        arguments(&["send-to-qbt", "magnet:?x"]),
        Event::ConfigOutcome(Ok(settings())),
        Event::AuthOutcome(Ok(())),
    ]);
    assert_eq!(state, State::Authenticated);
    assert!(notifications(&actions).is_empty());
}

#[test]
fn status_is_zero_only_for_success() {
    assert_eq!(exit_status(&Ok(())), 0);
    for kind in [
        FailureKind::Usage,
        FailureKind::Config,
        FailureKind::Auth,
        FailureKind::Submission,
        FailureKind::Notify,
    ] {
        assert_eq!(exit_status(&Err(failure(kind, "why"))), 1);
    }
}
