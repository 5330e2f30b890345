use send_to_qbt::failure::{Failure, FailureKind};
use send_to_qbt::notification::{application_name, OutcomeNotification};

#[test]
fn success_has_its_fixed_texts() {
    let shown = OutcomeNotification::success();
    assert_eq!(shown.title, "Torrent added");
    assert_eq!(shown.body, "Added torrent successfully :)");
}

#[test]
fn failure_is_titled_error_and_carries_the_text() {
    let failure =
        Failure { kind: FailureKind::Auth, message: "the credetials are wrong.".to_string() };
    let shown = OutcomeNotification::failure(&failure);
    assert_eq!(shown.title, "Error");
    assert_eq!(shown.body, "the credetials are wrong.");
}

#[test]
fn failure_notification_does_not_depend_on_the_kind() {
    let kinds = [
        FailureKind::Usage,
        FailureKind::Config,
        FailureKind::Auth,
        FailureKind::Submission,
        FailureKind::Notify,
    ];
    for kind in kinds {
        let shown = OutcomeNotification::failure(&Failure { kind, message: "why".to_string() });
        assert_eq!(
            shown,
            OutcomeNotification { title: "Error".to_string(), body: "why".to_string() }
        );
    }
}

#[test]
fn failure_with_an_empty_text_has_an_empty_body() {
    let failure = Failure { kind: FailureKind::Config, message: String::new() };
    assert_eq!(OutcomeNotification::failure(&failure).body, "");
}

#[test]
fn notifications_are_sent_under_one_name() {
    assert_eq!(application_name(), "Send to qBittorrent");
}
