//! The one message that tells the user how the run ended.

use vstd::prelude::*;
use crate::failure::{Failure, FailureView};

verus! {

/// What is shown to the user: a short title and a text below it.
#[derive(Debug, Clone, PartialEq, Eq)]
pub struct OutcomeNotification {
    pub title: String,
    pub body: String,
}

/// The mathematical value of an [`OutcomeNotification`].
pub struct NotificationView {
    pub title: Seq<char>,
    pub body: Seq<char>,
}

impl View for OutcomeNotification {
    type V = NotificationView;

    open spec fn view(&self) -> NotificationView {
        NotificationView { title: self.title@, body: self.body@ }
    }
}

/// The notification of a run that added its torrent: always the same two
/// texts.
pub open spec fn success_notification() -> NotificationView {
    NotificationView { title: "Torrent added"@, body: "Added torrent successfully :)"@ }
}

/// The notification of a failed run: the title `Error`, and the failure's own
/// text as the body.
pub open spec fn failure_notification(failure: FailureView) -> NotificationView {
    NotificationView { title: "Error"@, body: failure.message }
}

/// The name under which every notification is sent.
pub open spec fn application_name_text() -> Seq<char> {
    "Send to qBittorrent"@
}

/// The name under which every notification is sent.
pub fn application_name() -> (name: &'static str)
    ensures
        name@ == application_name_text(),
{
    "Send to qBittorrent"
}

impl OutcomeNotification {
    /// The notification of a run that added its torrent.
    pub fn success() -> (notification: OutcomeNotification)
        ensures
            notification@ == success_notification(),
    {
        OutcomeNotification {
            title: "Torrent added".to_owned(),
            body: "Added torrent successfully :)".to_owned(),
        }
    }

    /// The notification that reports `failure`.
    pub fn failure(failure: &Failure) -> (notification: OutcomeNotification)
        ensures
            notification@ == failure_notification(failure@),
    {
        OutcomeNotification { title: "Error".to_owned(), body: failure.message.clone() }
    }
}

} // verus!
