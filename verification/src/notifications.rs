//! Desktop notification vocabulary and error classification.

use vstd::prelude::*;

use crate::text::{contains_seq, contains_text, owned};

verus! {

/// The category of a notification failure.
#[derive(Debug, Clone, Copy, PartialEq, Eq, Structural)]
pub enum NotificationErrorKind {
    Unavailable,
    Protocol,
    PermissionDenied,
}

/// A notification failure with a user-facing message.
#[derive(Debug, Clone, PartialEq, Eq)]
pub struct NotificationError {
    pub kind: NotificationErrorKind,
    pub message: String,
}

impl NotificationError {
    /// A failure to reach the notification service.
    pub fn unavailable(message: &str) -> (error: Self)
        ensures
            error.kind == NotificationErrorKind::Unavailable,
            error.message@ == message@,
    {
        NotificationError { kind: NotificationErrorKind::Unavailable, message: owned(message) }
    }

    /// A failure in the exchange with the notification service.
    pub fn protocol(message: &str) -> (error: Self)
        ensures
            error.kind == NotificationErrorKind::Protocol,
            error.message@ == message@,
    {
        NotificationError { kind: NotificationErrorKind::Protocol, message: owned(message) }
    }

    /// The category of this failure.
    pub fn kind(&self) -> (kind: NotificationErrorKind)
        ensures
            kind == self.kind,
    {
        self.kind
    }
}

/// One desktop notification.
#[derive(Debug, Clone, PartialEq, Eq)]
pub struct AlertNotification {
    pub summary: String,
    pub body: String,
}

/// Delivers desktop notifications.
pub trait AlertNotifier {
    fn notify(&self, notification: &AlertNotification) -> Result<(), NotificationError>;
}

/// The kind of a failed capability query: a refusal by the bus is a
/// permission problem, anything else means the service is unavailable.
pub open spec fn query_failure_kind(message: Seq<char>) -> NotificationErrorKind {
    if contains_seq(message, "AccessDenied"@) {
        NotificationErrorKind::PermissionDenied
    } else {
        NotificationErrorKind::Unavailable
    }
}

/// Classifies a failed capability query by the bus error's text.
pub fn classify_query_failure(message: &str) -> (kind: NotificationErrorKind)
    ensures
        kind == query_failure_kind(message@),
{
    if contains_text(message, "AccessDenied") {
        NotificationErrorKind::PermissionDenied
    } else {
        NotificationErrorKind::Unavailable
    }
}

} // verus!
