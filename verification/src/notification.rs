//! The challenge of an attempt and the message that carries it to the
//! user's device.

use vstd::prelude::*;

verus! {

/// What one attempt asks of one user: the secret, who it was issued to, and
/// the machine that asks.
#[derive(Debug, PartialEq, Eq)]
pub struct Challenge {
    pub secret: String,
    pub issued_to: String,
    pub host_label: String,
}

/// The text of a challenge.
pub struct ChallengeView {
    pub secret: Seq<char>,
    pub issued_to: Seq<char>,
    pub host_label: Seq<char>,
}

impl View for Challenge {
    type V = ChallengeView;

    open spec fn view(&self) -> ChallengeView {
        ChallengeView {
            secret: self.secret@,
            issued_to: self.issued_to@,
            host_label: self.host_label@,
        }
    }
}

/// A titled text message for the delivery service.
#[derive(Debug, PartialEq, Eq)]
pub struct Notification {
    pub title: String,
    pub body: String,
}

/// The text of a notification.
pub struct NotificationView {
    pub title: Seq<char>,
    pub body: Seq<char>,
}

impl View for Notification {
    type V = NotificationView;

    open spec fn view(&self) -> NotificationView {
        NotificationView { title: self.title@, body: self.body@ }
    }
}

/// The title names the machine that asks.
pub open spec fn title_for(host_label: Seq<char>) -> Seq<char> {
    "auth: "@ + host_label
}

/// The body names the user who logs in and carries the secret.
pub open spec fn body_for(username: Seq<char>, secret: Seq<char>) -> Seq<char> {
    "User "@ + username + " is attempting to login. OTP: "@ + secret
}

/// The notification that announces a challenge.
pub open spec fn notification_for(challenge: ChallengeView) -> NotificationView {
    NotificationView {
        title: title_for(challenge.host_label),
        body: body_for(challenge.issued_to, challenge.secret),
    }
}

impl Notification {
    /// Builds the notification that announces `challenge`.
    pub fn compose(challenge: &Challenge) -> (notification: Notification)
        ensures
            notification@ == notification_for(challenge@),
    {
        let title = String::from_str("auth: ").concat(challenge.host_label.as_str());
        let mut body = String::from_str("User ");
        body.append(challenge.issued_to.as_str());
        body.append(" is attempting to login. OTP: ");
        body.append(challenge.secret.as_str());
        Notification { title, body }
    }
}

} // verus!
