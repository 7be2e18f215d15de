//! One authentication attempt as a state machine.
//!
//! The attempt decides; its driver acts. Each step takes the outcome of the
//! action that the attempt asked for last and answers with the next action,
//! until the action is [`Action::Conclude`]. Every failure ends the attempt:
//! nothing is retried.

use crate::config::{arg_views, required_credentials, resolve, Credentials, CredentialsView};
use crate::decimal::{decimal_digits, decimal_string};
use crate::notification::{
    notification_for, Challenge, ChallengeView, Notification, NotificationView,
};
use crate::verdict::Verdict;
use vstd::prelude::*;

verus! {

/// What the attempt is waiting for.
#[derive(Debug, PartialEq, Eq)]
pub enum Stage {
    /// The name of the user who logs in.
    AwaitingUser { credentials: Credentials, host_label: String },
    /// The conversation channel of the session.
    AwaitingChannel { credentials: Credentials, notification: Notification },
    /// The outcome of the delivery.
    AwaitingDelivery,
    /// The user's answer to the prompt.
    AwaitingResponse,
    /// Nothing: the attempt has ended with this verdict.
    Finished(Verdict),
}

/// One authentication attempt: its secret, and how far it has come.
#[derive(Debug, PartialEq, Eq)]
pub struct Attempt {
    /// The one-time secret of this attempt.
    pub secret: String,
    pub stage: Stage,
}

/// What the driver reports back.
#[derive(Debug, PartialEq, Eq)]
pub enum Event {
    /// The host named the user.
    UserResolved(String),
    /// The host could not name the user, and gave this code.
    UserUnresolved(i32),
    /// The session has a conversation channel.
    ChannelAcquired,
    /// The session has no conversation channel; the host gave this code.
    ChannelUnavailable(i32),
    /// The delivery service accepted the notification.
    Delivered,
    /// The notification could not be delivered.
    DeliveryFailed,
    /// The prompt came back, with a line of input or with none.
    Responded(Option<String>),
    /// The conversation failed, and the host gave this code.
    PromptFailed(i32),
}

/// What the driver is asked to do next.
#[derive(Debug, PartialEq, Eq)]
pub enum Action {
    /// Ask the host for the name of the user who logs in.
    ResolveUser,
    /// Acquire the conversation channel of the session.
    AcquireChannel,
    /// Send the notification with these credentials.
    Deliver { credentials: Credentials, notification: Notification },
    /// Show this prompt without echo and read one line.
    Prompt(String),
    /// Return this verdict to the host.
    Conclude(Verdict),
}

/// A stage, with text in place of strings.
pub enum StageView {
    AwaitingUser { credentials: CredentialsView, host_label: Seq<char> },
    AwaitingChannel { credentials: CredentialsView, notification: NotificationView },
    AwaitingDelivery,
    AwaitingResponse,
    Finished(Verdict),
}

/// An attempt, with text in place of strings.
pub struct AttemptView {
    pub secret: Seq<char>,
    pub stage: StageView,
}

/// An event, with text in place of strings.
pub enum EventView {
    UserResolved(Seq<char>),
    UserUnresolved(i32),
    ChannelAcquired,
    ChannelUnavailable(i32),
    Delivered,
    DeliveryFailed,
    Responded(Option<Seq<char>>),
    PromptFailed(i32),
}

/// An action, with text in place of strings.
pub enum ActionView {
    ResolveUser,
    AcquireChannel,
    Deliver { credentials: CredentialsView, notification: NotificationView },
    Prompt(Seq<char>),
    Conclude(Verdict),
}

impl View for Stage {
    type V = StageView;

    open spec fn view(&self) -> StageView {
        match *self {
            Stage::AwaitingUser { credentials, host_label } => StageView::AwaitingUser {
                credentials: credentials@,
                host_label: host_label@,
            },
            Stage::AwaitingChannel { credentials, notification } => StageView::AwaitingChannel {
                credentials: credentials@,
                notification: notification@,
            },
            Stage::AwaitingDelivery => StageView::AwaitingDelivery,
            Stage::AwaitingResponse => StageView::AwaitingResponse,
            Stage::Finished(verdict) => StageView::Finished(verdict),
        }
    }
}

impl View for Attempt {
    type V = AttemptView;

    open spec fn view(&self) -> AttemptView {
        AttemptView { secret: self.secret@, stage: self.stage@ }
    }
}

impl View for Event {
    type V = EventView;

    open spec fn view(&self) -> EventView {
        match *self {
            Event::UserResolved(name) => EventView::UserResolved(name@),
            Event::UserUnresolved(code) => EventView::UserUnresolved(code),
            Event::ChannelAcquired => EventView::ChannelAcquired,
            Event::ChannelUnavailable(code) => EventView::ChannelUnavailable(code),
            Event::Delivered => EventView::Delivered,
            Event::DeliveryFailed => EventView::DeliveryFailed,
            Event::Responded(Some(line)) => EventView::Responded(Some(line@)),
            Event::Responded(None) => EventView::Responded(None),
            Event::PromptFailed(code) => EventView::PromptFailed(code),
        }
    }
}

impl View for Action {
    type V = ActionView;

    open spec fn view(&self) -> ActionView {
        match *self {
            Action::ResolveUser => ActionView::ResolveUser,
            Action::AcquireChannel => ActionView::AcquireChannel,
            Action::Deliver { credentials, notification } => ActionView::Deliver {
                credentials: credentials@,
                notification: notification@,
            },
            Action::Prompt(text) => ActionView::Prompt(text@),
            Action::Conclude(verdict) => ActionView::Conclude(verdict),
        }
    }
}

/// The text of the prompt.
pub open spec fn prompt_text() -> Seq<char> {
    "Insert OTP: "@
}

/// The attempt ended with `verdict`, and the action that says so.
pub open spec fn concluded(secret: Seq<char>, verdict: Verdict) -> (AttemptView, ActionView) {
    (AttemptView { secret, stage: StageView::Finished(verdict) }, ActionView::Conclude(verdict))
}

/// How an attempt starts: the secret is the numeral of `number`; without
/// both credentials the attempt is over at once, with them it asks for the
/// user's name.
pub open spec fn start(args: Seq<Seq<char>>, host_label: Seq<char>, number: nat) -> (
    AttemptView,
    ActionView,
) {
    let secret = decimal_digits(number);
    match required_credentials(args) {
        Some(credentials) => (
            AttemptView { secret, stage: StageView::AwaitingUser { credentials, host_label } },
            ActionView::ResolveUser,
        ),
        None => concluded(secret, Verdict::AuthError),
    }
}

/// The verdict on the user's answer: success for the secret itself, denial
/// for any other text and for no answer.
pub open spec fn judge(secret: Seq<char>, response: Option<Seq<char>>) -> Verdict {
    if response == Some(secret) {
        Verdict::Success
    } else {
        Verdict::AuthError
    }
}

/// The transition function: the state after `event`, and the next action.
///
/// A finished attempt stays as it is and repeats its verdict. An event that
/// the attempt did not ask for ends it with a denial.
pub open spec fn next(attempt: AttemptView, event: EventView) -> (AttemptView, ActionView) {
    let secret = attempt.secret;
    match attempt.stage {
        StageView::Finished(verdict) => (attempt, ActionView::Conclude(verdict)),
        StageView::AwaitingUser { credentials, host_label } => match event {
            EventView::UserResolved(name) => (
                AttemptView {
                    secret,
                    stage: StageView::AwaitingChannel {
                        credentials,
                        notification: notification_for(
                            ChallengeView { secret, issued_to: name, host_label },
                        ),
                    },
                },
                ActionView::AcquireChannel,
            ),
            EventView::UserUnresolved(code) => concluded(secret, Verdict::Host(code)),
            _ => concluded(secret, Verdict::AuthError),
        },
        StageView::AwaitingChannel { credentials, notification } => match event {
            EventView::ChannelAcquired => (
                AttemptView { secret, stage: StageView::AwaitingDelivery },
                ActionView::Deliver { credentials, notification },
            ),
            EventView::ChannelUnavailable(code) => concluded(secret, Verdict::Host(code)),
            _ => concluded(secret, Verdict::AuthError),
        },
        StageView::AwaitingDelivery => match event {
            EventView::Delivered => (
                AttemptView { secret, stage: StageView::AwaitingResponse },
                ActionView::Prompt(prompt_text()),
            ),
            _ => concluded(secret, Verdict::AuthError),
        },
        StageView::AwaitingResponse => match event {
            EventView::Responded(response) => concluded(secret, judge(secret, response)),
            EventView::PromptFailed(code) => concluded(secret, Verdict::Host(code)),
            _ => concluded(secret, Verdict::AuthError),
        },
    }
}

/// Ends the attempt with `verdict`.
fn conclude(secret: String, verdict: Verdict) -> (ended: (Attempt, Action))
    ensures
        (ended.0@, ended.1@) == concluded(secret@, verdict),
{
    (Attempt { secret, stage: Stage::Finished(verdict) }, Action::Conclude(verdict))
}

/// Compares the user's answer with the secret, text against text.
pub fn verdict_on(secret: &String, response: &Option<String>) -> (verdict: Verdict)
    ensures
        verdict == judge(
            secret@,
            match *response {
                Some(line) => Some(line@),
                None => None,
            },
        ),
{
    match response {
        Some(line) => if *line == *secret {
            Verdict::Success
        } else {
            Verdict::AuthError
        },
        None => Verdict::AuthError,
    }
}

impl Attempt {
    /// Starts an attempt from the module arguments, the label of this host
    /// and the number that the secret is rendered from.
    pub fn new(args: &Vec<String>, host_label: String, number: u64) -> (started: (Attempt, Action))
        ensures
            (started.0@, started.1@) == start(arg_views(args@), host_label@, number as nat),
    {
        let secret = decimal_string(number);
        match resolve(args) {
            Some(credentials) => (
                Attempt { secret, stage: Stage::AwaitingUser { credentials, host_label } },
                Action::ResolveUser,
            ),
            None => conclude(secret, Verdict::AuthError),
        }
    }

    /// Takes the outcome of the last action and answers with the next one.
    pub fn step(self, event: Event) -> (stepped: (Attempt, Action))
        ensures
            (stepped.0@, stepped.1@) == next(self@, event@),
    {
        let Attempt { secret, stage } = self;
        match stage {
            Stage::Finished(verdict) => (
                Attempt { secret, stage: Stage::Finished(verdict) },
                Action::Conclude(verdict),
            ),
            Stage::AwaitingUser { credentials, host_label } => match event {
                Event::UserResolved(name) => {
                    let challenge = Challenge {
                        secret: secret.clone(),
                        issued_to: name,
                        host_label,
                    };
                    let notification = Notification::compose(&challenge);
                    (
                        Attempt { secret, stage: Stage::AwaitingChannel { credentials, notification } },
                        Action::AcquireChannel,
                    )
                },
                Event::UserUnresolved(code) => conclude(secret, Verdict::Host(code)),
                _ => conclude(secret, Verdict::AuthError),
            },
            Stage::AwaitingChannel { credentials, notification } => match event {
                Event::ChannelAcquired => (
                    Attempt { secret, stage: Stage::AwaitingDelivery },
                    Action::Deliver { credentials, notification },
                ),
                Event::ChannelUnavailable(code) => conclude(secret, Verdict::Host(code)),
                _ => conclude(secret, Verdict::AuthError),
            },
            Stage::AwaitingDelivery => match event {
                Event::Delivered => (
                    Attempt { secret, stage: Stage::AwaitingResponse },
                    Action::Prompt(String::from_str("Insert OTP: ")),
                ),
                _ => conclude(secret, Verdict::AuthError),
            },
            Stage::AwaitingResponse => match event {
                Event::Responded(response) => {
                    let verdict = verdict_on(&secret, &response);
                    conclude(secret, verdict)
                },
                Event::PromptFailed(code) => conclude(secret, Verdict::Host(code)),
                _ => conclude(secret, Verdict::AuthError),
            },
        }
    }
}

} // verus!
