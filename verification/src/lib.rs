//! One-time-password second factor for interactive login.
//!
//! An authentication attempt generates an unpredictable secret, has it
//! pushed to the user's device, asks the local session for the value the
//! user received and grants the login only when both agree. The attempt is a
//! state machine: the library decides, the caller performs each [`Action`]
//! (resolve the user, acquire the conversation channel, deliver the
//! notification, prompt) and reports the outcome as an [`Event`].

pub mod attempt;
pub mod config;
pub mod decimal;
mod environment;
pub mod hooks;
pub mod notification;
pub mod trace;
pub mod verdict;

pub use attempt::{Action, Attempt, Event, Stage};
pub use config::Credentials;
pub use hooks::PamPushover;
pub use notification::{Challenge, Notification};
pub use verdict::Verdict;
