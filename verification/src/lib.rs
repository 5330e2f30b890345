//! Hands one torrent reference to a running torrent daemon and says what to
//! tell the user about it.
//!
//! The crate holds the decisions of that errand: what kind of reference the
//! user gave, what the settings file must provide, what request goes to the
//! daemon, and which step follows which. Reading the environment, talking to
//! the daemon and showing the notification are left to the caller, who is told
//! what to do next by [`orchestrator::step`].

pub mod text;
pub mod locator;
pub mod failure;
pub mod notification;
pub mod arguments;
pub mod request;
pub mod settings;
pub mod orchestrator;
pub mod run;
