//! Background scheduling for a fleet of tracked repositories.
//!
//! The crate holds the decisions of a repository synchronisation service:
//! when a repository is polled again, which monitor loops a supervisor keeps
//! alive, and when the credentials used to reach a remote are refreshed,
//! rotated or dropped. Timers, channels, watchers and network calls belong to
//! the caller, which performs the actions decided here and reports back what
//! happened.
//!
//! - [`schedule`]: the backoff schedule and the bounds of the jitter.
//! - [`poller`]: the backoff state of one repository.
//! - [`watch`]: what a batch of filesystem events means to a poller.
//! - [`monitor`]: the monitor loop of one repository.
//! - [`fleet`]: the supervisor's table of monitor loops.
//! - [`credentials`]: the credential lifecycle engine and the credential slot.
//! - [`provider`]: the identity provider's regions and addresses.
//! - [`driver`]: the loop that paces credential maintenance.
//! - [`conversation`]: the store of prior conversations.

mod clock;
pub mod conversation;
pub mod credentials;
pub mod driver;
pub mod fleet;
pub mod monitor;
pub mod poller;
pub mod provider;
pub mod schedule;
pub mod watch;
