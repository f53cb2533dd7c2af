//! Verified core of an authenticated remote control for a desktop media
//! session.
//!
//! The crate holds the decision logic of the control surface: which of the
//! discovered media players receives commands, how the process's own
//! "virtual player" mirror is updated by each command, what every endpoint
//! replies, and how the combined status report is rendered. The plumbing
//! around it (HTTP server, desktop bus access, the virtual-player broadcast,
//! the system mixer process) lives outside the library and hands it plain
//! values.

pub mod auth;
pub mod command;
pub mod playback;
pub mod select;
pub mod status;
pub mod text;
