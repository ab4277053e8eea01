//! Decision logic of a daemon that keeps the power profile in step with the
//! power source and the session lock state: the profile policy, the events
//! taken from D-Bus signals, the event loop's decisions, and the systemd user
//! service that runs the daemon.

pub mod cli;
pub mod daemon;
pub mod dbus;
pub mod policy;
pub mod service;
pub mod text;
pub mod watch;
