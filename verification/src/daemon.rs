//! The decisions of the running daemon: what it does with each thing that
//! reaches its event loop.

use vstd::prelude::*;
use crate::watch::WatchEvent;

verus! {

/// What reaches the daemon's event loop.
#[derive(Debug, Clone, PartialEq, Eq)]
pub enum DaemonInput {
    /// A watcher reported an event.
    Event(WatchEvent),
    /// A watcher stopped with an error.
    WatcherFailed(String),
    /// Every watcher is gone and the event stream is closed.
    EventsClosed,
    /// The process was asked to shut down.
    Shutdown,
    /// Waiting for the shutdown signal failed.
    ShutdownFailed(String),
}

/// What the daemon does next.
#[derive(Debug, Clone, PartialEq, Eq)]
pub enum DaemonAction {
    /// Read the current state and set the profile it calls for.
    ApplyProfile,
    /// Leave the active profile alone and wait for the next input.
    KeepProfile,
    /// Leave the loop and exit normally.
    Stop,
    /// Leave the loop with this error.
    Fail(String),
}

/// The action for one input of the event loop. The profile is applied again
/// only when the power source changes: a lock or unlock leaves the active
/// profile alone (the lock state is read when the profile is applied), and
/// the daemon does not poll, so a profile chosen by hand stays until the next
/// plug or unplug. A shutdown request ends the loop, and anything else ends
/// it with an error.
pub fn next_daemon_action(input: DaemonInput) -> (r: DaemonAction)
    ensures
        r is ApplyProfile <==> input == DaemonInput::Event(WatchEvent::PowerSourceChanged),
        match input {
            DaemonInput::Event(WatchEvent::PowerSourceChanged) => r == DaemonAction::ApplyProfile,
            DaemonInput::Event(WatchEvent::LockStateChanged) => r == DaemonAction::KeepProfile,
            DaemonInput::WatcherFailed(error) => r == DaemonAction::Fail(error),
            DaemonInput::EventsClosed => r matches DaemonAction::Fail(message) && message@
                == "event stream ended unexpectedly"@,
            DaemonInput::Shutdown => r == DaemonAction::Stop,
            DaemonInput::ShutdownFailed(error) => r == DaemonAction::Fail(error),
        },
{
    match input {
        DaemonInput::Event(WatchEvent::PowerSourceChanged) => DaemonAction::ApplyProfile,
        DaemonInput::Event(WatchEvent::LockStateChanged) => DaemonAction::KeepProfile,
        DaemonInput::WatcherFailed(error) => DaemonAction::Fail(error),
        DaemonInput::EventsClosed => DaemonAction::Fail(String::from_str("event stream ended unexpectedly")),
        DaemonInput::Shutdown => DaemonAction::Stop,
        DaemonInput::ShutdownFailed(error) => DaemonAction::Fail(error),
    }
}

/// A step of the daemon's start, after the services were found.
#[derive(Debug, Clone, Copy, PartialEq, Eq)]
pub enum StartStep {
    /// Read the current state and set the profile it calls for.
    ApplyProfile,
    /// Watch UPower for power-source changes.
    WatchPowerSource,
    /// Watch the session's lock-state provider: its signals leave the profile
    /// alone, but a provider that fails ends the daemon.
    WatchLockState,
}

/// The steps of the daemon's start.
pub open spec fn start_plan_spec(lock_state_provider_found: bool) -> Seq<StartStep> {
    if lock_state_provider_found {
        seq![StartStep::ApplyProfile, StartStep::WatchPowerSource, StartStep::WatchLockState]
    } else {
        seq![StartStep::ApplyProfile, StartStep::WatchPowerSource]
    }
}

/// What the daemon does on start, in order: it first applies the profile
/// that the current state calls for, then watches the power source, and
/// watches the lock state only when a lock-state provider was found.
pub fn start_plan(lock_state_provider_found: bool) -> (r: Vec<StartStep>)
    ensures
        r@ == start_plan_spec(lock_state_provider_found),
        r@[0] == StartStep::ApplyProfile,
        r@.contains(StartStep::WatchLockState) <==> lock_state_provider_found,
{
    let mut steps = Vec::new();
    steps.push(StartStep::ApplyProfile);
    steps.push(StartStep::WatchPowerSource);
    if lock_state_provider_found {
        steps.push(StartStep::WatchLockState);
    }
    proof {
        assert(steps@ =~= start_plan_spec(lock_state_provider_found));
        if !lock_state_provider_found {
            assert(steps@[0] != StartStep::WatchLockState && steps@[1] != StartStep::WatchLockState);
        } else {
            assert(steps@[2] == StartStep::WatchLockState);
        }
    }
    steps
}

} // verus!
