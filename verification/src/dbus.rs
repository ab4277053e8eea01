//! The D-Bus services that the daemon talks to, and the order in which it
//! looks for a session lock-state provider.

use vstd::prelude::*;

verus! {

pub const POWER_PROFILES_DESTINATION: &'static str = "net.hadess.PowerProfiles";
pub const POWER_PROFILES_PATH: &'static str = "/net/hadess/PowerProfiles";
pub const POWER_PROFILES_INTERFACE: &'static str = "net.hadess.PowerProfiles";
pub const UPOWER_DESTINATION: &'static str = "org.freedesktop.UPower";
pub const UPOWER_PATH: &'static str = "/org/freedesktop/UPower";
pub const UPOWER_INTERFACE: &'static str = "org.freedesktop.UPower";
pub const FREEDESKTOP_SCREENSAVER_DESTINATION: &'static str = "org.freedesktop.ScreenSaver";
pub const FREEDESKTOP_SCREENSAVER_PATH: &'static str = "/org/freedesktop/ScreenSaver";
pub const FREEDESKTOP_SCREENSAVER_INTERFACE: &'static str = "org.freedesktop.ScreenSaver";
pub const GNOME_SCREENSAVER_DESTINATION: &'static str = "org.gnome.ScreenSaver";
pub const GNOME_SCREENSAVER_PATH: &'static str = "/org/gnome/ScreenSaver";
pub const GNOME_SCREENSAVER_INTERFACE: &'static str = "org.gnome.ScreenSaver";

/// A session service that answers `GetActive` and signals `ActiveChanged`.
#[derive(Debug, Clone, Copy, PartialEq, Eq)]
pub struct LockStateProvider {
    pub destination: &'static str,
    pub path: &'static str,
    pub interface: &'static str,
}

/// The lock-state providers, in the order in which they are tried.
pub open spec fn provider_candidates() -> Seq<LockStateProvider> {
    seq![
        LockStateProvider {
            destination: FREEDESKTOP_SCREENSAVER_DESTINATION,
            path: FREEDESKTOP_SCREENSAVER_PATH,
            interface: FREEDESKTOP_SCREENSAVER_INTERFACE,
        },
        LockStateProvider {
            destination: GNOME_SCREENSAVER_DESTINATION,
            path: GNOME_SCREENSAVER_PATH,
            interface: GNOME_SCREENSAVER_INTERFACE,
        },
    ]
}

/// What the search for a lock-state provider does next.
#[derive(Debug, Clone, Copy, PartialEq, Eq)]
pub enum DiscoveryStep {
    /// Ask `provider`, the candidate at `index`, for its lock state.
    Probe { index: usize, provider: LockStateProvider },
    /// Use `provider`.
    Found(LockStateProvider),
    /// No candidate answered.
    NotFound,
}

/// The step after the candidate at `index` was asked.
pub open spec fn discovery_next_spec(index: int, answered: bool) -> DiscoveryStep {
    if 0 <= index < provider_candidates().len() && answered {
        DiscoveryStep::Found(provider_candidates()[index])
    } else if 0 <= index + 1 < provider_candidates().len() {
        DiscoveryStep::Probe { index: (index + 1) as usize, provider: provider_candidates()[index + 1] }
    } else {
        DiscoveryStep::NotFound
    }
}

/// The candidate at `index`, if there is one.
fn provider_candidate(index: usize) -> (r: Option<LockStateProvider>)
    ensures
        index < provider_candidates().len() ==> r == Some(provider_candidates()[index as int]),
        index >= provider_candidates().len() ==> r is None,
{
    if index == 0 {
        Some(
            LockStateProvider {
                destination: FREEDESKTOP_SCREENSAVER_DESTINATION,
                path: FREEDESKTOP_SCREENSAVER_PATH,
                interface: FREEDESKTOP_SCREENSAVER_INTERFACE,
            },
        )
    } else if index == 1 {
        Some(
            LockStateProvider {
                destination: GNOME_SCREENSAVER_DESTINATION,
                path: GNOME_SCREENSAVER_PATH,
                interface: GNOME_SCREENSAVER_INTERFACE,
            },
        )
    } else {
        None
    }
}

/// The first step of the search: ask the freedesktop screensaver.
pub fn discovery_start() -> (r: DiscoveryStep)
    ensures
        r == (DiscoveryStep::Probe { index: 0, provider: provider_candidates()[0] }),
{
    DiscoveryStep::Probe {
        index: 0,
        provider: LockStateProvider {
            destination: FREEDESKTOP_SCREENSAVER_DESTINATION,
            path: FREEDESKTOP_SCREENSAVER_PATH,
            interface: FREEDESKTOP_SCREENSAVER_INTERFACE,
        },
    }
}

/// The step after the candidate at `index` was asked: use it if it answered,
/// else ask the next one, else give up.
pub fn discovery_next(index: usize, answered: bool) -> (r: DiscoveryStep)
    ensures
        r == discovery_next_spec(index as int, answered),
{
    if answered {
        if let Some(provider) = provider_candidate(index) {
            return DiscoveryStep::Found(provider);
        }
    }
    if index < 1 {
        if let Some(provider) = provider_candidate(index + 1) {
            return DiscoveryStep::Probe { index: index + 1, provider };
        }
    }
    DiscoveryStep::NotFound
}

/// The candidates are asked in order, and the first that answers is used;
/// when none answers there is none.
pub proof fn lemma_discovery_takes_first_answer(first_answers: bool, second_answers: bool)
    ensures
        discovery_next_spec(0, first_answers) == (if first_answers {
            DiscoveryStep::Found(provider_candidates()[0])
        } else {
            DiscoveryStep::Probe { index: 1, provider: provider_candidates()[1] }
        }),
        discovery_next_spec(1, second_answers) == (if second_answers {
            DiscoveryStep::Found(provider_candidates()[1])
        } else {
            DiscoveryStep::NotFound
        }),
{
}

} // verus!
