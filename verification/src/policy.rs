//! The profile policy: which power profile a power source and a lock state
//! call for, and whether the active profile has to change.

use vstd::prelude::*;
use crate::text::str_equal;

verus! {

/// The profile used on AC power while the session is unlocked or has no lock-state provider.
pub const PROFILE_PERFORMANCE: &'static str = "performance";

/// The profile used on battery, and on AC power while the session is locked.
pub const PROFILE_POWERSAVE: &'static str = "power-saver";

/// Where the machine draws its power from.
#[derive(Debug, Clone, Copy, PartialEq, Eq)]
pub enum PowerSource {
    Ac,
    Battery,
}

/// Whether the session screen is locked.
#[derive(Debug, Clone, Copy, PartialEq, Eq)]
pub enum LockState {
    Locked,
    Unlocked,
}

/// What to do with the active profile: keep it, or set it to `desired_profile`.
#[derive(Debug, Clone, PartialEq, Eq)]
pub enum ProfileDecision {
    Unchanged { desired_profile: &'static str },
    Change { desired_profile: &'static str },
}

/// The profile that a power source and a lock state call for.
pub open spec fn desired_profile_spec(power_source: PowerSource, lock_state: Option<LockState>) -> &'static str {
    match power_source {
        PowerSource::Battery => PROFILE_POWERSAVE,
        PowerSource::Ac => match lock_state {
            Some(LockState::Locked) => PROFILE_POWERSAVE,
            _ => PROFILE_PERFORMANCE,
        },
    }
}

/// The decision for a power source, a lock state and the active profile's name.
pub open spec fn decide_spec(
    power_source: PowerSource,
    lock_state: Option<LockState>,
    current_profile: Seq<char>,
) -> ProfileDecision {
    let desired_profile = desired_profile_spec(power_source, lock_state);
    if current_profile == desired_profile@ {
        ProfileDecision::Unchanged { desired_profile }
    } else {
        ProfileDecision::Change { desired_profile }
    }
}

/// The label of a power source in log lines.
pub open spec fn power_source_label_spec(power_source: PowerSource) -> &'static str {
    match power_source {
        PowerSource::Ac => "ac",
        PowerSource::Battery => "battery",
    }
}

/// The label of a lock state in log lines.
pub open spec fn lock_state_label_spec(lock_state: LockState) -> &'static str {
    match lock_state {
        LockState::Locked => "true",
        LockState::Unlocked => "false",
    }
}

impl PowerSource {
    /// The power source that UPower's `OnBattery` property describes.
    pub fn from_on_battery(on_battery: bool) -> (r: Self)
        ensures
            r == (if on_battery { PowerSource::Battery } else { PowerSource::Ac }),
    {
        if on_battery {
            Self::Battery
        } else {
            Self::Ac
        }
    }

    /// The label used for this power source in log lines.
    pub fn label(self) -> (r: &'static str)
        ensures
            r == power_source_label_spec(self),
    {
        match self {
            Self::Ac => "ac",
            Self::Battery => "battery",
        }
    }
}

impl LockState {
    /// The lock state that a screensaver's `GetActive` answer describes.
    pub fn from_active(active: bool) -> (r: Self)
        ensures
            r == (if active { LockState::Locked } else { LockState::Unlocked }),
    {
        if active {
            Self::Locked
        } else {
            Self::Unlocked
        }
    }

    /// The label used for this lock state in log lines.
    pub fn label(self) -> (r: &'static str)
        ensures
            r == lock_state_label_spec(self),
    {
        match self {
            Self::Locked => "true",
            Self::Unlocked => "false",
        }
    }
}

/// Decides whether the active profile `current_profile` must change, and to what.
pub fn decide_profile_action(
    power_source: PowerSource,
    lock_state: Option<LockState>,
    current_profile: &str,
) -> (r: ProfileDecision)
    ensures
        r == decide_spec(power_source, lock_state, current_profile@),
{
    let desired_profile = desired_profile(power_source, lock_state);
    if str_equal(current_profile, desired_profile) {
        ProfileDecision::Unchanged { desired_profile }
    } else {
        ProfileDecision::Change { desired_profile }
    }
}

/// The profile for a power source and a lock state: power saving on battery
/// or while locked, performance on AC otherwise.
pub fn desired_profile(power_source: PowerSource, lock_state: Option<LockState>) -> (r: &'static str)
    ensures
        r == desired_profile_spec(power_source, lock_state),
{
    match power_source {
        PowerSource::Battery => PROFILE_POWERSAVE,
        PowerSource::Ac => match lock_state {
            Some(LockState::Locked) => PROFILE_POWERSAVE,
            Some(LockState::Unlocked) | None => PROFILE_PERFORMANCE,
        },
    }
}

/// The two profiles have different names.
pub proof fn lemma_profiles_differ()
    ensures
        PROFILE_PERFORMANCE@ != PROFILE_POWERSAVE@,
{
    reveal_strlit("performance");
    reveal_strlit("power-saver");
    assert(PROFILE_PERFORMANCE@ == "performance"@);
    assert(PROFILE_POWERSAVE@ == "power-saver"@);
    assert(PROFILE_PERFORMANCE@[1] != PROFILE_POWERSAVE@[1]);
}

/// Every state calls for one of the two profiles.
pub proof fn lemma_desired_profile_is_known(power_source: PowerSource, lock_state: Option<LockState>)
    ensures
        desired_profile_spec(power_source, lock_state) == PROFILE_PERFORMANCE
            || desired_profile_spec(power_source, lock_state) == PROFILE_POWERSAVE,
{
}

/// On battery the profile is power saving, whatever the lock state.
pub proof fn lemma_battery_saves_power(lock_state: Option<LockState>)
    ensures
        desired_profile_spec(PowerSource::Battery, lock_state) == PROFILE_POWERSAVE,
{
}

/// Without a lock-state provider the profile follows the power source alone,
/// as it does while the session is unlocked.
pub proof fn lemma_no_provider_is_unlocked(power_source: PowerSource)
    ensures
        desired_profile_spec(power_source, None) == desired_profile_spec(power_source, Some(LockState::Unlocked)),
{
}

/// A decision names the desired profile, and asks for a change exactly when
/// the active profile differs from it.
pub proof fn lemma_change_iff_differs(
    power_source: PowerSource,
    lock_state: Option<LockState>,
    current_profile: Seq<char>,
)
    ensures
        decide_spec(power_source, lock_state, current_profile) is Change
            <==> current_profile != desired_profile_spec(power_source, lock_state)@,
{
}

/// Once the desired profile has been set, deciding again in the same state
/// leaves it unchanged: the daemon does not fight itself.
pub proof fn lemma_decision_settles(power_source: PowerSource, lock_state: Option<LockState>)
    ensures
        decide_spec(
            power_source,
            lock_state,
            desired_profile_spec(power_source, lock_state)@,
        ) == (ProfileDecision::Unchanged { desired_profile: desired_profile_spec(power_source, lock_state) }),
{
}

/// The two labels of each type differ, so a log line tells the states apart.
pub proof fn lemma_labels_differ()
    ensures
        power_source_label_spec(PowerSource::Ac)@ != power_source_label_spec(PowerSource::Battery)@,
        lock_state_label_spec(LockState::Locked)@ != lock_state_label_spec(LockState::Unlocked)@,
{
    reveal_strlit("ac");
    reveal_strlit("battery");
    reveal_strlit("true");
    reveal_strlit("false");
    assert("ac"@.len() != "battery"@.len());
    assert("true"@.len() != "false"@.len());
}

/// Every decision names the profile that the state calls for, which is
/// `performance` exactly on AC with the session not locked: it is a change to
/// that profile when the active profile differs from it, and leaves the
/// active profile as it is otherwise.
pub proof fn lemma_decision_names_desired_profile(
    power_source: PowerSource,
    lock_state: Option<LockState>,
    current_profile: Seq<char>,
)
    ensures
        (desired_profile_spec(power_source, lock_state) == PROFILE_PERFORMANCE) <==> (power_source == PowerSource::Ac
            && lock_state != Some(LockState::Locked)),
        (desired_profile_spec(power_source, lock_state) == PROFILE_POWERSAVE) <==> !(power_source == PowerSource::Ac
            && lock_state != Some(LockState::Locked)),
        current_profile != desired_profile_spec(power_source, lock_state)@ ==> decide_spec(
            power_source,
            lock_state,
            current_profile,
        ) == (ProfileDecision::Change { desired_profile: desired_profile_spec(power_source, lock_state) }),
        current_profile == desired_profile_spec(power_source, lock_state)@ ==> decide_spec(
            power_source,
            lock_state,
            current_profile,
        ) == (ProfileDecision::Unchanged { desired_profile: desired_profile_spec(power_source, lock_state) }),
        match decide_spec(power_source, lock_state, current_profile) {
            ProfileDecision::Change { desired_profile } => desired_profile == desired_profile_spec(
                power_source,
                lock_state,
            ) && desired_profile@ != current_profile,
            ProfileDecision::Unchanged { desired_profile } => desired_profile == desired_profile_spec(
                power_source,
                lock_state,
            ) && desired_profile@ == current_profile,
        },
{
    lemma_profiles_differ();
}

} // verus!
