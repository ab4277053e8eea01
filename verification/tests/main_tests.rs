use power_profile_watcher::dbus::{FREEDESKTOP_SCREENSAVER_INTERFACE, UPOWER_INTERFACE};
use power_profile_watcher::policy::{
    decide_profile_action, desired_profile, LockState, PowerSource, ProfileDecision, PROFILE_PERFORMANCE,
    PROFILE_POWERSAVE,
};
use power_profile_watcher::service::{
    parse_exec_start, parse_systemctl_is_active, render_service_unit, unescape_systemd_exec_argument,
    verify_service_executable,
};
use power_profile_watcher::watch::{parse_lock_state_changed_signal, should_handle_properties_changed, WatchEvent};
use std::path::PathBuf;

#[test]
fn maps_ac_unlocked_to_performance_profile() {
    assert_eq!(desired_profile(PowerSource::Ac, Some(LockState::Unlocked)), PROFILE_PERFORMANCE);
}

#[test]
fn maps_ac_locked_to_power_saver_profile() {
    assert_eq!(desired_profile(PowerSource::Ac, Some(LockState::Locked)), PROFILE_POWERSAVE);
}

#[test]
fn maps_battery_to_power_saver_profile() {
    assert_eq!(desired_profile(PowerSource::Battery, Some(LockState::Unlocked)), PROFILE_POWERSAVE);
}

#[test]
fn maps_ac_without_lock_provider_to_performance_profile() {
    assert_eq!(desired_profile(PowerSource::Ac, None), PROFILE_PERFORMANCE);
}

#[test]
fn converts_false_on_battery_to_ac() {
    assert_eq!(PowerSource::from_on_battery(false), PowerSource::Ac);
}

#[test]
fn converts_true_on_battery_to_battery() {
    assert_eq!(PowerSource::from_on_battery(true), PowerSource::Battery);
}

#[test]
fn keeps_profile_unchanged_when_ac_unlocked_already_performance() {
    assert_eq!(
        decide_profile_action(PowerSource::Ac, Some(LockState::Unlocked), PROFILE_PERFORMANCE),
        ProfileDecision::Unchanged {
            desired_profile: PROFILE_PERFORMANCE,
        }
    );
}

#[test]
fn changes_profile_when_ac_locked_is_not_power_saver() {
    assert_eq!(
        decide_profile_action(PowerSource::Ac, Some(LockState::Locked), PROFILE_PERFORMANCE),
        ProfileDecision::Change {
            desired_profile: PROFILE_POWERSAVE,
        }
    );
}

#[test]
fn keeps_profile_unchanged_when_battery_already_power_saver() {
    assert_eq!(
        decide_profile_action(PowerSource::Battery, Some(LockState::Unlocked), PROFILE_POWERSAVE),
        ProfileDecision::Unchanged {
            desired_profile: PROFILE_POWERSAVE,
        }
    );
}

#[test]
fn changes_profile_when_battery_is_not_power_saver() {
    assert_eq!(
        decide_profile_action(PowerSource::Battery, Some(LockState::Unlocked), PROFILE_PERFORMANCE),
        ProfileDecision::Change {
            desired_profile: PROFILE_POWERSAVE,
        }
    );
}

#[test]
fn keeps_profile_unchanged_when_ac_without_lock_provider_already_performance() {
    assert_eq!(
        decide_profile_action(PowerSource::Ac, None, PROFILE_PERFORMANCE),
        ProfileDecision::Unchanged {
            desired_profile: PROFILE_PERFORMANCE,
        }
    );
}

#[test]
fn main_ignores_unrelated_interface_changes() {
    assert!(!should_handle_properties_changed(
        UPOWER_INTERFACE,
        "OnBattery",
        "org.example.Other",
        &["OnBattery"],
    ));
}

#[test]
fn main_ignores_upower_changes_without_on_battery_property() {
    assert!(!should_handle_properties_changed(
        UPOWER_INTERFACE,
        "OnBattery",
        UPOWER_INTERFACE,
        &["LidIsClosed", "DaemonVersion"],
    ));
}

#[test]
fn main_handles_upower_on_battery_property_changes() {
    assert!(should_handle_properties_changed(
        UPOWER_INTERFACE,
        "OnBattery",
        UPOWER_INTERFACE,
        &["OnBattery"],
    ));
}

#[test]
fn main_handles_upower_changes_when_on_battery_is_one_of_many_properties() {
    assert!(should_handle_properties_changed(
        UPOWER_INTERFACE,
        "OnBattery",
        UPOWER_INTERFACE,
        &["LidIsClosed", "OnBattery", "DaemonVersion"],
    ));
}

#[test]
fn main_handles_lock_state_active_property_changes() {
    assert!(should_handle_properties_changed(
        FREEDESKTOP_SCREENSAVER_INTERFACE,
        "Active",
        FREEDESKTOP_SCREENSAVER_INTERFACE,
        &["Active"],
    ));
}

#[test]
fn power_source_labels_are_stable_for_logging() {
    assert_eq!(PowerSource::Ac.label(), "ac");
    assert_eq!(PowerSource::Battery.label(), "battery");
}

#[test]
fn lock_state_labels_are_stable_for_logging() {
    assert_eq!(LockState::Locked.label(), "true");
    assert_eq!(LockState::Unlocked.label(), "false");
}

#[test]
fn rendered_service_uses_resolved_executable_path() {
    let unit = render_service_unit("/tmp/build output/power-profile-watcher");

    assert!(unit.contains("ExecStart=/tmp/build\\x20output/power-profile-watcher"));
    assert!(unit.contains("Environment=RUST_LOG=info"));
    assert!(unit.contains("PartOf=graphical-session.target"));
    assert!(unit.contains("WantedBy=graphical-session.target"));
}

#[test]
fn rendered_service_does_not_pull_graphical_session_in_from_default_target() {
    let unit = render_service_unit("/tmp/power-profile-watcher");

    assert!(!unit.contains("Wants=graphical-session.target"));
    assert!(!unit.contains("WantedBy=default.target"));
}

#[test]
fn parses_exec_start_from_service_unit() {
    let unit = render_service_unit("/tmp/build output/power-profile-watcher");

    assert_eq!(
        parse_exec_start(&unit),
        Some("/tmp/build\\x20output/power-profile-watcher")
    );
}

#[test]
fn parse_exec_start_returns_none_when_missing() {
    assert_eq!(parse_exec_start("[Service]\nType=simple\n"), None);
}

#[test]
fn unescapes_systemd_exec_argument_spaces() {
    assert_eq!(
        unescape_systemd_exec_argument("/tmp/build\\x20output/power-profile-watcher"),
        "/tmp/build output/power-profile-watcher"
    );
}

#[test]
fn extracts_existing_binary_path_from_rendered_service_unit() {
    let unit = render_service_unit("/tmp/build output/power-profile-watcher");
    let exec_start = parse_exec_start(&unit).expect("ExecStart should be present");

    assert_eq!(
        PathBuf::from(unescape_systemd_exec_argument(exec_start)),
        PathBuf::from("/tmp/build output/power-profile-watcher")
    );
}

#[test]
fn verify_service_executable_accepts_expected_path() {
    let executable = "/tmp/power-profile-watcher";

    assert!(verify_service_executable(executable, executable).is_ok());
}

#[test]
fn verify_service_executable_rejects_wrong_existing_path() {
    let result = verify_service_executable(
        "/usr/bin/power-profile-watcher",
        "/home/jbrown/.cargo/bin/power-profile-watcher",
    );

    assert_eq!(
        result.unwrap_err().to_string(),
        "service executable is incorrect: expected /home/jbrown/.cargo/bin/power-profile-watcher, found /usr/bin/power-profile-watcher"
    );
}

#[test]
fn main_parses_lock_state_changed_signal_when_active_is_true() {
    assert_eq!(parse_lock_state_changed_signal(true), WatchEvent::LockStateChanged);
}

#[test]
fn main_parses_lock_state_changed_signal_when_active_is_false() {
    assert_eq!(parse_lock_state_changed_signal(false), WatchEvent::LockStateChanged);
}

#[test]
fn lock_state_from_active_true_is_locked() {
    assert_eq!(LockState::from_active(true), LockState::Locked);
}

#[test]
fn lock_state_from_active_false_is_unlocked() {
    assert_eq!(LockState::from_active(false), LockState::Unlocked);
}

#[test]
fn parses_active_systemctl_state() {
    assert_eq!(parse_systemctl_is_active("active"), Some(true));
}

#[test]
fn parses_inactive_systemctl_states() {
    for state in ["inactive", "failed", "activating", "deactivating", "unknown"] {
        assert_eq!(parse_systemctl_is_active(state), Some(false));
    }
}

#[test]
fn returns_none_for_unexpected_systemctl_state() {
    assert_eq!(parse_systemctl_is_active("reloading"), None);
}
