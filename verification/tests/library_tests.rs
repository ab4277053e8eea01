use power_profile_watcher::cli::verbosity_level;
use power_profile_watcher::daemon::{next_daemon_action, start_plan, DaemonAction, DaemonInput, StartStep};
use power_profile_watcher::dbus::{
    discovery_next, discovery_start, DiscoveryStep, LockStateProvider, FREEDESKTOP_SCREENSAVER_DESTINATION,
    FREEDESKTOP_SCREENSAVER_INTERFACE, FREEDESKTOP_SCREENSAVER_PATH, GNOME_SCREENSAVER_DESTINATION,
    GNOME_SCREENSAVER_INTERFACE, GNOME_SCREENSAVER_PATH,
};
use power_profile_watcher::policy::{
    decide_profile_action, desired_profile, LockState, PowerSource, ProfileDecision, PROFILE_PERFORMANCE,
    PROFILE_POWERSAVE,
};
use power_profile_watcher::service::{
    disable_outcome, escape_systemd_exec_argument, install_plan, parse_exec_start, removal_outcome,
    render_service_unit, service_binary_check, service_dir_from_home, service_file_check, service_unit_executable, systemctl_expect_output_outcome, systemctl_is_active_outcome,
    systemctl_user_outcome, unescape_systemd_exec_argument, verify_service_executable, CommandOutput,
    InstallStep, RemovalResult, SERVICE_NAME,
};
use power_profile_watcher::watch::{
    lock_state_watch_step, should_handle_properties_changed, upower_watch_step, PropertiesChanged, WatchEvent,
    WatcherStep,
};

fn output(success: bool, stdout: &str, stderr: &str, status: &str) -> CommandOutput {
    CommandOutput {
        success,
        stdout: stdout.to_string(),
        stderr: stderr.to_string(),
        status: status.to_string(),
    }
}

#[test]
fn locked_battery_saves_power() {
    assert_eq!(desired_profile(PowerSource::Battery, Some(LockState::Locked)), PROFILE_POWERSAVE);
    assert_eq!(desired_profile(PowerSource::Battery, None), PROFILE_POWERSAVE);
}

#[test]
fn deciding_again_after_setting_the_profile_changes_nothing() {
    for source in [PowerSource::Ac, PowerSource::Battery] {
        for lock in [None, Some(LockState::Locked), Some(LockState::Unlocked)] {
            let first = decide_profile_action(source, lock, "balanced");
            let ProfileDecision::Change { desired_profile } = first else {
                panic!("a foreign profile must be changed");
            };
            assert_eq!(
                decide_profile_action(source, lock, desired_profile),
                ProfileDecision::Unchanged { desired_profile }
            );
        }
    }
}

#[test]
fn profile_names_are_compared_exactly() {
    assert_eq!(
        decide_profile_action(PowerSource::Ac, None, "performance "),
        ProfileDecision::Change { desired_profile: PROFILE_PERFORMANCE }
    );
    assert_eq!(
        decide_profile_action(PowerSource::Ac, None, ""),
        ProfileDecision::Change { desired_profile: PROFILE_PERFORMANCE }
    );
}

#[test]
fn verbosity_selects_each_level() {
    assert_eq!(verbosity_level(0, 0), "info");
    assert_eq!(verbosity_level(1, 0), "debug");
    assert_eq!(verbosity_level(2, 0), "trace");
    assert_eq!(verbosity_level(9, 0), "trace");
    assert_eq!(verbosity_level(0, 1), "warn");
    assert_eq!(verbosity_level(0, 2), "error");
    assert_eq!(verbosity_level(0, 255), "error");
    assert_eq!(verbosity_level(255, 255), "info");
}

#[test]
fn verbosity_counts_only_the_difference() {
    assert_eq!(verbosity_level(3, 2), verbosity_level(1, 0));
    assert_eq!(verbosity_level(4, 6), verbosity_level(0, 2));
}

#[test]
fn rendered_unit_round_trips_the_executable() {
    for path in ["/usr/bin/ppw", "/tmp/a b/c d", "/opt/x y z/bin", "/tmp/\u{e9}t\u{e9}/ppw"] {
        let unit = render_service_unit(path);
        let exec_start = parse_exec_start(&unit).expect("ExecStart should be present");
        assert_eq!(unescape_systemd_exec_argument(exec_start), path);
        assert_eq!(service_unit_executable("/u", &unit), Ok(path.to_string()));
    }
}

#[test]
fn rendered_unit_has_the_expected_text() {
    assert_eq!(
        render_service_unit("/a b"),
        "[Unit]\nDescription=Watch power source and switch power profiles\nAfter=graphical-session.target\nPartOf=graphical-session.target\n\n[Service]\nType=simple\nExecStart=/a\\x20b\nEnvironment=RUST_LOG=info\nRestart=on-failure\nRestartSec=2\n\n[Install]\nWantedBy=graphical-session.target\n"
    );
}

#[test]
fn escaping_removes_every_space() {
    assert_eq!(escape_systemd_exec_argument(" a  b "), "\\x20a\\x20\\x20b\\x20");
    assert_eq!(escape_systemd_exec_argument(""), "");
    assert!(!escape_systemd_exec_argument("x y z").contains(' '));
}

#[test]
fn unescaping_reads_from_the_left_without_overlaps() {
    assert_eq!(unescape_systemd_exec_argument("\\x20\\x20"), "  ");
    assert_eq!(unescape_systemd_exec_argument("\\x2\\x20"), "\\x2 ");
    assert_eq!(unescape_systemd_exec_argument("\\x2"), "\\x2");
    assert_eq!(unescape_systemd_exec_argument("a\\X20b"), "a\\X20b");
}

#[test]
fn exec_start_value_is_trimmed() {
    assert_eq!(parse_exec_start("ExecStart=  /bin/x \t\n"), Some("/bin/x"));
    assert_eq!(parse_exec_start("ExecStart=\u{a0}/bin/x\u{2003}\n"), Some("/bin/x"));
    assert_eq!(parse_exec_start("ExecStart=/bin/x\r\nType=simple\n"), Some("/bin/x"));
}

#[test]
fn only_the_first_exec_start_line_counts() {
    assert_eq!(parse_exec_start("ExecStart=   \nExecStart=/bin/x\n"), None);
    assert_eq!(parse_exec_start("ExecStart=/bin/a\nExecStart=/bin/b\n"), Some("/bin/a"));
    assert_eq!(parse_exec_start(" ExecStart=/bin/a\n"), None);
    assert_eq!(parse_exec_start("[Service]\nExecStart=/bin/a"), Some("/bin/a"));
    assert_eq!(parse_exec_start(""), None);
}

#[test]
fn missing_exec_start_is_reported_with_the_unit_path() {
    assert_eq!(
        service_unit_executable("/home/u/.config/systemd/user/x.service", "[Service]\n"),
        Err("service file /home/u/.config/systemd/user/x.service is missing ExecStart".to_string())
    );
}

#[test]
fn executable_paths_compare_by_components() {
    assert!(verify_service_executable("/tmp//power-profile-watcher", "/tmp/power-profile-watcher").is_ok());
    assert!(verify_service_executable("/tmp/power-profile-watcher/", "/tmp/power-profile-watcher").is_ok());
    assert!(verify_service_executable("/tmp/./power-profile-watcher", "/tmp/power-profile-watcher").is_ok());
    assert!(verify_service_executable("./ppw", "ppw").is_err());
    assert!(verify_service_executable("/ppw", "ppw").is_err());
    assert!(verify_service_executable("/tmp/../ppw", "/ppw").is_err());
    assert!(verify_service_executable("/tmp/a", "/tmp/b").is_err());
}

#[test]
fn systemctl_success_is_ok() {
    assert_eq!(systemctl_user_outcome(&["daemon-reload"], &output(true, "", "boom", "exit status: 0")), Ok(()));
}

#[test]
fn systemctl_failure_prefers_error_output() {
    assert_eq!(
        systemctl_user_outcome(
            &["enable", "--now", SERVICE_NAME],
            &output(false, "out\n", "  Unit not found.\n", "exit status: 1")
        ),
        Err("systemctl --user enable --now power-profile-watcher.service failed: Unit not found.".to_string())
    );
}

#[test]
fn systemctl_failure_falls_back_to_output_then_status() {
    assert_eq!(
        systemctl_user_outcome(&["stop", "x"], &output(false, " out ", " \n", "exit status: 5")),
        Err("systemctl --user stop x failed: out".to_string())
    );
    assert_eq!(
        systemctl_user_outcome(&["daemon-reload"], &output(false, "", "", "exit status: 3")),
        Err("systemctl --user daemon-reload failed: systemctl exited with status exit status: 3".to_string())
    );
}

#[test]
fn is_active_reads_the_trimmed_state() {
    assert_eq!(systemctl_is_active_outcome("x.service", &output(true, "active\n", "", "exit status: 0")), Ok(true));
    assert_eq!(
        systemctl_is_active_outcome("x.service", &output(false, "inactive\n", "", "exit status: 3")),
        Ok(false)
    );
    assert_eq!(
        systemctl_is_active_outcome("x.service", &output(false, "reloading\n", "", "exit status: 1")),
        Err("systemctl --user is-active x.service failed: reloading".to_string())
    );
    assert_eq!(
        systemctl_is_active_outcome("x.service", &output(false, "", "no bus\n", "exit status: 1")),
        Err("systemctl --user is-active x.service failed: no bus".to_string())
    );
}

#[test]
fn expected_output_checks_state_and_success() {
    let args = ["is-enabled", SERVICE_NAME];
    assert_eq!(
        systemctl_expect_output_outcome(&args, "enabled", "enabled", &output(true, "enabled\n", "", "exit status: 0")),
        Ok(())
    );
    assert_eq!(
        systemctl_expect_output_outcome(&args, "enabled", "enabled", &output(true, "disabled\n", "", "exit status: 0")),
        Err("service is not enabled: systemctl --user is-enabled power-profile-watcher.service failed: expected enabled, got disabled".to_string())
    );
    assert_eq!(
        systemctl_expect_output_outcome(&args, "enabled", "enabled", &output(false, "enabled", "", "exit status: 1")),
        Err("service is not enabled: systemctl --user is-enabled power-profile-watcher.service failed: expected enabled, got enabled".to_string())
    );
    assert_eq!(
        systemctl_expect_output_outcome(&["is-active", "x"], "active", "running", &output(false, "", " bad ", "exit status: 3")),
        Err("service is not running: systemctl --user is-active x failed: bad".to_string())
    );
    assert_eq!(
        systemctl_expect_output_outcome(&["is-active", "x"], "active", "running", &output(false, "", "", "exit status: 3")),
        Err("service is not running: systemctl --user is-active x failed: systemctl exited with status exit status: 3".to_string())
    );
}

#[test]
fn install_stops_a_running_service_first() {
    assert_eq!(
        install_plan(true),
        vec![InstallStep::StopService, InstallStep::WriteUnit, InstallStep::ReloadDaemon, InstallStep::EnableService]
    );
    assert_eq!(install_plan(false), vec![InstallStep::WriteUnit, InstallStep::ReloadDaemon, InstallStep::EnableService]);
}

#[test]
fn uninstall_tolerates_a_missing_unit() {
    assert_eq!(disable_outcome(Err("e".to_string()), true), Err("e".to_string()));
    assert_eq!(disable_outcome(Err("e".to_string()), false), Ok(()));
    assert_eq!(disable_outcome(Ok(()), true), Ok(()));
    assert_eq!(removal_outcome(RemovalResult::Removed), Ok(()));
    assert_eq!(removal_outcome(RemovalResult::NotFound), Ok(()));
    assert_eq!(removal_outcome(RemovalResult::Failed("denied".to_string())), Err("denied".to_string()));
}

#[test]
fn discovery_takes_the_first_provider_that_answers() {
    let freedesktop = LockStateProvider {
        destination: FREEDESKTOP_SCREENSAVER_DESTINATION,
        path: FREEDESKTOP_SCREENSAVER_PATH,
        interface: FREEDESKTOP_SCREENSAVER_INTERFACE,
    };
    let gnome = LockStateProvider {
        destination: GNOME_SCREENSAVER_DESTINATION,
        path: GNOME_SCREENSAVER_PATH,
        interface: GNOME_SCREENSAVER_INTERFACE,
    };
    assert_eq!(discovery_start(), DiscoveryStep::Probe { index: 0, provider: freedesktop });
    assert_eq!(discovery_next(0, true), DiscoveryStep::Found(freedesktop));
    assert_eq!(discovery_next(0, false), DiscoveryStep::Probe { index: 1, provider: gnome });
    assert_eq!(discovery_next(1, true), DiscoveryStep::Found(gnome));
    assert_eq!(discovery_next(1, false), DiscoveryStep::NotFound);
    assert_eq!(discovery_next(7, true), DiscoveryStep::NotFound);
}

#[test]
fn daemon_applies_profiles_only_on_power_source_changes() {
    assert_eq!(next_daemon_action(DaemonInput::Event(WatchEvent::PowerSourceChanged)), DaemonAction::ApplyProfile);
    assert_eq!(next_daemon_action(DaemonInput::Event(WatchEvent::LockStateChanged)), DaemonAction::KeepProfile);
    assert_eq!(next_daemon_action(DaemonInput::Shutdown), DaemonAction::Stop);
    assert_eq!(
        next_daemon_action(DaemonInput::EventsClosed),
        DaemonAction::Fail("event stream ended unexpectedly".to_string())
    );
    assert_eq!(
        next_daemon_action(DaemonInput::WatcherFailed("gone".to_string())),
        DaemonAction::Fail("gone".to_string())
    );
    assert_eq!(
        next_daemon_action(DaemonInput::ShutdownFailed("sig".to_string())),
        DaemonAction::Fail("sig".to_string())
    );
}

#[test]
fn upower_watcher_emits_only_on_battery_changes() {
    let change = PropertiesChanged { interface_name: "org.freedesktop.UPower", changed_properties: vec!["OnBattery"] };
    assert_eq!(upower_watch_step(Some(Ok(change))), WatcherStep::Emit(WatchEvent::PowerSourceChanged));
    let other = PropertiesChanged { interface_name: "org.freedesktop.UPower", changed_properties: vec!["Percentage"] };
    assert_eq!(upower_watch_step(Some(Ok(other))), WatcherStep::Ignore);
    let empty = PropertiesChanged { interface_name: "org.freedesktop.UPower", changed_properties: vec![] };
    assert_eq!(upower_watch_step(Some(Ok(empty))), WatcherStep::Ignore);
    assert_eq!(upower_watch_step(Some(Err("bad".to_string()))), WatcherStep::Fail("bad".to_string()));
    assert_eq!(upower_watch_step(None), WatcherStep::Fail("UPower properties stream ended".to_string()));
}

#[test]
fn lock_state_watcher_emits_every_signal() {
    assert_eq!(lock_state_watch_step(Some(Ok(true))), WatcherStep::Emit(WatchEvent::LockStateChanged));
    assert_eq!(lock_state_watch_step(Some(Ok(false))), WatcherStep::Emit(WatchEvent::LockStateChanged));
    assert_eq!(lock_state_watch_step(Some(Err("body".to_string()))), WatcherStep::Fail("body".to_string()));
    assert_eq!(lock_state_watch_step(None), WatcherStep::Fail("lock-state signal stream ended".to_string()));
}

#[test]
fn empty_property_list_is_never_handled() {
    assert!(!should_handle_properties_changed("a", "b", "a", &[]));
}

#[test]
fn service_dir_is_below_home() {
    assert_eq!(
        service_dir_from_home(Some("/tmp/power-profile-watcher-home")),
        Ok("/tmp/power-profile-watcher-home/.config/systemd/user".to_string())
    );
    assert_eq!(service_dir_from_home(Some("/home/u/")), Ok("/home/u/.config/systemd/user".to_string()));
    assert_eq!(service_dir_from_home(Some("")), Ok(".config/systemd/user".to_string()));
    assert_eq!(service_dir_from_home(None), Err("HOME is not set".to_string()));
}

#[test]
fn installed_files_must_exist() {
    assert_eq!(service_file_check("/u/x.service", true), Ok(()));
    assert_eq!(service_file_check("/u/x.service", false), Err("service file not found: /u/x.service".to_string()));
    assert_eq!(service_binary_check("/bin/ppw", true), Ok(()));
    assert_eq!(service_binary_check("/bin/ppw", false), Err("service binary not found: /bin/ppw".to_string()));
}

#[test]
fn daemon_starts_by_applying_the_profile() {
    assert_eq!(
        start_plan(true),
        vec![StartStep::ApplyProfile, StartStep::WatchPowerSource, StartStep::WatchLockState]
    );
    assert_eq!(start_plan(false), vec![StartStep::ApplyProfile, StartStep::WatchPowerSource]);
}

#[test]
fn a_path_holding_an_escape_does_not_come_back() {
    let path = "/a\\x20b";
    assert_eq!(unescape_systemd_exec_argument(&escape_systemd_exec_argument(path)), "/a b");
}

#[test]
fn trimming_follows_the_white_space_property() {
    assert_eq!(parse_exec_start("ExecStart=\u{85}\u{3000}/bin/x\u{2028}\u{205f}\n"), Some("/bin/x"));
    assert_eq!(parse_exec_start("ExecStart=\u{180e}/bin/x\u{200b}\n"), Some("\u{180e}/bin/x\u{200b}"));
}
