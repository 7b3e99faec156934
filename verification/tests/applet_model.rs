use package_updater::applet::{show_error, AppletState, Effect, Message, PopupTab, Reply};
use package_updater::config::PackageUpdaterConfig;
use package_updater::detector::Probe;
use package_updater::package_manager::PackageManager;
use package_updater::update::{PackageUpdate, UpdateInfo};

fn no_probes() -> Vec<Probe> {
    vec![Probe::Missing; 8]
}

fn probes_with(found: &[usize]) -> Vec<Probe> {
    let mut probes = no_probes();
    for k in found {
        probes[*k] = Probe::Found;
    }
    probes
}

fn fresh() -> AppletState {
    AppletState::new(PackageUpdaterConfig::default(), &no_probes())
}

fn with_manager(pm: PackageManager) -> AppletState {
    let mut config = PackageUpdaterConfig::default();
    config.package_manager = Some(pm);
    let mut applet = AppletState::new(config, &no_probes());
    applet.ignore_next_sync = false;
    applet
}

fn report() -> UpdateInfo {
    UpdateInfo::aggregate(
        vec![PackageUpdate {
            name: "vim".to_string(),
            current_version: "9.0".to_string(),
            new_version: "9.1".to_string(),
            is_aur: false,
        }],
        vec![],
    )
}

#[test]
fn a_new_applet() {
    let applet = AppletState::new(PackageUpdaterConfig::default(), &probes_with(&[2, 7]));
    assert!(!applet.popup_open);
    assert_eq!(applet.active_tab, PopupTab::Updates);
    assert_eq!(applet.config, PackageUpdaterConfig::default());
    assert_eq!(applet.update_info, UpdateInfo::new());
    assert!(!applet.checking_updates);
    assert_eq!(applet.error_message, None);
    assert_eq!(
        applet.available_package_managers,
        vec![PackageManager::Pacman, PackageManager::Flatpak]
    );
    assert!(applet.ignore_next_sync);
}

#[test]
fn startup_without_a_manager_looks_for_one() {
    let applet = fresh();
    assert_eq!(
        applet.startup(),
        vec![Effect::Discover, Effect::Send(Reply::DelayedStartupCheck)]
    );
    let mut config = PackageUpdaterConfig::default();
    config.auto_check_on_startup = false;
    assert_eq!(AppletState::new(config, &no_probes()).startup(), vec![Effect::Discover]);
}

#[test]
fn startup_with_a_manager_checks_after_a_pause() {
    let applet = with_manager(PackageManager::Apt);
    assert_eq!(applet.startup(), vec![Effect::CheckAfter { seconds: 2 }]);
    let mut config = PackageUpdaterConfig::default();
    config.package_manager = Some(PackageManager::Apt);
    config.auto_check_on_startup = false;
    assert_eq!(AppletState::new(config, &no_probes()).startup(), vec![]);
}

#[test]
fn the_popup_opens_and_closes() {
    let mut applet = fresh();
    assert_eq!(applet.update(Message::TogglePopup { has_main_window: true }), Effect::OpenPopup);
    assert!(applet.popup_open);
    assert_eq!(applet.update(Message::SwitchTab(PopupTab::Settings)), Effect::Nothing);
    assert_eq!(applet.active_tab, PopupTab::Settings);
    assert_eq!(applet.update(Message::TogglePopup { has_main_window: true }), Effect::ClosePopup);
    assert!(!applet.popup_open);
    assert_eq!(applet.active_tab, PopupTab::Settings);
}

#[test]
fn the_popup_cannot_open_without_a_window() {
    let mut applet = fresh();
    assert_eq!(applet.update(Message::TogglePopup { has_main_window: false }), Effect::Nothing);
    assert!(!applet.popup_open);
    assert_eq!(applet.error_message, Some("Unable to open popup window".to_string()));
}

#[test]
fn closing_the_popup_goes_back_to_the_updates() {
    let mut applet = fresh();
    applet.update(Message::TogglePopup { has_main_window: true });
    applet.update(Message::SwitchTab(PopupTab::Settings));
    assert_eq!(applet.update(Message::PopupClosed { is_popup: false }), Effect::Nothing);
    assert!(applet.popup_open);
    assert_eq!(applet.active_tab, PopupTab::Settings);
    assert_eq!(applet.update(Message::PopupClosed { is_popup: true }), Effect::Nothing);
    assert!(!applet.popup_open);
    assert_eq!(applet.active_tab, PopupTab::Updates);
}

#[test]
fn a_check_needs_a_manager() {
    let mut applet = fresh();
    assert_eq!(applet.update(Message::CheckForUpdates), Effect::Nothing);
    assert!(!applet.checking_updates);

    let mut applet = with_manager(PackageManager::Paru);
    applet.error_message = Some("old".to_string());
    assert_eq!(
        applet.update(Message::CheckForUpdates),
        Effect::StartCheck { manager: PackageManager::Paru, include_aur: true }
    );
    assert!(applet.checking_updates);
    assert_eq!(applet.error_message, None);

    let mut applet = with_manager(PackageManager::Paru);
    applet.config.include_aur_updates = false;
    assert_eq!(
        applet.update(Message::CheckForUpdates),
        Effect::StartCheck { manager: PackageManager::Paru, include_aur: false }
    );
}

#[test]
fn a_report_is_kept() {
    let mut applet = with_manager(PackageManager::Apt);
    applet.update(Message::CheckForUpdates);
    assert_eq!(applet.update(Message::UpdatesChecked(Ok(report()))), Effect::StampCheck);
    assert!(!applet.checking_updates);
    assert_eq!(applet.update_info, report());
    assert_eq!(applet.error_message, None);
}

#[test]
fn an_error_is_kept_and_the_report_stays() {
    let mut applet = with_manager(PackageManager::Apt);
    applet.update(Message::UpdatesChecked(Ok(report())));
    applet.update(Message::CheckForUpdates);
    assert_eq!(
        applet.update(Message::UpdatesChecked(Err("Update check already in progress".to_string()))),
        Effect::Nothing
    );
    assert!(!applet.checking_updates);
    assert_eq!(applet.error_message, Some("Update check already in progress".to_string()));
    assert_eq!(applet.update_info, report());
}

#[test]
fn display_errors_give_way_to_advice() {
    let advice = "Display system updated. Please restart the applet if issues persist.";
    assert_eq!(show_error("Protocol error 7 on object".to_string()), advice);
    assert_eq!(show_error("lost wl_surface@12".to_string()), advice);
    assert_eq!(show_error("protocol error".to_string()), "protocol error");
    assert_eq!(show_error("".to_string()), "");
    let mut applet = with_manager(PackageManager::Apt);
    applet.update(Message::UpdatesChecked(Err("x Protocol error y".to_string())));
    assert_eq!(applet.error_message, Some(advice.to_string()));
}

#[test]
fn the_timer_checks_unless_a_check_runs() {
    let mut applet = fresh();
    assert_eq!(applet.update(Message::Timer), Effect::Nothing);
    let mut applet = with_manager(PackageManager::Dnf);
    assert_eq!(applet.update(Message::Timer), Effect::Send(Reply::CheckForUpdates));
    applet.update(Message::CheckForUpdates);
    assert_eq!(applet.update(Message::Timer), Effect::Nothing);
}

#[test]
fn the_terminal_runs_the_upgrade() {
    let mut applet = fresh();
    assert_eq!(applet.update(Message::LaunchTerminalUpdate), Effect::Nothing);
    let mut applet = with_manager(PackageManager::Dnf);
    assert_eq!(
        applet.update(Message::LaunchTerminalUpdate),
        Effect::LaunchTerminal {
            terminal: "cosmic-term".to_string(),
            command: "sudo dnf upgrade".to_string(),
        }
    );
    assert_eq!(applet.update(Message::TerminalFinished), Effect::Send(Reply::CheckForUpdates));
}

#[test]
fn changes_of_the_settings_are_sent_round() {
    let mut applet = with_manager(PackageManager::Dnf);
    let cases: Vec<(Message, Box<dyn Fn(&mut PackageUpdaterConfig)>)> = vec![
        (
            Message::SelectPackageManager(PackageManager::Apk),
            Box::new(|c| c.package_manager = Some(PackageManager::Apk)),
        ),
        (Message::SetCheckInterval(15), Box::new(|c| c.check_interval_minutes = 15)),
        (Message::ToggleAutoCheck(false), Box::new(|c| c.auto_check_on_startup = false)),
        (Message::ToggleIncludeAur(false), Box::new(|c| c.include_aur_updates = false)),
        (Message::ToggleShowNotifications(false), Box::new(|c| c.show_notifications = false)),
        (Message::ToggleShowUpdateCount(false), Box::new(|c| c.show_update_count = false)),
        (
            Message::SetPreferredTerminal("kitty".to_string()),
            Box::new(|c| c.preferred_terminal = "kitty".to_string()),
        ),
    ];
    for (message, change) in cases {
        let before = applet.clone();
        let mut expected = applet.config.clone();
        change(&mut expected);
        assert_eq!(applet.update(message), Effect::Send(Reply::ConfigChanged(expected)));
        assert_eq!(applet, before);
    }
}

#[test]
fn changed_settings_are_stored() {
    let mut applet = with_manager(PackageManager::Dnf);
    let mut config = applet.config.clone();
    config.check_interval_minutes = 5;
    assert_eq!(
        applet.update(Message::ConfigChanged(config.clone())),
        Effect::StoreConfig { then_check: false }
    );
    assert_eq!(applet.config, config);
}

#[test]
fn the_first_manager_brings_the_startup_check() {
    let mut applet = fresh();
    let mut config = applet.config.clone();
    config.package_manager = Some(PackageManager::Apt);
    assert_eq!(
        applet.update(Message::ConfigChanged(config.clone())),
        Effect::StoreConfig { then_check: true }
    );
    assert_eq!(
        applet.update(Message::DelayedStartupCheck),
        Effect::CheckAfter { seconds: 2 }
    );

    let mut applet = fresh();
    config.auto_check_on_startup = false;
    assert_eq!(
        applet.update(Message::ConfigChanged(config)),
        Effect::StoreConfig { then_check: false }
    );
    assert_eq!(applet.update(Message::DelayedStartupCheck), Effect::Nothing);
    assert_eq!(fresh().update(Message::DelayedStartupCheck), Effect::Nothing);
}

#[test]
fn discovery_proposes_the_preferred_manager() {
    let mut applet = fresh();
    let mut expected = PackageUpdaterConfig::default();
    expected.package_manager = Some(PackageManager::Yay);
    assert_eq!(
        applet.update(Message::DiscoverPackageManagers(probes_with(&[1, 2, 7]))),
        Effect::Send(Reply::ConfigChanged(expected))
    );
    assert_eq!(
        applet.available_package_managers,
        vec![PackageManager::Yay, PackageManager::Pacman, PackageManager::Flatpak]
    );
    assert_eq!(applet.config.package_manager, None);
}

#[test]
fn discovery_leaves_a_chosen_manager() {
    let mut applet = with_manager(PackageManager::Flatpak);
    assert_eq!(
        applet.update(Message::DiscoverPackageManagers(probes_with(&[3, 7]))),
        Effect::Nothing
    );
    assert_eq!(
        applet.available_package_managers,
        vec![PackageManager::Apt, PackageManager::Flatpak]
    );
    assert_eq!(applet.config.package_manager, Some(PackageManager::Flatpak));

    let mut applet = fresh();
    assert_eq!(applet.update(Message::DiscoverPackageManagers(no_probes())), Effect::Nothing);
    assert_eq!(applet.available_package_managers, vec![]);
}

#[test]
fn the_first_change_of_the_marker_is_passed_over() {
    let mut config = PackageUpdaterConfig::default();
    config.package_manager = Some(PackageManager::Apt);
    let mut applet = AppletState::new(config, &no_probes());
    assert_eq!(
        applet.update(Message::SyncFileChanged { since_last_check: None }),
        Effect::Nothing
    );
    assert!(!applet.ignore_next_sync);
    assert_eq!(
        applet.update(Message::SyncFileChanged { since_last_check: None }),
        Effect::Send(Reply::CheckForUpdates)
    );
}

#[test]
fn a_change_of_the_marker_soon_after_a_check_is_passed_over() {
    let mut applet = with_manager(PackageManager::Apt);
    for (seconds, expected) in [
        (0, Effect::Nothing),
        (3, Effect::Nothing),
        (4, Effect::Send(Reply::CheckForUpdates)),
        (3600, Effect::Send(Reply::CheckForUpdates)),
    ] {
        assert_eq!(
            applet.update(Message::SyncFileChanged { since_last_check: Some(seconds) }),
            expected
        );
    }
    applet.update(Message::CheckForUpdates);
    assert_eq!(
        applet.update(Message::SyncFileChanged { since_last_check: Some(100) }),
        Effect::Nothing
    );
    let mut applet = fresh();
    applet.ignore_next_sync = false;
    assert_eq!(
        applet.update(Message::SyncFileChanged { since_last_check: None }),
        Effect::Nothing
    );
}

#[test]
fn settings_can_be_copied() {
    let mut config = PackageUpdaterConfig::default();
    config.preferred_terminal = "alacritty".to_string();
    config.package_manager = Some(PackageManager::Zypper);
    assert_eq!(config.copy(), config);
}

#[test]
fn replies_are_messages() {
    assert_eq!(Reply::CheckForUpdates.into_message(), Message::CheckForUpdates);
    assert_eq!(Reply::DelayedStartupCheck.into_message(), Message::DelayedStartupCheck);
    let config = PackageUpdaterConfig::default();
    assert_eq!(
        Reply::ConfigChanged(config.clone()).into_message(),
        Message::ConfigChanged(config)
    );
}
