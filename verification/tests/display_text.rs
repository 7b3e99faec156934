use package_updater::applet::AppletState;
use package_updater::config::PackageUpdaterConfig;
use package_updater::detector::Probe;
use package_updater::display::{
    clamp_interval, last_checked_text, package_text, terminal_command, terminal_marker_path,
    terminal_text, timer_seconds,
};
use package_updater::package_manager::PackageManager;
use package_updater::text::decimal_text;
use package_updater::update::{PackageUpdate, UpdateInfo};

fn applet() -> AppletState {
    AppletState::new(PackageUpdaterConfig::default(), &vec![Probe::Missing; 8])
}

fn update(name: &str, current: &str, new: &str, is_aur: bool) -> PackageUpdate {
    PackageUpdate {
        name: name.to_string(),
        current_version: current.to_string(),
        new_version: new.to_string(),
        is_aur,
    }
}

fn twelve_updates() -> UpdateInfo {
    let official = (0..12).map(|k| update(&format!("p{}", k), "1", "2", false)).collect();
    UpdateInfo::aggregate(official, vec![])
}

#[test]
fn the_icon_follows_the_state() {
    let mut a = applet();
    assert_eq!(a.get_icon_name(), "package-x-generic-symbolic");
    a.update_info = twelve_updates();
    assert_eq!(a.get_icon_name(), "software-update-available-symbolic");
    a.error_message = Some("failed".to_string());
    assert_eq!(a.get_icon_name(), "dialog-error-symbolic");
    a.checking_updates = true;
    assert_eq!(a.get_icon_name(), "view-refresh-symbolic");
}

#[test]
fn the_count_is_shown_only_where_there_are_updates() {
    let mut a = applet();
    assert_eq!(a.count_text(), "");
    a.update_info = twelve_updates();
    assert_eq!(a.count_text(), "12");
}

#[test]
fn the_headline_follows_the_state() {
    let mut a = applet();
    assert_eq!(a.status_text(), "System is up to date");
    a.update_info = twelve_updates();
    assert_eq!(a.status_text(), "12 updates available");
    a.error_message = Some("no lock".to_string());
    assert_eq!(a.status_text(), "Error: no lock");
    a.checking_updates = true;
    assert_eq!(a.status_text(), "Checking for updates...");
}

#[test]
fn origins_are_shown_for_the_aur_helpers() {
    let mut a = applet();
    assert!(!a.shows_origins());
    for (pm, expected) in [
        (PackageManager::Paru, true),
        (PackageManager::Yay, true),
        (PackageManager::Pacman, false),
        (PackageManager::Flatpak, false),
    ] {
        a.config.package_manager = Some(pm);
        assert_eq!(a.shows_origins(), expected);
    }
}

#[test]
fn the_time_of_the_last_check_in_words() {
    assert_eq!(last_checked_text(0), "Last checked: just now");
    assert_eq!(last_checked_text(59), "Last checked: just now");
    assert_eq!(last_checked_text(60), "Last checked: 1 minutes ago");
    assert_eq!(last_checked_text(3599), "Last checked: 59 minutes ago");
    assert_eq!(last_checked_text(3600), "Last checked: 1 hours ago");
    assert_eq!(last_checked_text(86_400 * 3), "Last checked: 72 hours ago");
}

#[test]
fn an_update_as_one_line() {
    assert_eq!(package_text(&update("vim", "9.0", "9.1", false)), "  vim 9.0 \u{2192} 9.1");
    assert_eq!(package_text(&update("yay-bin", "unknown", "12.1", true)), "  yay-bin \u{2192} 12.1");
    assert_eq!(package_text(&update("x", "", "2", false)), "  x  \u{2192} 2");
}

#[test]
fn the_interval_is_kept_within_a_day() {
    assert_eq!(clamp_interval(None), 60);
    assert_eq!(clamp_interval(Some(0)), 1);
    assert_eq!(clamp_interval(Some(1)), 1);
    assert_eq!(clamp_interval(Some(30)), 30);
    assert_eq!(clamp_interval(Some(1440)), 1440);
    assert_eq!(clamp_interval(Some(1441)), 1440);
    assert_eq!(clamp_interval(Some(u32::MAX)), 1440);
    for entry in ["", "abc", "15", "0", "99999", "-3"] {
        assert_eq!(
            clamp_interval(entry.parse::<u32>().ok()),
            entry.parse::<u32>().unwrap_or(60).max(1).min(1440)
        );
    }
}

#[test]
fn the_timer_counts_in_seconds() {
    assert_eq!(timer_seconds(60), 3600);
    assert_eq!(timer_seconds(0), 0);
    assert_eq!(timer_seconds(u32::MAX), u32::MAX as u64 * 60);
}

#[test]
fn an_empty_terminal_shows_the_default() {
    assert_eq!(terminal_text(""), "cosmic-term");
    assert_eq!(terminal_text("kitty"), "kitty");
    assert_eq!(terminal_text(" "), " ");
}

#[test]
fn the_marker_of_a_terminal() {
    assert_eq!(
        terminal_marker_path(Some("/run/user/1000"), 4321),
        "/run/user/1000/cosmic-package-updater-terminal-4321.marker"
    );
    assert_eq!(
        terminal_marker_path(None, 7),
        "/tmp/cosmic-package-updater-terminal-7.marker"
    );
    assert_eq!(
        terminal_marker_path(Some("/run/"), 0),
        "/run//cosmic-package-updater-terminal-0.marker"
    );
}

#[test]
fn the_command_for_the_terminal() {
    let marker = "/tmp/cosmic-package-updater-terminal-7.marker";
    assert_eq!(
        terminal_command("sudo pacman -Syu", marker),
        "sudo pacman -Syu && echo \"Update completed. Press Enter to exit...\" && read; \
         rm -f \"/tmp/cosmic-package-updater-terminal-7.marker\""
    );
    let quoted = "echo \"hi\" && true";
    assert_eq!(
        terminal_command(quoted, "m"),
        format!(
            "{} && echo \"Update completed. Press Enter to exit...\" && read; rm -f \"{}\"",
            quoted.replace("\"", "\\\""),
            "m"
        )
    );
    assert!(terminal_command(quoted, "m").starts_with("echo \\\"hi\\\" && true && echo"));
}

#[test]
fn numbers_in_decimal() {
    for n in [0u64, 1, 9, 10, 11, 99, 100, 12345, u64::MAX] {
        assert_eq!(decimal_text(n), n.to_string());
    }
}
