use package_updater::applet::PopupTab;
use package_updater::config::{PackageUpdaterConfig, CONFIG_VERSION};
use package_updater::package_manager::{CheckCommand, PackageManager};

fn all_managers() -> Vec<PackageManager> {
    vec![
        PackageManager::Pacman,
        PackageManager::Paru,
        PackageManager::Yay,
        PackageManager::Apt,
        PackageManager::Dnf,
        PackageManager::Zypper,
        PackageManager::Apk,
        PackageManager::Flatpak,
    ]
}

fn command(program: &str, args: &[&str]) -> CheckCommand {
    CheckCommand {
        program: program.to_string(),
        args: args.iter().map(|a| a.to_string()).collect(),
    }
}

#[test]
fn binary_names() {
    let names: Vec<&str> = all_managers().iter().map(|pm| pm.name()).collect();
    assert_eq!(
        names,
        vec!["pacman", "paru", "yay", "apt", "dnf", "zypper", "apk", "flatpak"]
    );
}

#[test]
fn only_the_aur_helpers_support_the_aur() {
    for pm in all_managers() {
        let expected = pm == PackageManager::Paru || pm == PackageManager::Yay;
        assert_eq!(pm.supports_aur(), expected, "{:?}", pm);
    }
}

#[test]
fn system_update_commands() {
    assert_eq!(PackageManager::Pacman.system_update_command(), "sudo pacman -Syu");
    assert_eq!(PackageManager::Paru.system_update_command(), "paru -Syu");
    assert_eq!(PackageManager::Yay.system_update_command(), "yay -Syu");
    assert_eq!(
        PackageManager::Apt.system_update_command(),
        "sudo apt update && sudo apt upgrade"
    );
    assert_eq!(PackageManager::Dnf.system_update_command(), "sudo dnf upgrade");
    assert_eq!(PackageManager::Zypper.system_update_command(), "sudo zypper update");
    assert_eq!(PackageManager::Apk.system_update_command(), "sudo apk upgrade");
    assert_eq!(PackageManager::Flatpak.system_update_command(), "flatpak update");
}

#[test]
fn official_check_commands() {
    assert_eq!(PackageManager::Pacman.official_check_command(), command("checkupdates", &[]));
    assert_eq!(PackageManager::Paru.official_check_command(), command("checkupdates", &[]));
    assert_eq!(PackageManager::Yay.official_check_command(), command("checkupdates", &[]));
    assert_eq!(
        PackageManager::Apt.official_check_command(),
        command("apt", &["list", "--upgradable"])
    );
    assert_eq!(
        PackageManager::Dnf.official_check_command(),
        command("dnf", &["check-update", "-q"])
    );
    assert_eq!(
        PackageManager::Zypper.official_check_command(),
        command("zypper", &["list-updates"])
    );
    assert_eq!(PackageManager::Apk.official_check_command(), command("apk", &["-u", "list"]));
    assert_eq!(
        PackageManager::Flatpak.official_check_command(),
        command("flatpak", &["remote-ls", "--updates"])
    );
}

#[test]
fn aur_check_commands() {
    assert_eq!(
        PackageManager::Paru.aur_check_command(),
        Some(command("paru", &["-Qu", "--aur"]))
    );
    assert_eq!(
        PackageManager::Yay.aur_check_command(),
        Some(command("yay", &["-Qu", "--aur"]))
    );
    for pm in all_managers() {
        assert_eq!(pm.aur_check_command().is_some(), pm.supports_aur(), "{:?}", pm);
    }
}

#[test]
fn managers_compare_by_value() {
    let a = PackageManager::Dnf;
    let b = a;
    assert_eq!(a, b);
    assert_ne!(a, PackageManager::Apt);
}

#[test]
fn default_settings() {
    let config = PackageUpdaterConfig::default();
    assert_eq!(config.package_manager, None);
    assert_eq!(config.check_interval_minutes, 60);
    assert!(config.auto_check_on_startup);
    assert!(config.include_aur_updates);
    assert!(config.show_notifications);
    assert!(config.show_update_count);
    assert_eq!(config.preferred_terminal, "cosmic-term");
    assert_eq!(CONFIG_VERSION, 1);
    assert_ne!(PopupTab::Updates, PopupTab::Settings);
}
