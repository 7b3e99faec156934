//! The settings that the user keeps.

use vstd::prelude::*;
use crate::package_manager::PackageManager;

verus! {

/// The version of the settings' layout.
pub const CONFIG_VERSION: u64 = 1;

/// The settings of the applet.
#[derive(Clone, Debug, PartialEq, Eq)]
pub struct PackageUpdaterConfig {
    /// The manager to ask; none until one is chosen or detected.
    pub package_manager: Option<PackageManager>,
    pub check_interval_minutes: u32,
    pub auto_check_on_startup: bool,
    pub include_aur_updates: bool,
    pub show_notifications: bool,
    pub show_update_count: bool,
    pub preferred_terminal: String,
}

/// What a `PackageUpdaterConfig` stands for.
pub struct Settings {
    pub package_manager: Option<PackageManager>,
    pub check_interval_minutes: u32,
    pub auto_check_on_startup: bool,
    pub include_aur_updates: bool,
    pub show_notifications: bool,
    pub show_update_count: bool,
    pub preferred_terminal: Seq<char>,
}

impl View for PackageUpdaterConfig {
    type V = Settings;

    open spec fn view(&self) -> Settings {
        Settings {
            package_manager: self.package_manager,
            check_interval_minutes: self.check_interval_minutes,
            auto_check_on_startup: self.auto_check_on_startup,
            include_aur_updates: self.include_aur_updates,
            show_notifications: self.show_notifications,
            show_update_count: self.show_update_count,
            preferred_terminal: self.preferred_terminal@,
        }
    }
}

impl Settings {
    /// The terminal to propose where the user has chosen none.
    pub open spec fn default_terminal() -> Seq<char> {
        "cosmic-term"@
    }

    /// The settings of a fresh installation: no manager chosen, a check
    /// every hour and at startup, everything shown.
    pub open spec fn fresh() -> Settings {
        Settings {
            package_manager: None,
            check_interval_minutes: 60,
            auto_check_on_startup: true,
            include_aur_updates: true,
            show_notifications: true,
            show_update_count: true,
            preferred_terminal: Self::default_terminal(),
        }
    }
}

impl Default for PackageUpdaterConfig {
    fn default() -> (r: PackageUpdaterConfig)
        ensures
            r@ == Settings::fresh(),
    {
        PackageUpdaterConfig {
            package_manager: None,
            check_interval_minutes: 60,
            auto_check_on_startup: true,
            include_aur_updates: true,
            show_notifications: true,
            show_update_count: true,
            preferred_terminal: "cosmic-term".to_owned(),
        }
    }
}

impl PackageUpdaterConfig {
    /// The same settings once more.
    pub fn copy(&self) -> (r: PackageUpdaterConfig)
        ensures
            r@ == self@,
    {
        PackageUpdaterConfig {
            package_manager: self.package_manager,
            check_interval_minutes: self.check_interval_minutes,
            auto_check_on_startup: self.auto_check_on_startup,
            include_aur_updates: self.include_aur_updates,
            show_notifications: self.show_notifications,
            show_update_count: self.show_update_count,
            preferred_terminal: self.preferred_terminal.clone(),
        }
    }
}

} // verus!
