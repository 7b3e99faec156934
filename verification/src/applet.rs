//! The panel applet, apart from its toolkit.
//!
//! The applet keeps the settings and the last report, and reacts to what
//! the user, the timer and the other instances tell it. What it shows and
//! what it starts is decided here; drawing it and doing it is the caller's.

use vstd::prelude::*;
use crate::config::{PackageUpdaterConfig, Settings};
use crate::detector::{detected, preferred, PackageManagerDetector, Probe};
use crate::package_manager::PackageManager;
use crate::text::{contains, has_infix, to_chars};
use crate::update::{UpdateInfo, UpdateReport};

verus! {

/// The seconds to let the system settle before a check at startup.
pub const STARTUP_DELAY_SECONDS: u64 = 2;

/// The seconds within which a check of our own makes a check on behalf of
/// another instance needless.
pub const SYNC_QUIET_SECONDS: u64 = 3;

/// The tab that the popup shows.
#[derive(Debug, Clone, Copy, PartialEq, Eq, Structural)]
pub enum PopupTab {
    Updates,
    Settings,
}

/// What the applet is told.
#[derive(Debug, PartialEq, Eq)]
pub enum Message {
    /// The panel button was pressed; `has_main_window` says whether there
    /// is a window to hang the popup on.
    TogglePopup { has_main_window: bool },
    /// A window was closed; `is_popup` says whether it was the popup.
    PopupClosed { is_popup: bool },
    SwitchTab(PopupTab),
    CheckForUpdates,
    DelayedStartupCheck,
    /// A check is over, with its report or the reason why it has none.
    UpdatesChecked(Result<UpdateInfo, String>),
    ConfigChanged(PackageUpdaterConfig),
    LaunchTerminalUpdate,
    TerminalFinished,
    Timer,
    /// The binaries were looked for, with these results.
    DiscoverPackageManagers(Vec<Probe>),
    SelectPackageManager(PackageManager),
    SetCheckInterval(u32),
    ToggleAutoCheck(bool),
    ToggleIncludeAur(bool),
    ToggleShowNotifications(bool),
    ToggleShowUpdateCount(bool),
    SetPreferredTerminal(String),
    /// The sync marker changed, so many seconds after our last check, if
    /// there was one.
    SyncFileChanged { since_last_check: Option<u64> },
}

/// What a `Message` stands for.
pub enum Told {
    TogglePopup { has_main_window: bool },
    PopupClosed { is_popup: bool },
    SwitchTab(PopupTab),
    CheckForUpdates,
    DelayedStartupCheck,
    UpdatesChecked(Result<UpdateReport, Seq<char>>),
    ConfigChanged(Settings),
    LaunchTerminalUpdate,
    TerminalFinished,
    Timer,
    DiscoverPackageManagers(Seq<Probe>),
    SelectPackageManager(PackageManager),
    SetCheckInterval(u32),
    ToggleAutoCheck(bool),
    ToggleIncludeAur(bool),
    ToggleShowNotifications(bool),
    ToggleShowUpdateCount(bool),
    SetPreferredTerminal(Seq<char>),
    SyncFileChanged { since_last_check: Option<u64> },
}

impl View for Message {
    type V = Told;

    open spec fn view(&self) -> Told {
        match self {
            Message::TogglePopup { has_main_window } => Told::TogglePopup {
                has_main_window: *has_main_window,
            },
            Message::PopupClosed { is_popup } => Told::PopupClosed { is_popup: *is_popup },
            Message::SwitchTab(tab) => Told::SwitchTab(*tab),
            Message::CheckForUpdates => Told::CheckForUpdates,
            Message::DelayedStartupCheck => Told::DelayedStartupCheck,
            Message::UpdatesChecked(result) => Told::UpdatesChecked(
                match result {
                    Ok(info) => Ok(info@),
                    Err(error) => Err(error@),
                },
            ),
            Message::ConfigChanged(config) => Told::ConfigChanged(config@),
            Message::LaunchTerminalUpdate => Told::LaunchTerminalUpdate,
            Message::TerminalFinished => Told::TerminalFinished,
            Message::Timer => Told::Timer,
            Message::DiscoverPackageManagers(probes) => Told::DiscoverPackageManagers(probes@),
            Message::SelectPackageManager(pm) => Told::SelectPackageManager(*pm),
            Message::SetCheckInterval(minutes) => Told::SetCheckInterval(*minutes),
            Message::ToggleAutoCheck(on) => Told::ToggleAutoCheck(*on),
            Message::ToggleIncludeAur(on) => Told::ToggleIncludeAur(*on),
            Message::ToggleShowNotifications(on) => Told::ToggleShowNotifications(*on),
            Message::ToggleShowUpdateCount(on) => Told::ToggleShowUpdateCount(*on),
            Message::SetPreferredTerminal(terminal) => Told::SetPreferredTerminal(terminal@),
            Message::SyncFileChanged { since_last_check } => Told::SyncFileChanged {
                since_last_check: *since_last_check,
            },
        }
    }
}

/// A message that the applet has itself told.
#[derive(Debug, PartialEq, Eq)]
pub enum Reply {
    CheckForUpdates,
    DelayedStartupCheck,
    ConfigChanged(PackageUpdaterConfig),
}

/// What a `Reply` stands for.
pub enum Replied {
    CheckForUpdates,
    DelayedStartupCheck,
    ConfigChanged(Settings),
}

impl Replied {
    /// The reply as a message.
    pub open spec fn told(self) -> Told {
        match self {
            Replied::CheckForUpdates => Told::CheckForUpdates,
            Replied::DelayedStartupCheck => Told::DelayedStartupCheck,
            Replied::ConfigChanged(config) => Told::ConfigChanged(config),
        }
    }
}

impl View for Reply {
    type V = Replied;

    open spec fn view(&self) -> Replied {
        match self {
            Reply::CheckForUpdates => Replied::CheckForUpdates,
            Reply::DelayedStartupCheck => Replied::DelayedStartupCheck,
            Reply::ConfigChanged(config) => Replied::ConfigChanged(config@),
        }
    }
}

impl Reply {
    /// The reply as a message.
    pub fn into_message(self) -> (r: Message)
        ensures
            r@ == self@.told(),
    {
        match self {
            Reply::CheckForUpdates => Message::CheckForUpdates,
            Reply::DelayedStartupCheck => Message::DelayedStartupCheck,
            Reply::ConfigChanged(config) => Message::ConfigChanged(config),
        }
    }
}

/// What the applet asks the caller to do.
#[derive(Debug, PartialEq, Eq)]
pub enum Effect {
    Nothing,
    /// Tell the applet this message next.
    Send(Reply),
    OpenPopup,
    ClosePopup,
    /// Run an update check and tell the applet `UpdatesChecked`.
    StartCheck { manager: PackageManager, include_aur: bool },
    /// Pause, then tell the applet `CheckForUpdates`.
    CheckAfter { seconds: u64 },
    /// Note the present moment as that of the last check.
    StampCheck,
    /// Run the upgrade command in the terminal and tell the applet
    /// `TerminalFinished` once the terminal is closed.
    LaunchTerminal { terminal: String, command: String },
    /// Store the settings; then tell the applet `DelayedStartupCheck` if
    /// `then_check` is set.
    StoreConfig { then_check: bool },
    /// Look for the binaries and tell the applet `DiscoverPackageManagers`.
    Discover,
}

/// What an `Effect` stands for.
pub enum Asked {
    Nothing,
    Send(Replied),
    OpenPopup,
    ClosePopup,
    StartCheck { manager: PackageManager, include_aur: bool },
    CheckAfter { seconds: u64 },
    StampCheck,
    LaunchTerminal { terminal: Seq<char>, command: Seq<char> },
    StoreConfig { then_check: bool },
    Discover,
}

impl View for Effect {
    type V = Asked;

    open spec fn view(&self) -> Asked {
        match self {
            Effect::Nothing => Asked::Nothing,
            Effect::Send(message) => Asked::Send(message@),
            Effect::OpenPopup => Asked::OpenPopup,
            Effect::ClosePopup => Asked::ClosePopup,
            Effect::StartCheck { manager, include_aur } => Asked::StartCheck {
                manager: *manager,
                include_aur: *include_aur,
            },
            Effect::CheckAfter { seconds } => Asked::CheckAfter { seconds: *seconds },
            Effect::StampCheck => Asked::StampCheck,
            Effect::LaunchTerminal { terminal, command } => Asked::LaunchTerminal {
                terminal: terminal@,
                command: command@,
            },
            Effect::StoreConfig { then_check } => Asked::StoreConfig { then_check: *then_check },
            Effect::Discover => Asked::Discover,
        }
    }
}

/// The views of a sequence of effects.
pub open spec fn asked(v: Seq<Effect>) -> Seq<Asked> {
    v.map_values(|e: Effect| e@)
}

/// What the applet knows.
#[derive(Debug, Clone, PartialEq, Eq)]
pub struct AppletState {
    pub popup_open: bool,
    pub active_tab: PopupTab,
    pub config: PackageUpdaterConfig,
    pub update_info: UpdateInfo,
    pub checking_updates: bool,
    pub error_message: Option<String>,
    pub available_package_managers: Vec<PackageManager>,
    /// Whether the next change of the sync marker is to be passed over:
    /// the first one comes from watching the marker, not from a check.
    pub ignore_next_sync: bool,
}

/// What an `AppletState` stands for.
pub struct Applet {
    pub popup_open: bool,
    pub active_tab: PopupTab,
    pub config: Settings,
    pub update_info: UpdateReport,
    pub checking_updates: bool,
    pub error_message: Option<Seq<char>>,
    pub available_package_managers: Seq<PackageManager>,
    pub ignore_next_sync: bool,
}

impl View for AppletState {
    type V = Applet;

    open spec fn view(&self) -> Applet {
        Applet {
            popup_open: self.popup_open,
            active_tab: self.active_tab,
            config: self.config@,
            update_info: self.update_info@,
            checking_updates: self.checking_updates,
            error_message: match self.error_message {
                Some(e) => Some(e@),
                None => None,
            },
            available_package_managers: self.available_package_managers@,
            ignore_next_sync: self.ignore_next_sync,
        }
    }
}

/// What is shown where the popup cannot be opened.
pub open spec fn popup_error() -> Seq<char> {
    "Unable to open popup window"@
}

/// What is shown in place of an error of the display protocol.
pub open spec fn display_error() -> Seq<char> {
    "Display system updated. Please restart the applet if issues persist."@
}

/// The error as it is shown: one that the display protocol raised, as it
/// does after the display system was updated, gives way to advice.
pub open spec fn shown_error(error: Seq<char>) -> Seq<char> {
    if contains(error, "Protocol error"@) || contains(error, "wl_surface"@) {
        display_error()
    } else {
        error
    }
}

impl Applet {
    /// The applet at startup, with these settings and these managers
    /// available.
    pub open spec fn initial(config: Settings, probes: Seq<Probe>) -> Applet {
        Applet {
            popup_open: false,
            active_tab: PopupTab::Updates,
            config,
            update_info: UpdateReport::empty(),
            checking_updates: false,
            error_message: None,
            available_package_managers: detected(probes),
            ignore_next_sync: true,
        }
    }

    /// What is due at startup: to look for a manager if none is chosen,
    /// and to check if the settings ask for it, after a pause where a
    /// manager is chosen, else once one is found.
    pub open spec fn startup(self) -> Seq<Asked> {
        let discover = if self.config.package_manager is None {
            seq![Asked::Discover]
        } else {
            Seq::empty()
        };
        let check = if !self.config.auto_check_on_startup {
            Seq::empty()
        } else if self.config.package_manager is Some {
            seq![Asked::CheckAfter { seconds: STARTUP_DELAY_SECONDS }]
        } else {
            seq![Asked::Send(Replied::DelayedStartupCheck)]
        };
        discover + check
    }

    /// The effect of a change of the settings: the changed settings are
    /// sent round as a message of their own.
    pub open spec fn propose(self, config: Settings) -> (Applet, Asked) {
        (self, Asked::Send(Replied::ConfigChanged(config)))
    }

    /// The applet after it was told `message`, and what it asks for.
    pub open spec fn react(self, message: Told) -> (Applet, Asked) {
        match message {
            Told::TogglePopup { has_main_window } => {
                if self.popup_open {
                    (Applet { popup_open: false, ..self }, Asked::ClosePopup)
                } else if has_main_window {
                    (Applet { popup_open: true, ..self }, Asked::OpenPopup)
                } else {
                    (Applet { error_message: Some(popup_error()), ..self }, Asked::Nothing)
                }
            },
            Told::PopupClosed { is_popup } => {
                if self.popup_open && is_popup {
                    (
                        Applet { popup_open: false, active_tab: PopupTab::Updates, ..self },
                        Asked::Nothing,
                    )
                } else {
                    (self, Asked::Nothing)
                }
            },
            Told::SwitchTab(tab) => (Applet { active_tab: tab, ..self }, Asked::Nothing),
            Told::CheckForUpdates => match self.config.package_manager {
                Some(manager) => (
                    Applet { checking_updates: true, error_message: None, ..self },
                    Asked::StartCheck { manager, include_aur: self.config.include_aur_updates },
                ),
                None => (self, Asked::Nothing),
            },
            Told::DelayedStartupCheck => {
                if self.config.auto_check_on_startup && self.config.package_manager is Some {
                    (self, Asked::CheckAfter { seconds: STARTUP_DELAY_SECONDS })
                } else {
                    (self, Asked::Nothing)
                }
            },
            Told::UpdatesChecked(result) => match result {
                Ok(report) => (
                    Applet {
                        checking_updates: false,
                        update_info: report,
                        error_message: None,
                        ..self
                    },
                    Asked::StampCheck,
                ),
                Err(error) => (
                    Applet {
                        checking_updates: false,
                        error_message: Some(shown_error(error)),
                        ..self
                    },
                    Asked::Nothing,
                ),
            },
            Told::ConfigChanged(config) => (
                Applet { config, ..self },
                Asked::StoreConfig {
                    then_check: self.config.package_manager is None && config.package_manager
                        is Some && config.auto_check_on_startup,
                },
            ),
            Told::LaunchTerminalUpdate => match self.config.package_manager {
                Some(manager) => (
                    self,
                    Asked::LaunchTerminal {
                        terminal: self.config.preferred_terminal,
                        command: manager.upgrade_command(),
                    },
                ),
                None => (self, Asked::Nothing),
            },
            Told::TerminalFinished => (self, Asked::Send(Replied::CheckForUpdates)),
            Told::Timer => {
                if !self.checking_updates && self.config.package_manager is Some {
                    (self, Asked::Send(Replied::CheckForUpdates))
                } else {
                    (self, Asked::Nothing)
                }
            },
            Told::DiscoverPackageManagers(probes) => {
                let next = Applet { available_package_managers: detected(probes), ..self };
                match preferred(probes) {
                    Some(manager) if self.config.package_manager is None => next.propose(
                        Settings { package_manager: Some(manager), ..self.config },
                    ),
                    _ => (next, Asked::Nothing),
                }
            },
            Told::SelectPackageManager(manager) => self.propose(
                Settings { package_manager: Some(manager), ..self.config },
            ),
            Told::SetCheckInterval(minutes) => self.propose(
                Settings { check_interval_minutes: minutes, ..self.config },
            ),
            Told::ToggleAutoCheck(on) => self.propose(
                Settings { auto_check_on_startup: on, ..self.config },
            ),
            Told::ToggleIncludeAur(on) => self.propose(
                Settings { include_aur_updates: on, ..self.config },
            ),
            Told::ToggleShowNotifications(on) => self.propose(
                Settings { show_notifications: on, ..self.config },
            ),
            Told::ToggleShowUpdateCount(on) => self.propose(
                Settings { show_update_count: on, ..self.config },
            ),
            Told::SetPreferredTerminal(terminal) => self.propose(
                Settings { preferred_terminal: terminal, ..self.config },
            ),
            Told::SyncFileChanged { since_last_check } => {
                if self.ignore_next_sync {
                    (Applet { ignore_next_sync: false, ..self }, Asked::Nothing)
                } else if !self.checking_updates && self.config.package_manager is Some && (
                since_last_check matches Some(seconds) ==> seconds > SYNC_QUIET_SECONDS) {
                    (self, Asked::Send(Replied::CheckForUpdates))
                } else {
                    (self, Asked::Nothing)
                }
            },
        }
    }
}

/// An applet without a manager that is to check at startup comes to its
/// check by way of discovery: what is found brings the preferred manager
/// into the settings, the settings are stored, and the check that was put
/// off is made after a pause.
pub proof fn lemma_discovery_brings_check(applet: Applet, probes: Seq<Probe>)
    requires
        applet.config.package_manager is None,
        applet.config.auto_check_on_startup,
        preferred(probes) is Some,
    ensures
        ({
            let (found, first) = applet.react(Told::DiscoverPackageManagers(probes));
            &&& first matches Asked::Send(reply)
            &&& ({
                let (chosen, second) = found.react(reply.told());
                &&& chosen.config.package_manager == preferred(probes)
                &&& chosen.available_package_managers == detected(probes)
                &&& second == (Asked::StoreConfig { then_check: true })
                &&& chosen.react(Told::DelayedStartupCheck).1 == (Asked::CheckAfter {
                    seconds: STARTUP_DELAY_SECONDS,
                })
            })
        }),
{
}

/// The error as it is shown.
pub fn show_error(error: String) -> (r: String)
    ensures
        r@ == shown_error(error@),
{
    let chars = to_chars(error.as_str());
    if has_infix(&chars, "Protocol error") || has_infix(&chars, "wl_surface") {
        "Display system updated. Please restart the applet if issues persist.".to_owned()
    } else {
        error
    }
}

impl AppletState {
    /// The applet at startup, with these settings, where `probes` is what
    /// came of looking for the binaries.
    pub fn new(config: PackageUpdaterConfig, probes: &Vec<Probe>) -> (r: AppletState)
        ensures
            r@ == Applet::initial(config@, probes@),
    {
        AppletState {
            popup_open: false,
            active_tab: PopupTab::Updates,
            config,
            update_info: UpdateInfo::new(),
            checking_updates: false,
            error_message: None,
            available_package_managers: PackageManagerDetector::detect_available(probes),
            ignore_next_sync: true,
        }
    }

    /// What is due at startup.
    pub fn startup(&self) -> (r: Vec<Effect>)
        ensures
            asked(r@) == self@.startup(),
    {
        let mut effects: Vec<Effect> = Vec::new();
        if self.config.package_manager.is_none() {
            effects.push(Effect::Discover);
        }
        if self.config.auto_check_on_startup {
            if self.config.package_manager.is_some() {
                effects.push(Effect::CheckAfter { seconds: STARTUP_DELAY_SECONDS });
            } else {
                effects.push(Effect::Send(Reply::DelayedStartupCheck));
            }
        }
        assert(asked(effects@) =~= self@.startup());
        effects
    }

    /// Tells the applet `message`; the result is what the applet asks for.
    pub fn update(&mut self, message: Message) -> (effect: Effect)
        ensures
            final(self)@ == old(self)@.react(message@).0,
            effect@ == old(self)@.react(message@).1,
    {
        match message {
            Message::TogglePopup { has_main_window } => self.toggle_popup(has_main_window),
            Message::PopupClosed { is_popup } => self.popup_closed(is_popup),
            Message::SwitchTab(tab) => {
                self.active_tab = tab;
                Effect::Nothing
            },
            Message::CheckForUpdates => self.check_for_updates(),
            Message::DelayedStartupCheck => {
                if self.config.auto_check_on_startup && self.config.package_manager.is_some() {
                    Effect::CheckAfter { seconds: STARTUP_DELAY_SECONDS }
                } else {
                    Effect::Nothing
                }
            },
            Message::UpdatesChecked(result) => self.updates_checked(result),
            Message::ConfigChanged(config) => self.config_changed(config),
            Message::LaunchTerminalUpdate => self.launch_terminal(),
            Message::TerminalFinished => Effect::Send(Reply::CheckForUpdates),
            Message::Timer => {
                if !self.checking_updates && self.config.package_manager.is_some() {
                    Effect::Send(Reply::CheckForUpdates)
                } else {
                    Effect::Nothing
                }
            },
            Message::DiscoverPackageManagers(probes) => self.discovered(probes),
            Message::SelectPackageManager(manager) => {
                let mut config = self.config.copy();
                config.package_manager = Some(manager);
                Effect::Send(Reply::ConfigChanged(config))
            },
            Message::SetCheckInterval(minutes) => {
                let mut config = self.config.copy();
                config.check_interval_minutes = minutes;
                Effect::Send(Reply::ConfigChanged(config))
            },
            Message::ToggleAutoCheck(on) => {
                let mut config = self.config.copy();
                config.auto_check_on_startup = on;
                Effect::Send(Reply::ConfigChanged(config))
            },
            Message::ToggleIncludeAur(on) => {
                let mut config = self.config.copy();
                config.include_aur_updates = on;
                Effect::Send(Reply::ConfigChanged(config))
            },
            Message::ToggleShowNotifications(on) => {
                let mut config = self.config.copy();
                config.show_notifications = on;
                Effect::Send(Reply::ConfigChanged(config))
            },
            Message::ToggleShowUpdateCount(on) => {
                let mut config = self.config.copy();
                config.show_update_count = on;
                Effect::Send(Reply::ConfigChanged(config))
            },
            Message::SetPreferredTerminal(terminal) => {
                let mut config = self.config.copy();
                config.preferred_terminal = terminal;
                Effect::Send(Reply::ConfigChanged(config))
            },
            Message::SyncFileChanged { since_last_check } => self.sync_file_changed(
                since_last_check,
            ),
        }
    }

    fn toggle_popup(&mut self, has_main_window: bool) -> (effect: Effect)
        ensures
            final(self)@ == old(self)@.react(Told::TogglePopup { has_main_window }).0,
            effect@ == old(self)@.react(Told::TogglePopup { has_main_window }).1,
    {
        if self.popup_open {
            self.popup_open = false;
            Effect::ClosePopup
        } else if has_main_window {
            self.popup_open = true;
            Effect::OpenPopup
        } else {
            self.error_message = Some("Unable to open popup window".to_owned());
            Effect::Nothing
        }
    }

    fn popup_closed(&mut self, is_popup: bool) -> (effect: Effect)
        ensures
            final(self)@ == old(self)@.react(Told::PopupClosed { is_popup }).0,
            effect@ == old(self)@.react(Told::PopupClosed { is_popup }).1,
    {
        if self.popup_open && is_popup {
            self.popup_open = false;
            self.active_tab = PopupTab::Updates;
        }
        Effect::Nothing
    }

    fn check_for_updates(&mut self) -> (effect: Effect)
        ensures
            final(self)@ == old(self)@.react(Told::CheckForUpdates).0,
            effect@ == old(self)@.react(Told::CheckForUpdates).1,
    {
        match self.config.package_manager {
            Some(manager) => {
                self.checking_updates = true;
                self.error_message = None;
                Effect::StartCheck { manager, include_aur: self.config.include_aur_updates }
            },
            None => Effect::Nothing,
        }
    }

    fn updates_checked(&mut self, result: Result<UpdateInfo, String>) -> (effect: Effect)
        ensures
            final(self)@ == old(self)@.react((Message::UpdatesChecked(result))@).0,
            effect@ == old(self)@.react((Message::UpdatesChecked(result))@).1,
    {
        self.checking_updates = false;
        match result {
            Ok(info) => {
                self.update_info = info;
                self.error_message = None;
                Effect::StampCheck
            },
            Err(error) => {
                self.error_message = Some(show_error(error));
                Effect::Nothing
            },
        }
    }

    fn config_changed(&mut self, config: PackageUpdaterConfig) -> (effect: Effect)
        ensures
            final(self)@ == old(self)@.react(Told::ConfigChanged(config@)).0,
            effect@ == old(self)@.react(Told::ConfigChanged(config@)).1,
    {
        let then_check = self.config.package_manager.is_none() && config.package_manager.is_some()
            && config.auto_check_on_startup;
        self.config = config;
        Effect::StoreConfig { then_check }
    }

    fn launch_terminal(&self) -> (effect: Effect)
        ensures
            effect@ == self@.react(Told::LaunchTerminalUpdate).1,
            self@ == self@.react(Told::LaunchTerminalUpdate).0,
    {
        match self.config.package_manager {
            Some(manager) => Effect::LaunchTerminal {
                terminal: self.config.preferred_terminal.clone(),
                command: manager.system_update_command(),
            },
            None => Effect::Nothing,
        }
    }

    fn discovered(&mut self, probes: Vec<Probe>) -> (effect: Effect)
        ensures
            final(self)@ == old(self)@.react(Told::DiscoverPackageManagers(probes@)).0,
            effect@ == old(self)@.react(Told::DiscoverPackageManagers(probes@)).1,
    {
        self.available_package_managers = PackageManagerDetector::detect_available(&probes);
        match PackageManagerDetector::get_preferred(&probes) {
            Some(manager) => {
                if self.config.package_manager.is_none() {
                    let mut config = self.config.copy();
                    config.package_manager = Some(manager);
                    Effect::Send(Reply::ConfigChanged(config))
                } else {
                    Effect::Nothing
                }
            },
            None => Effect::Nothing,
        }
    }

    fn sync_file_changed(&mut self, since_last_check: Option<u64>) -> (effect: Effect)
        ensures
            final(self)@ == old(self)@.react(Told::SyncFileChanged { since_last_check }).0,
            effect@ == old(self)@.react(Told::SyncFileChanged { since_last_check }).1,
    {
        if self.ignore_next_sync {
            self.ignore_next_sync = false;
            Effect::Nothing
        } else if !self.checking_updates && self.config.package_manager.is_some() {
            let quiet = match since_last_check {
                Some(seconds) => seconds <= SYNC_QUIET_SECONDS,
                None => false,
            };
            if quiet {
                Effect::Nothing
            } else {
                Effect::Send(Reply::CheckForUpdates)
            }
        } else {
            Effect::Nothing
        }
    }
}

} // verus!
