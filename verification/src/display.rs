//! What the applet shows, as text.

use vstd::prelude::*;
use crate::applet::{Applet, AppletState};
use crate::config::Settings;
use crate::coordinator::{runtime_dir, setting_of};
use crate::text::{decimal, decimal_text, push_decimal, same_text, to_chars};
use crate::update::{unknown, PackageUpdate, UpdateRecord};

verus! {

/// The shortest and the longest time between two checks, in minutes.
pub const MIN_INTERVAL_MINUTES: u32 = 1;

pub const MAX_INTERVAL_MINUTES: u32 = 1440;

/// The time between two checks where the user's entry is no number.
pub const DEFAULT_INTERVAL_MINUTES: u32 = 60;

/// The name of the icon that stands for the state of the applet: a check
/// in progress comes before an error, and an error before updates.
pub open spec fn icon_for(applet: Applet) -> Seq<char> {
    if applet.checking_updates {
        "view-refresh-symbolic"@
    } else if applet.error_message is Some {
        "dialog-error-symbolic"@
    } else if applet.update_info.total > 0 {
        "software-update-available-symbolic"@
    } else {
        "package-x-generic-symbolic"@
    }
}

/// The number beside the icon: the count of updates, or nothing where
/// there are none.
pub open spec fn count_label(total: nat) -> Seq<char> {
    if total > 0 {
        decimal(total)
    } else {
        Seq::empty()
    }
}

/// The headline of the popup.
pub open spec fn status_line(applet: Applet) -> Seq<char> {
    if applet.checking_updates {
        "Checking for updates..."@
    } else if applet.error_message is Some {
        "Error: "@ + applet.error_message->0
    } else if applet.update_info.total > 0 {
        decimal(applet.update_info.total) + " updates available"@
    } else {
        "System is up to date"@
    }
}

/// How long ago the last check was, in words.
pub open spec fn last_checked(seconds: nat) -> Seq<char> {
    if seconds < 60 {
        "Last checked: just now"@
    } else if seconds < 3600 {
        "Last checked: "@ + decimal(seconds / 60) + " minutes ago"@
    } else {
        "Last checked: "@ + decimal(seconds / 3600) + " hours ago"@
    }
}

/// One line of the list of updates. The installed version is left out
/// where it is not known.
pub open spec fn package_line(p: UpdateRecord) -> Seq<char> {
    if p.current_version != unknown() {
        "  "@ + p.name + " "@ + p.current_version + " \u{2192} "@ + p.new_version
    } else {
        "  "@ + p.name + " \u{2192} "@ + p.new_version
    }
}

/// The time between two checks that an entry of the user stands for: the
/// number entered, or an hour where it is no number, but no less than a
/// minute and no more than a day.
pub open spec fn interval_for(entry: Option<u32>) -> u32 {
    let minutes = match entry {
        Some(m) => m,
        None => DEFAULT_INTERVAL_MINUTES,
    };
    if minutes < MIN_INTERVAL_MINUTES {
        MIN_INTERVAL_MINUTES
    } else if minutes > MAX_INTERVAL_MINUTES {
        MAX_INTERVAL_MINUTES
    } else {
        minutes
    }
}

/// The terminal that the settings field shows: the one chosen, or the one
/// to propose where none is chosen.
pub open spec fn terminal_shown(terminal: Seq<char>) -> Seq<char> {
    if terminal.len() == 0 {
        Settings::default_terminal()
    } else {
        terminal
    }
}

/// `s` with a backslash before each double quote.
pub open spec fn escape_quotes(s: Seq<char>) -> Seq<char>
    decreases s.len(),
{
    if s.len() == 0 {
        Seq::empty()
    } else if s.last() == '"' {
        escape_quotes(s.drop_last()).push('\\').push('"')
    } else {
        escape_quotes(s.drop_last()).push(s.last())
    }
}

/// The path of the file that marks a terminal of the process `pid` as
/// open.
pub open spec fn terminal_marker(setting: Option<Seq<char>>, pid: nat) -> Seq<char> {
    runtime_dir(setting) + "/cosmic-package-updater-terminal-"@ + decimal(pid) + ".marker"@
}

/// The shell command that runs `command`, waits for the user, and removes
/// the marker whether or not the command succeeded.
pub open spec fn terminal_script(command: Seq<char>, marker: Seq<char>) -> Seq<char> {
    escape_quotes(command) + " && echo \"Update completed. Press Enter to exit...\" && read; rm -f \""@
        + marker + "\""@
}

impl AppletState {
    /// The name of the icon that stands for the state of the applet.
    pub fn get_icon_name(&self) -> (r: &'static str)
        ensures
            r@ == icon_for(self@),
    {
        if self.checking_updates {
            "view-refresh-symbolic"
        } else if self.error_message.is_some() {
            "dialog-error-symbolic"
        } else if self.update_info.has_updates() {
            "software-update-available-symbolic"
        } else {
            "package-x-generic-symbolic"
        }
    }

    /// The number beside the icon.
    pub fn count_text(&self) -> (r: String)
        ensures
            r@ == count_label(self@.update_info.total),
    {
        if self.update_info.total_updates > 0 {
            decimal_text(self.update_info.total_updates as u64)
        } else {
            String::new()
        }
    }

    /// The headline of the popup.
    pub fn status_text(&self) -> (r: String)
        ensures
            r@ == status_line(self@),
    {
        if self.checking_updates {
            return "Checking for updates...".to_owned();
        }
        match &self.error_message {
            Some(error) => {
                let mut out = "Error: ".to_owned();
                out.append(error.as_str());
                out
            },
            None => {
                if self.update_info.total_updates > 0 {
                    let mut out = decimal_text(self.update_info.total_updates as u64);
                    out.append(" updates available");
                    out
                } else {
                    "System is up to date".to_owned()
                }
            },
        }
    }

    /// Whether the updates are shown by origin: only a manager that
    /// serves the AUR has two origins.
    pub fn shows_origins(&self) -> (r: bool)
        ensures
            r == (self@.config.package_manager matches Some(pm) && pm.has_aur()),
    {
        match self.config.package_manager {
            Some(pm) => pm.supports_aur(),
            None => false,
        }
    }
}

/// How long ago the last check was, in words.
pub fn last_checked_text(elapsed_seconds: u64) -> (r: String)
    ensures
        r@ == last_checked(elapsed_seconds as nat),
{
    if elapsed_seconds < 60 {
        "Last checked: just now".to_owned()
    } else if elapsed_seconds < 3600 {
        let mut out = "Last checked: ".to_owned();
        push_decimal(&mut out, elapsed_seconds / 60);
        out.append(" minutes ago");
        out
    } else {
        let mut out = "Last checked: ".to_owned();
        push_decimal(&mut out, elapsed_seconds / 3600);
        out.append(" hours ago");
        out
    }
}

/// One line of the list of updates.
pub fn package_text(p: &PackageUpdate) -> (r: String)
    ensures
        r@ == package_line(p@),
{
    let mut out = "  ".to_owned();
    out.append(p.name.as_str());
    let current = to_chars(p.current_version.as_str());
    if !same_text(&current, "unknown") {
        out.append(" ");
        out.append(p.current_version.as_str());
    }
    out.append(" \u{2192} ");
    out.append(p.new_version.as_str());
    out
}

/// The time between two checks that an entry of the user stands for,
/// where `entry` is the number entered, if it is one.
pub fn clamp_interval(entry: Option<u32>) -> (r: u32)
    ensures
        r == interval_for(entry),
        MIN_INTERVAL_MINUTES <= r <= MAX_INTERVAL_MINUTES,
{
    let minutes = match entry {
        Some(m) => m,
        None => DEFAULT_INTERVAL_MINUTES,
    };
    if minutes < MIN_INTERVAL_MINUTES {
        MIN_INTERVAL_MINUTES
    } else if minutes > MAX_INTERVAL_MINUTES {
        MAX_INTERVAL_MINUTES
    } else {
        minutes
    }
}

/// The seconds between two checks.
pub fn timer_seconds(check_interval_minutes: u32) -> (r: u64)
    ensures
        r == check_interval_minutes * 60,
{
    (check_interval_minutes as u64) * 60
}

/// The terminal that the settings field shows.
pub fn terminal_text(preferred_terminal: &str) -> (r: String)
    ensures
        r@ == terminal_shown(preferred_terminal@),
{
    if preferred_terminal.unicode_len() == 0 {
        "cosmic-term".to_owned()
    } else {
        preferred_terminal.to_owned()
    }
}

/// The path of the file that marks a terminal of the process `pid` as
/// open, given the runtime directory that the environment names, if it
/// names one.
pub fn terminal_marker_path(runtime_dir_setting: Option<&str>, pid: u32) -> (r: String)
    ensures
        r@ == terminal_marker(setting_of(runtime_dir_setting), pid as nat),
{
    let mut out = match runtime_dir_setting {
        Some(dir) => dir.to_owned(),
        None => "/tmp".to_owned(),
    };
    out.append("/cosmic-package-updater-terminal-");
    push_decimal(&mut out, pid as u64);
    out.append(".marker");
    out
}

/// The shell command to hand to the terminal.
pub fn terminal_command(command: &str, marker: &str) -> (r: String)
    ensures
        r@ == terminal_script(command@, marker@),
{
    let chars = to_chars(command);
    let mut out = String::new();
    let mut i: usize = 0;
    assert(chars@.take(0) =~= Seq::<char>::empty());
    while i < chars.len()
        invariant
            i <= chars.len(),
            out@ == escape_quotes(chars@.take(i as int)),
        decreases chars.len() - i,
    {
        proof {
            let next = chars@.take(i + 1);
            assert(next.drop_last() =~= chars@.take(i as int));
            assert(next.last() == chars@[i as int]);
        }
        if chars[i] == '"' {
            out.push('\\');
        }
        out.push(chars[i]);
        i += 1;
    }
    assert(chars@.take(chars.len() as int) =~= chars@);
    out.append(" && echo \"Update completed. Press Enter to exit...\" && read; rm -f \"");
    out.append(marker);
    out.append("\"");
    out
}

} // verus!
