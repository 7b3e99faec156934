//! The catalog of supported package managers.

use vstd::prelude::*;

verus! {

/// A supported package manager.
#[derive(Debug, Clone, Copy, PartialEq, Eq, Hash, Structural)]
pub enum PackageManager {
    /// Arch Linux.
    Pacman,
    /// Arch Linux, with the AUR.
    Paru,
    /// Arch Linux, with the AUR.
    Yay,
    /// Debian and Ubuntu.
    Apt,
    /// Fedora and RHEL.
    Dnf,
    /// openSUSE and SUSE.
    Zypper,
    /// Alpine Linux.
    Apk,
    /// Any distribution.
    Flatpak,
}

/// A program and the arguments to run it with.
#[derive(Debug, Clone, PartialEq, Eq)]
pub struct CheckCommand {
    pub program: String,
    pub args: Vec<String>,
}

/// What a `CheckCommand` stands for.
pub struct CommandLine {
    pub program: Seq<char>,
    pub args: Seq<Seq<char>>,
}

/// The views of a sequence of strings.
pub open spec fn texts(v: Seq<String>) -> Seq<Seq<char>> {
    v.map_values(|x: String| x@)
}

impl View for CheckCommand {
    type V = CommandLine;

    open spec fn view(&self) -> CommandLine {
        CommandLine { program: self.program@, args: texts(self.args@) }
    }
}

impl PackageManager {
    /// The name of the manager's binary.
    pub open spec fn binary_name(self) -> Seq<char> {
        match self {
            PackageManager::Pacman => "pacman"@,
            PackageManager::Paru => "paru"@,
            PackageManager::Yay => "yay"@,
            PackageManager::Apt => "apt"@,
            PackageManager::Dnf => "dnf"@,
            PackageManager::Zypper => "zypper"@,
            PackageManager::Apk => "apk"@,
            PackageManager::Flatpak => "flatpak"@,
        }
    }

    /// Whether the manager also serves the AUR: true of the two AUR helpers.
    pub open spec fn has_aur(self) -> bool {
        self == PackageManager::Paru || self == PackageManager::Yay
    }

    /// The shell command that upgrades the whole system.
    pub open spec fn upgrade_command(self) -> Seq<char> {
        match self {
            PackageManager::Pacman => "sudo pacman -Syu"@,
            PackageManager::Paru => "paru -Syu"@,
            PackageManager::Yay => "yay -Syu"@,
            PackageManager::Apt => "sudo apt update && sudo apt upgrade"@,
            PackageManager::Dnf => "sudo dnf upgrade"@,
            PackageManager::Zypper => "sudo zypper update"@,
            PackageManager::Apk => "sudo apk upgrade"@,
            PackageManager::Flatpak => "flatpak update"@,
        }
    }

    /// The command that lists the updates of the official repositories.
    pub open spec fn official_check(self) -> CommandLine {
        match self {
            PackageManager::Pacman | PackageManager::Paru | PackageManager::Yay => CommandLine {
                program: "checkupdates"@,
                args: seq![],
            },
            PackageManager::Apt => CommandLine {
                program: "apt"@,
                args: seq!["list"@, "--upgradable"@],
            },
            PackageManager::Dnf => CommandLine {
                program: "dnf"@,
                args: seq!["check-update"@, "-q"@],
            },
            PackageManager::Zypper => CommandLine {
                program: "zypper"@,
                args: seq!["list-updates"@],
            },
            PackageManager::Apk => CommandLine { program: "apk"@, args: seq!["-u"@, "list"@] },
            PackageManager::Flatpak => CommandLine {
                program: "flatpak"@,
                args: seq!["remote-ls"@, "--updates"@],
            },
        }
    }

    /// The command that lists the updates of the AUR, for a manager that
    /// serves it.
    pub open spec fn aur_check(self) -> Option<CommandLine> {
        match self {
            PackageManager::Paru => Some(
                CommandLine { program: "paru"@, args: seq!["-Qu"@, "--aur"@] },
            ),
            PackageManager::Yay => Some(
                CommandLine { program: "yay"@, args: seq!["-Qu"@, "--aur"@] },
            ),
            _ => None,
        }
    }

    /// The name of the manager's binary.
    pub fn name(&self) -> (r: &'static str)
        ensures
            r@ == self.binary_name(),
    {
        match self {
            PackageManager::Pacman => "pacman",
            PackageManager::Paru => "paru",
            PackageManager::Yay => "yay",
            PackageManager::Apt => "apt",
            PackageManager::Dnf => "dnf",
            PackageManager::Zypper => "zypper",
            PackageManager::Apk => "apk",
            PackageManager::Flatpak => "flatpak",
        }
    }

    /// Whether the manager also serves the AUR.
    pub fn supports_aur(&self) -> (r: bool)
        ensures
            r == self.has_aur(),
            r <==> (*self == PackageManager::Paru || *self == PackageManager::Yay),
    {
        match self {
            PackageManager::Paru | PackageManager::Yay => true,
            _ => false,
        }
    }

    /// The shell command that upgrades the whole system.
    pub fn system_update_command(&self) -> (r: String)
        ensures
            r@ == self.upgrade_command(),
    {
        match self {
            PackageManager::Pacman => "sudo pacman -Syu".to_owned(),
            PackageManager::Paru => "paru -Syu".to_owned(),
            PackageManager::Yay => "yay -Syu".to_owned(),
            PackageManager::Apt => "sudo apt update && sudo apt upgrade".to_owned(),
            PackageManager::Dnf => "sudo dnf upgrade".to_owned(),
            PackageManager::Zypper => "sudo zypper update".to_owned(),
            PackageManager::Apk => "sudo apk upgrade".to_owned(),
            PackageManager::Flatpak => "flatpak update".to_owned(),
        }
    }

    /// The command that lists the updates of the official repositories.
    pub fn official_check_command(&self) -> (r: CheckCommand)
        ensures
            r@ == self.official_check(),
    {
        let mut args: Vec<String> = Vec::new();
        let program = match self {
            PackageManager::Pacman | PackageManager::Paru | PackageManager::Yay => {
                "checkupdates".to_owned()
            },
            PackageManager::Apt => {
                args.push("list".to_owned());
                args.push("--upgradable".to_owned());
                "apt".to_owned()
            },
            PackageManager::Dnf => {
                args.push("check-update".to_owned());
                args.push("-q".to_owned());
                "dnf".to_owned()
            },
            PackageManager::Zypper => {
                args.push("list-updates".to_owned());
                "zypper".to_owned()
            },
            PackageManager::Apk => {
                args.push("-u".to_owned());
                args.push("list".to_owned());
                "apk".to_owned()
            },
            PackageManager::Flatpak => {
                args.push("remote-ls".to_owned());
                args.push("--updates".to_owned());
                "flatpak".to_owned()
            },
        };
        assert(texts(args@) =~= self.official_check().args);
        CheckCommand { program, args }
    }

    /// The command that lists the updates of the AUR, if the manager serves
    /// it.
    pub fn aur_check_command(&self) -> (r: Option<CheckCommand>)
        ensures
            r is Some <==> self.has_aur(),
            match r {
                Some(c) => self.aur_check() == Some(c@),
                None => self.aur_check() is None,
            },
    {
        let program = match self {
            PackageManager::Paru => "paru".to_owned(),
            PackageManager::Yay => "yay".to_owned(),
            _ => {
                return None;
            },
        };
        let mut args: Vec<String> = Vec::new();
        args.push("-Qu".to_owned());
        args.push("--aur".to_owned());
        assert(texts(args@) =~= self.aur_check()->0.args);
        Some(CheckCommand { program, args })
    }
}

} // verus!
