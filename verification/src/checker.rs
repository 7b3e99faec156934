//! One manager's update check: what to run, and what the result means.

use vstd::prelude::*;
use vstd::utf8::{decode_utf8, valid_utf8};
use crate::package_manager::PackageManager;
use crate::parser::{parse_chars, parse_line, parsed_line, parsed_output};
use crate::protocol::UpdateCheck;
use crate::text::{blank, is_blank, same_text, to_chars};
use crate::update::{record_of, records, PackageUpdate, UpdateRecord};

verus! {

/// What came of running a command.
#[derive(Debug, Clone, PartialEq, Eq)]
pub enum CommandResult {
    /// The command could not be run at all.
    Failed,
    /// The command ran and ended with this exit code (none where a signal
    /// ended it) and this standard output.
    Exited { code: Option<i32>, stdout: String },
}

/// What a `CommandResult` stands for.
pub enum CommandRun {
    Failed,
    Exited { code: Option<i32>, stdout: Seq<char> },
}

impl View for CommandResult {
    type V = CommandRun;

    open spec fn view(&self) -> CommandRun {
        match self {
            CommandResult::Failed => CommandRun::Failed,
            CommandResult::Exited { code, stdout } => CommandRun::Exited { code: *code, stdout: stdout@ },
        }
    }
}

/// The text that `String::from_utf8_lossy` makes of `bytes`.
pub uninterp spec fn lossy_text(bytes: Seq<u8>) -> Seq<char>;

/// `String::from_utf8_lossy` turns bytes into text. Bytes that are valid
/// UTF-8 become the characters that they encode; of other bytes the
/// contract says only that the same bytes give the same text.
#[verifier::external_body]
fn decode_lossy(bytes: &[u8]) -> (r: String)
    ensures
        r@ == lossy_text(bytes@),
        valid_utf8(bytes@) ==> r@ == decode_utf8(bytes@),
{
    String::from_utf8_lossy(bytes).into_owned()
}

impl CommandResult {
    /// The result of a command that ended with `code` and wrote the bytes
    /// `stdout` to its standard output. Bytes that are no valid UTF-8 are
    /// tolerated: they are replaced as `String::from_utf8_lossy` does.
    pub fn from_output(code: Option<i32>, stdout: &[u8]) -> (r: CommandResult)
        ensures
            r@ == (CommandRun::Exited { code, stdout: lossy_text(stdout@) }),
            valid_utf8(stdout@) ==> r@ == (CommandRun::Exited {
                code,
                stdout: decode_utf8(stdout@),
            }),
    {
        CommandResult::Exited { code, stdout: decode_lossy(stdout) }
    }
}

/// Why one phase of a check yields nothing.
#[derive(Debug, Clone, Copy, PartialEq, Eq, Structural)]
pub enum PhaseError {
    /// The command could not be run.
    CouldNotRun,
    /// The command failed with this exit code and printed nothing.
    ExitFailure { code: i32 },
}

/// The number that stands for an exit code: the code itself, or -1 where a
/// signal ended the command.
pub open spec fn exit_number(code: Option<i32>) -> i32 {
    match code {
        Some(c) => c,
        None => -1i32,
    }
}

/// Whether `program` says by the exit code `n` that there are no updates.
pub open spec fn means_no_updates(program: Seq<char>, n: i32) -> bool {
    ||| program == "checkupdates"@ && n == 2
    ||| (program == "paru"@ || program == "yay"@) && n == 1
}

/// Whether `program` says by the exit code `n` that there are updates.
pub open spec fn means_updates(program: Seq<char>, n: i32) -> bool {
    program == "dnf"@ && n == 100
}

/// What one run of `program` for the manager `pm` yields. Exit code 0 has
/// the output parsed. Another exit code either is the program's way to say
/// that there are no updates, or to say that there are some, or is a
/// failure; a failure is passed over where the program printed something
/// nevertheless.
pub open spec fn phase_outcome(
    pm: PackageManager,
    program: Seq<char>,
    run: CommandRun,
    is_aur: bool,
) -> Result<Seq<UpdateRecord>, PhaseError> {
    match run {
        CommandRun::Failed => Err(PhaseError::CouldNotRun),
        CommandRun::Exited { code, stdout } => {
            let n = exit_number(code);
            if n == 0 && code is Some {
                Ok(parsed_output(pm, stdout, is_aur))
            } else if means_no_updates(program, n) {
                Ok(Seq::empty())
            } else if means_updates(program, n) || !is_blank(stdout) {
                Ok(parsed_output(pm, stdout, is_aur))
            } else {
                Err(PhaseError::ExitFailure { code: n })
            }
        },
    }
}

/// What the run of the official check of `pm` yields.
pub open spec fn official_outcome(pm: PackageManager, run: CommandRun) -> Result<
    Seq<UpdateRecord>,
    PhaseError,
> {
    phase_outcome(pm, pm.official_check().program, run, false)
}

/// What the run of the AUR check of `pm` yields: nothing, whatever the run,
/// for a manager that does not serve the AUR.
pub open spec fn aur_outcome(pm: PackageManager, run: CommandRun) -> Result<
    Seq<UpdateRecord>,
    PhaseError,
> {
    match pm.aur_check() {
        Some(c) => phase_outcome(pm, c.program, run, true),
        None => Ok(Seq::empty()),
    }
}

/// The records that a result stands for.
pub open spec fn outcome_of(r: Result<Vec<PackageUpdate>, PhaseError>) -> Result<
    Seq<UpdateRecord>,
    PhaseError,
> {
    match r {
        Ok(v) => Ok(records(v@)),
        Err(e) => Err(e),
    }
}

/// Asks one package manager for updates.
pub struct UpdateChecker {
    package_manager: PackageManager,
}

impl UpdateChecker {
    /// The manager that this checker asks.
    pub closed spec fn manager(&self) -> PackageManager {
        self.package_manager
    }

    /// A checker that asks `package_manager`.
    pub fn new(package_manager: PackageManager) -> (r: UpdateChecker)
        ensures
            r.manager() == package_manager,
    {
        UpdateChecker { package_manager }
    }

    /// The manager that this checker asks.
    pub fn package_manager(&self) -> (r: PackageManager)
        ensures
            r == self.manager(),
    {
        self.package_manager
    }

    /// Begins one update check. The check that is returned says what to do
    /// next; it is told what came of it and then says what to do after
    /// that, until it is finished. The AUR is asked only if `include_aur`
    /// is set and the manager serves it.
    pub fn check_updates(&self, include_aur: bool) -> (r: UpdateCheck)
        ensures
            r@ == crate::protocol::CheckState::initial(self.manager(), include_aur),
    {
        UpdateCheck::begin(self.package_manager, include_aur)
    }

    /// The updates that the run of the official check shows.
    pub fn check_official_updates(&self, result: &CommandResult) -> (r: Result<
        Vec<PackageUpdate>,
        PhaseError,
    >)
        ensures
            outcome_of(r) == official_outcome(self.manager(), result@),
    {
        let command = self.package_manager.official_check_command();
        self.parse_update_output(command.program.as_str(), result, false)
    }

    /// The updates that the run of the AUR check shows. A manager that
    /// does not serve the AUR has none, whatever the result.
    pub fn check_aur_updates(&self, result: &CommandResult) -> (r: Result<
        Vec<PackageUpdate>,
        PhaseError,
    >)
        ensures
            outcome_of(r) == aur_outcome(self.manager(), result@),
    {
        match self.package_manager.aur_check_command() {
            Some(command) => self.parse_update_output(command.program.as_str(), result, true),
            None => {
                let none: Vec<PackageUpdate> = Vec::new();
                assert(records(none@) =~= Seq::<UpdateRecord>::empty());
                Ok(none)
            },
        }
    }

    /// The updates that one run of `cmd` shows.
    pub fn parse_update_output(&self, cmd: &str, result: &CommandResult, is_aur: bool) -> (r:
        Result<Vec<PackageUpdate>, PhaseError>)
        ensures
            outcome_of(r) == phase_outcome(self.manager(), cmd@, result@, is_aur),
    {
        match result {
            CommandResult::Failed => Err(PhaseError::CouldNotRun),
            CommandResult::Exited { code, stdout } => {
                let output = to_chars(stdout.as_str());
                let n: i32 = match code {
                    Some(c) => *c,
                    None => -1,
                };
                if n == 0 && code.is_some() {
                    return Ok(parse_chars(self.package_manager, &output, is_aur));
                }
                let program = to_chars(cmd);
                if (same_text(&program, "checkupdates") && n == 2) || ((same_text(
                    &program,
                    "paru",
                ) || same_text(&program, "yay")) && n == 1) {
                    let none: Vec<PackageUpdate> = Vec::new();
                    assert(records(none@) =~= Seq::<UpdateRecord>::empty());
                    return Ok(none);
                }
                if (same_text(&program, "dnf") && n == 100) || !blank(&output) {
                    return Ok(parse_chars(self.package_manager, &output, is_aur));
                }
                Err(PhaseError::ExitFailure { code: n })
            },
        }
    }

    /// The update that one line of the manager's output stands for, if any.
    pub fn parse_package_line(&self, line: &str, is_aur: bool) -> (r: Option<PackageUpdate>)
        ensures
            record_of(r) == parsed_line(self.manager(), line@, is_aur),
    {
        let chars = to_chars(line);
        parse_line(self.package_manager, &chars, is_aur)
    }
}

} // verus!
