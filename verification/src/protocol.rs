//! The protocol of one update check.
//!
//! A check takes the lock that keeps other instances of the program from
//! checking at the same time, asks the official repositories, asks the AUR
//! where that is wanted, counts what it found, tells the other instances
//! that a check was made, and gives the lock back. Taking the lock and
//! each of the two questions are tried a second time, after a pause, if
//! the first try fails.
//!
//! The check itself does none of the outside work. It says which `Action`
//! is due; the caller performs it and reports the `Event` that came of it.

use vstd::prelude::*;
use crate::checker::{aur_outcome, official_outcome, CommandResult, CommandRun, UpdateChecker};
use crate::package_manager::{CheckCommand, CommandLine, PackageManager};
use crate::parser::lemma_parsed_lines_origin;
use crate::text::lines;
use crate::update::{
    all_from, lemma_report_consistent, records, PackageUpdate, UpdateInfo, UpdateRecord,
    UpdateReport,
};

verus! {

/// The seconds to pause before the lock is tried a second time.
pub const LOCK_RETRY_SECONDS: u64 = 2;

/// The seconds to pause before a question is asked a second time.
pub const PHASE_RETRY_SECONDS: u64 = 1;

/// How far one step of the protocol has come: at its first try, pausing
/// after the first try failed, or at its second and last try.
#[derive(Debug, Clone, Copy, PartialEq, Eq, Structural)]
pub enum Attempt {
    First,
    Backoff,
    Retry,
}

/// The step of the protocol that a check is at.
#[derive(Debug, Clone, Copy, PartialEq, Eq, Structural)]
pub enum Phase {
    /// Nothing has been done yet.
    Idle,
    /// The lock is being taken.
    LockPending(Attempt),
    /// The official repositories are being asked.
    OfficialCheck(Attempt),
    /// The AUR is being asked.
    AurCheck(Attempt),
    /// Both questions are settled and the updates are counted.
    Aggregated,
    /// The other instances are being told.
    Notifying,
    /// The check is over and has a report.
    Done,
    /// The check is over and has none: the lock could not be had.
    Failed,
}

/// Why a check has no report.
#[derive(Debug, Clone, Copy, PartialEq, Eq, Structural)]
pub enum CheckError {
    /// Another instance held the lock at both tries.
    LockContention,
}

/// What the caller reports to a check.
#[derive(Debug, Clone, PartialEq, Eq)]
pub enum Event {
    /// Nothing had to be done, and the check may go on.
    Proceeded,
    /// The lock was taken.
    LockAcquired,
    /// The lock could not be taken.
    LockDenied,
    /// The pause is over.
    Waited,
    /// The command was run, or could not be.
    CommandDone(CommandResult),
    /// The other instances were told, or could not be: either way the
    /// check goes on.
    MarkerTouched,
    /// The lock was given back.
    LockReleased,
}

/// What an `Event` stands for.
pub enum Occurrence {
    Proceeded,
    LockAcquired,
    LockDenied,
    Waited,
    CommandDone(CommandRun),
    MarkerTouched,
    LockReleased,
}

impl View for Event {
    type V = Occurrence;

    open spec fn view(&self) -> Occurrence {
        match self {
            Event::Proceeded => Occurrence::Proceeded,
            Event::LockAcquired => Occurrence::LockAcquired,
            Event::LockDenied => Occurrence::LockDenied,
            Event::Waited => Occurrence::Waited,
            Event::CommandDone(r) => Occurrence::CommandDone(r@),
            Event::MarkerTouched => Occurrence::MarkerTouched,
            Event::LockReleased => Occurrence::LockReleased,
        }
    }
}

/// What a check asks the caller to do.
#[derive(Debug, Clone, PartialEq, Eq)]
pub enum Action {
    /// Nothing: report `Proceeded`.
    Proceed,
    /// Take the lock: report `LockAcquired` or `LockDenied`.
    AcquireLock,
    /// Pause for so many seconds: report `Waited`.
    Wait { seconds: u64 },
    /// Run the command: report `CommandDone`.
    Run(CheckCommand),
    /// Tell the other instances that a check was made: report
    /// `MarkerTouched`.
    TouchSyncMarker,
    /// Give the lock back: report `LockReleased`.
    ReleaseLock,
    /// Nothing more: the check is over.
    Finish,
}

/// What an `Action` stands for.
pub enum Task {
    Proceed,
    AcquireLock,
    Wait { seconds: u64 },
    Run(CommandLine),
    TouchSyncMarker,
    ReleaseLock,
    Finish,
}

impl View for Action {
    type V = Task;

    open spec fn view(&self) -> Task {
        match self {
            Action::Proceed => Task::Proceed,
            Action::AcquireLock => Task::AcquireLock,
            Action::Wait { seconds } => Task::Wait { seconds: *seconds },
            Action::Run(c) => Task::Run(c@),
            Action::TouchSyncMarker => Task::TouchSyncMarker,
            Action::ReleaseLock => Task::ReleaseLock,
            Action::Finish => Task::Finish,
        }
    }
}

/// The state of one check.
pub struct CheckState {
    pub manager: PackageManager,
    /// Whether the caller wants the AUR asked.
    pub with_aur: bool,
    pub phase: Phase,
    /// Whether this check holds the lock.
    pub lock_held: bool,
    /// What has been found so far.
    pub report: UpdateReport,
}

impl CheckState {
    /// The state of a check that has not begun.
    pub open spec fn initial(manager: PackageManager, with_aur: bool) -> CheckState {
        CheckState {
            manager,
            with_aur,
            phase: Phase::Idle,
            lock_held: false,
            report: UpdateReport::empty(),
        }
    }

    /// Whether the AUR is asked: the caller wants it and the manager
    /// serves it.
    pub open spec fn asks_aur(self) -> bool {
        self.with_aur && self.manager.has_aur()
    }

    /// Whether the check is over.
    pub open spec fn is_over(self) -> bool {
        self.phase == Phase::Failed || (self.phase == Phase::Done && !self.lock_held)
    }

    /// The state once both questions are settled: only now is the total
    /// counted.
    pub open spec fn aggregated(self) -> CheckState {
        CheckState {
            phase: Phase::Aggregated,
            report: UpdateReport { total: self.report.records.len(), ..self.report },
            ..self
        }
    }

    /// The state once the official repositories have answered with `found`,
    /// or have been given up, with nothing found.
    pub open spec fn official_settled(self, found: Seq<UpdateRecord>) -> CheckState {
        let noted = CheckState {
            report: UpdateReport {
                official: found.len(),
                records: self.report.records + found,
                ..self.report
            },
            ..self
        };
        if self.asks_aur() {
            CheckState { phase: Phase::AurCheck(Attempt::First), ..noted }
        } else {
            noted.aggregated()
        }
    }

    /// The state once the AUR has answered with `found`, or has been given
    /// up, with nothing found.
    pub open spec fn aur_settled(self, found: Seq<UpdateRecord>) -> CheckState {
        CheckState {
            report: UpdateReport {
                aur: found.len(),
                records: self.report.records + found,
                ..self.report
            },
            ..self
        }.aggregated()
    }

    /// The state after `event` was reported. An event that does not answer
    /// the action that is due changes nothing.
    pub open spec fn after(self, event: Occurrence) -> CheckState {
        match (self.phase, event) {
            (Phase::Idle, Occurrence::Proceeded) => CheckState {
                phase: Phase::LockPending(Attempt::First),
                ..self
            },
            (Phase::LockPending(Attempt::First), Occurrence::LockAcquired)
            | (Phase::LockPending(Attempt::Retry), Occurrence::LockAcquired) => CheckState {
                phase: Phase::OfficialCheck(Attempt::First),
                lock_held: true,
                ..self
            },
            (Phase::LockPending(Attempt::First), Occurrence::LockDenied) => CheckState {
                phase: Phase::LockPending(Attempt::Backoff),
                ..self
            },
            (Phase::LockPending(Attempt::Backoff), Occurrence::Waited) => CheckState {
                phase: Phase::LockPending(Attempt::Retry),
                ..self
            },
            (Phase::LockPending(Attempt::Retry), Occurrence::LockDenied) => CheckState {
                phase: Phase::Failed,
                ..self
            },
            (Phase::OfficialCheck(Attempt::First), Occurrence::CommandDone(run)) => {
                match official_outcome(self.manager, run) {
                    Ok(found) => self.official_settled(found),
                    Err(_) => CheckState { phase: Phase::OfficialCheck(Attempt::Backoff), ..self },
                }
            },
            (Phase::OfficialCheck(Attempt::Backoff), Occurrence::Waited) => CheckState {
                phase: Phase::OfficialCheck(Attempt::Retry),
                ..self
            },
            (Phase::OfficialCheck(Attempt::Retry), Occurrence::CommandDone(run)) => {
                match official_outcome(self.manager, run) {
                    Ok(found) => self.official_settled(found),
                    Err(_) => self.official_settled(Seq::empty()),
                }
            },
            (Phase::AurCheck(Attempt::First), Occurrence::CommandDone(run)) => {
                match aur_outcome(self.manager, run) {
                    Ok(found) => self.aur_settled(found),
                    Err(_) => CheckState { phase: Phase::AurCheck(Attempt::Backoff), ..self },
                }
            },
            (Phase::AurCheck(Attempt::Backoff), Occurrence::Waited) => CheckState {
                phase: Phase::AurCheck(Attempt::Retry),
                ..self
            },
            (Phase::AurCheck(Attempt::Retry), Occurrence::CommandDone(run)) => {
                match aur_outcome(self.manager, run) {
                    Ok(found) => self.aur_settled(found),
                    Err(_) => self.aur_settled(Seq::empty()),
                }
            },
            (Phase::Aggregated, Occurrence::Proceeded) => CheckState {
                phase: Phase::Notifying,
                ..self
            },
            (Phase::Notifying, Occurrence::MarkerTouched) => CheckState {
                phase: Phase::Done,
                ..self
            },
            (Phase::Done, Occurrence::LockReleased) => CheckState { lock_held: false, ..self },
            _ => self,
        }
    }

    /// The action that is due in this state.
    pub open spec fn pending(self) -> Task {
        match self.phase {
            Phase::Idle => Task::Proceed,
            Phase::LockPending(Attempt::Backoff) => Task::Wait { seconds: LOCK_RETRY_SECONDS },
            Phase::LockPending(_) => Task::AcquireLock,
            Phase::OfficialCheck(Attempt::Backoff) => Task::Wait { seconds: PHASE_RETRY_SECONDS },
            Phase::OfficialCheck(_) => Task::Run(self.manager.official_check()),
            Phase::AurCheck(Attempt::Backoff) => Task::Wait { seconds: PHASE_RETRY_SECONDS },
            Phase::AurCheck(_) => Task::Run(self.manager.aur_check()->0),
            Phase::Aggregated => Task::Proceed,
            Phase::Notifying => Task::TouchSyncMarker,
            Phase::Done => if self.lock_held {
                Task::ReleaseLock
            } else {
                Task::Finish
            },
            Phase::Failed => Task::Finish,
        }
    }

    /// What holds of every state that a check can be in.
    pub open spec fn valid(self) -> bool {
        match self.phase {
            Phase::Idle | Phase::LockPending(_) | Phase::Failed => {
                &&& !self.lock_held
                &&& self.report.is_empty()
            },
            Phase::OfficialCheck(_) => {
                &&& self.lock_held
                &&& self.report.is_empty()
            },
            Phase::AurCheck(_) => {
                &&& self.lock_held
                &&& self.asks_aur()
                &&& self.report.total == 0
                &&& self.report.aur == 0
                &&& self.report.official == self.report.records.len()
                &&& all_from(self.report.records, false)
            },
            Phase::Aggregated | Phase::Notifying => {
                &&& self.lock_held
                &&& self.report.consistent()
                &&& !self.asks_aur() ==> self.report.aur == 0
            },
            Phase::Done => {
                &&& self.report.consistent()
                &&& !self.asks_aur() ==> self.report.aur == 0
            },
        }
    }

    /// What the check has to show for itself: nothing before it is over,
    /// then its report, or the reason why it has none.
    pub open spec fn result(self) -> Option<Result<UpdateReport, CheckError>> {
        if self.phase == Phase::Failed {
            Some(Err(CheckError::LockContention))
        } else if self.phase == Phase::Done && !self.lock_held {
            Some(Ok(self.report))
        } else {
            None
        }
    }
}

/// The records of an official check are all official.
pub proof fn lemma_official_outcome_origin(pm: PackageManager, run: CommandRun)
    ensures
        official_outcome(pm, run) matches Ok(found) ==> all_from(found, false),
{
    match run {
        CommandRun::Exited { code, stdout } => {
            lemma_parsed_lines_origin(pm, lines(stdout), false);
        },
        CommandRun::Failed => {},
    }
}

/// The records of an AUR check are all from the AUR, and a manager that
/// does not serve the AUR has none.
pub proof fn lemma_aur_outcome_origin(pm: PackageManager, run: CommandRun)
    ensures
        aur_outcome(pm, run) matches Ok(found) ==> all_from(found, true) && (!pm.has_aur()
            ==> found.len() == 0),
{
    match run {
        CommandRun::Exited { code, stdout } => {
            lemma_parsed_lines_origin(pm, lines(stdout), true);
        },
        CommandRun::Failed => {},
    }
}

/// Whatever is reported, a check stays in a state that is valid. So the
/// report of a check that is done is consistent, it counts no AUR update
/// unless the AUR was asked, and no total is counted before both questions
/// are settled.
pub proof fn lemma_after_valid(s: CheckState, event: Occurrence)
    requires
        s.valid(),
    ensures
        s.after(event).valid(),
        s.after(event).manager == s.manager,
        s.after(event).with_aur == s.with_aur,
{
    let t = s.after(event);
    match (s.phase, event) {
        (Phase::OfficialCheck(_), Occurrence::CommandDone(run)) => {
            lemma_official_outcome_origin(s.manager, run);
            let found = match official_outcome(s.manager, run) {
                Ok(f) => f,
                Err(_) => Seq::empty(),
            };
            if t.phase != s.phase && !(t.phase is OfficialCheck) {
                assert(t == s.official_settled(found));
                assert(s.report.records + found =~= found);
                lemma_report_consistent(found, Seq::empty());
                assert(found + Seq::<UpdateRecord>::empty() =~= found);
            }
        },
        (Phase::AurCheck(_), Occurrence::CommandDone(run)) => {
            lemma_aur_outcome_origin(s.manager, run);
            let found = match aur_outcome(s.manager, run) {
                Ok(f) => f,
                Err(_) => Seq::empty(),
            };
            if !(t.phase is AurCheck) {
                assert(t == s.aur_settled(found));
                lemma_report_consistent(s.report.records, found);
            }
        },
        _ => {},
    }
}

/// A check fails only when the lock is denied at the second try, and it
/// gets to the second try only by pausing after the first was denied. A
/// check that is granted the lock at either try goes on to ask the
/// official repositories.
pub proof fn lemma_lock_discipline(s: CheckState, event: Occurrence)
    requires
        s.valid(),
    ensures
        s.after(event).phase == Phase::Failed && s.phase != Phase::Failed ==> s.phase
            == Phase::LockPending(Attempt::Retry) && event == Occurrence::LockDenied,
        s.after(event).phase == Phase::LockPending(Attempt::Retry) && s.phase
            != Phase::LockPending(Attempt::Retry) ==> s.phase == Phase::LockPending(
            Attempt::Backoff,
        ) && event == Occurrence::Waited && s.pending() == (Task::Wait {
            seconds: LOCK_RETRY_SECONDS,
        }),
        s.after(event).phase == Phase::LockPending(Attempt::Backoff) && s.phase
            != Phase::LockPending(Attempt::Backoff) ==> s.phase == Phase::LockPending(
            Attempt::First,
        ) && event == Occurrence::LockDenied,
        s.phase is LockPending && event == Occurrence::LockAcquired && s.phase
            != Phase::LockPending(Attempt::Backoff) ==> s.after(event).phase
            == Phase::OfficialCheck(Attempt::First) && s.after(event).lock_held,
        s.after(event).lock_held && !s.lock_held ==> s.phase is LockPending && event
            == Occurrence::LockAcquired,
{
}

/// Commands are run, and the other instances told, only while the lock is
/// held; and a check that is over holds no lock.
pub proof fn lemma_work_under_lock(s: CheckState)
    requires
        s.valid(),
    ensures
        s.pending() is Run ==> s.lock_held,
        s.pending() == Task::TouchSyncMarker ==> s.lock_held,
        s.pending() == Task::Finish ==> !s.lock_held,
        s.pending() == Task::Finish <==> s.is_over(),
        s.is_over() <==> s.result() is Some,
{
}

/// The AUR is asked only after the official repositories are settled, and
/// only where the caller wants it and the manager serves it; the updates
/// are counted only after the last question is settled.
pub proof fn lemma_phase_order(s: CheckState, event: Occurrence)
    requires
        s.valid(),
    ensures
        s.after(event).phase is AurCheck && !(s.phase is AurCheck) ==> s.phase is OfficialCheck
            && s.phase != Phase::OfficialCheck(Attempt::Backoff) && event is CommandDone
            && s.asks_aur(),
        s.after(event).phase == Phase::Aggregated && s.phase != Phase::Aggregated ==> event
            is CommandDone && (s.phase is AurCheck || (s.phase is OfficialCheck
            && !s.asks_aur())),
        !(s.after(event).phase is Aggregated || s.after(event).phase is Notifying || s.after(
            event,
        ).phase is Done) ==> s.after(event).report.total == 0,
{
}

/// A check that is over stays as it is, whatever is reported.
pub proof fn lemma_over_is_final(s: CheckState, event: Occurrence)
    requires
        s.is_over(),
    ensures
        s.after(event) == s,
{
}

/// Whether `event` reports on the action `task`.
pub open spec fn answers(task: Task, event: Occurrence) -> bool {
    match task {
        Task::Proceed => event == Occurrence::Proceeded,
        Task::AcquireLock => event == Occurrence::LockAcquired || event == Occurrence::LockDenied,
        Task::Wait { .. } => event == Occurrence::Waited,
        Task::Run(_) => event is CommandDone,
        Task::TouchSyncMarker => event == Occurrence::MarkerTouched,
        Task::ReleaseLock => event == Occurrence::LockReleased,
        Task::Finish => false,
    }
}

impl CheckState {
    /// A bound on the number of actions that are still to come.
    pub open spec fn steps_left(self) -> nat {
        match self.phase {
            Phase::Idle => 14,
            Phase::LockPending(Attempt::First) => 13,
            Phase::LockPending(Attempt::Backoff) => 12,
            Phase::LockPending(Attempt::Retry) => 11,
            Phase::OfficialCheck(Attempt::First) => 10,
            Phase::OfficialCheck(Attempt::Backoff) => 9,
            Phase::OfficialCheck(Attempt::Retry) => 8,
            Phase::AurCheck(Attempt::First) => 7,
            Phase::AurCheck(Attempt::Backoff) => 6,
            Phase::AurCheck(Attempt::Retry) => 5,
            Phase::Aggregated => 4,
            Phase::Notifying => 3,
            Phase::Done => if self.lock_held {
                2
            } else {
                0
            },
            Phase::Failed => 0,
        }
    }

    /// The state after each of `events` was reported in turn.
    pub open spec fn after_all(self, events: Seq<Occurrence>) -> CheckState
        decreases events.len(),
    {
        if events.len() == 0 {
            self
        } else {
            self.after(events.first()).after_all(events.drop_first())
        }
    }
}

/// An event that reports on the action that is due brings the check
/// nearer to its end, so that a check is over after fourteen such events
/// at most: nothing is tried more than twice. An event that reports on
/// anything else changes nothing.
pub proof fn lemma_progress(s: CheckState, event: Occurrence)
    requires
        s.valid(),
    ensures
        answers(s.pending(), event) ==> s.after(event).steps_left() < s.steps_left(),
        !answers(s.pending(), event) ==> s.after(event) == s,
        s.steps_left() == 0 <==> s.is_over(),
        s.steps_left() <= 14,
{
}

/// Whatever is reported to a check, and in whatever order, the check stays
/// in a state that is valid.
pub proof fn lemma_after_all_valid(s: CheckState, events: Seq<Occurrence>)
    requires
        s.valid(),
    ensures
        s.after_all(events).valid(),
        s.after_all(events).manager == s.manager,
        s.after_all(events).with_aur == s.with_aur,
    decreases events.len(),
{
    if events.len() > 0 {
        lemma_after_valid(s, events.first());
        lemma_after_all_valid(s.after(events.first()), events.drop_first());
    }
}

/// Every report that a check returns, whatever was reported to the check
/// on its way, counts what it holds: the total is the number of its
/// records and the sum of the official and the AUR count. It counts no
/// AUR update where the caller did not want the AUR asked, or the manager
/// does not serve it.
pub proof fn lemma_returned_report(
    manager: PackageManager,
    with_aur: bool,
    events: Seq<Occurrence>,
)
    ensures
        CheckState::initial(manager, with_aur).after_all(events).result() matches Some(
            Ok(report),
        ) ==> {
            &&& report.total == report.records.len()
            &&& report.total == report.official + report.aur
            &&& report.consistent()
            &&& !(with_aur && manager.has_aur()) ==> report.aur == 0
        },
{
    lemma_after_all_valid(CheckState::initial(manager, with_aur), events);
}

/// A check that meets no failure: the lock is granted at once and each
/// command yields its records at the first run. Its report holds the
/// official records, then those of the AUR where the AUR is asked, and
/// counts each of them.
pub proof fn lemma_plain_run(
    manager: PackageManager,
    with_aur: bool,
    official: CommandRun,
    aur: CommandRun,
)
    requires
        official_outcome(manager, official) is Ok,
        aur_outcome(manager, aur) is Ok,
    ensures
        ({
            let start = CheckState::initial(manager, with_aur);
            let opening = seq![
                Occurrence::Proceeded,
                Occurrence::LockAcquired,
                Occurrence::CommandDone(official),
            ];
            let asking = if start.asks_aur() {
                seq![Occurrence::CommandDone(aur)]
            } else {
                Seq::empty()
            };
            let closing = seq![
                Occurrence::Proceeded,
                Occurrence::MarkerTouched,
                Occurrence::LockReleased,
            ];
            let found = if start.asks_aur() {
                aur_outcome(manager, aur)->Ok_0
            } else {
                Seq::empty()
            };
            start.after_all(opening + asking + closing).result() == Some(
                Ok::<UpdateReport, CheckError>(
                    UpdateReport::of(official_outcome(manager, official)->Ok_0, found),
                ),
            )
        }),
{
    let start = CheckState::initial(manager, with_aur);
    let off = official_outcome(manager, official)->Ok_0;
    let s1 = start.after(Occurrence::Proceeded);
    let s2 = s1.after(Occurrence::LockAcquired);
    let s3 = s2.after(Occurrence::CommandDone(official));
    assert(s2.report.records + off =~= off);
    if start.asks_aur() {
        let found = aur_outcome(manager, aur)->Ok_0;
        let events = seq![
            Occurrence::Proceeded,
            Occurrence::LockAcquired,
            Occurrence::CommandDone(official),
        ] + seq![Occurrence::CommandDone(aur)] + seq![
            Occurrence::Proceeded,
            Occurrence::MarkerTouched,
            Occurrence::LockReleased,
        ];
        let s4 = s3.after(Occurrence::CommandDone(aur));
        let s5 = s4.after(Occurrence::Proceeded);
        let s6 = s5.after(Occurrence::MarkerTouched);
        let s7 = s6.after(Occurrence::LockReleased);
        lemma_after_all_seven(start, events);
        assert(s7.report == UpdateReport::of(off, found));
    } else {
        let events = seq![
            Occurrence::Proceeded,
            Occurrence::LockAcquired,
            Occurrence::CommandDone(official),
        ] + Seq::<Occurrence>::empty() + seq![
            Occurrence::Proceeded,
            Occurrence::MarkerTouched,
            Occurrence::LockReleased,
        ];
        let s4 = s3.after(Occurrence::Proceeded);
        let s5 = s4.after(Occurrence::MarkerTouched);
        let s6 = s5.after(Occurrence::LockReleased);
        lemma_after_all_six(start, events);
        assert(off + Seq::<UpdateRecord>::empty() =~= off);
        assert(s6.report == UpdateReport::of(off, Seq::empty()));
    }
}

proof fn lemma_after_all_six(s: CheckState, events: Seq<Occurrence>)
    requires
        events.len() == 6,
    ensures
        s.after_all(events) == s.after(events[0]).after(events[1]).after(events[2]).after(
            events[3],
        ).after(events[4]).after(events[5]),
{
    let e1 = events.drop_first();
    let e2 = e1.drop_first();
    let e3 = e2.drop_first();
    let e4 = e3.drop_first();
    let e5 = e4.drop_first();
    let e6 = e5.drop_first();
    assert(e6.len() == 0);
    let s1 = s.after(events[0]);
    let s2 = s1.after(events[1]);
    let s3 = s2.after(events[2]);
    let s4 = s3.after(events[3]);
    let s5 = s4.after(events[4]);
    let s6 = s5.after(events[5]);
    assert(s6.after_all(e6) == s6);
    assert(s5.after_all(e5) == s6);
    assert(s4.after_all(e4) == s6);
    assert(s3.after_all(e3) == s6);
    assert(s2.after_all(e2) == s6);
    assert(s1.after_all(e1) == s6);
}

proof fn lemma_after_all_seven(s: CheckState, events: Seq<Occurrence>)
    requires
        events.len() == 7,
    ensures
        s.after_all(events) == s.after(events[0]).after(events[1]).after(events[2]).after(
            events[3],
        ).after(events[4]).after(events[5]).after(events[6]),
{
    let rest = events.drop_first();
    lemma_after_all_six(s.after(events[0]), rest);
}

/// One check in progress.
pub struct UpdateCheck {
    manager: PackageManager,
    with_aur: bool,
    phase: Phase,
    lock_held: bool,
    info: UpdateInfo,
}

impl View for UpdateCheck {
    type V = CheckState;

    closed spec fn view(&self) -> CheckState {
        CheckState {
            manager: self.manager,
            with_aur: self.with_aur,
            phase: self.phase,
            lock_held: self.lock_held,
            report: self.info@,
        }
    }
}

impl UpdateCheck {
    #[verifier::type_invariant]
    spec fn well_formed(self) -> bool {
        self@.valid()
    }

    /// A check of `manager` that has not begun.
    pub fn begin(manager: PackageManager, with_aur: bool) -> (r: UpdateCheck)
        ensures
            r@ == CheckState::initial(manager, with_aur),
            r@.valid(),
    {
        let info = UpdateInfo::new();
        UpdateCheck { manager, with_aur, phase: Phase::Idle, lock_held: false, info }
    }

    /// The step of the protocol that the check is at.
    pub fn phase(&self) -> (r: Phase)
        ensures
            r == self@.phase,
    {
        self.phase
    }

    /// Whether the check holds the lock.
    pub fn holds_lock(&self) -> (r: bool)
        ensures
            r == self@.lock_held,
    {
        self.lock_held
    }

    /// Whether the check is over.
    pub fn is_finished(&self) -> (r: bool)
        ensures
            r == self@.is_over(),
    {
        match self.phase {
            Phase::Failed => true,
            Phase::Done => !self.lock_held,
            _ => false,
        }
    }

    /// The action that is due.
    pub fn next_action(&self) -> (action: Action)
        ensures
            action@ == self@.pending(),
            self@.valid(),
    {
        proof {
            use_type_invariant(self);
        }
        match self.phase {
            Phase::Idle => Action::Proceed,
            Phase::LockPending(Attempt::Backoff) => Action::Wait { seconds: LOCK_RETRY_SECONDS },
            Phase::LockPending(_) => Action::AcquireLock,
            Phase::OfficialCheck(Attempt::Backoff) => Action::Wait {
                seconds: PHASE_RETRY_SECONDS,
            },
            Phase::OfficialCheck(_) => Action::Run(self.manager.official_check_command()),
            Phase::AurCheck(Attempt::Backoff) => Action::Wait { seconds: PHASE_RETRY_SECONDS },
            Phase::AurCheck(_) => {
                let command = self.manager.aur_check_command();
                Action::Run(command.unwrap())
            },
            Phase::Aggregated => Action::Proceed,
            Phase::Notifying => Action::TouchSyncMarker,
            Phase::Done => if self.lock_held {
                Action::ReleaseLock
            } else {
                Action::Finish
            },
            Phase::Failed => Action::Finish,
        }
    }

    /// The check after `event` was reported, and the action that is due
    /// then.
    pub fn step(self, event: Event) -> (r: (UpdateCheck, Action))
        ensures
            r.0@ == self@.after(event@),
            r.1@ == r.0@.pending(),
            r.0@.valid(),
    {
        proof {
            use_type_invariant(&self);
            lemma_after_valid(self@, event@);
        }
        let ghost before = self@;
        let ghost occurrence = event@;
        let UpdateCheck { manager, with_aur, phase, lock_held, info } = self;
        let checker = UpdateChecker::new(manager);
        let next = match (phase, event) {
            (Phase::Idle, Event::Proceeded) => UpdateCheck {
                manager,
                with_aur,
                phase: Phase::LockPending(Attempt::First),
                lock_held,
                info,
            },
            (Phase::LockPending(Attempt::First), Event::LockAcquired)
            | (Phase::LockPending(Attempt::Retry), Event::LockAcquired) => UpdateCheck {
                manager,
                with_aur,
                phase: Phase::OfficialCheck(Attempt::First),
                lock_held: true,
                info,
            },
            (Phase::LockPending(Attempt::First), Event::LockDenied) => UpdateCheck {
                manager,
                with_aur,
                phase: Phase::LockPending(Attempt::Backoff),
                lock_held,
                info,
            },
            (Phase::LockPending(Attempt::Backoff), Event::Waited) => UpdateCheck {
                manager,
                with_aur,
                phase: Phase::LockPending(Attempt::Retry),
                lock_held,
                info,
            },
            (Phase::LockPending(Attempt::Retry), Event::LockDenied) => UpdateCheck {
                manager,
                with_aur,
                phase: Phase::Failed,
                lock_held,
                info,
            },
            (Phase::OfficialCheck(Attempt::First), Event::CommandDone(result)) => {
                proof {
                    lemma_official_outcome_origin(manager, result@);
                }
                match checker.check_official_updates(&result) {
                    Ok(found) => Self::settle_official(manager, with_aur, info, found),
                    Err(_) => UpdateCheck {
                        manager,
                        with_aur,
                        phase: Phase::OfficialCheck(Attempt::Backoff),
                        lock_held,
                        info,
                    },
                }
            },
            (Phase::OfficialCheck(Attempt::Backoff), Event::Waited) => UpdateCheck {
                manager,
                with_aur,
                phase: Phase::OfficialCheck(Attempt::Retry),
                lock_held,
                info,
            },
            (Phase::OfficialCheck(Attempt::Retry), Event::CommandDone(result)) => {
                proof {
                    lemma_official_outcome_origin(manager, result@);
                }
                let found = match checker.check_official_updates(&result) {
                    Ok(found) => found,
                    Err(_) => Self::nothing(),
                };
                Self::settle_official(manager, with_aur, info, found)
            },
            (Phase::AurCheck(Attempt::First), Event::CommandDone(result)) => {
                proof {
                    lemma_aur_outcome_origin(manager, result@);
                }
                match checker.check_aur_updates(&result) {
                    Ok(found) => Self::settle_aur(manager, with_aur, info, found),
                    Err(_) => UpdateCheck {
                        manager,
                        with_aur,
                        phase: Phase::AurCheck(Attempt::Backoff),
                        lock_held,
                        info,
                    },
                }
            },
            (Phase::AurCheck(Attempt::Backoff), Event::Waited) => UpdateCheck {
                manager,
                with_aur,
                phase: Phase::AurCheck(Attempt::Retry),
                lock_held,
                info,
            },
            (Phase::AurCheck(Attempt::Retry), Event::CommandDone(result)) => {
                proof {
                    lemma_aur_outcome_origin(manager, result@);
                }
                let found = match checker.check_aur_updates(&result) {
                    Ok(found) => found,
                    Err(_) => Self::nothing(),
                };
                Self::settle_aur(manager, with_aur, info, found)
            },
            (Phase::Aggregated, Event::Proceeded) => UpdateCheck {
                manager,
                with_aur,
                phase: Phase::Notifying,
                lock_held,
                info,
            },
            (Phase::Notifying, Event::MarkerTouched) => UpdateCheck {
                manager,
                with_aur,
                phase: Phase::Done,
                lock_held,
                info,
            },
            (Phase::Done, Event::LockReleased) => UpdateCheck {
                manager,
                with_aur,
                phase,
                lock_held: false,
                info,
            },
            (_, _) => UpdateCheck { manager, with_aur, phase, lock_held, info },
        };
        let action = next.next_action();
        (next, action)
    }

    /// The report of the check, or the reason why it has none, once the
    /// check is over; nothing before that.
    pub fn finish(self) -> (r: Option<Result<UpdateInfo, CheckError>>)
        ensures
            match r {
                Some(Ok(info)) => self@.result() == Some(
                    Ok::<UpdateReport, CheckError>(info@),
                ) && info@.consistent() && (!self@.asks_aur() ==> info@.aur == 0),
                Some(Err(e)) => self@.result() == Some(Err::<UpdateReport, CheckError>(e)),
                None => self@.result() is None,
            },
    {
        proof {
            use_type_invariant(&self);
        }
        let UpdateCheck { manager, with_aur, phase, lock_held, info } = self;
        match phase {
            Phase::Failed => Some(Err(CheckError::LockContention)),
            Phase::Done => if lock_held {
                None
            } else {
                Some(Ok(info))
            },
            _ => None,
        }
    }

    fn nothing() -> (r: Vec<PackageUpdate>)
        ensures
            records(r@) == Seq::<UpdateRecord>::empty(),
    {
        let r: Vec<PackageUpdate> = Vec::new();
        assert(records(r@) =~= Seq::<UpdateRecord>::empty());
        r
    }

    fn settle_official(
        manager: PackageManager,
        with_aur: bool,
        info: UpdateInfo,
        found: Vec<PackageUpdate>,
    ) -> (r: UpdateCheck)
        requires
            info@.is_empty(),
            all_from(records(found@), false),
        ensures
            r@ == (CheckState {
                manager,
                with_aur,
                phase: Phase::OfficialCheck(Attempt::First),
                lock_held: true,
                report: info@,
            }).official_settled(records(found@)),
    {
        let mut info = info;
        let mut found = found;
        let ghost old_records = records(info.packages@);
        let ghost new_records = records(found@);
        info.official_updates = found.len();
        info.packages.append(&mut found);
        assert(records(info.packages@) =~= old_records + new_records);
        assert(old_records + new_records =~= new_records);
        if with_aur && manager.supports_aur() {
            UpdateCheck {
                manager,
                with_aur,
                phase: Phase::AurCheck(Attempt::First),
                lock_held: true,
                info,
            }
        } else {
            info.total_updates = info.packages.len();
            proof {
                lemma_report_consistent(new_records, Seq::empty());
                assert(new_records + Seq::<UpdateRecord>::empty() =~= new_records);
            }
            UpdateCheck { manager, with_aur, phase: Phase::Aggregated, lock_held: true, info }
        }
    }

    fn settle_aur(
        manager: PackageManager,
        with_aur: bool,
        info: UpdateInfo,
        found: Vec<PackageUpdate>,
    ) -> (r: UpdateCheck)
        requires
            info@.total == 0,
            info@.aur == 0,
            info@.official == info@.records.len(),
            all_from(info@.records, false),
            all_from(records(found@), true),
            with_aur && manager.has_aur(),
        ensures
            r@ == (CheckState {
                manager,
                with_aur,
                phase: Phase::AurCheck(Attempt::First),
                lock_held: true,
                report: info@,
            }).aur_settled(records(found@)),
    {
        let mut info = info;
        let mut found = found;
        let ghost old_records = records(info.packages@);
        let ghost new_records = records(found@);
        info.aur_updates = found.len();
        info.packages.append(&mut found);
        info.total_updates = info.packages.len();
        proof {
            assert(records(info.packages@) =~= old_records + new_records);
            lemma_report_consistent(old_records, new_records);
        }
        UpdateCheck { manager, with_aur, phase: Phase::Aggregated, lock_held: true, info }
    }
}

} // verus!
