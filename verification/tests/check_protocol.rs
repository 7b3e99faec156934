use package_updater::checker::{CommandResult, UpdateChecker};
use package_updater::package_manager::{CheckCommand, PackageManager};
use package_updater::protocol::{
    Action, Attempt, CheckError, Event, Phase, UpdateCheck, LOCK_RETRY_SECONDS,
    PHASE_RETRY_SECONDS,
};
use package_updater::update::{PackageUpdate, UpdateInfo};

fn update(name: &str, current: &str, new: &str, is_aur: bool) -> PackageUpdate {
    PackageUpdate {
        name: name.to_string(),
        current_version: current.to_string(),
        new_version: new.to_string(),
        is_aur,
    }
}

fn ran(code: i32, stdout: &str) -> Event {
    Event::CommandDone(CommandResult::Exited { code: Some(code), stdout: stdout.to_string() })
}

fn could_not_run() -> Event {
    Event::CommandDone(CommandResult::Failed)
}

fn command(program: &str, args: &[&str]) -> CheckCommand {
    CheckCommand {
        program: program.to_string(),
        args: args.iter().map(|a| a.to_string()).collect(),
    }
}

fn drive(check: UpdateCheck, events: Vec<Event>) -> (UpdateCheck, Vec<Action>) {
    let mut check = check;
    let mut actions = Vec::new();
    for event in events {
        let (next, action) = check.step(event);
        check = next;
        actions.push(action);
    }
    (check, actions)
}

fn to_the_official_check(pm: PackageManager, with_aur: bool) -> UpdateCheck {
    let check = UpdateChecker::new(pm).check_updates(with_aur);
    drive(check, vec![Event::Proceeded, Event::LockAcquired]).0
}

fn to_the_end(check: UpdateCheck) -> UpdateInfo {
    let (check, actions) =
        drive(check, vec![Event::Proceeded, Event::MarkerTouched, Event::LockReleased]);
    assert_eq!(actions, vec![Action::TouchSyncMarker, Action::ReleaseLock, Action::Finish]);
    assert!(check.is_finished());
    check.finish().unwrap().unwrap()
}

#[test]
fn end_to_end_with_the_aur() {
    let check = UpdateChecker::new(PackageManager::Paru).check_updates(true);
    assert_eq!(check.phase(), Phase::Idle);
    assert_eq!(check.next_action(), Action::Proceed);
    let (check, actions) = drive(
        check,
        vec![
            Event::Proceeded,
            Event::LockAcquired,
            ran(0, "firefox 120.0-1 -> 121.0-1\nvim 9.0-2 -> 9.1-1\n"),
            ran(0, "yay-bin 12.1-1\n"),
            Event::Proceeded,
            Event::MarkerTouched,
            Event::LockReleased,
        ],
    );
    assert_eq!(
        actions,
        vec![
            Action::AcquireLock,
            Action::Run(command("checkupdates", &[])),
            Action::Run(command("paru", &["-Qu", "--aur"])),
            Action::Proceed,
            Action::TouchSyncMarker,
            Action::ReleaseLock,
            Action::Finish,
        ]
    );
    assert_eq!(check.phase(), Phase::Done);
    assert!(!check.holds_lock());
    assert!(check.is_finished());
    let info = check.finish().unwrap().unwrap();
    assert_eq!(info.official_updates, 2);
    assert_eq!(info.aur_updates, 1);
    assert_eq!(info.total_updates, 3);
    assert!(info.has_updates());
    assert_eq!(
        info.packages,
        vec![
            update("firefox", "120.0-1", "121.0-1", false),
            update("vim", "9.0-2", "9.1-1", false),
            update("yay-bin", "unknown", "12.1-1", true),
        ]
    );
}

#[test]
fn phases_follow_in_order() {
    let check = UpdateChecker::new(PackageManager::Yay).check_updates(true);
    let mut phases = vec![check.phase()];
    let mut check = check;
    for event in [
        Event::Proceeded,
        Event::LockAcquired,
        ran(0, ""),
        ran(0, ""),
        Event::Proceeded,
        Event::MarkerTouched,
        Event::LockReleased,
    ] {
        check = check.step(event).0;
        phases.push(check.phase());
    }
    assert_eq!(
        phases,
        vec![
            Phase::Idle,
            Phase::LockPending(Attempt::First),
            Phase::OfficialCheck(Attempt::First),
            Phase::AurCheck(Attempt::First),
            Phase::Aggregated,
            Phase::Notifying,
            Phase::Done,
            Phase::Done,
        ]
    );
}

#[test]
fn the_aur_is_not_asked_unless_wanted() {
    let check = to_the_official_check(PackageManager::Paru, false);
    let (check, action) = check.step(ran(0, "linux 6.6 -> 6.7\n"));
    assert_eq!(action, Action::Proceed);
    assert_eq!(check.phase(), Phase::Aggregated);
    let info = to_the_end(check);
    assert_eq!(info.aur_updates, 0);
    assert_eq!(info.official_updates, 1);
    assert_eq!(info.total_updates, 1);
}

#[test]
fn the_aur_is_not_asked_of_a_manager_without_it() {
    for pm in [
        PackageManager::Pacman,
        PackageManager::Apt,
        PackageManager::Dnf,
        PackageManager::Zypper,
        PackageManager::Apk,
        PackageManager::Flatpak,
    ] {
        let check = to_the_official_check(pm, true);
        let (check, action) = check.step(ran(0, ""));
        assert_eq!(action, Action::Proceed, "{:?}", pm);
        let info = to_the_end(check);
        assert_eq!(info.aur_updates, 0);
        assert_eq!(info.total_updates, 0);
        assert!(!info.has_updates());
    }
}

#[test]
fn counts_add_up() {
    let outputs = ["", "a 1 -> 2\n", "a 1 -> 2\nb 3\nbad\nc 4 -> 5\n"];
    for official in outputs {
        for aur in outputs {
            let check = to_the_official_check(PackageManager::Yay, true);
            let (check, _) = drive(check, vec![ran(0, official), ran(0, aur)]);
            assert_eq!(check.phase(), Phase::Aggregated);
            let info = to_the_end(check);
            assert_eq!(info.total_updates, info.official_updates + info.aur_updates);
            assert_eq!(info.total_updates, info.packages.len());
            assert_eq!(info.has_updates(), info.total_updates > 0);
            for (k, p) in info.packages.iter().enumerate() {
                assert_eq!(p.is_aur, k >= info.official_updates);
            }
        }
    }
}

#[test]
fn lock_denied_twice_fails_the_check() {
    let check = UpdateChecker::new(PackageManager::Pacman).check_updates(true);
    let (check, actions) = drive(
        check,
        vec![Event::Proceeded, Event::LockDenied, Event::Waited, Event::LockDenied],
    );
    assert_eq!(
        actions,
        vec![
            Action::AcquireLock,
            Action::Wait { seconds: 2 },
            Action::AcquireLock,
            Action::Finish,
        ]
    );
    assert_eq!(LOCK_RETRY_SECONDS, 2);
    assert_eq!(check.phase(), Phase::Failed);
    assert!(!check.holds_lock());
    assert!(check.is_finished());
    assert_eq!(check.finish(), Some(Err(CheckError::LockContention)));
}

#[test]
fn lock_granted_at_the_second_try_goes_on() {
    let check = UpdateChecker::new(PackageManager::Pacman).check_updates(true);
    let (check, actions) = drive(
        check,
        vec![Event::Proceeded, Event::LockDenied, Event::Waited, Event::LockAcquired],
    );
    assert_eq!(actions[3], Action::Run(command("checkupdates", &[])));
    assert_eq!(check.phase(), Phase::OfficialCheck(Attempt::First));
    assert!(check.holds_lock());
    let (check, _) = check.step(ran(0, "a 1 -> 2\n"));
    assert_eq!(to_the_end(check).total_updates, 1);
}

#[test]
fn a_failed_phase_is_tried_once_more() {
    let check = to_the_official_check(PackageManager::Paru, true);
    let (check, actions) = drive(
        check,
        vec![
            could_not_run(),
            Event::Waited,
            ran(0, "a 1 -> 2\n"),
            ran(3, ""),
            Event::Waited,
            ran(0, "b 2\n"),
        ],
    );
    assert_eq!(
        actions,
        vec![
            Action::Wait { seconds: 1 },
            Action::Run(command("checkupdates", &[])),
            Action::Run(command("paru", &["-Qu", "--aur"])),
            Action::Wait { seconds: 1 },
            Action::Run(command("paru", &["-Qu", "--aur"])),
            Action::Proceed,
        ]
    );
    assert_eq!(PHASE_RETRY_SECONDS, 1);
    let info = to_the_end(check);
    assert_eq!(info.official_updates, 1);
    assert_eq!(info.aur_updates, 1);
    assert_eq!(info.total_updates, 2);
}

#[test]
fn a_phase_that_fails_twice_counts_nothing() {
    let check = to_the_official_check(PackageManager::Yay, true);
    let (check, actions) = drive(
        check,
        vec![ran(7, ""), Event::Waited, could_not_run(), ran(0, "b 2\n")],
    );
    assert_eq!(actions[2], Action::Run(command("yay", &["-Qu", "--aur"])));
    assert_eq!(check.phase(), Phase::Aggregated);
    let info = to_the_end(check);
    assert_eq!(info.official_updates, 0);
    assert_eq!(info.aur_updates, 1);
    assert_eq!(info.total_updates, 1);
    assert_eq!(info.packages, vec![update("b", "unknown", "2", true)]);

    let check = to_the_official_check(PackageManager::Yay, true);
    let (check, _) = drive(
        check,
        vec![ran(0, "a 1 -> 2\n"), could_not_run(), Event::Waited, ran(9, "")],
    );
    let info = to_the_end(check);
    assert_eq!(info.official_updates, 1);
    assert_eq!(info.aur_updates, 0);
    assert_eq!(info.total_updates, 1);
}

#[test]
fn no_updates_exit_codes_settle_a_phase() {
    let check = to_the_official_check(PackageManager::Paru, true);
    let (check, actions) = drive(check, vec![ran(2, ""), ran(1, "")]);
    assert_eq!(
        actions,
        vec![Action::Run(command("paru", &["-Qu", "--aur"])), Action::Proceed]
    );
    assert_eq!(to_the_end(check).total_updates, 0);
}

#[test]
fn the_total_is_counted_only_at_the_end() {
    let check = to_the_official_check(PackageManager::Paru, true);
    let (check, _) = check.step(ran(0, "a 1 -> 2\n"));
    assert_eq!(check.phase(), Phase::AurCheck(Attempt::First));
    assert_eq!(check.finish(), None);
}

#[test]
fn events_out_of_turn_change_nothing() {
    let check = UpdateChecker::new(PackageManager::Apt).check_updates(false);
    let (check, actions) = drive(
        check,
        vec![
            Event::LockAcquired,
            Event::Waited,
            ran(0, "x/s 2 a [upgradable from: 1]"),
            Event::MarkerTouched,
            Event::LockReleased,
            Event::LockDenied,
        ],
    );
    assert_eq!(actions, vec![Action::Proceed; 6]);
    assert_eq!(check.phase(), Phase::Idle);
    assert!(!check.holds_lock());
    assert!(!check.is_finished());
    assert_eq!(check.finish(), None);

    let check = to_the_official_check(PackageManager::Apt, false);
    let (check, actions) = drive(check, vec![Event::Proceeded, Event::LockAcquired, Event::Waited]);
    assert_eq!(actions, vec![Action::Run(command("apt", &["list", "--upgradable"])); 3]);
    assert_eq!(check.phase(), Phase::OfficialCheck(Attempt::First));
}

#[test]
fn a_finished_check_stays_finished() {
    let check = to_the_official_check(PackageManager::Apt, false);
    let (check, _) = check.step(ran(0, "x/s 2 a [upgradable from: 1]"));
    let (check, _) = drive(check, vec![Event::Proceeded, Event::MarkerTouched]);
    assert_eq!(check.phase(), Phase::Done);
    assert!(check.holds_lock());
    assert!(!check.is_finished());
    let (check, action) = check.step(Event::LockReleased);
    assert_eq!(action, Action::Finish);
    let (check, actions) = drive(
        check,
        vec![Event::Proceeded, Event::LockAcquired, ran(0, "y/s 2 a [upgradable from: 1]")],
    );
    assert_eq!(actions, vec![Action::Finish; 3]);
    let info = check.finish().unwrap().unwrap();
    assert_eq!(info.packages, vec![update("x", "1", "2", false)]);
}

#[test]
fn an_unfinished_check_has_no_result() {
    let check = UpdateChecker::new(PackageManager::Apt).check_updates(false);
    assert_eq!(check.finish(), None);
    let check = to_the_official_check(PackageManager::Apt, false);
    let (check, _) = drive(check, vec![ran(0, ""), Event::Proceeded, Event::MarkerTouched]);
    assert_eq!(check.phase(), Phase::Done);
    assert_eq!(check.finish(), None);
}

#[test]
fn a_new_report_is_empty() {
    let info = UpdateInfo::new();
    assert_eq!(info.total_updates, 0);
    assert_eq!(info.official_updates, 0);
    assert_eq!(info.aur_updates, 0);
    assert!(info.packages.is_empty());
    assert!(!info.has_updates());
}

#[test]
fn aggregate_counts_both_origins() {
    let info = UpdateInfo::aggregate(
        vec![update("a", "1", "2", false), update("b", "1", "2", false)],
        vec![update("c", "unknown", "3", true)],
    );
    assert_eq!(info.official_updates, 2);
    assert_eq!(info.aur_updates, 1);
    assert_eq!(info.total_updates, 3);
    assert_eq!(info.packages.len(), 3);
    assert_eq!(info.packages[2].name, "c");
    assert!(info.has_updates());
}

#[test]
fn begin_is_what_the_checker_begins() {
    let a = UpdateCheck::begin(PackageManager::Dnf, true);
    let b = UpdateChecker::new(PackageManager::Dnf).check_updates(true);
    assert_eq!(a.phase(), b.phase());
    assert_eq!(a.next_action(), b.next_action());
    let (a, _) = drive(a, vec![Event::Proceeded, Event::LockAcquired]);
    assert_eq!(a.next_action(), Action::Run(command("dnf", &["check-update", "-q"])));
}
