use fwatcher::supervisor::ProcessAction;
use fwatcher::supervisor::SpawnOutcome;
use fwatcher::watcher::ChangeEvent;
use fwatcher::Fwatcher;
use fwatcher::watcher::Phase;
use fwatcher::watcher::Reaction;
use fwatcher::watcher::Signal;
use fwatcher::watcher::StopReason;
use fwatcher::watcher::WatchRoot;
use glob::Pattern;

const SECOND: u128 = 1_000_000_000;
const MILLI: u128 = 1_000_000;

fn words(ws: &[&str]) -> Vec<String> {
    ws.iter().map(|w| w.to_string()).collect()
}

fn pat(text: &str) -> Pattern {
    Pattern::new(text).unwrap()
}

fn modified(path: &str) -> Signal {
    Signal::Change(ChangeEvent::Modified(path.to_string()))
}

fn created(path: &str) -> Signal {
    Signal::Change(ChangeEvent::Created(path.to_string()))
}

fn spawn(program: &str, args: &[&str]) -> ProcessAction {
    ProcessAction::Spawn { program: program.to_string(), args: words(args) }
}

fn restart_for(path: &str, actions: Vec<ProcessAction>) -> Reaction {
    Reaction::Restart { trigger: Some(path.to_string()), actions }
}

fn pytest_watcher(restart: bool) -> Fwatcher {
    let mut w = Fwatcher::new(words(&["src"]), words(&["pytest"]));
    w.pattern(pat("**/*.py")).interval(SECOND).restart(restart);
    w
}

#[test]
fn new_watcher_is_starting_and_idle() {
    let w = Fwatcher::new(words(&["src"]), words(&["pytest"]));
    assert_eq!(w.phase(), Phase::Starting);
    assert_eq!(w.child(), None);
    assert_eq!(w.last_run(), None);
    assert!(w.interval_consumed(0));
}

#[test]
fn watch_roots_are_the_dirs_given() {
    let w = Fwatcher::new(words(&["src", "test"]), words(&["pytest"]));
    assert_eq!(
        w.watch_roots(),
        vec![WatchRoot::Dir("src".to_string()), WatchRoot::Dir("test".to_string())]
    );
}

#[test]
fn watch_roots_default_to_the_current_dir() {
    let w = Fwatcher::new(Vec::new(), words(&["pytest"]));
    assert_eq!(w.watch_roots(), vec![WatchRoot::CurrentDir]);
}

#[test]
fn startup_spawns_once_then_gate_suppresses_then_lets_through() {
    let mut w = pytest_watcher(false);
    let first = w.step(Signal::Registered, 0);
    assert_eq!(first, Reaction::Restart { trigger: None, actions: vec![spawn("pytest", &[])] });
    assert_eq!(w.phase(), Phase::Watching);
    w.child_spawned(SpawnOutcome::Started(100), 0);
    assert_eq!(w.child(), Some(100));

    assert_eq!(w.step(modified("src/app.py"), 200 * MILLI), Reaction::Ignore);
    assert_eq!(w.child(), Some(100));
    assert_eq!(w.last_run(), Some(0));

    let later = w.step(modified("src/app.py"), 1100 * MILLI);
    assert_eq!(later, restart_for("src/app.py", vec![spawn("pytest", &[])]));
    assert_eq!(w.last_run(), Some(1100 * MILLI));
}

#[test]
fn suppressed_event_is_not_replayed_after_the_cooldown() {
    let mut w = pytest_watcher(false);
    w.step(Signal::Registered, 0);
    w.child_spawned(SpawnOutcome::Started(100), 0);
    assert_eq!(w.step(modified("src/app.py"), 200 * MILLI), Reaction::Ignore);
    assert_eq!(w.step(Signal::Change(ChangeEvent::Other), 2 * SECOND), Reaction::Ignore);
    assert_eq!(w.step(modified("README.md"), 2 * SECOND), Reaction::Ignore);
    assert_eq!(w.last_run(), Some(0));
}

#[test]
fn excluded_path_never_triggers_a_spawn() {
    let mut w = pytest_watcher(false);
    w.exclude_pattern(pat("**/test_*.py"));
    w.step(Signal::Registered, 0);
    w.child_spawned(SpawnOutcome::Started(100), 0);
    for now in [0, 200 * MILLI, SECOND, 1100 * MILLI, 3600 * SECOND, u128::MAX] {
        assert_eq!(w.step(modified("src/test_foo.py"), now), Reaction::Ignore);
        assert_eq!(w.step(created("src/test_foo.py"), now), Reaction::Ignore);
    }
    assert_eq!(w.child(), Some(100));
    assert_eq!(w.last_run(), Some(0));
}

#[test]
fn restart_policy_kills_the_running_child_and_spawns_once() {
    let mut w = pytest_watcher(true);
    w.step(Signal::Registered, 0);
    w.child_spawned(SpawnOutcome::Started(100), 0);
    let r = w.step(modified("src/app.py"), 1100 * MILLI);
    assert_eq!(
        r,
        restart_for("src/app.py", vec![ProcessAction::Kill(100), spawn("pytest", &[])])
    );
    assert_eq!(w.child(), None);
    w.child_spawned(SpawnOutcome::Started(101), 1200 * MILLI);
    assert_eq!(w.child(), Some(101));
    assert_eq!(w.last_run(), Some(1200 * MILLI));
}

#[test]
fn registration_failure_is_fatal_and_nothing_is_spawned() {
    let mut w = pytest_watcher(true);
    let r = w.step(Signal::RegistrationFailed, 0);
    assert_eq!(r, Reaction::Halt(StopReason::RegistrationFailed));
    assert!(StopReason::RegistrationFailed.is_fatal());
    assert_eq!(w.phase(), Phase::Stopped);
    assert_eq!(w.child(), None);
    assert_eq!(w.last_run(), None);
    assert_eq!(w.step(Signal::Registered, 1), Reaction::Ignore);
    assert_eq!(w.step(modified("src/app.py"), 5 * SECOND), Reaction::Ignore);
    assert_eq!(w.phase(), Phase::Stopped);
}

#[test]
fn source_failure_ends_the_watching() {
    let mut w = pytest_watcher(false);
    w.step(Signal::Registered, 0);
    w.child_spawned(SpawnOutcome::Started(100), 0);
    assert_eq!(w.step(Signal::SourceFailed, 5), Reaction::Halt(StopReason::SourceFailed));
    assert!(!StopReason::SourceFailed.is_fatal());
    assert_eq!(w.phase(), Phase::Stopped);
    assert_eq!(w.child(), Some(100));
    assert_eq!(w.step(modified("src/app.py"), 5 * SECOND), Reaction::Ignore);
}

#[test]
fn changes_before_registration_are_ignored() {
    let mut w = pytest_watcher(false);
    assert_eq!(w.step(modified("src/app.py"), 0), Reaction::Ignore);
    assert_eq!(w.step(Signal::SourceFailed, 0), Reaction::Ignore);
    assert_eq!(w.phase(), Phase::Starting);
    assert_eq!(w.last_run(), None);
}

#[test]
fn second_registration_is_ignored() {
    let mut w = pytest_watcher(false);
    w.step(Signal::Registered, 0);
    assert_eq!(w.step(Signal::Registered, 5 * SECOND), Reaction::Ignore);
    assert_eq!(w.step(Signal::RegistrationFailed, 5 * SECOND), Reaction::Ignore);
    assert_eq!(w.phase(), Phase::Watching);
}

#[test]
fn only_creations_and_modifications_count() {
    let mut w = pytest_watcher(false);
    w.step(Signal::Registered, 0);
    let removed = Signal::Change(ChangeEvent::Removed("src/app.py".to_string()));
    assert_eq!(w.step(removed, 2 * SECOND), Reaction::Ignore);
    assert_eq!(w.step(Signal::Change(ChangeEvent::Other), 2 * SECOND), Reaction::Ignore);
    assert_eq!(
        w.step(created("src/new.py"), 2 * SECOND),
        restart_for("src/new.py", vec![spawn("pytest", &[])])
    );
}

#[test]
fn failed_spawn_keeps_watching_with_no_child() {
    let mut w = pytest_watcher(true);
    w.step(Signal::Registered, 0);
    w.child_spawned(SpawnOutcome::Failed, 10);
    assert_eq!(w.phase(), Phase::Watching);
    assert_eq!(w.child(), None);
    assert_eq!(w.last_run(), Some(10));
    assert_eq!(
        w.step(modified("src/app.py"), 10 + SECOND),
        restart_for("src/app.py", vec![spawn("pytest", &[])])
    );
}

#[test]
fn interval_counts_from_the_spawn_report() {
    let mut w = pytest_watcher(false);
    w.step(Signal::Registered, 0);
    w.child_spawned(SpawnOutcome::Started(1), 500 * MILLI);
    assert!(!w.interval_consumed(1100 * MILLI));
    assert_eq!(w.step(modified("src/app.py"), 1100 * MILLI), Reaction::Ignore);
    assert!(w.interval_consumed(1500 * MILLI));
}

#[test]
fn without_patterns_every_path_is_relevant() {
    let mut w = Fwatcher::new(words(&["src"]), words(&["pytest"]));
    assert_eq!(
        w.step(Signal::Registered, 0),
        Reaction::Restart { trigger: None, actions: vec![spawn("pytest", &[])] }
    );
    w.child_spawned(SpawnOutcome::Started(1), 0);
    assert_eq!(
        w.step(modified("src/app.py"), 10 * SECOND),
        restart_for("src/app.py", vec![spawn("pytest", &[])])
    );
    assert_eq!(
        w.step(created("/any/where/notes.txt"), 20 * SECOND),
        restart_for("/any/where/notes.txt", vec![spawn("pytest", &[])])
    );
}

#[test]
fn without_patterns_excludes_still_apply() {
    let mut w = Fwatcher::new(words(&["src"]), words(&["pytest"]));
    w.exclude_pattern(pat("**/*.tmp"));
    w.step(Signal::Registered, 0);
    assert_eq!(w.step(modified("src/app.tmp"), 10 * SECOND), Reaction::Ignore);
    assert_eq!(
        w.step(modified("src/app.py"), 10 * SECOND),
        restart_for("src/app.py", vec![spawn("pytest", &[])])
    );
}

#[test]
fn supplied_pattern_replaces_the_default() {
    let mut w = Fwatcher::new(words(&["src"]), words(&["pytest"]));
    w.step(Signal::Registered, 0);
    assert_eq!(
        w.step(modified("README.md"), 10 * SECOND),
        restart_for("README.md", vec![spawn("pytest", &[])])
    );
    w.pattern(pat("**/*.py"));
    assert_eq!(w.step(modified("README.md"), 20 * SECOND), Reaction::Ignore);
    assert_eq!(
        w.step(modified("src/app.py"), 20 * SECOND),
        restart_for("src/app.py", vec![spawn("pytest", &[])])
    );
}

#[test]
fn patterns_with_an_empty_slice_keep_the_default() {
    let mut w = Fwatcher::new(Vec::new(), words(&["pytest"]));
    w.patterns(&[]).exclude_patterns(&[]);
    w.step(Signal::Registered, 0);
    assert_eq!(
        w.step(modified("x"), 10 * SECOND),
        restart_for("x", vec![spawn("pytest", &[])])
    );
}

#[test]
fn builders_add_patterns_in_order_and_chain() {
    let mut w = Fwatcher::new(Vec::new(), words(&["make", "-j", "4"]));
    w.patterns(&[pat("*.c"), pat("*.h")])
        .exclude_patterns(&[pat("gen_*"), pat("*.tmp.c")])
        .pattern(pat("Makefile"))
        .exclude_pattern(pat("old_*"))
        .interval(0)
        .restart(true);
    assert_eq!(
        w.step(Signal::Registered, 0),
        Reaction::Restart { trigger: None, actions: vec![spawn("make", &["-j", "4"])] }
    );
    w.child_spawned(SpawnOutcome::Started(9), 0);
    assert_eq!(
        w.step(modified("main.h"), 0),
        restart_for("main.h", vec![ProcessAction::Kill(9), spawn("make", &["-j", "4"])])
    );
    assert_eq!(w.step(modified("gen_main.c"), 1), Reaction::Ignore);
    assert_eq!(w.step(modified("x.tmp.c"), 1), Reaction::Ignore);
    assert_eq!(w.step(modified("old_Makefile"), 1), Reaction::Ignore);
    assert_eq!(w.step(modified("notes.txt"), 1), Reaction::Ignore);
    assert_eq!(
        w.step(modified("Makefile"), 1),
        restart_for("Makefile", vec![spawn("make", &["-j", "4"])])
    );
}

#[test]
fn default_interval_is_one_second() {
    let mut w = Fwatcher::new(Vec::new(), words(&["true"]));
    w.pattern(pat("*"));
    w.step(Signal::Registered, 0);
    assert!(!w.interval_consumed(SECOND - 1));
    assert!(w.interval_consumed(SECOND));
}
