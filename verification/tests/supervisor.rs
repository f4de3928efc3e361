use fwatcher::supervisor::ProcessAction;
use fwatcher::supervisor::ProcessSupervisor;
use fwatcher::supervisor::SpawnOutcome;

fn words(ws: &[&str]) -> Vec<String> {
    ws.iter().map(|w| w.to_string()).collect()
}

fn spawn(program: &str, args: &[&str]) -> ProcessAction {
    ProcessAction::Spawn { program: program.to_string(), args: words(args) }
}

#[test]
fn new_supervisor_holds_nothing() {
    let s = ProcessSupervisor::new(words(&["pytest", "--maxfail=2", "-q"]));
    assert_eq!(s.program(), "pytest");
    assert_eq!(s.args(), &words(&["--maxfail=2", "-q"]));
    assert_eq!(s.child(), None);
    assert_eq!(s.last_spawn(), None);
    assert!(!s.restart_policy());
}

#[test]
fn first_restart_only_spawns() {
    let mut s = ProcessSupervisor::new(words(&["pytest", "-q"]));
    assert_eq!(s.restart(), vec![spawn("pytest", &["-q"])]);
    s.set_restart(true);
    assert_eq!(s.restart(), vec![spawn("pytest", &["-q"])]);
}

#[test]
fn policy_off_never_kills_the_first_process() {
    let mut s = ProcessSupervisor::new(words(&["pytest"]));
    assert_eq!(s.restart(), vec![spawn("pytest", &[])]);
    s.record_spawn(SpawnOutcome::Started(41), 1);
    assert_eq!(s.child(), Some(41));
    let second = s.restart();
    assert_eq!(second, vec![spawn("pytest", &[])]);
    assert!(!second.contains(&ProcessAction::Kill(41)));
    s.record_spawn(SpawnOutcome::Started(42), 2);
    assert_eq!(s.restart(), vec![spawn("pytest", &[])]);
}

#[test]
fn policy_on_kills_the_previous_process_once_before_spawning() {
    let mut s = ProcessSupervisor::new(words(&["server", "--port", "80"]));
    s.set_restart(true);
    assert_eq!(s.restart(), vec![spawn("server", &["--port", "80"])]);
    s.record_spawn(SpawnOutcome::Started(41), 1);
    assert_eq!(
        s.restart(),
        vec![ProcessAction::Kill(41), spawn("server", &["--port", "80"])]
    );
    assert_eq!(s.child(), None);
    s.record_spawn(SpawnOutcome::Started(42), 2);
    assert_eq!(
        s.restart(),
        vec![ProcessAction::Kill(42), spawn("server", &["--port", "80"])]
    );
}

#[test]
fn a_process_is_not_signalled_twice() {
    let mut s = ProcessSupervisor::new(words(&["server"]));
    s.set_restart(true);
    s.restart();
    s.record_spawn(SpawnOutcome::Started(7), 1);
    assert_eq!(s.restart(), vec![ProcessAction::Kill(7), spawn("server", &[])]);
    assert_eq!(s.restart(), vec![spawn("server", &[])]);
}

#[test]
fn failed_spawn_records_no_process_but_keeps_the_time() {
    let mut s = ProcessSupervisor::new(words(&["missing"]));
    s.set_restart(true);
    s.restart();
    s.record_spawn(SpawnOutcome::Started(7), 1);
    s.restart();
    s.record_spawn(SpawnOutcome::Failed, 9);
    assert_eq!(s.child(), None);
    assert_eq!(s.last_spawn(), Some(9));
    assert_eq!(s.restart(), vec![spawn("missing", &[])]);
}

#[test]
fn record_spawn_keeps_command_and_policy() {
    let mut s = ProcessSupervisor::new(words(&["a", "b"]));
    s.set_restart(true);
    s.record_spawn(SpawnOutcome::Started(3), 5);
    assert!(s.restart_policy());
    assert_eq!(s.program(), "a");
    assert_eq!(s.args(), &words(&["b"]));
    assert_eq!(s.child(), Some(3));
    assert_eq!(s.last_spawn(), Some(5));
}
