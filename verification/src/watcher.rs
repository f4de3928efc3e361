//! The watcher: from what the watch source reports to what is done about it.
//!
//! A watcher is a state machine. It starts in `Phase::Starting`, where the
//! directories of `watch_roots` are to be registered with the watch source.
//! Told that this worked, it goes on to `Phase::Watching` and starts the
//! command for the first time. From then on a change to a relevant path
//! restarts the command, unless the last restart is less than the interval
//! ago; such a change is dropped, not kept for later. A failure of the watch
//! source ends the watching.
//!
//! A path is relevant when an include pattern matches it and no exclude
//! pattern does. While no include pattern is supplied, the pattern `*` is in
//! force in their place, so that every path is relevant that no exclude
//! pattern matches.
//!
//! The watcher waits for nothing, reads no clock and touches no process: the
//! caller hands it each signal with the time at which it arrived, carries out
//! the reaction, and reports how starting the command went.

use vstd::prelude::*;
use glob::Pattern;
use crate::filter::is_relevant;
use crate::filter::matches_any;
use crate::filter::relevant;
use crate::filter::texts;
use crate::gate::moment;
use crate::gate::GateView;
use crate::gate::IntervalGate;
use crate::pattern::compile;
use crate::pattern::glob_accepts;
use crate::pattern::glob_matches;
use crate::pattern::pattern_text;
use crate::supervisor::action_views;
use crate::supervisor::ActionView;
use crate::supervisor::ProcessAction;
use crate::supervisor::ProcessSupervisor;
use crate::supervisor::SpawnOutcome;
use crate::supervisor::SupervisorView;
use crate::text::strings;

verus! {

/// The interval of a new watcher: one second.
pub const DEFAULT_INTERVAL: u128 = 1_000_000_000;

/// The expression that stands for every path.
pub open spec fn catch_all() -> Seq<char> {
    seq!['*']
}

/// The include expressions of a watcher to which none was supplied: the one
/// that stands for every path. It is there if `glob` compiles it.
pub open spec fn default_includes() -> Seq<Seq<char>> {
    if glob_accepts(catch_all()) {
        seq![catch_all()]
    } else {
        Seq::empty()
    }
}

/// A change that the watch source reports.
#[derive(Clone, Debug, PartialEq, Eq)]
pub enum ChangeEvent {
    /// Something was created at this path.
    Created(String),
    /// What is at this path was written to.
    Modified(String),
    /// What was at this path is gone.
    Removed(String),
    /// Anything else.
    Other,
}

impl ChangeEvent {
    /// The path to react to: that of a creation or a modification. Nothing
    /// else is acted on.
    pub open spec fn actionable_path(self) -> Option<Seq<char>> {
        match self {
            ChangeEvent::Created(path) => Some(path@),
            ChangeEvent::Modified(path) => Some(path@),
            ChangeEvent::Removed(_) => None,
            ChangeEvent::Other => None,
        }
    }

    /// The path to react to, if the event has one.
    pub fn into_actionable_path(self) -> (r: Option<String>)
        ensures
            r is Some <==> self.actionable_path() is Some,
            r matches Some(path) ==> self.actionable_path() == Some(path@),
    {
        match self {
            ChangeEvent::Created(path) => Some(path),
            ChangeEvent::Modified(path) => Some(path),
            ChangeEvent::Removed(_) => None,
            ChangeEvent::Other => None,
        }
    }
}

/// What the caller tells the watcher.
#[derive(Clone, Debug, PartialEq, Eq)]
pub enum Signal {
    /// Every directory of `watch_roots` is registered with the watch source.
    Registered,
    /// A directory could not be registered.
    RegistrationFailed,
    /// The watch source reports a change.
    Change(ChangeEvent),
    /// The watch source failed and will report nothing more.
    SourceFailed,
}

/// Where a watcher stands.
#[derive(Clone, Copy, Debug, PartialEq, Eq)]
pub enum Phase {
    /// Not watching yet: the directories are to be registered.
    Starting,
    /// Watching: changes are acted on.
    Watching,
    /// Not watching any more.
    Stopped,
}

/// Why a watcher stopped.
#[derive(Clone, Copy, Debug, PartialEq, Eq)]
pub enum StopReason {
    /// A directory could not be registered at startup. This is fatal: the
    /// command was never started.
    RegistrationFailed,
    /// The watch source failed while watching. The watching ends in good
    /// order.
    SourceFailed,
}

impl StopReason {
    /// Whether the program has to end with a failure status.
    pub open spec fn fatal(self) -> bool {
        self is RegistrationFailed
    }

    /// Whether the program has to end with a failure status.
    pub fn is_fatal(self) -> (r: bool)
        ensures
            r == self.fatal(),
    {
        match self {
            StopReason::RegistrationFailed => true,
            StopReason::SourceFailed => false,
        }
    }
}

/// A directory to register with the watch source, with all that is below it.
#[derive(Clone, Debug, PartialEq, Eq)]
pub enum WatchRoot {
    /// The directory that the program runs in.
    CurrentDir,
    /// The directory at this path.
    Dir(String),
}

/// A `WatchRoot`, as mathematics.
pub enum RootView {
    CurrentDir,
    Dir(Seq<char>),
}

impl View for WatchRoot {
    type V = RootView;

    open spec fn view(&self) -> RootView {
        match self {
            WatchRoot::CurrentDir => RootView::CurrentDir,
            WatchRoot::Dir(path) => RootView::Dir(path@),
        }
    }
}

/// The views of a sequence of roots, in order.
pub open spec fn root_views(roots: Seq<WatchRoot>) -> Seq<RootView> {
    roots.map_values(|r: WatchRoot| r@)
}

/// What the caller has to do after a signal.
#[derive(Clone, Debug, PartialEq, Eq)]
pub enum Reaction {
    /// Nothing.
    Ignore,
    /// Announce the path that caused the restart, if a path did, then carry
    /// out the actions in order, then report with `child_spawned` how
    /// starting the command went.
    Restart { trigger: Option<String>, actions: Vec<ProcessAction> },
    /// Stop watching.
    Halt(StopReason),
}

/// A `Reaction`, as mathematics.
pub enum ReactionView {
    Ignore,
    Restart { trigger: Option<Seq<char>>, actions: Seq<ActionView> },
    Halt(StopReason),
}

impl View for Reaction {
    type V = ReactionView;

    open spec fn view(&self) -> ReactionView {
        match self {
            Reaction::Ignore => ReactionView::Ignore,
            Reaction::Restart { trigger, actions } => ReactionView::Restart {
                trigger: match trigger {
                    Some(path) => Some(path@),
                    None => None,
                },
                actions: action_views(actions@),
            },
            Reaction::Halt(reason) => ReactionView::Halt(*reason),
        }
    }
}

/// What a watcher is, as mathematics.
pub struct WatcherView {
    /// The directories to watch, as given.
    pub dirs: Seq<Seq<char>>,
    /// The include expressions that were supplied, in order.
    pub includes: Seq<Seq<char>>,
    /// The include expressions that are in force while none is supplied.
    pub default_includes: Seq<Seq<char>>,
    /// The glob expressions of which none may match a path.
    pub excludes: Seq<Seq<char>>,
    /// The rate gate, with the interval and the time of the last restart.
    pub gate: GateView,
    /// The supervisor, with the command, the policy and the process held.
    pub supervisor: SupervisorView,
    /// Where the watcher stands.
    pub phase: Phase,
}

impl WatcherView {
    /// The directories to register: those given, or the current directory
    /// where none was given.
    pub open spec fn roots(self) -> Seq<RootView> {
        if self.dirs.len() == 0 {
            seq![RootView::CurrentDir]
        } else {
            self.dirs.map_values(|d: Seq<char>| RootView::Dir(d))
        }
    }

    /// The glob expressions of which one has to match a path: those
    /// supplied, or the default where none was supplied.
    pub open spec fn includes_in_force(self) -> Seq<Seq<char>> {
        if self.includes.len() == 0 {
            self.default_includes
        } else {
            self.includes
        }
    }

    /// A change to `path` is worth a restart: an include expression in force
    /// matches it and no exclude expression does.
    pub open spec fn relevant(self, path: Seq<char>) -> bool {
        relevant(path, self.includes_in_force(), self.excludes)
    }

    /// While watching, `event` at time `now` restarts the command: it is a
    /// creation or a modification, its path is relevant, and the rate gate is
    /// open.
    pub open spec fn triggers(self, event: ChangeEvent, now: nat) -> bool {
        match event.actionable_path() {
            Some(path) => self.relevant(path) && self.gate.open_at(now),
            None => false,
        }
    }

    /// Whether `signal` at time `now` restarts the command.
    pub open spec fn restarts(self, signal: Signal, now: nat) -> bool {
        match (self.phase, signal) {
            (Phase::Starting, Signal::Registered) => true,
            (Phase::Watching, Signal::Change(event)) => self.triggers(event, now),
            _ => false,
        }
    }

    /// The watcher after a restart was decided at time `now`: the rate gate
    /// cools from `now` on and the supervisor holds no process.
    pub open spec fn restarted(self, now: nat) -> WatcherView {
        WatcherView {
            gate: self.gate.recorded(now),
            supervisor: self.supervisor.restarted(),
            ..self
        }
    }

    /// The watcher after `signal` arrived at time `now`.
    pub open spec fn next(self, signal: Signal, now: nat) -> WatcherView {
        match (self.phase, signal) {
            (Phase::Starting, Signal::Registered) => WatcherView {
                phase: Phase::Watching,
                ..self.restarted(now)
            },
            (Phase::Starting, Signal::RegistrationFailed) => WatcherView {
                phase: Phase::Stopped,
                ..self
            },
            (Phase::Watching, Signal::Change(event)) => if self.triggers(event, now) {
                self.restarted(now)
            } else {
                self
            },
            (Phase::Watching, Signal::SourceFailed) => WatcherView {
                phase: Phase::Stopped,
                ..self
            },
            _ => self,
        }
    }

    /// What the caller has to do after `signal` arrived at time `now`.
    pub open spec fn reaction(self, signal: Signal, now: nat) -> ReactionView {
        match (self.phase, signal) {
            (Phase::Starting, Signal::Registered) => ReactionView::Restart {
                trigger: None,
                actions: self.supervisor.restart_actions(),
            },
            (Phase::Starting, Signal::RegistrationFailed) => ReactionView::Halt(
                StopReason::RegistrationFailed,
            ),
            (Phase::Watching, Signal::Change(event)) => if self.triggers(event, now) {
                ReactionView::Restart {
                    trigger: event.actionable_path(),
                    actions: self.supervisor.restart_actions(),
                }
            } else {
                ReactionView::Ignore
            },
            (Phase::Watching, Signal::SourceFailed) => ReactionView::Halt(StopReason::SourceFailed),
            _ => ReactionView::Ignore,
        }
    }

    /// The watcher after an attempt to start the command ended at time `at`:
    /// the supervisor knows the outcome, and the rate gate cools from `at` on.
    pub open spec fn spawned(self, outcome: SpawnOutcome, at: nat) -> WatcherView {
        WatcherView {
            gate: self.gate.recorded(at),
            supervisor: self.supervisor.spawned(outcome, at),
            ..self
        }
    }
}

/// Watches directories and decides when the command runs again.
#[derive(Debug)]
pub struct Fwatcher {
    dirs: Vec<String>,
    patterns: Vec<Pattern>,
    default_patterns: Vec<Pattern>,
    exclude_patterns: Vec<Pattern>,
    gate: IntervalGate,
    supervisor: ProcessSupervisor,
    phase: Phase,
}

impl View for Fwatcher {
    type V = WatcherView;

    closed spec fn view(&self) -> WatcherView {
        WatcherView {
            dirs: strings(self.dirs@),
            includes: texts(self.patterns@),
            default_includes: texts(self.default_patterns@),
            excludes: texts(self.exclude_patterns@),
            gate: self.gate@,
            supervisor: self.supervisor@,
            phase: self.phase,
        }
    }
}

impl Fwatcher {
    /// A watcher of the directories `dirs` that runs the command `cmd`,
    /// whose first element is the executable. No pattern is supplied yet, so
    /// it reacts to every path, as long as no include pattern is added; it
    /// has an interval of one second and leaves running processes alone.
    pub fn new(dirs: Vec<String>, cmd: Vec<String>) -> (w: Self)
        requires
            cmd@.len() >= 1,
        ensures
            w@ == (WatcherView {
                dirs: strings(dirs@),
                includes: Seq::empty(),
                default_includes: default_includes(),
                excludes: Seq::empty(),
                gate: GateView { interval: DEFAULT_INTERVAL as nat, last: None },
                supervisor: SupervisorView {
                    restart: false,
                    program: cmd@[0]@,
                    args: strings(cmd@).skip(1),
                    child: None,
                    last_spawn: None,
                },
                phase: Phase::Starting,
            }),
    {
        let mut default_patterns: Vec<Pattern> = Vec::new();
        proof {
            reveal_strlit("*");
            assert("*"@ =~= catch_all());
        }
        match compile("*") {
            Ok(pattern) => {
                default_patterns.push(pattern);
            },
            Err(_) => {},
        }
        assert(texts(default_patterns@) =~= default_includes());
        let w = Fwatcher {
            dirs: dirs,
            patterns: Vec::new(),
            default_patterns: default_patterns,
            exclude_patterns: Vec::new(),
            gate: IntervalGate::new(DEFAULT_INTERVAL),
            supervisor: ProcessSupervisor::new(cmd),
            phase: Phase::Starting,
        };
        assert(w@.includes =~= Seq::empty());
        assert(w@.excludes =~= Seq::empty());
        w
    }

    /// Adds an include pattern.
    pub fn pattern(&mut self, pat: Pattern) -> (r: &mut Self)
        ensures
            r@ == (WatcherView {
                includes: old(self)@.includes.push(pattern_text(pat)),
                ..old(self)@
            }),
            *final(self) == *final(r),
    {
        self.patterns.push(pat);
        assert(texts(self.patterns@) =~= texts(old(self).patterns@).push(pattern_text(pat)));
        self
    }

    /// Adds include patterns, in the order given.
    pub fn patterns(&mut self, pats: &[Pattern]) -> (r: &mut Self)
        ensures
            r@ == (WatcherView { includes: old(self)@.includes + texts(pats@), ..old(self)@ }),
            *final(self) == *final(r),
    {
        self.patterns.extend_from_slice(pats);
        assert(texts(self.patterns@) =~= texts(old(self).patterns@) + texts(pats@));
        self
    }

    /// Adds an exclude pattern.
    pub fn exclude_pattern(&mut self, pat: Pattern) -> (r: &mut Self)
        ensures
            r@ == (WatcherView {
                excludes: old(self)@.excludes.push(pattern_text(pat)),
                ..old(self)@
            }),
            *final(self) == *final(r),
    {
        self.exclude_patterns.push(pat);
        assert(texts(self.exclude_patterns@) =~= texts(old(self).exclude_patterns@).push(
            pattern_text(pat),
        ));
        self
    }

    /// Adds exclude patterns, in the order given.
    pub fn exclude_patterns(&mut self, pats: &[Pattern]) -> (r: &mut Self)
        ensures
            r@ == (WatcherView { excludes: old(self)@.excludes + texts(pats@), ..old(self)@ }),
            *final(self) == *final(r),
    {
        self.exclude_patterns.extend_from_slice(pats);
        assert(texts(self.exclude_patterns@) =~= texts(old(self).exclude_patterns@) + texts(
            pats@,
        ));
        self
    }

    /// Sets the least time between two restarts, in nanoseconds.
    pub fn interval(&mut self, d: u128) -> (r: &mut Self)
        ensures
            r@ == (WatcherView {
                gate: GateView { interval: d as nat, last: old(self)@.gate.last },
                ..old(self)@
            }),
            *final(self) == *final(r),
    {
        self.gate.set_interval(d);
        self
    }

    /// Sets whether a restart terminates the process that still runs.
    pub fn restart(&mut self, flag: bool) -> (r: &mut Self)
        ensures
            r@ == (WatcherView {
                supervisor: SupervisorView { restart: flag, ..old(self)@.supervisor },
                ..old(self)@
            }),
            *final(self) == *final(r),
    {
        self.supervisor.set_restart(flag);
        self
    }

    /// The directories to register with the watch source: those given to
    /// `new`, in order, or the current directory where none was given.
    pub fn watch_roots(&self) -> (roots: Vec<WatchRoot>)
        ensures
            root_views(roots@) == self@.roots(),
    {
        let mut roots: Vec<WatchRoot> = Vec::new();
        if self.dirs.len() == 0 {
            roots.push(WatchRoot::CurrentDir);
            assert(root_views(roots@) =~= self@.roots());
            return roots;
        }
        let mut i: usize = 0;
        while i < self.dirs.len()
            invariant
                i <= self.dirs@.len(),
                roots@.len() == i,
                forall|j: int|
                    0 <= j < i ==> (#[trigger] roots@[j])@ == RootView::Dir(self.dirs@[j]@),
            decreases self.dirs@.len() - i,
        {
            roots.push(WatchRoot::Dir(self.dirs[i].clone()));
            i = i + 1;
        }
        assert(root_views(roots@) =~= self@.roots());
        roots
    }

    /// Where the watcher stands.
    pub fn phase(&self) -> (r: Phase)
        ensures
            r == self@.phase,
    {
        self.phase
    }

    /// The process that the watcher holds, if any.
    pub fn child(&self) -> (r: Option<u32>)
        ensures
            r == self@.supervisor.child,
    {
        self.supervisor.child()
    }

    /// The time from which the interval counts: that of the last restart or
    /// of the last report of `child_spawned`, whichever came later.
    pub fn last_run(&self) -> (r: Option<u128>)
        ensures
            moment(r) == self@.gate.last,
    {
        self.gate.last_action()
    }

    /// Whether enough time has passed at `now` for another restart.
    pub fn interval_consumed(&self, now: u128) -> (r: bool)
        ensures
            r == self@.gate.open_at(now as nat),
    {
        self.gate.should_act(now)
    }

    /// Decides a restart at time `now` without asking whether the interval
    /// has passed: the interval counts from `now` on, and the actions are
    /// those of the supervisor.
    fn restart_child(&mut self, now: u128) -> (actions: Vec<ProcessAction>)
        ensures
            action_views(actions@) == old(self)@.supervisor.restart_actions(),
            final(self)@ == old(self)@.restarted(now as nat),
    {
        self.gate.record_action(now);
        self.supervisor.restart()
    }

    /// Reacts to a change that arrives when the interval has passed: a
    /// creation or modification of a relevant path restarts the command,
    /// anything else is ignored.
    fn process_event(&mut self, event: ChangeEvent, now: u128) -> (r: Reaction)
        requires
            old(self)@.gate.open_at(now as nat),
        ensures
            final(self)@ == (if old(self)@.triggers(event, now as nat) {
                old(self)@.restarted(now as nat)
            } else {
                old(self)@
            }),
            r@ == (if old(self)@.triggers(event, now as nat) {
                ReactionView::Restart {
                    trigger: event.actionable_path(),
                    actions: old(self)@.supervisor.restart_actions(),
                }
            } else {
                ReactionView::Ignore
            }),
    {
        match event.into_actionable_path() {
            Some(path) => {
                let includes = if self.patterns.len() == 0 {
                    self.default_patterns.as_slice()
                } else {
                    self.patterns.as_slice()
                };
                if is_relevant(path.as_str(), includes, self.exclude_patterns.as_slice()) {
                    let actions = self.restart_child(now);
                    Reaction::Restart { trigger: Some(path), actions }
                } else {
                    Reaction::Ignore
                }
            },
            None => Reaction::Ignore,
        }
    }

    /// Takes `signal`, which arrived at time `now`, and says what to do.
    ///
    /// While starting, the news that the directories are registered starts
    /// the watching and the command; the news that one could not be
    /// registered stops the watcher for good, before the command was ever
    /// started. While watching, a change restarts the command if it is a
    /// creation or modification of a relevant path and the interval has
    /// passed, and is dropped otherwise; a failure of the watch source stops
    /// the watcher. Whatever else arrives is ignored.
    pub fn step(&mut self, signal: Signal, now: u128) -> (r: Reaction)
        ensures
            final(self)@ == old(self)@.next(signal, now as nat),
            r@ == old(self)@.reaction(signal, now as nat),
    {
        match self.phase {
            Phase::Starting => match signal {
                Signal::Registered => {
                    self.phase = Phase::Watching;
                    let actions = self.restart_child(now);
                    Reaction::Restart { trigger: None, actions }
                },
                Signal::RegistrationFailed => {
                    self.phase = Phase::Stopped;
                    Reaction::Halt(StopReason::RegistrationFailed)
                },
                _ => Reaction::Ignore,
            },
            Phase::Watching => match signal {
                Signal::Change(event) => {
                    if self.interval_consumed(now) {
                        self.process_event(event, now)
                    } else {
                        Reaction::Ignore
                    }
                },
                Signal::SourceFailed => {
                    self.phase = Phase::Stopped;
                    Reaction::Halt(StopReason::SourceFailed)
                },
                _ => Reaction::Ignore,
            },
            Phase::Stopped => Reaction::Ignore,
        }
    }

    /// Takes note of how starting the command ended, at time `at`. The
    /// process is held if it runs; none is held if it does not, and the
    /// watcher goes on as before. The interval counts from `at`.
    pub fn child_spawned(&mut self, outcome: SpawnOutcome, at: u128)
        ensures
            final(self)@ == old(self)@.spawned(outcome, at as nat),
    {
        self.supervisor.record_spawn(outcome, at);
        self.gate.record_action(at);
    }
}

/// A watcher to which no include pattern was supplied reacts to every path:
/// a path is relevant to it if and only if the expression `*` matches it and
/// no exclude expression does. This holds wherever `glob` compiles `*`.
pub proof fn lemma_no_include_means_every_path(w: WatcherView, path: Seq<char>)
    requires
        w.includes.len() == 0,
        w.default_includes == default_includes(),
        glob_accepts(catch_all()),
    ensures
        w.relevant(path) <==> glob_matches(catch_all(), path) && !matches_any(path, w.excludes),
{
    assert(w.includes_in_force() =~= seq![catch_all()]);
    assert(w.includes_in_force()[0] == catch_all());
    if glob_matches(catch_all(), path) {
        assert(glob_matches(w.includes_in_force()[0], path));
    }
}

/// Include patterns that are supplied take the place of the default: with
/// one or more of them, a path is relevant if and only if one of them
/// matches it and no exclude expression does.
pub proof fn lemma_supplied_includes_replace_default(w: WatcherView, path: Seq<char>)
    requires
        w.includes.len() > 0,
    ensures
        w.relevant(path) <==> relevant(path, w.includes, w.excludes),
{
}

/// A change to a path that an exclude expression matches never restarts
/// the command, at whatever time it arrives and whatever the include
/// expressions are: the reaction is to ignore it, and the watcher stays as
/// it was.
pub proof fn lemma_excluded_path_never_restarts(w: WatcherView, event: ChangeEvent, now: nat)
    requires
        event.actionable_path() matches Some(path) && exists|j: int|
            0 <= j < w.excludes.len() && glob_matches(#[trigger] w.excludes[j], path),
    ensures
        !w.restarts(Signal::Change(event), now),
        w.reaction(Signal::Change(event), now) == ReactionView::Ignore,
        w.next(Signal::Change(event), now) == w,
{
}

/// The same, told from the start: once the command was started at time
/// `t0`, a change to a path that an exclude expression matches causes
/// nothing, however much later it arrives. No process is terminated or
/// started, and the interval still counts from `t0`.
pub proof fn lemma_excluded_change_after_startup(
    w: WatcherView,
    outcome: SpawnOutcome,
    t0: nat,
    event: ChangeEvent,
    d: nat,
)
    requires
        w.phase == Phase::Starting,
        event.actionable_path() matches Some(path) && exists|j: int|
            0 <= j < w.excludes.len() && glob_matches(#[trigger] w.excludes[j], path),
    ensures
        ({
            let started = w.next(Signal::Registered, t0).spawned(outcome, t0);
            &&& started.reaction(Signal::Change(event), t0 + d) == ReactionView::Ignore
            &&& started.next(Signal::Change(event), t0 + d) == started
            &&& started.gate.last == Some(t0)
            &&& started.supervisor == w.supervisor.restarted().spawned(outcome, t0)
        }),
{
    let started = w.next(Signal::Registered, t0).spawned(outcome, t0);
    assert(started.excludes == w.excludes);
    lemma_excluded_path_never_restarts(started, event, t0 + d);
}

/// What is neither created nor modified is never acted on.
pub proof fn lemma_only_creations_and_modifications_count(
    w: WatcherView,
    event: ChangeEvent,
    now: nat,
)
    requires
        event is Removed || event is Other,
    ensures
        w.reaction(Signal::Change(event), now) == ReactionView::Ignore,
        w.next(Signal::Change(event), now) == w,
{
}

/// After a restart at time `at`, no change that arrives before a full
/// interval has passed restarts the command again, and none is remembered:
/// the watcher is left exactly as it was. So a burst of changes within one
/// interval costs at most one restart.
pub proof fn lemma_changes_during_cooldown_are_dropped(
    w: WatcherView,
    signal: Signal,
    at: nat,
    event: ChangeEvent,
    now: nat,
)
    requires
        w.gate.interval > 0,
        w.restarts(signal, at),
        at <= now < at + w.gate.interval,
    ensures
        w.next(signal, at).reaction(Signal::Change(event), now) == ReactionView::Ignore,
        w.next(signal, at).next(Signal::Change(event), now) == w.next(signal, at),
{
}

/// The same holds after the report of a start at time `at`, from which the
/// interval counts anew.
pub proof fn lemma_changes_after_spawn_are_dropped(
    w: WatcherView,
    outcome: SpawnOutcome,
    at: nat,
    event: ChangeEvent,
    now: nat,
)
    requires
        w.gate.interval > 0,
        at <= now < at + w.gate.interval,
    ensures
        w.spawned(outcome, at).reaction(Signal::Change(event), now) == ReactionView::Ignore,
        w.spawned(outcome, at).next(Signal::Change(event), now) == w.spawned(outcome, at),
{
}

/// While watching, the creation or modification of a relevant path that
/// arrives a full interval or more after the last restart restarts the
/// command, names the path, and starts the command exactly once. With the
/// restart policy on, the process held is terminated first; with the policy
/// off no process is touched.
pub proof fn lemma_relevant_change_after_interval_restarts(
    w: WatcherView,
    event: ChangeEvent,
    now: nat,
)
    requires
        w.phase == Phase::Watching,
        event.actionable_path() matches Some(path) && w.relevant(path),
        w.gate.last matches Some(t) ==> now >= t + w.gate.interval,
    ensures
        w.reaction(Signal::Change(event), now) == (ReactionView::Restart {
            trigger: event.actionable_path(),
            actions: w.supervisor.restart_actions(),
        }),
        w.supervisor.restart && w.supervisor.child is Some ==> w.supervisor.restart_actions()
            == seq![ActionView::Kill(w.supervisor.child->0), w.supervisor.spawn_action()],
        !w.supervisor.restart || w.supervisor.child is None ==> w.supervisor.restart_actions()
            == seq![w.supervisor.spawn_action()],
        w.next(Signal::Change(event), now).gate.last == Some(now),
        w.next(Signal::Change(event), now).supervisor.child is None,
{
}

/// Where a directory cannot be registered the watcher stops before the
/// command was ever started, and the failure is fatal.
pub proof fn lemma_registration_failure_is_fatal(w: WatcherView, now: nat)
    requires
        w.phase == Phase::Starting,
    ensures
        w.reaction(Signal::RegistrationFailed, now) == ReactionView::Halt(
            StopReason::RegistrationFailed,
        ),
        StopReason::RegistrationFailed.fatal(),
        w.next(Signal::RegistrationFailed, now).phase == Phase::Stopped,
        w.next(Signal::RegistrationFailed, now).supervisor == w.supervisor,
{
}

/// A watcher that stopped stays as it is and asks for nothing more: no
/// signal restarts the command.
pub proof fn lemma_stopped_is_final(w: WatcherView, signal: Signal, now: nat)
    requires
        w.phase == Phase::Stopped,
    ensures
        w.reaction(signal, now) == ReactionView::Ignore,
        w.next(signal, now) == w,
{
}

/// The command is started by a restart and by nothing else, and every
/// restart starts it exactly once, as its last action.
pub proof fn lemma_one_spawn_per_restart(w: WatcherView, signal: Signal, now: nat)
    ensures
        w.reaction(signal, now) is Restart <==> w.restarts(signal, now),
        w.reaction(signal, now) matches ReactionView::Restart { actions, .. } ==> {
            &&& actions.last() == w.supervisor.spawn_action()
            &&& forall|i: int| 0 <= i < actions.len() - 1 ==> actions[i] is Kill
        },
{
}

/// A start that failed does not stop the watcher: it goes on as before,
/// holding no process.
pub proof fn lemma_failed_spawn_is_not_fatal(w: WatcherView, at: nat)
    ensures
        w.spawned(SpawnOutcome::Failed, at).phase == w.phase,
        w.spawned(SpawnOutcome::Failed, at).supervisor.child is None,
{
}

} // verus!
