//! The life of the command that is run.
//!
//! The supervisor decides; it starts and stops nothing itself. `restart`
//! says what has to happen to the processes, in order, and `record_spawn`
//! takes note of how starting the new process went. A process is known here
//! by the number that the operating system gave it.

use vstd::prelude::*;
use crate::gate::moment;
use crate::text::clone_strings;
use crate::text::strings;

verus! {

/// One thing to do to a process.
#[derive(Clone, Debug, PartialEq, Eq)]
pub enum ProcessAction {
    /// Signal the process with this id to terminate, without waiting for it
    /// to exit.
    Kill(u32),
    /// Start `program` with `args`, on the standard streams of the caller.
    Spawn { program: String, args: Vec<String> },
}

/// A `ProcessAction`, as mathematics.
pub enum ActionView {
    Kill(u32),
    Spawn { program: Seq<char>, args: Seq<Seq<char>> },
}

impl View for ProcessAction {
    type V = ActionView;

    open spec fn view(&self) -> ActionView {
        match self {
            ProcessAction::Kill(id) => ActionView::Kill(*id),
            ProcessAction::Spawn { program, args } => ActionView::Spawn {
                program: program@,
                args: strings(args@),
            },
        }
    }
}

/// The views of a sequence of actions, in order.
pub open spec fn action_views(actions: Seq<ProcessAction>) -> Seq<ActionView> {
    actions.map_values(|a: ProcessAction| a@)
}

/// How an attempt to start the command ended.
#[derive(Clone, Copy, Debug, PartialEq, Eq)]
pub enum SpawnOutcome {
    /// The process runs, under this id.
    Started(u32),
    /// The process could not be started.
    Failed,
}

/// What a supervisor is, as mathematics.
pub struct SupervisorView {
    /// Whether a restart terminates the process that still runs.
    pub restart: bool,
    /// The executable.
    pub program: Seq<char>,
    /// Its arguments.
    pub args: Seq<Seq<char>>,
    /// The process that the supervisor still holds, if any.
    pub child: Option<u32>,
    /// When the command was last started, or last failed to start.
    pub last_spawn: Option<nat>,
}

impl SupervisorView {
    /// The one way to start the command.
    pub open spec fn spawn_action(self) -> ActionView {
        ActionView::Spawn { program: self.program, args: self.args }
    }

    /// The process that a restart terminates: the one held, where the policy
    /// asks for it.
    pub open spec fn to_kill(self) -> Option<u32> {
        if self.restart {
            self.child
        } else {
            None
        }
    }

    /// What a restart does, in order: it terminates the process held where
    /// the policy asks for it, then starts the command.
    pub open spec fn restart_actions(self) -> Seq<ActionView> {
        match self.to_kill() {
            Some(id) => seq![ActionView::Kill(id), self.spawn_action()],
            None => seq![self.spawn_action()],
        }
    }

    /// The supervisor after a restart was decided: it holds no process.
    pub open spec fn restarted(self) -> SupervisorView {
        SupervisorView { child: None, ..self }
    }

    /// The supervisor after an attempt to start the command ended at time
    /// `at`.
    pub open spec fn spawned(self, outcome: SpawnOutcome, at: nat) -> SupervisorView {
        SupervisorView {
            child: match outcome {
                SpawnOutcome::Started(id) => Some(id),
                SpawnOutcome::Failed => None,
            },
            last_spawn: Some(at),
            ..self
        }
    }
}

/// Owns the decision of when the command's process is terminated and
/// started.
#[derive(Debug)]
pub struct ProcessSupervisor {
    restart: bool,
    program: String,
    args: Vec<String>,
    child: Option<u32>,
    last_spawn: Option<u128>,
}

impl View for ProcessSupervisor {
    type V = SupervisorView;

    closed spec fn view(&self) -> SupervisorView {
        SupervisorView {
            restart: self.restart,
            program: self.program@,
            args: strings(self.args@),
            child: self.child,
            last_spawn: moment(self.last_spawn),
        }
    }
}

impl ProcessSupervisor {
    /// A supervisor for the command `cmd`, whose first element is the
    /// executable and whose other elements are its arguments. It holds no
    /// process and leaves running processes alone.
    pub fn new(cmd: Vec<String>) -> (s: Self)
        requires
            cmd@.len() >= 1,
        ensures
            s@ == (SupervisorView {
                restart: false,
                program: cmd@[0]@,
                args: strings(cmd@).skip(1),
                child: None,
                last_spawn: None,
            }),
    {
        let mut args = cmd;
        let program = args.remove(0);
        assert(strings(args@) =~= strings(cmd@).skip(1));
        ProcessSupervisor { restart: false, program, args, child: None, last_spawn: None }
    }

    /// Sets whether a restart terminates the process that still runs.
    pub fn set_restart(&mut self, flag: bool)
        ensures
            final(self)@ == (SupervisorView { restart: flag, ..old(self)@ }),
    {
        self.restart = flag;
    }

    /// Whether a restart terminates the process that still runs.
    pub fn restart_policy(&self) -> (r: bool)
        ensures
            r == self@.restart,
    {
        self.restart
    }

    /// The executable.
    pub fn program(&self) -> (r: &String)
        ensures
            r@ == self@.program,
    {
        &self.program
    }

    /// The arguments of the executable.
    pub fn args(&self) -> (r: &Vec<String>)
        ensures
            strings(r@) == self@.args,
    {
        &self.args
    }

    /// The process held, if any.
    pub fn child(&self) -> (r: Option<u32>)
        ensures
            r == self@.child,
    {
        self.child
    }

    /// When the command was last started, or last failed to start.
    pub fn last_spawn(&self) -> (r: Option<u128>)
        ensures
            moment(r) == self@.last_spawn,
    {
        self.last_spawn
    }

    /// Decides a restart. The actions are to be carried out in the order
    /// given: first the process held is terminated, if there is one and the
    /// policy asks for it; then the command is started, whatever happened
    /// before. The supervisor gives up the process it held; a process that
    /// the policy spares keeps running on its own.
    pub fn restart(&mut self) -> (actions: Vec<ProcessAction>)
        ensures
            action_views(actions@) == old(self)@.restart_actions(),
            final(self)@ == old(self)@.restarted(),
    {
        let mut actions: Vec<ProcessAction> = Vec::new();
        if self.restart {
            if let Some(id) = self.child {
                actions.push(ProcessAction::Kill(id));
            }
        }
        self.child = None;
        let spawn = ProcessAction::Spawn {
            program: self.program.clone(),
            args: clone_strings(&self.args),
        };
        assert(spawn@ == old(self)@.spawn_action());
        actions.push(spawn);
        assert(action_views(actions@) =~= old(self)@.restart_actions());
        actions
    }

    /// Takes note of how starting the command ended, at time `at`. A process
    /// that started is held from now on; after a failure none is held. The
    /// time is kept either way.
    pub fn record_spawn(&mut self, outcome: SpawnOutcome, at: u128)
        ensures
            final(self)@ == old(self)@.spawned(outcome, at as nat),
    {
        self.child = match outcome {
            SpawnOutcome::Started(id) => Some(id),
            SpawnOutcome::Failed => None,
        };
        self.last_spawn = Some(at);
    }
}

/// With the restart policy off no restart terminates anything: the first
/// restart starts the command and nothing else, and so does the one after
/// it, however the first start ended.
pub proof fn lemma_policy_off_never_kills(s: SupervisorView, first: SpawnOutcome, at: nat)
    requires
        !s.restart,
    ensures
        s.restart_actions() == seq![s.spawn_action()],
        s.restarted().spawned(first, at).restart_actions() == seq![s.spawn_action()],
        forall|id: u32|
            !s.restarted().spawned(first, at).restart_actions().contains(ActionView::Kill(id)),
{
    let second = s.restarted().spawned(first, at);
    assert(second.restart_actions() =~= seq![s.spawn_action()]);
    assert forall|id: u32| !second.restart_actions().contains(ActionView::Kill(id)) by {
        if second.restart_actions().contains(ActionView::Kill(id)) {
            let i = choose|i: int| 0 <= i < second.restart_actions().len()
                && second.restart_actions()[i] == ActionView::Kill(id);
            assert(second.restart_actions()[i] == s.spawn_action());
        }
    }
}

/// With the restart policy on, the restart that follows a successful start
/// terminates exactly the process that this start gave, once, and only then
/// starts the command again.
pub proof fn lemma_policy_on_kills_previous(s: SupervisorView, id: u32, at: nat)
    requires
        s.restart,
    ensures
        s.restarted().spawned(SpawnOutcome::Started(id), at).restart_actions()
            == seq![ActionView::Kill(id), s.spawn_action()],
{
}

/// A process is given up by the restart that decides on it: a further
/// restart, before any new process is recorded, terminates nothing. So no
/// process is ever signalled twice.
pub proof fn lemma_restart_gives_up_child(s: SupervisorView)
    ensures
        s.restarted().restart_actions() == seq![s.spawn_action()],
{
}

/// After a start that failed no process is held, and the next restart
/// terminates nothing.
pub proof fn lemma_failed_spawn_holds_nothing(s: SupervisorView, at: nat)
    ensures
        s.spawned(SpawnOutcome::Failed, at).child is None,
        s.spawned(SpawnOutcome::Failed, at).restart_actions() == seq![s.spawn_action()],
{
}

} // verus!
