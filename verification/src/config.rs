//! From the arguments of an invocation to a watcher.
//!
//! A watcher made here watches the directories named, or the current one
//! where none is named; reacts to paths that match one of the include
//! expressions, or to every path where none is given, as every watcher does;
//! and waits one second between restarts where no interval is given. An
//! invocation without a command, with an expression that does not compile or
//! with an interval that is no number is refused before anything is watched.

use vstd::prelude::*;
use crate::gate::GateView;
use crate::number::decimal_u64;
use crate::number::parse_u64;
use crate::pattern::compile;
use crate::pattern::glob_accepts;
use crate::supervisor::SupervisorView;
use crate::text::strings;
use crate::watcher::Fwatcher;
use crate::watcher::Phase;
use crate::watcher::default_includes;
use crate::watcher::WatcherView;
use crate::watcher::DEFAULT_INTERVAL;

verus! {

/// The nanoseconds in a second.
pub const NANOS_PER_SECOND: u128 = 1_000_000_000;

/// What an invocation asks for, as the command line gave it.
#[derive(Debug)]
pub struct Arguments {
    /// The usage text is asked for.
    pub help: bool,
    /// The version is asked for.
    pub version: bool,
    /// A restart terminates the command that still runs.
    pub restart: bool,
    /// The directories to watch.
    pub directories: Vec<String>,
    /// The glob expressions of which one has to match a changed path.
    pub patterns: Vec<String>,
    /// The glob expressions of which none may match a changed path.
    pub exclude_patterns: Vec<String>,
    /// The least time between two restarts, in whole seconds, as written.
    pub interval: Option<String>,
    /// The command to run: the executable, then its arguments.
    pub command: Vec<String>,
}

/// What an invocation comes to.
#[derive(Debug)]
pub enum Invocation {
    /// Show the usage text and end.
    Help,
    /// Show the version and end.
    Version,
    /// Watch, with this watcher.
    Watch(Fwatcher),
}

/// Why an invocation is refused.
#[derive(Clone, Copy, Debug, PartialEq, Eq)]
pub enum ConfigError {
    /// No command is given.
    MissingCommand,
    /// The include expression at this position does not compile.
    BadPattern(usize),
    /// The exclude expression at this position does not compile.
    BadExcludePattern(usize),
    /// The interval is not a whole number of seconds.
    BadInterval,
}

/// An `Invocation`, as mathematics.
pub enum InvocationView {
    Help,
    Version,
    Watch(WatcherView),
}

impl View for Invocation {
    type V = InvocationView;

    open spec fn view(&self) -> InvocationView {
        match self {
            Invocation::Help => InvocationView::Help,
            Invocation::Version => InvocationView::Version,
            Invocation::Watch(w) => InvocationView::Watch(w@),
        }
    }
}

/// `i` is the position of the first of `globs` that does not compile.
pub open spec fn first_rejected(globs: Seq<Seq<char>>, i: int) -> bool {
    &&& 0 <= i < globs.len()
    &&& !glob_accepts(globs[i])
    &&& forall|j: int| 0 <= j < i ==> glob_accepts(#[trigger] globs[j])
}

/// Every one of `globs` compiles.
pub open spec fn all_accepted(globs: Seq<Seq<char>>) -> bool {
    forall|j: int| 0 <= j < globs.len() ==> glob_accepts(#[trigger] globs[j])
}

impl Arguments {
    /// The include expressions.
    pub open spec fn includes(self) -> Seq<Seq<char>> {
        strings(self.patterns@)
    }

    /// The exclude expressions.
    pub open spec fn excludes(self) -> Seq<Seq<char>> {
        strings(self.exclude_patterns@)
    }

    /// The interval is one that can be read: none is given, or a whole
    /// number of seconds is.
    pub open spec fn interval_readable(self) -> bool {
        match self.interval {
            Some(text) => decimal_u64(text@) is Some,
            None => true,
        }
    }

    /// The interval in force, in nanoseconds: the seconds given, or one
    /// second where none is given.
    pub open spec fn interval_nanos(self) -> nat {
        match self.interval {
            Some(text) => match decimal_u64(text@) {
                Some(seconds) => (seconds * NANOS_PER_SECOND) as nat,
                None => DEFAULT_INTERVAL as nat,
            },
            None => DEFAULT_INTERVAL as nat,
        }
    }

    /// The watcher that the arguments describe.
    pub open spec fn watcher(self) -> WatcherView {
        WatcherView {
            dirs: strings(self.directories@),
            includes: self.includes(),
            default_includes: default_includes(),
            excludes: self.excludes(),
            gate: GateView { interval: self.interval_nanos(), last: None },
            supervisor: SupervisorView {
                restart: self.restart,
                program: self.command@[0]@,
                args: strings(self.command@).skip(1),
                child: None,
                last_spawn: None,
            },
            phase: Phase::Starting,
        }
    }

    /// What `configure` answers to the arguments. The questions are asked in
    /// this order, and the first that applies decides: help, version, a
    /// missing command, an include expression that does not compile, an
    /// exclude expression that does not compile, an interval that cannot be
    /// read.
    pub open spec fn answered_by(self, r: Result<InvocationView, ConfigError>) -> bool {
        if self.help {
            r == Ok::<InvocationView, ConfigError>(InvocationView::Help)
        } else if self.version {
            r == Ok::<InvocationView, ConfigError>(InvocationView::Version)
        } else if self.command@.len() == 0 {
            r == Err::<InvocationView, ConfigError>(ConfigError::MissingCommand)
        } else if !all_accepted(self.includes()) {
            r matches Err(ConfigError::BadPattern(i)) && first_rejected(self.includes(), i as int)
        } else if !all_accepted(self.excludes()) {
            r matches Err(ConfigError::BadExcludePattern(i)) && first_rejected(
                self.excludes(),
                i as int,
            )
        } else if !self.interval_readable() {
            r == Err::<InvocationView, ConfigError>(ConfigError::BadInterval)
        } else {
            r == Ok::<InvocationView, ConfigError>(InvocationView::Watch(self.watcher()))
        }
    }
}

/// The view of what `configure` returns.
pub open spec fn answer_view(r: Result<Invocation, ConfigError>) -> Result<
    InvocationView,
    ConfigError,
> {
    match r {
        Ok(invocation) => Ok(invocation@),
        Err(e) => Err(e),
    }
}

/// Compiles `globs` in order and adds them to `watcher` as include
/// expressions, or as exclude expressions where `exclude` is set. Stops at
/// the first that does not compile and gives its position.
fn add_patterns(watcher: &mut Fwatcher, globs: &Vec<String>, exclude: bool) -> (r: Result<
    (),
    usize,
>)
    ensures
        match r {
            Ok(()) => {
                &&& all_accepted(strings(globs@))
                &&& final(watcher)@ == if exclude {
                    WatcherView {
                        excludes: old(watcher)@.excludes + strings(globs@),
                        ..old(watcher)@
                    }
                } else {
                    WatcherView {
                        includes: old(watcher)@.includes + strings(globs@),
                        ..old(watcher)@
                    }
                }
            },
            Err(i) => first_rejected(strings(globs@), i as int),
        },
{
    let ghost texts = strings(globs@);
    let mut i: usize = 0;
    while i < globs.len()
        invariant
            i <= globs@.len(),
            texts == strings(globs@),
            forall|j: int| 0 <= j < i ==> glob_accepts(#[trigger] texts[j]),
            watcher@ == if exclude {
                WatcherView {
                    excludes: old(watcher)@.excludes + texts.take(i as int),
                    ..old(watcher)@
                }
            } else {
                WatcherView {
                    includes: old(watcher)@.includes + texts.take(i as int),
                    ..old(watcher)@
                }
            },
        decreases globs@.len() - i,
    {
        match compile(globs[i].as_str()) {
            Ok(pattern) => {
                assert(texts.take(i + 1) =~= texts.take(i as int).push(texts[i as int]));
                if exclude {
                    assert(old(watcher)@.excludes + texts.take(i + 1) =~= (old(watcher)@.excludes
                        + texts.take(i as int)).push(texts[i as int]));
                    watcher.exclude_pattern(pattern);
                } else {
                    assert(old(watcher)@.includes + texts.take(i + 1) =~= (old(watcher)@.includes
                        + texts.take(i as int)).push(texts[i as int]));
                    watcher.pattern(pattern);
                }
            },
            Err(_) => {
                return Err(i);
            },
        }
        i = i + 1;
    }
    assert(texts.take(i as int) =~= texts);
    Ok(())
}

/// Decides what an invocation comes to.
///
/// Help and version come first, in this order. Then a command has to be
/// there. Then the expressions are compiled, the include expressions before
/// the exclude expressions. Then the interval is read, in whole seconds. The
/// watcher that comes out has not started yet; where no include expression
/// is given, it reacts to every path.
pub fn configure(args: Arguments) -> (r: Result<Invocation, ConfigError>)
    ensures
        args.answered_by(answer_view(r)),
{
    if args.help {
        return Ok(Invocation::Help);
    }
    if args.version {
        return Ok(Invocation::Version);
    }
    if args.command.len() == 0 {
        return Err(ConfigError::MissingCommand);
    }
    let Arguments {
        help: _,
        version: _,
        restart,
        directories,
        patterns,
        exclude_patterns,
        interval,
        command,
    } = args;
    let mut watcher = Fwatcher::new(directories, command);
    match add_patterns(&mut watcher, &patterns, false) {
        Ok(()) => {},
        Err(i) => {
            return Err(ConfigError::BadPattern(i));
        },
    }
    assert(watcher@.includes =~= args.includes());
    match add_patterns(&mut watcher, &exclude_patterns, true) {
        Ok(()) => {},
        Err(i) => {
            return Err(ConfigError::BadExcludePattern(i));
        },
    }
    assert(watcher@.excludes =~= args.excludes());
    let nanos: u128 = match &interval {
        Some(text) => match parse_u64(text.as_str()) {
            Some(seconds) => (seconds as u128) * NANOS_PER_SECOND,
            None => {
                return Err(ConfigError::BadInterval);
            },
        },
        None => DEFAULT_INTERVAL,
    };
    watcher.interval(nanos).restart(restart);
    Ok(Invocation::Watch(watcher))
}

} // verus!
