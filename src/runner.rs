use vstd::prelude::*;

verus! {

/// What the caller observed while carrying out the runner's last action.
pub enum RunnerInput {
    /// A settled trigger asks for the command to run.
    Trigger,
    /// The held child was asked to stop; whether it has exited.
    Terminated(bool),
    /// The command was spawned, giving the child's process id, or could not
    /// be spawned.
    Spawned(Option<u32>),
}

/// What the caller has to do next.
#[derive(Clone, Copy, Debug, PartialEq, Eq, Structural)]
pub enum RunnerAction {
    /// Ask the held child to terminate and wait until it has exited.
    Terminate { pid: u32 },
    /// Clear the terminal if `clear` is set, then spawn the command.
    Spawn { clear: bool },
    /// Nothing: go back to watching.
    Idle,
}

/// One transition of the runner: the child it tracks afterwards and the
/// action to carry out.
///
/// With restart on, a trigger while a child is held first terminates that
/// child; a failed termination skips the spawn and keeps tracking the child
/// so the next trigger tries again. A successful spawn is held only with
/// restart on. A failed spawn leaves nothing held and the runner ready for
/// the next trigger.
pub open spec fn runner_next(restart: bool, clear: bool, child_pid: Option<u32>, input: RunnerInput) -> (
    Option<u32>,
    RunnerAction,
) {
    match input {
        RunnerInput::Trigger => match child_pid {
            Some(pid) => if restart {
                (child_pid, RunnerAction::Terminate { pid })
            } else {
                (child_pid, RunnerAction::Spawn { clear })
            },
            None => (child_pid, RunnerAction::Spawn { clear }),
        },
        RunnerInput::Terminated(exited) => if child_pid is None {
            (child_pid, RunnerAction::Idle)
        } else if exited {
            (None, RunnerAction::Spawn { clear })
        } else {
            (child_pid, RunnerAction::Idle)
        },
        RunnerInput::Spawned(child) => match child {
            Some(pid) => if restart {
                (Some(pid), RunnerAction::Idle)
            } else {
                (None, RunnerAction::Idle)
            },
            None => (None, RunnerAction::Idle),
        },
    }
}

/// Owns the lifecycle of the spawned command: with restart on, at most one
/// child is held and it is terminated before the next one is spawned.
pub struct CommandRunner {
    restart: bool,
    clear: bool,
    verbose: bool,
    running: Option<u32>,
}

impl CommandRunner {
    pub closed spec fn restart_mode(&self) -> bool {
        self.restart
    }

    pub closed spec fn clear_mode(&self) -> bool {
        self.clear
    }

    pub closed spec fn verbose_mode(&self) -> bool {
        self.verbose
    }

    /// The process id of the child being held, if any.
    pub closed spec fn child_pid(&self) -> Option<u32> {
        self.running
    }

    /// A runner tracking no child.
    pub fn new(restart: bool, clear: bool, verbose: bool) -> (r: Self)
        ensures
            r.restart_mode() == restart,
            r.clear_mode() == clear,
            r.verbose_mode() == verbose,
            r.child_pid() is None,
    {
        CommandRunner { restart, clear, verbose, running: None }
    }

    pub fn restart(&self) -> (r: bool)
        ensures
            r == self.restart_mode(),
    {
        self.restart
    }

    pub fn clear(&self) -> (r: bool)
        ensures
            r == self.clear_mode(),
    {
        self.clear
    }

    pub fn verbose(&self) -> (r: bool)
        ensures
            r == self.verbose_mode(),
    {
        self.verbose
    }

    /// The process id of the child being held, if any.
    pub fn running_child(&self) -> (r: Option<u32>)
        ensures
            r == self.child_pid(),
    {
        self.running
    }

    /// Takes what the caller observed and says what to do next.
    pub fn step(&mut self, input: RunnerInput) -> (r: RunnerAction)
        ensures
            (final(self).child_pid(), r) == runner_next(
                old(self).restart_mode(),
                old(self).clear_mode(),
                old(self).child_pid(),
                input,
            ),
            final(self).restart_mode() == old(self).restart_mode(),
            final(self).clear_mode() == old(self).clear_mode(),
            final(self).verbose_mode() == old(self).verbose_mode(),
    {
        match input {
            RunnerInput::Trigger => match self.running {
                Some(pid) => {
                    if self.restart {
                        RunnerAction::Terminate { pid }
                    } else {
                        RunnerAction::Spawn { clear: self.clear }
                    }
                },
                None => RunnerAction::Spawn { clear: self.clear },
            },
            RunnerInput::Terminated(exited) => {
                if self.running.is_none() {
                    RunnerAction::Idle
                } else if exited {
                    self.running = None;
                    RunnerAction::Spawn { clear: self.clear }
                } else {
                    RunnerAction::Idle
                }
            },
            RunnerInput::Spawned(child) => {
                match child {
                    Some(pid) => {
                        if self.restart {
                            self.running = Some(pid);
                        } else {
                            self.running = None;
                        }
                    },
                    None => {
                        self.running = None;
                    },
                }
                RunnerAction::Idle
            },
        }
    }
}

/// With restart on, a spawn is only ever asked for when no child is held
/// any more, and while a child is held only a confirmed exit of it leads
/// to a spawn: a trigger asks to terminate that very child, and a failed
/// termination spawns nothing and keeps the child held. A spawned child is
/// held.
pub proof fn lemma_restart_never_overlaps(
    clear: bool,
    child_pid: Option<u32>,
    input: RunnerInput,
)
    ensures
        runner_next(true, clear, child_pid, input).1 is Spawn ==> {
            &&& runner_next(true, clear, child_pid, input).0 is None
            &&& child_pid is Some ==> input == RunnerInput::Terminated(true)
        },
        child_pid matches Some(pid) ==> runner_next(true, clear, child_pid, RunnerInput::Trigger) == (
        child_pid,
        RunnerAction::Terminate { pid },
        ),
        child_pid is Some ==> runner_next(true, clear, child_pid, RunnerInput::Terminated(false)) == (
        child_pid,
        RunnerAction::Idle,
        ),
        input matches RunnerInput::Spawned(Some(pid)) ==> runner_next(true, clear, child_pid, input).0
            == Some(pid),
{
}

/// With restart off, every trigger spawns at once, whatever was spawned
/// before, no child is ever held and none is ever terminated.
pub proof fn lemma_no_restart_overlaps_allowed(
    clear: bool,
    child_pid: Option<u32>,
    input: RunnerInput,
)
    requires
        child_pid is None,
    ensures
        runner_next(false, clear, child_pid, RunnerInput::Trigger) == (
        child_pid,
        RunnerAction::Spawn { clear },
        ),
        runner_next(false, clear, child_pid, input).0 is None,
        !(runner_next(false, clear, child_pid, input).1 is Terminate),
{
}

/// A failed spawn leaves the runner tracking nothing, and the next trigger
/// spawns again.
pub proof fn lemma_spawn_failure_keeps_running(restart: bool, clear: bool, child_pid: Option<u32>)
    ensures
        runner_next(restart, clear, child_pid, RunnerInput::Spawned(None)) == (
        None::<u32>,
        RunnerAction::Idle,
        ),
        runner_next(restart, clear, None, RunnerInput::Trigger) == (
        None::<u32>,
        RunnerAction::Spawn { clear },
        ),
{
}

/// One trigger leads to exactly one spawn: at once when no child has to be
/// terminated first, otherwise once the held child has exited.
pub proof fn lemma_trigger_spawns_once(restart: bool, clear: bool, child_pid: Option<u32>)
    ensures
        !(restart && child_pid is Some) ==> (runner_next(
            restart,
            clear,
            child_pid,
            RunnerInput::Trigger,
        ).1 == (RunnerAction::Spawn { clear })),
        restart && child_pid is Some ==> (runner_next(restart, clear, child_pid, RunnerInput::Trigger).1 is Terminate),
        restart && child_pid is Some ==> (runner_next(
            restart,
            clear,
            runner_next(restart, clear, child_pid, RunnerInput::Trigger).0,
            RunnerInput::Terminated(true),
        ) == (None::<u32>, (RunnerAction::Spawn { clear }))),
{
}

} // verus!
