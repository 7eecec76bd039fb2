//! The process supervisor: spawn, restart-on-exit, shutdown suppression.
//!
//! The supervisor owns the lifecycle of exactly one backend child process.
//! It moves through the states `Idle -> Launching -> Running`, and on each
//! child exit either relaunches (shutdown not requested) or stops for good
//! (shutdown requested). The outside work — actually spawning the child and
//! waiting on its output stream — is performed by the caller, which drives
//! this state machine with the outcomes: `confirm_spawn` with the spawn
//! result, `handle_exit` with the shutdown flag read at the instant the
//! child's stream closed.
//!
//! The restart policy is deliberately unconditional and immediate: no
//! backoff and no restart-count limit, favouring availability of the
//! backend over protection against restart storms.

use vstd::prelude::*;
use crate::StartupError;

verus! {

/// Observable states of the supervisor between calls.
#[derive(Clone, Copy, Debug, PartialEq, Eq, Structural)]
pub enum SupervisorState {
    /// No launch attempted yet.
    Idle,
    /// A spawn has been requested from the caller and not yet confirmed.
    Launching,
    /// A child is running; the supervisor passively awaits its exit.
    Running,
    /// Shutdown was requested; no further child will be launched.
    Terminal,
    /// A spawn failed; this is fatal and no retry is made.
    Failed,
}

/// What the supervisor decides when a child exits.
#[derive(Clone, Copy, Debug, PartialEq, Eq, Structural)]
pub enum ExitDecision {
    /// Shutdown was not requested: launch a fresh child with the same port.
    Relaunch,
    /// Shutdown was requested: stop, with no error.
    Stop,
}

/// Everything the caller needs to spawn one child: the executable, its
/// entry-point argument, and the port that must be placed in the child's
/// environment under the variable named by `port_env_var`.
pub struct LaunchPlan {
    pub program: String,
    pub entry: String,
    pub port: u16,
}

/// The environment variable under which the allocated port is handed to the
/// child. This name is a fixed contract string between shell and backend.
pub fn port_env_var() -> (name: &'static str)
    ensures
        name@ == "PORT"@,
{
    "PORT"
}

/// The supervisor of the single backend child process.
pub struct Supervisor {
    /// Path of the child executable (the runtime interpreter).
    pub program: String,
    /// Entry-point argument handed to the executable.
    pub entry: String,
    /// The port allocated once per run; identical for every launch.
    pub port: u16,
    /// Current state of the lifecycle state machine.
    pub state: SupervisorState,
    /// How many children have been spawned successfully so far.
    pub launches: u64,
}

/// State after `begin_launch`.
pub open spec fn spec_begin_launch(s: Supervisor) -> Supervisor {
    Supervisor { state: SupervisorState::Launching, ..s }
}

/// State after `confirm_spawn` reported `ok`.
pub open spec fn spec_confirm_spawn(s: Supervisor, ok: bool) -> Supervisor {
    if ok {
        Supervisor {
            state: SupervisorState::Running,
            launches: (s.launches + 1) as u64,
            ..s
        }
    } else {
        Supervisor { state: SupervisorState::Failed, ..s }
    }
}

/// State after `handle_exit` observed the shutdown flag value `shutdown`.
pub open spec fn spec_handle_exit(s: Supervisor, shutdown: bool) -> Supervisor {
    if shutdown {
        Supervisor { state: SupervisorState::Terminal, ..s }
    } else {
        Supervisor { state: SupervisorState::Launching, ..s }
    }
}

/// One full crash-restart cycle: the child exits while shutdown is not
/// requested, and the replacement child spawns successfully.
pub open spec fn crash_restart(s: Supervisor) -> Supervisor {
    spec_confirm_spawn(spec_handle_exit(s, false), true)
}

/// The supervisor after a sequence of child exits, each `flags[i]` being the
/// shutdown flag value observed at the i-th exit. An exit while the flag is
/// false is a full crash-restart cycle; an exit while it is true ends the
/// run. Once no child is running, no further exit can be observed.
pub open spec fn run_exits(s: Supervisor, flags: Seq<bool>) -> Supervisor
    decreases flags.len(),
{
    if flags.len() == 0 {
        s
    } else if !(s.state is Running) {
        s
    } else if flags[0] {
        run_exits(spec_handle_exit(s, true), flags.drop_first())
    } else {
        run_exits(crash_restart(s), flags.drop_first())
    }
}

impl Supervisor {
    /// A fresh supervisor for a backend reachable at `port`: nothing
    /// launched yet.
    pub fn new(program: String, entry: String, port: u16) -> (s: Supervisor)
        ensures
            s.program@ == program@,
            s.entry@ == entry@,
            s.port == port,
            s.state is Idle,
            s.launches == 0,
    {
        Supervisor { program, entry, port, state: SupervisorState::Idle, launches: 0 }
    }

    /// The data the caller needs to spawn the next child. The plan always
    /// carries the supervisor's one allocated port.
    pub fn launch_plan(&self) -> (plan: LaunchPlan)
        ensures
            plan.program@ == self.program@,
            plan.entry@ == self.entry@,
            plan.port == self.port,
    {
        LaunchPlan {
            program: self.program.clone(),
            entry: self.entry.clone(),
            port: self.port,
        }
    }

    /// Starts the first launch attempt of the run.
    pub fn begin_launch(&mut self)
        requires
            old(self).state is Idle,
        ensures
            *final(self) == spec_begin_launch(*old(self)),
            final(self).state is Launching,
    {
        self.state = SupervisorState::Launching;
    }

    /// Records the outcome of a spawn the caller attempted. A successful
    /// spawn moves to `Running` and counts one launch; a failed spawn is
    /// fatal (`SpawnFailure`, no retry) and moves to `Failed`.
    pub fn confirm_spawn(&mut self, ok: bool) -> (r: Result<(), StartupError>)
        requires
            old(self).state is Launching,
            old(self).launches < u64::MAX,
        ensures
            *final(self) == spec_confirm_spawn(*old(self), ok),
            ok ==> (r matches Ok(()) && final(self).state is Running && final(self).launches
                == old(self).launches + 1),
            !ok ==> (r matches Err(e) && e == StartupError::SpawnFailure && final(self).state
                is Failed && final(self).launches == old(self).launches),
    {
        if ok {
            self.state = SupervisorState::Running;
            self.launches = self.launches + 1;
            Ok(())
        } else {
            self.state = SupervisorState::Failed;
            Err(StartupError::SpawnFailure)
        }
    }

    /// Decides what to do after the running child's output stream closed,
    /// given the shutdown flag value read at that instant: relaunch with the
    /// identical port if shutdown was not requested, otherwise stop with no
    /// further launch and no error.
    pub fn handle_exit(&mut self, shutdown_requested: bool) -> (d: ExitDecision)
        requires
            old(self).state is Running,
        ensures
            *final(self) == spec_handle_exit(*old(self), shutdown_requested),
            final(self).launches == old(self).launches,
            final(self).port == old(self).port,
            !shutdown_requested ==> d is Relaunch && final(self).state is Launching,
            shutdown_requested ==> d is Stop && final(self).state is Terminal,
    {
        if shutdown_requested {
            self.state = SupervisorState::Terminal;
            ExitDecision::Stop
        } else {
            self.state = SupervisorState::Launching;
            ExitDecision::Relaunch
        }
    }
}

/// A child that exits n times in succession while the shutdown flag is
/// false leaves the supervisor running with exactly n more successful
/// launches, every one of them using the identical allocated port (and the
/// identical executable and entry point). Counting the initial launch, a
/// child that crashes n times is launched n + 1 times in total.
pub proof fn lemma_restarts_while_active(s: Supervisor, flags: Seq<bool>)
    requires
        s.state is Running,
        forall|i: int| 0 <= i < flags.len() ==> !flags[i],
        s.launches + flags.len() <= u64::MAX,
    ensures
        run_exits(s, flags).state is Running,
        run_exits(s, flags).launches == s.launches + flags.len(),
        run_exits(s, flags).port == s.port,
        run_exits(s, flags).program == s.program,
        run_exits(s, flags).entry == s.entry,
    decreases flags.len(),
{
    if flags.len() > 0 {
        assert(!flags[0]);
        lemma_restarts_while_active(crash_restart(s), flags.drop_first());
    }
}

/// Once shutdown has been requested, the flag stays true (it is never
/// reset), so every subsequent child exit observes true: the first such
/// exit moves the supervisor to `Terminal` and no exit produces any further
/// launch.
pub proof fn lemma_no_launch_after_shutdown(s: Supervisor, flags: Seq<bool>)
    requires
        s.state is Running,
        flags.len() > 0,
        forall|i: int| 0 <= i < flags.len() ==> flags[i],
    ensures
        run_exits(s, flags).state is Terminal,
        run_exits(s, flags).launches == s.launches,
        run_exits(s, flags).port == s.port,
    decreases flags.len(),
{
    assert(flags[0]);
    let t = spec_handle_exit(s, true);
    assert(run_exits(t, flags.drop_first()) == t);
}

} // verus!
