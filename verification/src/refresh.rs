//! The periodic refresh loop as a state machine: the caller owns the thread,
//! the lock and the sleep, and asks here what to do next.

use vstd::prelude::*;

verus! {

/// Where the refresh loop stands.
#[derive(Clone, Copy, Debug, PartialEq, Eq, Structural)]
pub enum LoopState {
    /// The loop refreshes the clock once per interval.
    Running,
    /// The loop has seen the shutdown request. It never leaves this state.
    ShuttingDown,
}

/// What the caller does after a step of the loop.
#[derive(Clone, Copy, Debug, PartialEq, Eq, Structural)]
pub enum LoopAction {
    /// Refresh the clock under its lock, release the lock, sleep for this many
    /// seconds, then step again.
    Tick { sleep_secs: u64 },
    /// Leave the loop without touching the clock again.
    Exit,
}

/// The refresh loop: its fixed interval and its state.
#[derive(Clone, Copy, Debug, PartialEq, Eq, Structural)]
pub struct RefreshLoop {
    pub interval_secs: u64,
    pub state: LoopState,
}

impl RefreshLoop {
    /// The loop after a step that read the shutdown flag as `shutdown`.
    pub open spec fn spec_next(self, shutdown: bool) -> RefreshLoop {
        RefreshLoop {
            interval_secs: self.interval_secs,
            state: if shutdown {
                LoopState::ShuttingDown
            } else {
                self.state
            },
        }
    }

    /// What the caller does after a step that read the shutdown flag as `shutdown`.
    pub open spec fn spec_action(self, shutdown: bool) -> LoopAction {
        if self.spec_next(shutdown).state == LoopState::Running {
            LoopAction::Tick { sleep_secs: self.interval_secs }
        } else {
            LoopAction::Exit
        }
    }

    /// The loop after reading the shutdown flag as each element of `flags` in turn.
    pub open spec fn spec_run(self, flags: Seq<bool>) -> RefreshLoop
        decreases flags.len(),
    {
        if flags.len() == 0 {
            self
        } else {
            self.spec_next(flags[0]).spec_run(flags.drop_first())
        }
    }

    /// A running loop that refreshes every `interval_secs` seconds.
    pub fn new(interval_secs: u64) -> (r: RefreshLoop)
        ensures
            r == (RefreshLoop { interval_secs, state: LoopState::Running }),
    {
        RefreshLoop { interval_secs, state: LoopState::Running }
    }

    /// One step of the loop. `shutdown` is the shutdown flag as read now. While
    /// the loop runs and the flag is clear, the caller refreshes and sleeps;
    /// once the flag was seen set, now or before, the caller leaves.
    pub fn step(&mut self, shutdown: bool) -> (action: LoopAction)
        ensures
            *final(self) == old(self).spec_next(shutdown),
            action == old(self).spec_action(shutdown),
            shutdown ==> action == LoopAction::Exit,
            old(self).state == LoopState::ShuttingDown ==> action == LoopAction::Exit,
    {
        if shutdown {
            self.state = LoopState::ShuttingDown;
        }
        match self.state {
            LoopState::Running => LoopAction::Tick { sleep_secs: self.interval_secs },
            LoopState::ShuttingDown => LoopAction::Exit,
        }
    }
}

/// Once a step has read the shutdown flag as set, that step and every later
/// one, whatever the flag reads then, tell the caller to leave: no refresh
/// follows a shutdown request that the loop has seen.
pub proof fn lemma_shutdown_is_final(start: RefreshLoop, later: Seq<bool>, again: bool)
    ensures
        start.spec_action(true) == LoopAction::Exit,
        start.spec_next(true).spec_run(later).state == LoopState::ShuttingDown,
        start.spec_next(true).spec_run(later).spec_action(again) == LoopAction::Exit,
        start.spec_next(true).spec_run(later).interval_secs == start.interval_secs,
{
    lemma_stays_down(start.spec_next(true), later);
}

/// A loop that is shutting down stays so through any further steps, and its
/// interval never changes.
pub proof fn lemma_stays_down(down: RefreshLoop, flags: Seq<bool>)
    requires
        down.state == LoopState::ShuttingDown,
    ensures
        down.spec_run(flags) == down,
    decreases flags.len(),
{
    if flags.len() > 0 {
        lemma_stays_down(down.spec_next(flags[0]), flags.drop_first());
    }
}

/// While the shutdown flag reads clear, a running loop keeps running and asks
/// for a refresh followed by a sleep of exactly its interval.
pub proof fn lemma_runs_until_shutdown(start: RefreshLoop)
    requires
        start.state == LoopState::Running,
    ensures
        start.spec_next(false) == start,
        start.spec_action(false) == (LoopAction::Tick { sleep_secs: start.interval_secs }),
{
}

} // verus!
