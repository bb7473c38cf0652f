//! The steps that bring a running worker down: a graceful signal, a
//! bounded wait polling for exit, a forced kill when the wait runs out,
//! and always a final reap. The caller performs each action and reports
//! what it saw; this module decides what comes next.
use vstd::prelude::*;

verus! {

/// How long the worker may take to exit after the graceful signal.
pub const GRACE_MS: u64 = 800;

/// Pause between two exit checks.
pub const POLL_MS: u64 = 50;

/// Exit checks made at most before the kill, whatever the clock says.
pub const MAX_POLLS: u64 = 16;

/// Where a termination stands.
#[derive(Clone, Copy, PartialEq, Eq, Structural, Debug)]
pub enum TermPhase {
    /// Nothing done yet.
    Fresh,
    /// The graceful signal went out, or a pause ended: the clock is read next.
    Waiting,
    /// An exit check was asked for.
    Checking,
    /// The forced kill was asked for.
    Killed,
    /// The reap was asked for.
    Reaped,
    /// Finished.
    Done,
}

/// What the caller is to do next.
#[derive(Clone, Copy, PartialEq, Eq, Structural, Debug)]
pub enum TermAction {
    /// Send the graceful termination signal (a no-op where signals are not supported).
    SendGraceful,
    /// Check, without blocking, whether the process has exited.
    CheckExit,
    /// Sleep for the given number of milliseconds.
    Sleep { ms: u64 },
    /// Kill the process.
    ForceKill,
    /// Block until the process has exited and collect its status.
    Reap,
    /// Nothing left to do.
    Finished,
}

/// What the caller saw after performing the last action.
#[derive(Clone, Copy, PartialEq, Eq, Structural, Debug)]
pub struct Observation {
    /// Milliseconds since the graceful signal was sent.
    pub elapsed_ms: u64,
    /// Whether the last exit check found the process gone.
    pub exited: bool,
}

/// A termination in progress.
#[derive(Clone, Copy, PartialEq, Eq, Structural, Debug)]
pub struct Termination {
    pub phase: TermPhase,
    /// Exit checks made so far.
    pub polls: u64,
}

/// The phase and poll count that follow `t` on `o`.
pub open spec fn next_state(t: Termination, o: Observation) -> Termination {
    match t.phase {
        TermPhase::Fresh => Termination { phase: TermPhase::Waiting, polls: 0 },
        TermPhase::Waiting => if o.elapsed_ms < GRACE_MS && t.polls < MAX_POLLS {
            Termination { phase: TermPhase::Checking, polls: t.polls }
        } else {
            Termination { phase: TermPhase::Killed, polls: t.polls }
        },
        TermPhase::Checking => if o.exited {
            Termination { phase: TermPhase::Reaped, polls: t.polls }
        } else {
            Termination { phase: TermPhase::Waiting, polls: (t.polls + 1) as u64 }
        },
        TermPhase::Killed => Termination { phase: TermPhase::Reaped, polls: t.polls },
        TermPhase::Reaped => Termination { phase: TermPhase::Done, polls: t.polls },
        TermPhase::Done => t,
    }
}

/// The action that `t` asks for on `o`.
pub open spec fn next_action(t: Termination, o: Observation) -> TermAction {
    match t.phase {
        TermPhase::Fresh => TermAction::SendGraceful,
        TermPhase::Waiting => if o.elapsed_ms < GRACE_MS && t.polls < MAX_POLLS {
            TermAction::CheckExit
        } else {
            TermAction::ForceKill
        },
        TermPhase::Checking => if o.exited {
            TermAction::Reap
        } else {
            TermAction::Sleep { ms: POLL_MS }
        },
        TermPhase::Killed => TermAction::Reap,
        TermPhase::Reaped => TermAction::Finished,
        TermPhase::Done => TermAction::Finished,
    }
}

impl Termination {
    /// The poll count stays within its bound, and below it while a check
    /// is pending.
    pub open spec fn wf(&self) -> bool {
        &&& self.polls <= MAX_POLLS
        &&& self.phase == TermPhase::Checking ==> self.polls < MAX_POLLS
    }

    /// A termination that has done nothing yet.
    pub fn new() -> (r: Termination)
        ensures
            r.wf(),
            r.phase == TermPhase::Fresh,
            r.polls == 0,
    {
        Termination { phase: TermPhase::Fresh, polls: 0 }
    }

    /// Moves on by one step: returns what the caller is to do next, given
    /// what it saw after the previous action.
    pub fn step(&mut self, o: Observation) -> (r: TermAction)
        requires
            old(self).wf(),
        ensures
            final(self).wf(),
            *final(self) == next_state(*old(self), o),
            r == next_action(*old(self), o),
    {
        match self.phase {
            TermPhase::Fresh => {
                self.phase = TermPhase::Waiting;
                self.polls = 0;
                TermAction::SendGraceful
            },
            TermPhase::Waiting => {
                if o.elapsed_ms < GRACE_MS && self.polls < MAX_POLLS {
                    self.phase = TermPhase::Checking;
                    TermAction::CheckExit
                } else {
                    self.phase = TermPhase::Killed;
                    TermAction::ForceKill
                }
            },
            TermPhase::Checking => {
                if o.exited {
                    self.phase = TermPhase::Reaped;
                    TermAction::Reap
                } else {
                    self.phase = TermPhase::Waiting;
                    self.polls = self.polls + 1;
                    TermAction::Sleep { ms: POLL_MS }
                }
            },
            TermPhase::Killed => {
                self.phase = TermPhase::Reaped;
                TermAction::Reap
            },
            TermPhase::Reaped => {
                self.phase = TermPhase::Done;
                TermAction::Finished
            },
            TermPhase::Done => TermAction::Finished,
        }
    }
}

/// The state after running `t` on every observation of `obs` in turn.
pub open spec fn run_state(t: Termination, obs: Seq<Observation>) -> Termination
    decreases obs.len(),
{
    if obs.len() == 0 {
        t
    } else {
        run_state(next_state(t, obs[0]), obs.drop_first())
    }
}

/// The actions asked for while running `t` on `obs`.
pub open spec fn run_actions(t: Termination, obs: Seq<Observation>) -> Seq<TermAction>
    decreases obs.len(),
{
    if obs.len() == 0 {
        Seq::empty()
    } else {
        seq![next_action(t, obs[0])] + run_actions(next_state(t, obs[0]), obs.drop_first())
    }
}

/// How many of `acts` equal `a`.
pub open spec fn count_of(acts: Seq<TermAction>, a: TermAction) -> nat
    decreases acts.len(),
{
    if acts.len() == 0 {
        0
    } else {
        (if acts[0] == a {
            1nat
        } else {
            0nat
        }) + count_of(acts.drop_first(), a)
    }
}

/// Whether the reap is still to be asked for.
pub open spec fn reap_pending(t: Termination) -> bool {
    t.phase != TermPhase::Reaped && t.phase != TermPhase::Done
}

/// Whether a kill may still be asked for.
pub open spec fn kill_pending(t: Termination) -> bool {
    t.phase == TermPhase::Fresh || t.phase == TermPhase::Waiting || t.phase == TermPhase::Checking
}

/// Steps left, at most, before `t` is done.
pub open spec fn steps_left(t: Termination) -> nat {
    match t.phase {
        TermPhase::Fresh => (2 * MAX_POLLS + 4) as nat,
        TermPhase::Waiting => (2 * (MAX_POLLS - t.polls) + 3) as nat,
        TermPhase::Checking => (2 * (MAX_POLLS - t.polls) + 2) as nat,
        TermPhase::Killed => 2,
        TermPhase::Reaped => 1,
        TermPhase::Done => 0,
    }
}

/// Whatever the clock and the exit checks report, a termination is done
/// within `steps_left` steps, and has asked for the reap exactly once.
pub proof fn lemma_always_reaped_once(t: Termination, obs: Seq<Observation>)
    requires
        t.wf(),
        obs.len() >= steps_left(t),
    ensures
        run_state(t, obs).phase == TermPhase::Done,
        count_of(run_actions(t, obs), TermAction::Reap) == if reap_pending(t) {
            1nat
        } else {
            0nat
        },
    decreases obs.len(),
{
    if obs.len() > 0 {
        let t1 = next_state(t, obs[0]);
        let rest = obs.drop_first();
        if t.phase == TermPhase::Done {
            assert(t1 == t);
        }
        lemma_always_reaped_once(t1, rest);
        let acts = run_actions(t, obs);
        assert(acts.drop_first() =~= run_actions(t1, rest));
    }
}

/// Where no exit check ever finds the process gone, a termination that has
/// not yet killed it asks for the kill exactly once, before it is done.
pub proof fn lemma_unresponsive_is_killed(t: Termination, obs: Seq<Observation>)
    requires
        t.wf(),
        obs.len() >= steps_left(t),
        forall|i: int| 0 <= i < obs.len() ==> !(#[trigger] obs[i]).exited,
    ensures
        run_state(t, obs).phase == TermPhase::Done,
        count_of(run_actions(t, obs), TermAction::ForceKill) == if kill_pending(t) {
            1nat
        } else {
            0nat
        },
    decreases obs.len(),
{
    if obs.len() > 0 {
        let t1 = next_state(t, obs[0]);
        let rest = obs.drop_first();
        if t.phase == TermPhase::Done {
            assert(t1 == t);
        }
        assert forall|i: int| 0 <= i < rest.len() implies !(#[trigger] rest[i]).exited by {
            assert(rest[i] == obs[i + 1]);
        }
        lemma_unresponsive_is_killed(t1, rest);
        let acts = run_actions(t, obs);
        assert(acts.drop_first() =~= run_actions(t1, rest));
    }
}

/// Once the grace period has run out, a termination waiting on the clock
/// kills the process, then reaps it, then is done.
pub proof fn lemma_grace_then_force(t: Termination, a: Observation, b: Observation, c: Observation)
    requires
        t.wf(),
        t.phase == TermPhase::Waiting,
        a.elapsed_ms >= GRACE_MS,
    ensures
        run_actions(t, seq![a, b, c]) == seq![TermAction::ForceKill, TermAction::Reap, TermAction::Finished],
        run_state(t, seq![a, b, c]).phase == TermPhase::Done,
{
    let s = seq![a, b, c];
    let t1 = next_state(t, a);
    let t2 = next_state(t1, b);
    let t3 = next_state(t2, c);
    assert(s.drop_first() =~= seq![b, c]);
    assert(seq![b, c].drop_first() =~= seq![c]);
    assert(seq![c].drop_first() =~= Seq::<Observation>::empty());
    assert(run_actions(t3, Seq::<Observation>::empty()) =~= Seq::<TermAction>::empty());
    assert(run_actions(t2, seq![c]) =~= seq![TermAction::Finished]);
    assert(run_actions(t1, seq![b, c]) =~= seq![TermAction::Reap, TermAction::Finished]);
    assert(run_actions(t, s) =~= seq![TermAction::ForceKill, TermAction::Reap, TermAction::Finished]);
    assert(run_state(t3, Seq::<Observation>::empty()) == t3);
    assert(run_state(t2, seq![c]) == t3);
    assert(run_state(t1, seq![b, c]) == t3);
}

} // verus!
