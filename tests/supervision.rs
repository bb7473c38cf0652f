use python_supervisor::slot::Slot;
use python_supervisor::termination::{
    Observation, TermAction, TermPhase, Termination, GRACE_MS, MAX_POLLS, POLL_MS,
};

fn obs(elapsed_ms: u64, exited: bool) -> Observation {
    Observation { elapsed_ms, exited }
}

/// Drives a termination against a simulated child that exits on the
/// `exits_on_check`-th exit check (never, if `None`), with the clock
/// advancing by `tick` on every sleep. Returns the actions asked for.
fn simulate(exits_on_check: Option<u64>, tick: u64) -> Vec<TermAction> {
    let mut t = Termination::new();
    let mut acts = Vec::new();
    let mut clock: u64 = 0;
    let mut checks: u64 = 0;
    let mut o = obs(0, false);
    for _ in 0..200 {
        let a = t.step(o);
        acts.push(a);
        o = match a {
            TermAction::CheckExit => {
                checks += 1;
                obs(clock, exits_on_check == Some(checks))
            }
            TermAction::Sleep { ms } => {
                clock += if tick == 0 { 0 } else { ms.min(tick) };
                obs(clock, false)
            }
            TermAction::Finished => break,
            _ => obs(clock, false),
        };
    }
    acts
}

#[test]
fn responsive_child_is_reaped_without_kill() {
    let acts = simulate(Some(2), POLL_MS);
    assert_eq!(
        acts,
        vec![
            TermAction::SendGraceful,
            TermAction::CheckExit,
            TermAction::Sleep { ms: 50 },
            TermAction::CheckExit,
            TermAction::Reap,
            TermAction::Finished,
        ]
    );
}

#[test]
fn unresponsive_child_is_killed_after_grace() {
    let acts = simulate(None, POLL_MS);
    let checks = acts.iter().filter(|a| **a == TermAction::CheckExit).count();
    assert_eq!(checks as u64, GRACE_MS / POLL_MS);
    let n = acts.len();
    assert_eq!(&acts[n - 3..], &[TermAction::ForceKill, TermAction::Reap, TermAction::Finished]);
    assert_eq!(acts.iter().filter(|a| **a == TermAction::Reap).count(), 1);
    assert_eq!(acts.iter().filter(|a| **a == TermAction::ForceKill).count(), 1);
}

#[test]
fn stuck_clock_still_ends_in_kill() {
    let acts = simulate(None, 0);
    let checks = acts.iter().filter(|a| **a == TermAction::CheckExit).count();
    assert_eq!(checks as u64, MAX_POLLS);
    assert_eq!(acts.last(), Some(&TermAction::Finished));
    assert_eq!(acts.iter().filter(|a| **a == TermAction::ForceKill).count(), 1);
}

#[test]
fn expired_grace_goes_straight_to_kill() {
    let mut t = Termination::new();
    assert_eq!(t.step(obs(0, false)), TermAction::SendGraceful);
    assert_eq!(t.step(obs(GRACE_MS, false)), TermAction::ForceKill);
    assert_eq!(t.step(obs(GRACE_MS, false)), TermAction::Reap);
    assert_eq!(t.step(obs(GRACE_MS, false)), TermAction::Finished);
    assert_eq!(t.phase, TermPhase::Done);
    assert_eq!(t.step(obs(GRACE_MS, false)), TermAction::Finished);
}

#[test]
fn stop_on_empty_slot_hands_nothing_out() {
    let mut s: Slot<u32> = Slot::new();
    assert!(!s.is_running());
    assert_eq!(s.stop(), None);
    assert!(!s.is_running());
}

#[test]
fn restart_hands_out_previous_worker() {
    let mut s: Slot<u32> = Slot::new();
    assert_eq!(s.begin_start(), None);
    assert_eq!(s.finish_start(1), None);
    assert!(s.is_running());
    assert_eq!(s.begin_start(), Some(1));
    assert!(!s.is_running());
    assert_eq!(s.finish_start(2), None);
    assert_eq!(s.stop(), Some(2));
    assert!(!s.is_running());
}

#[test]
fn racing_start_hands_back_the_displaced_worker() {
    let mut s: Slot<u32> = Slot::new();
    assert_eq!(s.begin_start(), None);
    assert_eq!(s.begin_start(), None);
    assert_eq!(s.finish_start(7), None);
    assert_eq!(s.finish_start(8), Some(7));
    assert_eq!(s.take(), Some(8));
}

#[test]
fn shutdown_matches_stop() {
    let mut a: Slot<u32> = Slot::new();
    let mut b: Slot<u32> = Slot::new();
    assert_eq!(a.install(3), None);
    assert_eq!(b.install(3), None);
    assert_eq!(a.stop(), b.on_shutdown());
    assert_eq!(a.is_running(), b.is_running());
    assert_eq!(a.stop(), b.on_shutdown());
    assert_eq!(a.is_running(), b.is_running());
}
