//! Which system events wake the main loop, and what a wakeup does.
use vstd::prelude::*;

verus! {

/// Events that can interrupt the main sleep loop early.
#[derive(Clone, Copy, PartialEq, Eq, Structural, Debug)]
pub enum WakeEvent {
    SystemResume,
    NetworkConnect,
}

/// `NM_STATE_CONNECTED_GLOBAL`: NetworkManager has full connectivity.
pub const NM_STATE_CONNECTED_GLOBAL: u32 = 70;

/// What a `PrepareForSleep` signal means. Its body is a bool (`true` =
/// entering sleep, `false` = resuming); a body that cannot be read counts as
/// entering sleep. Only resuming wakes the loop.
pub fn sleep_signal_event(body: Option<bool>) -> (r: Option<WakeEvent>)
    ensures
        r == (if body == Some(false) { Some(WakeEvent::SystemResume) } else { None::<WakeEvent> }),
{
    let entering_sleep = match body {
        Some(b) => b,
        None => true,
    };
    if entering_sleep {
        None
    } else {
        Some(WakeEvent::SystemResume)
    }
}

/// What a NetworkManager `StateChanged` signal means. Its body is the new
/// state; a body that cannot be read counts as 0. Reaching global
/// connectivity (state 70) wakes the loop.
pub fn network_signal_event(body: Option<u32>) -> (r: Option<WakeEvent>)
    ensures
        r == (if body == Some(NM_STATE_CONNECTED_GLOBAL) { Some(WakeEvent::NetworkConnect) } else { None::<WakeEvent> }),
{
    let state = match body {
        Some(s) => s,
        None => 0,
    };
    if state != NM_STATE_CONNECTED_GLOBAL {
        None
    } else {
        Some(WakeEvent::NetworkConnect)
    }
}

/// How the main loop's wait ended.
#[derive(Clone, Copy, PartialEq, Eq, Structural, Debug)]
pub enum WaitOutcome {
    Woken(WakeEvent),
    /// The sleep period ran out.
    Timeout,
    /// Every listener is gone.
    Disconnected,
}

/// The theme broadcasts a wakeup runs, in order, each given by whether it
/// refreshes the location first; `None` when the loop cannot go on.
/// - resume from sleep: use the cached location and correct the theme at once;
/// - network connected: refresh the location and update the theme;
/// - timeout: both, as on start-up;
/// - all listeners gone: stop.
pub open spec fn wakeup_plan_spec(outcome: WaitOutcome) -> Option<Seq<bool>> {
    match outcome {
        WaitOutcome::Woken(WakeEvent::SystemResume) => Some(seq![false]),
        WaitOutcome::Woken(WakeEvent::NetworkConnect) => Some(seq![true]),
        WaitOutcome::Timeout => Some(seq![false, true]),
        WaitOutcome::Disconnected => None,
    }
}

/// The theme broadcasts to run after the main loop's wait ended with
/// `outcome`, each given by whether it refreshes the location first.
pub fn wakeup_plan(outcome: WaitOutcome) -> (r: Option<Vec<bool>>)
    ensures
        match r {
            Some(v) => wakeup_plan_spec(outcome) == Some(v@),
            None => wakeup_plan_spec(outcome) is None,
        },
{
    match outcome {
        WaitOutcome::Woken(WakeEvent::SystemResume) => {
            let v = vec![false];
            assert(v@ =~= seq![false]);
            Some(v)
        },
        WaitOutcome::Woken(WakeEvent::NetworkConnect) => {
            let v = vec![true];
            assert(v@ =~= seq![true]);
            Some(v)
        },
        WaitOutcome::Timeout => {
            let v = vec![false, true];
            assert(v@ =~= seq![false, true]);
            Some(v)
        },
        WaitOutcome::Disconnected => None,
    }
}

/// The broadcasts at start-up: first with the cached location, then with a
/// fresh one.
pub fn startup_plan() -> (r: Vec<bool>)
    ensures
        r@ == seq![false, true],
{
    let v = vec![false, true];
    assert(v@ =~= seq![false, true]);
    v
}

} // verus!
