use vstd::prelude::*;

use crate::badge::{emits, BadgeMachine};
use crate::ime::ImeState;

verus! {

/// Time without input, in milliseconds, from which the poller is idle.
pub const IDLE_THRESHOLD_MS: u64 = 5000;

/// Delay between polls while active.
pub const ACTIVE_INTERVAL_MS: u64 = 300;

/// Delay between polls while idle.
pub const IDLE_INTERVAL_MS: u64 = 1500;

/// What one poll tick asks of its runner.
#[derive(Debug, Clone, Copy, PartialEq, Eq, Structural)]
pub struct TickPlan {
    /// Forget the last emitted state before probing.
    pub reset_badge: bool,
    /// Dispatch a probe and a badge step to the UI thread.
    pub probe: bool,
    /// Sleep before the next tick.
    pub delay_ms: u64,
}

/// Whether an idle measurement counts as idle; the threshold itself does.
pub open spec fn is_idle(idle_ms: u64) -> bool {
    idle_ms >= IDLE_THRESHOLD_MS
}

/// Mode after a tick, and the plan for it.
pub open spec fn tick_of(idle_mode: bool, idle_ms: u64) -> (bool, TickPlan) {
    let now_idle = is_idle(idle_ms);
    (
        now_idle,
        TickPlan {
            reset_badge: idle_mode && !now_idle,
            probe: !now_idle,
            delay_ms: if now_idle { IDLE_INTERVAL_MS } else { ACTIVE_INTERVAL_MS },
        },
    )
}

/// The poller's own state: whether it is backing off for idleness.
#[derive(Debug, Clone, Copy, PartialEq, Eq, Structural)]
pub struct PollState {
    pub idle_mode: bool,
}

impl PollState {
    pub fn new() -> (r: PollState)
        ensures
            !r.idle_mode,
    {
        PollState { idle_mode: false }
    }

    /// Decides one tick from the time since the last input event.
    pub fn tick(&mut self, idle_ms: u64) -> (r: TickPlan)
        ensures
            (final(self).idle_mode, r) == tick_of(old(self).idle_mode, idle_ms),
    {
        let now_idle = idle_ms >= IDLE_THRESHOLD_MS;
        let reset_badge = self.idle_mode && !now_idle;
        self.idle_mode = now_idle;
        TickPlan {
            reset_badge,
            probe: !now_idle,
            delay_ms: if now_idle { IDLE_INTERVAL_MS } else { ACTIVE_INTERVAL_MS },
        }
    }
}

/// The poller together with the badge state it drives.
#[derive(Debug, Clone, Copy, PartialEq, Eq, Structural)]
pub struct Monitor {
    pub poll: PollState,
    pub badge: BadgeMachine,
}

impl Monitor {
    pub fn new() -> (r: Monitor)
        ensures
            !r.poll.idle_mode,
            r.badge.last is None,
    {
        Monitor { poll: PollState::new(), badge: BadgeMachine::new() }
    }

    /// Runs one tick's decisions, resetting the badge state where the plan
    /// says so.
    pub fn tick(&mut self, idle_ms: u64) -> (r: TickPlan)
        ensures
            (final(self).poll.idle_mode, r) == tick_of(old(self).poll.idle_mode, idle_ms),
            final(self).badge.last == (if r.reset_badge {
                None
            } else {
                old(self).badge.last
            }),
    {
        let plan = self.poll.tick(idle_ms);
        if plan.reset_badge {
            self.badge.reset();
        }
        plan
    }
}

/// Leaving idle mode resets the badge state, and the probe that follows
/// emits whatever it finds, even the state emitted before the idle period.
pub proof fn lemma_resume_forces_transition(last: Option<ImeState>, idle_ms: u64, s: ImeState)
    requires
        !is_idle(idle_ms),
    ensures
        ({
            let plan = tick_of(true, idle_ms).1;
            &&& plan.reset_badge
            &&& plan.probe
            &&& emits(if plan.reset_badge { None } else { last }, s)
        }),
{
}

/// The idle test is inclusive: exactly the threshold counts as idle, and the
/// tick then neither probes nor resets.
pub proof fn lemma_threshold_is_idle(idle_mode: bool)
    ensures
        tick_of(idle_mode, IDLE_THRESHOLD_MS).0,
        !tick_of(idle_mode, IDLE_THRESHOLD_MS).1.probe,
        tick_of(idle_mode, IDLE_THRESHOLD_MS).1.delay_ms == IDLE_INTERVAL_MS,
{
}

} // verus!
