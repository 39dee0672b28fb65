//! The run state a session accumulates, owned by the orchestrator alone.
//!
//! All counters are monotonically non-decreasing within a run. They are
//! reset to zero only when a fresh session begins after a stop, never on a
//! pause.

use vstd::prelude::*;

verus! {

/// Progress of the current session.
#[derive(Clone, Copy, Debug)]
pub struct RunState {
    /// Cycles completed so far.
    pub completed: i32,
    /// Food renewals performed so far.
    pub food_count: i32,
    /// Potion renewals performed so far.
    pub potion_count: i32,
    /// When the food effect was last renewed, or `None` when it has not
    /// been renewed this session; a fresh session always primes it.
    pub food_last: Option<u64>,
    /// When the potion effect was last renewed, likewise.
    pub potion_last: Option<u64>,
}

impl RunState {
    /// The state a fresh session starts from.
    pub open spec fn spec_initial() -> RunState {
        RunState { completed: 0, food_count: 0, potion_count: 0, food_last: None, potion_last: None }
    }

    /// Between cycles, counters are non-negative and no consumable has
    /// been renewed more often than cycles have completed: each cycle
    /// renews each consumable at most once.
    pub open spec fn wf(self) -> bool {
        &&& 0 <= self.completed
        &&& 0 <= self.food_count <= self.completed
        &&& 0 <= self.potion_count <= self.completed
    }

    /// A fresh, all-zero run state.
    pub fn new() -> (r: RunState)
        ensures
            r == RunState::spec_initial(),
    {
        RunState { completed: 0, food_count: 0, potion_count: 0, food_last: None, potion_last: None }
    }

    /// Counts one more completed cycle.
    pub fn increment_amount(&mut self)
        requires
            old(self).completed < i32::MAX,
        ensures
            *final(self) == (RunState { completed: (old(self).completed + 1) as i32, ..*old(self) }),
    {
        self.completed = self.completed + 1;
    }

    /// Counts one more food renewal, performed at clock value `now`.
    pub fn increment_food(&mut self, now: u64)
        requires
            old(self).food_count < i32::MAX,
        ensures
            *final(self) == (RunState {
                food_count: (old(self).food_count + 1) as i32,
                food_last: Some(now),
                ..*old(self)
            }),
    {
        self.food_count = self.food_count + 1;
        self.food_last = Some(now);
    }

    /// Counts one more potion renewal, performed at clock value `now`.
    pub fn increment_potion(&mut self, now: u64)
        requires
            old(self).potion_count < i32::MAX,
        ensures
            *final(self) == (RunState {
                potion_count: (old(self).potion_count + 1) as i32,
                potion_last: Some(now),
                ..*old(self)
            }),
    {
        self.potion_count = self.potion_count + 1;
        self.potion_last = Some(now);
    }
}

} // verus!
