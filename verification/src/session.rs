//! Progress that outlives a single stage.

use vstd::prelude::*;

verus! {

/// The stage being played and the kills scored so far in this session.
#[derive(Clone, Copy, Debug, PartialEq, Eq, Structural)]
pub struct StageState {
    pub current_stage: u32,
    pub kills: u32,
}

impl StageState {
    /// Stages are numbered from one.
    pub open spec fn wf(&self) -> bool {
        self.current_stage >= 1
    }

    /// The record one stage clear later.
    pub open spec fn advanced(&self) -> StageState
        recommends
            self.current_stage < u32::MAX,
    {
        StageState { current_stage: (self.current_stage + 1) as u32, kills: self.kills }
    }

    /// A fresh session: first stage, no kills.
    pub fn new() -> (state: StageState)
        ensures
            state.current_stage == 1,
            state.kills == 0,
            state.wf(),
    {
        StageState { current_stage: 1, kills: 0 }
    }

    /// Moves on to the next stage. The stage number grows by exactly one and
    /// the kill count is kept.
    pub fn advance_stage(&mut self)
        requires
            old(self).current_stage < u32::MAX,
        ensures
            *final(self) == old(self).advanced(),
            final(self).current_stage == old(self).current_stage + 1,
            final(self).current_stage > old(self).current_stage,
            final(self).kills == old(self).kills,
            old(self).wf() ==> final(self).wf(),
    {
        self.current_stage = self.current_stage + 1;
    }

    /// Counts one destroyed enemy. The stage number is kept.
    pub fn record_kill(&mut self)
        requires
            old(self).kills < u32::MAX,
        ensures
            final(self).kills == old(self).kills + 1,
            final(self).current_stage == old(self).current_stage,
            old(self).wf() ==> final(self).wf(),
    {
        self.kills = self.kills + 1;
    }

    /// The number of the stage being played.
    pub fn current_stage(&self) -> (stage: u32)
        ensures
            stage == self.current_stage,
    {
        self.current_stage
    }

    /// The kills scored so far.
    pub fn kills(&self) -> (kills: u32)
        ensures
            kills == self.kills,
    {
        self.kills
    }
}

} // verus!
