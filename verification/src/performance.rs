//! The performance: the whole piece as a step-driven machine.
//!
//! The machine walks the cycle schedule beat by beat and hands the caller one
//! beat at a time; the caller delivers it and reports back. Delivery of a
//! note message can fail, and a failure is fatal for the rest of the piece:
//! once one is reported, the machine issues no further beats, so no later
//! note-on is ever sent after a lost note-off.

use vstd::prelude::*;
use crate::driver::{cycle_count_spec, cycle_params_spec, performance_cycles, CycleParams};
use crate::sequencer::{
    beat_duration_spec, beat_event, beat_notes_spec, beat_velocity_spec, Beat,
    CLOSING_VELOCITY_BOOST,
};

verus! {

/// One step of the performance: the beat to deliver, with the rotation and
/// beat index it stands at, for display.
pub struct BeatStep {
    pub rotation: usize,
    pub beat_index: usize,
    pub beat: Beat,
}

/// The state of a performance: the pattern, the cycle schedule, a cursor
/// into it, and whether a delivery failure has halted the piece.
pub struct Performance {
    pub pattern: Vec<bool>,
    pub cycles: Vec<CycleParams>,
    pub cycle_index: usize,
    pub beat_index: usize,
    pub halted: bool,
}

impl Performance {
    /// A well-formed performance: the schedule is the canonical one for the
    /// pattern's length, and the cursor points at a beat of a scheduled
    /// cycle, or one past the last cycle when the piece is over.
    pub open spec fn wf(self) -> bool {
        &&& self.pattern@.len() > 0
        &&& self.cycles@.len() == cycle_count_spec(self.pattern@.len() as int)
        &&& forall|k: int|
            0 <= k < self.cycles@.len() ==> #[trigger] self.cycles@[k] == cycle_params_spec(
                self.pattern@.len() as int,
                k,
            )
        &&& self.cycle_index <= self.cycles@.len()
        &&& self.beat_index < self.pattern@.len()
    }

    /// Whether every scheduled cycle has been played to its end.
    pub open spec fn finished(self) -> bool {
        self.cycle_index >= self.cycles@.len()
    }

    /// Set up the performance of the given pattern.
    pub fn new(pattern: Vec<bool>) -> (performance: Performance)
        requires
            pattern@.len() > 0,
            4 * pattern@.len() + 4 <= usize::MAX,
        ensures
            performance.wf(),
            performance.pattern@ == pattern@,
            performance.cycle_index == 0,
            performance.beat_index == 0,
            !performance.halted,
    {
        let cycles = performance_cycles(pattern.len());
        Performance { pattern, cycles, cycle_index: 0, beat_index: 0, halted: false }
    }

    /// Hand out the beat at the cursor and move the cursor to the next one,
    /// cycle by cycle in schedule order, beat indices strictly increasing
    /// within each cycle. Once the piece is finished, or once a failure has
    /// been reported, there is no beat to hand out and nothing changes — in
    /// particular, no beat ever follows a failure.
    pub fn next(&mut self) -> (step: Option<BeatStep>)
        requires
            old(self).wf(),
        ensures
            final(self).wf(),
            final(self).pattern@ == old(self).pattern@,
            final(self).cycles@ == old(self).cycles@,
            final(self).halted == old(self).halted,
            old(self).halted || old(self).finished() ==> {
                &&& step is None
                &&& *final(self) == *old(self)
            },
            !old(self).halted && !old(self).finished() ==> {
                let n = old(self).pattern@.len() as int;
                let params = old(self).cycles@[old(self).cycle_index as int];
                let i = old(self).beat_index as int;
                &&& step matches Some(s)
                &&& s.rotation == params.rotation
                &&& s.beat_index == i
                &&& s.beat.notes@ == beat_notes_spec(old(self).pattern@, params.rotation as int, i)
                &&& s.beat.velocity == beat_velocity_spec(params.velocity, n, i, params.is_final_cycle)
                &&& s.beat.duration_ms == beat_duration_spec(n, i, params.is_final_cycle)
                &&& i + 1 < n ==> final(self).cycle_index == old(self).cycle_index
                    && final(self).beat_index == i + 1
                &&& i + 1 == n ==> final(self).cycle_index == old(self).cycle_index + 1
                    && final(self).beat_index == 0
            },
    {
        if self.halted || self.cycle_index >= self.cycles.len() {
            return None;
        }
        let params = self.cycles[self.cycle_index];
        proof {
            assert(self.cycles@[self.cycle_index as int] == cycle_params_spec(
                self.pattern@.len() as int,
                self.cycle_index as int,
            ));
        }
        let beat = beat_event(
            &self.pattern,
            params.rotation,
            params.velocity,
            params.is_final_cycle,
            self.beat_index,
        );
        let step = BeatStep { rotation: params.rotation, beat_index: self.beat_index, beat };
        if self.beat_index + 1 < self.pattern.len() {
            self.beat_index = self.beat_index + 1;
        } else {
            self.beat_index = 0;
            self.cycle_index = self.cycle_index + 1;
        }
        Some(step)
    }

    /// Record that delivering a note message failed. The piece is over: from
    /// here on, `next` hands out no further beat.
    pub fn note_failure(&mut self)
        requires
            old(self).wf(),
        ensures
            final(self).wf(),
            final(self).halted,
            final(self).pattern@ == old(self).pattern@,
            final(self).cycles@ == old(self).cycles@,
            final(self).cycle_index == old(self).cycle_index,
            final(self).beat_index == old(self).beat_index,
    {
        self.halted = true;
    }
}

} // verus!
