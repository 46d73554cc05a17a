//! The fixed-timestep accumulator: elapsed wall-clock time is banked, whole
//! fixed steps are paid out, and the excess carries over to the next frame.

use crate::STEP_MICROS;
use vstd::arithmetic::div_mod::lemma_fundamental_div_mod;
use vstd::prelude::*;

verus! {

/// The accumulator that decides how many fixed steps a frame may run.
#[derive(Clone, Copy, PartialEq, Eq, Structural, Debug)]
pub struct FrameTimer {
    pub acc_micros: u64,
}

impl FrameTimer {
    /// The banked time is always less than one step: whole steps are always
    /// paid out.
    pub open spec fn wf(self) -> bool {
        self.acc_micros < STEP_MICROS
    }

    /// A fresh accumulator holds no banked time.
    pub fn new() -> (t: FrameTimer)
        ensures
            t.acc_micros == 0,
            t.wf(),
    {
        FrameTimer { acc_micros: 0 }
    }

    /// Bank `elapsed_micros` and pay out as many whole fixed steps as the
    /// total permits; the remainder carries over.  With nothing banked and
    /// less than one step elapsed, no step runs and no time is lost.
    pub fn begin_frame(&mut self, elapsed_micros: u64) -> (steps: u64)
        requires
            old(self).wf(),
            elapsed_micros <= u64::MAX - STEP_MICROS,
        ensures
            final(self).wf(),
            steps == (old(self).acc_micros + elapsed_micros) as int / STEP_MICROS as int,
            final(self).acc_micros == (old(self).acc_micros + elapsed_micros) as int
                % STEP_MICROS as int,
            steps * STEP_MICROS + final(self).acc_micros == old(self).acc_micros
                + elapsed_micros,
    {
        let total: u64 = self.acc_micros + elapsed_micros;
        let steps: u64 = total / STEP_MICROS;
        self.acc_micros = total % STEP_MICROS;
        proof {
            lemma_fundamental_div_mod(total as int, STEP_MICROS as int);
        }
        steps
    }
}

} // verus!
