//! Simulation clock: simulated time that runs at a settable multiple of
//! real time.
//!
//! Units: frame deltas are in microseconds and the speed multiplier is in
//! thousandths, so elapsed time, their product, is in nanoseconds.

use vstd::prelude::*;

verus! {

/// Elapsed simulated time and the speed at which it runs.
#[derive(Clone, Copy, Debug)]
pub struct SimulationTime {
    /// Simulated time elapsed, in nanoseconds.
    pub elapsed: u64,
    /// Simulated seconds per real second, in thousandths.
    pub speed_multiplier: u32,
    /// The largest speed multiplier that the controls can reach, in thousandths.
    pub max_speed: u32,
}

/// The mathematical content of a [`SimulationTime`].
pub struct ClockModel {
    pub elapsed: nat,
    pub speed: nat,
    pub max_speed: nat,
}

impl ClockModel {
    /// The speed multiplier does not exceed its maximum.
    pub open spec fn wf(self) -> bool {
        self.speed <= self.max_speed
    }

    /// The clock after a frame of `dt` microseconds.
    pub open spec fn advance(self, dt: nat) -> ClockModel {
        ClockModel { elapsed: self.elapsed + dt * self.speed, ..self }
    }

    /// The clock after the speed is raised by `step`, stopping at the maximum.
    pub open spec fn increase(self, step: nat) -> ClockModel {
        ClockModel {
            speed: if self.speed + step > self.max_speed {
                self.max_speed
            } else {
                self.speed + step
            },
            ..self
        }
    }

    /// The clock after the speed is lowered by `step`, stopping at zero.
    pub open spec fn decrease(self, step: nat) -> ClockModel {
        ClockModel {
            speed: if step > self.speed {
                0
            } else {
                (self.speed - step) as nat
            },
            ..self
        }
    }

    /// The clock after frames of the given lengths, in order.
    pub open spec fn advance_all(self, frames: Seq<nat>) -> ClockModel
        decreases frames.len(),
    {
        if frames.len() == 0 {
            self
        } else {
            self.advance_all(frames.drop_last()).advance(frames.last())
        }
    }
}

/// The sum of the lengths of `frames`.
pub open spec fn total(frames: Seq<nat>) -> nat
    decreases frames.len(),
{
    if frames.len() == 0 {
        0
    } else {
        total(frames.drop_last()) + frames.last()
    }
}

impl View for SimulationTime {
    type V = ClockModel;

    open spec fn view(&self) -> ClockModel {
        ClockModel {
            elapsed: self.elapsed as nat,
            speed: self.speed_multiplier as nat,
            max_speed: self.max_speed as nat,
        }
    }
}

impl SimulationTime {
    /// A clock at time zero that runs at `speed_multiplier`, or at
    /// `max_speed` where that is less.
    pub fn new(speed_multiplier: u32, max_speed: u32) -> (clock: SimulationTime)
        ensures
            clock@.elapsed == 0,
            clock@.max_speed == max_speed,
            clock@.speed == if speed_multiplier > max_speed {
                max_speed
            } else {
                speed_multiplier
            },
            clock@.wf(),
    {
        SimulationTime {
            elapsed: 0,
            speed_multiplier: if speed_multiplier > max_speed {
                max_speed
            } else {
                speed_multiplier
            },
            max_speed,
        }
    }

    /// Whether the elapsed time stays representable over a frame of `dt`
    /// microseconds.
    pub open spec fn spec_can_advance(&self, dt: u64) -> bool {
        self@.advance(dt as nat).elapsed <= u64::MAX
    }

    /// Whether the elapsed time stays representable over a frame of `dt`
    /// microseconds, which [`SimulationTime::advance`] asks for.
    #[verifier::when_used_as_spec(spec_can_advance)]
    pub fn can_advance(&self, dt: u64) -> (b: bool)
        ensures
            b == self.can_advance(dt),
    {
        assert(dt * self.speed_multiplier <= 0xffff_ffff_ffff_ffff * 0xffff_ffff) by (nonlinear_arith)
            requires
                0 <= dt <= 0xffff_ffff_ffff_ffff,
                0 <= self.speed_multiplier <= 0xffff_ffff,
        ;
        let gain: u128 = (dt as u128) * (self.speed_multiplier as u128);
        self.elapsed as u128 + gain <= u64::MAX as u128
    }

    /// Advances the clock over a frame of `dt` microseconds: elapsed time
    /// grows by `dt` times the speed multiplier.
    pub fn advance(&mut self, dt: u64)
        requires
            old(self).can_advance(dt),
        ensures
            final(self)@ == old(self)@.advance(dt as nat),
            final(self).elapsed >= old(self).elapsed,
    {
        assert(0 <= dt * self.speed_multiplier <= 0xffff_ffff_ffff_ffff * 0xffff_ffff) by (nonlinear_arith)
            requires
                0 <= dt <= 0xffff_ffff_ffff_ffff,
                0 <= self.speed_multiplier <= 0xffff_ffff,
        ;
        let gain: u128 = (dt as u128) * (self.speed_multiplier as u128);
        self.elapsed = (self.elapsed as u128 + gain) as u64;
    }

    /// Raises the speed multiplier by `step`, stopping at the maximum.
    pub fn increase(&mut self, step: u32)
        ensures
            final(self)@ == old(self)@.increase(step as nat),
            final(self)@.wf(),
    {
        let raised: u64 = self.speed_multiplier as u64 + step as u64;
        self.speed_multiplier = if raised > self.max_speed as u64 {
            self.max_speed
        } else {
            raised as u32
        };
    }

    /// Lowers the speed multiplier by `step`, stopping at zero.
    pub fn decrease(&mut self, step: u32)
        ensures
            final(self)@ == old(self)@.decrease(step as nat),
            old(self)@.wf() ==> final(self)@.wf(),
    {
        self.speed_multiplier = if step > self.speed_multiplier {
            0
        } else {
            self.speed_multiplier - step
        };
    }
}

/// Advancing adds exactly the frame time multiplied by the speed, and two
/// frames in a row add what one frame of their joint length adds.
pub proof fn lemma_advance_linear(clock: ClockModel, dt1: nat, dt2: nat)
    ensures
        clock.advance(dt1).elapsed == clock.elapsed + dt1 * clock.speed,
        clock.advance(dt1).advance(dt2) == clock.advance(dt1 + dt2),
{
    assert((dt1 + dt2) * clock.speed == dt1 * clock.speed + dt2 * clock.speed) by (nonlinear_arith);
}

/// However a span of time is cut into frames, the clock ends where one
/// frame of the whole span would have taken it, without drift.
pub proof fn lemma_advance_all(clock: ClockModel, frames: Seq<nat>)
    ensures
        clock.advance_all(frames) == clock.advance(total(frames)),
        clock.advance_all(frames).elapsed >= clock.elapsed,
    decreases frames.len(),
{
    if frames.len() == 0 {
        assert(0 * clock.speed == 0) by (nonlinear_arith);
    } else {
        lemma_advance_all(clock, frames.drop_last());
        lemma_advance_linear(clock, total(frames.drop_last()), frames.last());
    }
}

/// Raising and lowering the speed keep it between zero and its maximum.
pub proof fn lemma_speed_stays_in_range(clock: ClockModel, step: nat)
    requires
        clock.wf(),
    ensures
        clock.increase(step).wf(),
        clock.decrease(step).wf(),
        0 <= clock.increase(step).speed <= clock.max_speed,
        0 <= clock.decrease(step).speed <= clock.max_speed,
        clock.increase(step).speed >= clock.speed,
        clock.decrease(step).speed <= clock.speed,
{
}

} // verus!
