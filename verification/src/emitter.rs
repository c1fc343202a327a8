//! Oscillators: each animated object swells and shrinks periodically with
//! simulated time.
//!
//! Units: frequency is in thousandths of a hertz and time in nanoseconds, so
//! their product counts trillionths of a cycle; the phase offset is in
//! trillionths of a cycle too. The host takes the sine of the cycle position
//! and hands it back in millionths; amplitude is in thousandths, so the
//! scale, one plus their product, is in billionths.

use vstd::prelude::*;

verus! {

/// Trillionths of a cycle in one cycle.
pub const CYCLE: u64 = 1_000_000_000_000;

/// The sine of a full swing, in millionths.
pub const WAVE_MAX: i32 = 1_000_000;

/// A scale of exactly one, in billionths.
pub const UNIT_SCALE: i64 = 1_000_000_000;

/// A periodic scale animation owned by one object.
#[derive(Clone, Copy, Debug)]
pub struct AudioEmitter {
    /// Frequency in thousandths of a hertz.
    pub frequency: u32,
    /// Largest departure of the scale from one, in thousandths.
    pub amplitude: u32,
    /// Phase offset in trillionths of a cycle.
    pub phase: u64,
}

/// The mathematical content of an [`AudioEmitter`].
pub struct EmitterModel {
    pub frequency: nat,
    pub amplitude: nat,
    pub phase: nat,
}

/// `wave` confined to `[-WAVE_MAX, WAVE_MAX]`.
pub open spec fn clamp_wave(wave: int) -> int {
    if wave < -1_000_000 {
        -1_000_000
    } else if wave > 1_000_000 {
        1_000_000
    } else {
        wave
    }
}

impl EmitterModel {
    /// Where in its cycle the oscillator stands at `elapsed` nanoseconds, in
    /// trillionths of a cycle: the fractional part of frequency times time
    /// plus phase.
    pub open spec fn cycle_position(self, elapsed: nat) -> nat {
        (self.frequency * elapsed + self.phase) % 1_000_000_000_000
    }

    /// The scale in billionths for a sine of `wave` millionths:
    /// one plus amplitude times the sine.
    pub open spec fn scale(self, wave: int) -> int {
        1_000_000_000 + self.amplitude * clamp_wave(wave)
    }
}

impl View for AudioEmitter {
    type V = EmitterModel;

    open spec fn view(&self) -> EmitterModel {
        EmitterModel {
            frequency: self.frequency as nat,
            amplitude: self.amplitude as nat,
            phase: self.phase as nat,
        }
    }
}

impl AudioEmitter {
    /// Where in its cycle the oscillator stands at `elapsed` nanoseconds of
    /// simulated time, in trillionths of a cycle. The sine of this position
    /// is what [`AudioEmitter::scale`] takes.
    pub fn cycle_position(&self, elapsed: u64) -> (p: u64)
        ensures
            p == self@.cycle_position(elapsed as nat),
            p < CYCLE,
    {
        assert(0 <= self.frequency * elapsed <= 0xffff_ffff * 0xffff_ffff_ffff_ffff) by (nonlinear_arith)
            requires
                0 <= self.frequency <= 0xffff_ffff,
                0 <= elapsed <= 0xffff_ffff_ffff_ffff,
        ;
        let turns: u128 = (self.frequency as u128) * (elapsed as u128) + self.phase as u128;
        (turns % (CYCLE as u128)) as u64
    }

    /// The uniform scale of the object, in billionths, for a sine of `wave`
    /// millionths: one plus amplitude times the sine. A `wave` beyond a full
    /// swing counts as a full swing.
    pub fn scale(&self, wave: i32) -> (s: i64)
        ensures
            s == self@.scale(wave as int),
            UNIT_SCALE - self.amplitude * 1_000_000 <= s <= UNIT_SCALE + self.amplitude * 1_000_000,
    {
        let swing: i64 = if wave < -WAVE_MAX {
            -WAVE_MAX as i64
        } else if wave > WAVE_MAX {
            WAVE_MAX as i64
        } else {
            wave as i64
        };
        assert(-(self.amplitude * 1_000_000) <= self.amplitude * swing <= self.amplitude * 1_000_000)
            by (nonlinear_arith)
            requires
                0 <= self.amplitude,
                -1_000_000 <= swing <= 1_000_000,
        ;
        UNIT_SCALE + (self.amplitude as i64) * swing
    }
}

/// The oscillator is periodic: a span of time over which it makes a whole
/// number of cycles brings it back to the same cycle position.
pub proof fn lemma_cycle_periodic(emitter: EmitterModel, elapsed: nat, span: nat, cycles: nat)
    requires
        emitter.frequency * span == cycles * 1_000_000_000_000,
    ensures
        emitter.cycle_position(elapsed + span) == emitter.cycle_position(elapsed),
{
    let f = emitter.frequency;
    let base = (f * elapsed + emitter.phase) as int;
    assert(f * (elapsed + span) + emitter.phase == base + cycles * 1_000_000_000_000) by (nonlinear_arith)
        requires
            f * span == cycles * 1_000_000_000_000,
            base == f * elapsed + emitter.phase,
    ;
    vstd::arithmetic::div_mod::lemma_mod_multiples_vanish(cycles as int, base, 1_000_000_000_000);
    assert(cycles * 1_000_000_000_000 + base == 1_000_000_000_000 * cycles + base) by (nonlinear_arith);
}

/// The scale never departs from one by more than the amplitude, whatever
/// the sine, and a sine of zero gives a scale of exactly one.
pub proof fn lemma_scale_bounded(emitter: EmitterModel, wave: int)
    ensures
        1_000_000_000 - emitter.amplitude * 1_000_000 <= emitter.scale(wave) <= 1_000_000_000
            + emitter.amplitude * 1_000_000,
        emitter.scale(0) == 1_000_000_000,
{
    let swing = clamp_wave(wave);
    assert(-(emitter.amplitude * 1_000_000) <= emitter.amplitude * swing <= emitter.amplitude
        * 1_000_000) by (nonlinear_arith)
        requires
            0 <= emitter.amplitude,
            -1_000_000 <= swing <= 1_000_000,
    ;
    assert(emitter.amplitude * 0 == 0) by (nonlinear_arith);
}

} // verus!
