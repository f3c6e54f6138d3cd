//! Wrapping microsecond clock values and the tick / wall-clock collaborators.

use vstd::prelude::*;

use crate::tick::Tick;

verus! {

/// Number of distinct clock values, in microseconds; clock arithmetic wraps
/// modulo this (a little over 71 minutes per turn).
pub const TIME_MODULUS_US: u64 = 0x1_0000_0000;

/// `x` reduced to one turn of the clock circle.
pub open spec fn wrap_us(x: int) -> int {
    x % 0x1_0000_0000
}

/// Shortest signed distance from `b` to `a` on the clock circle: the unique
/// `d` with `-0x8000_0000 <= d < 0x8000_0000` and `(b + d) % 2^32 == a`.
pub open spec fn time_diff_spec(a: u32, b: u32) -> int {
    let d = (a - b) % 0x1_0000_0000;
    if d >= 0x8000_0000 {
        d - 0x1_0000_0000
    } else {
        d
    }
}

/// A fixed-modulus microsecond timestamp. It wraps modulo 2^32, so it only
/// ever denotes a position on the clock circle, never an absolute time;
/// comparisons go through the signed [`WrappedTime::signed_diff`].
#[derive(Clone, Copy, Debug, PartialEq, Eq, Structural)]
pub struct WrappedTime {
    pub elapsed_us_wrapped: u32,
}

impl WrappedTime {
    /// The zero position on the clock circle.
    pub fn zero() -> (r: WrappedTime)
        ensures
            r.elapsed_us_wrapped == 0,
    {
        WrappedTime { elapsed_us_wrapped: 0 }
    }

    /// The position reached after `us` microseconds from zero.
    pub fn from_micros(us: u64) -> (r: WrappedTime)
        ensures
            r.elapsed_us_wrapped == wrap_us(us as int),
    {
        WrappedTime { elapsed_us_wrapped: (us % TIME_MODULUS_US) as u32 }
    }

    /// The position `us` microseconds later on the circle.
    pub fn add_micros(self, us: u64) -> (r: WrappedTime)
        ensures
            r.elapsed_us_wrapped == wrap_us(self.elapsed_us_wrapped + us),
    {
        let total: u128 = self.elapsed_us_wrapped as u128 + us as u128;
        let wrapped: u64 = (total % 0x1_0000_0000u128) as u64;
        WrappedTime { elapsed_us_wrapped: wrapped as u32 }
    }

    /// The position `us` microseconds earlier on the circle.
    pub fn sub_micros(self, us: u64) -> (r: WrappedTime)
        ensures
            r.elapsed_us_wrapped == wrap_us(self.elapsed_us_wrapped - us),
    {
        let m: u64 = us % TIME_MODULUS_US;
        let total: u64 = self.elapsed_us_wrapped as u64 + (TIME_MODULUS_US - m);
        proof {
            vstd::arithmetic::div_mod::lemma_mod_bound(us as int, 0x1_0000_0000);
            vstd::arithmetic::div_mod::lemma_sub_mod_noop(
                self.elapsed_us_wrapped + 0x1_0000_0000,
                us as int,
                0x1_0000_0000,
            );
            vstd::arithmetic::div_mod::lemma_mod_self_0(0x1_0000_0000);
            vstd::arithmetic::div_mod::lemma_add_mod_noop(
                self.elapsed_us_wrapped as int,
                0x1_0000_0000,
                0x1_0000_0000,
            );
            vstd::arithmetic::div_mod::lemma_mod_twice(self.elapsed_us_wrapped as int, 0x1_0000_0000);
            vstd::arithmetic::div_mod::lemma_mod_twice(
                self.elapsed_us_wrapped - us,
                0x1_0000_0000,
            );
        }
        WrappedTime { elapsed_us_wrapped: (total % TIME_MODULUS_US) as u32 }
    }

    /// Shortest signed distance in microseconds from `other` to `self`.
    pub fn signed_diff(self, other: WrappedTime) -> (r: i64)
        ensures
            r as int == time_diff_spec(self.elapsed_us_wrapped, other.elapsed_us_wrapped),
    {
        let d: u32 = self.elapsed_us_wrapped.wrapping_sub(other.elapsed_us_wrapped);
        proof {
            lemma_mod_turn_32(self.elapsed_us_wrapped - other.elapsed_us_wrapped);
        }
        if d >= 0x8000_0000 {
            d as i64 - 0x1_0000_0000
        } else {
            d as i64
        }
    }
}

proof fn lemma_mod_turn_32(x: int)
    requires
        -0x1_0000_0000 <= x < 0x2_0000_0000,
    ensures
        0 <= x < 0x1_0000_0000 ==> x % 0x1_0000_0000 == x,
        x < 0 ==> x % 0x1_0000_0000 == x + 0x1_0000_0000,
        x >= 0x1_0000_0000 ==> x % 0x1_0000_0000 == x - 0x1_0000_0000,
{
}

/// A product of non-negative factors is bounded by the product of the
/// factors' bounds.
pub proof fn lemma_mul_le(a: int, am: int, b: int, bm: int)
    by (nonlinear_arith)
    requires
        0 <= a <= am,
        0 <= b <= bm,
    ensures
        a * b <= am * bm,
{
}

/// The playback-speed multiplier handed to the tick-advance driver: the
/// simulation either runs at the configured speedup factor, at its
/// reciprocal, or at normal speed — never anything in between.
#[derive(Clone, Copy, Debug, PartialEq, Eq, Structural)]
pub enum RelativeSpeed {
    /// Run at the reciprocal of the speedup factor.
    Slowed,
    /// Run at normal speed.
    Normal,
    /// Run at the speedup factor.
    SpedUp,
}

/// `delta` microseconds of wall time scaled by the speed multiplier, where
/// the speedup factor is given in thousandths (1030 means times 1.03).
pub open spec fn scaled_micros_spec(delta_us: int, speed: RelativeSpeed, speedup_per_mille: int) -> int {
    match speed {
        RelativeSpeed::Slowed => delta_us * 1000 / speedup_per_mille,
        RelativeSpeed::Normal => delta_us,
        RelativeSpeed::SpedUp => delta_us * speedup_per_mille / 1000,
    }
}

/// Wall-clock microseconds scaled by a [`RelativeSpeed`] multiplier.
pub fn scaled_micros(delta_us: u64, speed: RelativeSpeed, speedup_per_mille: u32) -> (r: u64)
    requires
        speedup_per_mille >= 1,
        delta_us <= u32::MAX,
    ensures
        r == scaled_micros_spec(delta_us as int, speed, speedup_per_mille as int),
{
    match speed {
        RelativeSpeed::Slowed => {
            let scaled: u128 = delta_us as u128 * 1000u128 / speedup_per_mille as u128;
            proof {
                assert(delta_us * 1000 / speedup_per_mille as int <= delta_us * 1000) by {
                    vstd::arithmetic::div_mod::lemma_div_is_ordered_by_denominator(
                        delta_us * 1000,
                        1,
                        speedup_per_mille as int,
                    );
                    vstd::arithmetic::div_mod::lemma_div_basics(delta_us * 1000);
                }
            }
            scaled as u64
        },
        RelativeSpeed::Normal => delta_us,
        RelativeSpeed::SpedUp => {
            proof {
                assert(delta_us * speedup_per_mille as int <= 0xffff_ffff * 0xffff_ffff)
                    by (nonlinear_arith)
                    requires
                        delta_us <= 0xffff_ffff,
                        speedup_per_mille <= 0xffff_ffff,
                ;
            }
            let scaled: u128 = delta_us as u128 * speedup_per_mille as u128 / 1000u128;
            scaled as u64
        },
    }
}

/// The wall-clock collaborator: it reports the elapsed time of the current
/// frame plus the leftover fraction of a tick, and carries the
/// playback-speed multiplier that the tick-advance driver consumes.
#[derive(Clone, Copy, Debug)]
pub struct TimeManager {
    /// Wall-clock time elapsed since the previous frame, in microseconds.
    pub delta_us: u64,
    /// Time accumulated past the most recent whole tick, in microseconds.
    pub overstep_us: u64,
    /// Multiplier applied externally to subsequent tick advancement.
    pub sync_relative_speed: RelativeSpeed,
}

/// The tick-source collaborator: it holds the tick duration and the current
/// tick, and accepts a one-shot rebase.
#[derive(Clone, Copy, Debug)]
pub struct TickManager {
    /// Duration of one simulation tick, in microseconds.
    pub tick_duration_us: u64,
    /// The current local tick.
    pub tick: Tick,
}

impl TickManager {
    /// A tick duration of zero makes tick/time conversion meaningless, and a
    /// duration of a full clock turn or more could not separate two ticks on
    /// the clock circle.
    pub open spec fn wf(self) -> bool {
        0 < self.tick_duration_us <= u32::MAX
    }

    /// The current local tick.
    pub fn current_tick(&self) -> (r: Tick)
        ensures
            r == self.tick,
    {
        self.tick
    }

    /// Hard, one-time rebase of the tick source: the only way the tick ever
    /// jumps instead of advancing step by step.
    pub fn set_tick_to(&mut self, tick: Tick)
        ensures
            final(self).tick == tick,
            final(self).tick_duration_us == old(self).tick_duration_us,
    {
        self.tick = tick;
    }
}

} // verus!
