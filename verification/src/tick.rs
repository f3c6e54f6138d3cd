//! Wrapping 16-bit tick counter with shortest-distance signed arithmetic.

use vstd::prelude::*;

verus! {

/// Shortest signed distance from `b` to `a` on the tick circle: the unique
/// `d` with `-0x8000 <= d < 0x8000` such that `(b + d) % 0x1_0000 == a`.
pub open spec fn tick_diff_spec(a: u16, b: u16) -> int {
    let d = (a - b) % 0x1_0000;
    if d >= 0x8000 {
        d - 0x1_0000
    } else {
        d
    }
}

/// The tick value `n` steps after `t` on the tick circle; `n` may be negative.
pub open spec fn tick_shift_spec(t: u16, n: int) -> u16 {
    (((t + n) % 0x1_0000) as u16)
}

/// A discrete simulation step counter that wraps modulo 2^16.
///
/// Comparisons between ticks are only meaningful through the signed
/// shortest-distance [`Tick::diff`], never through the raw `u16` order.
#[derive(Clone, Copy, Debug, PartialEq, Eq, Hash, Structural)]
pub struct Tick(pub u16);

impl Tick {
    /// Shortest signed distance from `other` to `self` on the tick circle.
    pub fn diff(self, other: Tick) -> (r: i16)
        ensures
            r as int == tick_diff_spec(self.0, other.0),
    {
        let d: u16 = self.0.wrapping_sub(other.0);
        proof {
            lemma_wrapping_sub_is_mod(self.0, other.0);
        }
        if d >= 0x8000 {
            (d as i32 - 0x1_0000) as i16
        } else {
            d as i16
        }
    }

    /// The tick `n` steps after `self`.
    pub fn advance(self, n: u16) -> (r: Tick)
        ensures
            r.0 == tick_shift_spec(self.0, n as int),
    {
        proof {
            lemma_wrapping_add_is_mod(self.0, n);
        }
        Tick(self.0.wrapping_add(n))
    }

    /// The tick `n` steps before `self`.
    pub fn retreat(self, n: u16) -> (r: Tick)
        ensures
            r.0 == tick_shift_spec(self.0, -(n as int)),
    {
        proof {
            lemma_wrapping_sub_is_mod(self.0, n);
        }
        Tick(self.0.wrapping_sub(n))
    }

    /// The tick `n` steps after `self`, where `n` is signed.
    pub fn shift(self, n: i16) -> (r: Tick)
        ensures
            r.0 == tick_shift_spec(self.0, n as int),
    {
        proof {
            lemma_wrapping_add_signed_is_mod(self.0, n);
        }
        Tick(self.0.wrapping_add_signed(n))
    }
}

/// `x % 0x1_0000` leaves a value in `0 .. 0x1_0000` unchanged and shifts by
/// whole turns otherwise; these facts connect the wrapping operations of
/// `u16` to the euclidean remainder used by the spec functions.
proof fn lemma_mod_turn_16(x: int)
    requires
        -0x1_0000 <= x < 0x2_0000,
    ensures
        0 <= x < 0x1_0000 ==> x % 0x1_0000 == x,
        x < 0 ==> x % 0x1_0000 == x + 0x1_0000,
        x >= 0x1_0000 ==> x % 0x1_0000 == x - 0x1_0000,
{
}

proof fn lemma_wrapping_sub_is_mod(a: u16, b: u16)
    ensures
        vstd::wrapping::u16_specs::wrapping_sub(a, b) as int == (a - b) % 0x1_0000,
{
    lemma_mod_turn_16(a - b);
}

proof fn lemma_wrapping_add_is_mod(a: u16, b: u16)
    ensures
        vstd::wrapping::u16_specs::wrapping_add(a, b) as int == (a + b) % 0x1_0000,
{
    lemma_mod_turn_16(a + b);
}

proof fn lemma_wrapping_add_signed_is_mod(a: u16, n: i16)
    ensures
        vstd::wrapping::u16_specs::wrapping_add_signed(a, n) as int == (a + n) % 0x1_0000,
{
    lemma_mod_turn_16(a + n);
}

/// The signed distance is unchanged when both endpoints are shifted by the
/// same amount: renumbering ticks preserves every distance on the circle.
pub proof fn lemma_tick_diff_shift_invariant(a: u16, b: u16, n: int)
    ensures
        tick_diff_spec(tick_shift_spec(a, n), tick_shift_spec(b, n)) == tick_diff_spec(a, b),
{
    let sa = tick_shift_spec(a, n) as int;
    let sb = tick_shift_spec(b, n) as int;
    vstd::arithmetic::div_mod::lemma_mod_bound(a + n, 0x1_0000);
    vstd::arithmetic::div_mod::lemma_mod_bound(b + n, 0x1_0000);
    vstd::arithmetic::div_mod::lemma_sub_mod_noop(a + n, b + n, 0x1_0000);
    assert((sa - sb) % 0x1_0000 == ((a + n) - (b + n)) % 0x1_0000) by {
        vstd::arithmetic::div_mod::lemma_mod_twice(a + n - (b + n), 0x1_0000);
    }
}

/// Shifting `b` by the signed distance from `b` to `a` lands exactly on `a`.
pub proof fn lemma_tick_shift_diff_roundtrip(a: u16, b: u16)
    ensures
        tick_shift_spec(b, tick_diff_spec(a, b)) == a,
{
    let d = tick_diff_spec(a, b);
    lemma_mod_turn_16(a - b);
    lemma_mod_turn_16(b + d);
}

/// Two ticks at the same signed distance from a common origin are equal.
pub proof fn lemma_tick_diff_injective(a: u16, b: u16, s: u16)
    requires
        tick_diff_spec(a, s) == tick_diff_spec(b, s),
    ensures
        a == b,
{
    lemma_tick_shift_diff_roundtrip(a, s);
    lemma_tick_shift_diff_roundtrip(b, s);
}

} // verus!
