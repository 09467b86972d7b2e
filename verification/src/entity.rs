//! The bunny entity and the per-entity physics rules: integration under
//! gravity and resolution against the screen boundaries.

use vstd::prelude::*;
use vstd::arithmetic::power::pow;
use crate::GRAVITY;
use crate::SCREEN_HALF_HEIGHT;
use crate::SCREEN_HALF_WIDTH;
use crate::UPPER_BOUND;

verus! {

/// Largest coordinate or velocity magnitude, in milli-pixels, that the
/// physics functions accept.  It leaves ample headroom in an `i64` for
/// one position update and for the damping product, while admitting any
/// position an entity can reach in a very long run.
pub const COORD_LIMIT: i64 = 2_000_000_000_000;

/// One simulated sprite: a screen-space position (origin at the screen
/// center) and a velocity, both in milli-pixels.
#[derive(Clone, Copy, PartialEq, Eq, Structural, Debug)]
pub struct Bunny {
    /// Horizontal position, milli-pixels right of the screen center.
    pub x: i64,
    /// Vertical position, milli-pixels above the screen center.
    pub y: i64,
    /// Horizontal velocity, milli-pixels per tick.
    pub vx: i64,
    /// Vertical velocity, milli-pixels per tick.
    pub vy: i64,
}

/// The coordinates and velocities of `b` are within [`COORD_LIMIT`].
pub open spec fn bunny_in_range(b: Bunny) -> bool {
    &&& -COORD_LIMIT <= b.x <= COORD_LIMIT
    &&& -COORD_LIMIT <= b.y <= COORD_LIMIT
    &&& -COORD_LIMIT <= b.vx <= COORD_LIMIT
    &&& -COORD_LIMIT <= b.vy <= COORD_LIMIT
}

/// Decides [`bunny_in_range`].
pub fn bunny_in_range_exec(b: &Bunny) -> (r: bool)
    ensures
        r == bunny_in_range(*b),
{
    -COORD_LIMIT <= b.x && b.x <= COORD_LIMIT && -COORD_LIMIT <= b.y && b.y <= COORD_LIMIT
        && -COORD_LIMIT <= b.vx && b.vx <= COORD_LIMIT && -COORD_LIMIT <= b.vy && b.vy
        <= COORD_LIMIT
}

/// The state of `b` after one integrator step: the position advances by
/// the velocity, and gravity pulls the vertical velocity down.
pub open spec fn integrated(b: Bunny) -> Bunny {
    Bunny {
        x: (b.x + b.vx) as i64,
        y: (b.y + b.vy) as i64,
        vx: b.vx,
        vy: (b.vy - GRAVITY) as i64,
    }
}

/// One integrator step for a single entity: `position += velocity`, then
/// `velocity.y -= GRAVITY`.  Exact, with no failure modes.
pub fn integrate_bunny(b: &mut Bunny)
    requires
        bunny_in_range(*old(b)),
    ensures
        *final(b) == integrated(*old(b)),
        final(b).x == old(b).x + old(b).vx,
        final(b).y == old(b).y + old(b).vy,
        final(b).vx == old(b).vx,
        final(b).vy == old(b).vy - GRAVITY,
{
    b.x = b.x + b.vx;
    b.y = b.y + b.vy;
    b.vy = b.vy - GRAVITY;
}

/// Largest half-extent, in milli-pixels, that a reference image can
/// yield: the scaled half-extent of an image `u32::MAX` pixels wide.
pub const HALF_EXTENT_LIMIT: i64 = 429_496_729_500;

/// Vertical velocity after one pass of the ceiling rule: an upward
/// velocity is damped to seven tenths (rounding toward zero); a
/// downward or zero velocity is untouched.
pub open spec fn damped(v: int) -> int {
    if v > 0 {
        v * 7 / 10
    } else {
        v
    }
}

/// The state of `b` after one boundary-resolver pass against half-extents
/// `(hw, hh)`:
/// - beyond the left or right edge, the horizontal velocity is reflected
///   (the horizontal position is never clamped);
/// - below the floor, the vertical position is clamped to the floor and
///   the vertical velocity is reflected;
/// - above the damping threshold near the top, an upward vertical
///   velocity is damped to seven tenths.
pub open spec fn resolved(b: Bunny, hw: int, hh: int) -> Bunny {
    let vx1 = if b.x > SCREEN_HALF_WIDTH - hw || b.x < -SCREEN_HALF_WIDTH + hw {
        -b.vx
    } else {
        b.vx as int
    };
    let y1 = if b.y < -SCREEN_HALF_HEIGHT + hh {
        -SCREEN_HALF_HEIGHT + hh
    } else {
        b.y as int
    };
    let vy1 = if b.y < -SCREEN_HALF_HEIGHT + hh {
        -b.vy
    } else {
        b.vy as int
    };
    let vy2 = if y1 > SCREEN_HALF_HEIGHT - UPPER_BOUND - hh && vy1 > 0 {
        damped(vy1)
    } else {
        vy1
    };
    Bunny { x: b.x, y: y1 as i64, vx: vx1 as i64, vy: vy2 as i64 }
}

/// One boundary-resolver pass for a single entity.
pub fn resolve_bunny(b: &mut Bunny, hw: i64, hh: i64)
    requires
        bunny_in_range(*old(b)),
        0 <= hw <= HALF_EXTENT_LIMIT,
        0 <= hh <= HALF_EXTENT_LIMIT,
    ensures
        *final(b) == resolved(*old(b), hw as int, hh as int),
        final(b).x == old(b).x,
        bunny_in_range(*final(b)),
{
    if b.x > SCREEN_HALF_WIDTH - hw || b.x < -SCREEN_HALF_WIDTH + hw {
        b.vx = -b.vx;
    }
    if b.y < -SCREEN_HALF_HEIGHT + hh {
        b.y = -SCREEN_HALF_HEIGHT + hh;
        b.vy = -b.vy;
    }
    if b.y > SCREEN_HALF_HEIGHT - UPPER_BOUND - hh && b.vy > 0 {
        b.vy = b.vy * 7 / 10;
    }
}

/// Law: the floor is hard.  An entity below the floor, whatever its
/// vertical velocity, is repositioned to exactly the floor and has its
/// vertical velocity reflected; its horizontal position is untouched.
/// (When the floor itself lies inside the ceiling-damping zone and the
/// reflected velocity points up, the damping pass would further scale
/// the velocity; the third precondition excludes that overlap.)
pub proof fn lemma_floor_clamp(b: Bunny, hw: int, hh: int)
    requires
        bunny_in_range(b),
        0 <= hh <= HALF_EXTENT_LIMIT,
        b.y < -SCREEN_HALF_HEIGHT + hh,
        -SCREEN_HALF_HEIGHT + hh <= SCREEN_HALF_HEIGHT - UPPER_BOUND - hh || -b.vy <= 0,
    ensures
        resolved(b, hw, hh).y == -SCREEN_HALF_HEIGHT + hh,
        resolved(b, hw, hh).vy == -b.vy,
        resolved(b, hw, hh).x == b.x,
{
}

/// Law: the ceiling is soft.  An entity in the damping zone that is not
/// below the floor and moves upward keeps its position and has its
/// vertical velocity damped to exactly seven tenths.
pub proof fn lemma_ceiling_damping(b: Bunny, hw: int, hh: int)
    requires
        bunny_in_range(b),
        0 <= hh <= HALF_EXTENT_LIMIT,
        b.y >= -SCREEN_HALF_HEIGHT + hh,
        b.y > SCREEN_HALF_HEIGHT - UPPER_BOUND - hh,
        b.vy > 0,
    ensures
        resolved(b, hw, hh).y == b.y,
        resolved(b, hw, hh).x == b.x,
        resolved(b, hw, hh).vy == b.vy * 7 / 10,
{
}

/// `n` boundary-resolver passes in a row (with no integrator step in
/// between).
pub open spec fn resolved_n(b: Bunny, hw: int, hh: int, n: nat) -> Bunny
    decreases n,
{
    if n == 0 {
        b
    } else {
        resolved(resolved_n(b, hw, hh, (n - 1) as nat), hw, hh)
    }
}

/// `n` passes of the ceiling rule alone.
pub open spec fn damped_n(v: int, n: nat) -> int
    decreases n,
{
    if n == 0 {
        v
    } else {
        damped(damped_n(v, (n - 1) as nat))
    }
}

/// Law: ceiling damping compounds.  While an entity stays in the damping
/// zone (its position is not moved by the resolver there), each further
/// resolver pass scales the vertical velocity by seven tenths again, so
/// `n` passes yield the `n`-fold damped velocity.
pub proof fn lemma_damping_compounds(b: Bunny, hw: int, hh: int, n: nat)
    requires
        bunny_in_range(b),
        0 <= hh <= HALF_EXTENT_LIMIT,
        b.y >= -SCREEN_HALF_HEIGHT + hh,
        b.y > SCREEN_HALF_HEIGHT - UPPER_BOUND - hh,
        b.vy >= 0,
    ensures
        resolved_n(b, hw, hh, n).y == b.y,
        resolved_n(b, hw, hh, n).x == b.x,
        resolved_n(b, hw, hh, n).vy == damped_n(b.vy as int, n),
        0 <= resolved_n(b, hw, hh, n).vy <= b.vy,
    decreases n,
{
    if n > 0 {
        lemma_damping_compounds(b, hw, hh, (n - 1) as nat);
    }
}

/// Law: `n`-fold damping multiplies by at most seven tenths to the
/// `n`-th power.  Each pass rounds toward zero, so the damped velocity
/// never exceeds the exact product `v * 0.7^n` (here: cleared of
/// denominators), and it never grows or turns negative.
pub proof fn lemma_damping_at_most_seven_tenths_pow(v: int, n: nat)
    requires
        v >= 0,
    ensures
        0 <= damped_n(v, n) <= v,
        damped_n(v, n) * pow(10, n) <= v * pow(7, n),
    decreases n,
{
    if n == 0 {
        vstd::arithmetic::power::lemma_pow0(10);
        vstd::arithmetic::power::lemma_pow0(7);
    } else {
        let m = (n - 1) as nat;
        lemma_damping_at_most_seven_tenths_pow(v, m);
        let d = damped_n(v, m);
        let p10 = pow(10, m);
        let p7 = pow(7, m);
        vstd::arithmetic::power::lemma_pow_positive(10, m);
        vstd::arithmetic::power::lemma_pow_positive(7, m);
        assert(pow(10, n) == 10 * p10) by {
            vstd::arithmetic::power::lemma_pow_adds(10, 1, m);
            vstd::arithmetic::power::lemma_pow1(10);
        }
        assert(pow(7, n) == 7 * p7) by {
            vstd::arithmetic::power::lemma_pow_adds(7, 1, m);
            vstd::arithmetic::power::lemma_pow1(7);
        }
        if d > 0 {
            let q = d * 7 / 10;
            assert(damped_n(v, n) == q);
            vstd::arithmetic::div_mod::lemma_fundamental_div_mod(d * 7, 10);
            assert(10 * q <= d * 7);
            assert(q <= d);
            assert(q >= 0);
            assert(q * (10 * p10) == (q * 10) * p10) by {
                vstd::arithmetic::mul::lemma_mul_is_associative(q, 10, p10);
            }
            assert((q * 10) * p10 <= (d * 7) * p10) by {
                vstd::arithmetic::mul::lemma_mul_inequality(q * 10, d * 7, p10);
            }
            assert((d * 7) * p10 == (d * p10) * 7) by {
                vstd::arithmetic::mul::lemma_mul_is_associative(d, 7, p10);
                vstd::arithmetic::mul::lemma_mul_is_associative(d, p10, 7);
            }
            assert((d * p10) * 7 <= (v * p7) * 7) by {
                vstd::arithmetic::mul::lemma_mul_inequality(d * p10, v * p7, 7);
            }
            assert((v * p7) * 7 == v * (7 * p7)) by {
                vstd::arithmetic::mul::lemma_mul_is_associative(v, p7, 7);
                vstd::arithmetic::mul::lemma_mul_is_associative(v, 7, p7);
            }
            assert(q * (10 * p10) <= v * (7 * p7));
        } else {
            assert(damped_n(v, n) == 0);
            vstd::arithmetic::mul::lemma_mul_nonnegative(v, 7 * p7);
        }
    }
}

} // verus!
