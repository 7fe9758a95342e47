//! The motion-and-pace generator: one `step` validates the configured
//! bounds, samples a displacement constrained to a circle of sampled
//! radius, and samples a delay. The caller performs the pointer move and
//! the sleep between steps.

use crate::config::{Config, StepError, config_error};
use crate::rng::{sample_bool, sample_i32, sample_u64};
use vstd::prelude::*;

verus! {

/// The magnitude of an integer.
pub open spec fn iabs(x: int) -> int {
    if x < 0 {
        -x
    } else {
        x
    }
}

/// `r` is the square root of `n`, truncated to an integer.
pub open spec fn is_floor_sqrt(n: int, r: int) -> bool {
    r * r <= n < (r + 1) * (r + 1)
}

/// The square root of `n`, truncated toward zero.
fn isqrt(n: u64) -> (r: u64)
    requires
        n < 0x1_0000_0000,
    ensures
        is_floor_sqrt(n as int, r as int),
{
    let mut r: u64 = 0;
    loop
        invariant
            n < 0x1_0000_0000,
            r * r <= n,
            r < 0x1_0000,
        decreases n - r * r,
    {
        let next = r + 1;
        proof {
            assert(next * next < 0x2_0000_0000) by (nonlinear_arith)
                requires
                    next <= 0x1_0000,
            ;
        }
        if next * next <= n {
            proof {
                assert(next < 0x1_0000) by (nonlinear_arith)
                    requires
                        next * next < 0x1_0000_0000,
                ;
                assert(r * r < next * next) by (nonlinear_arith)
                    requires
                        next == r + 1,
                        r < 0x1_0000,
                ;
            }
            r = next;
        } else {
            return r;
        }
    }
}

/// The largest distance bound the sampler accepts: the largest `i32` whose
/// square still fits in an `i32`, so squaring a sampled distance cannot
/// overflow.
pub const MAX_SAMPLED_DISTANCE: i32 = 46340;

/// What a sampled displacement satisfies under configuration `c`: the radius
/// `d` lies in the configured range, `dx` is bounded by it, and the magnitude
/// of `dy` is exactly the truncated square root of `d*d - dx*dx` (the
/// deliberate truncating derivation; the point lands approximately on the
/// circle of radius `d`, not uniformly inside the disc).
pub open spec fn displacement_ok(c: Config, dx: int, dy: int, d: int) -> bool {
    &&& c.min_distance <= d <= c.max_distance
    &&& iabs(dx) <= d
    &&& is_floor_sqrt(d * d - dx * dx, iabs(dy))
}

/// Circle law: a displacement whose `dy` magnitude is the truncated square
/// root of `d*d - dx*dx` has `dx*dx + dy*dy` within integer-truncation
/// tolerance of `d*d` — equal to it when the square root is exact, and
/// otherwise short of it by less than the truncation step.
pub proof fn lemma_circle_property(dx: int, dy: int, d: int)
    requires
        is_floor_sqrt(d * d - dx * dx, iabs(dy)),
    ensures
        dx * dx + dy * dy <= d * d,
        d * d < dx * dx + (iabs(dy) + 1) * (iabs(dy) + 1),
{
    assert(dy * dy == iabs(dy) * iabs(dy)) by (nonlinear_arith);
}

/// Zero-radius law: a displacement of radius zero is exactly `(0, 0)`.
pub proof fn lemma_zero_radius(dx: int, dy: int, d: int)
    requires
        d == 0,
        0 <= iabs(dx) <= d,
        is_floor_sqrt(d * d - dx * dx, iabs(dy)),
    ensures
        dx == 0,
        dy == 0,
{
    assert(iabs(dy) * iabs(dy) <= 0 && iabs(dy) >= 0 ==> iabs(dy) == 0) by (nonlinear_arith);
}

/// Samples one displacement: a radius `distance` uniform in the configured
/// range, an `x` magnitude uniform in `[0, distance]`, a sign for each axis,
/// and a `y` magnitude derived by truncating the square root of
/// `distance*distance - x*x`.
///
/// Fails exactly when `min_distance > max_distance`, before drawing anything.
pub fn get_coordinate_deltas(c: &Config, rng: &mut rand::rngs::ThreadRng) -> (r: Result<
    (i32, i32, i32),
    StepError,
>)
    requires
        c.distance_bounds_valid() ==> 0 <= c.min_distance && c.max_distance
            <= MAX_SAMPLED_DISTANCE,
    ensures
        r is Err <==> !c.distance_bounds_valid(),
        r matches Err(e) ==> e == StepError::InvalidDistanceBounds,
        r matches Ok((dx, dy, d)) ==> displacement_ok(*c, dx as int, dy as int, d as int),
{
    if c.min_distance > c.max_distance {
        return Err(StepError::InvalidDistanceBounds);
    }
    let distance = sample_i32(rng, c.min_distance, c.max_distance);
    let x_absolute = sample_i32(rng, 0, distance);
    proof {
        assert(distance * distance <= 46340 * 46340) by (nonlinear_arith)
            requires
                0 <= distance <= 46340,
        ;
        assert(x_absolute * x_absolute <= distance * distance) by (nonlinear_arith)
            requires
                0 <= x_absolute <= distance,
        ;
    }
    let y_squared = distance * distance - x_absolute * x_absolute;
    let y_root = isqrt(y_squared as u64);
    proof {
        assert(y_root <= 46340) by (nonlinear_arith)
            requires
                y_root * y_root <= 46340 * 46340,
        ;
    }
    let y_absolute = y_root as i32;
    let x_delta = if sample_bool(rng) {
        x_absolute
    } else {
        -x_absolute
    };
    let y_delta = if sample_bool(rng) {
        y_absolute
    } else {
        -y_absolute
    };
    proof {
        assert(x_delta * x_delta == x_absolute * x_absolute) by (nonlinear_arith)
            requires
                x_delta == x_absolute || x_delta == -(x_absolute as int),
        ;
        assert(iabs(x_delta as int) == x_absolute);
        assert(iabs(y_delta as int) == y_absolute);
    }
    Ok((x_delta, y_delta, distance))
}

/// Everything one step decided: the displacement to emit, the radius it was
/// sampled on, and how long to pause afterwards. The caller performs the
/// pointer move and the sleep.
#[derive(Clone, Copy, Debug, PartialEq, Eq, Structural)]
pub struct StepPlan {
    pub dx: i32,
    pub dy: i32,
    pub distance: i32,
    pub sleep_seconds: u64,
}

/// One step of the generator: checks the delay bounds, then samples a
/// displacement (which checks the distance bounds), then samples a delay
/// uniform in the configured range.
///
/// Fails exactly when the configuration is invalid, with the error
/// `config_error` names; the delay check fires first, before any displacement
/// is drawn. A zero distance range always yields the displacement `(0, 0)`,
/// and a collapsed delay range always yields that exact delay, whatever the
/// random source returns.
pub fn step(c: &Config, rng: &mut rand::rngs::ThreadRng) -> (r: Result<StepPlan, StepError>)
    requires
        c.delay_bounds_valid() && c.distance_bounds_valid() ==> 0 <= c.min_distance
            && c.max_distance <= MAX_SAMPLED_DISTANCE,
    ensures
        r is Err <==> config_error(*c) is Some,
        r matches Err(e) ==> config_error(*c) == Some(e),
        r matches Ok(p) ==> displacement_ok(*c, p.dx as int, p.dy as int, p.distance as int),
        r matches Ok(p) ==> c.min_delay <= p.sleep_seconds <= c.max_delay,
        r matches Ok(p) ==> (c.min_distance == 0 && c.max_distance == 0 ==> p.dx == 0 && p.dy == 0
            && p.distance == 0),
        r matches Ok(p) ==> (c.min_delay == c.max_delay ==> p.sleep_seconds == c.min_delay),
{
    if c.min_delay > c.max_delay {
        return Err(StepError::InvalidDelayBounds);
    }
    let (dx, dy, distance) = match get_coordinate_deltas(c, rng) {
        Ok(deltas) => deltas,
        Err(e) => {
            return Err(e);
        },
    };
    let sleep_seconds = sample_u64(rng, c.min_delay, c.max_delay);
    proof {
        if c.min_distance == 0 && c.max_distance == 0 {
            lemma_zero_radius(dx as int, dy as int, distance as int);
        }
    }
    Ok(StepPlan { dx, dy, distance, sleep_seconds })
}

} // verus!
