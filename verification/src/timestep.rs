//! Fixed-step integer arithmetic for the frame pipeline.
//!
//! Velocities are measured in units per second and a frame's elapsed time in
//! milliseconds, so one frame displaces a coordinate by
//! `velocity * dt / 1000`, truncated toward zero.  Results that would leave
//! the `i64` range saturate at its bounds, which keeps every system total:
//! no input sequence can make the pipeline overflow.

use vstd::prelude::*;

verus! {

/// Frame deltas are measured in milliseconds.
pub const MILLIS_PER_SECOND: i64 = 1000;

/// `x` saturated into the `i64` range.
pub open spec fn sat64(x: int) -> int {
    if x > i64::MAX as int {
        i64::MAX as int
    } else if x < i64::MIN as int {
        i64::MIN as int
    } else {
        x
    }
}

/// Division by the millisecond scale, truncating toward zero exactly as the
/// executable unsigned division of the step helpers does.
pub open spec fn per_second(x: int) -> int {
    if x >= 0 {
        x / (MILLIS_PER_SECOND as int)
    } else {
        -((-x) / (MILLIS_PER_SECOND as int))
    }
}

/// The displacement of a velocity (units/second) over `dt` milliseconds.
pub open spec fn scaled(vel: int, dt: int) -> int {
    per_second(vel * dt)
}

/// A coordinate advanced by a velocity over one frame, saturating.
pub open spec fn advanced(pos: i64, vel: i64, dt: i64) -> i64 {
    sat64(pos + scaled(vel as int, dt as int)) as i64
}

/// A coordinate moved against a velocity over one frame, saturating.
pub open spec fn retreated(pos: i64, vel: i64, dt: i64) -> i64 {
    sat64(pos - scaled(vel as int, dt as int)) as i64
}

/// Saturates a wide intermediate value into the `i64` range.
fn clamp_wide(x: i128) -> (r: i64)
    ensures
        r as int == sat64(x as int),
{
    if x > i64::MAX as i128 {
        i64::MAX
    } else if x < i64::MIN as i128 {
        i64::MIN
    } else {
        x as i64
    }
}

/// The exact displacement `scaled(vel, dt)`, computed in 128-bit arithmetic.
/// The magnitude bound lets callers add the result to a coordinate without
/// overflowing `i128`.
fn frame_delta(vel: i64, dt: i64) -> (d: i128)
    requires
        0 <= dt,
    ensures
        d as int == scaled(vel as int, dt as int),
        -0x40000000000000000000000000000000i128 <= d <= 0x40000000000000000000000000000000i128,
{
    let neg: bool = vel < 0;
    let mag: u128 = if neg {
        (-(vel as i128)) as u128
    } else {
        vel as u128
    };
    let dtu: u128 = dt as u128;
    proof {
        assert(mag <= 0x8000000000000000u128);
        assert(dtu <= 0x7fffffffffffffffu128);
        assert(mag * dtu <= 0x40000000000000000000000000000000u128) by (nonlinear_arith)
            requires
                mag <= 0x8000000000000000u128,
                dtu <= 0x7fffffffffffffffu128,
        ;
    }
    let prod: u128 = mag * dtu;
    let q: u128 = prod / 1000;
    proof {
        assert(q <= prod) by (nonlinear_arith)
            requires
                q == prod / 1000,
        ;
        if neg {
            assert(mag as int == -(vel as int));
            assert(mag as int * dtu as int == -(vel as int * dt as int)) by (nonlinear_arith)
                requires
                    mag as int == -(vel as int),
                    dtu as int == dt as int,
            ;
        } else {
            assert(mag as int * dtu as int == vel as int * dt as int) by (nonlinear_arith)
                requires
                    mag as int == vel as int,
                    dtu as int == dt as int,
            ;
        }
    }
    if neg {
        -(q as i128)
    } else {
        q as i128
    }
}

/// Returns `pos` advanced by `vel` units/second over `dt` milliseconds,
/// saturating at the `i64` bounds.
pub fn advance(pos: i64, vel: i64, dt: i64) -> (r: i64)
    requires
        0 <= dt,
    ensures
        r == advanced(pos, vel, dt),
{
    let d: i128 = frame_delta(vel, dt);
    clamp_wide(pos as i128 + d)
}

/// Returns `pos` moved against `vel` units/second over `dt` milliseconds,
/// saturating at the `i64` bounds.
pub fn retreat(pos: i64, vel: i64, dt: i64) -> (r: i64)
    requires
        0 <= dt,
    ensures
        r == retreated(pos, vel, dt),
{
    let d: i128 = frame_delta(vel, dt);
    clamp_wide(pos as i128 - d)
}

} // verus!
