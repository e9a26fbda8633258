//! Adaptive iteration budget: `100 + floor(8 * |log10(zoom)|)` escape-time
//! iterations, growing logarithmically with zoom depth in either direction.
//!
//! The zoom factor is a fixed-point value `z` (in units of `SCALE`), so the
//! depth `floor(8 * |log10(z / SCALE)|)` is characterized exactly by integer
//! comparisons: `floor(8 * log10(x))` is the number of eighth-of-a-decade
//! thresholds `10^(j/8)` that `x` has reached.  Each threshold comparison
//! `z >= SCALE * 10^(j/8)` is decided exactly against a precomputed integer
//! bound, because `z` times a power of ten is an integer while the threshold
//! is irrational: `UP_EIGHTH_*` is `ceil(10^11 * 10^(r/8))` and
//! `DOWN_EIGHTH_*` is `floor(10^6 * 10^(-r/8))`, so
//! `z * 10^(5-d) >= UP_EIGHTH_r` decides `z >= 10^(6+d) * 10^(r/8)` and
//! `z * 10^d <= DOWN_EIGHTH_r` decides `z <= 10^6 * 10^(-(8d+r)/8)`.

use vstd::prelude::*;
use crate::SCALE;
use crate::nav::ZOOM_MAX_UNITS;

verus! {

/// `ceil(10^11 * 10^(r/8))` for r = 0..8: the eighth-of-a-decade thresholds
/// scaled to 10^11.
pub const UP_EIGHTH_0: u64 = 100_000_000_000;

pub const UP_EIGHTH_1: u64 = 133_352_143_217;

pub const UP_EIGHTH_2: u64 = 177_827_941_004;

pub const UP_EIGHTH_3: u64 = 237_137_370_567;

pub const UP_EIGHTH_4: u64 = 316_227_766_017;

pub const UP_EIGHTH_5: u64 = 421_696_503_429;

pub const UP_EIGHTH_6: u64 = 562_341_325_191;

pub const UP_EIGHTH_7: u64 = 749_894_209_333;

/// `floor(10^6 * 10^(-r/8))` for r = 0..8: the descending eighth-of-a-decade
/// thresholds at the fixed-point scale.
pub const DOWN_EIGHTH_0: u64 = 1_000_000;

pub const DOWN_EIGHTH_1: u64 = 749_894;

pub const DOWN_EIGHTH_2: u64 = 562_341;

pub const DOWN_EIGHTH_3: u64 = 421_696;

pub const DOWN_EIGHTH_4: u64 = 316_227;

pub const DOWN_EIGHTH_5: u64 = 237_137;

pub const DOWN_EIGHTH_6: u64 = 177_827;

pub const DOWN_EIGHTH_7: u64 = 133_352;

/// Ten to the power `e`.
pub open spec fn pow10(e: nat) -> int
    decreases e,
{
    if e == 0 {
        1
    } else {
        10 * pow10((e - 1) as nat)
    }
}

/// The ascending threshold for the eighth `r` of a decade.
pub open spec fn up_bound(r: int) -> int {
    if r == 0 {
        UP_EIGHTH_0 as int
    } else if r == 1 {
        UP_EIGHTH_1 as int
    } else if r == 2 {
        UP_EIGHTH_2 as int
    } else if r == 3 {
        UP_EIGHTH_3 as int
    } else if r == 4 {
        UP_EIGHTH_4 as int
    } else if r == 5 {
        UP_EIGHTH_5 as int
    } else if r == 6 {
        UP_EIGHTH_6 as int
    } else {
        UP_EIGHTH_7 as int
    }
}

/// The descending threshold for the eighth `r` of a decade.
pub open spec fn down_bound(r: int) -> int {
    if r == 0 {
        DOWN_EIGHTH_0 as int
    } else if r == 1 {
        DOWN_EIGHTH_1 as int
    } else if r == 2 {
        DOWN_EIGHTH_2 as int
    } else if r == 3 {
        DOWN_EIGHTH_3 as int
    } else if r == 4 {
        DOWN_EIGHTH_4 as int
    } else if r == 5 {
        DOWN_EIGHTH_5 as int
    } else if r == 6 {
        DOWN_EIGHTH_6 as int
    } else {
        DOWN_EIGHTH_7 as int
    }
}

/// Whether a zoom factor `z` at or above 1.0 has reached the `j`-th
/// eighth-of-a-decade threshold: `z >= SCALE * 10^(j/8)`.
pub open spec fn up_ok(z: int, j: int) -> bool {
    z * pow10((5 - j / 8) as nat) >= up_bound(j % 8)
}

/// Whether a zoom factor `z` below 1.0 has fallen to the `j`-th descending
/// eighth-of-a-decade threshold: `z <= SCALE * 10^(-j/8)`.
pub open spec fn down_ok(z: int, j: int) -> bool {
    z * pow10((j / 8) as nat) <= down_bound(j % 8)
}

/// How many of the first `j` ascending thresholds `z` has reached.
pub open spec fn up_count(z: int, j: int) -> int
    decreases j,
{
    if j <= 0 {
        0
    } else {
        up_count(z, j - 1) + if up_ok(z, j) {
            1int
        } else {
            0int
        }
    }
}

/// How many of the first `j` descending thresholds `z` has fallen to.
pub open spec fn down_count(z: int, j: int) -> int
    decreases j,
{
    if j <= 0 {
        0
    } else {
        down_count(z, j - 1) + if down_ok(z, j) {
            1int
        } else {
            0int
        }
    }
}

/// `floor(8 * |log10(z / SCALE)|)` for a clamped zoom factor `z`: 24
/// ascending thresholds cover zoom factors up to 1000.0, 48 descending ones
/// cover factors down to one fixed-point unit.
pub open spec fn iter_depth(z: int) -> int {
    if z >= SCALE {
        up_count(z, 24)
    } else {
        down_count(z, 48)
    }
}

/// The iteration budget for a clamped zoom factor `z`:
/// `100 + floor(8 * |log10(z / SCALE)|)`.
pub open spec fn max_iterations_spec(z: int) -> int {
    100 + iter_depth(z)
}

/// Ten to the power `e`, for the exponents the threshold scan needs.
fn pow10_exec(e: u64) -> (p: u64)
    requires
        e <= 6,
    ensures
        p == pow10(e as nat),
        p <= 1_000_000,
{
    proof {
        reveal_with_fuel(pow10, 8);
    }
    if e == 0 {
        1
    } else if e == 1 {
        10
    } else if e == 2 {
        100
    } else if e == 3 {
        1_000
    } else if e == 4 {
        10_000
    } else if e == 5 {
        100_000
    } else {
        1_000_000
    }
}

/// The ascending threshold for the eighth `r` of a decade.
fn up_bound_exec(r: u64) -> (b: u64)
    requires
        r < 8,
    ensures
        b == up_bound(r as int),
{
    if r == 0 {
        UP_EIGHTH_0
    } else if r == 1 {
        UP_EIGHTH_1
    } else if r == 2 {
        UP_EIGHTH_2
    } else if r == 3 {
        UP_EIGHTH_3
    } else if r == 4 {
        UP_EIGHTH_4
    } else if r == 5 {
        UP_EIGHTH_5
    } else if r == 6 {
        UP_EIGHTH_6
    } else {
        UP_EIGHTH_7
    }
}

/// The descending threshold for the eighth `r` of a decade.
fn down_bound_exec(r: u64) -> (b: u64)
    requires
        r < 8,
    ensures
        b == down_bound(r as int),
{
    if r == 0 {
        DOWN_EIGHTH_0
    } else if r == 1 {
        DOWN_EIGHTH_1
    } else if r == 2 {
        DOWN_EIGHTH_2
    } else if r == 3 {
        DOWN_EIGHTH_3
    } else if r == 4 {
        DOWN_EIGHTH_4
    } else if r == 5 {
        DOWN_EIGHTH_5
    } else if r == 6 {
        DOWN_EIGHTH_6
    } else {
        DOWN_EIGHTH_7
    }
}

/// The iteration budget for the current zoom factor, between 100 (zoom 1.0)
/// and 148 (the deepest representable zoom-out).
pub fn iteration_budget(zoom: u64) -> (r: i32)
    requires
        1 <= zoom <= ZOOM_MAX_UNITS,
    ensures
        r == max_iterations_spec(zoom as int),
        100 <= r <= 148,
{
    let mut depth: i32 = 0;
    if zoom >= SCALE {
        let mut j: u64 = 1;
        while j <= 24
            invariant
                1 <= j <= 25,
                SCALE <= zoom <= ZOOM_MAX_UNITS,
                depth == up_count(zoom as int, j as int - 1),
                0 <= depth <= j - 1,
            decreases 25 - j,
        {
            let d: u64 = j / 8;
            let r: u64 = j % 8;
            let p: u64 = pow10_exec(5 - d);
            proof {
                assert(p <= 100_000) by {
                    reveal_with_fuel(pow10, 8);
                };
                assert(zoom * p <= 100_000_000_000_000) by (nonlinear_arith)
                    requires
                        zoom <= 1_000_000_000,
                        0 <= p <= 100_000,
                ;
            }
            let scaled: u64 = zoom * p;
            if scaled >= up_bound_exec(r) {
                depth = depth + 1;
            }
            j = j + 1;
        }
    } else {
        let mut j: u64 = 1;
        while j <= 48
            invariant
                1 <= j <= 49,
                1 <= zoom < SCALE,
                depth == down_count(zoom as int, j as int - 1),
                0 <= depth <= j - 1,
            decreases 49 - j,
        {
            let d: u64 = j / 8;
            let r: u64 = j % 8;
            let p: u64 = pow10_exec(d);
            proof {
                assert(zoom * p <= 1_000_000_000_000) by (nonlinear_arith)
                    requires
                        zoom <= 1_000_000,
                        0 <= p <= 1_000_000,
                ;
            }
            let scaled: u64 = zoom * p;
            if scaled <= down_bound_exec(r) {
                depth = depth + 1;
            }
            j = j + 1;
        }
    }
    100 + depth
}

} // verus!
