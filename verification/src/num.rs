//! Fixed-point scales and saturating arithmetic on `i64`.

use vstd::prelude::*;

verus! {

/// Fraction units per 1.0: directions, speeds, radii and alpha channels are
/// counted in thousandths.
pub const UNIT: i64 = 1_000;

/// Position units per pixel. `SUBPIXEL == UNIT * UNIT`, so a direction
/// component (in `UNIT`s) times a speed (in `UNIT`s) is a displacement in
/// `SUBPIXEL`s, with no rounding.
pub const SUBPIXEL: i64 = 1_000_000;

/// The mathematical value `x` clamped to the range of `i64`.
pub open spec fn sat64(x: int) -> int {
    if x > i64::MAX as int {
        i64::MAX as int
    } else if x < i64::MIN as int {
        i64::MIN as int
    } else {
        x
    }
}

/// `pos + dir * speed`, saturating at the range of `i64`.
pub fn sat_add_mul(pos: i64, dir: i64, speed: i64) -> (r: i64)
    ensures
        r as int == sat64(pos + dir * speed),
{
    proof {
        assert((dir as int) * (speed as int) <= 0x4000_0000_0000_0000_0000_0000_0000_0000
            && (dir as int) * (speed as int) >= -0x4000_0000_0000_0000_0000_0000_0000_0000)
            by (nonlinear_arith)
            requires
                -0x8000_0000_0000_0000 <= dir as int <= 0x7fff_ffff_ffff_ffff,
                -0x8000_0000_0000_0000 <= speed as int <= 0x7fff_ffff_ffff_ffff,
        ;
    }
    let prod: i128 = (dir as i128) * (speed as i128);
    let sum: i128 = (pos as i128) + prod;
    if sum > i64::MAX as i128 {
        i64::MAX
    } else if sum < i64::MIN as i128 {
        i64::MIN
    } else {
        sum as i64
    }
}

/// `-d`, saturating at the range of `i64`.
pub open spec fn sat_neg(d: int) -> int {
    sat64(-d)
}

/// Negation, saturating at the range of `i64` (the negation of `i64::MIN`
/// becomes `i64::MAX`).
pub fn sat_neg_i64(d: i64) -> (r: i64)
    ensures
        r as int == sat_neg(d as int),
{
    if d == i64::MIN {
        i64::MAX
    } else {
        -d
    }
}

} // verus!
