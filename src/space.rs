use vstd::prelude::*;

verus! {

/// Fixed-point subdivisions of one world unit.
pub const FIXED_ONE: i64 = 65536;

/// Distance between the centres of neighbouring grid cells, in world units.
pub const GRID_SPACING: i64 = 12;

/// Distance between neighbouring cell centres in fixed-point units.
pub const CELL_SPAN: i64 = 786432;

/// A point in the world, each coordinate in fixed point (`FIXED_ONE` per unit).
/// `y` is the altitude; `x` and `z` span the ground plane.
#[derive(Clone, Copy, Debug, PartialEq, Eq, Structural)]
pub struct Position {
    pub x: i64,
    pub y: i64,
    pub z: i64,
}

/// `v` pinned into the range of `i32`.
pub open spec fn clamp_i32(v: int) -> i32 {
    if v < i32::MIN {
        i32::MIN
    } else if v > i32::MAX {
        i32::MAX
    } else {
        v as i32
    }
}

/// `v / d` rounded to the nearest integer, halves away from zero (`d > 0`).
pub open spec fn round_div(v: int, d: int) -> int {
    if v >= 0 {
        (2 * v + d) / (2 * d)
    } else {
        -((d - 2 * v) / (2 * d))
    }
}

/// Index of the cell whose centre is nearest to coordinate `v`.
pub open spec fn nearest_cell_spec(v: i64) -> i32 {
    clamp_i32(round_div(v as int, CELL_SPAN as int))
}

/// Index of the cell span `[k * CELL_SPAN, (k + 1) * CELL_SPAN)` that holds `v`.
pub open spec fn containing_cell_spec(v: i64) -> i32 {
    clamp_i32(v as int / (CELL_SPAN as int))
}

fn clamp_to_i32(v: i128) -> (r: i32)
    ensures
        r == clamp_i32(v as int),
{
    if v < i32::MIN as i128 {
        i32::MIN
    } else if v > i32::MAX as i128 {
        i32::MAX
    } else {
        v as i32
    }
}

/// The cell whose centre is nearest to coordinate `v` (used for collision, so
/// that a building's volume is centred on its cell).
pub fn nearest_cell(v: i64) -> (r: i32)
    ensures
        r == nearest_cell_spec(v),
{
    let d: i128 = CELL_SPAN as i128;
    let w: i128 = v as i128;
    let q: i128 = if w >= 0 {
        (2 * w + d) / (2 * d)
    } else {
        -((d - 2 * w) / (2 * d))
    };
    clamp_to_i32(q)
}

/// The cell that holds coordinate `v`, rounding down (used to centre the view
/// window).
pub fn containing_cell(v: i64) -> (r: i32)
    ensures
        r == containing_cell_spec(v),
{
    let d: i128 = CELL_SPAN as i128;
    let w: i128 = v as i128;
    if w >= 0 {
        clamp_to_i32(w / d)
    } else {
        let q: i128 = (d - 1 - w) / d;
        proof {
            let a = -(w as int);
            let dd = d as int;
            let qq = q as int;
            vstd::arithmetic::div_mod::lemma_fundamental_div_mod(dd - 1 + a, dd);
            let rr = (dd - 1 + a) % dd;
            assert(dd - 1 + a == dd * qq + rr);
            assert(0 <= rr < dd);
            let k = -qq;
            assert(k * dd == -(qq * dd)) by (nonlinear_arith)
                requires
                    k == -qq,
            ;
            assert(qq * dd == dd * qq) by (nonlinear_arith);
            let rem = w as int - k * dd;
            assert(0 <= rem < dd);
            vstd::arithmetic::div_mod::lemma_fundamental_div_mod_converse(w as int, dd, k, rem);
        }
        clamp_to_i32(-q)
    }
}

} // verus!
