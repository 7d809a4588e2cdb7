use vstd::prelude::*;

use crate::space::{nearest_cell, nearest_cell_spec, Position, CELL_SPAN, FIXED_ONE};

verus! {

/// Multiplier applied to the x coordinate by the spatial hash.
pub const HASH_MUL_X: u64 = 374761393;

/// Multiplier applied to the z coordinate by the spatial hash.
pub const HASH_MUL_Z: u64 = 668265263;

/// Multiplier of the avalanche round of the spatial hash.
pub const HASH_MUL_MIX: u64 = 1274126177;

/// The spatial hash of a grid cell: both coordinates are sign-extended to 64
/// bits, combined with two odd multipliers, then mixed by one multiply-xor-shift
/// round, all in wrapping 64-bit arithmetic.
pub open spec fn hash_spec(x: i32, z: i32) -> u64 {
    let a = vstd::wrapping::u64_specs::wrapping_mul(x as u64, HASH_MUL_X);
    let b = vstd::wrapping::u64_specs::wrapping_mul(z as u64, HASH_MUL_Z);
    let h = vstd::wrapping::u64_specs::wrapping_add(a, b);
    let m = vstd::wrapping::u64_specs::wrapping_mul(h ^ (h >> 13u64), HASH_MUL_MIX);
    m ^ (m >> 16u64)
}

/// Deterministic hash of a grid cell; the single source of variation in the city.
pub fn hash(x: i32, z: i32) -> (r: u64)
    ensures
        r == hash_spec(x, z),
{
    let mut h = (x as u64).wrapping_mul(HASH_MUL_X);
    h = h.wrapping_add((z as u64).wrapping_mul(HASH_MUL_Z));
    h = (h ^ (h >> 13)).wrapping_mul(HASH_MUL_MIX);
    h ^ (h >> 16)
}

/// Side of a city block, in cells, road included.
pub const BLOCK_SIZE: i32 = 6;

/// Width of the road strip on the low side of each block, in cells.
pub const ROAD_WIDTH: i32 = 1;

/// Percentage of non-road cells left as vacant lots.
pub const VACANT_PERCENT: u64 = 20;

/// Lowest building height, in world units.
pub const MIN_HEIGHT: u32 = 10;

/// Number of distinct building heights.
pub const HEIGHT_LEVELS: u64 = 45;

/// Denominator of a colour channel's intensity: a channel byte `c` stands for
/// the intensity `(255 + c) / 510`, that is `0.5 + 0.5 * c / 255`.
pub const SHADE_DENOMINATOR: u32 = 510;

/// A colour as three channel bytes; each byte is read through `shade_numerator`.
#[derive(Clone, Copy, Debug, PartialEq, Eq, Structural)]
pub struct Rgb {
    pub r: u8,
    pub g: u8,
    pub b: u8,
}

/// What stands on a grid cell that holds a building.
#[derive(Clone, Copy, Debug, PartialEq, Eq, Structural)]
pub struct Building {
    /// Height above the ground, in world units.
    pub height: u32,
    /// Base colour.
    pub color: Rgb,
}

/// Numerator of a channel's intensity over `SHADE_DENOMINATOR`.
pub open spec fn shade_numerator(c: u8) -> int {
    255 + c
}

/// A cell is road when either coordinate falls on the first column of its
/// block, counted with Euclidean (never negative) remainders.
pub open spec fn is_road(x: int, z: int) -> bool {
    x % (BLOCK_SIZE as int) < ROAD_WIDTH || z % (BLOCK_SIZE as int) < ROAD_WIDTH
}

/// The building, if any, on cell `(x, z)`.
#[verifier::opaque]
pub open spec fn building_spec(x: i32, z: i32) -> Option<Building> {
    let h = hash_spec(x, z);
    if is_road(x as int, z as int) {
        None
    } else if h % 100 < VACANT_PERCENT {
        None
    } else {
        Some(Building {
            height: (h % HEIGHT_LEVELS + MIN_HEIGHT) as u32,
            color: Rgb {
                r: (h % 256) as u8,
                g: (h / 256 % 256) as u8,
                b: (h / 65536 % 256) as u8,
            },
        })
    }
}

/// Roads are laid out symmetrically about the origin: mirroring a cell in
/// either axis, or in both, keeps it a road or keeps it off the roads.
pub proof fn lemma_roads_mirror(x: int, z: int)
    ensures
        is_road(x, z) == is_road(-x, z),
        is_road(x, z) == is_road(x, -z),
        is_road(x, z) == is_road(-x, -z),
{
    assert((x % 6 == 0) == ((-x) % 6 == 0)) by {
        vstd::arithmetic::div_mod::lemma_fundamental_div_mod(x, 6);
        vstd::arithmetic::div_mod::lemma_fundamental_div_mod(-x, 6);
        if x % 6 == 0 {
            vstd::arithmetic::div_mod::lemma_fundamental_div_mod_converse(-x, 6, -(x / 6), 0);
        }
        if (-x) % 6 == 0 {
            vstd::arithmetic::div_mod::lemma_fundamental_div_mod_converse(x, 6, -((-x) / 6), 0);
        }
    }
    assert((z % 6 == 0) == ((-z) % 6 == 0)) by {
        vstd::arithmetic::div_mod::lemma_fundamental_div_mod(z, 6);
        vstd::arithmetic::div_mod::lemma_fundamental_div_mod(-z, 6);
        if z % 6 == 0 {
            vstd::arithmetic::div_mod::lemma_fundamental_div_mod_converse(-z, 6, -(z / 6), 0);
        }
        if (-z) % 6 == 0 {
            vstd::arithmetic::div_mod::lemma_fundamental_div_mod_converse(z, 6, -((-z) / 6), 0);
        }
    }
}

/// No building stands on a cell whose `x` or `z` is a multiple of the block
/// size (Euclidean remainder zero).
pub proof fn lemma_grid_lines_are_roads(x: i32, z: i32)
    requires
        x as int % (BLOCK_SIZE as int) == 0 || z as int % (BLOCK_SIZE as int) == 0,
    ensures
        building_spec(x, z) is None,
{
    reveal(building_spec);
}

/// Every building is between 10 and 54 units tall, and each of its colour
/// channels has an intensity between one half and one.
pub proof fn lemma_building_bounds(x: i32, z: i32)
    ensures
        building_spec(x, z) matches Some(b) ==> {
            &&& MIN_HEIGHT <= b.height <= 54
            &&& 2 * shade_numerator(b.color.r) >= SHADE_DENOMINATOR
            &&& shade_numerator(b.color.r) <= SHADE_DENOMINATOR
            &&& 2 * shade_numerator(b.color.g) >= SHADE_DENOMINATOR
            &&& shade_numerator(b.color.g) <= SHADE_DENOMINATOR
            &&& 2 * shade_numerator(b.color.b) >= SHADE_DENOMINATOR
            &&& shade_numerator(b.color.b) <= SHADE_DENOMINATOR
        },
{
    reveal(building_spec);
}

/// Euclidean remainder of `v` by the block size.
fn block_offset(v: i32) -> (r: i32)
    ensures
        r as int == v as int % (BLOCK_SIZE as int),
{
    // 2147483652 is a multiple of 6 that lifts every i32 to a positive value.
    let lifted: u64 = (v as i64 + 2147483652i64) as u64;
    proof {
        vstd::arithmetic::div_mod::lemma_add_mod_noop(v as int, 2147483652, 6);
    }
    (lifted % 6) as i32
}

/// The building on grid cell `(x, z)`, or `None` for a road or a vacant lot.
pub fn get_building_info(x: i32, z: i32) -> (r: Option<Building>)
    ensures
        r == building_spec(x, z),
        is_road(x as int, z as int) ==> r is None,
        r matches Some(b) ==> MIN_HEIGHT <= b.height <= 54,
{
    reveal(building_spec);
    let mx = block_offset(x);
    let mz = block_offset(z);
    if mx < ROAD_WIDTH || mz < ROAD_WIDTH {
        return None;
    }
    let h = hash(x, z);
    if h % 100 < VACANT_PERCENT {
        return None;
    }
    let height = (h % HEIGHT_LEVELS) as u32 + MIN_HEIGHT;
    let r = (h & 0xff) as u8;
    let g = ((h >> 8) & 0xff) as u8;
    let b = ((h >> 16) & 0xff) as u8;
    proof {
        assert(h & 0xff == h % 256) by (bit_vector);
        assert((h >> 8) & 0xff == (h / 256) % 256) by (bit_vector);
        assert((h >> 16) & 0xff == (h / 65536) % 256) by (bit_vector);
    }
    Some(Building { height, color: Rgb { r, g, b } })
}

/// Footprint side of every building, in world units.
pub const BUILDING_WIDTH: i64 = 5;

/// Altitude of the ground plane, in world units.
pub const GROUND_LEVEL: i64 = -10;

/// Height that no building reaches, in world units (a shading reference).
pub const MAX_BUILDING_HEIGHT: i64 = 60;

/// Whether coordinate `v` lies strictly inside the footprint of a building
/// centred on cell `cell`.
pub open spec fn within_footprint(v: i64, cell: i32) -> bool {
    let off = v as int - cell as int * CELL_SPAN as int;
    let dist = if off < 0 { -off } else { off };
    2 * dist < BUILDING_WIDTH as int * FIXED_ONE as int
}

/// Whether `p` is below the crash floor (one unit above the ground).
pub open spec fn below_floor(p: Position) -> bool {
    p.y < (GROUND_LEVEL as int + 1) * FIXED_ONE as int
}

/// Whether `p` touches the ground or the building of its nearest cell.
pub open spec fn collision_spec(p: Position) -> bool {
    let cx = nearest_cell_spec(p.x);
    let cz = nearest_cell_spec(p.z);
    below_floor(p) || match building_spec(cx, cz) {
        Some(b) => within_footprint(p.x, cx) && within_footprint(p.z, cz) && p.y < (b.height
            + GROUND_LEVEL) * FIXED_ONE,
        None => false,
    }
}

fn inside_footprint(v: i64, cell: i32) -> (r: bool)
    ensures
        r == within_footprint(v, cell),
{
    assert(-0x8000_0000 * 786432 <= cell as int * 786432 <= 0x8000_0000 * 786432)
        by (nonlinear_arith)
        requires
            -0x8000_0000 <= cell <= 0x8000_0000,
    ;
    let off: i128 = v as i128 - cell as i128 * CELL_SPAN as i128;
    let dist: i128 = if off < 0 { -off } else { off };
    assert(BUILDING_WIDTH * FIXED_ONE == 327680);
    2 * dist < BUILDING_WIDTH as i128 * FIXED_ONE as i128
}

/// Whether an agent at `pos` has hit the ground or a building.
pub fn check_collision(pos: Position) -> (r: bool)
    ensures
        r == collision_spec(pos),
        below_floor(pos) ==> r,
{
    if pos.y < (GROUND_LEVEL + 1) * FIXED_ONE {
        return true;
    }
    let cx = nearest_cell(pos.x);
    let cz = nearest_cell(pos.z);
    match get_building_info(cx, cz) {
        Some(b) => {
            let top: i128 = (b.height as i128 + GROUND_LEVEL as i128) * FIXED_ONE as i128;
            inside_footprint(pos.x, cx) && inside_footprint(pos.z, cz) && (pos.y as i128) < top
        },
        None => false,
    }
}

/// Cells, in each direction, that the view window reaches from its centre.
pub const VIEW_DISTANCE: u32 = 25;

/// A building together with the cell it stands on.
#[derive(Clone, Copy, Debug, PartialEq, Eq, Structural)]
pub struct PlacedBuilding {
    pub cell_x: i32,
    pub cell_z: i32,
    pub building: Building,
}

/// Whether cell `(x, z)` lies in the square window of the given radius around
/// cell `(cx, cz)`.
pub open spec fn in_view(cx: i32, cz: i32, radius: u32, x: int, z: int) -> bool {
    cx - radius <= x <= cx + radius && cz - radius <= z <= cz + radius
}

/// Row-major order of cells: by `x`, then by `z`.
pub open spec fn cell_before(a: PlacedBuilding, b: PlacedBuilding) -> bool {
    a.cell_x < b.cell_x || (a.cell_x == b.cell_x && a.cell_z < b.cell_z)
}

/// Whether `p` names a cell of the view window and the building on it.
pub open spec fn placed_in_view(p: PlacedBuilding, cx: i32, cz: i32, radius: u32) -> bool {
    &&& in_view(cx, cz, radius, p.cell_x as int, p.cell_z as int)
    &&& building_spec(p.cell_x, p.cell_z) == Some(p.building)
}

/// Whether `r` names cell `(x, z)`.
pub open spec fn lists_cell(r: Seq<PlacedBuilding>, x: i32, z: i32) -> bool {
    exists|i: int| 0 <= i < r.len() && r[i].cell_x == x && r[i].cell_z == z
}

/// Whether `r` lists exactly the buildings of the view window around
/// `(cx, cz)`, each once, in row-major order.
pub open spec fn lists_view(r: Seq<PlacedBuilding>, cx: i32, cz: i32, radius: u32) -> bool {
    &&& forall|i: int| 0 <= i < r.len() ==> placed_in_view(#[trigger] r[i], cx, cz, radius)
    &&& forall|i: int, j: int| 0 <= i < j < r.len() ==> cell_before(#[trigger] r[i], #[trigger] r[j])
    &&& forall|x: i32, z: i32|
        in_view(cx, cz, radius, x as int, z as int) && (#[trigger] building_spec(x, z)) is Some
            ==> lists_cell(r, x, z)
}

/// Whether cell `(x, z)` comes before cell `(x0, z0)` in row-major order.
pub open spec fn cell_precedes(x: int, z: int, x0: int, z0: int) -> bool {
    x < x0 || (x == x0 && z < z0)
}

/// Whether `r` lists exactly the buildings of the view window that come before
/// cell `(x0, z0)`, in row-major order.
pub open spec fn lists_view_before(
    r: Seq<PlacedBuilding>,
    cx: i32,
    cz: i32,
    radius: u32,
    x0: int,
    z0: int,
) -> bool {
    &&& forall|i: int|
        0 <= i < r.len() ==> placed_in_view(#[trigger] r[i], cx, cz, radius) && cell_precedes(
            r[i].cell_x as int,
            r[i].cell_z as int,
            x0,
            z0,
        )
    &&& forall|i: int, j: int| 0 <= i < j < r.len() ==> cell_before(#[trigger] r[i], #[trigger] r[j])
    &&& forall|x: i32, z: i32|
        in_view(cx, cz, radius, x as int, z as int) && cell_precedes(x as int, z as int, x0, z0) && (
        #[trigger] building_spec(x, z)) is Some ==> lists_cell(r, x, z)
}

/// The lower end of the window `[c - radius, c + radius]`, cut to `i32`.
fn window_low(c: i32, radius: u32) -> (r: i64)
    ensures
        r == if c - radius < i32::MIN { i32::MIN as int } else { c - radius },
{
    if c as i64 - (radius as i64) < i32::MIN as i64 {
        i32::MIN as i64
    } else {
        c as i64 - radius as i64
    }
}

/// The upper end of the window `[c - radius, c + radius]`, cut to `i32`.
fn window_high(c: i32, radius: u32) -> (r: i64)
    ensures
        r == if c + radius > i32::MAX { i32::MAX as int } else { c + radius },
{
    if c as i64 + (radius as i64) > i32::MAX as i64 {
        i32::MAX as i64
    } else {
        c as i64 + radius as i64
    }
}

/// Every building in the square window of cells around `(center_x, center_z)`,
/// in row-major order. Cells beyond the range of `i32` are left out.
pub fn buildings_in_view(center_x: i32, center_z: i32, radius: u32) -> (r: Vec<PlacedBuilding>)
    ensures
        lists_view(r@, center_x, center_z, radius),
{
    let lo_x = window_low(center_x, radius);
    let hi_x = window_high(center_x, radius);
    let lo_z = window_low(center_z, radius);
    let hi_z = window_high(center_z, radius);
    let mut r: Vec<PlacedBuilding> = Vec::new();
    let mut x: i64 = lo_x;
    while x <= hi_x
        invariant
            lo_x <= x <= hi_x + 1,
            lo_x == (if center_x - radius < i32::MIN { i32::MIN as int } else { center_x - radius }),
            hi_x == (if center_x + radius > i32::MAX { i32::MAX as int } else { center_x + radius }),
            lo_z == (if center_z - radius < i32::MIN { i32::MIN as int } else { center_z - radius }),
            hi_z == (if center_z + radius > i32::MAX { i32::MAX as int } else { center_z + radius }),
            lists_view_before(r@, center_x, center_z, radius, x as int, lo_z as int),
        decreases hi_x + 1 - x,
    {
        let mut z: i64 = lo_z;
        while z <= hi_z
            invariant
                lo_x <= x <= hi_x,
                lo_z <= z <= hi_z + 1,
                lo_x == (if center_x - radius < i32::MIN { i32::MIN as int } else { center_x - radius }),
                hi_x == (if center_x + radius > i32::MAX { i32::MAX as int } else { center_x + radius }),
                lo_z == (if center_z - radius < i32::MIN { i32::MIN as int } else { center_z - radius }),
                hi_z == (if center_z + radius > i32::MAX { i32::MAX as int } else { center_z + radius }),
                lists_view_before(r@, center_x, center_z, radius, x as int, z as int),
            decreases hi_z + 1 - z,
        {
            let cx = x as i32;
            let cz = z as i32;
            let ghost before = r@;
            match get_building_info(cx, cz) {
                Some(b) => {
                    let p = PlacedBuilding { cell_x: cx, cell_z: cz, building: b };
                    r.push(p);
                    proof {
                        assert(r@ == before.push(p));
                        assert forall|i: int|
                            0 <= i < r@.len() implies placed_in_view(
                            #[trigger] r@[i],
                            center_x,
                            center_z,
                            radius,
                        ) && cell_precedes(r@[i].cell_x as int, r@[i].cell_z as int, x as int, z + 1)
                            by {
                            if i < before.len() {
                                assert(r@[i] == before[i]);
                            }
                        }
                        assert forall|i: int, j: int|
                            0 <= i < j < r@.len() implies cell_before(
                            #[trigger] r@[i],
                            #[trigger] r@[j],
                        ) by {
                            assert(r@[i] == before[i]);
                            if j < before.len() {
                                assert(r@[j] == before[j]);
                            }
                        }
                        assert forall|x2: i32, z2: i32|
                            in_view(center_x, center_z, radius, x2 as int, z2 as int)
                                && cell_precedes(x2 as int, z2 as int, x as int, z + 1) && (
                            #[trigger] building_spec(x2, z2)) is Some implies lists_cell(
                            r@,
                            x2,
                            z2,
                        ) by {
                            if x2 == x && z2 == z {
                                assert(r@[before.len() as int] == p);
                            } else {
                                assert(lists_cell(before, x2, z2));
                                let i = choose|i: int|
                                    0 <= i < before.len() && before[i].cell_x == x2
                                        && before[i].cell_z == z2;
                                assert(r@[i] == before[i]);
                            }
                        }
                    }
                },
                None => {
                    proof {
                        assert forall|x2: i32, z2: i32|
                            in_view(center_x, center_z, radius, x2 as int, z2 as int)
                                && cell_precedes(x2 as int, z2 as int, x as int, z + 1) && (
                            #[trigger] building_spec(x2, z2)) is Some implies lists_cell(
                            r@,
                            x2,
                            z2,
                        ) by {
                            if x2 == x && z2 == z {
                            } else {
                                assert(cell_precedes(x2 as int, z2 as int, x as int, z as int));
                            }
                        }
                    }
                },
            }
            z = z + 1;
        }
        proof {
            assert forall|x2: i32, z2: i32|
                in_view(center_x, center_z, radius, x2 as int, z2 as int) && cell_precedes(
                    x2 as int,
                    z2 as int,
                    x + 1,
                    lo_z as int,
                ) && (#[trigger] building_spec(x2, z2)) is Some implies lists_cell(r@, x2, z2) by {
                assert(cell_precedes(x2 as int, z2 as int, x as int, z as int));
            }
        }
        x = x + 1;
    }
    proof {
        assert forall|x2: i32, z2: i32|
            in_view(center_x, center_z, radius, x2 as int, z2 as int) && (#[trigger] building_spec(
                x2,
                z2,
            )) is Some implies lists_cell(r@, x2, z2) by {
            assert(cell_precedes(x2 as int, z2 as int, x as int, lo_z as int));
        }
    }
    r
}

} // verus!
