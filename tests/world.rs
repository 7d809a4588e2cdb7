use arcade_flyer::space::{containing_cell, nearest_cell, Position, FIXED_ONE};
use arcade_flyer::world::{
    buildings_in_view, check_collision, get_building_info, hash, Building, PlacedBuilding, Rgb,
};

fn at(x: f64, y: f64, z: f64) -> Position {
    let one = FIXED_ONE as f64;
    Position { x: (x * one) as i64, y: (y * one) as i64, z: (z * one) as i64 }
}

#[test]
fn hash_known_values() {
    assert_eq!(hash(0, 0), 0);
    assert_eq!(hash(1, 1), 1328905755947771528);
    assert_eq!(hash(-3, 7), 4527181536130052127);
    assert_eq!(hash(123, -456), 16265458589984022228);
    assert_eq!(hash(i32::MAX, i32::MIN), 1277548835547246461);
}

#[test]
fn hash_repeats() {
    for x in -20..20 {
        for z in -20..20 {
            assert_eq!(hash(x, z), hash(x, z));
            assert_eq!(get_building_info(x, z), get_building_info(x, z));
        }
    }
}

#[test]
fn building_exact_values() {
    assert_eq!(
        get_building_info(1, 1),
        Some(Building { height: 33, color: Rgb { r: 136, g: 38, b: 61 } })
    );
    assert_eq!(
        get_building_info(2, 1),
        Some(Building { height: 54, color: Rgb { r: 145, g: 135, b: 137 } })
    );
    assert_eq!(
        get_building_info(-1, -1),
        Some(Building { height: 47, color: Rgb { r: 137, g: 96, b: 83 } })
    );
    assert_eq!(
        get_building_info(-5, -2),
        Some(Building { height: 20, color: Rgb { r: 109, g: 5, b: 253 } })
    );
}

#[test]
fn vacant_lots_hold_nothing() {
    // Cells off the roads whose hash leaves them vacant.
    assert_eq!(get_building_info(2, 3), None);
    assert_eq!(get_building_info(2, 5), None);
    assert_eq!(get_building_info(4, 2), None);
}

#[test]
fn grid_lines_are_roads() {
    for k in -30..30 {
        for other in -30..30 {
            assert_eq!(get_building_info(6 * k, other), None);
            assert_eq!(get_building_info(other, 6 * k), None);
        }
    }
    assert_eq!(get_building_info(i32::MIN + 2, 5), None);
}

#[test]
fn roads_mirror_about_origin() {
    for x in -40..40 {
        for z in -40..40 {
            let road = x % 6 == 0 || z % 6 == 0;
            let mirrored = (-x as i32).rem_euclid(6) == 0 || (-z as i32).rem_euclid(6) == 0;
            assert_eq!(road, mirrored);
            if road {
                assert_eq!(get_building_info(-x, -z), None);
                assert_eq!(get_building_info(-x, z), None);
            }
        }
    }
}

#[test]
fn buildings_stay_in_bounds() {
    for x in -60..60 {
        for z in -60..60 {
            if let Some(b) = get_building_info(x, z) {
                assert!(b.height >= 10 && b.height <= 54);
                for c in [b.color.r, b.color.g, b.color.b] {
                    let shade = 0.5 + (c as f32 / 255.0) * 0.5;
                    assert!(shade >= 0.5 && shade <= 1.0);
                }
            }
        }
    }
}

#[test]
fn below_floor_always_collides() {
    assert!(check_collision(at(0.0, -9.5, 0.0)));
    assert!(check_collision(at(1000.0, -50.0, -3000.0)));
    assert!(check_collision(Position { x: 0, y: i64::MIN, z: 0 }));
    // Exactly at the floor over a road is clear.
    assert!(!check_collision(at(0.0, -9.0, 0.0)));
}

#[test]
fn building_volume_collides() {
    // Cell (1, 1) holds a building 33 units tall: its top is at 23.
    assert!(check_collision(at(12.0, 20.0, 12.0)));
    assert!(check_collision(at(14.4, 22.9, 9.6)));
    assert!(!check_collision(at(12.0, 23.0, 12.0)));
    assert!(!check_collision(at(14.5, 0.0, 12.0)));
    assert!(!check_collision(at(12.0, 0.0, 9.5)));
}

#[test]
fn empty_cells_do_not_collide() {
    // Road cell (0, 0) and vacant cell (2, 3).
    assert!(!check_collision(at(0.0, 0.0, 0.0)));
    assert!(!check_collision(at(24.0, 0.0, 36.0)));
}

#[test]
fn nearest_cell_rounds_half_away_from_zero() {
    let one = FIXED_ONE;
    assert_eq!(nearest_cell(0), 0);
    assert_eq!(nearest_cell(6 * one), 1);
    assert_eq!(nearest_cell(6 * one - 1), 0);
    assert_eq!(nearest_cell(-6 * one), -1);
    assert_eq!(nearest_cell(-6 * one + 1), 0);
    assert_eq!(nearest_cell(30 * one), 3);
    assert_eq!(nearest_cell(i64::MAX), i32::MAX);
    assert_eq!(nearest_cell(i64::MIN), i32::MIN);
}

#[test]
fn containing_cell_rounds_down() {
    let one = FIXED_ONE;
    assert_eq!(containing_cell(0), 0);
    assert_eq!(containing_cell(11 * one), 0);
    assert_eq!(containing_cell(12 * one), 1);
    assert_eq!(containing_cell(-1), -1);
    assert_eq!(containing_cell(-12 * one), -1);
    assert_eq!(containing_cell(-12 * one - 1), -2);
    assert_eq!(containing_cell(i64::MAX), i32::MAX);
}

#[test]
fn view_lists_window_in_row_major_order() {
    let got = buildings_in_view(3, 3, 2);
    let mut want = Vec::new();
    for x in 1..=5 {
        for z in 1..=5 {
            if let Some(b) = get_building_info(x, z) {
                want.push(PlacedBuilding { cell_x: x, cell_z: z, building: b });
            }
        }
    }
    assert_eq!(got, want);
    assert_eq!(got.len(), 20);
    assert_eq!(
        got[0],
        PlacedBuilding {
            cell_x: 1,
            cell_z: 1,
            building: Building { height: 33, color: Rgb { r: 136, g: 38, b: 61 } },
        }
    );
}

#[test]
fn view_of_a_road_crossing() {
    assert!(buildings_in_view(0, 0, 0).is_empty());
    assert_eq!(buildings_in_view(1, 1, 0).len(), 1);
}

#[test]
fn view_is_cut_at_the_edge_of_the_grid() {
    let got = buildings_in_view(i32::MAX, i32::MIN, 2);
    for p in &got {
        assert!(p.cell_x >= i32::MAX - 2);
        assert!(p.cell_z <= i32::MIN + 2);
        assert_eq!(get_building_info(p.cell_x, p.cell_z), Some(p.building));
    }
    let mut count = 0;
    for x in (i32::MAX - 2)..=i32::MAX {
        for z in i32::MIN..=(i32::MIN + 2) {
            if get_building_info(x, z).is_some() {
                count += 1;
            }
        }
    }
    assert_eq!(got.len(), count);
}
