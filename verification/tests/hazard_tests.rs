use noodles_grid::domain::Domain;
use noodles_grid::hazard::hazard_plane_heights;
use noodles_grid::hazard::line_plane_intersection;
use noodles_grid::hazard::plane_crossed;
use noodles_grid::hazard::HazardCell;
use noodles_grid::hazard::HazardCheck;
use noodles_grid::hazard::HazardLevel;
use noodles_grid::ieee::Binary32;
use noodles_grid::vector::Vec2;
use noodles_grid::vector::Vec3;

fn b(x: f32) -> Binary32 {
    Binary32::from_bits(x.to_bits())
}

fn f(x: Binary32) -> f32 {
    f32::from_bits(x.to_bits())
}

fn v2(x: f32, y: f32) -> Vec2 {
    Vec2 { x: b(x), y: b(y) }
}

fn floats(bytes: &[u8]) -> Vec<f32> {
    bytes.chunks(4).map(|c| f32::from_ne_bytes([c[0], c[1], c[2], c[3]])).collect()
}

#[test]
fn the_planes_stand_at_the_bounds_of_the_safe_band() {
    let d = Domain::default();
    let (lo, hi) = hazard_plane_heights(&d);
    assert_eq!(lo, d.voltage_to_height(b(0.95)));
    assert_eq!(hi, d.voltage_to_height(b(1.05)));
}

#[test]
fn a_new_grid_is_empty_with_cells_of_a_tenth() {
    let h = HazardCheck::new(b(0.375), b(1.125));
    assert_eq!(h.len(), 0);
    assert_eq!(f(h.snap), 2.0f32 / 20.0);
    assert_eq!(f(h.v_min_height), 0.375);
    assert_eq!(f(h.v_max_height), 1.125);
}

#[test]
fn a_crossing_is_taken_from_the_start_up_to_the_end() {
    let p = Vec3 { x: b(1.0), y: b(2.0), z: b(3.0) };
    assert_eq!(line_plane_intersection(b(1.0), b(0.0), p), Some(p));
    assert_eq!(line_plane_intersection(b(1.0), b(0.5), p), Some(p));
    assert_eq!(line_plane_intersection(b(-1.0), b(0.999), p), Some(p));
    assert_eq!(line_plane_intersection(b(1.0), b(1.0), p), None);
    assert_eq!(line_plane_intersection(b(1.0), b(-0.001), p), None);
    assert_eq!(line_plane_intersection(b(1.0), b(f32::NAN), p), None);
    assert_eq!(line_plane_intersection(b(1.0), b(-0.0), p), Some(p));
}

#[test]
fn a_level_conductor_crosses_nothing() {
    let p = Vec3 { x: b(1.0), y: b(2.0), z: b(3.0) };
    assert_eq!(line_plane_intersection(b(0.0), b(0.5), p), None);
    assert_eq!(line_plane_intersection(b(1e-8), b(0.5), p), None);
    assert_eq!(line_plane_intersection(b(-1e-8), b(0.5), p), None);
    assert_eq!(line_plane_intersection(b(f32::EPSILON), b(0.5), p), Some(p));
    assert_eq!(line_plane_intersection(b(f32::NAN), b(0.5), p), Some(p));
}

#[test]
fn two_conductors_in_one_cell_give_one_hazard() {
    let mut h = HazardCheck::new(b(0.375), b(1.125));
    assert!(h.check(HazardLevel::Upper, 3, -2, v2(0.3, -0.2)));
    assert!(!h.check(HazardLevel::Upper, 3, -2, v2(0.3, -0.2)));
    assert_eq!(h.len(), 1);
    let mut dest = Vec::new();
    h.create_matrices(&mut dest);
    assert_eq!(dest.len(), 64);
}

#[test]
fn conductors_in_different_cells_give_two_hazards() {
    let mut h = HazardCheck::new(b(0.375), b(1.125));
    assert!(h.check(HazardLevel::Upper, 3, -2, v2(0.3, -0.2)));
    assert!(h.check(HazardLevel::Upper, 4, -2, v2(0.4, -0.2)));
    assert_eq!(h.len(), 2);
    let mut dest = Vec::new();
    h.create_matrices(&mut dest);
    assert_eq!(dest.len(), 128);
}

#[test]
fn the_two_planes_never_merge() {
    let mut h = HazardCheck::new(b(0.375), b(1.125));
    assert!(h.check(HazardLevel::Lower, 1, 1, v2(0.1, 0.1)));
    assert!(h.check(HazardLevel::Upper, 1, 1, v2(0.1, 0.1)));
    assert_eq!(h.len(), 2);
    assert!(h.contains(HazardCell { x: 1, z: 1, level: HazardLevel::Lower }));
    assert!(h.contains(HazardCell { x: 1, z: 1, level: HazardLevel::Upper }));
    assert!(!h.contains(HazardCell { x: 1, z: 2, level: HazardLevel::Upper }));
}

#[test]
fn a_hazard_box_stands_on_its_plane() {
    let mut h = HazardCheck::new(b(0.375), b(1.125));
    h.check(HazardLevel::Lower, 3, -2, v2(0.3, -0.2));
    h.check(HazardLevel::Upper, 5, 7, v2(0.5, 0.7));
    assert_eq!(f(h.plane_height(HazardLevel::Lower)), 0.375);
    assert_eq!(f(h.plane_height(HazardLevel::Upper)), 1.125);
    let mut dest = vec![1u8, 2];
    h.create_matrices(&mut dest);
    assert_eq!(&dest[..2], &[1, 2]);
    let v = floats(&dest[2..]);
    let snap = 2.0f32 / 20.0;
    assert_eq!(
        &v[..16],
        &[0.3, 0.375, -0.2, 0.0, 0.0, 0.0, 1.0, 1.0, 0.0, 0.0, 0.0, 1.0, snap, 1.0, snap, 0.0]
    );
    assert_eq!(
        &v[16..],
        &[0.5, 1.125, 0.7, 0.0, 0.0, 0.0, 1.0, 1.0, 0.0, 0.0, 0.0, 1.0, snap, 1.0, snap, 0.0]
    );
}

#[test]
fn hazard_constants_are_the_encodings_of_their_values() {
    assert_eq!(noodles_grid::hazard::SNAP_BITS, (2.0f32 / 20.0).to_bits());
    assert_eq!(noodles_grid::hazard::EPSILON_BITS, f32::EPSILON.to_bits());
}

#[test]
fn plane_crossed_agrees_with_the_intersection() {
    let p = Vec3 { x: b(1.0), y: b(2.0), z: b(3.0) };
    for rise in [-1.0f32, -1e-8, 0.0, 1e-8, f32::EPSILON, 1.0, f32::NAN] {
        for fac in [-1.0f32, -0.0, 0.0, 0.5, 0.999, 1.0, 2.0, f32::NAN, f32::INFINITY] {
            assert_eq!(plane_crossed(b(rise), b(fac)), line_plane_intersection(b(rise), b(fac), p).is_some());
            assert_eq!(plane_crossed(b(rise), b(fac)), !(rise.abs() < f32::EPSILON) && (0.0..1.0).contains(&fac));
        }
    }
}
