use eulerian_fluid::coupling::{zeroed_bins, BodyKind, ForcesToFluid, ReadbackTracker};
use eulerian_fluid::obstacle::{select_obstacles, ShapeKind};

#[test]
fn bins_start_at_zero() {
    let bins = zeroed_bins();
    assert_eq!(bins.len(), 256);
    assert!(bins.iter().all(|&b| b == 0));
}

#[test]
fn readback_applies_to_dynamic_bodies() {
    let mut tracker = ReadbackTracker::new();
    let bodies = vec![
        Some(BodyKind::Dynamic),
        Some(BodyKind::Static),
        None,
        Some(BodyKind::Kinematic),
        Some(BodyKind::Dynamic),
    ];
    assert_eq!(tracker.on_readback(1, &bodies), vec![0, 4]);
    assert_eq!(tracker.last_step, 1);
}

#[test]
fn readback_twice_for_same_tick_applies_once() {
    let mut tracker = ReadbackTracker::new();
    let bodies = vec![Some(BodyKind::Dynamic), Some(BodyKind::Dynamic)];
    let first = tracker.on_readback(7, &bodies);
    let second = tracker.on_readback(7, &bodies);
    assert_eq!(first, vec![0, 1]);
    assert!(second.is_empty());
    assert_eq!(tracker.on_readback(8, &bodies), vec![0, 1]);
}

#[test]
fn readback_of_tick_zero_is_ignored_initially() {
    let mut tracker = ReadbackTracker::new();
    assert!(tracker.on_readback(0, &vec![Some(BodyKind::Dynamic)]).is_empty());
}

#[test]
fn readback_ignores_bodies_past_capacity() {
    let mut tracker = ReadbackTracker::new();
    let bodies = vec![Some(BodyKind::Dynamic); 300];
    let applied = tracker.on_readback(2, &bodies);
    assert_eq!(applied, (0..256).collect::<Vec<usize>>());
}

#[test]
fn point_forces_are_taken_once() {
    let mut forces = ForcesToFluid::new();
    forces.push((1, 2));
    forces.push((3, 4));
    assert_eq!(forces.take_all(), vec![(1, 2), (3, 4)]);
    assert!(forces.forces.is_empty());
    assert!(forces.take_all().is_empty());
}

#[test]
fn obstacles_keep_order_and_skip_unsupported() {
    let kinds = vec![
        ShapeKind::Ball,
        ShapeKind::Unsupported,
        ShapeKind::Cuboid,
        ShapeKind::Triangle,
    ];
    let selection = select_obstacles(&kinds);
    assert_eq!(selection.ids, vec![0, 2, 3]);
    assert_eq!(selection.unsupported, vec![1]);
    assert_eq!(selection.over_capacity, 0);
}

#[test]
fn obstacles_capped_at_capacity() {
    let kinds = vec![ShapeKind::Ball; 300];
    let selection = select_obstacles(&kinds);
    assert_eq!(selection.ids, (0..256).collect::<Vec<u32>>());
    assert!(selection.unsupported.is_empty());
    assert_eq!(selection.over_capacity, 44);
}

#[test]
fn obstacles_empty_input() {
    let selection = select_obstacles(&vec![]);
    assert!(selection.ids.is_empty());
    assert_eq!(selection.over_capacity, 0);
}
