use framecore::scene::aggregate;
use framecore::scene::capacity_of;
use framecore::scene::CapacityExceeded;
use framecore::scene::Entity;
use framecore::scene::LightCategory;
use framecore::scene::DIRECTIONAL_LIGHT_CAPACITY;
use framecore::scene::POINT_LIGHT_CAPACITY;
use framecore::scene::SPOT_LIGHT_CAPACITY;

#[test]
fn capacities_are_the_documented_constants() {
    assert_eq!(capacity_of(LightCategory::Point), 128);
    assert_eq!(capacity_of(LightCategory::Directional), 16);
    assert_eq!(capacity_of(LightCategory::Spot), 128);
    assert_eq!(POINT_LIGHT_CAPACITY, 128);
    assert_eq!(DIRECTIONAL_LIGHT_CAPACITY, 16);
    assert_eq!(SPOT_LIGHT_CAPACITY, 128);
}

fn entity(point: Vec<u64>, directional: Vec<u64>, spot: Vec<u64>) -> Entity<u64> {
    Entity { point_lights: point, directional_lights: directional, spot_lights: spot }
}

#[test]
fn aggregate_empty_scene_is_all_padding() {
    let entities: Vec<Entity<u64>> = vec![];
    let d = aggregate(&entities, 0u64).unwrap();
    assert_eq!(d.point_count, 0);
    assert_eq!(d.directional_count, 0);
    assert_eq!(d.spot_count, 0);
    assert_eq!(d.point_lights.len(), POINT_LIGHT_CAPACITY);
    assert_eq!(d.directional_lights.len(), DIRECTIONAL_LIGHT_CAPACITY);
    assert_eq!(d.spot_lights.len(), SPOT_LIGHT_CAPACITY);
    assert!(d.point_lights.iter().all(|&l| l == 0));
    assert!(d.directional_lights.iter().all(|&l| l == 0));
    assert!(d.spot_lights.iter().all(|&l| l == 0));
}

#[test]
fn point_overflow_reports_category_and_full_count() {
    // 100 + 50 point lights from two entities: over the capacity of 128.
    let e1 = entity((0..100).collect(), vec![], vec![]);
    let e2 = entity((100..150).collect(), vec![], vec![]);
    let r = aggregate(&vec![e1, e2], 0u64);
    assert_eq!(r, Err(CapacityExceeded { category: LightCategory::Point, count: 150 }));
}

#[test]
fn directional_lights_padded_in_entity_order() {
    // 3 directional lights against a capacity of 16.
    let e1 = entity(vec![], vec![7, 8], vec![]);
    let e2 = entity(vec![], vec![9], vec![]);
    let d = aggregate(&vec![e1, e2], 0u64).unwrap();
    assert_eq!(d.directional_count, 3);
    assert_eq!(d.directional_lights.len(), 16);
    assert_eq!(&d.directional_lights[..3], &[7, 8, 9]);
    assert!(d.directional_lights[3..].iter().all(|&l| l == 0));
}

#[test]
fn aggregation_preserves_order_across_entities() {
    let e1 = entity(vec![1, 2], vec![10], vec![100]);
    let e2 = entity(vec![3], vec![11, 12], vec![]);
    let d = aggregate(&vec![e1, e2], 0u64).unwrap();
    assert_eq!(&d.point_lights[..3], &[1, 2, 3]);
    assert_eq!(&d.directional_lights[..3], &[10, 11, 12]);
    assert_eq!(&d.spot_lights[..1], &[100]);
    assert_eq!(d.point_count, 3);
    assert_eq!(d.directional_count, 3);
    assert_eq!(d.spot_count, 1);
}

#[test]
fn exactly_at_capacity_succeeds() {
    let e = entity((0..128).collect(), vec![], vec![]);
    let d = aggregate(&vec![e], 999u64).unwrap();
    assert_eq!(d.point_count, 128);
    // A full array is exactly the live lights: no padding entry fits.
    assert_eq!(d.point_lights, (0..128).collect::<Vec<u64>>());
}

#[test]
fn directional_overflow_reports_category() {
    let e = entity(vec![], (0..17).collect(), vec![]);
    let r = aggregate(&vec![e], 0u64);
    assert_eq!(r, Err(CapacityExceeded { category: LightCategory::Directional, count: 17 }));
}

#[test]
fn spot_overflow_reports_category() {
    let e = entity(vec![], vec![], (0..129).collect());
    let r = aggregate(&vec![e], 0u64);
    assert_eq!(r, Err(CapacityExceeded { category: LightCategory::Spot, count: 129 }));
}

#[test]
fn point_overflow_reported_before_spot() {
    let e = entity((0..129).collect(), vec![], (0..200).collect());
    let r = aggregate(&vec![e], 0u64);
    assert_eq!(r, Err(CapacityExceeded { category: LightCategory::Point, count: 129 }));
}

#[test]
fn fill_record_pads_every_category() {
    let e = entity(vec![1], vec![2], vec![3]);
    let d = aggregate(&vec![e], 99u64).unwrap();
    assert_eq!(d.point_lights[0], 1);
    assert!(d.point_lights[1..].iter().all(|&l| l == 99));
    assert_eq!(d.directional_lights[0], 2);
    assert!(d.directional_lights[1..].iter().all(|&l| l == 99));
    assert_eq!(d.spot_lights[0], 3);
    assert!(d.spot_lights[1..].iter().all(|&l| l == 99));
}
