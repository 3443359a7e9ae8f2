use jigen_tensei::ground::{
    BoxCollider, GroundDetection, GroundSensor, spawn_ground_sensor, update_ground_detection,
};

#[test]
fn overlap_set_tracks_begin_and_end_events() {
    // empty -> {A} -> {A, B} -> {B} -> {}, with the grounded flag equal to
    // "set is non-empty" at every step.
    let a: u64 = 11;
    let b: u64 = 22;
    let mut detection = GroundDetection { on_ground: false };
    let mut sensor = GroundSensor::new(1);
    assert_eq!(sensor.intersecting_ground_entities.len(), 0);
    assert!(!sensor.grounded());

    sensor.overlap_begin(a);
    update_ground_detection(&mut detection, &sensor);
    assert_eq!(sensor.intersecting_ground_entities.len(), 1);
    assert!(sensor.intersecting_ground_entities.contains(&a));
    assert!(detection.on_ground);

    sensor.overlap_begin(b);
    update_ground_detection(&mut detection, &sensor);
    assert_eq!(sensor.intersecting_ground_entities.len(), 2);
    assert!(sensor.intersecting_ground_entities.contains(&a));
    assert!(sensor.intersecting_ground_entities.contains(&b));
    assert!(detection.on_ground);

    sensor.overlap_end(a);
    update_ground_detection(&mut detection, &sensor);
    assert_eq!(sensor.intersecting_ground_entities.len(), 1);
    assert!(!sensor.intersecting_ground_entities.contains(&a));
    assert!(sensor.intersecting_ground_entities.contains(&b));
    assert!(detection.on_ground);

    sensor.overlap_end(b);
    update_ground_detection(&mut detection, &sensor);
    assert_eq!(sensor.intersecting_ground_entities.len(), 0);
    assert!(!detection.on_ground);
    assert!(!sensor.grounded());
}

#[test]
fn duplicate_begin_keeps_one_entry() {
    let mut sensor = GroundSensor::new(7);
    sensor.overlap_begin(5);
    sensor.overlap_begin(5);
    assert_eq!(sensor.intersecting_ground_entities.len(), 1);
    sensor.overlap_end(5);
    assert!(!sensor.grounded());
}

#[test]
fn end_of_absent_entity_changes_nothing() {
    let mut sensor = GroundSensor::new(7);
    sensor.overlap_begin(5);
    sensor.overlap_end(6);
    assert_eq!(sensor.intersecting_ground_entities.len(), 1);
    assert!(sensor.grounded());
}

#[test]
fn sensor_spawns_under_box_collider() {
    // The player's 20 x 50 pixel box at scale 1: the sensor is half the
    // horizontal extent, 2 pixels thick, sitting 50 pixels below the center.
    let shape = BoxCollider { half_x: 20_000, half_y: 50_000 };
    let bundle = spawn_ground_sensor(42, Some(&shape), 1000).unwrap();
    assert_eq!(bundle.collider, BoxCollider { half_x: 10_000, half_y: 2_000 });
    assert_eq!(bundle.offset_x, 0);
    assert_eq!(bundle.offset_y, -50_000);
    assert_eq!(bundle.sensor.ground_detection_entity, 42);
    assert_eq!(bundle.sensor.intersecting_ground_entities.len(), 0);
}

#[test]
fn sensor_offset_is_counter_scaled() {
    // A parent scaled by 2 halves the local offset.
    let shape = BoxCollider { half_x: 20_000, half_y: 50_000 };
    let bundle = spawn_ground_sensor(42, Some(&shape), 2000).unwrap();
    assert_eq!(bundle.offset_y, -25_000);
}

#[test]
fn body_without_box_collider_is_skipped() {
    assert!(spawn_ground_sensor(42, None, 1000).is_none());
}
