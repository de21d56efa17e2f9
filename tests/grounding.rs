use dicethulhu::physics::{
    ground_sensor_for, ColliderShape, CollisionEvent, GroundDetection, GroundSensor, GroundWorld,
    SensorShape,
};
use dicethulhu::units::UNIT;

const BODY: u64 = 1;
const SENSOR: u64 = 2;
const GROUND: u64 = 3;
const OTHER: u64 = 4;

fn world() -> GroundWorld {
    let mut w = GroundWorld::new();
    w.add_body(BODY, GroundDetection::default());
    w.add_ground(GROUND);
    assert!(w.attach_sensor(SENSOR, GroundSensor { ground_detection_entity: BODY }));
    w
}

#[test]
fn start_grounds_and_stop_ungrounds_in_either_order() {
    let mut w = world();
    assert_eq!(w.grounded(BODY), Some(false));
    w.apply(CollisionEvent::Started(GROUND, SENSOR));
    assert_eq!(w.grounded(BODY), Some(true));
    w.apply(CollisionEvent::Stopped(SENSOR, GROUND));
    assert_eq!(w.grounded(BODY), Some(false));
    w.apply(CollisionEvent::Started(SENSOR, GROUND));
    assert_eq!(w.grounded(BODY), Some(true));
    w.apply(CollisionEvent::Stopped(GROUND, SENSOR));
    assert_eq!(w.grounded(BODY), Some(false));
}

#[test]
fn one_stop_clears_despite_another_contact() {
    let mut w = world();
    w.add_ground(OTHER);
    w.detect_ground(&vec![
        CollisionEvent::Started(GROUND, SENSOR),
        CollisionEvent::Started(OTHER, SENSOR),
        CollisionEvent::Stopped(OTHER, SENSOR),
    ]);
    assert_eq!(w.grounded(BODY), Some(false));
}

#[test]
fn contacts_without_ground_change_nothing() {
    let mut w = world();
    w.apply(CollisionEvent::Started(OTHER, SENSOR));
    assert_eq!(w.grounded(BODY), Some(false));
    w.apply(CollisionEvent::Started(GROUND, BODY));
    assert_eq!(w.grounded(BODY), Some(false));
}

#[test]
fn sensor_of_a_vanished_body_is_ignored() {
    let mut w = GroundWorld::new();
    w.add_ground(GROUND);
    assert!(w.attach_sensor(SENSOR, GroundSensor { ground_detection_entity: 99 }));
    w.apply(CollisionEvent::Started(GROUND, SENSOR));
    assert_eq!(w.grounded(99), None);
}

#[test]
fn one_sensor_per_body() {
    let mut w = world();
    assert!(!w.attach_sensor(5, GroundSensor { ground_detection_entity: BODY }));
    assert!(!w.attach_sensor(SENSOR, GroundSensor { ground_detection_entity: 6 }));
    assert!(w.attach_sensor(5, GroundSensor { ground_detection_entity: 6 }));
}

#[test]
fn events_apply_in_order() {
    let mut w = world();
    w.detect_ground(&vec![
        CollisionEvent::Stopped(SENSOR, GROUND),
        CollisionEvent::Started(SENSOR, GROUND),
    ]);
    assert_eq!(w.grounded(BODY), Some(true));
    w.detect_ground(&vec![]);
    assert_eq!(w.grounded(BODY), Some(true));
}

#[test]
fn sensor_sits_under_a_box_collider() {
    let s = ground_sensor_for(ColliderShape::Cuboid { half_width: 8 * UNIT, half_height: 10_500_000 });
    assert_eq!(
        s,
        Some(SensorShape { half_width: 8 * UNIT, half_height: UNIT, offset_y: -11_500_000 })
    );
    assert_eq!(ground_sensor_for(ColliderShape::Other), None);
}
