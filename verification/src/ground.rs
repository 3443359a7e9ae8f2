//! Ground detection: a thin sensor box attached beneath a body, the set of
//! ground entities it currently overlaps, and the aggregated grounded flag.

use vstd::prelude::*;

verus! {

/// Whether the tracked body currently touches ground; aggregated each tick
/// from the sensor's overlap set.
#[derive(Clone, Copy, Debug, Default)]
pub struct GroundDetection {
    pub on_ground: bool,
}

/// A box collision shape, half-extents in millipixels.
#[derive(Clone, Copy, Debug, PartialEq, Eq, Structural)]
pub struct BoxCollider {
    pub half_x: u64,
    pub half_y: u64,
}

/// Half-thickness of the spawned sensor box, in millipixels (2 pixels).
pub const GROUND_SENSOR_HALF_THICKNESS: u64 = 2_000;

/// Bound on collider half-extents, in millipixels, so the sensor geometry
/// arithmetic stays inside the integer types.
pub const MAX_HALF_EXTENT: u64 = 0x1000_0000_0000;

/// The sensor attached beneath a body tagged for ground detection: a
/// back-reference to the owning body and the identifiers of the ground
/// entities its box currently overlaps.
#[derive(Debug)]
pub struct GroundSensor {
    pub ground_detection_entity: u64,
    pub intersecting_ground_entities: std::collections::HashSet<u64>,
}

impl GroundSensor {
    /// A fresh sensor for the given body, overlapping nothing yet.
    pub fn new(ground_detection_entity: u64) -> (s: GroundSensor)
        ensures
            s.ground_detection_entity == ground_detection_entity,
            s.intersecting_ground_entities@ == Set::<u64>::empty(),
    {
        GroundSensor {
            ground_detection_entity,
            intersecting_ground_entities: std::collections::HashSet::new(),
        }
    }

    /// Records an overlap-begin event delivered by the physics engine.
    pub fn overlap_begin(&mut self, ground_entity: u64)
        ensures
            final(self).ground_detection_entity == old(self).ground_detection_entity,
            final(self).intersecting_ground_entities@ == old(
                self,
            ).intersecting_ground_entities@.insert(ground_entity),
    {
        broadcast use vstd::std_specs::hash::group_hash_axioms;

        self.intersecting_ground_entities.insert(ground_entity);
    }

    /// Records an overlap-end event delivered by the physics engine.
    pub fn overlap_end(&mut self, ground_entity: u64)
        ensures
            final(self).ground_detection_entity == old(self).ground_detection_entity,
            final(self).intersecting_ground_entities@ == old(
                self,
            ).intersecting_ground_entities@.remove(ground_entity),
    {
        broadcast use vstd::std_specs::hash::group_hash_axioms;

        self.intersecting_ground_entities.remove(&ground_entity);
    }

    /// The aggregate grounded signal: the body touches ground exactly when
    /// the overlap set is non-empty.
    pub fn grounded(&self) -> (b: bool)
        ensures
            b == !self.intersecting_ground_entities@.is_empty(),
    {
        !self.intersecting_ground_entities.is_empty()
    }
}

/// Refreshes the grounded flag from the sensor's overlap set: on ground
/// exactly when the set is non-empty.
pub fn update_ground_detection(detection: &mut GroundDetection, sensor: &GroundSensor)
    ensures
        final(detection).on_ground == !sensor.intersecting_ground_entities@.is_empty(),
{
    detection.on_ground = sensor.grounded();
}

/// What gets attached beneath a newly tagged body: the thin sensor box, its
/// offset from the parent (millipixels, world-space), and the fresh sensor
/// record.
#[derive(Debug)]
pub struct GroundSensorBundle {
    pub collider: BoxCollider,
    pub offset_x: i64,
    pub offset_y: i64,
    pub sensor: GroundSensor,
}

/// Spawns the ground sensor for a newly tagged body, if it has a box
/// collision shape; a body whose collider is not a box is silently skipped.
///
/// The sensor spans half the parent's horizontal extent with a small fixed
/// vertical thickness and sits immediately below the parent's lower edge;
/// the offset is counter-scaled by the parent's vertical scale (given in
/// thousandths, so 1000 is scale 1) to stay resolution-independent. Only the
/// vertical offset is ever non-zero, so only the vertical scale enters.
pub fn spawn_ground_sensor(entity: u64, shape: Option<&BoxCollider>, parent_scale_y: u64) -> (r:
    Option<GroundSensorBundle>)
    requires
        parent_scale_y >= 1,
        shape matches Some(b) ==> b.half_y <= MAX_HALF_EXTENT,
    ensures
        shape is None ==> r is None,
        shape matches Some(b) ==> (r matches Some(g) && {
            &&& g.collider.half_x == b.half_x / 2
            &&& g.collider.half_y == GROUND_SENSOR_HALF_THICKNESS
            &&& g.offset_x == 0
            &&& g.offset_y == -(b.half_y * 1000 / (parent_scale_y as int))
            &&& g.sensor.ground_detection_entity == entity
            &&& g.sensor.intersecting_ground_entities@ == Set::<u64>::empty()
        }),
{
    let b = match shape {
        Some(b) => b,
        None => {
            return None;
        },
    };
    let counter_scaled: u64 = b.half_y * 1000 / parent_scale_y;
    Some(
        GroundSensorBundle {
            collider: BoxCollider { half_x: b.half_x / 2, half_y: GROUND_SENSOR_HALF_THICKNESS },
            offset_x: 0,
            offset_y: -(counter_scaled as i64),
            sensor: GroundSensor::new(entity),
        },
    )
}

} // verus!
