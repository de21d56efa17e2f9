//! Ground detection: which bodies stand on ground, as told by the collision
//! events of their ground sensors.
//!
//! Contacts are not counted: one Stopped event between a sensor and a ground
//! surface clears the flag even if the body still touches another surface.
use vstd::prelude::*;
use std::collections::{HashMap, HashSet};
use crate::units::{Coord, UNIT};

verus! {

broadcast use vstd::std_specs::hash::group_hash_axioms;

/// An entity of the world, by its number.
pub type EntityId = u64;

/// Height of a ground sensor's volume.
pub const SENSOR_HEIGHT: Coord = UNIT;

#[derive(Clone, Copy, Debug, PartialEq, Eq, Structural)]
pub struct GroundDetection {
    pub grounded: bool,
}

/// Binds a sensor to the body whose grounding it reports.
#[derive(Clone, Copy, Debug, PartialEq, Eq, Structural)]
pub struct GroundSensor {
    pub ground_detection_entity: EntityId,
}

/// A contact between two entities begins or ends; the order of the two is
/// not meaningful.
#[derive(Clone, Copy, Debug, PartialEq, Eq, Structural)]
pub enum CollisionEvent {
    Started(EntityId, EntityId),
    Stopped(EntityId, EntityId),
}

/// The shape of a body's collider, as far as ground sensors need it.
#[derive(Clone, Copy, Debug, PartialEq, Eq, Structural)]
pub enum ColliderShape {
    Cuboid { half_width: Coord, half_height: Coord },
    Other,
}

/// The volume of a ground sensor, placed below the centre of its body.
#[derive(Clone, Copy, Debug, PartialEq, Eq, Structural)]
pub struct SensorShape {
    pub half_width: Coord,
    pub half_height: Coord,
    pub offset_y: Coord,
}

impl Default for GroundDetection {
    fn default() -> (r: GroundDetection)
        ensures
            !r.grounded,
    {
        GroundDetection { grounded: false }
    }
}

/// The sensor under a body with a box collider: as wide as the body, one
/// unit high, right below it. Only a box collider can carry one.
pub fn ground_sensor_for(collider: ColliderShape) -> (r: Option<SensorShape>)
    requires
        collider matches ColliderShape::Cuboid { half_height, .. } ==> half_height <= i64::MAX
            - UNIT,
    ensures
        r == match collider {
            ColliderShape::Cuboid { half_width, half_height } => Some(
                SensorShape {
                    half_width,
                    half_height: SENSOR_HEIGHT,
                    offset_y: (-(half_height + SENSOR_HEIGHT)) as Coord,
                },
            ),
            ColliderShape::Other => None,
        },
{
    match collider {
        ColliderShape::Cuboid { half_width, half_height } => Some(
            SensorShape {
                half_width,
                half_height: SENSOR_HEIGHT,
                offset_y: -(half_height + SENSOR_HEIGHT),
            },
        ),
        ColliderShape::Other => None,
    }
}

/// What ground detection knows of the world.
pub struct GroundModel {
    /// Each sensor, with the body it belongs to.
    pub sensors: Map<EntityId, EntityId>,
    /// Each body that has a sensor, with that sensor.
    pub owners: Map<EntityId, EntityId>,
    /// The ground surfaces.
    pub grounds: Set<EntityId>,
    /// Each body that tracks grounding, with its flag.
    pub bodies: Map<EntityId, bool>,
}

impl GroundModel {
    pub open spec fn wf(self) -> bool {
        &&& forall|s: EntityId| #[trigger]
            self.sensors.contains_key(s) ==> self.owners.contains_key(self.sensors[s])
                && self.owners[self.sensors[s]] == s
        &&& forall|b: EntityId| #[trigger]
            self.owners.contains_key(b) ==> self.sensors.contains_key(self.owners[b])
                && self.sensors[self.owners[b]] == b
    }

    /// The body whose sensor touches a ground surface in a contact of `a`
    /// and `b`, tried with `b` as the sensor first, then with `a`.
    pub open spec fn contact_owner(self, a: EntityId, b: EntityId) -> Option<EntityId> {
        if self.sensors.contains_key(b) && self.grounds.contains(a) {
            Some(self.sensors[b])
        } else if self.sensors.contains_key(a) && self.grounds.contains(b) {
            Some(self.sensors[a])
        } else {
            None
        }
    }

    /// The model after one collision event: a contact between a sensor and
    /// a ground surface sets (Started) or clears (Stopped) the flag of the
    /// sensor's body, if that body still tracks grounding.
    pub open spec fn after_event(self, ev: CollisionEvent) -> GroundModel {
        let (a, b, grounded) = event_parts(ev);
        match self.contact_owner(a, b) {
            Some(body) => if self.bodies.contains_key(body) {
                GroundModel { bodies: self.bodies.insert(body, grounded), ..self }
            } else {
                self
            },
            None => self,
        }
    }

    /// The model after a run of collision events, in order.
    pub open spec fn after_events(self, evs: Seq<CollisionEvent>) -> GroundModel
        decreases evs.len(),
    {
        if evs.len() == 0 {
            self
        } else {
            self.after_events(evs.drop_last()).after_event(evs.last())
        }
    }
}

pub open spec fn is_contact_of(ev: CollisionEvent, x: EntityId, y: EntityId, started: bool) -> bool {
    if started {
        ev == CollisionEvent::Started(x, y) || ev == CollisionEvent::Started(y, x)
    } else {
        ev == CollisionEvent::Stopped(x, y) || ev == CollisionEvent::Stopped(y, x)
    }
}

/// A Started event between a sensor and a ground surface, in either order,
/// sets the grounding flag of the sensor's body, and a Stopped event, in
/// either order, clears it, whatever the flag was before. The sensor is
/// not itself a ground surface.
pub proof fn lemma_ground_contact(
    m: GroundModel,
    sensor: EntityId,
    ground: EntityId,
    ev: CollisionEvent,
)
    requires
        m.sensors.contains_key(sensor),
        m.bodies.contains_key(m.sensors[sensor]),
        m.grounds.contains(ground),
        !m.grounds.contains(sensor),
        is_contact_of(ev, sensor, ground, true) || is_contact_of(ev, sensor, ground, false),
    ensures
        m.after_event(ev).sensors == m.sensors,
        m.after_event(ev).grounds == m.grounds,
        m.after_event(ev).bodies.dom() == m.bodies.dom(),
        m.after_event(ev).bodies[m.sensors[sensor]] == is_contact_of(ev, sensor, ground, true),
{
}

/// A Started event between a sensor and a ground surface makes its body
/// grounded; a Stopped event between the two that follows, in either order,
/// makes it ungrounded.
pub proof fn lemma_start_then_stop(
    m: GroundModel,
    sensor: EntityId,
    ground: EntityId,
    start: CollisionEvent,
    stop: CollisionEvent,
)
    requires
        m.sensors.contains_key(sensor),
        m.bodies.contains_key(m.sensors[sensor]),
        m.grounds.contains(ground),
        !m.grounds.contains(sensor),
        is_contact_of(start, sensor, ground, true),
        is_contact_of(stop, sensor, ground, false),
    ensures
        m.after_events(seq![start]).bodies[m.sensors[sensor]],
        !m.after_events(seq![start, stop]).bodies[m.sensors[sensor]],
{
    let body = m.sensors[sensor];
    lemma_ground_contact(m, sensor, ground, start);
    let m1 = m.after_event(start);
    lemma_ground_contact(m1, sensor, ground, stop);
    assert(seq![start].drop_last() =~= Seq::<CollisionEvent>::empty());
    assert(m.after_events(seq![start].drop_last()) == m);
    assert(seq![start].last() == start);
    assert(m.after_events(seq![start]) == m1);
    assert(seq![start, stop].drop_last() =~= seq![start]);
    assert(seq![start, stop].last() == stop);
    assert(m.after_events(seq![start, stop]) == m1.after_event(stop));
}

pub open spec fn event_parts(ev: CollisionEvent) -> (EntityId, EntityId, bool) {
    match ev {
        CollisionEvent::Started(a, b) => (a, b, true),
        CollisionEvent::Stopped(a, b) => (a, b, false),
    }
}

/// The flag that the last event of a run between a ground surface and the
/// sensor of `body` gives that body, if any event of the run is one.
pub open spec fn last_contact(m: GroundModel, evs: Seq<CollisionEvent>, body: EntityId) -> Option<
    bool,
>
    decreases evs.len(),
{
    if evs.len() == 0 {
        None
    } else {
        let (a, b, grounded) = event_parts(evs.last());
        if m.contact_owner(a, b) == Some(body) {
            Some(grounded)
        } else {
            last_contact(m, evs.drop_last(), body)
        }
    }
}

/// After a batch of events, a body's grounding flag is the one set by the
/// last event of the batch between a ground surface and its sensor, or the
/// flag it had if there is none; sensors, ground surfaces and the tracked
/// bodies stay as they were.
pub proof fn lemma_batch_grounding(m: GroundModel, evs: Seq<CollisionEvent>, body: EntityId)
    requires
        m.bodies.contains_key(body),
    ensures
        m.after_events(evs).sensors == m.sensors,
        m.after_events(evs).grounds == m.grounds,
        m.after_events(evs).bodies.dom() == m.bodies.dom(),
        m.after_events(evs).bodies[body] == match last_contact(m, evs, body) {
            Some(grounded) => grounded,
            None => m.bodies[body],
        },
    decreases evs.len(),
{
    if evs.len() > 0 {
        let pre = evs.drop_last();
        lemma_batch_grounding(m, pre, body);
        let mid = m.after_events(pre);
        let ev = evs.last();
        let (a, b, grounded) = event_parts(ev);
        assert(mid.contact_owner(a, b) == m.contact_owner(a, b));
        if let Some(owner) = mid.contact_owner(a, b) {
            if mid.bodies.contains_key(owner) {
                assert(mid.bodies.insert(owner, grounded).dom() =~= mid.bodies.dom());
            }
        }
    }
}

/// Sensors, ground surfaces and the grounding flags of bodies.
pub struct GroundWorld {
    sensors: HashMap<EntityId, EntityId>,
    owners: HashMap<EntityId, EntityId>,
    grounds: HashSet<EntityId>,
    bodies: HashMap<EntityId, bool>,
}

impl View for GroundWorld {
    type V = GroundModel;

    closed spec fn view(&self) -> GroundModel {
        GroundModel {
            sensors: self.sensors@,
            owners: self.owners@,
            grounds: self.grounds@,
            bodies: self.bodies@,
        }
    }
}

impl GroundWorld {
    pub fn new() -> (r: GroundWorld)
        ensures
            r@.wf(),
            r@.sensors == Map::<EntityId, EntityId>::empty(),
            r@.owners == Map::<EntityId, EntityId>::empty(),
            r@.grounds == Set::<EntityId>::empty(),
            r@.bodies == Map::<EntityId, bool>::empty(),
    {
        GroundWorld {
            sensors: HashMap::new(),
            owners: HashMap::new(),
            grounds: HashSet::new(),
            bodies: HashMap::new(),
        }
    }

    /// Starts tracking the grounding of `body`.
    pub fn add_body(&mut self, body: EntityId, detection: GroundDetection)
        requires
            old(self)@.wf(),
        ensures
            final(self)@ == (GroundModel {
                bodies: old(self)@.bodies.insert(body, detection.grounded),
                ..old(self)@
            }),
            final(self)@.wf(),
    {
        self.bodies.insert(body, detection.grounded);
        assert(self@.sensors == old(self)@.sensors && self@.owners == old(self)@.owners);
    }

    /// Tags `id` as a ground surface.
    pub fn add_ground(&mut self, id: EntityId)
        requires
            old(self)@.wf(),
        ensures
            final(self)@ == (GroundModel { grounds: old(self)@.grounds.insert(id), ..old(self)@ }),
            final(self)@.wf(),
    {
        self.grounds.insert(id);
        assert(self@.sensors == old(self)@.sensors && self@.owners == old(self)@.owners);
    }

    /// Binds `sensor` to its body. Refused, with nothing changed, when the
    /// sensor is bound already or the body has a sensor already.
    pub fn attach_sensor(&mut self, sensor: EntityId, binding: GroundSensor) -> (attached: bool)
        requires
            old(self)@.wf(),
        ensures
            final(self)@.wf(),
            attached == !(old(self)@.sensors.contains_key(sensor) || old(self)@.owners.contains_key(
                binding.ground_detection_entity,
            )),
            attached ==> final(self)@ == (GroundModel {
                sensors: old(self)@.sensors.insert(sensor, binding.ground_detection_entity),
                owners: old(self)@.owners.insert(binding.ground_detection_entity, sensor),
                ..old(self)@
            }),
            !attached ==> final(self)@ == old(self)@,
    {
        let body = binding.ground_detection_entity;
        if self.sensors.contains_key(&sensor) || self.owners.contains_key(&body) {
            return false;
        }
        self.sensors.insert(sensor, body);
        self.owners.insert(body, sensor);
        proof {
            let m = self@;
            assert forall|s: EntityId| #[trigger] m.sensors.contains_key(s) implies m.owners.contains_key(
                m.sensors[s],
            ) && m.owners[m.sensors[s]] == s by {
                if s != sensor {
                    assert(old(self)@.sensors.contains_key(s));
                }
            }
            assert forall|b: EntityId| #[trigger] m.owners.contains_key(b) implies m.sensors.contains_key(
                m.owners[b],
            ) && m.sensors[m.owners[b]] == b by {
                if b != body {
                    assert(old(self)@.owners.contains_key(b));
                }
            }
        }
        true
    }

    /// The grounding flag of `body`, if it tracks grounding.
    pub fn grounded(&self, body: EntityId) -> (r: Option<bool>)
        ensures
            r == (if self@.bodies.contains_key(body) {
                Some(self@.bodies[body])
            } else {
                None
            }),
    {
        match self.bodies.get(&body) {
            Some(g) => Some(*g),
            None => None,
        }
    }

    fn contact_owner(&self, a: EntityId, b: EntityId) -> (r: Option<EntityId>)
        ensures
            r == self@.contact_owner(a, b),
    {
        if self.grounds.contains(&a) {
            if let Some(owner) = self.sensors.get(&b) {
                return Some(*owner);
            }
        }
        if self.grounds.contains(&b) {
            if let Some(owner) = self.sensors.get(&a) {
                return Some(*owner);
            }
        }
        None
    }

    /// Applies one collision event.
    pub fn apply(&mut self, ev: CollisionEvent)
        requires
            old(self)@.wf(),
        ensures
            final(self)@ == old(self)@.after_event(ev),
            final(self)@.wf(),
    {
        let (a, b, grounded) = match ev {
            CollisionEvent::Started(a, b) => (a, b, true),
            CollisionEvent::Stopped(a, b) => (a, b, false),
        };
        if let Some(body) = self.contact_owner(a, b) {
            if self.bodies.contains_key(&body) {
                self.bodies.insert(body, grounded);
            }
        }
    }

    /// Applies a tick's collision events, in order.
    pub fn detect_ground(&mut self, events: &Vec<CollisionEvent>)
        requires
            old(self)@.wf(),
        ensures
            final(self)@ == old(self)@.after_events(events@),
            final(self)@.wf(),
    {
        let mut i: usize = 0;
        while i < events.len()
            invariant
                i <= events.len(),
                self@.wf(),
                self@ == old(self)@.after_events(events@.take(i as int)),
            decreases events.len() - i,
        {
            proof {
                assert(events@.take(i as int + 1).drop_last() == events@.take(i as int));
            }
            self.apply(events[i]);
            i = i + 1;
        }
        proof {
            assert(events@.take(i as int) == events@);
        }
    }
}

} // verus!
