//! The world: every entity and, per component type, the entities that have
//! it.

use vstd::prelude::*;
use crate::components::{
    animations_wf, sprites_wf, transforms_wf, Animation, BasicAI, Body, CameraTarget, FeetSensor,
    Jumper, Player, Sprite, Transform,
};
use crate::engine::physics::Snapshot;
use crate::engine::storage::{Entity, Storage};

verus! {

/// Whether every entity of a storage is below `n`.
pub open spec fn below<T>(m: Map<int, T>, n: int) -> bool {
    forall|e: int| #[trigger] m.contains_key(e) ==> 0 <= e < n
}

/// The entities made so far and their components, one storage per type.
pub struct World {
    pub entities: usize,
    pub transforms: Storage<Transform>,
    pub sprites: Storage<Sprite>,
    pub bodies: Storage<Body>,
    pub feet_sensors: Storage<FeetSensor>,
    pub jumpers: Storage<Jumper>,
    pub animations: Storage<Animation>,
    pub players: Storage<Player>,
    pub camera_targets: Storage<CameraTarget>,
    pub basic_ais: Storage<BasicAI>,
}

impl World {
    /// Every component is within its range and belongs to an entity that
    /// was made.
    pub open spec fn wf(&self) -> bool {
        &&& transforms_wf(self.transforms@)
        &&& sprites_wf(self.sprites@)
        &&& animations_wf(self.animations@)
        &&& below(self.transforms@, self.entities as int)
        &&& below(self.sprites@, self.entities as int)
        &&& below(self.bodies@, self.entities as int)
        &&& below(self.feet_sensors@, self.entities as int)
        &&& below(self.jumpers@, self.entities as int)
        &&& below(self.animations@, self.entities as int)
        &&& below(self.players@, self.entities as int)
        &&& below(self.camera_targets@, self.entities as int)
        &&& below(self.basic_ais@, self.entities as int)
    }

    /// Every body and every feet sensor of an entity names a body or a
    /// collider that the physics world holds.
    pub open spec fn linked(&self, physics: Snapshot) -> bool {
        &&& forall|e: int| #[trigger]
            self.bodies@.contains_key(e) ==> physics.body(self.bodies@[e].rigid_body_handle).is_some()
                && physics.collider(self.bodies@[e].collider_handle).is_some()
        &&& forall|e: int| #[trigger]
            self.feet_sensors@.contains_key(e) ==> physics.collider(
                self.feet_sensors@[e].collider_handle,
            ).is_some()
    }

    /// Entity `e` has no component at all.
    pub open spec fn bare(&self, e: int) -> bool {
        &&& !self.transforms@.contains_key(e)
        &&& !self.sprites@.contains_key(e)
        &&& !self.bodies@.contains_key(e)
        &&& !self.feet_sensors@.contains_key(e)
        &&& !self.jumpers@.contains_key(e)
        &&& !self.animations@.contains_key(e)
        &&& !self.players@.contains_key(e)
        &&& !self.camera_targets@.contains_key(e)
        &&& !self.basic_ais@.contains_key(e)
    }

    /// Tests that every component is within its range and belongs to an
    /// entity that was made.
    pub fn is_valid(&self) -> (r: bool)
        ensures
            r == self.wf(),
    {
        let n = self.entities;
        let placed = self.transforms.is_below(n) && self.sprites.is_below(n)
            && self.bodies.is_below(n) && self.feet_sensors.is_below(n) && self.jumpers.is_below(n)
            && self.animations.is_below(n) && self.players.is_below(n)
            && self.camera_targets.is_below(n) && self.basic_ais.is_below(n);
        if !placed {
            return false;
        }
        let mut i: usize = 0;
        while i < n
            invariant
                i <= n,
                n == self.entities,
                below(self.transforms@, n as int),
                below(self.sprites@, n as int),
                below(self.animations@, n as int),
                forall|e: int|
                    0 <= e < i && self.transforms@.contains_key(e) ==> (
                    #[trigger] self.transforms@[e]).wf(),
                forall|e: int|
                    0 <= e < i && self.sprites@.contains_key(e) ==> (
                    #[trigger] self.sprites@[e]).wf(),
                forall|e: int|
                    0 <= e < i && self.animations@.contains_key(e) ==> (
                    #[trigger] self.animations@[e]).wf(),
            decreases n - i,
        {
            let entity = Entity { id: i };
            let transform = match self.transforms.get(entity) {
                Some(t) => t.is_valid(),
                None => true,
            };
            let sprite = match self.sprites.get(entity) {
                Some(s) => s.is_valid(),
                None => true,
            };
            let animation = match self.animations.get(entity) {
                Some(a) => a.is_valid(),
                None => true,
            };
            if !(transform && sprite && animation) {
                return false;
            }
            i += 1;
        }
        true
    }

    /// No entity was made, and every storage is empty and has no slot.
    pub open spec fn pristine(&self) -> bool {
        &&& self.entities == 0
        &&& self.transforms@ == Map::<int, Transform>::empty()
        &&& self.sprites@ == Map::<int, Sprite>::empty()
        &&& self.bodies@ == Map::<int, Body>::empty()
        &&& self.feet_sensors@ == Map::<int, FeetSensor>::empty()
        &&& self.jumpers@ == Map::<int, Jumper>::empty()
        &&& self.animations@ == Map::<int, Animation>::empty()
        &&& self.players@ == Map::<int, Player>::empty()
        &&& self.camera_targets@ == Map::<int, CameraTarget>::empty()
        &&& self.basic_ais@ == Map::<int, BasicAI>::empty()
        &&& self.transforms.spec_len() == 0
        &&& self.sprites.spec_len() == 0
        &&& self.bodies.spec_len() == 0
        &&& self.feet_sensors.spec_len() == 0
        &&& self.jumpers.spec_len() == 0
        &&& self.animations.spec_len() == 0
        &&& self.players.spec_len() == 0
        &&& self.camera_targets.spec_len() == 0
        &&& self.basic_ais.spec_len() == 0
    }

    /// A world without entities: nothing was made yet, every storage is
    /// empty, and so no entity has a component and no handle is stale.
    pub fn new() -> (w: World)
        ensures
            w.pristine(),
            w.entities == 0,
            forall|e: int| w.bare(e),
            forall|physics: Snapshot| w.linked(physics),
            w.wf(),
    {
        World {
            entities: 0,
            transforms: Storage::new(),
            sprites: Storage::new(),
            bodies: Storage::new(),
            feet_sensors: Storage::new(),
            jumpers: Storage::new(),
            animations: Storage::new(),
            players: Storage::new(),
            camera_targets: Storage::new(),
            basic_ais: Storage::new(),
        }
    }

    /// Makes a new entity without components. Entities are numbered in the
    /// order in which they are made.
    pub fn create_entity(&mut self) -> (entity: Entity)
        requires
            old(self).entities < usize::MAX,
        ensures
            entity.id == old(self).entities,
            *final(self) == (World { entities: (old(self).entities + 1) as usize, ..*old(self) }),
            old(self).wf() ==> final(self).wf() && final(self).bare(entity.id as int),
    {
        let entity = Entity { id: self.entities };
        self.entities = self.entities + 1;
        entity
    }
}

} // verus!
