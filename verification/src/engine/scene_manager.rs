//! A scene: a world with its physics world and resources, and the two
//! halves of its tick. The scene manager keeps the scenes of a game.
//!
//! The tick is split where the solver works. First `update` takes the
//! keyboard snapshot and steers the player, which leaves commands for the
//! solver. The owner of the solver applies them, integrates one step and
//! hands the outcome to `step`, which runs the rest of the pipeline: physics
//! sync, animation, camera, enemies.

use vstd::prelude::*;
use crate::engine::camera::Camera;
use crate::engine::physics::{Command, PhysicsWorld, StepReport};
use crate::engine::resources::{DeltaTime, DrawCommand, InputEvents, KeyCode, KeyMods, Renderables};
use crate::engine::world::World;
use crate::systems::animation::AnimationSystem;
use crate::systems::camera_follow::CameraSystem;
use crate::systems::enemy::EnemySystem;
use crate::systems::physics_sync::{PhysicsSystem, Syncing};
use crate::systems::player_control::{Controls, PlayerControlSystem};
use crate::systems::rendering::RenderingSystem;
use crate::util::fixed::MAX_COORD;

verus! {

/// One world with all that belongs to it.
pub struct Scene {
    pub world: World,
    pub physics_world: PhysicsWorld,
    pub camera: Camera,
    pub input_events: InputEvents,
    pub renderables: Renderables,
    pub delta_time: DeltaTime,
}

impl Scene {
    /// The world, the physics world and the camera are within their ranges.
    pub open spec fn wf(&self) -> bool {
        self.world.wf() && self.physics_world.wf() && self.camera.wf()
    }

    /// Tests that the world, the physics world and the camera are within
    /// their ranges.
    pub fn is_valid(&self) -> (r: bool)
        ensures
            r == self.wf(),
    {
        self.world.is_valid() && self.physics_world.is_valid() && self.camera.is_valid()
    }

    /// Every body and every feet sensor of an entity names a body or a
    /// collider of the physics world: no handle is stale.
    pub open spec fn linked(&self) -> bool {
        self.world.linked(self.physics_world.snapshot())
    }

    /// Whether `self` is `before` after the first half of a tick with the
    /// keys `held`, the modifiers `active_mods`, at the time `now`, after a
    /// frame of `delta`: the camera has moved toward its target, the keyboard
    /// snapshot is the new one, every player has been steered by it, and the
    /// commands for the solver have grown by those of the players.
    pub open spec fn updated_from(
        &self,
        before: Scene,
        held: Seq<KeyCode>,
        active_mods: KeyMods,
        now: u64,
        delta: u64,
    ) -> bool {
        &&& self.delta_time == DeltaTime(delta)
        &&& self.camera == before.camera.smoothed()
        &&& self.input_events.refreshed(before.input_events, held, active_mods, now)
        &&& ({
            let controls = Controls {
                input: self.input_events,
                physics: before.physics_world.snapshot(),
                transforms: before.world.transforms@,
                bodies: before.world.bodies@,
                players: before.world.players@,
                feet: before.world.feet_sensors@,
                jumpers: before.world.jumpers@,
                animations: before.world.animations@,
            };
            &&& self.world.transforms@ == controls.transforms_after()
            &&& self.world.jumpers@ == controls.jumpers_after()
            &&& self.world.animations@ == controls.animations_after()
            &&& self.physics_world.commands@ == before.physics_world.commands@ + controls.emitted(
                before.world.transforms.spec_len() as int,
            )
        })
        &&& self.physics_world.snapshot() == before.physics_world.snapshot()
        &&& self.physics_world.gravity == before.physics_world.gravity
        &&& self.world.entities == before.world.entities
        &&& self.world.sprites@ == before.world.sprites@
        &&& self.world.bodies@ == before.world.bodies@
        &&& self.world.feet_sensors@ == before.world.feet_sensors@
        &&& self.world.players@ == before.world.players@
        &&& self.world.camera_targets@ == before.world.camera_targets@
        &&& self.world.basic_ais@ == before.world.basic_ais@
        &&& self.renderables.0@ == before.renderables.0@
    }

    /// Whether `self` is `before` after the second half of a tick in which
    /// the solver reported `states` and `contacts`: the physics world has
    /// taken the report in, every entity with a live body has been synced to
    /// it, every animation has advanced, the camera aims at the last entity
    /// that it may follow, and the commands for the solver have grown by
    /// those of the enemies.
    pub open spec fn stepped_from(&self, before: Scene, report: StepReport) -> bool {
        let stepped = Syncing {
            physics: before.physics_world.snapshot().stepped(report.bodies@, report.contacts@),
            transforms: before.world.transforms@,
            bodies: before.world.bodies@,
            feet_sensors: before.world.feet_sensors@,
            animations: before.world.animations@,
        };
        let physics = stepped.physics;
        &&& self.physics_world.snapshot() == stepped.physics
        &&& self.physics_world.gravity == before.physics_world.gravity
        &&& self.world.transforms@ == stepped.transforms_after()
        &&& self.world.feet_sensors@ == stepped.feet_after()
        &&& self.world.animations@ == AnimationSystem::animated(
            stepped.animations_after(),
            before.world.sprites@,
        )
        &&& self.world.sprites@ == AnimationSystem::framed(
            stepped.animations_after(),
            before.world.sprites@,
        )
        &&& forall|e: int|
            CameraSystem::wins(self.world.transforms@, before.world.camera_targets@, e)
                ==> self.camera == (Camera {
                target_position: (#[trigger] self.world.transforms@[e]).position,
                ..before.camera
            })
        &&& (forall|e: int|
            !#[trigger] CameraSystem::followed(
                self.world.transforms@,
                before.world.camera_targets@,
                e,
            )) ==> self.camera == before.camera
        &&& self.physics_world.commands@ == before.physics_world.commands@ + EnemySystem::emitted(
            physics,
            before.world.basic_ais@,
            self.world.feet_sensors@,
            before.world.bodies@,
            before.world.bodies.spec_len() as int,
        )
        &&& self.world.entities == before.world.entities
        &&& self.world.bodies@ == before.world.bodies@
        &&& self.world.jumpers@ == before.world.jumpers@
        &&& self.world.players@ == before.world.players@
        &&& self.world.camera_targets@ == before.world.camera_targets@
        &&& self.world.basic_ais@ == before.world.basic_ais@
        &&& self.renderables.0@ == before.renderables.0@
        &&& self.input_events == before.input_events
        &&& self.delta_time == before.delta_time
    }

    /// After the second half of a tick the position of every entity that has
    /// a transform and a body is the position of its body, which is the one
    /// that the solver reported where the report covers the body. This holds
    /// of a scene without stale handles.
    pub proof fn lemma_positions_follow_bodies(&self, before: Scene, report: StepReport, e: int)
        requires
            self.stepped_from(before, report),
            before.linked(),
            before.world.transforms@.contains_key(e),
            before.world.bodies@.contains_key(e),
        ensures
            self.world.transforms@.contains_key(e),
            self.world.bodies@[e] == before.world.bodies@[e],
            self.physics_world.body(self.world.bodies@[e].rigid_body_handle).is_some(),
            self.world.transforms@[e].position == self.physics_world.body(
                self.world.bodies@[e].rigid_body_handle,
            ).unwrap().state.position,
            self.world.bodies@[e].rigid_body_handle.index < report.bodies@.len()
                ==> self.world.transforms@[e].position
                == report.bodies@[self.world.bodies@[e].rigid_body_handle.index as int].position,
    {
    }

    /// After the second half of a tick the feet sensor of every entity that
    /// has a transform, a body and a sensor says whether the reported
    /// contacts link the sensor's collider to one tagged as ground. This
    /// holds of a scene without stale handles.
    pub proof fn lemma_on_floor_follows_contacts(
        &self,
        before: Scene,
        report: StepReport,
        e: int,
    )
        requires
            self.stepped_from(before, report),
            before.linked(),
            before.world.transforms@.contains_key(e),
            before.world.bodies@.contains_key(e),
            before.world.feet_sensors@.contains_key(e),
        ensures
            self.world.feet_sensors@.contains_key(e),
            self.world.feet_sensors@[e].collider_handle
                == before.world.feet_sensors@[e].collider_handle,
            self.world.feet_sensors@[e].on_floor == self.physics_world.touches(
                self.world.feet_sensors@[e].collider_handle,
                crate::engine::physics::ColliderTag::Brick,
            ),
    {
    }

    /// A scene of `world` and `physics_world`, with a camera at the origin,
    /// no key held, nothing to draw and no time passed.
    pub fn new(world: World, physics_world: PhysicsWorld) -> (scene: Scene)
        ensures
            scene.world == world,
            scene.physics_world == physics_world,
            scene.camera == Camera::default_spec(),
            forall|key: KeyCode| !scene.input_events.pressed(key),
            scene.input_events.active_mods == KeyMods::no_mods(),
            scene.input_events.now == 0,
            scene.renderables.0@.len() == 0,
            scene.delta_time == DeltaTime(0),
            world.wf() && physics_world.wf() ==> scene.wf(),
            world.linked(physics_world.snapshot()) ==> scene.linked(),
    {
        Scene {
            world,
            physics_world,
            camera: Camera::default(),
            input_events: InputEvents::default(),
            renderables: Renderables::default(),
            delta_time: DeltaTime(0),
        }
    }

    /// The first half of a tick: notes the frame time, moves the camera
    /// toward its target, takes the keyboard snapshot and steers the player.
    pub fn update(&mut self, held: &Vec<KeyCode>, active_mods: KeyMods, now: u64, delta: u64)
        requires
            old(self).wf(),
        ensures
            final(self).updated_from(*old(self), held@, active_mods, now, delta),
            final(self).wf(),
            old(self).linked() ==> final(self).linked(),
    {
        self.delta_time = DeltaTime(delta);
        self.camera.update();
        self.input_events.refresh(held, active_mods, now);
        let mut system = PlayerControlSystem;
        system.run(
            &mut self.world.transforms,
            &self.input_events,
            &self.world.players,
            &self.world.bodies,
            &mut self.physics_world,
            &self.world.feet_sensors,
            &mut self.world.jumpers,
            &mut self.world.animations,
        );
    }

    /// The second half of a tick: takes in the solver's report, syncs the
    /// entities to it, advances the animations, aims the camera and pushes
    /// the enemies.
    pub fn step(&mut self, report: StepReport)
        requires
            old(self).wf(),
            report.wf(),
        ensures
            final(self).stepped_from(*old(self), report),
            final(self).wf(),
            old(self).linked() ==> final(self).linked(),
    {
        let mut physics_system = PhysicsSystem;
        physics_system.run(
            &mut self.world.transforms,
            &self.world.bodies,
            &mut self.physics_world,
            &mut self.world.animations,
            &mut self.world.feet_sensors,
            report,
        );
        let mut animation_system = AnimationSystem;
        animation_system.run(&mut self.world.animations, &mut self.world.sprites);
        let mut camera_system = CameraSystem;
        camera_system.run(&self.world.transforms, &mut self.camera, &self.world.camera_targets);
        let mut enemy_system = EnemySystem;
        enemy_system.run(
            &self.world.basic_ais,
            &self.world.feet_sensors,
            &self.world.bodies,
            &mut self.physics_world,
        );
    }

    /// Queues the draw commands of every sprite for a window of `width` by
    /// `height`, then hands over the whole queue, oldest first, and leaves it
    /// empty.
    pub fn draw(&mut self, width: i64, height: i64) -> (commands: Vec<DrawCommand>)
        requires
            old(self).wf(),
            0 <= width <= MAX_COORD,
            0 <= height <= MAX_COORD,
        ensures
            commands@ == old(self).renderables.0@ + (RenderingSystem { width, height }).drawn(
                old(self).world.sprites@,
                old(self).world.transforms@,
                old(self).camera,
                old(self).world.sprites.spec_len() as int,
            ),
            final(self).renderables.0@.len() == 0,
            final(self).world == old(self).world,
            final(self).physics_world == old(self).physics_world,
            final(self).camera == old(self).camera,
            final(self).input_events == old(self).input_events,
            final(self).delta_time == old(self).delta_time,
    {
        let mut render_system = RenderingSystem::new(width, height);
        render_system.run(
            &self.world.sprites,
            &self.world.transforms,
            &mut self.renderables,
            &self.camera,
        );
        let ghost queued = self.renderables.0@;
        let mut commands: Vec<DrawCommand> = Vec::new();
        while self.renderables.0.len() > 0
            invariant
                commands@ + self.renderables.0@ == queued,
                self.world == old(self).world,
                self.physics_world == old(self).physics_world,
                self.camera == old(self).camera,
                self.input_events == old(self).input_events,
                self.delta_time == old(self).delta_time,
            decreases self.renderables.0@.len(),
        {
            let ghost rest = self.renderables.0@;
            let ghost done = commands@;
            if let Some(renderable) = self.renderables.0.pop_front() {
                commands.push(renderable);
                assert(commands@ + self.renderables.0@ =~= done + rest);
            }
        }
        assert(commands@ =~= commands@ + self.renderables.0@);
        commands
    }

    /// Hands over the commands that wait for the solver, oldest first, and
    /// leaves none behind.
    pub fn take_commands(&mut self) -> (taken: Vec<Command>)
        ensures
            taken@ == old(self).physics_world.commands@,
            final(self).physics_world.commands@.len() == 0,
            final(self).physics_world.snapshot() == old(self).physics_world.snapshot(),
            final(self).physics_world.gravity == old(self).physics_world.gravity,
            final(self).world == old(self).world,
            final(self).camera == old(self).camera,
            final(self).input_events == old(self).input_events,
            final(self).renderables == old(self).renderables,
            final(self).delta_time == old(self).delta_time,
            old(self).wf() ==> final(self).wf(),
    {
        self.physics_world.take_commands()
    }
}

/// The scenes of a game. The first scene is the current one; scenes pushed
/// later wait behind it.
pub struct SceneManager {
    pub scenes: Vec<Scene>,
}

impl SceneManager {
    /// Every scene is within its ranges.
    pub open spec fn wf(&self) -> bool {
        forall|i: int| 0 <= i < self.scenes@.len() ==> (#[trigger] self.scenes@[i]).wf()
    }

    /// Tests that every scene is within its ranges.
    pub fn is_valid(&self) -> (r: bool)
        ensures
            r == self.wf(),
    {
        let mut i: usize = 0;
        while i < self.scenes.len()
            invariant
                i <= self.scenes@.len(),
                forall|k: int| 0 <= k < i ==> (#[trigger] self.scenes@[k]).wf(),
            decreases self.scenes@.len() - i,
        {
            if !self.scenes[i].is_valid() {
                return false;
            }
            i += 1;
        }
        true
    }

    /// Whether every scene but the current one is the same in both.
    pub open spec fn same_rest(&self, before: SceneManager) -> bool {
        &&& self.scenes@.len() == before.scenes@.len()
        &&& forall|i: int|
            1 <= i < self.scenes@.len() ==> (#[trigger] self.scenes@[i]) == before.scenes@[i]
    }

    /// A manager whose only scene is `first_scene`.
    pub fn new(first_scene: Scene) -> (manager: SceneManager)
        ensures
            manager.scenes@ == seq![first_scene],
            first_scene.wf() ==> manager.wf(),
    {
        let mut scenes: Vec<Scene> = Vec::new();
        scenes.push(first_scene);
        SceneManager { scenes }
    }

    /// The current scene: the first.
    pub fn current_scene(&mut self) -> (scene: &mut Scene)
        requires
            old(self).scenes@.len() > 0,
        ensures
            *scene == old(self).scenes@[0],
            final(self).scenes@ == old(self).scenes@.update(0, *final(scene)),
    {
        &mut self.scenes[0]
    }

    /// Adds `scene` behind the others.
    pub fn push_scene(&mut self, scene: Scene)
        ensures
            final(self).scenes@ == old(self).scenes@.push(scene),
            old(self).wf() && scene.wf() ==> final(self).wf(),
    {
        self.scenes.push(scene);
    }

    /// Takes the last scene away and returns it, or `None` where there is no
    /// scene.
    pub fn pop_scene(&mut self) -> (scene: Option<Scene>)
        ensures
            old(self).scenes@.len() == 0 ==> scene.is_none() && final(self).scenes@ == old(self).scenes@,
            old(self).scenes@.len() > 0 ==> scene == Some(old(self).scenes@.last()) && final(self).scenes@ == old(self).scenes@.drop_last(),
            old(self).wf() ==> final(self).wf(),
    {
        self.scenes.pop()
    }

    /// The first half of a tick of the current scene. Without a scene nothing
    /// happens.
    pub fn update(&mut self, held: &Vec<KeyCode>, active_mods: KeyMods, now: u64, delta: u64)
        requires
            old(self).wf(),
        ensures
            final(self).wf(),
            final(self).same_rest(*old(self)),
            old(self).scenes@.len() > 0 ==> final(self).scenes@[0].updated_from(
                old(self).scenes@[0],
                held@,
                active_mods,
                now,
                delta,
            ),
    {
        if self.scenes.len() > 0 {
            self.scenes[0].update(held, active_mods, now, delta);
        }
    }

    /// The second half of a tick of the current scene. Without a scene
    /// nothing happens.
    pub fn step(&mut self, report: StepReport)
        requires
            old(self).wf(),
            report.wf(),
        ensures
            final(self).wf(),
            final(self).same_rest(*old(self)),
            old(self).scenes@.len() > 0 ==> final(self).scenes@[0].stepped_from(
                old(self).scenes@[0],
                report,
            ),
    {
        if self.scenes.len() > 0 {
            self.scenes[0].step(report);
        }
    }

    /// The draw commands of the current scene for a window of `width` by
    /// `height`. Without a scene there is nothing to draw.
    pub fn draw(&mut self, width: i64, height: i64) -> (commands: Vec<DrawCommand>)
        requires
            old(self).wf(),
            0 <= width <= MAX_COORD,
            0 <= height <= MAX_COORD,
        ensures
            final(self).wf(),
            final(self).same_rest(*old(self)),
            old(self).scenes@.len() == 0 ==> commands@.len() == 0,
            old(self).scenes@.len() > 0 ==> {
                let before = old(self).scenes@[0];
                let after = final(self).scenes@[0];
                &&& commands@ == before.renderables.0@ + (RenderingSystem { width, height }).drawn(
                    before.world.sprites@,
                    before.world.transforms@,
                    before.camera,
                    before.world.sprites.spec_len() as int,
                )
                &&& after.renderables.0@.len() == 0
                &&& after.world == before.world
                &&& after.physics_world == before.physics_world
                &&& after.camera == before.camera
                &&& after.input_events == before.input_events
                &&& after.delta_time == before.delta_time
            },
    {
        if self.scenes.len() > 0 {
            self.scenes[0].draw(width, height)
        } else {
            Vec::new()
        }
    }

    /// The commands of the current scene that wait for the solver. Without a
    /// scene there are none.
    pub fn take_commands(&mut self) -> (taken: Vec<Command>)
        ensures
            final(self).same_rest(*old(self)),
            old(self).wf() ==> final(self).wf(),
            old(self).scenes@.len() == 0 ==> taken@.len() == 0,
            old(self).scenes@.len() > 0 ==> {
                let before = old(self).scenes@[0];
                let after = final(self).scenes@[0];
                &&& taken@ == before.physics_world.commands@
                &&& after.physics_world.commands@.len() == 0
                &&& after.physics_world.snapshot() == before.physics_world.snapshot()
                &&& after.physics_world.gravity == before.physics_world.gravity
                &&& after.world == before.world
                &&& after.camera == before.camera
                &&& after.input_events == before.input_events
                &&& after.renderables == before.renderables
                &&& after.delta_time == before.delta_time
            },
    {
        if self.scenes.len() > 0 {
            self.scenes[0].take_commands()
        } else {
            Vec::new()
        }
    }
}

} // verus!
