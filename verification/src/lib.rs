//! Simulation core of a 2D platformer: components, a typed component store,
//! and the per-frame systems (input, physics sync, animation, camera, enemy
//! patrol, tiled rendering), all in fixed-point arithmetic.
//!
//! Lengths, speeds, ratios and angles are integers in thousandths of their
//! unit; times are in microseconds. The rigid-body solver, the window and the
//! keyboard are collaborators outside this crate: they hand in plain values
//! once per tick and receive plain values back.
//!
//! One tick of a scene runs in two halves around the solver's step:
//!
//! 1. `Scene::update` takes the keyboard snapshot, moves the camera and
//!    steers the player. It leaves commands for the solver.
//! 2. The owner of the solver takes the commands with `Scene::take_commands`,
//!    applies them, integrates one step and collects a `StepReport`.
//! 3. `Scene::step` takes the report in, copies each body's pose into its
//!    entity's transform, sets the grounded flags from the contacts, derives
//!    the animation states, advances the animations, aims the camera and
//!    pushes the enemies. It leaves commands again, to be applied before the
//!    next step.
//!
//! `Scene::draw` turns the sprites into draw commands in screen space.
//!
//! Every type whose values have a range says so in a `wf` predicate, which
//! the functions of this crate preserve, and offers `is_valid` to test it.

pub mod util;
pub mod components;
pub mod engine;
pub mod entities;
pub mod systems;
