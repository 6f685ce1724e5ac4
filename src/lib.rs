//! A fixed-step 2D rigid-body simulation harness. The library owns a physics
//! world, advances it one step per pull up to a fixed bound, and after each
//! step hands out a renderer-neutral snapshot of every collider.
//!
//! Real numbers of the physics engine never appear as such in this library:
//! a coordinate or an extent is carried as the IEEE-754 single-precision bit
//! pattern of its value (`u32`), which converts to and from the engine's own
//! scalar without loss.

mod engine;
mod shape;
mod simulation;
mod world;

pub use shape::{classify_shape, is_reported_shape, points_view, reports_geometry, PointBits, SimulationObject, SimulationObjectShape, FALLBACK_HALF_EXTENT_BITS};
pub use simulation::{after_pull, counter_after, lemma_pulls_until_bound, lemma_no_polygon_reports_rectangles, lemma_snapshot_determined_by_world, lemma_snapshot_per_collider, pull, Simulation, MAX_STEPS};
pub use engine::{MotionKind, ShapeKind};
pub use world::{create_initial_simulation_objects, is_initial_driver, is_initial_target, InitialSimulationObjects, PhysicsObject};
