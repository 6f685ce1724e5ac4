//! The initial, not yet registered, physical configuration: a kinematic
//! driver and a dynamic target, each a body with its collider.
use vstd::prelude::*;
use rapier2d::dynamics::RigidBody;
use rapier2d::geometry::Collider;
use crate::engine::{
    ball_collider, body_angvel_of, body_kind_of, body_linvel_of, body_translation_of,
    collider_parent_of, collider_polygon_of, collider_position_of, collider_restitution_of,
    collider_shape_of, cuboid_collider, dynamic_body_at, kinematic_body_at, MotionKind, ShapeKind,
};

verus! {

/// Restitution of the driver and the target: `0.7`.
pub const RESTITUTION_BITS: u32 = 0x3F33_3333;

/// Position of the target: `(100.0, 380.0)`.
pub const TARGET_X_BITS: u32 = 0x42C8_0000;
pub const TARGET_Y_BITS: u32 = 0x43BE_0000;

/// Radius of the target's disc: `10.0`.
pub const TARGET_RADIUS_BITS: u32 = 0x4120_0000;

/// Position of the driver: `(10.0, 10.0)`.
pub const DRIVER_X_BITS: u32 = 0x4120_0000;
pub const DRIVER_Y_BITS: u32 = 0x4120_0000;

/// Half-extents of the driver's rectangle: `(200.0, 380.0)`.
pub const DRIVER_HALF_WIDTH_BITS: u32 = 0x4348_0000;
pub const DRIVER_HALF_HEIGHT_BITS: u32 = 0x43BE_0000;

/// A body and the one collider that will be attached to it.
pub struct PhysicsObject {
    pub body: RigidBody,
    pub collider: Collider,
}

/// The two objects that a simulation starts from, besides the ground.
pub struct InitialSimulationObjects {
    pub spinner: PhysicsObject,
    pub target: PhysicsObject,
}

/// A body at rest, and a collider not yet attached to any body, placed at
/// the origin of the frame it will be attached in.
pub open spec fn is_unattached_at_rest(o: PhysicsObject) -> bool {
    &&& body_linvel_of(o.body) == (0u32, 0u32)
    &&& body_angvel_of(o.body) == 0
    &&& collider_parent_of(o.collider) is None
    &&& collider_position_of(o.collider) == (0u32, 0u32)
    &&& collider_polygon_of(o.collider) is None
}

/// The target as built: a dynamic body at the target's position, with a
/// disc collider of the target's radius and the shared restitution.
pub open spec fn is_initial_target(o: PhysicsObject) -> bool {
    &&& body_kind_of(o.body) == MotionKind::Dynamic
    &&& body_translation_of(o.body) == (TARGET_X_BITS, TARGET_Y_BITS)
    &&& collider_shape_of(o.collider) == ShapeKind::Ball(TARGET_RADIUS_BITS)
    &&& collider_restitution_of(o.collider) == RESTITUTION_BITS
    &&& is_unattached_at_rest(o)
}

/// The driver as built: a position-driven kinematic body at the driver's
/// position, with a rectangle collider of the driver's half-extents and the
/// shared restitution.
pub open spec fn is_initial_driver(o: PhysicsObject) -> bool {
    &&& body_kind_of(o.body) == MotionKind::KinematicPositionBased
    &&& body_translation_of(o.body) == (DRIVER_X_BITS, DRIVER_Y_BITS)
    &&& collider_shape_of(o.collider) == ShapeKind::Cuboid(DRIVER_HALF_WIDTH_BITS, DRIVER_HALF_HEIGHT_BITS)
    &&& collider_restitution_of(o.collider) == RESTITUTION_BITS
    &&& is_unattached_at_rest(o)
}

/// Builds the driver and the target from fixed constants.
pub fn create_initial_simulation_objects() -> (r: InitialSimulationObjects)
    ensures
        is_initial_driver(r.spinner),
        is_initial_target(r.target),
{
    InitialSimulationObjects { spinner: create_spinner(), target: create_target() }
}

/// The dynamic target: a disc that falls from its starting height.
fn create_target() -> (r: PhysicsObject)
    ensures
        is_initial_target(r),
{
    let body = dynamic_body_at(TARGET_X_BITS, TARGET_Y_BITS);
    let collider = ball_collider(TARGET_RADIUS_BITS, RESTITUTION_BITS);
    PhysicsObject { body, collider }
}

/// The kinematic driver: a rectangle whose pose is set from outside.
fn create_spinner() -> (r: PhysicsObject)
    ensures
        is_initial_driver(r),
{
    let body = kinematic_body_at(DRIVER_X_BITS, DRIVER_Y_BITS);
    let collider = cuboid_collider(DRIVER_HALF_WIDTH_BITS, DRIVER_HALF_HEIGHT_BITS, RESTITUTION_BITS);
    PhysicsObject { body, collider }
}

} // verus!
