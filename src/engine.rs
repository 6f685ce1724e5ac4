//! The physics engine as this library sees it: the engine's types, declared
//! opaque, and the calls into it. The colliders and rigid bodies that a set
//! holds are named by their handles' raw parts (slot index, generation).
use vstd::prelude::*;
use rapier2d::dynamics::{
    CCDSolver, IntegrationParameters, IslandManager, JointSet, RigidBody, RigidBodyBuilder,
    RigidBodyHandle, RigidBodySet,
};
use rapier2d::geometry::{
    BroadPhase, Collider, ColliderBuilder, ColliderHandle, ColliderSet, NarrowPhase, TypedShape,
};
use rapier2d::math::{Real, Vector};
use rapier2d::pipeline::PhysicsPipeline;
use crate::shape::{points_view, PointBits};

verus! {

#[verifier::external_type_specification]
#[verifier::external_body]
pub struct ExRigidBody(RigidBody);

#[verifier::external_type_specification]
#[verifier::external_body]
pub struct ExCollider(Collider);

#[verifier::external_type_specification]
#[verifier::external_body]
pub struct ExRigidBodySet(RigidBodySet);

#[verifier::external_type_specification]
#[verifier::external_body]
pub struct ExColliderSet(ColliderSet);

#[verifier::external_type_specification]
#[verifier::external_body]
pub struct ExPhysicsPipeline(PhysicsPipeline);

#[verifier::external_type_specification]
#[verifier::external_body]
pub struct ExIntegrationParameters(IntegrationParameters);

#[verifier::external_type_specification]
#[verifier::external_body]
pub struct ExIslandManager(IslandManager);

#[verifier::external_type_specification]
#[verifier::external_body]
pub struct ExBroadPhase(BroadPhase);

#[verifier::external_type_specification]
#[verifier::external_body]
pub struct ExNarrowPhase(NarrowPhase);

#[verifier::external_type_specification]
#[verifier::external_body]
pub struct ExJointSet(JointSet);

#[verifier::external_type_specification]
#[verifier::external_body]
pub struct ExCCDSolver(CCDSolver);

/// How a rigid body moves.
#[derive(Clone, Copy, Debug, PartialEq, Eq, Structural)]
pub enum MotionKind {
    Dynamic,
    Static,
    KinematicPositionBased,
    KinematicVelocityBased,
}

/// The geometry of a collider, as far as this library distinguishes it.
#[derive(Clone, Copy, Debug, PartialEq, Eq, Structural)]
pub enum ShapeKind {
    /// A disc of the given radius.
    Ball(u32),
    /// A rectangle of the given half-extents.
    Cuboid(u32, u32),
    /// Any other geometry.
    Other,
}

/// The geometry of a collider.
pub uninterp spec fn collider_shape_of(c: Collider) -> ShapeKind;

/// The vertices of a collider whose geometry is a convex polygon; `None`
/// for any other geometry.
pub uninterp spec fn collider_polygon_of(c: Collider) -> Option<Seq<PointBits>>;

/// The body (handle raw parts) a collider is attached to, if any.
pub uninterp spec fn collider_parent_of(c: Collider) -> Option<(u32, u32)>;

/// The translation of a collider's position.
pub uninterp spec fn collider_position_of(c: Collider) -> (u32, u32);

/// The linear velocity of a rigid body.
pub uninterp spec fn body_linvel_of(b: RigidBody) -> (u32, u32);

/// The angular velocity of a rigid body.
pub uninterp spec fn body_angvel_of(b: RigidBody) -> u32;

/// The translation of a rigid body.
pub uninterp spec fn body_translation_of(b: RigidBody) -> (u32, u32);

/// How a rigid body moves.
pub uninterp spec fn body_kind_of(b: RigidBody) -> MotionKind;

/// The restitution coefficient of a collider.
pub uninterp spec fn collider_restitution_of(c: Collider) -> u32;

/// The order in which a collider set enumerates its handles.
pub uninterp spec fn collider_order_of(s: ColliderSet) -> Seq<(u32, u32)>;

/// The world-space translation of each collider of a set, by handle.
pub uninterp spec fn translations_of(s: ColliderSet) -> Map<(u32, u32), (u32, u32)>;

/// For each collider of a set, by handle: its vertices where its geometry is
/// a convex polygon, `None` for any other geometry.
pub uninterp spec fn polygons_of(s: ColliderSet) -> Map<(u32, u32), Option<Seq<PointBits>>>;

/// The geometry of each collider of a set, by handle.
pub uninterp spec fn shapes_of(s: ColliderSet) -> Map<(u32, u32), ShapeKind>;

/// The parent body of each collider of a set, by handle.
pub uninterp spec fn parents_of(s: ColliderSet) -> Map<(u32, u32), Option<(u32, u32)>>;

/// The restitution of each collider of a set, by handle.
pub uninterp spec fn restitutions_of(s: ColliderSet) -> Map<(u32, u32), u32>;

/// How each rigid body of a set moves, by handle.
pub uninterp spec fn body_kinds_in(s: RigidBodySet) -> Map<(u32, u32), MotionKind>;

/// The translation of each rigid body of a set, by handle.
pub uninterp spec fn body_translations_in(s: RigidBodySet) -> Map<(u32, u32), (u32, u32)>;

/// The handles (raw parts) of the rigid bodies that a set holds.
pub uninterp spec fn bodies_of(s: RigidBodySet) -> Set<(u32, u32)>;

/// The handles (raw parts) of the colliders that a set holds.
pub uninterp spec fn colliders_of(s: ColliderSet) -> Set<(u32, u32)>;

/// Relies on `RigidBodySet::new`: a new set holds no body.
pub assume_specification[ RigidBodySet::new ]() -> (r: RigidBodySet)
    ensures
        bodies_of(r) == Set::<(u32, u32)>::empty(),
;

/// Relies on `ColliderSet::new`: a new set holds no collider.
pub assume_specification[ ColliderSet::new ]() -> (r: ColliderSet)
    ensures
        colliders_of(r) == Set::<(u32, u32)>::empty(),
;

/// Relies on `PhysicsPipeline::new`.
pub assume_specification[ PhysicsPipeline::new ]() -> PhysicsPipeline;

/// Relies on `IslandManager::new`.
pub assume_specification[ IslandManager::new ]() -> IslandManager;

/// Relies on `BroadPhase::new`.
pub assume_specification[ BroadPhase::new ]() -> BroadPhase;

/// Relies on `NarrowPhase::new`.
pub assume_specification[ NarrowPhase::new ]() -> NarrowPhase;

/// Relies on `JointSet::new`.
pub assume_specification[ JointSet::new ]() -> JointSet;

/// Relies on `CCDSolver::new`.
pub assume_specification[ CCDSolver::new ]() -> CCDSolver;

/// Relies on `IntegrationParameters::default`: the engine's standard
/// integration parameters.
#[verifier::external_body]
pub(crate) fn default_integration_parameters() -> IntegrationParameters {
    IntegrationParameters::default()
}

/// Relies on `RigidBodyBuilder::new_dynamic`, `translation` and `build`: a
/// dynamic body at the given position, at rest.
#[verifier::external_body]
pub(crate) fn dynamic_body_at(x_bits: u32, y_bits: u32) -> (r: RigidBody)
    ensures
        body_kind_of(r) == MotionKind::Dynamic,
        body_translation_of(r) == (x_bits, y_bits),
        body_linvel_of(r) == (0u32, 0u32),
        body_angvel_of(r) == 0,
{
    RigidBodyBuilder::new_dynamic()
        .translation(Vector::new(Real::from_bits(x_bits), Real::from_bits(y_bits)))
        .build()
}

/// Relies on `RigidBodyBuilder::new_kinematic_position_based`,
/// `translation` and `build`: a position-driven kinematic body at the given
/// position, at rest.
#[verifier::external_body]
pub(crate) fn kinematic_body_at(x_bits: u32, y_bits: u32) -> (r: RigidBody)
    ensures
        body_kind_of(r) == MotionKind::KinematicPositionBased,
        body_translation_of(r) == (x_bits, y_bits),
        body_linvel_of(r) == (0u32, 0u32),
        body_angvel_of(r) == 0,
{
    RigidBodyBuilder::new_kinematic_position_based()
        .translation(Vector::new(Real::from_bits(x_bits), Real::from_bits(y_bits)))
        .build()
}

/// Relies on `ColliderBuilder::ball`, `restitution` and `build`: a disc
/// collider at the origin of its frame, with no parent yet.
#[verifier::external_body]
pub(crate) fn ball_collider(radius_bits: u32, restitution_bits: u32) -> (r: Collider)
    ensures
        collider_shape_of(r) == ShapeKind::Ball(radius_bits),
        collider_polygon_of(r) is None,
        collider_parent_of(r) is None,
        collider_position_of(r) == (0u32, 0u32),
        collider_restitution_of(r) == restitution_bits,
{
    ColliderBuilder::ball(Real::from_bits(radius_bits))
        .restitution(Real::from_bits(restitution_bits))
        .build()
}

/// Relies on `ColliderBuilder::cuboid`, `restitution` and `build`: a
/// rectangle collider with the given half-extents, at the origin of its
/// frame, with no parent yet.
#[verifier::external_body]
pub(crate) fn cuboid_collider(hx_bits: u32, hy_bits: u32, restitution_bits: u32) -> (r: Collider)
    ensures
        collider_shape_of(r) == ShapeKind::Cuboid(hx_bits, hy_bits),
        collider_polygon_of(r) is None,
        collider_parent_of(r) is None,
        collider_position_of(r) == (0u32, 0u32),
        collider_restitution_of(r) == restitution_bits,
{
    ColliderBuilder::cuboid(Real::from_bits(hx_bits), Real::from_bits(hy_bits))
        .restitution(Real::from_bits(restitution_bits))
        .build()
}

/// Relies on `RigidBodySet::insert`: the body is stored under a handle that
/// the set did not hold before.
#[verifier::external_body]
pub(crate) fn insert_body(set: &mut RigidBodySet, body: RigidBody) -> (r: (u32, u32))
    ensures
        !bodies_of(*old(set)).contains(r),
        bodies_of(*final(set)) == bodies_of(*old(set)).insert(r),
        body_kinds_in(*final(set)) == body_kinds_in(*old(set)).insert(r, body_kind_of(body)),
        body_translations_in(*final(set)) == body_translations_in(*old(set)).insert(r, body_translation_of(body)),
{
    set.insert(body).into_raw_parts()
}

/// Relies on `ColliderSet::insert`: the collider is stored as it is, with
/// no parent, under a handle that the set did not hold before; the other
/// colliders are untouched.
#[verifier::external_body]
pub(crate) fn insert_collider(set: &mut ColliderSet, collider: Collider) -> (r: (u32, u32))
    ensures
        !colliders_of(*old(set)).contains(r),
        colliders_of(*final(set)) == colliders_of(*old(set)).insert(r),
        shapes_of(*final(set)) == shapes_of(*old(set)).insert(r, collider_shape_of(collider)),
        polygons_of(*final(set)) == polygons_of(*old(set)).insert(r, collider_polygon_of(collider)),
        restitutions_of(*final(set)) == restitutions_of(*old(set)).insert(r, collider_restitution_of(collider)),
        parents_of(*final(set)) == parents_of(*old(set)).insert(r, None),
        translations_of(*final(set)) == translations_of(*old(set)).insert(r, collider_position_of(collider)),
{
    set.insert(collider).into_raw_parts()
}

/// Relies on `ColliderSet::insert_with_parent`: the collider is stored under
/// a handle that the set did not hold before and attached to the parent
/// body, which must be in `bodies` (the call panics otherwise). Its
/// geometry and restitution are kept; the other colliders, and the parent's
/// kind and translation, are untouched.
#[verifier::external_body]
pub(crate) fn insert_collider_with_parent(
    set: &mut ColliderSet,
    collider: Collider,
    parent: (u32, u32),
    bodies: &mut RigidBodySet,
) -> (r: (u32, u32))
    requires
        bodies_of(*old(bodies)).contains(parent),
    ensures
        !colliders_of(*old(set)).contains(r),
        colliders_of(*final(set)) == colliders_of(*old(set)).insert(r),
        shapes_of(*final(set)) == shapes_of(*old(set)).insert(r, collider_shape_of(collider)),
        polygons_of(*final(set)) == polygons_of(*old(set)).insert(r, collider_polygon_of(collider)),
        restitutions_of(*final(set)) == restitutions_of(*old(set)).insert(r, collider_restitution_of(collider)),
        parents_of(*final(set)) == parents_of(*old(set)).insert(r, Some(parent)),
        forall|h: (u32, u32)| #![trigger translations_of(*final(set))[h]]
            colliders_of(*old(set)).contains(h) ==> translations_of(*final(set))[h] == translations_of(*old(set))[h],
        bodies_of(*final(bodies)) == bodies_of(*old(bodies)),
        body_kinds_in(*final(bodies)) == body_kinds_in(*old(bodies)),
        body_translations_in(*final(bodies)) == body_translations_in(*old(bodies)),
{
    let handle = RigidBodyHandle::from_raw_parts(parent.0, parent.1);
    set.insert_with_parent(collider, handle, bodies).into_raw_parts()
}

/// Relies on `ColliderSet::iter`: every handle of the set, each once, in the
/// set's enumeration order.
#[verifier::external_body]
pub(crate) fn collider_handles(set: &ColliderSet) -> (r: Vec<(u32, u32)>)
    ensures
        r@ == collider_order_of(*set),
        r@.no_duplicates(),
        r@.to_set() == colliders_of(*set),
{
    set.iter().map(|(h, _)| h.into_raw_parts()).collect()
}

/// Relies on `Collider::translation`: the world-space position of a
/// collider of the set.
#[verifier::external_body]
pub(crate) fn collider_translation(set: &ColliderSet, handle: (u32, u32)) -> (r: (u32, u32))
    requires
        colliders_of(*set).contains(handle),
    ensures
        r == translations_of(*set)[handle],
{
    let t = set[ColliderHandle::from_raw_parts(handle.0, handle.1)].translation();
    (t.x.to_bits(), t.y.to_bits())
}

/// Relies on `Collider::shape` and `Shape::as_typed_shape`: the vertices of
/// a collider of the set, in order, where its geometry is a convex polygon;
/// `None` for any other geometry.
#[verifier::external_body]
pub(crate) fn convex_polygon_points(set: &ColliderSet, handle: (u32, u32)) -> (r: Option<Vec<PointBits>>)
    requires
        colliders_of(*set).contains(handle),
    ensures
        points_view(r) == polygons_of(*set)[handle],
{
    let collider = &set[ColliderHandle::from_raw_parts(handle.0, handle.1)];
    match collider.shape().as_typed_shape() {
        TypedShape::ConvexPolygon(cp) => Some(
            cp.points().iter().map(|p| PointBits { x_bits: p.x.to_bits(), y_bits: p.y.to_bits() }).collect(),
        ),
        _ => None,
    }
}

/// Relies on `PhysicsPipeline::step`: advances every body and collider by
/// one time increment under the given gravity; it neither adds nor removes
/// a body or a collider, so the set's enumeration order stays as it was,
/// and changes no collider's geometry, restitution or parent, nor any
/// body's kind.
#[verifier::external_body]
pub(crate) fn step_world(
    pipeline: &mut PhysicsPipeline,
    gravity: (u32, u32),
    parameters: &IntegrationParameters,
    islands: &mut IslandManager,
    broad_phase: &mut BroadPhase,
    narrow_phase: &mut NarrowPhase,
    bodies: &mut RigidBodySet,
    colliders: &mut ColliderSet,
    joints: &mut JointSet,
    ccd_solver: &mut CCDSolver,
)
    ensures
        bodies_of(*final(bodies)) == bodies_of(*old(bodies)),
        colliders_of(*final(colliders)) == colliders_of(*old(colliders)),
        collider_order_of(*final(colliders)) == collider_order_of(*old(colliders)),
        shapes_of(*final(colliders)) == shapes_of(*old(colliders)),
        polygons_of(*final(colliders)) == polygons_of(*old(colliders)),
        restitutions_of(*final(colliders)) == restitutions_of(*old(colliders)),
        parents_of(*final(colliders)) == parents_of(*old(colliders)),
        body_kinds_in(*final(bodies)) == body_kinds_in(*old(bodies)),
{
    let g = Vector::new(Real::from_bits(gravity.0), Real::from_bits(gravity.1));
    pipeline.step(&g, parameters, islands, broad_phase, narrow_phase, bodies, colliders, joints, ccd_solver, &(), &());
}

} // verus!
