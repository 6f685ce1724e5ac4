//! The simulation: owns the world, advances it one fixed step per pull up to
//! a fixed bound, and after each step extracts a snapshot of every collider.
use vstd::prelude::*;
use rapier2d::dynamics::{CCDSolver, IntegrationParameters, IslandManager, JointSet, RigidBodySet};
use rapier2d::geometry::{BroadPhase, ColliderSet, NarrowPhase};
use rapier2d::pipeline::PhysicsPipeline;
use crate::engine::{
    bodies_of, body_kind_of, body_kinds_in, body_translation_of, body_translations_in,
    collider_order_of, collider_polygon_of, collider_restitution_of, collider_shape_of,
    parents_of, polygons_of, restitutions_of, shapes_of, translations_of, collider_handles, ShapeKind, collider_translation, colliders_of, convex_polygon_points,
    cuboid_collider, default_integration_parameters, insert_body, insert_collider,
    insert_collider_with_parent, step_world,
};
use crate::shape::{
    classify_shape, is_reported_shape, reports_geometry, FALLBACK_HALF_EXTENT_BITS, PointBits, SimulationObject, SimulationObjectShape,
};
use crate::engine::MotionKind;
use crate::world::InitialSimulationObjects;

verus! {

/// The number of steps a simulation runs before it is exhausted.
pub const MAX_STEPS: u32 = 500;

/// Gravity: `(0.0, -9.81)`.
pub const GRAVITY_X_BITS: u32 = 0;
pub const GRAVITY_Y_BITS: u32 = 0xC11C_F5C3;

/// Half-extents of the ground: `(100.0, 0.1)`; it has no restitution.
pub const GROUND_HALF_WIDTH_BITS: u32 = 0x42C8_0000;
pub const GROUND_HALF_HEIGHT_BITS: u32 = 0x3DCC_CCCD;
pub const GROUND_RESTITUTION_BITS: u32 = 0;

/// What one pull does to the step counter: `Some` of the next counter while
/// the bound is not reached, `None` once it is.
pub open spec fn pull(current: nat, max: nat) -> Option<nat> {
    if current < max {
        Some(current + 1)
    } else {
        None
    }
}

/// The step counter after one pull from `current`.
pub open spec fn after_pull(current: nat, max: nat) -> nat {
    match pull(current, max) {
        Some(next) => next,
        None => current,
    }
}

/// The step counter after `n` pulls from `current`.
pub open spec fn counter_after(current: nat, max: nat, n: nat) -> nat
    decreases n,
{
    if n == 0 {
        current
    } else {
        after_pull(counter_after(current, max, (n - 1) as nat), max)
    }
}

/// A simulation started at step 0 with bound `max` yields on exactly its
/// first `max` pulls: pull number `n + 1` yields a snapshot sequence if and
/// only if `n < max`, so the pull after the last sequence, and every pull
/// after that, signals the end. The counter after `n` pulls is the smaller
/// of `n` and `max`.
pub proof fn lemma_pulls_until_bound(max: nat, n: nat)
    ensures
        counter_after(0, max, n) == if n < max { n } else { max },
        pull(counter_after(0, max, n), max) is Some <==> n < max,
    decreases n,
{
    if n > 0 {
        lemma_pulls_until_bound(max, (n - 1) as nat);
    }
}

struct SimulationData {
    gravity: (u32, u32),
    integration_parameters: IntegrationParameters,
    island_manager: IslandManager,
    broad_phase: BroadPhase,
    narrow_phase: NarrowPhase,
    collider_set: ColliderSet,
    joint_set: JointSet,
    ccd_solver: CCDSolver,
}

/// A bounded run of a physics world, pulled one step at a time.
pub struct Simulation {
    max_steps: u32,
    current_step: u32,
    objects: RigidBodySet,
    physics_pipeline: PhysicsPipeline,
    simulation_data: SimulationData,
    ground_collider: Ghost<(u32, u32)>,
    target_body: Ghost<(u32, u32)>,
    target_collider: Ghost<(u32, u32)>,
    spinner_body: Ghost<(u32, u32)>,
    spinner_collider: Ghost<(u32, u32)>,
}

impl Simulation {
    /// Steps taken so far.
    pub closed spec fn current_step(&self) -> nat {
        self.current_step as nat
    }

    /// Steps after which the simulation is exhausted.
    pub closed spec fn max_steps(&self) -> nat {
        self.max_steps as nat
    }

    /// The gravity vector the world is stepped under.
    pub closed spec fn gravity(&self) -> (u32, u32) {
        self.simulation_data.gravity
    }

    /// The integration parameters the world is stepped with.
    pub closed spec fn integration_parameters(&self) -> IntegrationParameters {
        self.simulation_data.integration_parameters
    }

    /// Handles of the rigid bodies registered in the world.
    pub closed spec fn bodies(&self) -> Set<(u32, u32)> {
        bodies_of(self.objects)
    }

    /// Handles of the colliders registered in the world.
    pub closed spec fn colliders(&self) -> Set<(u32, u32)> {
        colliders_of(self.simulation_data.collider_set)
    }

    /// The order in which the world enumerates its colliders.
    pub closed spec fn collider_order(&self) -> Seq<(u32, u32)> {
        collider_order_of(self.simulation_data.collider_set)
    }

    /// Current translation of each collider, by handle.
    pub closed spec fn translations(&self) -> Map<(u32, u32), (u32, u32)> {
        translations_of(self.simulation_data.collider_set)
    }

    /// Convex polygon vertices of each collider (`None` for other
    /// geometry), by handle.
    pub closed spec fn polygons(&self) -> Map<(u32, u32), Option<Seq<PointBits>>> {
        polygons_of(self.simulation_data.collider_set)
    }

    /// Geometry of each collider, by handle.
    pub closed spec fn shapes(&self) -> Map<(u32, u32), ShapeKind> {
        shapes_of(self.simulation_data.collider_set)
    }

    /// Parent body of each collider, by handle.
    pub closed spec fn parents(&self) -> Map<(u32, u32), Option<(u32, u32)>> {
        parents_of(self.simulation_data.collider_set)
    }

    /// Restitution of each collider, by handle.
    pub closed spec fn restitutions(&self) -> Map<(u32, u32), u32> {
        restitutions_of(self.simulation_data.collider_set)
    }

    /// How each rigid body moves, by handle.
    pub closed spec fn body_kinds(&self) -> Map<(u32, u32), MotionKind> {
        body_kinds_in(self.objects)
    }

    /// Translation of each rigid body, by handle.
    pub closed spec fn body_translations(&self) -> Map<(u32, u32), (u32, u32)> {
        body_translations_in(self.objects)
    }

    /// The ground's collider.
    pub closed spec fn ground_collider(&self) -> (u32, u32) {
        self.ground_collider@
    }

    /// The target's body.
    pub closed spec fn target_body(&self) -> (u32, u32) {
        self.target_body@
    }

    /// The target's collider.
    pub closed spec fn target_collider(&self) -> (u32, u32) {
        self.target_collider@
    }

    /// The driver's body.
    pub closed spec fn spinner_body(&self) -> (u32, u32) {
        self.spinner_body@
    }

    /// The driver's collider.
    pub closed spec fn spinner_collider(&self) -> (u32, u32) {
        self.spinner_collider@
    }

    /// What a step leaves as it was: everything but the positions and
    /// velocities of the bodies and colliders.
    pub open spec fn same_structure(&self, other: &Simulation) -> bool {
        &&& other.max_steps() == self.max_steps()
        &&& other.gravity() == self.gravity()
        &&& other.integration_parameters() == self.integration_parameters()
        &&& other.bodies() == self.bodies()
        &&& other.colliders() == self.colliders()
        &&& other.collider_order() == self.collider_order()
        &&& other.shapes() == self.shapes()
        &&& other.polygons() == self.polygons()
        &&& other.parents() == self.parents()
        &&& other.restitutions() == self.restitutions()
        &&& other.body_kinds() == self.body_kinds()
        &&& other.ground_collider() == self.ground_collider()
        &&& other.target_body() == self.target_body()
        &&& other.target_collider() == self.target_collider()
        &&& other.spinner_body() == self.spinner_body()
        &&& other.spinner_collider() == self.spinner_collider()
    }

    /// Number of rigid bodies registered in the world.
    pub open spec fn body_count(&self) -> nat {
        self.bodies().len()
    }

    /// Number of colliders registered in the world.
    pub open spec fn collider_count(&self) -> nat {
        self.colliders().len()
    }

    /// `objects` is the world as it stands, read collider by collider in the
    /// world's enumeration order: each snapshot holds its collider's
    /// translation and the outline reported for its geometry.
    pub open spec fn is_snapshot(&self, objects: Seq<SimulationObject>) -> bool {
        &&& objects.len() == self.collider_order().len()
        &&& forall|i: int| #![trigger objects[i]] 0 <= i < objects.len() ==> {
            let h = self.collider_order()[i];
            &&& objects[i].x_bits == self.translations()[h].0
            &&& objects[i].y_bits == self.translations()[h].1
            &&& reports_geometry(self.polygons()[h], objects[i].shape)
        }
    }

    /// The step counter never passes the bound, the registries are finite,
    /// and the colliders are enumerated each exactly once.
    pub closed spec fn wf(&self) -> bool {
        &&& self.current_step <= self.max_steps
        &&& self.bodies().finite()
        &&& self.colliders().finite()
        &&& self.collider_order().no_duplicates()
        &&& self.collider_order().to_set() == self.colliders()
    }

    /// Registers the ground, the driver and the target in a new world, with
    /// each collider attached to its body, and sets the step bound and the
    /// gravity.
    pub fn create_physics_simulation(initial_objects: InitialSimulationObjects) -> (r: Simulation)
        ensures
            r.wf(),
            r.current_step() == 0,
            r.max_steps() == MAX_STEPS,
            r.gravity() == (GRAVITY_X_BITS, GRAVITY_Y_BITS),
            r.body_count() == 2,
            r.collider_count() == 3,
            r.bodies() == set![r.target_body(), r.spinner_body()],
            r.colliders() == set![r.ground_collider(), r.target_collider(), r.spinner_collider()],
            r.parents()[r.ground_collider()] is None,
            r.shapes()[r.ground_collider()] == ShapeKind::Cuboid(GROUND_HALF_WIDTH_BITS, GROUND_HALF_HEIGHT_BITS),
            r.polygons()[r.ground_collider()] is None,
            r.restitutions()[r.ground_collider()] == GROUND_RESTITUTION_BITS,
            r.translations()[r.ground_collider()] == (0u32, 0u32),
            r.parents()[r.target_collider()] == Some(r.target_body()),
            r.parents()[r.spinner_collider()] == Some(r.spinner_body()),
            r.body_kinds()[r.target_body()] == body_kind_of(initial_objects.target.body),
            r.body_translations()[r.target_body()] == body_translation_of(initial_objects.target.body),
            r.body_kinds()[r.spinner_body()] == body_kind_of(initial_objects.spinner.body),
            r.body_translations()[r.spinner_body()] == body_translation_of(initial_objects.spinner.body),
            r.shapes()[r.target_collider()] == collider_shape_of(initial_objects.target.collider),
            r.polygons()[r.target_collider()] == collider_polygon_of(initial_objects.target.collider),
            r.restitutions()[r.target_collider()] == collider_restitution_of(initial_objects.target.collider),
            r.shapes()[r.spinner_collider()] == collider_shape_of(initial_objects.spinner.collider),
            r.polygons()[r.spinner_collider()] == collider_polygon_of(initial_objects.spinner.collider),
            r.restitutions()[r.spinner_collider()] == collider_restitution_of(initial_objects.spinner.collider),
    {
        let spinner = initial_objects.spinner;
        let target = initial_objects.target;

        let mut rigid_body_set = RigidBodySet::new();
        let mut collider_set = ColliderSet::new();

        let ground = cuboid_collider(GROUND_HALF_WIDTH_BITS, GROUND_HALF_HEIGHT_BITS, GROUND_RESTITUTION_BITS);
        let ground_handle = insert_collider(&mut collider_set, ground);

        let spinner_handle = insert_body(&mut rigid_body_set, spinner.body);
        let target_handle = insert_body(&mut rigid_body_set, target.body);

        let target_collider = insert_collider_with_parent(&mut collider_set, target.collider, target_handle, &mut rigid_body_set);
        let spinner_collider = insert_collider_with_parent(&mut collider_set, spinner.collider, spinner_handle, &mut rigid_body_set);

        // The enumeration of a set covers each of its handles once.
        let handles = collider_handles(&collider_set);

        proof {
            let b = bodies_of(rigid_body_set);
            assert(b == Set::<(u32, u32)>::empty().insert(spinner_handle).insert(target_handle));
            assert(b.len() == 2);
            let s = colliders_of(collider_set);
            assert(s == Set::<(u32, u32)>::empty().insert(ground_handle).insert(target_collider).insert(spinner_collider));
            assert(s.len() == 3);
            assert(b == set![target_handle, spinner_handle]);
            assert(s == set![ground_handle, target_collider, spinner_collider]);
        }

        let simulation_data = SimulationData {
            gravity: (GRAVITY_X_BITS, GRAVITY_Y_BITS),
            integration_parameters: default_integration_parameters(),
            island_manager: IslandManager::new(),
            broad_phase: BroadPhase::new(),
            narrow_phase: NarrowPhase::new(),
            collider_set,
            joint_set: JointSet::new(),
            ccd_solver: CCDSolver::new(),
        };
        Simulation {
            max_steps: MAX_STEPS,
            current_step: 0,
            objects: rigid_body_set,
            physics_pipeline: PhysicsPipeline::new(),
            simulation_data,
            ground_collider: Ghost(ground_handle),
            target_body: Ghost(target_handle),
            target_collider: Ghost(target_collider),
            spinner_body: Ghost(spinner_handle),
            spinner_collider: Ghost(spinner_collider),
        }
    }

    /// Advances the world by one fixed step under the stored gravity and
    /// integration parameters; no body or collider is added or removed.
    fn step(&mut self)
        ensures
            final(self).current_step == old(self).current_step,
            old(self).same_structure(&*final(self)),
    {
        let data = &mut self.simulation_data;
        step_world(
            &mut self.physics_pipeline,
            data.gravity,
            &data.integration_parameters,
            &mut data.island_manager,
            &mut data.broad_phase,
            &mut data.narrow_phase,
            &mut self.objects,
            &mut data.collider_set,
            &mut data.joint_set,
            &mut data.ccd_solver,
        );
    }

    /// One snapshot for each registered collider, in the world's enumeration
    /// order.
    fn simulation_objects(&self) -> (r: Vec<SimulationObject>)
        requires
            self.wf(),
        ensures
            self.is_snapshot(r@),
            r@.len() == self.collider_count(),
            forall|i: int| 0 <= i < r@.len() ==> is_reported_shape(#[trigger] r@[i].shape),
    {
        let set = &self.simulation_data.collider_set;
        let handles = collider_handles(set);
        proof {
            handles@.unique_seq_to_set();
        }
        let mut objects: Vec<SimulationObject> = Vec::new();
        let mut i: usize = 0;
        while i < handles.len()
            invariant
                i <= handles@.len(),
                handles@ == collider_order_of(*set),
                handles@.to_set() == colliders_of(*set),
                objects@.len() == i,
                forall|j: int| #![trigger objects@[j]] 0 <= j < i ==> {
                    let h = handles@[j];
                    &&& objects@[j].x_bits == translations_of(*set)[h].0
                    &&& objects@[j].y_bits == translations_of(*set)[h].1
                    &&& reports_geometry(polygons_of(*set)[h], objects@[j].shape)
                    &&& is_reported_shape(objects@[j].shape)
                },
            decreases handles@.len() - i,
        {
            let handle = handles[i];
            assert(handles@.to_set().contains(handle));
            let (x_bits, y_bits) = collider_translation(set, handle);
            let shape = classify_shape(convex_polygon_points(set, handle));
            objects.push(SimulationObject { x_bits, y_bits, shape });
            i += 1;
        }
        objects
    }

    /// Pulls the next snapshot sequence: `None` once the step bound is
    /// reached (and on every pull after that), leaving the simulation as it
    /// was; otherwise advances the world by one step and returns a snapshot
    /// of the stepped world, one per registered collider.
    pub fn next(&mut self) -> (r: Option<Vec<SimulationObject>>)
        requires
            old(self).wf(),
        ensures
            final(self).wf(),
            old(self).same_structure(&*final(self)),
            final(self).current_step() == after_pull(old(self).current_step(), old(self).max_steps()),
            r is Some <==> pull(old(self).current_step(), old(self).max_steps()) is Some,
            r is None ==> *final(self) == *old(self),
            r matches Some(objects) ==> final(self).is_snapshot(objects@),
            r matches Some(objects) ==> objects@.len() == old(self).collider_count(),
            r matches Some(objects) ==> forall|i: int|
                0 <= i < objects@.len() ==> is_reported_shape(#[trigger] objects@[i].shape),
    {
        if self.max_steps == self.current_step {
            return None;
        }
        self.current_step = self.current_step + 1;
        self.step();
        Some(self.simulation_objects())
    }
}

/// Every snapshot sequence of a well-formed simulation holds exactly one
/// snapshot per registered collider.
pub proof fn lemma_snapshot_per_collider(s: Simulation, objects: Seq<SimulationObject>)
    requires
        s.wf(),
        s.is_snapshot(objects),
    ensures
        objects.len() == s.collider_count(),
{
    s.collider_order().unique_seq_to_set();
}

/// In a world none of whose colliders is a convex polygon, every snapshot
/// reports the fallback rectangle.
pub proof fn lemma_no_polygon_reports_rectangles(s: Simulation, objects: Seq<SimulationObject>)
    requires
        s.wf(),
        s.is_snapshot(objects),
        forall|h: (u32, u32)| s.colliders().contains(h) ==> (#[trigger] s.polygons()[h]) is None,
    ensures
        forall|i: int| 0 <= i < objects.len() ==> (#[trigger] objects[i]).shape
            == SimulationObjectShape::Rectangle(FALLBACK_HALF_EXTENT_BITS, FALLBACK_HALF_EXTENT_BITS),
{
    assert forall|i: int| 0 <= i < objects.len() implies (#[trigger] objects[i]).shape
        == SimulationObjectShape::Rectangle(FALLBACK_HALF_EXTENT_BITS, FALLBACK_HALF_EXTENT_BITS) by {
        assert(s.collider_order().to_set().contains(s.collider_order()[i]));
    }
}

/// Extraction is a function of the world: two simulations whose worlds
/// enumerate the same colliders, at the same translations and with the same
/// geometry, give snapshot sequences that agree snapshot by snapshot.
pub proof fn lemma_snapshot_determined_by_world(
    s1: Simulation,
    s2: Simulation,
    objects1: Seq<SimulationObject>,
    objects2: Seq<SimulationObject>,
    i: int,
)
    requires
        s1.collider_order() == s2.collider_order(),
        s1.translations() == s2.translations(),
        s1.polygons() == s2.polygons(),
        s1.is_snapshot(objects1),
        s2.is_snapshot(objects2),
        0 <= i < objects1.len(),
    ensures
        objects1.len() == objects2.len(),
        objects1[i].x_bits == objects2[i].x_bits,
        objects1[i].y_bits == objects2[i].y_bits,
        objects1[i].shape is Polygon <==> objects2[i].shape is Polygon,
        objects1[i].shape is Rectangle ==> objects1[i].shape == objects2[i].shape,
        objects1[i].shape matches SimulationObjectShape::Polygon(p1) ==> (
            objects2[i].shape matches SimulationObjectShape::Polygon(p2) && p1@ == p2@),
{
}

} // verus!
