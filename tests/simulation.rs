use physics_sim::{
    classify_shape, create_initial_simulation_objects, InitialSimulationObjects, PhysicsObject,
    PointBits, Simulation, SimulationObject, SimulationObjectShape, FALLBACK_HALF_EXTENT_BITS,
    MAX_STEPS,
};
use rapier2d::prelude::{ColliderBuilder, Point, RigidBodyBuilder, Vector};

fn new_simulation() -> Simulation {
    Simulation::create_physics_simulation(create_initial_simulation_objects())
}

/// The default target, with the driver moved far away so that the target
/// falls freely.
fn free_fall_simulation() -> Simulation {
    let initial = create_initial_simulation_objects();
    let spinner = PhysicsObject {
        body: RigidBodyBuilder::new_kinematic_position_based()
            .translation(Vector::new(1000.0, -1000.0))
            .build(),
        collider: ColliderBuilder::cuboid(1.0, 1.0).restitution(0.7).build(),
    };
    Simulation::create_physics_simulation(InitialSimulationObjects { spinner, target: initial.target })
}

fn position(o: &SimulationObject) -> (f64, f64) {
    (f32::from_bits(o.x_bits) as f64, f32::from_bits(o.y_bits) as f64)
}

fn target_y(objects: &[SimulationObject]) -> f64 {
    let targets: Vec<(f64, f64)> = objects
        .iter()
        .map(position)
        .filter(|(x, y)| (*x - 100.0).abs() < 1e-3 && *y > 300.0)
        .collect();
    assert_eq!(targets.len(), 1);
    targets[0].1
}

#[test]
fn exactly_bound_sequences_then_exhausted() {
    let mut sim = new_simulation();
    assert_eq!(MAX_STEPS, 500);
    for _ in 0..MAX_STEPS {
        let objects = sim.next().expect("a snapshot sequence before the bound");
        assert_eq!(objects.len(), 3);
    }
    assert!(sim.next().is_none());
    assert!(sim.next().is_none());
}

#[test]
fn first_step_has_three_snapshots_with_target_near_start() {
    let mut sim = new_simulation();
    let objects = sim.next().unwrap();
    assert_eq!(objects.len(), 3);
    let y = target_y(&objects);
    assert!((y - 380.0).abs() < 1.0, "target at {}", y);
}

#[test]
fn free_target_moves_one_step_of_gravity() {
    let mut sim = free_fall_simulation();
    let first = sim.next().unwrap();
    assert_eq!(first.len(), 3);
    assert_eq!(target_y(&first), 380.0);
    let dt = 1.0 / 60.0;
    let expected = 380.0 - 9.81 * dt * dt;
    let y = target_y(&sim.next().unwrap());
    assert!((y - expected).abs() < 1e-4, "target at {}", y);
}

#[test]
fn driver_and_ground_keep_their_positions() {
    let mut sim = new_simulation();
    let objects = sim.next().unwrap();
    let positions: Vec<(f64, f64)> = objects.iter().map(position).collect();
    assert!(positions.contains(&(0.0, 0.0)));
    assert!(positions.contains(&(10.0, 10.0)));
}

#[test]
fn non_polygon_colliders_fall_back_to_rectangle() {
    let mut sim = new_simulation();
    let objects = sim.next().unwrap();
    for o in objects.iter() {
        assert_eq!(
            o.shape,
            SimulationObjectShape::Rectangle(FALLBACK_HALF_EXTENT_BITS, FALLBACK_HALF_EXTENT_BITS)
        );
    }
    assert_eq!(f32::from_bits(FALLBACK_HALF_EXTENT_BITS), 10.0);
}

#[test]
fn two_simulations_agree_on_first_step() {
    let mut a = new_simulation();
    let mut b = new_simulation();
    assert_eq!(a.next().unwrap(), b.next().unwrap());
}

#[test]
fn free_target_falls_in_first_steps() {
    let mut sim = free_fall_simulation();
    let mut last = target_y(&sim.next().unwrap());
    for _ in 0..10 {
        let y = target_y(&sim.next().unwrap());
        assert!(y < last, "{} is not below {}", y, last);
        last = y;
    }
}

#[test]
fn overlapping_target_is_pushed_out_of_driver() {
    let mut sim = new_simulation();
    let mut last = 380.0;
    for _ in 0..3 {
        let y = target_y(&sim.next().unwrap());
        assert!(y > last, "{} is not above {}", y, last);
        last = y;
    }
}

#[test]
fn polygon_keeps_points_in_order() {
    let points = vec![
        PointBits { x_bits: 1.0f32.to_bits(), y_bits: 2.0f32.to_bits() },
        PointBits { x_bits: 3.0f32.to_bits(), y_bits: 0.5f32.to_bits() },
        PointBits { x_bits: (-1.0f32).to_bits(), y_bits: 4.0f32.to_bits() },
    ];
    assert_eq!(classify_shape(Some(points.clone())), SimulationObjectShape::Polygon(points));
}

#[test]
fn empty_polygon_stays_polygon() {
    assert_eq!(classify_shape(Some(Vec::new())), SimulationObjectShape::Polygon(Vec::new()));
}

#[test]
fn other_geometry_is_fallback_rectangle() {
    assert_eq!(
        classify_shape(None),
        SimulationObjectShape::Rectangle(10.0f32.to_bits(), 10.0f32.to_bits())
    );
}

#[test]
fn polygon_collider_reports_its_points_in_order() {
    let corners: Vec<(f32, f32)> = vec![(-2.0, -1.0), (2.0, -1.0), (2.0, 1.0), (-2.0, 1.0)];
    let points: Vec<Point<f32>> = corners.iter().map(|&(x, y)| Point::new(x, y)).collect();
    let initial = create_initial_simulation_objects();
    let spinner = PhysicsObject {
        body: RigidBodyBuilder::new_kinematic_position_based()
            .translation(Vector::new(-500.0, 500.0))
            .build(),
        collider: ColliderBuilder::convex_polyline(points).unwrap().build(),
    };
    let mut sim =
        Simulation::create_physics_simulation(InitialSimulationObjects { spinner, target: initial.target });
    let objects = sim.next().unwrap();
    assert_eq!(objects.len(), 3);
    let expected: Vec<PointBits> = corners
        .iter()
        .map(|&(x, y)| PointBits { x_bits: x.to_bits(), y_bits: y.to_bits() })
        .collect();
    let polygons: Vec<&SimulationObject> =
        objects.iter().filter(|o| matches!(o.shape, SimulationObjectShape::Polygon(_))).collect();
    assert_eq!(polygons.len(), 1);
    assert_eq!(polygons[0].shape, SimulationObjectShape::Polygon(expected));
    assert_eq!(position(polygons[0]), (-500.0, 500.0));
}

#[test]
fn builder_places_target_and_driver() {
    let initial = create_initial_simulation_objects();
    assert!(initial.target.body.is_dynamic());
    assert_eq!(initial.target.body.translation().x, 100.0);
    assert_eq!(initial.target.body.translation().y, 380.0);
    assert_eq!(initial.target.collider.restitution(), 0.7);
    assert_eq!(
        initial.spinner.body.body_type(),
        rapier2d::prelude::RigidBodyType::KinematicPositionBased
    );
    assert_eq!(initial.spinner.body.translation().x, 10.0);
    assert_eq!(initial.spinner.body.translation().y, 10.0);
    assert_eq!(initial.spinner.collider.restitution(), 0.7);
}

#[test]
fn builder_shapes_are_at_rest_and_unattached() {
    let initial = create_initial_simulation_objects();
    assert_eq!(initial.target.collider.shape().as_ball().unwrap().radius, 10.0);
    let half = initial.spinner.collider.shape().as_cuboid().unwrap().half_extents;
    assert_eq!((half.x, half.y), (200.0, 380.0));
    assert!(initial.target.collider.parent().is_none());
    assert!(initial.spinner.collider.parent().is_none());
    assert_eq!(initial.target.body.linvel().x, 0.0);
    assert_eq!(initial.target.body.linvel().y, 0.0);
    assert_eq!(initial.target.body.angvel(), 0.0);
    assert_eq!(initial.spinner.body.linvel().x, 0.0);
    assert_eq!(initial.spinner.body.angvel(), 0.0);
}
