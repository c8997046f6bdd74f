use salva3d::math::Vector;
use salva3d::object::interaction_groups::InteractionGroups;
use salva3d::object::Fluid;
use salva3d::solver::DFSPHSolver;
use salva3d::LiquidWorld;
use salva_pipeline::context::{InitError, SalvaContext};
use salva_pipeline::writeback::writeback_positions;

const RADIUS: f32 = 0.05;

fn world() -> LiquidWorld {
    let solver: DFSPHSolver = DFSPHSolver::new();
    LiquidWorld::new(solver, RADIUS, 2.0, 1.0)
}

fn cube(n: usize) -> Vec<Vector<f32>> {
    let mut points = Vec::new();
    for i in 0..n {
        for j in 0..n {
            for k in 0..n {
                points.push(Vector::new(i as f32, j as f32, k as f32) * RADIUS * 2.0);
            }
        }
    }
    points
}

fn fluid(points: Vec<Vector<f32>>) -> Fluid {
    Fluid::new(points, RADIUS, 1000.0, InteractionGroups::default())
}

#[test]
fn registration_round_trip() {
    let mut ctx = SalvaContext::new(world());
    let h = ctx.init_fluid(7, fluid(cube(2))).unwrap();
    assert_eq!(ctx.lookup(7), Some(h));
    assert_eq!(ctx.particle_count(h), Some(8));
    assert_eq!(ctx.lookup(8), None);
}

#[test]
fn empty_declaration_is_refused() {
    let mut ctx = SalvaContext::new(world());
    assert_eq!(ctx.init_fluid(1, fluid(vec![])), Err(InitError::EmptyFluid));
    assert_eq!(ctx.lookup(1), None);
    let h = ctx.init_fluid(1, fluid(cube(1))).unwrap();
    assert_eq!(ctx.particle_count(h), Some(1));
}

#[test]
fn second_declaration_for_entity_is_refused() {
    let mut ctx = SalvaContext::new(world());
    let h = ctx.init_fluid(3, fluid(cube(2))).unwrap();
    assert_eq!(ctx.init_fluid(3, fluid(cube(1))), Err(InitError::AlreadyRegistered));
    assert_eq!(ctx.lookup(3), Some(h));
    assert_eq!(ctx.particle_count(h), Some(8));
}

#[test]
fn removal_cleanup() {
    let mut ctx = SalvaContext::new(world());
    let a = ctx.init_fluid(1, fluid(cube(2))).unwrap();
    let b = ctx.init_fluid(2, fluid(cube(1))).unwrap();
    ctx.sync_removals(&vec![1, 1, 99]);
    assert_eq!(ctx.lookup(1), None);
    assert_eq!(ctx.particle_count(a), None);
    assert_eq!(ctx.lookup(2), Some(b));
    assert_eq!(ctx.particle_count(b), Some(1));
}

#[test]
fn removal_is_idempotent() {
    let mut ctx = SalvaContext::new(world());
    let a = ctx.init_fluid(4, fluid(cube(2))).unwrap();
    assert_eq!(ctx.remove_entity(4), Some(a));
    assert_eq!(ctx.remove_entity(4), None);
    assert_eq!(ctx.particle_count(a), None);
}

#[test]
fn new_handle_differs_from_removed_one() {
    let mut ctx = SalvaContext::new(world());
    let a = ctx.init_fluid(1, fluid(cube(1))).unwrap();
    ctx.sync_removals(&vec![1]);
    let b = ctx.init_fluid(1, fluid(cube(2))).unwrap();
    assert_ne!(a, b);
    assert_eq!(ctx.particle_count(a), None);
    assert_eq!(ctx.particle_count(b), Some(8));
}

#[test]
fn writeback_keeps_particle_order() {
    let particles = vec![3u32, 1, 2];
    let out = writeback_positions(&particles, |p: &u32| *p * 10);
    assert_eq!(out, vec![30, 10, 20]);
}

#[test]
fn end_to_end_single_frame() {
    let mut ctx = SalvaContext::new(world());
    let initial = cube(2);
    let h = ctx.init_fluid(1, fluid(initial.clone())).unwrap();
    let dt: f32 = 0.016;
    ctx.liquid_world.step(dt, &Vector::new(0.0, -9.8, 0.0));
    assert_eq!(ctx.particle_count(h), Some(8));
    let positions = ctx.liquid_world.fluids().as_slice()[0].positions.clone();
    let out = writeback_positions(&positions, |p: &Vector<f32>| [p.x, p.y, p.z]);
    assert_eq!(out.len(), 8);
    let expected = 0.5 * 9.8 * dt * dt;
    let drops: Vec<f32> = initial.iter().zip(out.iter()).map(|(b, a)| b.y - a[1]).collect();
    // One explicit integration step moves a free particle by g * dt^2, the
    // exact free-fall drop being half of that: accept anything in between.
    for (d, (before, after)) in drops.iter().zip(initial.iter().zip(out.iter())) {
        assert!(*d >= expected - 1e-6 && *d <= 2.0 * expected + 1e-6);
        assert!((after[0] - before.x).abs() < 1e-6);
        assert!((after[2] - before.z).abs() < 1e-6);
    }
}
