use nbody::body::{apply_patch, Body, BodyPatch, Motion, Vec2};
use nbody::state::{find_body, set_simulation_running, set_time_multiplier, update_body, SimulationState};

fn body(id: u32, mass: f64, x: f64, y: f64, radius: f64, color: &str) -> Body<f64> {
    Body {
        id,
        mass,
        position: Vec2::new(x, y),
        velocity: Vec2::new(0.0, 1.0),
        radius,
        color: color.to_string(),
    }
}

fn sample() -> SimulationState<f64> {
    SimulationState {
        bodies: vec![
            body(1, 8000.0, 0.0, 0.0, 25.0, "#ffcc00"),
            body(2, 1000.0, 120.0, 0.0, 10.0, "#ff9999"),
            body(3, 1500.0, 0.0, 200.0, 12.0, "#3366ff"),
        ],
        time_step: 0.01,
        time_multiplier: 1.0,
        gravity_constant: 0.66743,
        is_running: false,
        elapsed_time: 0.0,
    }
}

#[test]
fn vec2_new_keeps_coordinates() {
    let v = Vec2::new(3.5, -2.0);
    assert_eq!(v.x, 3.5);
    assert_eq!(v.y, -2.0);
}

#[test]
fn update_body_mass_only_keeps_other_fields() {
    let mut sim = sample();
    let before = sim.clone();
    update_body(&mut sim, 2, Some(2500.0), None, None, None, None, None, None);
    assert_eq!(sim.bodies[1].mass, 2500.0);
    assert_eq!(sim.bodies[1].id, 2);
    assert_eq!(sim.bodies[1].position, before.bodies[1].position);
    assert_eq!(sim.bodies[1].velocity, before.bodies[1].velocity);
    assert_eq!(sim.bodies[1].radius, before.bodies[1].radius);
    assert_eq!(sim.bodies[1].color, before.bodies[1].color);
    assert_eq!(sim.bodies[0], before.bodies[0]);
    assert_eq!(sim.bodies[2], before.bodies[2]);
    assert_eq!(sim.time_step, before.time_step);
    assert_eq!(sim.elapsed_time, before.elapsed_time);
}

#[test]
fn update_body_all_fields() {
    let mut sim = sample();
    update_body(
        &mut sim,
        3,
        Some(1.0),
        Some(-4.0),
        Some(5.0),
        Some(6.0),
        Some(-7.0),
        Some(2.0),
        Some("#000000".to_string()),
    );
    let b = &sim.bodies[2];
    assert_eq!(b.id, 3);
    assert_eq!(b.mass, 1.0);
    assert_eq!(b.position, Vec2::new(-4.0, 5.0));
    assert_eq!(b.velocity, Vec2::new(6.0, -7.0));
    assert_eq!(b.radius, 2.0);
    assert_eq!(b.color, "#000000");
}

#[test]
fn update_body_accepts_unchecked_values() {
    let mut sim = sample();
    update_body(&mut sim, 1, Some(0.0), None, None, None, None, Some(-3.0), None);
    assert_eq!(sim.bodies[0].mass, 0.0);
    assert_eq!(sim.bodies[0].radius, -3.0);
}

#[test]
fn update_body_unknown_id_is_no_op() {
    let mut sim = sample();
    let before = sim.clone();
    update_body(&mut sim, 42, Some(1.0), Some(1.0), Some(1.0), Some(1.0), Some(1.0), Some(1.0), Some("#fff".to_string()));
    assert_eq!(sim, before);
}

#[test]
fn update_body_takes_first_of_equal_ids() {
    let mut sim = sample();
    sim.bodies[2].id = 2;
    update_body(&mut sim, 2, None, None, None, None, None, Some(99.0), None);
    assert_eq!(sim.bodies[1].radius, 99.0);
    assert_eq!(sim.bodies[2].radius, 12.0);
}

#[test]
fn find_body_by_id() {
    let sim = sample();
    assert_eq!(find_body(&sim.bodies, 1), Some(0));
    assert_eq!(find_body(&sim.bodies, 3), Some(2));
    assert_eq!(find_body(&sim.bodies, 0), None);
    let empty: Vec<Body<f64>> = Vec::new();
    assert_eq!(find_body(&empty, 1), None);
}

#[test]
fn apply_patch_with_nothing_present() {
    let b = body(5, 10.0, 1.0, 2.0, 3.0, "#abcdef");
    let patch: BodyPatch<f64> = BodyPatch {
        mass: None,
        position_x: None,
        position_y: None,
        velocity_x: None,
        velocity_y: None,
        radius: None,
        color: None,
    };
    assert_eq!(apply_patch(b.clone(), patch), b);
}

#[test]
fn apply_patch_position_y_only() {
    let b = body(5, 10.0, 1.0, 2.0, 3.0, "#abcdef");
    let patch = BodyPatch {
        mass: None,
        position_x: None,
        position_y: Some(8.0),
        velocity_x: None,
        velocity_y: None,
        radius: None,
        color: None,
    };
    let r = apply_patch(b, patch);
    assert_eq!(r.position, Vec2::new(1.0, 8.0));
    assert_eq!(r.mass, 10.0);
}

#[test]
fn set_running_toggles_flag_only() {
    let mut sim = sample();
    let before = sim.clone();
    set_simulation_running(&mut sim, true);
    assert!(sim.is_running);
    assert_eq!(sim.bodies, before.bodies);
    set_simulation_running(&mut sim, false);
    assert_eq!(sim, before);
}

#[test]
fn set_time_multiplier_takes_any_value() {
    let mut sim = sample();
    set_time_multiplier(&mut sim, -2.5);
    assert_eq!(sim.time_multiplier, -2.5);
    set_time_multiplier(&mut sim, 0.0);
    assert_eq!(sim.time_multiplier, 0.0);
    assert_eq!(sim.time_step, 0.01);
}

fn motions() -> Vec<Motion<f64>> {
    vec![
        Motion { position: Vec2::new(1.0, 1.0), velocity: Vec2::new(0.5, 0.0) },
        Motion { position: Vec2::new(121.0, 2.0), velocity: Vec2::new(0.0, 2.0) },
        Motion { position: Vec2::new(-3.0, 201.0), velocity: Vec2::new(-1.0, 0.0) },
    ]
}

#[test]
fn paused_step_is_no_op() {
    let mut sim = sample();
    let before = sim.clone();
    sim.commit_step(motions(), 0.01);
    assert_eq!(sim, before);
}

#[test]
fn running_step_moves_bodies_and_clock() {
    let mut sim = sample();
    sim.is_running = true;
    let before = sim.clone();
    let m = motions();
    sim.commit_step(m.clone(), 0.01);
    assert_eq!(sim.elapsed_time, 0.01);
    assert_eq!(sim.bodies.len(), 3);
    for k in 0..3 {
        assert_eq!(sim.bodies[k].position, m[k].position);
        assert_eq!(sim.bodies[k].velocity, m[k].velocity);
        assert_eq!(sim.bodies[k].id, before.bodies[k].id);
        assert_eq!(sim.bodies[k].mass, before.bodies[k].mass);
        assert_eq!(sim.bodies[k].radius, before.bodies[k].radius);
        assert_eq!(sim.bodies[k].color, before.bodies[k].color);
    }
    assert_eq!(sim.time_multiplier, 1.0);
}

#[test]
fn step_after_mass_update_keeps_new_mass() {
    let mut sim = sample();
    update_body(&mut sim, 2, Some(4000.0), None, None, None, None, None, None);
    sim.is_running = true;
    sim.commit_step(motions(), 0.01);
    assert_eq!(sim.bodies[1].mass, 4000.0);
}
