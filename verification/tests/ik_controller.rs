use aiauv::{ControlMode, CycleState, IKParams, InverseKinematicController};

type Controller = InverseKinematicController<f64, [f64; 3], [f64; 4], [f64; 6], [f64; 4]>;

const IDENTITY: [f64; 4] = [1.0, 0.0, 0.0, 0.0];

fn params() -> IKParams<f64, [f64; 3]> {
    IKParams { k_p_ee: [2.0, 2.0, 3.0], k_q: 1.5, dt: 0.01, delta: 0.1 }
}

fn at_rest() -> Controller {
    InverseKinematicController::new(&params(), [0.0; 3], IDENTITY, [0.0; 6], [0.0; 4])
}

#[test]
fn new_controller_is_at_rest() {
    let c = at_rest();
    assert_eq!(c.q_d, [0.0; 4]);
    assert_eq!(c.q_null, [0.0; 4]);
    assert_eq!(c.pos_ee_d, [0.0; 3]);
    assert_eq!(c.pos_ee, [0.0; 3]);
    assert_eq!(c.quat_ee_d, IDENTITY);
    assert_eq!(c.quat_ee, IDENTITY);
    assert_eq!(c.quat_err, IDENTITY);
    assert_eq!(c.vel_ee_d, [0.0; 6]);
    assert_eq!(c.vel_ee, [0.0; 6]);
}

#[test]
fn new_controller_takes_its_parameters() {
    let c = at_rest();
    assert_eq!(c.k_p_ee, [2.0, 2.0, 3.0]);
    assert_eq!(c.k_q, 1.5);
    assert_eq!(c.cycle.dt(), 0.01);
    assert_eq!(c.cycle.delta(), 0.1);
    assert_eq!(c.cycle.mode(), ControlMode::Direct);
}

#[test]
fn references_are_set_and_nothing_else() {
    let mut c = at_rest();
    c.cycle.step(true);
    c.set_ee_references([0.4, 0.0, -0.2], [0.0, 1.0, 0.0, 0.0], [0.1, 0.0, 0.0, 0.0, 0.0, 0.2]);
    assert_eq!(c.pos_ee_d, [0.4, 0.0, -0.2]);
    assert_eq!(c.quat_ee_d, [0.0, 1.0, 0.0, 0.0]);
    assert_eq!(c.vel_ee_d, [0.1, 0.0, 0.0, 0.0, 0.0, 0.2]);
    assert_eq!(c.pos_ee, [0.0; 3]);
    assert_eq!(c.quat_ee, IDENTITY);
    assert_eq!(c.vel_ee, [0.0; 6]);
    assert_eq!(c.q_d, [0.0; 4]);
    assert_eq!(c.k_q, 1.5);
    assert_eq!(c.cycle.mode(), ControlMode::Mirrored);
}

#[test]
fn nullspace_reference_is_set_and_nothing_else() {
    let mut c = at_rest();
    c.set_nullspace_reference([0.1, 0.2, 0.3, 0.4]);
    assert_eq!(c.q_null, [0.1, 0.2, 0.3, 0.4]);
    assert_eq!(c.q_d, [0.0; 4]);
    assert_eq!(c.quat_err, IDENTITY);
    assert_eq!(c.cycle.mode(), ControlMode::Direct);
}

#[test]
fn gains_are_set_and_period_threshold_and_mode_stay() {
    let mut c = at_rest();
    c.cycle.step(true);
    c.set_gains([5.0, 6.0, 7.0], 0.5);
    assert_eq!(c.k_p_ee, [5.0, 6.0, 7.0]);
    assert_eq!(c.k_q, 0.5);
    assert_eq!(c.cycle.dt(), 0.01);
    assert_eq!(c.cycle.delta(), 0.1);
    assert_eq!(c.cycle.mode(), ControlMode::Mirrored);
    assert_eq!(c.q_null, [0.0; 4]);
}

#[test]
fn cycle_changes_the_mode_and_keeps_period_and_threshold() {
    let mut cycle = CycleState::new(0.02, 0.25);
    assert_eq!(cycle.mode(), ControlMode::Direct);
    cycle.step(false);
    assert_eq!(cycle.mode(), ControlMode::Direct);
    cycle.step(true);
    assert_eq!(cycle.mode(), ControlMode::Mirrored);
    cycle.step(false);
    assert_eq!(cycle.mode(), ControlMode::Mirrored);
    cycle.step(true);
    assert_eq!(cycle.mode(), ControlMode::Direct);
    assert_eq!(cycle.dt(), 0.02);
    assert_eq!(cycle.delta(), 0.25);
}

#[test]
fn controller_changes_lobe_when_the_error_has_turned_far_enough() {
    // scalar part of the orientation error over a run of control cycles
    let w = [0.9, 0.2, -0.09, -0.1, -0.7, 0.0, 0.09, 0.11];
    let mut c = at_rest();
    let mut signs = Vec::new();
    for wi in w {
        let crossed = c.cycle.mode().sign() as f64 * wi <= -c.cycle.delta();
        c.cycle.step(crossed);
        signs.push(c.cycle.mode().sign());
    }
    assert_eq!(signs, vec![1, 1, 1, -1, -1, -1, -1, 1]);
}
