use aiauv::bluerov_reach::{joint_types, parents, NUM_BODIES, NUM_DOFS};
use aiauv::topology::{first_bad_joint, first_bad_parent, total_dof};
use aiauv::{Axis, BlueROVReachConfig, ConfigError, Field, JointType};

type V3 = [f64; 3];
type V6 = [f64; 6];

fn vehicle() -> BlueROVReachConfig<f64, V3, V6> {
    BlueROVReachConfig {
        gravity: [0.0, 0.0, 9.81],
        dragcoeffs: vec![[0.2, 0.1, 0.5, 0.1, 0.1, 1.0]; 5],
        mass: vec![13.5, 0.3, 0.3, 0.2, 0.1],
        lengths_bluerov: [0.457, 0.338, 0.254],
        radius: vec![0.2, 0.02, 0.02, 0.02, 0.02],
        link_lengths: vec![0.457, 0.1, 0.15, 0.1, 0.08],
        fluid_density: 1000.0,
        pos_com: vec![[0.0; 3]; 5],
        pos_cob: vec![[0.0, 0.0, -0.02]; 5],
        pos_offsets: vec![[0.1, 0.0, 0.0]; 5],
        roll_pitch_yaw_offsets: vec![[0.0; 3]; 5],
        thruster_pos_offsets: vec![[0.24, 0.0, 0.0], [0.35, 0.0, 0.0]],
        thruster_dirs: vec![[0.0, 0.0, 1.0], [0.0, 1.0, 0.0]],
        thruster_parents: vec![1, 1],
        added_mass_coeffs: vec![],
        added_alpha: vec![0.1; 5],
    }
}

#[test]
fn chain_has_a_floating_vehicle_and_four_z_joints() {
    let joints = joint_types();
    assert_eq!(joints.len(), NUM_BODIES);
    assert_eq!(joints[0], JointType::SixDOF);
    for joint in &joints[1..] {
        assert_eq!(*joint, JointType::Revolute(Axis::Z));
    }
    assert_eq!(parents(), vec![0, 1, 2, 3, 4]);
}

#[test]
fn chain_is_a_tree_with_ten_coordinates() {
    assert_eq!(first_bad_joint(&joint_types()), None);
    assert_eq!(first_bad_parent(&parents()), None);
    assert_eq!(total_dof(&joint_types()), Some(NUM_DOFS));
}

#[test]
fn vehicle_with_arm_is_accepted() {
    assert_eq!(vehicle().validate(), Ok(()));
    assert_eq!(vehicle().num_thrusters(), 2);
}

#[test]
fn vehicle_needs_a_mass_for_every_link() {
    let mut cfg = vehicle();
    cfg.mass.clear();
    assert_eq!(
        cfg.validate(),
        Err(ConfigError::Length { field: Field::Mass, expected: 5, found: 0 })
    );
}

#[test]
fn vehicle_needs_five_entries_per_link_vector() {
    let mut cfg = vehicle();
    cfg.link_lengths.push(0.1);
    assert_eq!(
        cfg.validate(),
        Err(ConfigError::Length { field: Field::Length, expected: 5, found: 6 })
    );
    let mut cfg = vehicle();
    cfg.pos_cob.pop();
    cfg.added_alpha.pop();
    assert_eq!(
        cfg.validate(),
        Err(ConfigError::Length { field: Field::PosCob, expected: 5, found: 4 })
    );
}

#[test]
fn vehicle_may_scale_the_added_mass_of_its_links() {
    let mut cfg = vehicle();
    cfg.added_mass_coeffs = vec![None, Some(1.5), None, None, Some(0.5)];
    assert_eq!(cfg.validate(), Ok(()));
    assert_eq!(cfg.added_mass_coeff(1), Some(1.5));
    assert_eq!(cfg.added_mass_coeff(2), None);
    assert_eq!(cfg.added_mass_coeff(7), None);
    cfg.added_mass_coeffs.pop();
    assert_eq!(
        cfg.validate(),
        Err(ConfigError::Length { field: Field::AddedMassCoeffs, expected: 5, found: 4 })
    );
}

#[test]
fn vehicle_thrusters_sit_on_one_of_five_links() {
    let mut cfg = vehicle();
    cfg.thruster_parents = vec![5, 6];
    assert_eq!(cfg.validate(), Err(ConfigError::ThrusterParent { thruster: 1 }));
    cfg.thruster_parents = vec![5, 1];
    assert_eq!(cfg.validate(), Ok(()));
    assert_eq!(cfg.thruster_link(0), Some(4));
    assert_eq!(cfg.thruster_link(1), Some(0));
    assert_eq!(cfg.thruster_link(2), None);
    assert_eq!(cfg.thrusters_on(0), vec![1]);
    assert_eq!(cfg.thrusters_on(4), vec![0]);
}

#[test]
fn vehicle_thruster_vectors_must_agree() {
    let mut cfg = vehicle();
    cfg.thruster_dirs.pop();
    assert_eq!(
        cfg.validate(),
        Err(ConfigError::Length { field: Field::ThrusterPosOffsets, expected: 1, found: 2 })
    );
}
