use aiauv::{Axis, Config, JointType, StateLayout};
use multibody_dynamics::multibody::{Axis as EngineAxis, JointType as EngineJoint, MultiBody};
use nalgebra::{
    Isometry3, Matrix3, Matrix6, Quaternion, SMatrix, SVector, UnitQuaternion, Vector3, Vector6,
};

fn engine_axis(axis: Axis) -> EngineAxis {
    match axis {
        Axis::X => EngineAxis::X,
        Axis::Y => EngineAxis::Y,
        Axis::Z => EngineAxis::Z,
    }
}

fn engine_joint(joint: JointType) -> EngineJoint {
    match joint {
        JointType::Revolute(a) => EngineJoint::Revolute(engine_axis(a)),
        JointType::Prismatic(a) => EngineJoint::Prismatic(engine_axis(a)),
        JointType::SixDOF => EngineJoint::SixDOF,
    }
}

/// A floating base with one link on a revolute joint.
fn two_link_chain() -> Config<f64, Vector3<f64>, Vector6<f64>> {
    Config {
        sim_time: 1.0,
        gravity: Vector3::new(0.0, 0.0, 9.81),
        dragcoeffs: vec![Vector6::new(0.2, 0.1, 0.5, 0.1, 0.1, 1.0); 2],
        joint_types: vec![JointType::SixDOF, JointType::Revolute(Axis::Z)],
        mass: vec![20.0, 18.0],
        radius: vec![0.1, 0.1],
        length: vec![0.6, 0.6],
        fluid_density: 1000.0,
        parents: vec![0, 1],
        pos_com: vec![Vector3::new(0.3, 0.0, 0.0); 2],
        pos_cob: vec![Vector3::new(0.3, 0.0, 0.0); 2],
        pos_offsets: vec![Vector3::zeros(), Vector3::new(0.6, 0.0, 0.0)],
        roll_pitch_yaw_offsets: vec![Vector3::zeros(); 2],
        thruster_pos_offsets: vec![],
        thruster_dirs: vec![],
        thruster_parents: vec![],
        added_mass_coeffs: vec![],
        added_alpha: vec![0.1, 0.1],
    }
}

#[test]
fn two_link_chain_at_rest_has_zero_pose_and_joint_rates() {
    let cfg = two_link_chain();
    assert_eq!(cfg.validate(), Ok(()));
    assert_eq!(cfg.dof(), Some(7));
    let links = cfg.num_links();
    let layout = StateLayout::new(links - 1, false).unwrap();
    assert_eq!(layout.dim(), 15);

    let offsets: Vec<Isometry3<f64>> = cfg
        .pos_offsets
        .iter()
        .map(|p| Isometry3::translation(p[0], p[1], p[2]))
        .collect();
    let inertia = vec![Matrix3::from_diagonal(&Vector3::new(0.1, 0.6, 0.6)); links];
    let volume: Vec<f64> = (0..links)
        .map(|i| cfg.length[i] * std::f64::consts::PI * cfg.radius[i] * cfg.radius[i])
        .collect();
    #[allow(deprecated)]
    let multibody = MultiBody::<2, 7>::new(
        offsets,
        None,
        Some(vec![Matrix6::zeros(); links]),
        Some(inertia),
        cfg.joint_types.iter().map(|j| engine_joint(*j)).collect(),
        cfg.parents.clone(),
        cfg.gravity,
        Some(cfg.pos_com.clone()),
        Some(cfg.pos_cob.clone()),
        Some(cfg.mass.clone()),
        Some(volume),
        Some(cfg.fluid_density),
    )
    .unwrap();

    // at rest, upright, joint straight
    let mut y = vec![0.0; layout.dim()];
    y[layout.start(aiauv::Block::Orientation)] = 1.0;
    let state = layout.split(&y).unwrap();

    let q = state.orientation();
    let quat = UnitQuaternion::from_quaternion(Quaternion::new(q[0], q[1], q[2], q[3]));
    let theta = SVector::<f64, 1>::from_column_slice(state.joint_angles());
    let zeta = SVector::<f64, 7>::from_column_slice(state.velocity());
    let twist = state.base_twist();

    let base = Isometry3::from_parts(Vector3::from_column_slice(state.position()).into(), quat);
    let conf = multibody.minimal_to_homogeneous_configuration(&base, &theta);
    let accel = multibody.forward_dynamics_ab(
        &conf,
        &zeta,
        |_conf: &[Isometry3<f64>], _nu: &[Vector6<f64>]| SMatrix::<f64, 6, 2>::zeros(),
        &vec![Vector6::zeros(); links],
        &SVector::<f64, 7>::zeros(),
        &Vector3::zeros(),
        &Vector3::zeros(),
    );

    let pos_dot = quat * Vector3::new(twist[0], twist[1], twist[2]);
    let w = Vector3::new(twist[3], twist[4], twist[5]);
    let quat_dot = Quaternion::from_parts(0.0, w) * 0.5;
    let quat_dot = quat.into_inner() * quat_dot;

    let dy = state
        .derivative(
            pos_dot.as_slice().to_vec(),
            vec![quat_dot.w, quat_dot.i, quat_dot.j, quat_dot.k],
            accel.as_slice().to_vec(),
            vec![],
            vec![],
        )
        .unwrap()
        .join();

    assert_eq!(dy.len(), 15);
    assert!(dy.iter().all(|v: &f64| v.is_finite() && v.abs() < 1.0e3));
    // pose rate and joint rate
    assert_eq!(&dy[0..8], &[0.0; 8]);
    // weight and buoyancy do not balance, so the chain does not stay where
    // it is
    assert!(dy[8..15].iter().any(|a| *a != 0.0));
}
