use aiauv::{Actuation, Actuator, ShapeError};

#[test]
fn snake_has_a_row_per_coordinate_and_a_column_per_actuator() {
    let a = Actuation::new(12, 8).unwrap();
    assert_eq!(a.num_thrusters(), 12);
    assert_eq!(a.num_joints(), 8);
    assert_eq!(a.rows(), 14);
    assert_eq!(a.cols(), 20);
}

#[test]
fn columns_name_thrusters_first_then_joints() {
    let a = Actuation::new(12, 8).unwrap();
    assert_eq!(a.actuator(0), Some(Actuator::Thruster(0)));
    assert_eq!(a.actuator(11), Some(Actuator::Thruster(11)));
    assert_eq!(a.actuator(12), Some(Actuator::Joint(0)));
    assert_eq!(a.actuator(19), Some(Actuator::Joint(7)));
    assert_eq!(a.actuator(20), None);
    assert_eq!(a.actuator(usize::MAX), None);
}

#[test]
fn columns_and_actuators_correspond() {
    let a = Actuation::new(3, 2).unwrap();
    for col in 0..a.cols() {
        let actuator = a.actuator(col).unwrap();
        assert_eq!(a.column(actuator), Some(col));
    }
    assert_eq!(a.column(Actuator::Thruster(2)), Some(2));
    assert_eq!(a.column(Actuator::Thruster(3)), None);
    assert_eq!(a.column(Actuator::Joint(0)), Some(3));
    assert_eq!(a.column(Actuator::Joint(1)), Some(4));
    assert_eq!(a.column(Actuator::Joint(2)), None);
}

#[test]
fn joint_column_has_its_unit_entry_in_the_joint_row() {
    let a = Actuation::new(2, 3).unwrap();
    for col in 0..a.cols() {
        let units: Vec<usize> = (0..a.rows()).filter(|row| a.is_unit(*row, col)).collect();
        match a.actuator(col).unwrap() {
            Actuator::Thruster(_) => assert!(units.is_empty()),
            Actuator::Joint(j) => assert_eq!(units, vec![6 + j]),
        }
    }
    assert!(!a.is_unit(6, 5));
    assert!(!a.is_unit(9, 5));
    assert!(!a.is_unit(0, 0));
}

#[test]
fn stack_puts_unit_columns_behind_the_thruster_columns() {
    let a = Actuation::new(2, 2).unwrap();
    let tcm = vec![
        vec![0.5, 0.0, 1.0, 0.0, -0.24, 0.0, 0.0, 0.25],
        vec![0.0, 1.0, 0.0, 0.0, 0.0, 0.35, 0.125, 0.0],
    ];
    let m = a.stack(&tcm, 0.0, 1.0).unwrap();
    assert_eq!(m.len(), 4);
    assert_eq!(m[0], tcm[0]);
    assert_eq!(m[1], tcm[1]);
    assert_eq!(m[2], vec![0.0, 0.0, 0.0, 0.0, 0.0, 0.0, 1.0, 0.0]);
    assert_eq!(m[3], vec![0.0, 0.0, 0.0, 0.0, 0.0, 0.0, 0.0, 1.0]);
}

#[test]
fn stack_of_a_vehicle_without_joints_is_the_thruster_matrix() {
    let a = Actuation::new(2, 0).unwrap();
    let tcm = vec![vec![1.0, 0.0, 0.0, 0.0, 0.0, 0.0], vec![0.0, 0.0, 1.0, 0.0, 0.0, 0.0]];
    assert_eq!(a.stack(&tcm, 0.0, 1.0).unwrap(), tcm);
}

#[test]
fn stack_of_a_vehicle_without_thrusters_is_the_joint_block() {
    let a = Actuation::new(0, 1).unwrap();
    let m = a.stack(&Vec::<Vec<i32>>::new(), 0, 1).unwrap();
    assert_eq!(m, vec![vec![0, 0, 0, 0, 0, 0, 1]]);
}

#[test]
fn stack_takes_the_unit_entries_as_given() {
    let a = Actuation::new(0, 2).unwrap();
    let m = a.stack(&Vec::<Vec<char>>::new(), '.', 'x').unwrap();
    let text: Vec<String> = m.iter().map(|c| c.iter().collect()).collect();
    assert_eq!(text, vec!["......x.", ".......x"]);
}

#[test]
fn stack_refuses_a_matrix_with_another_number_of_columns() {
    let a = Actuation::new(2, 1).unwrap();
    let tcm = vec![vec![0.0; 7]];
    assert_eq!(
        a.stack(&tcm, 0.0, 1.0).unwrap_err(),
        ShapeError::Columns { expected: 2, found: 1 }
    );
}

#[test]
fn stack_names_the_first_column_of_the_wrong_length() {
    let a = Actuation::new(3, 1).unwrap();
    let tcm = vec![vec![0.0; 7], vec![0.0; 6], vec![0.0; 8]];
    assert_eq!(
        a.stack(&tcm, 0.0, 1.0).unwrap_err(),
        ShapeError::Rows { column: 1, expected: 7, found: 6 }
    );
}

#[test]
fn actuation_too_large_to_index_is_refused() {
    assert_eq!(Actuation::new(usize::MAX, 1), Err(ShapeError::TooLarge));
    assert_eq!(Actuation::new(0, usize::MAX), Err(ShapeError::TooLarge));
    assert_eq!(Actuation::new(0, usize::MAX - 5), Err(ShapeError::TooLarge));
    let a = Actuation::new(0, usize::MAX - 6).unwrap();
    assert_eq!(a.rows(), usize::MAX);
    let a = Actuation::new(usize::MAX - 8, 8).unwrap();
    assert_eq!(a.cols(), usize::MAX);
}
