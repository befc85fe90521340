use aiauv::inertia::{ADDED_MASS_ORDER, INERTIA_ORDER};
use aiauv::symmetric::triangle_of;
use aiauv::{LinkInertialModel, OrderError, Symmetric};

#[test]
fn filled_matrix_has_the_value_everywhere() {
    let m = Symmetric::filled(3, 0.5).unwrap();
    assert_eq!(m.order(), 3);
    for r in 0..3 {
        for c in 0..3 {
            assert_eq!(m.get(r, c), Some(0.5));
        }
    }
    assert_eq!(m.to_rows(), vec![vec![0.5; 3]; 3]);
}

#[test]
fn matrix_of_order_zero_is_empty() {
    let mut m = Symmetric::filled(0, 1u8).unwrap();
    assert_eq!(m.order(), 0);
    assert_eq!(m.get(0, 0), None);
    assert!(!m.set(0, 0, 2));
    assert_eq!(m.to_rows(), Vec::<Vec<u8>>::new());
}

#[test]
fn entry_outside_the_matrix_is_none() {
    let m = Symmetric::filled(3, 0.0).unwrap();
    assert_eq!(m.get(3, 0), None);
    assert_eq!(m.get(0, 3), None);
    assert_eq!(m.get(usize::MAX, usize::MAX), None);
}

#[test]
fn set_writes_the_entry_and_its_mirror() {
    let mut m = Symmetric::filled(3, 0.0).unwrap();
    assert!(m.set(0, 2, -1.5));
    assert_eq!(m.get(0, 2), Some(-1.5));
    assert_eq!(m.get(2, 0), Some(-1.5));
    assert!(m.set(2, 1, 4.0));
    assert_eq!(
        m.to_rows(),
        vec![vec![0.0, 0.0, -1.5], vec![0.0, 0.0, 4.0], vec![-1.5, 4.0, 0.0]]
    );
}

#[test]
fn set_leaves_the_other_entries() {
    let mut m = Symmetric::filled(4, 0u32).unwrap();
    let mut next = 1;
    for c in 0..4 {
        for r in 0..=c {
            assert!(m.set(r, c, next));
            next += 1;
        }
    }
    assert_eq!(
        m.to_rows(),
        vec![vec![1, 2, 4, 7], vec![2, 3, 5, 8], vec![4, 5, 6, 9], vec![7, 8, 9, 10]]
    );
    assert!(m.set(3, 1, 80));
    assert_eq!(
        m.to_rows(),
        vec![vec![1, 2, 4, 7], vec![2, 3, 5, 80], vec![4, 5, 6, 9], vec![7, 80, 9, 10]]
    );
}

#[test]
fn set_outside_the_matrix_changes_nothing() {
    let mut m = Symmetric::filled(2, 7).unwrap();
    assert!(!m.set(2, 0, 1));
    assert!(!m.set(0, 2, 1));
    assert_eq!(m.to_rows(), vec![vec![7, 7], vec![7, 7]]);
}

#[test]
fn matrix_is_its_own_transpose() {
    let mut m = Symmetric::filled(6, 0.0).unwrap();
    let length: f64 = 0.6;
    m.set(0, 0, 0.1 * length);
    m.set(1, 1, length);
    m.set(2, 2, length);
    m.set(4, 4, length.powi(3) / 3.0);
    m.set(5, 5, length.powi(3) / 3.0);
    m.set(2, 4, -length.powi(2) / 2.0);
    m.set(1, 5, length.powi(2) / 2.0);
    let rows = m.to_rows();
    for r in 0..6 {
        for c in 0..6 {
            assert_eq!(rows[r][c], rows[c][r]);
            assert_eq!(m.get(r, c), Some(rows[r][c]));
        }
    }
    assert_eq!(rows[4][2], -0.18);
    assert_eq!(rows[5][1], 0.18);
    assert_eq!(rows[3], vec![0.0; 6]);
}

#[test]
fn matrix_too_large_to_index_is_refused() {
    assert!(Symmetric::filled(usize::MAX, 0u8).is_none());
}

#[test]
fn link_takes_an_inertia_of_order_three_and_an_added_mass_of_order_six() {
    assert_eq!(INERTIA_ORDER, 3);
    assert_eq!(ADDED_MASS_ORDER, 6);
    let mut inertia = Symmetric::filled(3, 0.0).unwrap();
    inertia.set(0, 0, 0.005);
    let added = Symmetric::filled(6, 0.0).unwrap();
    let link = LinkInertialModel::new(inertia, added).unwrap();
    assert_eq!(link.inertia().order(), 3);
    assert_eq!(link.inertia().get(0, 0), Some(0.005));
    assert_eq!(link.added_mass().order(), 6);
    assert_eq!(link.added_mass().get(5, 5), Some(0.0));
}

#[test]
fn link_refuses_matrices_of_another_order() {
    let err = LinkInertialModel::new(
        Symmetric::filled(4, 0.0).unwrap(),
        Symmetric::filled(6, 0.0).unwrap(),
    )
    .unwrap_err();
    assert_eq!(err, OrderError::Inertia { found: 4 });
    let err = LinkInertialModel::new(
        Symmetric::filled(3, 0.0).unwrap(),
        Symmetric::filled(3, 0.0).unwrap(),
    )
    .unwrap_err();
    assert_eq!(err, OrderError::AddedMass { found: 3 });
    let err = LinkInertialModel::new(
        Symmetric::filled(6, 0.0).unwrap(),
        Symmetric::filled(3, 0.0).unwrap(),
    )
    .unwrap_err();
    assert_eq!(err, OrderError::Inertia { found: 6 });
}

#[test]
fn triangle_counts_the_upper_entries() {
    assert_eq!(triangle_of(0), Some(0));
    assert_eq!(triangle_of(1), Some(1));
    assert_eq!(triangle_of(3), Some(6));
    assert_eq!(triangle_of(6), Some(21));
    assert_eq!(triangle_of(7), Some(28));
    assert_eq!(triangle_of(usize::MAX), None);
    assert_eq!(triangle_of(usize::MAX - 1), None);
    assert_eq!(triangle_of(1 << (usize::BITS / 2)), Some((1 << (usize::BITS - 1)) + (1 << (usize::BITS / 2 - 1))));
    assert_eq!(triangle_of(1 << (usize::BITS / 2 + 1)), None);
}
