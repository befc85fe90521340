//! Which actuator drives which generalized coordinate.
//!
//! The generalized force has six entries for the base and one per joint.
//! Thrusters act on it through their configuration matrix, one column per
//! thruster; each joint is also driven directly, which adds one unit column
//! per joint.  The stacked matrix has the thruster columns first.

use vstd::prelude::*;
use crate::layout::BASE_DOF;

verus! {

/// One actuator of the vehicle.
#[derive(Clone, Copy, Debug, PartialEq, Eq, Structural)]
pub enum Actuator {
    /// A thruster, by its index.
    Thruster(usize),
    /// The drive of a joint, by the joint's index (the base not counted).
    Joint(usize),
}

/// Why a configuration matrix cannot be stacked.
#[derive(Clone, Copy, Debug, PartialEq, Eq, Structural)]
pub enum ShapeError {
    /// The counts are too large for the machine to index the matrix.
    TooLarge,
    /// The matrix has not one column per thruster.
    Columns { expected: usize, found: usize },
    /// A column has not one entry per generalized coordinate.
    Rows { column: usize, expected: usize, found: usize },
}

/// A matrix held as a list of columns, as sequences.
pub open spec fn columns<T>(m: Seq<Vec<T>>) -> Seq<Seq<T>> {
    Seq::new(m.len(), |c: int| m[c]@)
}

/// The actuators of one vehicle: so many thrusters, so many driven joints.
#[derive(Clone, Copy, Debug, PartialEq, Eq, Structural)]
pub struct Actuation {
    thrusters: usize,
    joints: usize,
}

impl Actuation {
    #[verifier::type_invariant]
    spec fn indexable(self) -> bool {
        &&& self.thrusters + self.joints <= usize::MAX
        &&& BASE_DOF + self.joints <= usize::MAX
    }

    /// Number of thrusters.
    pub closed spec fn thrusters(self) -> nat {
        self.thrusters as nat
    }

    /// Number of joints, the floating base not counted.
    pub closed spec fn joints(self) -> nat {
        self.joints as nat
    }

    /// Number of generalized coordinates: rows of the matrix.
    pub open spec fn spec_rows(self) -> nat {
        6 + self.joints()
    }

    /// Number of actuators: columns of the stacked matrix.
    pub open spec fn spec_cols(self) -> nat {
        self.thrusters() + self.joints()
    }

    /// The actuator of a column of the stacked matrix.
    pub open spec fn spec_actuator(self, col: int) -> Option<Actuator> {
        if 0 <= col < self.thrusters() {
            Some(Actuator::Thruster(col as usize))
        } else if self.thrusters() <= col < self.spec_cols() {
            Some(Actuator::Joint((col - self.thrusters()) as usize))
        } else {
            None
        }
    }

    /// The column of an actuator in the stacked matrix.
    pub open spec fn spec_column(self, a: Actuator) -> Option<usize> {
        match a {
            Actuator::Thruster(t) => if t < self.thrusters() {
                Some(t)
            } else {
                None
            },
            Actuator::Joint(j) => if j < self.joints() {
                Some((self.thrusters() + j) as usize)
            } else {
                None
            },
        }
    }

    /// The entry at `(row, col)` of the stacked matrix is the one by which
    /// a joint drive acts on its own coordinate.
    pub open spec fn spec_is_unit(self, row: int, col: int) -> bool {
        self.thrusters() <= col < self.spec_cols() && row == 6 + (col - self.thrusters())
    }

    /// Column `col` of the matrix stacked from the thruster columns `tcm`.
    pub open spec fn stacked_column<T>(self, tcm: Seq<Seq<T>>, zero: T, one: T, col: int) -> Seq<
        T,
    > {
        if col < self.thrusters() {
            tcm[col]
        } else {
            Seq::new(
                self.spec_rows(),
                |row: int|
                    if self.spec_is_unit(row, col) {
                        one
                    } else {
                        zero
                    },
            )
        }
    }

    /// The thruster matrix has one column per thruster, each with one entry
    /// per generalized coordinate.
    pub open spec fn shaped<T>(self, tcm: Seq<Seq<T>>) -> bool {
        &&& tcm.len() == self.thrusters()
        &&& forall|c: int| 0 <= c < tcm.len() ==> (#[trigger] tcm[c]).len() == self.spec_rows()
    }

    /// `e` names what is wrong with the shape of the thruster matrix: the
    /// number of columns, or else the first column of the wrong length.
    pub open spec fn misshaped<T>(self, tcm: Seq<Seq<T>>, e: ShapeError) -> bool {
        match e {
            ShapeError::TooLarge => false,
            ShapeError::Columns { expected, found } => {
                &&& tcm.len() != self.thrusters()
                &&& expected == self.thrusters()
                &&& found == tcm.len()
            },
            ShapeError::Rows { column, expected, found } => {
                &&& tcm.len() == self.thrusters()
                &&& column < tcm.len()
                &&& tcm[column as int].len() != self.spec_rows()
                &&& expected == self.spec_rows()
                &&& found == tcm[column as int].len()
                &&& forall|c: int| 0 <= c < column ==> (#[trigger] tcm[c]).len() == self.spec_rows()
            },
        }
    }

    /// Columns and actuators correspond one to one.
    pub proof fn lemma_columns_are_actuators(self, col: int, a: Actuator)
        requires
            self.spec_cols() <= usize::MAX,
        ensures
            self.spec_actuator(col) == Some(a) <==> (self.spec_column(a) is Some
                && self.spec_column(a)->0 == col),
            0 <= col < self.spec_cols() <==> self.spec_actuator(col) is Some,
    {
    }

    /// Each joint column has exactly one unit entry, in the row of the
    /// joint's own coordinate; a thruster column has none.
    pub proof fn lemma_unit_entries(self, row: int, col: int)
        ensures
            self.spec_is_unit(row, col) <==> (self.spec_actuator(col) matches Some(
                Actuator::Joint(j),
            ) && row == 6 + j),
            self.spec_is_unit(row, col) ==> 6 <= row < self.spec_rows(),
    {
    }

    /// A thruster matrix that has a shape error is not well shaped, and has
    /// no other shape error.
    pub proof fn lemma_misshaped_unique<T>(self, tcm: Seq<Seq<T>>, e1: ShapeError, e2: ShapeError)
        requires
            self.misshaped(tcm, e1),
            self.misshaped(tcm, e2),
        ensures
            e1 == e2,
            !self.shaped(tcm),
    {
        match (e1, e2) {
            (ShapeError::Rows { column: a, .. }, ShapeError::Rows { column: b, .. }) => {
                if a < b {
                    assert(tcm[a as int].len() == self.spec_rows());
                }
                if b < a {
                    assert(tcm[b as int].len() == self.spec_rows());
                }
            },
            _ => {},
        }
    }

    /// The actuators of a vehicle with the given numbers of thrusters and
    /// joints.  Fails only where the matrix could not be indexed.
    pub fn new(thrusters: usize, joints: usize) -> (r: Result<Actuation, ShapeError>)
        ensures
            match r {
                Ok(a) => {
                    &&& a.thrusters() == thrusters
                    &&& a.joints() == joints
                    &&& thrusters + joints <= usize::MAX
                    &&& 6 + joints <= usize::MAX
                },
                Err(e) => {
                    &&& e == ShapeError::TooLarge
                    &&& (thrusters + joints > usize::MAX || 6 + joints > usize::MAX)
                },
            },
    {
        if joints > usize::MAX - BASE_DOF || thrusters > usize::MAX - joints {
            Err(ShapeError::TooLarge)
        } else {
            Ok(Actuation { thrusters, joints })
        }
    }

    /// Number of thrusters.
    pub fn num_thrusters(&self) -> (n: usize)
        ensures
            n == self.thrusters(),
    {
        self.thrusters
    }

    /// Number of joints, the floating base not counted.
    pub fn num_joints(&self) -> (n: usize)
        ensures
            n == self.joints(),
    {
        self.joints
    }

    /// Number of generalized coordinates.
    pub fn rows(&self) -> (n: usize)
        ensures
            n == self.spec_rows(),
    {
        proof {
            use_type_invariant(self);
        }
        BASE_DOF + self.joints
    }

    /// Number of actuators.
    pub fn cols(&self) -> (n: usize)
        ensures
            n == self.spec_cols(),
    {
        proof {
            use_type_invariant(self);
        }
        self.thrusters + self.joints
    }

    /// The actuator of a column of the stacked matrix.
    pub fn actuator(&self, col: usize) -> (r: Option<Actuator>)
        ensures
            r == self.spec_actuator(col as int),
    {
        proof {
            use_type_invariant(self);
        }
        if col < self.thrusters {
            Some(Actuator::Thruster(col))
        } else if col - self.thrusters < self.joints {
            Some(Actuator::Joint(col - self.thrusters))
        } else {
            None
        }
    }

    /// The column of an actuator in the stacked matrix.
    pub fn column(&self, a: Actuator) -> (r: Option<usize>)
        ensures
            r == self.spec_column(a),
    {
        proof {
            use_type_invariant(self);
        }
        match a {
            Actuator::Thruster(t) => if t < self.thrusters {
                Some(t)
            } else {
                None
            },
            Actuator::Joint(j) => if j < self.joints {
                Some(self.thrusters + j)
            } else {
                None
            },
        }
    }

    /// Whether the entry at `(row, col)` is the unit entry of a joint
    /// column.
    pub fn is_unit(&self, row: usize, col: usize) -> (b: bool)
        ensures
            b == self.spec_is_unit(row as int, col as int),
    {
        proof {
            use_type_invariant(self);
        }
        col >= self.thrusters && col - self.thrusters < self.joints && row >= BASE_DOF && row
            - BASE_DOF == col - self.thrusters
    }

    /// Stacks the thruster columns and the unit columns of the joint drives
    /// into one matrix, given as its columns.  `zero` and `one` are the
    /// entries of a unit column.
    pub fn stack<T: Copy>(&self, tcm: &Vec<Vec<T>>, zero: T, one: T) -> (r: Result<
        Vec<Vec<T>>,
        ShapeError,
    >)
        ensures
            r is Ok <==> self.shaped(columns(tcm@)),
            match r {
                Ok(m) => {
                    &&& m.len() == self.spec_cols()
                    &&& forall|c: int|
                        0 <= c < m.len() ==> (#[trigger] m[c])@ == self.stacked_column(
                            columns(tcm@),
                            zero,
                            one,
                            c,
                        )
                },
                Err(e) => self.misshaped(columns(tcm@), e),
            },
    {
        let r = self.stacked(tcm, zero, one);
        proof {
            if let Err(e) = r {
                self.lemma_misshaped_unique(columns(tcm@), e, e);
            }
        }
        r
    }

    fn stacked<T: Copy>(&self, tcm: &Vec<Vec<T>>, zero: T, one: T) -> (r: Result<
        Vec<Vec<T>>,
        ShapeError,
    >)
        ensures
            match r {
                Ok(m) => {
                    &&& self.shaped(columns(tcm@))
                    &&& m.len() == self.spec_cols()
                    &&& forall|c: int|
                        0 <= c < m.len() ==> (#[trigger] m[c])@ == self.stacked_column(
                            columns(tcm@),
                            zero,
                            one,
                            c,
                        )
                },
                Err(e) => self.misshaped(columns(tcm@), e),
            },
    {
        proof {
            use_type_invariant(self);
        }
        let rows: usize = self.rows();
        let cols: usize = self.cols();
        if tcm.len() != self.thrusters {
            return Err(ShapeError::Columns { expected: self.thrusters, found: tcm.len() });
        }
        let ghost deep = columns(tcm@);
        assert(deep.len() == tcm.len());
        let mut m: Vec<Vec<T>> = Vec::new();
        let mut c: usize = 0;
        while c < self.thrusters
            invariant
                c <= self.thrusters,
                self.thrusters == tcm.len(),
                deep == columns(tcm@),
                rows == self.spec_rows(),
                m.len() == c,
                forall|k: int| 0 <= k < c ==> (#[trigger] deep[k]).len() == rows,
                forall|k: int| 0 <= k < c ==> (#[trigger] m[k])@ == deep[k],
            decreases self.thrusters - c,
        {
            assert(deep[c as int] == tcm[c as int]@);
            if tcm[c].len() != rows {
                return Err(ShapeError::Rows { column: c, expected: rows, found: tcm[c].len() });
            }
            let column = copy_column(&tcm[c]);
            m.push(column);
            c += 1;
        }
        while c < cols
            invariant
                self.thrusters <= c <= cols,
                cols == self.spec_cols(),
                rows == self.spec_rows(),
                self.thrusters == tcm.len(),
                deep == columns(tcm@),
                m.len() == c,
                forall|k: int| 0 <= k < self.thrusters ==> (#[trigger] deep[k]).len() == rows,
                forall|k: int|
                    0 <= k < c ==> (#[trigger] m[k])@ == self.stacked_column(deep, zero, one, k),
            decreases cols - c,
        {
            let column = self.unit_column(c, zero, one);
            m.push(column);
            c += 1;
        }
        Ok(m)
    }

    /// The column of a joint drive: `one` in the row of the joint's own
    /// coordinate, `zero` elsewhere.
    fn unit_column<T: Copy>(&self, col: usize, zero: T, one: T) -> (r: Vec<T>)
        requires
            self.thrusters() <= col < self.spec_cols(),
        ensures
            r@ == Seq::new(
                self.spec_rows(),
                |row: int|
                    if self.spec_is_unit(row, col as int) {
                        one
                    } else {
                        zero
                    },
            ),
    {
        let rows: usize = self.rows();
        let mut r: Vec<T> = Vec::new();
        let mut row: usize = 0;
        while row < rows
            invariant
                row <= rows,
                rows == self.spec_rows(),
                r.len() == row,
                forall|k: int|
                    0 <= k < row ==> r[k] == if self.spec_is_unit(k, col as int) {
                        one
                    } else {
                        zero
                    },
            decreases rows - row,
        {
            let entry: T = if self.is_unit(row, col) {
                one
            } else {
                zero
            };
            r.push(entry);
            row += 1;
        }
        assert(r@ =~= Seq::new(
            self.spec_rows(),
            |row: int|
                if self.spec_is_unit(row, col as int) {
                    one
                } else {
                    zero
                },
        ));
        r
    }
}

/// Copies a column.
fn copy_column<T: Copy>(src: &Vec<T>) -> (out: Vec<T>)
    ensures
        out@ == src@,
{
    let mut out: Vec<T> = Vec::new();
    let mut i: usize = 0;
    while i < src.len()
        invariant
            i <= src.len(),
            out@ == src@.subrange(0, i as int),
        decreases src.len() - i,
    {
        out.push(src[i]);
        i += 1;
        assert(out@ =~= src@.subrange(0, i as int));
    }
    assert(src@.subrange(0, src.len() as int) =~= src@);
    out
}

} // verus!
