//! Joint kinds of the kinematic tree.

use vstd::prelude::*;

verus! {

/// Body-fixed axis of a single-axis joint.
#[derive(Clone, Copy, Debug, PartialEq, Eq, Structural)]
pub enum Axis {
    X,
    Y,
    Z,
}

/// How a link is attached to its parent.
#[derive(Clone, Copy, Debug, PartialEq, Eq, Structural)]
pub enum JointType {
    /// Rotation about one body-fixed axis.
    Revolute(Axis),
    /// Sliding along one body-fixed axis.
    Prismatic(Axis),
    /// Unconstrained rigid motion; only the floating base has it.
    SixDOF,
}

impl JointType {
    /// Number of generalized coordinates the joint contributes.
    pub open spec fn spec_dof(self) -> nat {
        match self {
            JointType::SixDOF => 6,
            _ => 1,
        }
    }

    /// The axis of a single-axis joint; the floating joint has none.
    pub open spec fn spec_axis(self) -> Option<Axis> {
        match self {
            JointType::Revolute(a) => Some(a),
            JointType::Prismatic(a) => Some(a),
            JointType::SixDOF => None,
        }
    }

    pub fn dof(self) -> (d: usize)
        ensures
            d == self.spec_dof(),
    {
        match self {
            JointType::SixDOF => 6,
            _ => 1,
        }
    }

    #[verifier::when_used_as_spec(spec_axis)]
    pub fn axis(self) -> (a: Option<Axis>)
        ensures
            a == self.spec_axis(),
    {
        match self {
            JointType::Revolute(a) => Some(a),
            JointType::Prismatic(a) => Some(a),
            JointType::SixDOF => None,
        }
    }

    /// Whether this is the floating joint.
    pub fn is_floating(self) -> (b: bool)
        ensures
            b <==> self is SixDOF,
    {
        match self {
            JointType::SixDOF => true,
            _ => false,
        }
    }
}

} // verus!
