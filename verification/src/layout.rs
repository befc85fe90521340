//! Partition of the flat simulation state.
//!
//! The state vector holds, in this order: the base position, the base
//! orientation as a quaternion, the joint angles, the velocities (the base
//! twist followed by one rate per joint) and, where integral control is
//! used, the integral of the base pose error and of the joint errors.  The
//! derivative of the state has the same partition.

use vstd::prelude::*;

verus! {

/// Entries of the base position.
pub const POSITION_DIM: usize = 3;

/// Entries of the orientation quaternion.
pub const ORIENTATION_DIM: usize = 4;

/// Entries of the base twist.
pub const BASE_DOF: usize = 6;

/// The blocks of the state vector, in the order in which they are laid out.
#[derive(Clone, Copy, Debug, PartialEq, Eq, Structural)]
pub enum Block {
    Position,
    Orientation,
    JointAngles,
    Velocity,
    BaseIntegral,
    JointIntegral,
}

impl Block {
    /// Place of the block in the state vector, counted from zero.
    pub open spec fn order(self) -> int {
        match self {
            Block::Position => 0,
            Block::Orientation => 1,
            Block::JointAngles => 2,
            Block::Velocity => 3,
            Block::BaseIntegral => 4,
            Block::JointIntegral => 5,
        }
    }
}

/// Why a layout cannot be made, or a vector does not fit one.
#[derive(Clone, Copy, Debug, PartialEq, Eq, Structural)]
pub enum LayoutError {
    /// The state vector would be longer than the machine can index.
    TooManyJoints,
    /// A state vector does not have the length of the layout.
    StateLength { expected: usize, found: usize },
    /// A block does not have the width that the layout gives it.
    BlockLength { block: Block, expected: usize, found: usize },
}

/// Length of the state vector of a vehicle with `joints` joints.
pub open spec fn state_dim(joints: nat, integral: bool) -> nat {
    13 + 2 * joints + if integral {
        6 + joints
    } else {
        0
    }
}

/// Partition of the state vector of one vehicle.
#[derive(Clone, Copy, Debug, PartialEq, Eq, Structural)]
pub struct StateLayout {
    joints: usize,
    integral: bool,
}

impl StateLayout {
    #[verifier::type_invariant]
    spec fn indexable(self) -> bool {
        state_dim(self.joints as nat, self.integral) <= usize::MAX
    }

    /// Number of joints, the floating base not counted.
    pub closed spec fn joints(self) -> nat {
        self.joints as nat
    }

    /// Whether the state carries the integrals of the tracking errors.
    pub closed spec fn integral(self) -> bool {
        self.integral
    }

    /// Number of entries of a block.
    pub open spec fn spec_width(self, block: Block) -> nat {
        match block {
            Block::Position => 3,
            Block::Orientation => 4,
            Block::JointAngles => self.joints(),
            Block::Velocity => 6 + self.joints(),
            Block::BaseIntegral => if self.integral() {
                6
            } else {
                0
            },
            Block::JointIntegral => if self.integral() {
                self.joints()
            } else {
                0
            },
        }
    }

    /// Index of the first entry of a block.
    pub open spec fn spec_start(self, block: Block) -> nat {
        match block {
            Block::Position => 0,
            Block::Orientation => 3,
            Block::JointAngles => 7,
            Block::Velocity => 7 + self.joints(),
            Block::BaseIntegral => 13 + 2 * self.joints(),
            Block::JointIntegral => 13 + 2 * self.joints() + self.spec_width(Block::BaseIntegral),
        }
    }

    /// Index just behind the last entry of a block.
    pub open spec fn spec_end(self, block: Block) -> nat {
        self.spec_start(block) + self.spec_width(block)
    }

    /// Length of the state vector.
    pub open spec fn spec_dim(self) -> nat {
        state_dim(self.joints(), self.integral())
    }

    /// The entries of `y` that belong to a block.
    pub open spec fn cut<T>(self, y: Seq<T>, block: Block) -> Seq<T> {
        y.subrange(self.spec_start(block) as int, self.spec_end(block) as int)
    }

    /// The blocks tile the state vector: the first starts at zero, each
    /// starts where the one before it ends, and the last ends with the
    /// vector.
    pub proof fn lemma_blocks_tile(self)
        ensures
            self.spec_start(Block::Position) == 0,
            self.spec_start(Block::Orientation) == self.spec_end(Block::Position),
            self.spec_start(Block::JointAngles) == self.spec_end(Block::Orientation),
            self.spec_start(Block::Velocity) == self.spec_end(Block::JointAngles),
            self.spec_start(Block::BaseIntegral) == self.spec_end(Block::Velocity),
            self.spec_start(Block::JointIntegral) == self.spec_end(Block::BaseIntegral),
            self.spec_end(Block::JointIntegral) == self.spec_dim(),
    {
    }

    /// No entry belongs to two blocks.
    pub proof fn lemma_blocks_disjoint(self, i: int, a: Block, b: Block)
        requires
            self.spec_start(a) <= i < self.spec_end(a),
            self.spec_start(b) <= i < self.spec_end(b),
        ensures
            a == b,
    {
    }

    /// Lays out the state of a vehicle with `joints` joints.  Fails only
    /// where the state vector would be longer than the machine can index.
    pub fn new(joints: usize, integral: bool) -> (r: Result<StateLayout, LayoutError>)
        ensures
            match r {
                Ok(l) => {
                    &&& l.joints() == joints
                    &&& l.integral() == integral
                    &&& state_dim(joints as nat, integral) <= usize::MAX
                },
                Err(e) => {
                    &&& e == LayoutError::TooManyJoints
                    &&& state_dim(joints as nat, integral) > usize::MAX
                },
            },
    {
        let room: usize = if integral {
            (usize::MAX - 19) / 3
        } else {
            (usize::MAX - 13) / 2
        };
        if joints > room {
            Err(LayoutError::TooManyJoints)
        } else {
            Ok(StateLayout { joints, integral })
        }
    }

    /// Number of joints, the floating base not counted.
    pub fn num_joints(&self) -> (n: usize)
        ensures
            n == self.joints(),
    {
        self.joints
    }

    /// Whether the state carries the integrals of the tracking errors.
    pub fn has_integral(&self) -> (b: bool)
        ensures
            b == self.integral(),
    {
        self.integral
    }

    /// Number of entries of a block.
    pub fn width(&self, block: Block) -> (w: usize)
        ensures
            w == self.spec_width(block),
    {
        proof {
            use_type_invariant(self);
        }
        match block {
            Block::Position => POSITION_DIM,
            Block::Orientation => ORIENTATION_DIM,
            Block::JointAngles => self.joints,
            Block::Velocity => BASE_DOF + self.joints,
            Block::BaseIntegral => if self.integral {
                BASE_DOF
            } else {
                0
            },
            Block::JointIntegral => if self.integral {
                self.joints
            } else {
                0
            },
        }
    }

    /// Index of the first entry of a block.
    pub fn start(&self, block: Block) -> (s: usize)
        ensures
            s == self.spec_start(block),
    {
        proof {
            use_type_invariant(self);
        }
        match block {
            Block::Position => 0,
            Block::Orientation => POSITION_DIM,
            Block::JointAngles => POSITION_DIM + ORIENTATION_DIM,
            Block::Velocity => POSITION_DIM + ORIENTATION_DIM + self.joints,
            Block::BaseIntegral => POSITION_DIM + ORIENTATION_DIM + self.joints + BASE_DOF
                + self.joints,
            Block::JointIntegral => POSITION_DIM + ORIENTATION_DIM + self.joints + BASE_DOF
                + self.joints + self.width(Block::BaseIntegral),
        }
    }

    /// Index just behind the last entry of a block.
    pub fn end(&self, block: Block) -> (e: usize)
        ensures
            e == self.spec_end(block),
    {
        proof {
            use_type_invariant(self);
        }
        self.start(block) + self.width(block)
    }

    /// Length of the state vector.
    pub fn dim(&self) -> (d: usize)
        ensures
            d == self.spec_dim(),
    {
        self.end(Block::JointIntegral)
    }

    /// The block that entry `i` of the state vector belongs to; `None`
    /// where the vector has no such entry.
    pub fn block_at(&self, i: usize) -> (r: Option<Block>)
        ensures
            r is None <==> i >= self.spec_dim(),
            r matches Some(b) ==> self.spec_start(b) <= i < self.spec_end(b),
    {
        if i < self.end(Block::Position) {
            Some(Block::Position)
        } else if i < self.end(Block::Orientation) {
            Some(Block::Orientation)
        } else if i < self.end(Block::JointAngles) {
            Some(Block::JointAngles)
        } else if i < self.end(Block::Velocity) {
            Some(Block::Velocity)
        } else if i < self.end(Block::BaseIntegral) {
            Some(Block::BaseIntegral)
        } else if i < self.end(Block::JointIntegral) {
            Some(Block::JointIntegral)
        } else {
            None
        }
    }
}

} // verus!
