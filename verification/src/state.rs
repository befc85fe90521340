//! A state vector taken apart into its blocks, and put together again.
//!
//! The entries are of any copyable type `T`; nothing here looks inside
//! them.

use vstd::prelude::*;
use crate::layout::{Block, LayoutError, StateLayout, BASE_DOF};

verus! {

/// The six blocks of a state vector as mathematical sequences.
pub struct Blocks<T> {
    pub position: Seq<T>,
    pub orientation: Seq<T>,
    pub joint_angles: Seq<T>,
    pub velocity: Seq<T>,
    pub base_integral: Seq<T>,
    pub joint_integral: Seq<T>,
}

impl<T> Blocks<T> {
    /// The entries of one block.
    pub open spec fn block(self, b: Block) -> Seq<T> {
        match b {
            Block::Position => self.position,
            Block::Orientation => self.orientation,
            Block::JointAngles => self.joint_angles,
            Block::Velocity => self.velocity,
            Block::BaseIntegral => self.base_integral,
            Block::JointIntegral => self.joint_integral,
        }
    }

    /// The blocks one after the other, as they lie in the state vector.
    pub open spec fn flat(self) -> Seq<T> {
        self.position + self.orientation + self.joint_angles + self.velocity + self.base_integral
            + self.joint_integral
    }

    /// The block has the width that the layout gives it.
    pub open spec fn block_ok(self, layout: StateLayout, b: Block) -> bool {
        self.block(b).len() == layout.spec_width(b)
    }

    /// Every block has the width that the layout gives it.
    pub open spec fn fits(self, layout: StateLayout) -> bool {
        &&& self.block_ok(layout, Block::Position)
        &&& self.block_ok(layout, Block::Orientation)
        &&& self.block_ok(layout, Block::JointAngles)
        &&& self.block_ok(layout, Block::Velocity)
        &&& self.block_ok(layout, Block::BaseIntegral)
        &&& self.block_ok(layout, Block::JointIntegral)
    }

    /// `e` names the first block, in the order of the layout, that has not
    /// the width the layout gives it.
    pub open spec fn misfit(self, layout: StateLayout, e: LayoutError) -> bool {
        match e {
            LayoutError::BlockLength { block, expected, found } => {
                &&& !self.block_ok(layout, block)
                &&& expected == layout.spec_width(block)
                &&& found == self.block(block).len()
                &&& forall|g: Block|
                    g.order() < block.order() ==> #[trigger] self.block_ok(layout, g)
            },
            _ => false,
        }
    }

    /// The joint rates: what follows the base twist in the velocity block.
    pub open spec fn joint_rates(self) -> Seq<T> {
        self.velocity.subrange(BASE_DOF as int, self.velocity.len() as int)
    }

    /// The base twist: the first six entries of the velocity block.
    pub open spec fn base_twist(self) -> Seq<T> {
        self.velocity.subrange(0, BASE_DOF as int)
    }

    /// The blocks of the state derivative: the angles change at the joint
    /// rates of this state, every other block is as given.
    pub open spec fn derivative(
        self,
        position_rate: Seq<T>,
        orientation_rate: Seq<T>,
        acceleration: Seq<T>,
        base_error: Seq<T>,
        joint_error: Seq<T>,
    ) -> Blocks<T> {
        Blocks {
            position: position_rate,
            orientation: orientation_rate,
            joint_angles: self.joint_rates(),
            velocity: acceleration,
            base_integral: base_error,
            joint_integral: joint_error,
        }
    }
}

impl StateLayout {
    /// The blocks of a state vector `y`.
    pub open spec fn cut_all<T>(self, y: Seq<T>) -> Blocks<T> {
        Blocks {
            position: self.cut(y, Block::Position),
            orientation: self.cut(y, Block::Orientation),
            joint_angles: self.cut(y, Block::JointAngles),
            velocity: self.cut(y, Block::Velocity),
            base_integral: self.cut(y, Block::BaseIntegral),
            joint_integral: self.cut(y, Block::JointIntegral),
        }
    }

    /// Taking a state vector apart and putting the blocks together again
    /// gives the vector back.
    pub proof fn lemma_cut_then_flat<T>(self, y: Seq<T>)
        requires
            y.len() == self.spec_dim(),
        ensures
            self.cut_all(y).fits(self),
            self.cut_all(y).flat() == y,
    {
        assert(self.cut_all(y).flat() =~= y);
    }

    /// Putting blocks together and taking the vector apart again gives the
    /// blocks back.
    pub proof fn lemma_flat_then_cut<T>(self, blocks: Blocks<T>)
        requires
            blocks.fits(self),
        ensures
            blocks.flat().len() == self.spec_dim(),
            self.cut_all(blocks.flat()) == blocks,
    {
        let y = blocks.flat();
        let c = self.cut_all(y);
        assert(c.position =~= blocks.position);
        assert(c.orientation =~= blocks.orientation);
        assert(c.joint_angles =~= blocks.joint_angles);
        assert(c.velocity =~= blocks.velocity);
        assert(c.base_integral =~= blocks.base_integral);
        assert(c.joint_integral =~= blocks.joint_integral);
    }
}

/// Where every velocity of a state is `rest`, every joint angle rate of its
/// derivative is `rest` too, whatever the other blocks are, and there is
/// one such rate per joint.
pub proof fn lemma_joint_rates_at_rest<T>(
    layout: StateLayout,
    state: Blocks<T>,
    rest: T,
    position_rate: Seq<T>,
    orientation_rate: Seq<T>,
    acceleration: Seq<T>,
    base_error: Seq<T>,
    joint_error: Seq<T>,
)
    requires
        state.fits(layout),
        forall|i: int| 0 <= i < state.velocity.len() ==> state.velocity[i] == rest,
    ensures
        ({
            let rates = state.derivative(
                position_rate,
                orientation_rate,
                acceleration,
                base_error,
                joint_error,
            );
            &&& rates.joint_angles.len() == layout.joints()
            &&& forall|i: int| 0 <= i < rates.joint_angles.len() ==> rates.joint_angles[i] == rest
        }),
{
}

/// Blocks that do not fit a layout have a first block that does not, and
/// only one error names it.
pub proof fn lemma_misfit_unique<T>(
    blocks: Blocks<T>,
    layout: StateLayout,
    e1: LayoutError,
    e2: LayoutError,
)
    requires
        blocks.misfit(layout, e1),
        blocks.misfit(layout, e2),
    ensures
        e1 == e2,
        !blocks.fits(layout),
{
    match (e1, e2) {
        (
            LayoutError::BlockLength { block: b1, .. },
            LayoutError::BlockLength { block: b2, .. },
        ) => {
            if b1.order() < b2.order() {
                assert(blocks.block_ok(layout, b1));
            }
            if b2.order() < b1.order() {
                assert(blocks.block_ok(layout, b2));
            }
        },
        _ => {},
    }
}

/// Copies the entries `from..to` of a slice.
fn copy_range<T: Copy>(src: &[T], from: usize, to: usize) -> (out: Vec<T>)
    requires
        from <= to <= src@.len(),
    ensures
        out@ == src@.subrange(from as int, to as int),
{
    let mut out: Vec<T> = Vec::new();
    let mut i: usize = from;
    while i < to
        invariant
            from <= i <= to <= src@.len(),
            out@ == src@.subrange(from as int, i as int),
        decreases to - i,
    {
        out.push(src[i]);
        i += 1;
        assert(out@ =~= src@.subrange(from as int, i as int));
    }
    out
}

/// Appends a copy of `src` to `dst`.
fn append_copy<T: Copy>(dst: &mut Vec<T>, src: &Vec<T>)
    ensures
        final(dst)@ == old(dst)@ + src@,
{
    let mut i: usize = 0;
    while i < src.len()
        invariant
            i <= src.len(),
            dst@ == old(dst)@ + src@.subrange(0, i as int),
        decreases src.len() - i,
    {
        dst.push(src[i]);
        i += 1;
        assert(dst@ =~= old(dst)@ + src@.subrange(0, i as int));
    }
    assert(src@.subrange(0, src.len() as int) =~= src@);
}

/// A state vector taken apart.  Each block has the width that the layout
/// gives it.
#[derive(Debug)]
pub struct StateParts<T> {
    layout: StateLayout,
    position: Vec<T>,
    orientation: Vec<T>,
    joint_angles: Vec<T>,
    velocity: Vec<T>,
    base_integral: Vec<T>,
    joint_integral: Vec<T>,
}

impl<T> View for StateParts<T> {
    type V = Blocks<T>;

    closed spec fn view(&self) -> Blocks<T> {
        Blocks {
            position: self.position@,
            orientation: self.orientation@,
            joint_angles: self.joint_angles@,
            velocity: self.velocity@,
            base_integral: self.base_integral@,
            joint_integral: self.joint_integral@,
        }
    }
}

impl<T> StateParts<T> {
    #[verifier::type_invariant]
    spec fn well_formed(self) -> bool {
        self@.fits(self.layout)
    }

    /// The layout that the parts were cut to.
    pub closed spec fn spec_layout(self) -> StateLayout {
        self.layout
    }
}

impl<T: Copy> StateParts<T> {
    /// Takes six blocks as the parts of a state.  Fails with the first
    /// block, in the order of the layout, whose width is not the layout's.
    pub fn new(
        layout: StateLayout,
        position: Vec<T>,
        orientation: Vec<T>,
        joint_angles: Vec<T>,
        velocity: Vec<T>,
        base_integral: Vec<T>,
        joint_integral: Vec<T>,
    ) -> (r: Result<StateParts<T>, LayoutError>)
        ensures
            ({
                let given = Blocks {
                    position: position@,
                    orientation: orientation@,
                    joint_angles: joint_angles@,
                    velocity: velocity@,
                    base_integral: base_integral@,
                    joint_integral: joint_integral@,
                };
                &&& r is Ok <==> given.fits(layout)
                &&& match r {
                    Ok(p) => p.spec_layout() == layout && p@ == given,
                    Err(e) => given.misfit(layout, e),
                }
            }),
    {
        let r = Self::checked(
            layout,
            position,
            orientation,
            joint_angles,
            velocity,
            base_integral,
            joint_integral,
        );
        proof {
            if let Err(e) = r {
                lemma_misfit_unique(
                    Blocks {
                        position: position@,
                        orientation: orientation@,
                        joint_angles: joint_angles@,
                        velocity: velocity@,
                        base_integral: base_integral@,
                        joint_integral: joint_integral@,
                    },
                    layout,
                    e,
                    e,
                );
            }
        }
        r
    }

    fn checked(
        layout: StateLayout,
        position: Vec<T>,
        orientation: Vec<T>,
        joint_angles: Vec<T>,
        velocity: Vec<T>,
        base_integral: Vec<T>,
        joint_integral: Vec<T>,
    ) -> (r: Result<StateParts<T>, LayoutError>)
        ensures
            ({
                let given = Blocks {
                    position: position@,
                    orientation: orientation@,
                    joint_angles: joint_angles@,
                    velocity: velocity@,
                    base_integral: base_integral@,
                    joint_integral: joint_integral@,
                };
                match r {
                    Ok(p) => p.spec_layout() == layout && p@ == given && given.fits(layout),
                    Err(e) => given.misfit(layout, e),
                }
            }),
    {
        let w: usize = layout.width(Block::Position);
        if position.len() != w {
            return Err(
                LayoutError::BlockLength {
                    block: Block::Position,
                    expected: w,
                    found: position.len(),
                },
            );
        }
        let w: usize = layout.width(Block::Orientation);
        if orientation.len() != w {
            return Err(
                LayoutError::BlockLength {
                    block: Block::Orientation,
                    expected: w,
                    found: orientation.len(),
                },
            );
        }
        let w: usize = layout.width(Block::JointAngles);
        if joint_angles.len() != w {
            return Err(
                LayoutError::BlockLength {
                    block: Block::JointAngles,
                    expected: w,
                    found: joint_angles.len(),
                },
            );
        }
        let w: usize = layout.width(Block::Velocity);
        if velocity.len() != w {
            return Err(
                LayoutError::BlockLength {
                    block: Block::Velocity,
                    expected: w,
                    found: velocity.len(),
                },
            );
        }
        let w: usize = layout.width(Block::BaseIntegral);
        if base_integral.len() != w {
            return Err(
                LayoutError::BlockLength {
                    block: Block::BaseIntegral,
                    expected: w,
                    found: base_integral.len(),
                },
            );
        }
        let w: usize = layout.width(Block::JointIntegral);
        if joint_integral.len() != w {
            return Err(
                LayoutError::BlockLength {
                    block: Block::JointIntegral,
                    expected: w,
                    found: joint_integral.len(),
                },
            );
        }
        Ok(
            StateParts {
                layout,
                position,
                orientation,
                joint_angles,
                velocity,
                base_integral,
                joint_integral,
            },
        )
    }

    /// The layout that the parts were cut to.
    pub fn layout(&self) -> (l: StateLayout)
        ensures
            l == self.spec_layout(),
            self@.fits(l),
    {
        proof {
            use_type_invariant(self);
        }
        self.layout
    }

    /// Base position.
    pub fn position(&self) -> (r: &Vec<T>)
        ensures
            r@ == self@.position,
            r@.len() == 3,
    {
        proof {
            use_type_invariant(self);
        }
        &self.position
    }

    /// Base orientation quaternion.
    pub fn orientation(&self) -> (r: &Vec<T>)
        ensures
            r@ == self@.orientation,
            r@.len() == 4,
    {
        proof {
            use_type_invariant(self);
        }
        &self.orientation
    }

    /// Joint angles.
    pub fn joint_angles(&self) -> (r: &Vec<T>)
        ensures
            r@ == self@.joint_angles,
            r@.len() == self.spec_layout().joints(),
    {
        proof {
            use_type_invariant(self);
        }
        &self.joint_angles
    }

    /// Velocities: the base twist, then the joint rates.
    pub fn velocity(&self) -> (r: &Vec<T>)
        ensures
            r@ == self@.velocity,
            r@.len() == 6 + self.spec_layout().joints(),
    {
        proof {
            use_type_invariant(self);
        }
        &self.velocity
    }

    /// Integral of the base pose error; empty without integral control.
    pub fn base_integral(&self) -> (r: &Vec<T>)
        ensures
            r@ == self@.base_integral,
            r@.len() == self.spec_layout().spec_width(Block::BaseIntegral),
    {
        proof {
            use_type_invariant(self);
        }
        &self.base_integral
    }

    /// Integral of the joint errors; empty without integral control.
    pub fn joint_integral(&self) -> (r: &Vec<T>)
        ensures
            r@ == self@.joint_integral,
            r@.len() == self.spec_layout().spec_width(Block::JointIntegral),
    {
        proof {
            use_type_invariant(self);
        }
        &self.joint_integral
    }

    /// The base twist: the first six velocities.
    pub fn base_twist(&self) -> (r: Vec<T>)
        ensures
            r@ == self@.base_twist(),
            r@.len() == 6,
    {
        proof {
            use_type_invariant(self);
        }
        copy_range(self.velocity.as_slice(), 0, BASE_DOF)
    }

    /// The joint rates: the velocities behind the base twist.
    pub fn joint_rates(&self) -> (r: Vec<T>)
        ensures
            r@ == self@.joint_rates(),
            r@.len() == self.spec_layout().joints(),
    {
        proof {
            use_type_invariant(self);
        }
        copy_range(self.velocity.as_slice(), BASE_DOF, self.velocity.len())
    }

    /// Puts the blocks together into one vector.
    pub fn join(&self) -> (y: Vec<T>)
        ensures
            y@ == self@.flat(),
            y@.len() == self.spec_layout().spec_dim(),
    {
        proof {
            use_type_invariant(self);
        }
        let mut y: Vec<T> = Vec::new();
        append_copy(&mut y, &self.position);
        append_copy(&mut y, &self.orientation);
        append_copy(&mut y, &self.joint_angles);
        append_copy(&mut y, &self.velocity);
        append_copy(&mut y, &self.base_integral);
        append_copy(&mut y, &self.joint_integral);
        assert(y@ =~= self@.flat());
        y
    }

    /// The parts of the state derivative.  The joint angles change at the
    /// joint rates of this state; the other blocks are handed in.  Fails
    /// with the first block, in the order of the layout, whose width is not
    /// the layout's.
    pub fn derivative(
        &self,
        position_rate: Vec<T>,
        orientation_rate: Vec<T>,
        acceleration: Vec<T>,
        base_error: Vec<T>,
        joint_error: Vec<T>,
    ) -> (r: Result<StateParts<T>, LayoutError>)
        ensures
            ({
                let rates = self@.derivative(
                    position_rate@,
                    orientation_rate@,
                    acceleration@,
                    base_error@,
                    joint_error@,
                );
                &&& r is Ok <==> rates.fits(self.spec_layout())
                &&& match r {
                    Ok(d) => d.spec_layout() == self.spec_layout() && d@ == rates,
                    Err(e) => rates.misfit(self.spec_layout(), e),
                }
            }),
    {
        let rates = self.joint_rates();
        StateParts::new(
            self.layout,
            position_rate,
            orientation_rate,
            rates,
            acceleration,
            base_error,
            joint_error,
        )
    }
}

impl StateLayout {
    /// Takes a state vector apart.  Fails where the vector has not the
    /// length of the layout.
    pub fn split<T: Copy>(&self, y: &[T]) -> (r: Result<StateParts<T>, LayoutError>)
        ensures
            match r {
                Ok(p) => {
                    &&& y@.len() == self.spec_dim()
                    &&& p.spec_layout() == *self
                    &&& p@ == self.cut_all(y@)
                },
                Err(e) => {
                    &&& y@.len() != self.spec_dim()
                    &&& e == (LayoutError::StateLength {
                        expected: self.spec_dim() as usize,
                        found: y@.len() as usize,
                    })
                },
            },
    {
        let d: usize = self.dim();
        if y.len() != d {
            return Err(LayoutError::StateLength { expected: d, found: y.len() });
        }
        let position = copy_range(y, self.start(Block::Position), self.end(Block::Position));
        let orientation = copy_range(
            y,
            self.start(Block::Orientation),
            self.end(Block::Orientation),
        );
        let joint_angles = copy_range(
            y,
            self.start(Block::JointAngles),
            self.end(Block::JointAngles),
        );
        let velocity = copy_range(y, self.start(Block::Velocity), self.end(Block::Velocity));
        let base_integral = copy_range(
            y,
            self.start(Block::BaseIntegral),
            self.end(Block::BaseIntegral),
        );
        let joint_integral = copy_range(
            y,
            self.start(Block::JointIntegral),
            self.end(Block::JointIntegral),
        );
        let r = StateParts::new(
            *self,
            position,
            orientation,
            joint_angles,
            velocity,
            base_integral,
            joint_integral,
        );
        proof {
            self.lemma_cut_then_flat(y@);
            if let Err(e) = r {
                lemma_misfit_unique(self.cut_all(y@), *self, e, e);
            }
        }
        r
    }
}

} // verus!
