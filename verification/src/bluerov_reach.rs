//! A box-shaped vehicle that carries a four-joint arm: five links on a
//! fixed chain, each arm joint turning about its own z axis.

use vstd::prelude::*;
use crate::thruster::{
    first_bad_thruster, lists_mounted, spec_thruster_link, thruster_link_of, thruster_ok,
    thrusters_on_link,
};
use crate::error::{check_len, ConfigError, Field};
use crate::joint::{Axis, JointType};
use crate::topology::{dof_sum, is_tree, joint_ok, lemma_tree_dof, parent_ok};

verus! {

/// Number of links: the vehicle and the four links of the arm.
pub const NUM_BODIES: usize = 5;

/// Number of generalized coordinates: six for the vehicle, one per arm joint.
pub const NUM_DOFS: usize = 10;

/// Joint kinds of the chain.
pub open spec fn chain_joint_types() -> Seq<JointType> {
    seq![
        JointType::SixDOF,
        JointType::Revolute(Axis::Z),
        JointType::Revolute(Axis::Z),
        JointType::Revolute(Axis::Z),
        JointType::Revolute(Axis::Z),
    ]
}

/// Parent entries of the chain: each link hangs from the one before it.
pub open spec fn chain_parents() -> Seq<u16> {
    seq![0u16, 1u16, 2u16, 3u16, 4u16]
}

/// The chain is a tree rooted at the vehicle, and has ten generalized
/// coordinates.
pub proof fn lemma_chain_is_tree()
    ensures
        is_tree(chain_joint_types(), chain_parents()),
        chain_joint_types().len() == NUM_BODIES,
        dof_sum(chain_joint_types(), NUM_BODIES as int) == NUM_DOFS,
{
    lemma_chain_shape();
    lemma_tree_dof(chain_joint_types(), chain_parents());
}

proof fn lemma_chain_shape()
    ensures
        is_tree(chain_joint_types(), chain_parents()),
        chain_joint_types().len() == NUM_BODIES,
{
    let jt = chain_joint_types();
    let pa = chain_parents();
    assert forall|i: int| 0 <= i < jt.len() implies joint_ok(jt, i) by {
        if i == 0 {
        } else if i == 1 {
        } else if i == 2 {
        } else if i == 3 {
        } else {
        }
    }
    assert forall|i: int| 0 <= i < pa.len() implies parent_ok(pa, i) by {
        if i == 0 {
        } else if i == 1 {
        } else if i == 2 {
        } else if i == 3 {
        } else {
        }
    }
}

/// Joint kinds of the chain: the floating vehicle, then four joints
/// that turn about z.
pub fn joint_types() -> (r: Vec<JointType>)
    ensures
        r@ == chain_joint_types(),
{
    let r = vec![
        JointType::SixDOF,
        JointType::Revolute(Axis::Z),
        JointType::Revolute(Axis::Z),
        JointType::Revolute(Axis::Z),
        JointType::Revolute(Axis::Z),
    ];
    assert(r@ =~= chain_joint_types());
    r
}

/// Parent entries of the chain, counted from one.
pub fn parents() -> (r: Vec<u16>)
    ensures
        r@ == chain_parents(),
{
    let r = vec![0u16, 1u16, 2u16, 3u16, 4u16];
    assert(r@ =~= chain_parents());
    r
}

/// Description of the vehicle and its arm.
#[derive(Clone, Debug)]
pub struct BlueROVReachConfig<S, V3, V6> {
    pub gravity: V3,
    /// Drag coefficients of each link.
    pub dragcoeffs: Vec<V6>,
    /// Mass of each link.
    pub mass: Vec<S>,
    /// Edge lengths of the vehicle's bounding box.
    pub lengths_bluerov: V3,
    pub radius: Vec<S>,
    pub link_lengths: Vec<S>,
    pub fluid_density: S,
    /// Centre of gravity of each link, in the link frame.
    pub pos_com: Vec<V3>,
    /// Centre of buoyancy of each link, in the link frame.
    pub pos_cob: Vec<V3>,
    pub pos_offsets: Vec<V3>,
    pub roll_pitch_yaw_offsets: Vec<V3>,
    pub thruster_pos_offsets: Vec<V3>,
    pub thruster_dirs: Vec<V3>,
    /// Link that carries each thruster, counted from one.
    pub thruster_parents: Vec<u16>,
    /// Scale of each link's added mass; empty, or `None` for a link, where
    /// the added mass is taken unscaled.
    pub added_mass_coeffs: Vec<Option<S>>,
    pub added_alpha: Vec<S>,
}

impl<S, V3, V6> BlueROVReachConfig<S, V3, V6> {
    /// Number of thrusters.
    pub open spec fn thrusters(&self) -> nat {
        self.thruster_dirs.len() as nat
    }

    /// Length of the vector that `field` names; the parents are fixed.
    pub open spec fn field_len(&self, field: Field) -> nat {
        (match field {
            Field::Parents => NUM_BODIES,
            Field::Mass => self.mass.len(),
            Field::Radius => self.radius.len(),
            Field::Length => self.link_lengths.len(),
            Field::DragCoeffs => self.dragcoeffs.len(),
            Field::PosCom => self.pos_com.len(),
            Field::PosCob => self.pos_cob.len(),
            Field::PosOffsets => self.pos_offsets.len(),
            Field::RollPitchYawOffsets => self.roll_pitch_yaw_offsets.len(),
            Field::AddedMassCoeffs => self.added_mass_coeffs.len(),
            Field::AddedAlpha => self.added_alpha.len(),
            Field::ThrusterPosOffsets => self.thruster_pos_offsets.len(),
            Field::ThrusterParents => self.thruster_parents.len(),
        }) as nat
    }

    /// Length that the vector must have.
    pub open spec fn expected_len(&self, field: Field) -> nat {
        if field.per_thruster() {
            self.thrusters()
        } else {
            NUM_BODIES as nat
        }
    }

    /// The vector has an acceptable length; only the added-mass scales may
    /// be left empty.
    pub open spec fn field_ok(&self, field: Field) -> bool {
        let found = self.field_len(field);
        found == self.expected_len(field) || (field == Field::AddedMassCoeffs && found == 0)
    }

    /// Every per-link vector has five entries and every per-thruster vector
    /// one per thruster; the added-mass scales may be left empty.
    pub open spec fn lengths_ok(&self) -> bool {
        let n = NUM_BODIES;
        let t = self.thrusters();
        &&& self.mass.len() == n
        &&& self.radius.len() == n
        &&& self.link_lengths.len() == n
        &&& self.dragcoeffs.len() == n
        &&& self.pos_com.len() == n
        &&& self.pos_cob.len() == n
        &&& self.pos_offsets.len() == n
        &&& self.roll_pitch_yaw_offsets.len() == n
        &&& (self.added_mass_coeffs.len() == n || self.added_mass_coeffs.len() == 0)
        &&& self.added_alpha.len() == n
        &&& self.thruster_pos_offsets.len() == t
        &&& self.thruster_parents.len() == t
    }

    /// The description is consistent.
    pub open spec fn valid(&self) -> bool {
        &&& self.lengths_ok()
        &&& forall|k: int|
            0 <= k < self.thruster_parents.len() ==> thruster_ok(
                self.thruster_parents@,
                NUM_BODIES as nat,
                k,
            )
    }

    /// `e` is the first rule that the description breaks: the vector
    /// lengths come first, in the order of `Field`, then the thruster
    /// parents, thruster by thruster.
    pub open spec fn rejects(&self, e: ConfigError) -> bool {
        match e {
            ConfigError::Length { field, expected, found } => {
                &&& !self.field_ok(field)
                &&& expected == self.expected_len(field)
                &&& found == self.field_len(field)
                &&& forall|g: Field| g.rank() < field.rank() ==> #[trigger] self.field_ok(g)
            },
            ConfigError::ThrusterParent { thruster } => {
                &&& self.lengths_ok()
                &&& thruster < self.thrusters()
                &&& !thruster_ok(self.thruster_parents@, NUM_BODIES as nat, thruster as int)
                &&& forall|k: int|
                    0 <= k < thruster ==> thruster_ok(
                        self.thruster_parents@,
                        NUM_BODIES as nat,
                        k,
                    )
            },
            _ => false,
        }
    }

    /// The lengths are in order exactly when each checked vector is.
    pub proof fn lemma_lengths_by_field(&self)
        ensures
            self.lengths_ok() <==> forall|f: Field| #[trigger] self.field_ok(f),
    {
        if forall|f: Field| #[trigger] self.field_ok(f) {
            assert(self.field_ok(Field::Mass));
            assert(self.field_ok(Field::Radius));
            assert(self.field_ok(Field::Length));
            assert(self.field_ok(Field::DragCoeffs));
            assert(self.field_ok(Field::PosCom));
            assert(self.field_ok(Field::PosCob));
            assert(self.field_ok(Field::PosOffsets));
            assert(self.field_ok(Field::RollPitchYawOffsets));
            assert(self.field_ok(Field::AddedMassCoeffs));
            assert(self.field_ok(Field::AddedAlpha));
            assert(self.field_ok(Field::ThrusterPosOffsets));
            assert(self.field_ok(Field::ThrusterParents));
        }
    }

    /// A description that breaks a rule is not consistent.
    pub proof fn lemma_rejected_is_invalid(&self, e: ConfigError)
        requires
            self.rejects(e),
        ensures
            !self.valid(),
    {
        self.lemma_lengths_by_field();
    }

    /// At most one error is the first rule broken: the outcome of
    /// `validate` is determined by the description.
    pub proof fn lemma_rejects_unique(&self, e1: ConfigError, e2: ConfigError)
        requires
            self.rejects(e1),
            self.rejects(e2),
        ensures
            e1 == e2,
    {
        self.lemma_lengths_by_field();
        match (e1, e2) {
            (
                ConfigError::Length { field: f1, .. },
                ConfigError::Length { field: f2, .. },
            ) => {
                if f1.rank() < f2.rank() {
                    assert(self.field_ok(f1));
                }
                if f2.rank() < f1.rank() {
                    assert(self.field_ok(f2));
                }
            },
            (
                ConfigError::ThrusterParent { thruster: a },
                ConfigError::ThrusterParent { thruster: b },
            ) => {
                if a < b {
                    assert(thruster_ok(self.thruster_parents@, NUM_BODIES as nat, a as int));
                }
                if b < a {
                    assert(thruster_ok(self.thruster_parents@, NUM_BODIES as nat, b as int));
                }
            },
            _ => {},
        }
    }

    /// Decides whether the description is consistent, and names the first
    /// rule it breaks where it is not.
    pub fn validate(&self) -> (r: Result<(), ConfigError>)
        ensures
            r is Ok <==> self.valid(),
            r matches Err(e) ==> self.rejects(e),
    {
        let r = self.first_violation();
        proof {
            if let Err(e) = r {
                self.lemma_rejected_is_invalid(e);
            }
        }
        r
    }

    /// Number of thrusters.
    pub fn num_thrusters(&self) -> (n: usize)
        ensures
            n == self.thrusters(),
    {
        self.thruster_dirs.len()
    }

    /// Link that carries thruster `k`, counted from zero.
    pub fn thruster_link(&self, k: usize) -> (r: Option<usize>)
        ensures
            r == spec_thruster_link(self.thruster_parents@, NUM_BODIES as nat, k as int),
    {
        thruster_link_of(&self.thruster_parents, NUM_BODIES, k)
    }

    /// The thrusters mounted on `link` (counted from zero), in rising order.
    pub fn thrusters_on(&self, link: usize) -> (r: Vec<usize>)
        ensures
            lists_mounted(r@, self.thruster_parents@, link as nat),
    {
        thrusters_on_link(&self.thruster_parents, link)
    }

    fn first_violation(&self) -> (r: Result<(), ConfigError>)
        ensures
            match r {
                Ok(()) => self.valid(),
                Err(e) => self.rejects(e),
            },
    {
        let n: usize = NUM_BODIES;
        let t: usize = self.thruster_dirs.len();
        let c = check_len(Field::Mass, self.mass.len(), n, false);
        if c.is_err() {
            return c;
        }
        let c = check_len(Field::Radius, self.radius.len(), n, false);
        if c.is_err() {
            return c;
        }
        let c = check_len(Field::Length, self.link_lengths.len(), n, false);
        if c.is_err() {
            return c;
        }
        let c = check_len(Field::DragCoeffs, self.dragcoeffs.len(), n, false);
        if c.is_err() {
            return c;
        }
        let c = check_len(Field::PosCom, self.pos_com.len(), n, false);
        if c.is_err() {
            return c;
        }
        let c = check_len(Field::PosCob, self.pos_cob.len(), n, false);
        if c.is_err() {
            return c;
        }
        let c = check_len(Field::PosOffsets, self.pos_offsets.len(), n, false);
        if c.is_err() {
            return c;
        }
        let c = check_len(
            Field::RollPitchYawOffsets,
            self.roll_pitch_yaw_offsets.len(),
            n,
            false,
        );
        if c.is_err() {
            return c;
        }
        let c = check_len(Field::AddedMassCoeffs, self.added_mass_coeffs.len(), n, true);
        if c.is_err() {
            return c;
        }
        let c = check_len(Field::AddedAlpha, self.added_alpha.len(), n, false);
        if c.is_err() {
            return c;
        }
        let c = check_len(Field::ThrusterPosOffsets, self.thruster_pos_offsets.len(), t, false);
        if c.is_err() {
            return c;
        }
        let c = check_len(Field::ThrusterParents, self.thruster_parents.len(), t, false);
        if c.is_err() {
            return c;
        }
        if let Some(thruster) = first_bad_thruster(&self.thruster_parents, n) {
            return Err(ConfigError::ThrusterParent { thruster });
        }
        Ok(())
    }
}

impl<S: Copy, V3, V6> BlueROVReachConfig<S, V3, V6> {
    /// Scale of the added mass of `link`; `None` where none is given and
    /// the added mass is taken unscaled.
    pub fn added_mass_coeff(&self, link: usize) -> (r: Option<S>)
        ensures
            r == if link < self.added_mass_coeffs.len() {
                self.added_mass_coeffs[link as int]
            } else {
                None
            },
    {
        if link < self.added_mass_coeffs.len() {
            self.added_mass_coeffs[link]
        } else {
            None
        }
    }
}

} // verus!
