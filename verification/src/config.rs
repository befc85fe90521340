//! The vehicle description and the rules it has to meet.
//!
//! The description is generic in its numeric payload: `S` is the scalar,
//! `V3` a 3-vector and `V6` a 6-vector.  The rules concern lengths, joint
//! kinds and indices only.

use vstd::prelude::*;
use crate::actuation::{Actuation, ShapeError};
use crate::error::{check_len, ConfigError, Field};
use crate::joint::JointType;
use crate::layout::{state_dim, Block, LayoutError, StateLayout};
use crate::thruster::{
    first_bad_thruster, lists_mounted, spec_thruster_link, thruster_link_of, thruster_ok,
    thrusters_on_link,
};
use crate::topology::{
    dof_sum, first_bad_joint, first_bad_parent, is_tree, joint_ok, lemma_tree_dof, parent_ok,
    total_dof,
};

verus! {

/// Description of a vehicle: a floating base and a tree of links on
/// single-axis joints, with the thrusters mounted on them.
#[derive(Clone, Debug)]
pub struct Config<S, V3, V6> {
    /// Total simulated time.
    pub sim_time: S,
    pub gravity: V3,
    /// Drag coefficients of each link.
    pub dragcoeffs: Vec<V6>,
    pub joint_types: Vec<JointType>,
    /// Mass of each link; empty where the vehicle is taken as neutrally
    /// buoyant and the masses follow from the geometry.
    pub mass: Vec<S>,
    pub radius: Vec<S>,
    pub length: Vec<S>,
    pub fluid_density: S,
    /// Parent of each link, counted from one; zero is the world.
    pub parents: Vec<u16>,
    /// Centre of gravity of each link, in the link frame.
    pub pos_com: Vec<V3>,
    /// Centre of buoyancy of each link, in the link frame.
    pub pos_cob: Vec<V3>,
    pub pos_offsets: Vec<V3>,
    pub roll_pitch_yaw_offsets: Vec<V3>,
    pub thruster_pos_offsets: Vec<V3>,
    pub thruster_dirs: Vec<V3>,
    /// Link that carries each thruster, counted from one.
    pub thruster_parents: Vec<u16>,
    /// Scale of each link's added mass; empty, or `None` for a link, where
    /// the added mass is taken unscaled.
    pub added_mass_coeffs: Vec<Option<S>>,
    pub added_alpha: Vec<S>,
}

impl<S, V3, V6> Config<S, V3, V6> {
    /// Number of links, the base included.
    pub open spec fn links(&self) -> nat {
        self.joint_types.len() as nat
    }

    /// Number of joints, the floating base not counted.
    pub open spec fn joints(&self) -> nat {
        if self.links() >= 1 {
            (self.links() - 1) as nat
        } else {
            0
        }
    }

    /// Number of thrusters.
    pub open spec fn thrusters(&self) -> nat {
        self.thruster_dirs.len() as nat
    }

    /// Length of the vector that `field` names.
    pub open spec fn field_len(&self, field: Field) -> nat {
        (match field {
            Field::Parents => self.parents.len(),
            Field::Mass => self.mass.len(),
            Field::Radius => self.radius.len(),
            Field::Length => self.length.len(),
            Field::DragCoeffs => self.dragcoeffs.len(),
            Field::PosCom => self.pos_com.len(),
            Field::PosCob => self.pos_cob.len(),
            Field::PosOffsets => self.pos_offsets.len(),
            Field::RollPitchYawOffsets => self.roll_pitch_yaw_offsets.len(),
            Field::AddedMassCoeffs => self.added_mass_coeffs.len(),
            Field::AddedAlpha => self.added_alpha.len(),
            Field::ThrusterPosOffsets => self.thruster_pos_offsets.len(),
            Field::ThrusterParents => self.thruster_parents.len(),
        }) as nat
    }

    /// Length that the vector must have.
    pub open spec fn expected_len(&self, field: Field) -> nat {
        if field.per_thruster() {
            self.thrusters()
        } else {
            self.links()
        }
    }

    /// Whether the vector may be left empty.
    pub open spec fn may_be_empty(field: Field) -> bool {
        field == Field::Mass || field == Field::AddedMassCoeffs
    }

    /// The vector has an acceptable length.
    pub open spec fn field_ok(&self, field: Field) -> bool {
        let found = self.field_len(field);
        found == self.expected_len(field) || (Self::may_be_empty(field) && found == 0)
    }

    /// Every per-link vector has one entry per link and every per-thruster
    /// vector one per thruster, but for those that may be left empty.
    pub open spec fn lengths_ok(&self) -> bool {
        let n = self.links();
        let t = self.thrusters();
        &&& self.parents.len() == n
        &&& (self.mass.len() == n || self.mass.len() == 0)
        &&& self.radius.len() == n
        &&& self.length.len() == n
        &&& self.dragcoeffs.len() == n
        &&& self.pos_com.len() == n
        &&& self.pos_cob.len() == n
        &&& self.pos_offsets.len() == n
        &&& self.roll_pitch_yaw_offsets.len() == n
        &&& (self.added_mass_coeffs.len() == n || self.added_mass_coeffs.len() == 0)
        &&& self.added_alpha.len() == n
        &&& self.thruster_pos_offsets.len() == t
        &&& self.thruster_parents.len() == t
    }

    /// Every thruster sits on a link of the vehicle.
    pub open spec fn thrusters_ok(&self) -> bool {
        forall|k: int|
            0 <= k < self.thruster_parents.len() ==> thruster_ok(
                self.thruster_parents@,
                self.links(),
                k,
            )
    }

    /// The description is consistent.
    pub open spec fn valid(&self) -> bool {
        &&& self.links() >= 1
        &&& self.lengths_ok()
        &&& is_tree(self.joint_types@, self.parents@)
        &&& self.thrusters_ok()
    }

    /// `e` is the first rule that the description breaks.  The rules are
    /// taken in this order: a base exists; the vector lengths, in the order
    /// of `Field`; the joint kinds, link by link; the parents, link by link;
    /// the thruster parents, thruster by thruster.
    pub open spec fn rejects(&self, e: ConfigError) -> bool {
        let n = self.links();
        match e {
            ConfigError::NoLinks => n == 0,
            ConfigError::Length { field, expected, found } => {
                &&& n >= 1
                &&& !self.field_ok(field)
                &&& expected == self.expected_len(field)
                &&& found == self.field_len(field)
                &&& forall|g: Field| g.rank() < field.rank() ==> #[trigger] self.field_ok(g)
            },
            ConfigError::JointKind { link } => {
                &&& n >= 1
                &&& self.lengths_ok()
                &&& link < n
                &&& !joint_ok(self.joint_types@, link as int)
                &&& forall|i: int| 0 <= i < link ==> joint_ok(self.joint_types@, i)
            },
            ConfigError::ParentOrder { link } => {
                &&& n >= 1
                &&& self.lengths_ok()
                &&& forall|i: int| 0 <= i < n ==> joint_ok(self.joint_types@, i)
                &&& link < n
                &&& !parent_ok(self.parents@, link as int)
                &&& forall|i: int| 0 <= i < link ==> parent_ok(self.parents@, i)
            },
            ConfigError::ThrusterParent { thruster } => {
                &&& n >= 1
                &&& self.lengths_ok()
                &&& is_tree(self.joint_types@, self.parents@)
                &&& thruster < self.thrusters()
                &&& !thruster_ok(self.thruster_parents@, n, thruster as int)
                &&& forall|k: int|
                    0 <= k < thruster ==> thruster_ok(self.thruster_parents@, n, k)
            },
            _ => false,
        }
    }

    /// What `check_counts` answers: the links are counted first, then the
    /// thrusters.
    pub open spec fn spec_check_counts(&self, links: usize, thrusters: usize) -> Result<
        (),
        ConfigError,
    > {
        if self.links() != links {
            Err(ConfigError::LinkCount { expected: links, found: self.links() as usize })
        } else if self.thrusters() != thrusters {
            Err(
                ConfigError::ThrusterCount { expected: thrusters, found: self.thrusters() as usize },
            )
        } else {
            Ok(())
        }
    }

    /// The lengths are in order exactly when each checked vector is.
    pub proof fn lemma_lengths_by_field(&self)
        ensures
            self.lengths_ok() <==> forall|f: Field| #[trigger] self.field_ok(f),
    {
        if forall|f: Field| #[trigger] self.field_ok(f) {
            assert(self.field_ok(Field::Parents));
            assert(self.field_ok(Field::Mass));
            assert(self.field_ok(Field::Radius));
            assert(self.field_ok(Field::Length));
            assert(self.field_ok(Field::DragCoeffs));
            assert(self.field_ok(Field::PosCom));
            assert(self.field_ok(Field::PosCob));
            assert(self.field_ok(Field::PosOffsets));
            assert(self.field_ok(Field::RollPitchYawOffsets));
            assert(self.field_ok(Field::AddedMassCoeffs));
            assert(self.field_ok(Field::AddedAlpha));
            assert(self.field_ok(Field::ThrusterPosOffsets));
            assert(self.field_ok(Field::ThrusterParents));
        }
    }

    /// A description that breaks a rule is not consistent.
    pub proof fn lemma_rejected_is_invalid(&self, e: ConfigError)
        requires
            self.rejects(e),
        ensures
            !self.valid(),
    {
        self.lemma_lengths_by_field();
    }

    /// At most one error is the first rule broken: the outcome of
    /// `validate` is determined by the description.
    pub proof fn lemma_rejects_unique(&self, e1: ConfigError, e2: ConfigError)
        requires
            self.rejects(e1),
            self.rejects(e2),
        ensures
            e1 == e2,
    {
        self.lemma_lengths_by_field();
        match (e1, e2) {
            (
                ConfigError::Length { field: f1, .. },
                ConfigError::Length { field: f2, .. },
            ) => {
                if f1.rank() < f2.rank() {
                    assert(self.field_ok(f1));
                }
                if f2.rank() < f1.rank() {
                    assert(self.field_ok(f2));
                }
            },
            (ConfigError::JointKind { link: a }, ConfigError::JointKind { link: b }) => {
                if a < b {
                    assert(joint_ok(self.joint_types@, a as int));
                }
                if b < a {
                    assert(joint_ok(self.joint_types@, b as int));
                }
            },
            (ConfigError::ParentOrder { link: a }, ConfigError::ParentOrder { link: b }) => {
                if a < b {
                    assert(parent_ok(self.parents@, a as int));
                }
                if b < a {
                    assert(parent_ok(self.parents@, b as int));
                }
            },
            (
                ConfigError::ThrusterParent { thruster: a },
                ConfigError::ThrusterParent { thruster: b },
            ) => {
                if a < b {
                    assert(thruster_ok(self.thruster_parents@, self.links(), a as int));
                }
                if b < a {
                    assert(thruster_ok(self.thruster_parents@, self.links(), b as int));
                }
            },
            _ => {},
        }
    }

    /// Decides whether the description is consistent, and names the first
    /// rule it breaks where it is not.
    pub fn validate(&self) -> (r: Result<(), ConfigError>)
        ensures
            r is Ok <==> self.valid(),
            r matches Err(e) ==> self.rejects(e),
    {
        let r = self.first_violation();
        proof {
            if let Err(e) = r {
                self.lemma_rejected_is_invalid(e);
            }
        }
        r
    }

    /// Checks that the vehicle has as many links and thrusters as a model
    /// of fixed size is made for.
    pub fn check_counts(&self, links: usize, thrusters: usize) -> (r: Result<(), ConfigError>)
        ensures
            r == self.spec_check_counts(links, thrusters),
    {
        let found: usize = self.joint_types.len();
        if found != links {
            return Err(ConfigError::LinkCount { expected: links, found });
        }
        let found: usize = self.thruster_dirs.len();
        if found != thrusters {
            return Err(ConfigError::ThrusterCount { expected: thrusters, found });
        }
        Ok(())
    }

    /// Number of links, the base included.
    pub fn num_links(&self) -> (n: usize)
        ensures
            n == self.links(),
    {
        self.joint_types.len()
    }

    /// Number of joints, the floating base not counted.
    pub fn num_joints(&self) -> (n: usize)
        ensures
            n == self.joints(),
    {
        let links: usize = self.joint_types.len();
        if links >= 1 {
            links - 1
        } else {
            0
        }
    }

    /// Number of thrusters.
    pub fn num_thrusters(&self) -> (n: usize)
        ensures
            n == self.thrusters(),
    {
        self.thruster_dirs.len()
    }

    /// The partition of the state vector of this vehicle, with or without
    /// the integrals of the tracking errors.
    pub fn state_layout(&self, integral: bool) -> (r: Result<StateLayout, LayoutError>)
        ensures
            match r {
                Ok(l) => l.joints() == self.joints() && l.integral() == integral,
                Err(e) => {
                    &&& e == LayoutError::TooManyJoints
                    &&& state_dim(self.joints(), integral) > usize::MAX
                },
            },
    {
        StateLayout::new(self.num_joints(), integral)
    }

    /// The actuators of this vehicle: its thrusters and the drives of its
    /// joints.
    pub fn actuation(&self) -> (r: Result<Actuation, ShapeError>)
        ensures
            match r {
                Ok(a) => a.thrusters() == self.thrusters() && a.joints() == self.joints(),
                Err(e) => {
                    &&& e == ShapeError::TooLarge
                    &&& (self.thrusters() + self.joints() > usize::MAX || 6 + self.joints()
                        > usize::MAX)
                },
            },
    {
        Actuation::new(self.num_thrusters(), self.num_joints())
    }

    /// In a consistent description the state and the actuation agree with
    /// the joints: there is one joint angle per joint, one velocity and
    /// one row of the configuration matrix per generalized coordinate, and
    /// one column per thruster and per joint.
    pub proof fn lemma_counts_agree(&self, layout: StateLayout, actuation: Actuation)
        requires
            self.valid(),
            layout.joints() == self.joints(),
            actuation.joints() == self.joints(),
            actuation.thrusters() == self.thrusters(),
        ensures
            layout.spec_width(Block::JointAngles) == self.links() - 1,
            layout.spec_width(Block::Velocity) == dof_sum(self.joint_types@, self.links() as int),
            actuation.spec_rows() == dof_sum(self.joint_types@, self.links() as int),
            actuation.spec_cols() == self.thrusters() + self.links() - 1,
    {
        lemma_tree_dof(self.joint_types@, self.parents@);
    }

    /// Number of generalized coordinates of the vehicle; `None` where it
    /// does not fit the machine word.
    pub fn dof(&self) -> (r: Option<usize>)
        ensures
            r == if dof_sum(self.joint_types@, self.links() as int) <= usize::MAX {
                Some(dof_sum(self.joint_types@, self.links() as int) as usize)
            } else {
                None
            },
    {
        total_dof(&self.joint_types)
    }

    /// Link that carries thruster `k`, counted from zero.
    pub fn thruster_link(&self, k: usize) -> (r: Option<usize>)
        ensures
            r == spec_thruster_link(self.thruster_parents@, self.links(), k as int),
    {
        thruster_link_of(&self.thruster_parents, self.joint_types.len(), k)
    }

    /// The thrusters mounted on `link` (counted from zero), in rising order.
    pub fn thrusters_on(&self, link: usize) -> (r: Vec<usize>)
        ensures
            lists_mounted(r@, self.thruster_parents@, link as nat),
    {
        thrusters_on_link(&self.thruster_parents, link)
    }

    /// Whether the masses are given; where they are not, they follow from
    /// the geometry of a neutrally buoyant vehicle.
    pub fn has_mass(&self) -> (b: bool)
        ensures
            b <==> self.mass.len() > 0,
    {
        self.mass.len() > 0
    }

    fn first_violation(&self) -> (r: Result<(), ConfigError>)
        ensures
            match r {
                Ok(()) => self.valid(),
                Err(e) => self.rejects(e),
            },
    {
        let n: usize = self.joint_types.len();
        let t: usize = self.thruster_dirs.len();
        if n == 0 {
            return Err(ConfigError::NoLinks);
        }
        let c = check_len(Field::Parents, self.parents.len(), n, false);
        if c.is_err() {
            return c;
        }
        let c = check_len(Field::Mass, self.mass.len(), n, true);
        if c.is_err() {
            return c;
        }
        let c = check_len(Field::Radius, self.radius.len(), n, false);
        if c.is_err() {
            return c;
        }
        let c = check_len(Field::Length, self.length.len(), n, false);
        if c.is_err() {
            return c;
        }
        let c = check_len(Field::DragCoeffs, self.dragcoeffs.len(), n, false);
        if c.is_err() {
            return c;
        }
        let c = check_len(Field::PosCom, self.pos_com.len(), n, false);
        if c.is_err() {
            return c;
        }
        let c = check_len(Field::PosCob, self.pos_cob.len(), n, false);
        if c.is_err() {
            return c;
        }
        let c = check_len(Field::PosOffsets, self.pos_offsets.len(), n, false);
        if c.is_err() {
            return c;
        }
        let c = check_len(
            Field::RollPitchYawOffsets,
            self.roll_pitch_yaw_offsets.len(),
            n,
            false,
        );
        if c.is_err() {
            return c;
        }
        let c = check_len(Field::AddedMassCoeffs, self.added_mass_coeffs.len(), n, true);
        if c.is_err() {
            return c;
        }
        let c = check_len(Field::AddedAlpha, self.added_alpha.len(), n, false);
        if c.is_err() {
            return c;
        }
        let c = check_len(Field::ThrusterPosOffsets, self.thruster_pos_offsets.len(), t, false);
        if c.is_err() {
            return c;
        }
        let c = check_len(Field::ThrusterParents, self.thruster_parents.len(), t, false);
        if c.is_err() {
            return c;
        }
        if let Some(link) = first_bad_joint(&self.joint_types) {
            return Err(ConfigError::JointKind { link });
        }
        if let Some(link) = first_bad_parent(&self.parents) {
            return Err(ConfigError::ParentOrder { link });
        }
        if let Some(thruster) = first_bad_thruster(&self.thruster_parents, n) {
            return Err(ConfigError::ThrusterParent { thruster });
        }
        Ok(())
    }
}

impl<S: Copy, V3, V6> Config<S, V3, V6> {
    /// Scale of the added mass of `link`; `None` where none is given and
    /// the added mass is taken unscaled.
    pub fn added_mass_coeff(&self, link: usize) -> (r: Option<S>)
        ensures
            r == if link < self.added_mass_coeffs.len() {
                self.added_mass_coeffs[link as int]
            } else {
                None
            },
    {
        if link < self.added_mass_coeffs.len() {
            self.added_mass_coeffs[link]
        } else {
            None
        }
    }
}

} // verus!
