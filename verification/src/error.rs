//! Reasons for which a vehicle description is turned down.

use vstd::prelude::*;

verus! {

/// The vectors of a vehicle description whose lengths are checked, in the
/// order in which they are checked.
#[derive(Clone, Copy, Debug, PartialEq, Eq, Structural)]
pub enum Field {
    Parents,
    Mass,
    Radius,
    Length,
    DragCoeffs,
    PosCom,
    PosCob,
    PosOffsets,
    RollPitchYawOffsets,
    AddedMassCoeffs,
    AddedAlpha,
    ThrusterPosOffsets,
    ThrusterParents,
}

impl Field {
    /// Position of the field in the order of checking.
    pub open spec fn rank(self) -> int {
        match self {
            Field::Parents => 0,
            Field::Mass => 1,
            Field::Radius => 2,
            Field::Length => 3,
            Field::DragCoeffs => 4,
            Field::PosCom => 5,
            Field::PosCob => 6,
            Field::PosOffsets => 7,
            Field::RollPitchYawOffsets => 8,
            Field::AddedMassCoeffs => 9,
            Field::AddedAlpha => 10,
            Field::ThrusterPosOffsets => 11,
            Field::ThrusterParents => 12,
        }
    }

    /// Whether the field holds one entry per thruster rather than per link.
    pub open spec fn per_thruster(self) -> bool {
        self == Field::ThrusterPosOffsets || self == Field::ThrusterParents
    }
}

/// Why a vehicle description is inconsistent.
#[derive(Clone, Copy, Debug, PartialEq, Eq, Structural)]
pub enum ConfigError {
    /// There is no link at all, so no floating base.
    NoLinks,
    /// A vector has neither the length it must have nor, where it may be
    /// left out, length zero.
    Length { field: Field, expected: usize, found: usize },
    /// The joint kind of a link is wrong: the base must float, and no other
    /// link may.
    JointKind { link: usize },
    /// The parent of a link is not an earlier link or, for the base, not the
    /// world.
    ParentOrder { link: usize },
    /// A thruster sits on a link that does not exist.
    ThrusterParent { thruster: usize },
    /// The vehicle has not the number of links that a model is made for.
    LinkCount { expected: usize, found: usize },
    /// The vehicle has not the number of thrusters that a model is made
    /// for.
    ThrusterCount { expected: usize, found: usize },
}

/// Compares a length against the one it must have.
pub fn check_len(field: Field, found: usize, expected: usize, optional: bool) -> (r: Result<
    (),
    ConfigError,
>)
    ensures
        r == if found == expected || (optional && found == 0) {
            Ok::<(), ConfigError>(())
        } else {
            Err::<(), ConfigError>(ConfigError::Length { field, expected, found })
        },
{
    if found == expected || (optional && found == 0) {
        Ok(())
    } else {
        Err(ConfigError::Length { field, expected, found })
    }
}

} // verus!
