//! The inertial parameters of one link: its rotational inertia and the
//! added mass of the water it carries along.  Both are symmetric; they are
//! set once, when the model is built, and not changed afterwards.

use vstd::prelude::*;
use crate::symmetric::Symmetric;

verus! {

/// Order of the rotational inertia.
pub const INERTIA_ORDER: usize = 3;

/// Order of the added mass.
pub const ADDED_MASS_ORDER: usize = 6;

/// Why two matrices are not the inertial parameters of a link.
#[derive(Clone, Copy, Debug, PartialEq, Eq, Structural)]
pub enum OrderError {
    /// The rotational inertia is not of order three.
    Inertia { found: usize },
    /// The added mass is not of order six.
    AddedMass { found: usize },
}

/// Rotational inertia and added mass of one link.
#[derive(Debug)]
pub struct LinkInertialModel<T> {
    inertia: Symmetric<T>,
    added_mass: Symmetric<T>,
}

impl<T> LinkInertialModel<T> {
    #[verifier::type_invariant]
    spec fn orders(self) -> bool {
        &&& self.inertia.spec_order() == INERTIA_ORDER
        &&& self.added_mass.spec_order() == ADDED_MASS_ORDER
    }

    /// The rotational inertia.
    pub closed spec fn spec_inertia(self) -> Symmetric<T> {
        self.inertia
    }

    /// The added mass.
    pub closed spec fn spec_added_mass(self) -> Symmetric<T> {
        self.added_mass
    }

    /// Takes a matrix of order three and one of order six as the inertial
    /// parameters of a link.  The inertia is looked at first.
    pub fn new(inertia: Symmetric<T>, added_mass: Symmetric<T>) -> (r: Result<
        LinkInertialModel<T>,
        OrderError,
    >)
        ensures
            match r {
                Ok(m) => {
                    &&& m.spec_inertia() == inertia
                    &&& m.spec_added_mass() == added_mass
                    &&& inertia.spec_order() == INERTIA_ORDER
                    &&& added_mass.spec_order() == ADDED_MASS_ORDER
                },
                Err(OrderError::Inertia { found }) => {
                    &&& found == inertia.spec_order()
                    &&& found != INERTIA_ORDER
                },
                Err(OrderError::AddedMass { found }) => {
                    &&& inertia.spec_order() == INERTIA_ORDER
                    &&& found == added_mass.spec_order()
                    &&& found != ADDED_MASS_ORDER
                },
            },
    {
        let n: usize = inertia.order();
        if n != INERTIA_ORDER {
            return Err(OrderError::Inertia { found: n });
        }
        let n: usize = added_mass.order();
        if n != ADDED_MASS_ORDER {
            return Err(OrderError::AddedMass { found: n });
        }
        Ok(LinkInertialModel { inertia, added_mass })
    }

    /// The rotational inertia, of order three.
    pub fn inertia(&self) -> (m: &Symmetric<T>)
        ensures
            *m == self.spec_inertia(),
            m.spec_order() == INERTIA_ORDER,
    {
        proof {
            use_type_invariant(self);
        }
        &self.inertia
    }

    /// The added mass, of order six.
    pub fn added_mass(&self) -> (m: &Symmetric<T>)
        ensures
            *m == self.spec_added_mass(),
            m.spec_order() == ADDED_MASS_ORDER,
    {
        proof {
            use_type_invariant(self);
        }
        &self.added_mass
    }
}

} // verus!
