//! The discrete state of the task-space controller.
//!
//! A unit quaternion and its negative stand for the same rotation, so a
//! feedback on the vector part of the orientation error has two lobes.  The
//! controller tracks one of them and changes over only when the scalar part
//! of the error has crossed a threshold on the far side.

use vstd::prelude::*;

verus! {

/// The lobe of the orientation error that the controller tracks.
#[derive(Clone, Copy, Debug, PartialEq, Eq, Structural)]
pub enum ControlMode {
    /// The feedback acts on the vector part as it is; sign `+1`.
    Direct,
    /// The feedback acts on the negated vector part; sign `-1`.
    Mirrored,
}

impl ControlMode {
    /// The factor that the mode puts on the orientation feedback.
    pub open spec fn spec_sign(self) -> int {
        match self {
            ControlMode::Direct => 1,
            ControlMode::Mirrored => -1,
        }
    }

    /// The other mode.
    pub open spec fn spec_flipped(self) -> ControlMode {
        match self {
            ControlMode::Direct => ControlMode::Mirrored,
            ControlMode::Mirrored => ControlMode::Direct,
        }
    }

    /// The mode after one control cycle in which the scalar part of the
    /// error, taken with the sign of the mode, has or has not fallen to
    /// the negative threshold.
    pub open spec fn spec_step(self, crossed: bool) -> ControlMode {
        if crossed {
            self.spec_flipped()
        } else {
            self
        }
    }

    /// The mode of a new controller.
    pub fn new() -> (m: ControlMode)
        ensures
            m == ControlMode::Direct,
            m.spec_sign() == 1,
    {
        ControlMode::Direct
    }

    /// The factor that the mode puts on the orientation feedback.
    pub fn sign(self) -> (s: i64)
        ensures
            s == self.spec_sign(),
            s == 1 || s == -1,
    {
        match self {
            ControlMode::Direct => 1,
            ControlMode::Mirrored => -1,
        }
    }

    /// The other mode.
    #[verifier::when_used_as_spec(spec_flipped)]
    pub fn flipped(self) -> (m: ControlMode)
        ensures
            m == self.spec_flipped(),
            m.spec_sign() == -self.spec_sign(),
    {
        match self {
            ControlMode::Direct => ControlMode::Mirrored,
            ControlMode::Mirrored => ControlMode::Direct,
        }
    }

    /// Advances the mode by one control cycle.  `crossed` says whether the
    /// scalar part of the orientation error, multiplied by `sign()`, is at
    /// or below the negative threshold.
    #[verifier::when_used_as_spec(spec_step)]
    pub fn step(self, crossed: bool) -> (m: ControlMode)
        ensures
            m == self.spec_step(crossed),
            crossed ==> m.spec_sign() == -self.spec_sign(),
            !crossed ==> m == self,
    {
        if crossed {
            self.flipped()
        } else {
            self
        }
    }

    /// Changing over twice leads back to the mode one started from.
    pub proof fn lemma_flip_twice(self)
        ensures
            self.spec_flipped().spec_flipped() == self,
            self.spec_flipped() != self,
    {
    }

    /// The mode after a run of control cycles depends only on whether the
    /// threshold was crossed an even or an odd number of times.
    pub proof fn lemma_run_parity(self, crossings: Seq<bool>)
        ensures
            run(self, crossings) == if count_true(crossings) % 2 == 0 {
                self
            } else {
                self.spec_flipped()
            },
        decreases crossings.len(),
    {
        if crossings.len() > 0 {
            self.lemma_run_parity(crossings.drop_last());
        }
    }
}

/// The mode after the control cycles of `crossings`, taken in order.
pub open spec fn run(start: ControlMode, crossings: Seq<bool>) -> ControlMode
    decreases crossings.len(),
{
    if crossings.len() == 0 {
        start
    } else {
        run(start, crossings.drop_last()).spec_step(crossings.last())
    }
}

/// Number of cycles in which the threshold was crossed.
pub open spec fn count_true(crossings: Seq<bool>) -> nat
    decreases crossings.len(),
{
    if crossings.len() == 0 {
        0
    } else {
        count_true(crossings.drop_last()) + if crossings.last() {
            1nat
        } else {
            0nat
        }
    }
}

} // verus!
