//! The record of the task-space controller.
//!
//! The controller drives an end effector to a desired pose and twist.  Its
//! record is generic in the numeric payload: `S` is the scalar, `V3` a
//! 3-vector, `V4` the vector of the four joint angles, `V6` a twist and `Q`
//! a unit quaternion.  The period and the threshold are set when the
//! controller is made and stay as they are; the mode changes only by a
//! control cycle.

use vstd::prelude::*;
use crate::mode::ControlMode;

verus! {

/// What a controller is made with.
pub struct IKParams<S, V3> {
    /// Gains on the position error of the end effector.
    pub k_p_ee: V3,
    /// Gain on the orientation error.
    pub k_q: S,
    /// Control period.
    pub dt: S,
    /// Threshold on the scalar part of the orientation error, beyond which
    /// the controller changes over to the other lobe.
    pub delta: S,
}

/// The part of a controller's record that is not open to its user: the
/// period and the threshold, which stay as they were made, and the mode,
/// which only a control cycle changes.
pub struct CycleState<S> {
    dt: S,
    delta: S,
    mode: ControlMode,
}

impl<S> CycleState<S> {
    /// The control period.
    pub closed spec fn spec_dt(self) -> S {
        self.dt
    }

    /// The threshold for changing over to the other lobe.
    pub closed spec fn spec_delta(self) -> S {
        self.delta
    }

    /// The lobe of the orientation error that is tracked.
    pub closed spec fn spec_mode(self) -> ControlMode {
        self.mode
    }
}

impl<S: Copy> CycleState<S> {
    /// The cycle state of a new controller: it tracks the direct lobe.
    pub fn new(dt: S, delta: S) -> (c: Self)
        ensures
            c.spec_dt() == dt,
            c.spec_delta() == delta,
            c.spec_mode() == ControlMode::Direct,
    {
        CycleState { dt, delta, mode: ControlMode::new() }
    }

    /// The control period.
    pub fn dt(&self) -> (dt: S)
        ensures
            dt == self.spec_dt(),
    {
        self.dt
    }

    /// The threshold for changing over to the other lobe.
    pub fn delta(&self) -> (delta: S)
        ensures
            delta == self.spec_delta(),
    {
        self.delta
    }

    /// The lobe of the orientation error that is tracked.
    pub fn mode(&self) -> (m: ControlMode)
        ensures
            m == self.spec_mode(),
    {
        self.mode
    }

    /// Advances the mode by one control cycle; the period and the
    /// threshold stay.  `crossed` says whether the scalar part of the
    /// orientation error, multiplied by the sign of the mode, is at or
    /// below the negative threshold.
    pub fn step(&mut self, crossed: bool)
        ensures
            final(self).spec_mode() == old(self).spec_mode().spec_step(crossed),
            final(self).spec_dt() == old(self).spec_dt(),
            final(self).spec_delta() == old(self).spec_delta(),
    {
        self.mode = self.mode.step(crossed);
    }
}

/// The record of a task-space controller.
pub struct InverseKinematicController<S, V3, V4, V6, Q> {
    /// Desired joint angles.
    pub q_d: V4,
    /// Desired position of the end effector.
    pub pos_ee_d: V3,
    /// Desired orientation of the end effector.
    pub quat_ee_d: Q,
    /// Desired twist of the end effector.
    pub vel_ee_d: V6,
    /// Position of the end effector.
    pub pos_ee: V3,
    /// Orientation of the end effector.
    pub quat_ee: Q,
    /// Twist of the end effector.
    pub vel_ee: V6,
    /// Orientation error of the last control cycle.
    pub quat_err: Q,
    /// Joint angles that the redundant motion is to stay near.
    pub q_null: V4,
    /// Gains on the position error of the end effector.
    pub k_p_ee: V3,
    /// Gain on the orientation error.
    pub k_q: S,
    /// Period, threshold and mode.
    pub cycle: CycleState<S>,
}

impl<S: Copy, V3: Copy, V4: Copy, V6: Copy, Q: Copy> InverseKinematicController<S, V3, V4, V6, Q> {
    /// A controller at rest: the end effector and its reference are at
    /// `origin` with the orientation `identity` and the twist `still`, the
    /// joint angles and their null-space reference are `straight`, and
    /// there is no orientation error.  It tracks the direct lobe.
    pub fn new(params: &IKParams<S, V3>, origin: V3, identity: Q, still: V6, straight: V4) -> (c:
        Self)
        ensures
            c.q_d == straight,
            c.q_null == straight,
            c.pos_ee_d == origin,
            c.pos_ee == origin,
            c.quat_ee_d == identity,
            c.quat_ee == identity,
            c.quat_err == identity,
            c.vel_ee_d == still,
            c.vel_ee == still,
            c.k_p_ee == params.k_p_ee,
            c.k_q == params.k_q,
            c.cycle.spec_dt() == params.dt,
            c.cycle.spec_delta() == params.delta,
            c.cycle.spec_mode() == ControlMode::Direct,
    {
        InverseKinematicController {
            q_d: straight,
            pos_ee_d: origin,
            quat_ee_d: identity,
            vel_ee_d: still,
            pos_ee: origin,
            quat_ee: identity,
            vel_ee: still,
            quat_err: identity,
            q_null: straight,
            k_p_ee: params.k_p_ee,
            k_q: params.k_q,
            cycle: CycleState::new(params.dt, params.delta),
        }
    }

    /// Sets where the end effector is to go, and how fast.
    pub fn set_ee_references(&mut self, pos_ee_d: V3, quat_ee_d: Q, vel_ee_d: V6)
        ensures
            *final(self) == (InverseKinematicController {
                pos_ee_d,
                quat_ee_d,
                vel_ee_d,
                ..*old(self)
            }),
    {
        self.pos_ee_d = pos_ee_d;
        self.quat_ee_d = quat_ee_d;
        self.vel_ee_d = vel_ee_d;
    }

    /// Sets the joint angles that the redundant motion is to stay near.
    pub fn set_nullspace_reference(&mut self, q_null: V4)
        ensures
            *final(self) == (InverseKinematicController { q_null, ..*old(self) }),
    {
        self.q_null = q_null;
    }

    /// Sets the gains.  The period, the threshold and the mode stay.
    pub fn set_gains(&mut self, k_p_ee: V3, k_q: S)
        ensures
            *final(self) == (InverseKinematicController { k_p_ee, k_q, ..*old(self) }),
    {
        self.k_p_ee = k_p_ee;
        self.k_q = k_q;
    }
}

} // verus!
