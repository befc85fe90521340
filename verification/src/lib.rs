//! Structural core of an articulated underwater vehicle simulator.
//!
//! The numeric payload (scalars, 3-vectors, 6-vectors) is carried through
//! type parameters and never inspected here.  What this crate decides, and
//! proves, is everything discrete around the numerics: whether a vehicle
//! description is consistent, how the flat simulation state is partitioned,
//! which actuator drives which generalized coordinate, that an inertia is
//! symmetric, and which lobe of the orientation error a task-space
//! controller tracks.

pub mod actuation;
pub mod bluerov_reach;
pub mod config;
pub mod error;
pub mod ik_controller;
pub mod inertia;
pub mod joint;
pub mod layout;
pub mod mode;
pub mod record;
pub mod state;
pub mod symmetric;
pub mod thruster;
pub mod topology;

pub use actuation::{Actuation, Actuator, ShapeError};
pub use bluerov_reach::BlueROVReachConfig;
pub use config::Config;
pub use error::{ConfigError, Field};
pub use ik_controller::{CycleState, IKParams, InverseKinematicController};
pub use inertia::{LinkInertialModel, OrderError};
pub use joint::{Axis, JointType};
pub use layout::{Block, LayoutError, StateLayout};
pub use mode::ControlMode;
pub use state::{Blocks, StateParts};
pub use symmetric::Symmetric;
