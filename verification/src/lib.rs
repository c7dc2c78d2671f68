//! The core of an N-body galaxy simulation.
//!
//! A run starts from a list of [`Galaxy`] descriptors. [`init_galaxy`] puts
//! down their anchors and returns the population under construction, which
//! asks for the satellites of each formation one by one. The finished
//! population goes into a [`State`], the double-buffered store that the
//! integration step reads and writes, and a [`Pacer`] says when to snapshot,
//! when to integrate and when to hand a frame over.
//!
//! Real numbers are carried as [`Scalar`]s, the bit patterns of
//! single-precision floats. The crate classifies and orders them and never
//! computes with them: sampling radii and angles, placing a satellite on its
//! orbit and integrating the force law are the caller's work.

pub mod config;
pub mod dispatch;
pub mod error;
pub mod formation;
pub mod galaxy;
pub mod memory;
pub mod pace;
pub mod particle;
pub mod population;
pub mod random;
pub mod scalar;
pub mod state;
pub mod watch;

pub use crate::config::Config;
pub use crate::error::Error;
pub use crate::formation::{create, formation, Group, Request, Sample};
pub use crate::galaxy::Galaxy;
pub use crate::pace::{Command, Pacer, Phase};
pub use crate::particle::{Particle, Vec3};
pub use crate::population::{init_galaxy, Nursery};
pub use crate::scalar::Scalar;
pub use crate::state::{Controls, GpuInfo, State};
