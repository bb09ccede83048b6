//! Transient heat-transfer core of an axisymmetric plasma furnace.
//!
//! A cylinder is meshed in `(r, z)`, heated by plasma torches, and stepped
//! through time by an explicit scheme; its material may melt and vaporize.
//! This crate is the part of the simulator of which every line is proved:
//!
//! * [`params`] admits a parameter set or names the rule that it breaks;
//! * [`solver`] sweeps the mesh step by step, applies the boundary
//!   conditions, holds every step to the bounds that must hold of it, and
//!   records the history ([`kernels`], [`phase`], [`results`]);
//! * [`state`] is the lifecycle of a run, with pause, resume and
//!   cancellation;
//! * [`boundary`] is the protocol that a foreign caller speaks, and
//!   [`channels`] the status codes of its side channels.
//!
//! Physical quantities are double-precision numbers.  They cross the crate
//! as their IEEE-754 encodings ([`scalar::Scalar`]): the crate stores,
//! moves, orders and classifies them, and never computes with them.  The
//! formulas that produce them are the caller's, handed to the solver as
//! [`kernels::Kernels`]; what is proved of a run holds for every choice of
//! them.
//!
//! Fields live in `ndarray` arrays ([`field`]) and the clock is read through
//! `std::time` ([`clock`]); these two are taken on trust.

pub mod boundary;
pub mod channels;
pub mod clock;
pub mod field;
pub mod kernels;
pub mod material;
pub mod mesh;
pub mod params;
pub mod phase;
pub mod progress;
pub mod results;
pub mod scalar;
pub mod solver;
pub mod state;
pub mod step;
pub mod text;
pub mod torch;
