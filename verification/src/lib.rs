//! A constraint solver for planar quadrilaterals.
//!
//! A quadrilateral A, B, C, D is described by some of its four side lengths
//! and some of its four interior angles. This crate decides whether such a
//! description determines a shape, completes a missing angle from the angle
//! sum, chooses the construction that places the vertices, and checks the
//! outcome of that construction against the given lengths.
//!
//! All quantities are exact integers: lengths in micrometers, angles in
//! microdegrees. The trigonometry that places the vertices is left to the
//! caller, who reports what it measured as a [`solver::Placement`].

pub mod ident;
pub mod measures;
pub mod error;
pub mod strategy;
pub mod rounding;
pub mod closure;
pub mod binary64;
pub mod angles;
pub mod quadrilateral;
pub mod solver;
pub mod laws;
pub mod format;
pub mod version;
pub mod update;
