//! Verified structural kernel for an explicit finite-difference simulation of
//! four coupled scalar density fields (photon, axion, neutrino, energy) on a
//! fixed three-dimensional lattice.
//!
//! The crate proves the parts of such a simulator that are pure structure:
//!
//! * the bijective linear indexing of grid cells (x varies fastest, then y,
//!   then z), with a verified inverse;
//! * the edge-replicating boundary policy and the six-point stencil address
//!   resolution built on it;
//! * the field store holding the four equal-length density arrays, its shape
//!   invariant, and snapshot-based construction of a full next state;
//! * the pairwise braiding pass's site addressing along the x axis, including
//!   the strict left-to-right sequential dependency between adjacent pairs.
//!
//! The store is generic in the cell value, so every contract here holds for
//! whatever scalar a driver chooses. The floating-point constitutive laws
//! (equation of state, conversion rates, metric factor) and the per-cell
//! arithmetic live outside the verified surface: a driver reads cell
//! neighbourhoods and writes whole next states or site pairs through the
//! contracts given here.

pub mod braid;
pub mod field;
pub mod grid;
