//! The library's share of the flow-field animation.
//!
//! Positions, velocities and the field itself are fractions and are kept by
//! the program round this crate, which places the particles when the flow
//! field is entered (see [`crate::tasks::Action::PrepareFlowField`]).

use vstd::prelude::*;

verus! {

/// Generates particles ahead of the animation. The animation has a fixed set
/// of particles that is placed on entry, so there is nothing to generate and
/// the call changes nothing.
pub fn generate_particles() {
}

} // verus!
