//! Decision logic of a black-hole ray tracer: the ray-session state machine
//! and the bounded step-retry policy of the adaptive integrator.
//!
//! The numerical work (metric, conserved quantities, derivative functions,
//! Runge-Kutta steppers) is floating point and lives outside this crate; it
//! hands the outcome of each comparison to these verified functions.

pub mod retry;
pub mod session;

use vstd::prelude::*;

verus! {

/// The greeting string of this crate.
pub open spec fn placeholder_text() -> Seq<char> {
    "Hello from the simulation crate!"@
}

/// Returns a fixed greeting that identifies the crate.
pub fn get_placeholder_string() -> (r: &'static str)
    ensures
        r@ == placeholder_text(),
{
    "Hello from the simulation crate!"
}

} // verus!
