//! Configuration values of the backend's engine that are not floating-point numbers.

use vstd::prelude::*;

verus! {

/// How many iterations the projection step (making the velocity field incompressible) runs
/// when the configuration does not say.
pub const DEFAULT_PROJECTIONS_ITERATIONS: usize = 25;

/// The number of projection iterations to use when the configuration does not give one.
pub fn default_projections_iterations() -> (iterations: usize)
    ensures
        iterations == DEFAULT_PROJECTIONS_ITERATIONS,
{
    DEFAULT_PROJECTIONS_ITERATIONS
}

} // verus!
