//! Front end configuration: how the fluid simulation is presented.

use vstd::prelude::*;

verus! {

/// Configuration struct for the frontend. It has no options yet.
#[derive(Debug, Clone, Copy, PartialEq, Eq, Structural)]
pub struct FrontendConfiguration {}

impl Default for FrontendConfiguration {
    /// The default frontend configuration for the fluid simulation.
    fn default() -> (config: Self)
        ensures
            config == (FrontendConfiguration {}),
    {
        FrontendConfiguration {}
    }
}

} // verus!
