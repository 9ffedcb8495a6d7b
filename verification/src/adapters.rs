//! The adapters that turn the engine's output into data for the frontend.

use vstd::prelude::*;

verus! {

/// Simplest kind of adapter - it hands the engine output given to it on unchanged.
#[derive(Debug, Clone, Copy)]
pub struct RawOutputAdapter;

} // verus!
