//! Opaque handle to a material.
//!
//! Shading lives outside this core: geometry only carries a shared reference
//! to the material of the surface it hit, and hands it back unexamined in the
//! hit record.  The reference is an arena index, so any number of primitives
//! may share one material and the arena owner decides its lifetime.

use vstd::prelude::*;

verus! {

/// Index of a material in the caller's material arena.  The core never
/// interprets it; it only forwards it from a primitive into the hit records
/// the primitive produces.
#[derive(Clone, Copy, Debug, PartialEq, Eq, Structural)]
pub struct MaterialId {
    pub index: u64,
}

impl MaterialId {
    pub fn new(index: u64) -> (m: MaterialId)
        ensures
            m == (MaterialId { index }),
    {
        MaterialId { index }
    }
}

} // verus!
