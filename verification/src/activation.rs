//! Activation layers of the model definitions around this core.
use vstd::prelude::*;

verus! {

/// The gated activation used by the surrounding model definitions: the input
/// is split in half along its last dimension, the first half passes through
/// a sigmoid-weighted linear unit, and the result is multiplied elementwise
/// with the second half. The layer has no parameters; its forward pass is
/// floating-point tensor math and lives with the unverified model code.
#[derive(Debug)]
pub struct SiluAndMul {}

impl SiluAndMul {
    /// A new instance; the layer holds no state.
    pub fn new() -> (r: Self)
        ensures
            r == (SiluAndMul {  }),
    {
        SiluAndMul {  }
    }
}

} // verus!
