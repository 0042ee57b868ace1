//! The aggregation circuit's input shape: it folds an already-proved
//! recursive proof's public values and verifying key into one statement.

use vstd::prelude::*;

verus! {

/// A recursive proof's public values and verifying key words, as the
/// aggregation circuit consumes them.
#[derive(Clone, Debug)]
pub struct RecursiveInputs {
    pub public_values: Vec<u8>,
    pub vk: [u32; 8],
}

} // verus!
