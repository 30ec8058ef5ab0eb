use vstd::prelude::*;

pub mod errors;
pub mod events;
pub mod instructions;
pub mod laws;
pub mod math;
pub mod numeric;
pub mod oracle;
pub mod state;

verus! {
} // verus!
