//! Identifiers of the operating system.
use vstd::prelude::*;

verus! {

/// A globally unique identifier, written as one number.
#[derive(Clone, Copy, Debug, PartialEq, Eq, Structural)]
pub struct Guid {
    /// The 128 bits, the first field in the highest ones.
    pub value: u128,
}

} // verus!
