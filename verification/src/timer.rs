//! The clock a cell runs by.

use vstd::prelude::*;

verus! {

/// A microsecond counter of 32 bits, which wraps round after about 71.6
/// minutes.
pub trait Timer32 {
    /// The counter's present value.
    fn now(&self) -> u32;
}

} // verus!
