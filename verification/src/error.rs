//! The error of a measurement.

use vstd::prelude::*;

verus! {

/// An ADC error.
#[derive(Debug)]
pub enum Error<BUS> {
    /// A bus error.
    Bus(BUS),
}

} // verus!
