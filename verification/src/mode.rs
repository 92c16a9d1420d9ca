//! Operating modes, as tags of the device's type.

use vstd::prelude::*;

verus! {

/// One-shot operating mode: each measurement is requested.
#[derive(Debug, Clone, Copy)]
pub struct OneShot;

/// Continuous operating mode: the device converts on its own.
#[derive(Debug, Clone, Copy)]
pub struct Continuous;

} // verus!
