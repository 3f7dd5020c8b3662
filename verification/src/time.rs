//! Durations as the timer driver counts them.

use vstd::prelude::*;

verus! {

/// A span of time in whole milliseconds.
#[derive(Clone, Copy, Debug, PartialEq, Eq, Structural)]
pub struct Milliseconds(pub u32);

} // verus!
