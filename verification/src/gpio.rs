//! Logic levels of GPIO pins.
use vstd::prelude::*;

verus! {

/// The logic level of a digital pin.
#[derive(Clone, Copy, Debug, PartialEq, Eq, Structural)]
pub enum Level {
    Low,
    High,
}

} // verus!
