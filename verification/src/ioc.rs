//! Input and output control: the registers that tie pins to peripherals.

use vstd::prelude::*;

verus! {

/// Extension trait to split the input and output control in independent
/// registers.
pub trait IocExt {
    /// The parts to split the control into.
    type Parts;

    /// Splits the control into independent registers.
    fn split(self) -> Self::Parts;
}

} // verus!
