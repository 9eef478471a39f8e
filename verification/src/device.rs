//! The device's glue between its actors.
use vstd::prelude::*;

verus! {

/// Links the button to the first LED and the temperature sensor; `L` and `H`
/// are the handles through which it reaches them.
pub struct ButtonToLed<L, H> {
    pub ld1: L,
    pub hts221: H,
}

impl<L, H> ButtonToLed<L, H> {
    /// The link to the LED `ld1` and the sensor `hts221`.
    pub fn new(ld1: L, hts221: H) -> (b: Self)
        ensures
            b.ld1 == ld1,
            b.hts221 == hts221,
    {
        ButtonToLed { ld1, hts221 }
    }
}

} // verus!
