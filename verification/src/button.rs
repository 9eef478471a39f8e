//! The user button: the events it reports, and what its interrupt handler
//! does with the pin.
use vstd::prelude::*;

verus! {

/// What the button reports.
#[derive(Copy, Clone, Debug, PartialEq, Eq)]
pub enum ButtonEvent {
    Pressed,
    Released,
}

/// What the interrupt handler does with the pin's interrupt-pending bit.
#[derive(Copy, Clone, Debug, PartialEq, Eq)]
pub enum InterruptAction {
    /// The pin raised the interrupt: clear its pending bit.
    ClearPending,
    /// The interrupt was not this pin's: leave the pin alone.
    Ignore,
}

/// The button, on an input pin that can raise an external interrupt.
pub struct Button<PIN> {
    pub pin: PIN,
}

impl<PIN> Button<PIN> {
    /// The button on `pin`.
    pub fn new(pin: PIN) -> (b: Self)
        ensures
            b.pin == pin,
    {
        Button { pin }
    }

    /// What the interrupt handler does, given whether the pin reports a
    /// pending interrupt: it clears the pending bit exactly when it is set.
    pub fn interrupt_action(&self, pending: bool) -> (action: InterruptAction)
        ensures
            action == (if pending {
                InterruptAction::ClearPending
            } else {
                InterruptAction::Ignore
            }),
    {
        if pending {
            InterruptAction::ClearPending
        } else {
            InterruptAction::Ignore
        }
    }
}

} // verus!
