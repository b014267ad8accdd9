//! The message that travels from the input decoder to the dimming state
//! machine.

use vstd::prelude::*;

verus! {

/// What one key event means to the dimmer.
#[derive(Clone, Copy, Debug, PartialEq, Eq, Structural)]
pub enum ActivitySignal {
    /// A key changed state: the user is at the keyboard.
    KeyActivity,
    /// The "L" key was released while a meta key was held.
    LockCombo,
}

} // verus!
