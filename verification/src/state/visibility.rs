//! The user's say in whether the panel shows.

use vstd::prelude::*;

verus! {

/// What the user asks for.
#[derive(Debug, Clone, Copy, PartialEq, Eq, Structural)]
pub enum Event {
    /// User requested the panel to show
    ForceVisible,
    /// The user requested the panel to go down
    ForceHidden,
}

/// What the user last asked for, as long as it still counts.
#[derive(Debug, Clone, Copy, PartialEq, Eq, Structural)]
pub enum State {
    /// Last interaction was user forcing the panel to go visible
    ForcedVisible,
    /// Last interaction was user forcing the panel to hide
    ForcedHidden,
    /// Last interaction was the input method changing active state
    NotForced,
}

} // verus!
