//! What the panel can be told to do.

use vstd::prelude::*;

verus! {

/// An instruction for the panel.
#[derive(Debug, Clone, Copy, PartialEq, Eq, Structural)]
pub enum Command {
    Show,
    Hide,
}

} // verus!
