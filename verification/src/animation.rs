//! Animation details.

use vstd::prelude::*;
use crate::time::Duration;

verus! {

/// How long the panel stays up after the input method went inactive, in milliseconds.
/// Text fields which hand the focus over to one another go inactive for a moment,
/// and the panel should not flicker then.
pub const HIDING_TIMEOUT_MILLIS: u64 = 200;

/// The span of [`HIDING_TIMEOUT_MILLIS`].
pub open spec fn spec_hiding_timeout() -> Duration {
    Duration { nanos: 200_000_000 }
}

#[verifier::when_used_as_spec(spec_hiding_timeout)]
pub fn hiding_timeout() -> (timeout: Duration)
    ensures
        timeout == spec_hiding_timeout(),
{
    Duration::from_millis(HIDING_TIMEOUT_MILLIS)
}

/// The outwardly visible state of the panel.
#[derive(Debug, Clone, Copy, PartialEq, Eq, Structural)]
pub enum Outcome {
    Visible,
    Hidden,
}

} // verus!
