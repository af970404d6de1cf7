//! Problems which are worth telling about, as values.
//!
//! Nothing here prints.
//! Whatever comes across a problem hands it to its caller,
//! who knows where such things should go.

use vstd::prelude::*;

verus! {

/// How bad a problem is.
#[derive(Debug, Clone, Copy, PartialEq, Eq, Structural)]
pub enum Level {
    /// The program ended up in a state that it should never have reached,
    /// but it can go on.
    Bug,
    /// Something in the input is broken, and got replaced by a guess.
    Warning,
}

/// A problem, and the words to describe it.
#[derive(Debug, PartialEq, Eq)]
pub struct Report {
    pub level: Level,
    pub message: String,
}

impl View for Report {
    type V = (Level, Seq<char>);

    open spec fn view(&self) -> (Level, Seq<char>) {
        (self.level, self.message@)
    }
}

/// The reports in a list, as plain values.
pub open spec fn report_views(reports: Seq<Report>) -> Seq<(Level, Seq<char>)> {
    Seq::new(reports.len(), |i: int| reports[i]@)
}

} // verus!
