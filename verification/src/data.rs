//! Managing the data of layouts.

pub mod parsing;
