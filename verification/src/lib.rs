//! A streaming reader for Test Anything Protocol output: it classifies each
//! line, tallies the outcomes and reports a summary.

pub mod decimal;
pub mod laws;
pub mod line;
pub mod tap;
pub mod text;
