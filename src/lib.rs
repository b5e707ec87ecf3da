//! A work/relax interval timer: a two-phase clock, the text of its
//! countdown, and the decisions of the loop that drives it.

pub mod clock;
pub mod countdown;
pub mod laws;
pub mod monotonic;
pub mod run;
