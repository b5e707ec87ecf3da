//! What holds of the clock over time and over several switches.
use crate::clock::{
    advanced_at, next_phase, phase_nanos, ticked_at, Clock, ClockState, NANOS_PER_SEC, RELAX_SECS,
    WORK_SECS,
};
use vstd::prelude::*;

verus! {

/// The clock after switching once at each reading of `nows`, in order.
pub open spec fn advanced_through(c: Clock, nows: Seq<u128>) -> Clock
    decreases nows.len(),
{
    if nows.len() == 0 {
        c
    } else {
        advanced_at(advanced_through(c, nows.drop_last()), nows.last())
    }
}

/// A fresh clock, read `e` nanoseconds after it started and before the work
/// phase is over, is in the work phase with the work phase's length less
/// `e` left, and the check at that reading leaves it so.
pub proof fn fresh_clock_counts_down(c: Clock, e: u128)
    requires
        c.state == ClockState::Work,
        c.start == 0,
        e < WORK_SECS * NANOS_PER_SEC,
    ensures
        c.remaining_at(e as int) == WORK_SECS * NANOS_PER_SEC - e,
        ticked_at(c, e) == c,
        ticked_at(c, e).state == ClockState::Work,
{
}

/// A fresh clock that is checked at a reading `e` at or past the end of the
/// work phase moves to the relax phase, which begins at `e`: at any later
/// reading `t`, what is left is the relax phase's length less the time
/// since `e`.
pub proof fn expired_work_moves_to_relax(c: Clock, e: u128, t: u128)
    requires
        c.state == ClockState::Work,
        c.start == 0,
        e >= WORK_SECS * NANOS_PER_SEC,
        t >= e,
    ensures
        ticked_at(c, e).state == ClockState::Relax,
        ticked_at(c, e).remaining_at(e as int) == RELAX_SECS * NANOS_PER_SEC,
        ticked_at(c, e).remaining_at(t as int) == RELAX_SECS * NANOS_PER_SEC - (t - e),
{
}

/// Switching always changes the phase, and there are only two: after any
/// number of switches the clock is in the phase it began in where that
/// number is even, and in the other one where it is odd.
pub proof fn switching_alternates(c: Clock, nows: Seq<u128>)
    ensures
        next_phase(c.state) != c.state,
        next_phase(next_phase(c.state)) == c.state,
        advanced_through(c, nows).state == (if nows.len() % 2 == 1 {
            next_phase(c.state)
        } else {
            c.state
        }),
    decreases nows.len(),
{
    if nows.len() > 0 {
        switching_alternates(c, nows.drop_last());
    }
}

/// Whatever was left of the old phase, right after a switch the new phase
/// has its full length left.
pub proof fn switch_restarts_phase(c: Clock, now: u128)
    ensures
        advanced_at(c, now).state == next_phase(c.state),
        advanced_at(c, now).remaining_at(now as int) == phase_nanos(next_phase(c.state)),
{
}

/// The start of the current phase never moves back, whether the clock is
/// switched or only checked.
pub proof fn phase_start_never_moves_back(c: Clock, now: u128)
    ensures
        advanced_at(c, now).start >= c.start,
        ticked_at(c, now).start >= c.start,
{
}

} // verus!
