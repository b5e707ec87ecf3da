//! The two-phase clock.
use vstd::prelude::*;

verus! {

/// Length of the work phase, in seconds.
pub const WORK_SECS: u128 = 1499;

/// Length of the relax phase, in seconds.
pub const RELAX_SECS: u128 = 899;

/// Nanoseconds in one second.
pub const NANOS_PER_SEC: u128 = 1_000_000_000;

/// The phase the clock is in.
#[derive(Clone, Copy, Debug, PartialEq, Eq, Structural)]
pub enum ClockState {
    Work,
    Relax,
}

/// What the display shows for a phase.
pub open spec fn label_text(s: ClockState) -> Seq<char> {
    match s {
        ClockState::Work => "Time to Work"@,
        ClockState::Relax => "Time to Relax"@,
    }
}

/// The phase that follows `s`.
pub open spec fn next_phase(s: ClockState) -> ClockState {
    match s {
        ClockState::Work => ClockState::Relax,
        ClockState::Relax => ClockState::Work,
    }
}

/// Length of phase `s`, in nanoseconds.
pub open spec fn phase_nanos(s: ClockState) -> int {
    match s {
        ClockState::Work => WORK_SECS * NANOS_PER_SEC,
        ClockState::Relax => RELAX_SECS * NANOS_PER_SEC,
    }
}

impl ClockState {
    /// The label shown above the countdown.
    pub fn label(&self) -> (r: &'static str)
        ensures
            r@ == label_text(*self),
    {
        match self {
            ClockState::Work => "Time to Work",
            ClockState::Relax => "Time to Relax",
        }
    }

    /// The phase that follows this one.
    pub fn next(&self) -> (r: ClockState)
        ensures
            r == next_phase(*self),
    {
        match self {
            ClockState::Work => ClockState::Relax,
            ClockState::Relax => ClockState::Work,
        }
    }

    /// Length of this phase, in nanoseconds.
    pub fn duration_nanos(&self) -> (r: u128)
        ensures
            r == phase_nanos(*self),
    {
        match self {
            ClockState::Work => WORK_SECS * NANOS_PER_SEC,
            ClockState::Relax => RELAX_SECS * NANOS_PER_SEC,
        }
    }
}

/// Time spent in a phase that began at `start`, read at `now`. A reading
/// earlier than the start counts as no time spent.
pub open spec fn elapsed_nanos(start: int, now: int) -> int {
    if now >= start {
        now - start
    } else {
        0
    }
}

/// A signed span of time: what is left of a phase, negative once the phase
/// has run over. It is kept as a sign and a magnitude in nanoseconds.
#[derive(Clone, Copy, Debug, PartialEq, Eq, Structural)]
pub struct Remaining {
    pub overdue: bool,
    pub nanos: u128,
}

impl Remaining {
    /// The span as a signed number of nanoseconds.
    pub open spec fn value(self) -> int {
        if self.overdue {
            -(self.nanos as int)
        } else {
            self.nanos as int
        }
    }

    /// Whether the phase is over: nothing, or less than nothing, is left.
    pub fn is_up(&self) -> (r: bool)
        ensures
            r == (self.value() <= 0),
    {
        self.overdue || self.nanos == 0
    }
}

/// The clock: which phase it is in, and when that phase began, in
/// nanoseconds since the clock's origin on the monotonic clock.
pub struct Clock {
    pub time: std::time::Instant,
    pub start: u128,
    pub state: ClockState,
}

impl Clock {
    /// What is left of the current phase at reading `now`.
    pub open spec fn remaining_at(&self, now: int) -> int {
        phase_nanos(self.state) - elapsed_nanos(self.start as int, now)
    }

    /// A clock in the work phase, which begins now.
    pub fn start() -> (r: Clock)
        ensures
            r.state == ClockState::Work,
            r.start == 0,
    {
        Clock { time: std::time::Instant::now(), start: 0, state: ClockState::Work }
    }

    /// A reading of the monotonic clock, in nanoseconds since the origin.
    pub fn now(&self) -> (r: u128) {
        self.time.elapsed().as_nanos()
    }

    /// What is left of the current phase at reading `now`.
    pub fn left_at(&self, now: u128) -> (r: Remaining)
        ensures
            r.value() == self.remaining_at(now as int),
    {
        let total = self.state.duration_nanos();
        let spent: u128 = if now >= self.start {
            now - self.start
        } else {
            0
        };
        if spent <= total {
            Remaining { overdue: false, nanos: total - spent }
        } else {
            Remaining { overdue: true, nanos: spent - total }
        }
    }

    /// What is left of the current phase now. Whatever the reading, it is
    /// at most the phase's full length.
    pub fn left(&self) -> (r: Remaining)
        ensures
            r.value() <= phase_nanos(self.state),
            exists|now: u128| r.value() == self.remaining_at(now as int),
    {
        let now = self.now();
        self.left_at(now)
    }

    /// Switches to the other phase, which begins at reading `now`. The start
    /// of the phase never moves back.
    pub fn reset_at(&mut self, now: u128)
        ensures
            *final(self) == advanced_at(*old(self), now),
    {
        if now >= self.start {
            self.start = now;
        }
        self.state = self.state.next();
    }

    /// Switches to the other phase, which begins now.
    pub fn reset(&mut self)
        ensures
            final(self).state == next_phase(old(self).state),
            final(self).start >= old(self).start,
            final(self).time == old(self).time,
            final(self).remaining_at(final(self).start as int) == phase_nanos(final(self).state),
    {
        let now = self.now();
        self.reset_at(now);
    }

    /// The check made before each frame: where the phase is over at reading
    /// `now`, the clock moves on to the next one, which begins then. What is
    /// left afterwards is never zero or less.
    pub fn tick_at(&mut self, now: u128)
        ensures
            *final(self) == ticked_at(*old(self), now),
            final(self).remaining_at(now as int) > 0,
    {
        if self.left_at(now).is_up() {
            self.reset_at(now);
        }
    }
}

/// The clock once it has switched to the other phase at reading `now`: the
/// new phase begins then, or where a later start is recorded, at that start.
pub open spec fn advanced_at(c: Clock, now: u128) -> Clock {
    Clock {
        time: c.time,
        start: if now >= c.start {
            now
        } else {
            c.start
        },
        state: next_phase(c.state),
    }
}

/// The clock after the check at reading `now`: advanced where its phase is
/// over, unchanged otherwise.
pub open spec fn ticked_at(c: Clock, now: u128) -> Clock {
    if c.remaining_at(now as int) <= 0 {
        advanced_at(c, now)
    } else {
        c
    }
}

} // verus!
